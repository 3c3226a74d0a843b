//! Decimal text of unsigned integers, both ways.
use vstd::prelude::*;
use crate::text::{append_str, chars_of, push_char};

verus! {

/// Whether `c` is an ASCII decimal digit.
pub open spec fn is_digit(c: char) -> bool {
    '0' <= c && c <= '9'
}

/// The value of the digit `c` (0 for a character that is no digit).
pub open spec fn digit_of(c: char) -> nat {
    if is_digit(c) {
        (c as int - '0' as int) as nat
    } else {
        0
    }
}

/// The character for the digit `d` (`d < 10`).
pub open spec fn digit_char(d: nat) -> char {
    if d == 0 {
        '0'
    } else if d == 1 {
        '1'
    } else if d == 2 {
        '2'
    } else if d == 3 {
        '3'
    } else if d == 4 {
        '4'
    } else if d == 5 {
        '5'
    } else if d == 6 {
        '6'
    } else if d == 7 {
        '7'
    } else if d == 8 {
        '8'
    } else {
        '9'
    }
}

/// The decimal text of `n`, without sign or leading zeros, as `Display` writes
/// an unsigned integer.
pub open spec fn decimal(n: nat) -> Seq<char>
    decreases n,
{
    if n < 10 {
        seq![digit_char(n)]
    } else {
        decimal(n / 10).push(digit_char(n % 10))
    }
}

/// The value of a run of decimal digits.
pub open spec fn digits_value(d: Seq<char>) -> nat
    decreases d.len(),
{
    if d.len() == 0 {
        0
    } else {
        digits_value(d.drop_last()) * 10 + digit_of(d.last())
    }
}

pub open spec fn all_digits(d: Seq<char>) -> bool {
    forall|i: int| 0 <= i < d.len() ==> is_digit(#[trigger] d[i])
}

/// The digits of an unsigned integer literal: all but an optional leading `+`.
pub open spec fn unsigned_digits(s: Seq<char>) -> Seq<char> {
    if s.len() > 0 && s[0] == '+' {
        s.drop_first()
    } else {
        s
    }
}

/// The value that `str::parse` gives for an unsigned integer type whose
/// largest value is `max`: an optional `+`, then one or more decimal digits,
/// of value at most `max`; `None` for any other text.
pub open spec fn parse_unsigned(s: Seq<char>, max: nat) -> Option<nat> {
    let d = unsigned_digits(s);
    if d.len() > 0 && all_digits(d) && digits_value(d) <= max {
        Some(digits_value(d))
    } else {
        None
    }
}

fn digit_text(d: u64) -> (c: char)
    requires
        d < 10,
    ensures
        c == digit_char(d as nat),
{
    if d == 0 {
        '0'
    } else if d == 1 {
        '1'
    } else if d == 2 {
        '2'
    } else if d == 3 {
        '3'
    } else if d == 4 {
        '4'
    } else if d == 5 {
        '5'
    } else if d == 6 {
        '6'
    } else if d == 7 {
        '7'
    } else if d == 8 {
        '8'
    } else {
        '9'
    }
}

/// Appends the decimal text of `n` to `out`.
pub fn append_decimal(out: &mut String, n: u64)
    ensures
        final(out)@ == old(out)@ + decimal(n as nat),
    decreases n,
{
    if n < 10 {
        push_char(out, digit_text(n));
        assert(old(out)@.push(digit_char(n as nat)) =~= old(out)@ + decimal(n as nat));
    } else {
        append_decimal(out, n / 10);
        push_char(out, digit_text(n % 10));
        assert(old(out)@ + decimal((n / 10) as nat) + seq![digit_char((n % 10) as nat)] =~= old(out)@
            + decimal(n as nat));
    }
}

/// The decimal text of `n`.
pub fn decimal_text(n: u64) -> (r: String)
    ensures
        r@ == decimal(n as nat),
{
    let mut r = String::new();
    append_decimal(&mut r, n);
    assert(r@ =~= decimal(n as nat));
    r
}

fn digit_value(c: char) -> (r: u64)
    ensures
        r == digit_of(c),
        r < 10,
{
    if c == '0' {
        0
    } else if c == '1' {
        1
    } else if c == '2' {
        2
    } else if c == '3' {
        3
    } else if c == '4' {
        4
    } else if c == '5' {
        5
    } else if c == '6' {
        6
    } else if c == '7' {
        7
    } else if c == '8' {
        8
    } else if c == '9' {
        9
    } else {
        proof {
            assert(!is_digit(c)) by {
                if is_digit(c) {
                    assert(c as int >= '0' as int && c as int <= '9' as int);
                }
            }
        }
        0
    }
}

fn digit_test(c: char) -> (r: bool)
    ensures
        r == is_digit(c),
{
    '0' <= c && c <= '9'
}

proof fn lemma_digits_value_prefix(d: Seq<char>, j: int, k: int)
    requires
        0 <= j <= k <= d.len(),
    ensures
        digits_value(d.subrange(0, j)) <= digits_value(d.subrange(0, k)),
    decreases k - j,
{
    if j < k {
        lemma_digits_value_prefix(d, j, k - 1);
        assert(d.subrange(0, k).drop_last() =~= d.subrange(0, k - 1));
    }
}

/// The value of the unsigned integer text `v`, if it is one and is at most
/// `max`.
pub fn parse_unsigned_chars(v: &Vec<char>, max: u64) -> (r: Option<u64>)
    ensures
        match r {
            Some(n) => parse_unsigned(v@, max as nat) == Some(n as nat),
            None => parse_unsigned(v@, max as nat) is None,
        },
{
    let start: usize = if v.len() > 0 && v[0] == '+' {
        1
    } else {
        0
    };
    let ghost d = unsigned_digits(v@);
    assert(d =~= v@.subrange(start as int, v@.len() as int));
    if start >= v.len() {
        return None;
    }
    let mut acc: u64 = 0;
    let mut i: usize = start;
    while i < v.len()
        invariant
            start <= i <= v@.len(),
            d == unsigned_digits(v@),
            d == v@.subrange(start as int, v@.len() as int),
            all_digits(d.subrange(0, i - start)),
            acc as nat == digits_value(d.subrange(0, i - start)),
            acc <= max,
        decreases v@.len() - i,
    {
        let c = v[i];
        if !digit_test(c) {
            assert(d[i - start] == c);
            return None;
        }
        let next: u128 = acc as u128 * 10 + digit_value(c) as u128;
        assert(d.subrange(0, i + 1 - start).drop_last() =~= d.subrange(0, i - start));
        if next > max as u128 {
            proof {
                lemma_digits_value_prefix(d, i + 1 - start, d.len() as int);
                assert(d.subrange(0, d.len() as int) =~= d);
            }
            return None;
        }
        acc = next as u64;
        i = i + 1;
    }
    assert(d.subrange(0, i - start) =~= d);
    Some(acc)
}

/// `key` and `value` in the message `parse_u64` gives for a value that is no
/// `u64`.
pub open spec fn unsigned_error(key: Seq<char>, value: Seq<char>) -> Seq<char> {
    key + " expects unsigned integer, got "@ + value
}

/// `key` and `value` in the message `parse_u8` gives for a value that is no
/// `u8`.
pub open spec fn u8_error(key: Seq<char>, value: Seq<char>) -> Seq<char> {
    key + " expects u8 integer, got "@ + value
}

/// Reads `value` as a `u64`; the error names `key`.
pub fn parse_u64(key: &str, value: &str) -> (r: Result<u64, String>)
    ensures
        match r {
            Ok(n) => parse_unsigned(value@, u64::MAX as nat) == Some(n as nat),
            Err(m) => parse_unsigned(value@, u64::MAX as nat) is None && m@ == unsigned_error(
                key@,
                value@,
            ),
        },
{
    let v = chars_of(value);
    match parse_unsigned_chars(&v, u64::MAX) {
        Some(n) => Ok(n),
        None => {
            let mut m = String::new();
            append_str(&mut m, key);
            append_str(&mut m, " expects unsigned integer, got ");
            append_str(&mut m, value);
            assert(m@ =~= unsigned_error(key@, value@));
            Err(m)
        },
    }
}

/// Reads `value` as a `u8`; the error names `key`.
pub fn parse_u8(key: &str, value: &str) -> (r: Result<u8, String>)
    ensures
        match r {
            Ok(n) => parse_unsigned(value@, u8::MAX as nat) == Some(n as nat),
            Err(m) => parse_unsigned(value@, u8::MAX as nat) is None && m@ == u8_error(
                key@,
                value@,
            ),
        },
{
    let v = chars_of(value);
    match parse_unsigned_chars(&v, 255) {
        Some(n) => Ok(n as u8),
        None => {
            let mut m = String::new();
            append_str(&mut m, key);
            append_str(&mut m, " expects u8 integer, got ");
            append_str(&mut m, value);
            assert(m@ =~= u8_error(key@, value@));
            Err(m)
        },
    }
}

/// The decimal text of `n` is a run of digits, without sign, of value `n`.
pub proof fn lemma_decimal_digits(n: nat)
    ensures
        decimal(n).len() > 0,
        all_digits(decimal(n)),
        decimal(n)[0] != '+',
        digits_value(decimal(n)) == n,
    decreases n,
{
    if n < 10 {
        assert(digit_char(n) as int - '0' as int == n);
        assert(digits_value(decimal(n)) == digits_value(decimal(n).drop_last()) * 10 + digit_of(
            decimal(n).last(),
        ));
        assert(decimal(n).drop_last() =~= Seq::<char>::empty());
    } else {
        lemma_decimal_digits(n / 10);
        let m = n % 10;
        assert(digit_char(m) as int - '0' as int == m);
        assert(decimal(n).drop_last() =~= decimal(n / 10));
        assert forall|i: int| 0 <= i < decimal(n).len() implies is_digit(#[trigger] decimal(n)[i]) by {
            if i < decimal(n / 10).len() {
                assert(decimal(n)[i] == decimal(n / 10)[i]);
            }
        }
        assert(decimal(n)[0] == decimal(n / 10)[0]);
    }
}

/// Reading back the decimal text of a number gives that number: for every
/// `n` up to `max`, the unsigned integer text `decimal(n)` parses to `n`.
pub proof fn decimal_text_parses_back(n: nat, max: nat)
    requires
        n <= max,
    ensures
        parse_unsigned(decimal(n), max) == Some(n),
{
    lemma_decimal_digits(n);
}

/// A number above the limit is refused: for every `n` greater than `max`, the
/// text `decimal(n)` does not parse as a value of a type whose largest value
/// is `max`.
pub proof fn decimal_text_above_limit_is_refused(n: nat, max: nat)
    requires
        n > max,
    ensures
        parse_unsigned(decimal(n), max) is None,
{
    lemma_decimal_digits(n);
}

} // verus!
