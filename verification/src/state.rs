//! The local state file, which keeps the latest decision for debugging after
//! a restart.
use vstd::prelude::*;
use crate::decision::{Decision, DecisionModel};
use crate::numbers::{append_decimal, decimal};
use crate::text::{append_str, chars_of, has_infix, has_prefix, has_suffix, push_char};

verus! {

/// Where the latest decision is kept.
pub const STATE_FILE: &'static str = "/var/lib/thermagent/state.json";

/// The lower-case hexadecimal digit for `d` (`d < 16`).
pub open spec fn hex_digit(d: u32) -> char {
    if d < 10 {
        crate::numbers::digit_char(d as nat)
    } else if d == 10 {
        'a'
    } else if d == 11 {
        'b'
    } else if d == 12 {
        'c'
    } else if d == 13 {
        'd'
    } else if d == 14 {
        'e'
    } else {
        'f'
    }
}

/// The text that stands for `c` inside a JSON string: a backslash before a
/// double quote or a backslash, `\u00XX` for a control character, else `c`.
pub open spec fn json_char(c: char) -> Seq<char> {
    if c == '"' {
        seq!['\\', '"']
    } else if c == '\\' {
        seq!['\\', '\\']
    } else if (c as u32) < 32 {
        "\\u00"@ + seq![hex_digit((c as u32) / 16), hex_digit((c as u32) % 16)]
    } else {
        seq![c]
    }
}

/// `s` as the inside of a JSON string.
pub open spec fn json_escaped(s: Seq<char>) -> Seq<char>
    decreases s.len(),
{
    if s.len() == 0 {
        Seq::empty()
    } else {
        json_escaped(s.drop_last()) + json_char(s.last())
    }
}

fn hex_text(d: u32) -> (c: char)
    requires
        d < 16,
    ensures
        c == hex_digit(d),
{
    if d == 0 {
        '0'
    } else if d == 1 {
        '1'
    } else if d == 2 {
        '2'
    } else if d == 3 {
        '3'
    } else if d == 4 {
        '4'
    } else if d == 5 {
        '5'
    } else if d == 6 {
        '6'
    } else if d == 7 {
        '7'
    } else if d == 8 {
        '8'
    } else if d == 9 {
        '9'
    } else if d == 10 {
        'a'
    } else if d == 11 {
        'b'
    } else if d == 12 {
        'c'
    } else if d == 13 {
        'd'
    } else if d == 14 {
        'e'
    } else {
        'f'
    }
}

/// Appends `value`, escaped as the inside of a JSON string, to `out`.
pub fn append_json_escaped(out: &mut String, value: &str)
    ensures
        final(out)@ == old(out)@ + json_escaped(value@),
{
    let v = chars_of(value);
    let ghost start = out@;
    let mut i: usize = 0;
    assert(v@.take(0) =~= Seq::<char>::empty());
    assert(start + json_escaped(Seq::<char>::empty()) =~= start);
    while i < v.len()
        invariant
            i <= v@.len(),
            v@ == value@,
            out@ == start + json_escaped(v@.take(i as int)),
        decreases v@.len() - i,
    {
        let c = v[i];
        let ghost before = out@;
        let code = c as u32;
        if c == '"' {
            push_char(out, '\\');
            push_char(out, '"');
        } else if c == '\\' {
            push_char(out, '\\');
            push_char(out, '\\');
        } else if code < 32 {
            append_str(out, "\\u00");
            push_char(out, hex_text(code / 16));
            push_char(out, hex_text(code % 16));
        } else {
            push_char(out, c);
        }
        proof {
            assert(out@ =~= before + json_char(c));
            assert(v@.take(i + 1).drop_last() =~= v@.take(i as int));
            assert(v@.take(i + 1).last() == c);
            assert(out@ =~= start + json_escaped(v@.take(i + 1)));
        }
        i = i + 1;
    }
    assert(v@.take(i as int) =~= v@);
}

/// The state file's text for decision `d`: one JSON object with the reason,
/// the `nvpmodel` mode, the CPU governor and whether the hot settings were
/// chosen, and a final line feed.
pub open spec fn state_text(d: DecisionModel) -> Seq<char> {
    "{\"reason\":\""@ + json_escaped(d.reason) + "\",\"nvpmodel_mode\":"@ + decimal(
        d.nvpmodel_mode as nat,
    ) + ",\"cpu_governor\":\""@ + json_escaped(d.cpu_governor) + "\",\"hot\":"@ + (if d.hot {
        "true"@
    } else {
        "false"@
    }) + "}\n"@
}

/// The state file's text for decision `d`, as `state_text` describes it.
pub fn state_json(d: &Decision) -> (r: String)
    ensures
        r@ == state_text(d@),
{
    let mut r = String::from_str("{\"reason\":\"");
    append_json_escaped(&mut r, d.reason.as_str());
    append_str(&mut r, "\",\"nvpmodel_mode\":");
    append_decimal(&mut r, d.nvpmodel_mode as u64);
    append_str(&mut r, ",\"cpu_governor\":\"");
    append_json_escaped(&mut r, d.cpu_governor.as_str());
    append_str(&mut r, "\",\"hot\":");
    if d.hot {
        append_str(&mut r, "true");
    } else {
        append_str(&mut r, "false");
    }
    append_str(&mut r, "}\n");
    r
}

/// Whether `s` holds no line feed.
pub open spec fn one_line(s: Seq<char>) -> bool {
    forall|i: int| 0 <= i < s.len() ==> #[trigger] s[i] != '\n'
}

proof fn lemma_one_line_concat(a: Seq<char>, b: Seq<char>)
    requires
        one_line(a),
        one_line(b),
    ensures
        one_line(a + b),
{
    assert forall|i: int| 0 <= i < (a + b).len() implies #[trigger] (a + b)[i] != '\n' by {
        if i < a.len() {
            assert((a + b)[i] == a[i]);
        } else {
            assert((a + b)[i] == b[i - a.len()]);
        }
    }
}

proof fn lemma_json_char_one_line(c: char)
    ensures
        one_line(json_char(c)),
{
    reveal_strlit("\\u00");
    assert(('\n' as u32) == 10);
    if c != '"' && c != '\\' && (c as u32) < 32 {
        let h = seq![hex_digit((c as u32) / 16), hex_digit((c as u32) % 16)];
        assert(one_line(h));
        assert(one_line("\\u00"@));
        lemma_one_line_concat("\\u00"@, h);
    }
}

/// Text escaped for JSON holds no line feed, whatever it escapes.
pub proof fn escaped_text_is_one_line(s: Seq<char>)
    ensures
        one_line(json_escaped(s)),
    decreases s.len(),
{
    if s.len() > 0 {
        escaped_text_is_one_line(s.drop_last());
        lemma_json_char_one_line(s.last());
        lemma_one_line_concat(json_escaped(s.drop_last()), json_char(s.last()));
    }
}

/// Text with no double quote, no backslash and no control character is kept
/// as it is inside a JSON string.
pub proof fn plain_text_is_kept(s: Seq<char>)
    requires
        forall|i: int|
            0 <= i < s.len() ==> #[trigger] s[i] != '"' && s[i] != '\\' && (s[i] as u32) >= 32,
    ensures
        json_escaped(s) == s,
    decreases s.len(),
{
    if s.len() > 0 {
        assert forall|i: int| 0 <= i < s.drop_last().len() implies #[trigger] s.drop_last()[i] != '"'
            && s.drop_last()[i] != '\\' && (s.drop_last()[i] as u32) >= 32 by {
            assert(s.drop_last()[i] == s[i]);
        }
        plain_text_is_kept(s.drop_last());
        assert(s[s.len() - 1] == s.last());
        assert(json_escaped(s) =~= s);
    }
}

/// The state file is a single line: its text ends with a line feed and holds
/// no other, whatever the reason and the governor hold.
pub proof fn state_file_is_one_line(d: DecisionModel)
    ensures
        state_text(d).len() > 0,
        state_text(d).last() == '\n',
        one_line(state_text(d).drop_last()),
{
    reveal_strlit("{\"reason\":\"");
    reveal_strlit("\",\"nvpmodel_mode\":");
    reveal_strlit(",\"cpu_governor\":\"");
    reveal_strlit("\",\"hot\":");
    reveal_strlit("true");
    reveal_strlit("false");
    reveal_strlit("}\n");
    crate::numbers::lemma_decimal_digits(d.nvpmodel_mode as nat);
    escaped_text_is_one_line(d.reason);
    escaped_text_is_one_line(d.cpu_governor);
    let n = decimal(d.nvpmodel_mode as nat);
    assert forall|i: int| 0 <= i < n.len() implies #[trigger] n[i] != '\n' by {
        assert(crate::numbers::is_digit(n[i]));
    }
    let flag = if d.hot {
        "true"@
    } else {
        "false"@
    };
    let a = "{\"reason\":\""@;
    let b = "\",\"nvpmodel_mode\":"@;
    let c = ",\"cpu_governor\":\""@;
    let e = "\",\"hot\":"@;
    assert(one_line(a));
    assert(one_line(b));
    assert(one_line(c));
    assert(one_line(e));
    assert(one_line(flag));
    assert(one_line(seq!['}']));
    lemma_one_line_concat(a, json_escaped(d.reason));
    lemma_one_line_concat(a + json_escaped(d.reason), b);
    lemma_one_line_concat(a + json_escaped(d.reason) + b, n);
    lemma_one_line_concat(a + json_escaped(d.reason) + b + n, c);
    lemma_one_line_concat(a + json_escaped(d.reason) + b + n + c, json_escaped(d.cpu_governor));
    let body = a + json_escaped(d.reason) + b + n + c + json_escaped(d.cpu_governor);
    lemma_one_line_concat(body, e);
    lemma_one_line_concat(body + e, flag);
    lemma_one_line_concat(body + e + flag, seq!['}']);
    assert(state_text(d) =~= (body + e + flag + seq!['}']).push('\n'));
    assert(state_text(d).drop_last() =~= body + e + flag + seq!['}']);
}

/// The state file names the decision: it starts with the escaped reason and
/// holds the `nvpmodel` mode in decimal, the escaped governor and whether the
/// hot settings were chosen.
pub proof fn state_file_names_the_decision(d: DecisionModel)
    ensures
        has_prefix(state_text(d), "{\"reason\":\""@ + json_escaped(d.reason) + "\",\"nvpmodel_mode\":"@),
        has_infix(state_text(d), "\",\"nvpmodel_mode\":"@ + decimal(d.nvpmodel_mode as nat) + ",\"cpu_governor\":\""@),
        has_infix(state_text(d), ",\"cpu_governor\":\""@ + json_escaped(d.cpu_governor) + "\",\"hot\":"@),
        has_suffix(state_text(d), "\",\"hot\":"@ + (if d.hot { "true"@ } else { "false"@ }) + "}\n"@),
{
    let a = "{\"reason\":\""@;
    let r = json_escaped(d.reason);
    let b = "\",\"nvpmodel_mode\":"@;
    let n = decimal(d.nvpmodel_mode as nat);
    let c = ",\"cpu_governor\":\""@;
    let g = json_escaped(d.cpu_governor);
    let e = "\",\"hot\":"@;
    let flag = if d.hot {
        "true"@
    } else {
        "false"@
    };
    let z = "}\n"@;
    let t = state_text(d);
    assert(t =~= a + r + b + n + c + g + e + flag + z);
    assert(t.subrange(0, (a + r + b).len() as int) =~= a + r + b);
    let i1 = (a + r).len() as int;
    assert(t.subrange(i1, i1 + (b + n + c).len()) =~= b + n + c);
    let i2 = (a + r + b + n).len() as int;
    assert(t.subrange(i2, i2 + (c + g + e).len()) =~= c + g + e);
    let i3 = (a + r + b + n + c + g).len() as int;
    assert(t.subrange(i3, t.len() as int) =~= e + flag + z);
}

} // verus!
