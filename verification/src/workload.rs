//! Workload hints: the `key=value` file that a workload writes to say how
//! busy it is.
use vstd::prelude::*;
use crate::text::{
    before_first, chars_of, find_char, first_index_of, lemma_first_index_of,
    lines_of, slice_chars, split_lines, string_of, text_before, trim, trimmed,
};

verus! {

/// The entry that one line of a hint holds: what precedes its first `#`,
/// trimmed, split at its first `=`, or, where it has none, at its first `:`;
/// both sides trimmed. A line with neither holds no entry.
pub open spec fn hint_entry(line: Seq<char>) -> Option<(Seq<char>, Seq<char>)> {
    let c = trim(before_first(line, '#'));
    if c.len() == 0 {
        None
    } else {
        match first_index_of(c, '=') {
            Some(p) => Some((trim(c.subrange(0, p)), trim(c.subrange(p + 1, c.len() as int)))),
            None => match first_index_of(c, ':') {
                Some(p) => Some((trim(c.subrange(0, p)), trim(c.subrange(p + 1, c.len() as int)))),
                None => None,
            },
        }
    }
}

/// The value of `key` in `lines`: that of its last entry.
pub open spec fn hint_value(lines: Seq<Seq<char>>, key: Seq<char>) -> Option<Seq<char>>
    decreases lines.len(),
{
    if lines.len() == 0 {
        None
    } else {
        match hint_entry(lines.last()) {
            Some((k, v)) => if k == key {
                Some(v)
            } else {
                hint_value(lines.drop_last(), key)
            },
            None => hint_value(lines.drop_last(), key),
        }
    }
}

/// The code of `c` after ASCII lower-casing.
pub open spec fn ascii_lower_code(c: char) -> int {
    if 'A' <= c && c <= 'Z' {
        c as int + 32
    } else {
        c as int
    }
}

/// Whether `a` and `b` are equal but for the case of ASCII letters, as
/// `str::eq_ignore_ascii_case` compares.
pub open spec fn eq_ignore_ascii_case(a: Seq<char>, b: Seq<char>) -> bool {
    a.len() == b.len() && forall|i: int|
        0 <= i < a.len() ==> ascii_lower_code(#[trigger] a[i]) == ascii_lower_code(b[i])
}

/// Whether the `busy` value `v` says busy: `1`, `true` or `yes`, the last two
/// in any case.
pub open spec fn says_busy(v: Seq<char>) -> bool {
    v == "1"@ || eq_ignore_ascii_case(v, "true"@) || eq_ignore_ascii_case(v, "yes"@)
}

/// What a workload hint says, before its frame rate is read as a number.
pub struct HintFields {
    /// The text of the last `fps` entry.
    pub fps: Option<String>,
    /// The last `busy` entry says busy.
    pub busy: bool,
    /// The text of the last `phase` entry.
    pub phase: Option<String>,
}

fn lower_code(c: char) -> (r: u32)
    ensures
        r == ascii_lower_code(c),
{
    let n = c as u32;
    if 'A' <= c && c <= 'Z' {
        n + 32
    } else {
        n
    }
}

fn same_ignoring_ascii_case(a: &Vec<char>, b: &str) -> (r: bool)
    ensures
        r == eq_ignore_ascii_case(a@, b@),
{
    let bv = chars_of(b);
    if a.len() != bv.len() {
        return false;
    }
    let mut i: usize = 0;
    while i < a.len()
        invariant
            i <= a@.len() == bv@.len(),
            bv@ == b@,
            forall|k: int| 0 <= k < i ==> ascii_lower_code(#[trigger] a@[k]) == ascii_lower_code(bv@[k]),
        decreases a@.len() - i,
    {
        if lower_code(a[i]) != lower_code(bv[i]) {
            return false;
        }
        i = i + 1;
    }
    true
}

fn is_busy(v: &Vec<char>) -> (r: bool)
    ensures
        r == says_busy(v@),
{
    let one = chars_of("1");
    crate::text::same_chars(v, &one) || same_ignoring_ascii_case(v, "true")
        || same_ignoring_ascii_case(v, "yes")
}

fn split_entry(c: &Vec<char>, p: usize) -> (r: (Vec<char>, Vec<char>))
    requires
        p < c@.len(),
    ensures
        r.0@ == trim(c@.subrange(0, p as int)),
        r.1@ == trim(c@.subrange(p + 1, c@.len() as int)),
{
    let n = c.len();
    let k = slice_chars(c, 0, p);
    let v = slice_chars(c, p + 1, n);
    (trimmed(&k), trimmed(&v))
}

/// The entry of one hint line, as `hint_entry` describes it.
pub fn hint_entry_of(line: &Vec<char>) -> (r: Option<(Vec<char>, Vec<char>)>)
    ensures
        match r {
            Some((k, v)) => hint_entry(line@) == Some((k@, v@)),
            None => hint_entry(line@) is None,
        },
{
    let before = text_before(line, '#');
    let c = trimmed(&before);
    if c.len() == 0 {
        return None;
    }
    match find_char(&c, '=') {
        Some(p) => {
            proof {
                lemma_first_index_of(c@, '=');
            }
            Some(split_entry(&c, p))
        },
        None => match find_char(&c, ':') {
            Some(p) => {
                proof {
                    lemma_first_index_of(c@, ':');
                }
                Some(split_entry(&c, p))
            },
            None => None,
        },
    }
}

fn key_is(k: &Vec<char>, t: &str) -> (r: bool)
    ensures
        r == (k@ == t@),
{
    let tv = chars_of(t);
    crate::text::same_chars(k, &tv)
}

proof fn lemma_hint_value_step(lines: Seq<Seq<char>>, i: int, key: Seq<char>)
    requires
        0 <= i < lines.len(),
    ensures
        hint_value(lines.take(i + 1), key) == match hint_entry(lines[i]) {
            Some((k, v)) => if k == key {
                Some(v)
            } else {
                hint_value(lines.take(i), key)
            },
            None => hint_value(lines.take(i), key),
        },
{
    assert(lines.take(i + 1).drop_last() =~= lines.take(i));
    assert(lines.take(i + 1).last() == lines[i]);
}

/// Reads the `fps`, `busy` and `phase` entries of a workload hint.
pub fn parse_workload_hint(content: &str) -> (r: HintFields)
    ensures
        match r.fps {
            Some(f) => hint_value(lines_of(content@), "fps"@) == Some(f@),
            None => hint_value(lines_of(content@), "fps"@) is None,
        },
        match r.phase {
            Some(p) => hint_value(lines_of(content@), "phase"@) == Some(p@),
            None => hint_value(lines_of(content@), "phase"@) is None,
        },
        r.busy == match hint_value(lines_of(content@), "busy"@) {
            Some(b) => says_busy(b),
            None => false,
        },
{
    let lines = split_lines(content);
    let ghost all = lines_of(content@);
    let mut fps: Option<Vec<char>> = None;
    let mut busy: Option<Vec<char>> = None;
    let mut phase: Option<Vec<char>> = None;
    let mut i: usize = 0;
    while i < lines.len()
        invariant
            i <= lines@.len(),
            lines@.map_values(|l: Vec<char>| l@) == all,
            all.len() == lines@.len(),
            match fps {
                Some(f) => hint_value(all.take(i as int), "fps"@) == Some(f@),
                None => hint_value(all.take(i as int), "fps"@) is None,
            },
            match busy {
                Some(f) => hint_value(all.take(i as int), "busy"@) == Some(f@),
                None => hint_value(all.take(i as int), "busy"@) is None,
            },
            match phase {
                Some(f) => hint_value(all.take(i as int), "phase"@) == Some(f@),
                None => hint_value(all.take(i as int), "phase"@) is None,
            },
        decreases lines@.len() - i,
    {
        assert(lines@[i as int]@ == all[i as int]);
        proof {
            reveal_strlit("fps");
            reveal_strlit("busy");
            reveal_strlit("phase");
            assert("fps"@.len() == 3 && "busy"@.len() == 4 && "phase"@.len() == 5);
            assert("fps"@ != "busy"@ && "fps"@ != "phase"@ && "busy"@ != "phase"@);
            lemma_hint_value_step(all, i as int, "fps"@);
            lemma_hint_value_step(all, i as int, "busy"@);
            lemma_hint_value_step(all, i as int, "phase"@);
        }
        match hint_entry_of(&lines[i]) {
            Some((k, v)) => {
                if key_is(&k, "fps") {
                    fps = Some(v);
                } else if key_is(&k, "busy") {
                    busy = Some(v);
                } else if key_is(&k, "phase") {
                    phase = Some(v);
                }
            },
            None => {},
        }
        i = i + 1;
    }
    assert(all.take(i as int) =~= all);
    let fps_text = match &fps {
        Some(f) => {
            assert(f@.subrange(0, f@.len() as int) =~= f@);
            Some(string_of(f, 0, f.len()))
        },
        None => None,
    };
    let phase_text = match &phase {
        Some(p) => {
            assert(p@.subrange(0, p@.len() as int) =~= p@);
            Some(string_of(p, 0, p.len()))
        },
        None => None,
    };
    let busy_flag = match busy {
        Some(b) => is_busy(&b),
        None => false,
    };
    HintFields { fps: fps_text, busy: busy_flag, phase: phase_text }
}

/// Whether a hint is stale: its age in seconds is unknown, or greater than
/// `stale_after_s`.
pub fn hint_is_stale(age_secs: Option<u64>, stale_after_s: u64) -> (r: bool)
    ensures
        r == match age_secs {
            Some(age) => age > stale_after_s,
            None => true,
        },
{
    match age_secs {
        Some(age) => age > stale_after_s,
        None => true,
    }
}

/// Whether the workload counts as active: the hint is fresh, and it says busy
/// or gives a frame rate above 0.1 (`fps_above_threshold`, which the caller
/// compares).
pub fn workload_is_active(stale: bool, busy: bool, fps_above_threshold: bool) -> (r: bool)
    ensures
        r == (!stale && (busy || fps_above_threshold)),
{
    !stale && (busy || fps_above_threshold)
}

/// A stale hint never makes the workload active.
pub proof fn stale_hint_is_never_active(stale: bool, busy: bool, fps_above_threshold: bool)
    requires
        stale,
    ensures
        !(!stale && (busy || fps_above_threshold)),
{
}

/// The last entry for a key decides its value: after a line with an entry
/// for `key`, the value is that entry's; a line with no entry, or with an
/// entry for another key, leaves the value of `key` as it was.
pub proof fn last_hint_entry_wins(lines: Seq<Seq<char>>, line: Seq<char>, key: Seq<char>)
    ensures
        match hint_entry(line) {
            Some((k, v)) => if k == key {
                hint_value(lines.push(line), key) == Some(v)
            } else {
                hint_value(lines.push(line), key) == hint_value(lines, key)
            },
            None => hint_value(lines.push(line), key) == hint_value(lines, key),
        },
{
    assert(lines.push(line).drop_last() =~= lines);
    assert(lines.push(line).last() == line);
}

/// A hint without lines has no value for any key.
pub proof fn empty_hint_has_no_values(key: Seq<char>)
    ensures
        hint_value(Seq::empty(), key) is None,
{
}

} // verus!
