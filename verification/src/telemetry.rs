//! What the daemon reads from sysfs, once the files are read: which entries
//! count, and what their contents say.
use vstd::prelude::*;
use crate::numbers::{is_digit, parse_unsigned, parse_unsigned_chars};
use crate::text::{
    append_str, chars_of, contains_text, ends_with, has_infix, has_prefix, has_suffix,
    starts_with, string_of, trim, trimmed,
};

verus! {

/// Whether `name` names a CPU directory: `cpu` followed by decimal digits
/// only (none at all counts too).
pub open spec fn is_cpu_name(name: Seq<char>) -> bool {
    has_prefix(name, "cpu"@) && forall|i: int| 3 <= i < name.len() ==> is_digit(#[trigger] name[i])
}

/// Whether `name` names a CPU directory, as `is_cpu_name` says.
pub fn is_cpu_dir(name: &str) -> (r: bool)
    ensures
        r == is_cpu_name(name@),
{
    let v = chars_of(name);
    if !starts_with(&v, "cpu") {
        return false;
    }
    proof {
        reveal_strlit("cpu");
    }
    let mut i: usize = 3;
    while i < v.len()
        invariant
            3 <= i <= v@.len(),
            v@ == name@,
            forall|k: int| 3 <= k < i ==> is_digit(#[trigger] v@[k]),
        decreases v@.len() - i,
    {
        if !('0' <= v[i] && v[i] <= '9') {
            return false;
        }
        i = i + 1;
    }
    true
}

/// Whether a `/sys/class/thermal` entry is a thermal zone.
pub fn is_thermal_zone_entry(name: &str) -> (r: bool)
    ensures
        r == has_prefix(name@, "thermal_zone"@),
{
    let v = chars_of(name);
    starts_with(&v, "thermal_zone")
}

/// Whether a file found under the INA3221 driver is a power input.
pub fn is_power_input_file(name: &str) -> (r: bool)
    ensures
        r == (has_prefix(name@, "in_power"@) && has_suffix(name@, "_input"@)),
{
    let v = chars_of(name);
    starts_with(&v, "in_power") && ends_with(&v, "_input")
}

/// How deep below the INA3221 driver directory the search for power inputs
/// goes.
pub const POWER_SCAN_MAX_DEPTH: usize = 5;

/// Whether the search for power inputs still looks into a directory at
/// `depth`.
pub fn power_scan_descends(depth: usize) -> (r: bool)
    ensures
        r == (depth <= POWER_SCAN_MAX_DEPTH),
{
    depth <= POWER_SCAN_MAX_DEPTH
}

/// The lower-case form of a text, as `str::to_lowercase` gives it by the
/// Unicode `Lowercase` mapping.
pub uninterp spec fn lowercase_of(s: Seq<char>) -> Seq<char>;

/// Trusted: calls `str::to_lowercase`, which maps each character to its
/// lower-case form by the Unicode character database. The result depends on
/// `s` alone; the contract names it `lowercase_of(s)` and says nothing more of
/// the mapping.
#[verifier::external_body]
fn to_lowercase(s: &str) -> (r: String)
    ensures
        r@ == lowercase_of(s@),
{
    s.to_lowercase()
}

/// The text that the search for the GPU devfreq device looks at: the entry's
/// name, its link target and its device name, with spaces between them.
pub open spec fn devfreq_haystack(file_name: Seq<char>, target: Seq<char>, dev_name: Seq<char>) -> Seq<char> {
    file_name + " "@ + target + " "@ + dev_name
}

/// Whether the devfreq entry looks like the GPU: its haystack, lower-cased,
/// holds `gpu`, `gbus` or `57000000`.
pub open spec fn is_gpu_haystack(lower: Seq<char>) -> bool {
    has_infix(lower, "gpu"@) || has_infix(lower, "gbus"@) || has_infix(lower, "57000000"@)
}

/// Whether the lower-cased haystack `lower` marks the GPU, as
/// `is_gpu_haystack` says.
pub fn is_gpu_text(lower: &str) -> (r: bool)
    ensures
        r == is_gpu_haystack(lower@),
{
    let v = chars_of(lower);
    contains_text(&v, "gpu") || contains_text(&v, "gbus") || contains_text(&v, "57000000")
}

/// The haystack of a devfreq entry, as `devfreq_haystack` says.
pub fn devfreq_haystack_text(file_name: &str, target: &str, dev_name: &str) -> (r: String)
    ensures
        r@ == devfreq_haystack(file_name@, target@, dev_name@),
{
    let mut hay = String::from_str(file_name);
    append_str(&mut hay, " ");
    append_str(&mut hay, target);
    append_str(&mut hay, " ");
    append_str(&mut hay, dev_name);
    hay
}

/// Whether the devfreq entry `file_name`, linked to `target`, with device
/// name `dev_name`, is the GPU's.
pub fn is_gpu_devfreq(file_name: &str, target: &str, dev_name: &str) -> (r: bool)
    ensures
        r == is_gpu_haystack(lowercase_of(devfreq_haystack(file_name@, target@, dev_name@))),
{
    let hay = devfreq_haystack_text(file_name, target, dev_name);
    let lower = to_lowercase(hay.as_str());
    is_gpu_text(lower.as_str())
}

/// What a sysfs file says: its contents trimmed, unless they are blank or
/// the file could not be read.
pub open spec fn trimmed_contents(contents: Option<Seq<char>>) -> Option<Seq<char>> {
    match contents {
        Some(c) => if trim(c).len() > 0 {
            Some(trim(c))
        } else {
            None
        },
        None => None,
    }
}

/// What a sysfs file says, from its contents (`None` when it could not be
/// read).
pub fn read_trim(contents: Option<&str>) -> (r: Option<String>)
    ensures
        match r {
            Some(s) => trimmed_contents(
                match contents {
                    Some(c) => Some(c@),
                    None => None,
                },
            ) == Some(s@),
            None => trimmed_contents(
                match contents {
                    Some(c) => Some(c@),
                    None => None,
                },
            ) is None,
        },
{
    match contents {
        Some(c) => {
            let v = chars_of(c);
            let t = trimmed(&v);
            if t.len() > 0 {
                let s = string_of(&t, 0, t.len());
                assert(s@ =~= t@);
                Some(s)
            } else {
                None
            }
        },
        None => None,
    }
}

/// The unsigned integer that a sysfs file holds, from its contents (`None`
/// when it could not be read).
pub fn read_u64_file(contents: Option<&str>) -> (r: Option<u64>)
    ensures
        r == match trimmed_contents(
            match contents {
                Some(c) => Some(c@),
                None => None,
            },
        ) {
            Some(t) => match parse_unsigned(t, u64::MAX as nat) {
                Some(n) => Some(n as u64),
                None => None,
            },
            None => None,
        },
{
    match read_trim(contents) {
        Some(s) => {
            let v = chars_of(s.as_str());
            parse_unsigned_chars(&v, u64::MAX)
        },
        None => None,
    }
}

#[verifier::external_type_specification]
#[verifier::external_body]
pub struct ExSystemTime(std::time::SystemTime);

/// Reads the clock.
///
/// Trusted: calls `SystemTime::now`. The result depends on the clock, so
/// nothing is stated of it.
#[verifier::external_body]
fn clock_now() -> (r: std::time::SystemTime) {
    std::time::SystemTime::now()
}

/// The whole seconds from the Unix epoch to `t`, or `None` when `t` is before
/// the epoch.
///
/// Trusted: calls `SystemTime::duration_since` with `UNIX_EPOCH` and converts
/// the `Duration` it gives with `as_secs`. `SystemTime` is opaque here, so
/// nothing is stated of the result.
#[verifier::external_body]
fn seconds_since_epoch(t: &std::time::SystemTime) -> (r: Option<u64>) {
    match t.duration_since(std::time::UNIX_EPOCH) {
        Ok(d) => Some(d.as_secs()),
        Err(_) => None,
    }
}

/// The timestamp of a clock reading: its seconds, or 0 when the clock was
/// before the epoch.
pub fn seconds_or_zero(reading: Option<u64>) -> (r: u64)
    ensures
        r == match reading {
            Some(s) => s,
            None => 0,
        },
{
    match reading {
        Some(s) => s,
        None => 0,
    }
}

/// The current Unix time in seconds, 0 when the clock is before the epoch.
pub fn now_unix() -> u64 {
    let now = clock_now();
    seconds_or_zero(seconds_since_epoch(&now))
}

} // verus!
