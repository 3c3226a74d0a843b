//! Policy files: the settings they hold, reading them line by line, and the
//! checks a policy must pass.
use vstd::prelude::*;
use crate::numbers::{append_decimal, decimal, parse_u64, parse_u8, parse_unsigned, u8_error, unsigned_error};
use crate::text::{
    append_str, before_first, chars_of, first_index_of, join, lemma_first_index_of, same_chars,
    slice_chars, string_of, text_before, trim, trimmed, find_char,
};

verus! {

/// The keys of a policy file, in the order in which a missing key is reported.
#[derive(Clone, Copy, Debug, PartialEq, Eq, Structural)]
pub enum PolicyKey {
    Name,
    SampleIntervalMs,
    MaxTempC,
    CriticalTempC,
    MinFps,
    WorkloadStaleAfterS,
    IdleNvpmodelMode,
    ActiveNvpmodelMode,
    HotNvpmodelMode,
    IdleCpuGovernor,
    ActiveCpuGovernor,
    HotCpuGovernor,
    NvpmodelBin,
    WorkloadFile,
    PrometheusListen,
}

/// How many keys a policy file has; every one of them is required.
pub const POLICY_KEY_COUNT: usize = 15;

impl PolicyKey {
    /// The key as it is written in a policy file.
    pub open spec fn text(self) -> Seq<char> {
        match self {
            PolicyKey::Name => "name"@,
            PolicyKey::SampleIntervalMs => "sample_interval_ms"@,
            PolicyKey::MaxTempC => "max_temp_c"@,
            PolicyKey::CriticalTempC => "critical_temp_c"@,
            PolicyKey::MinFps => "min_fps"@,
            PolicyKey::WorkloadStaleAfterS => "workload_stale_after_s"@,
            PolicyKey::IdleNvpmodelMode => "idle_nvpmodel_mode"@,
            PolicyKey::ActiveNvpmodelMode => "active_nvpmodel_mode"@,
            PolicyKey::HotNvpmodelMode => "hot_nvpmodel_mode"@,
            PolicyKey::IdleCpuGovernor => "idle_cpu_governor"@,
            PolicyKey::ActiveCpuGovernor => "active_cpu_governor"@,
            PolicyKey::HotCpuGovernor => "hot_cpu_governor"@,
            PolicyKey::NvpmodelBin => "nvpmodel_bin"@,
            PolicyKey::WorkloadFile => "workload_file"@,
            PolicyKey::PrometheusListen => "prometheus_listen"@,
        }
    }

    /// The key as it is written in a policy file.
    pub fn name(&self) -> (r: &'static str)
        ensures
            r@ == self.text(),
    {
        match self {
            PolicyKey::Name => "name",
            PolicyKey::SampleIntervalMs => "sample_interval_ms",
            PolicyKey::MaxTempC => "max_temp_c",
            PolicyKey::CriticalTempC => "critical_temp_c",
            PolicyKey::MinFps => "min_fps",
            PolicyKey::WorkloadStaleAfterS => "workload_stale_after_s",
            PolicyKey::IdleNvpmodelMode => "idle_nvpmodel_mode",
            PolicyKey::ActiveNvpmodelMode => "active_nvpmodel_mode",
            PolicyKey::HotNvpmodelMode => "hot_nvpmodel_mode",
            PolicyKey::IdleCpuGovernor => "idle_cpu_governor",
            PolicyKey::ActiveCpuGovernor => "active_cpu_governor",
            PolicyKey::HotCpuGovernor => "hot_cpu_governor",
            PolicyKey::NvpmodelBin => "nvpmodel_bin",
            PolicyKey::WorkloadFile => "workload_file",
            PolicyKey::PrometheusListen => "prometheus_listen",
        }
    }

    /// The position of the key in the list of required keys.
    pub open spec fn index(self) -> int {
        match self {
            PolicyKey::Name => 0,
            PolicyKey::SampleIntervalMs => 1,
            PolicyKey::MaxTempC => 2,
            PolicyKey::CriticalTempC => 3,
            PolicyKey::MinFps => 4,
            PolicyKey::WorkloadStaleAfterS => 5,
            PolicyKey::IdleNvpmodelMode => 6,
            PolicyKey::ActiveNvpmodelMode => 7,
            PolicyKey::HotNvpmodelMode => 8,
            PolicyKey::IdleCpuGovernor => 9,
            PolicyKey::ActiveCpuGovernor => 10,
            PolicyKey::HotCpuGovernor => 11,
            PolicyKey::NvpmodelBin => 12,
            PolicyKey::WorkloadFile => 13,
            PolicyKey::PrometheusListen => 14,
        }
    }

    pub fn position(&self) -> (r: usize)
        ensures
            r == self.index(),
    {
        match self {
            PolicyKey::Name => 0,
            PolicyKey::SampleIntervalMs => 1,
            PolicyKey::MaxTempC => 2,
            PolicyKey::CriticalTempC => 3,
            PolicyKey::MinFps => 4,
            PolicyKey::WorkloadStaleAfterS => 5,
            PolicyKey::IdleNvpmodelMode => 6,
            PolicyKey::ActiveNvpmodelMode => 7,
            PolicyKey::HotNvpmodelMode => 8,
            PolicyKey::IdleCpuGovernor => 9,
            PolicyKey::ActiveCpuGovernor => 10,
            PolicyKey::HotCpuGovernor => 11,
            PolicyKey::NvpmodelBin => 12,
            PolicyKey::WorkloadFile => 13,
            PolicyKey::PrometheusListen => 14,
        }
    }

    /// The key at position `i` of the list of required keys.
    pub open spec fn at(i: int) -> PolicyKey {
        if i <= 0 {
            PolicyKey::Name
        } else if i == 1 {
            PolicyKey::SampleIntervalMs
        } else if i == 2 {
            PolicyKey::MaxTempC
        } else if i == 3 {
            PolicyKey::CriticalTempC
        } else if i == 4 {
            PolicyKey::MinFps
        } else if i == 5 {
            PolicyKey::WorkloadStaleAfterS
        } else if i == 6 {
            PolicyKey::IdleNvpmodelMode
        } else if i == 7 {
            PolicyKey::ActiveNvpmodelMode
        } else if i == 8 {
            PolicyKey::HotNvpmodelMode
        } else if i == 9 {
            PolicyKey::IdleCpuGovernor
        } else if i == 10 {
            PolicyKey::ActiveCpuGovernor
        } else if i == 11 {
            PolicyKey::HotCpuGovernor
        } else if i == 12 {
            PolicyKey::NvpmodelBin
        } else if i == 13 {
            PolicyKey::WorkloadFile
        } else {
            PolicyKey::PrometheusListen
        }
    }

    pub fn at_position(i: usize) -> (r: PolicyKey)
        ensures
            r == PolicyKey::at(i as int),
    {
        if i == 0 {
            PolicyKey::Name
        } else if i == 1 {
            PolicyKey::SampleIntervalMs
        } else if i == 2 {
            PolicyKey::MaxTempC
        } else if i == 3 {
            PolicyKey::CriticalTempC
        } else if i == 4 {
            PolicyKey::MinFps
        } else if i == 5 {
            PolicyKey::WorkloadStaleAfterS
        } else if i == 6 {
            PolicyKey::IdleNvpmodelMode
        } else if i == 7 {
            PolicyKey::ActiveNvpmodelMode
        } else if i == 8 {
            PolicyKey::HotNvpmodelMode
        } else if i == 9 {
            PolicyKey::IdleCpuGovernor
        } else if i == 10 {
            PolicyKey::ActiveCpuGovernor
        } else if i == 11 {
            PolicyKey::HotCpuGovernor
        } else if i == 12 {
            PolicyKey::NvpmodelBin
        } else if i == 13 {
            PolicyKey::WorkloadFile
        } else {
            PolicyKey::PrometheusListen
        }
    }

    /// Whether the key takes a number with a fractional part, which the
    /// caller reads.
    pub open spec fn is_number(self) -> bool {
        self == PolicyKey::MaxTempC || self == PolicyKey::CriticalTempC || self
            == PolicyKey::MinFps
    }
}

/// The key written as `s`, if it is one.
pub open spec fn key_of(s: Seq<char>) -> Option<PolicyKey> {
    if s == "name"@ {
        Some(PolicyKey::Name)
    } else if s == "sample_interval_ms"@ {
        Some(PolicyKey::SampleIntervalMs)
    } else if s == "max_temp_c"@ {
        Some(PolicyKey::MaxTempC)
    } else if s == "critical_temp_c"@ {
        Some(PolicyKey::CriticalTempC)
    } else if s == "min_fps"@ {
        Some(PolicyKey::MinFps)
    } else if s == "workload_stale_after_s"@ {
        Some(PolicyKey::WorkloadStaleAfterS)
    } else if s == "idle_nvpmodel_mode"@ {
        Some(PolicyKey::IdleNvpmodelMode)
    } else if s == "active_nvpmodel_mode"@ {
        Some(PolicyKey::ActiveNvpmodelMode)
    } else if s == "hot_nvpmodel_mode"@ {
        Some(PolicyKey::HotNvpmodelMode)
    } else if s == "idle_cpu_governor"@ {
        Some(PolicyKey::IdleCpuGovernor)
    } else if s == "active_cpu_governor"@ {
        Some(PolicyKey::ActiveCpuGovernor)
    } else if s == "hot_cpu_governor"@ {
        Some(PolicyKey::HotCpuGovernor)
    } else if s == "nvpmodel_bin"@ {
        Some(PolicyKey::NvpmodelBin)
    } else if s == "workload_file"@ {
        Some(PolicyKey::WorkloadFile)
    } else if s == "prometheus_listen"@ {
        Some(PolicyKey::PrometheusListen)
    } else {
        None
    }
}

fn is_text(v: &Vec<char>, t: &str) -> (r: bool)
    ensures
        r == (v@ == t@),
{
    let tv = chars_of(t);
    same_chars(v, &tv)
}

/// The key written as `v`, if it is one.
pub fn key_from_chars(v: &Vec<char>) -> (r: Option<PolicyKey>)
    ensures
        r == key_of(v@),
{
    if is_text(v, "name") {
        Some(PolicyKey::Name)
    } else if is_text(v, "sample_interval_ms") {
        Some(PolicyKey::SampleIntervalMs)
    } else if is_text(v, "max_temp_c") {
        Some(PolicyKey::MaxTempC)
    } else if is_text(v, "critical_temp_c") {
        Some(PolicyKey::CriticalTempC)
    } else if is_text(v, "min_fps") {
        Some(PolicyKey::MinFps)
    } else if is_text(v, "workload_stale_after_s") {
        Some(PolicyKey::WorkloadStaleAfterS)
    } else if is_text(v, "idle_nvpmodel_mode") {
        Some(PolicyKey::IdleNvpmodelMode)
    } else if is_text(v, "active_nvpmodel_mode") {
        Some(PolicyKey::ActiveNvpmodelMode)
    } else if is_text(v, "hot_nvpmodel_mode") {
        Some(PolicyKey::HotNvpmodelMode)
    } else if is_text(v, "idle_cpu_governor") {
        Some(PolicyKey::IdleCpuGovernor)
    } else if is_text(v, "active_cpu_governor") {
        Some(PolicyKey::ActiveCpuGovernor)
    } else if is_text(v, "hot_cpu_governor") {
        Some(PolicyKey::HotCpuGovernor)
    } else if is_text(v, "nvpmodel_bin") {
        Some(PolicyKey::NvpmodelBin)
    } else if is_text(v, "workload_file") {
        Some(PolicyKey::WorkloadFile)
    } else if is_text(v, "prometheus_listen") {
        Some(PolicyKey::PrometheusListen)
    } else {
        None
    }
}

/// The settings of a policy, apart from its temperature and frame-rate
/// thresholds, which are numbers with a fractional part and which the caller
/// keeps beside them.
pub struct PolicySettings {
    pub name: String,
    pub sample_interval_ms: u64,
    pub workload_stale_after_s: u64,
    pub idle_nvpmodel_mode: u8,
    pub active_nvpmodel_mode: u8,
    pub hot_nvpmodel_mode: u8,
    pub idle_cpu_governor: String,
    pub active_cpu_governor: String,
    pub hot_cpu_governor: String,
    pub nvpmodel_bin: String,
    pub workload_file: String,
    pub prometheus_listen: String,
}

/// The value of a `PolicySettings`.
pub struct PolicyModel {
    pub name: Seq<char>,
    pub sample_interval_ms: u64,
    pub workload_stale_after_s: u64,
    pub idle_nvpmodel_mode: u8,
    pub active_nvpmodel_mode: u8,
    pub hot_nvpmodel_mode: u8,
    pub idle_cpu_governor: Seq<char>,
    pub active_cpu_governor: Seq<char>,
    pub hot_cpu_governor: Seq<char>,
    pub nvpmodel_bin: Seq<char>,
    pub workload_file: Seq<char>,
    pub prometheus_listen: Seq<char>,
}

impl View for PolicySettings {
    type V = PolicyModel;

    open spec fn view(&self) -> PolicyModel {
        PolicyModel {
            name: self.name@,
            sample_interval_ms: self.sample_interval_ms,
            workload_stale_after_s: self.workload_stale_after_s,
            idle_nvpmodel_mode: self.idle_nvpmodel_mode,
            active_nvpmodel_mode: self.active_nvpmodel_mode,
            hot_nvpmodel_mode: self.hot_nvpmodel_mode,
            idle_cpu_governor: self.idle_cpu_governor@,
            active_cpu_governor: self.active_cpu_governor@,
            hot_cpu_governor: self.hot_cpu_governor@,
            nvpmodel_bin: self.nvpmodel_bin@,
            workload_file: self.workload_file@,
            prometheus_listen: self.prometheus_listen@,
        }
    }
}

/// The settings of the Jetson Nano Lite reference policy, which a policy file
/// starts from.
pub open spec fn default_model() -> PolicyModel {
    PolicyModel {
        name: "jetson-nano-lite-safe-vision"@,
        sample_interval_ms: 1000,
        workload_stale_after_s: 15,
        idle_nvpmodel_mode: 1,
        active_nvpmodel_mode: 0,
        hot_nvpmodel_mode: 1,
        idle_cpu_governor: "schedutil"@,
        active_cpu_governor: "schedutil"@,
        hot_cpu_governor: "powersave"@,
        nvpmodel_bin: "/usr/sbin/nvpmodel"@,
        workload_file: "/run/thermagent/workload.metrics"@,
        prometheus_listen: "127.0.0.1:9920"@,
    }
}

impl Default for PolicySettings {
    fn default() -> (r: Self)
        ensures
            r@ == default_model(),
    {
        PolicySettings {
            name: String::from_str("jetson-nano-lite-safe-vision"),
            sample_interval_ms: 1000,
            workload_stale_after_s: 15,
            idle_nvpmodel_mode: 1,
            active_nvpmodel_mode: 0,
            hot_nvpmodel_mode: 1,
            idle_cpu_governor: String::from_str("schedutil"),
            active_cpu_governor: String::from_str("schedutil"),
            hot_cpu_governor: String::from_str("powersave"),
            nvpmodel_bin: String::from_str("/usr/sbin/nvpmodel"),
            workload_file: String::from_str("/run/thermagent/workload.metrics"),
            prometheus_listen: String::from_str("127.0.0.1:9920"),
        }
    }
}

/// `s` without one pair of matching quotes (`"` or `'`) around it.
pub open spec fn unquoted(s: Seq<char>) -> Seq<char> {
    if s.len() >= 2 && ((s[0] == '"' && s.last() == '"') || (s[0] == '\'' && s.last() == '\'')) {
        s.subrange(1, s.len() - 1)
    } else {
        s
    }
}

fn unquote_chars(v: &Vec<char>) -> (r: Vec<char>)
    ensures
        r@ == unquoted(v@),
{
    let n = v.len();
    if n >= 2 && ((v[0] == '"' && v[n - 1] == '"') || (v[0] == '\'' && v[n - 1] == '\'')) {
        slice_chars(v, 1, n - 1)
    } else {
        let r = slice_chars(v, 0, n);
        assert(r@ =~= v@);
        r
    }
}

/// `value` without one pair of matching quotes (`"` or `'`) around it.
pub fn unquote(value: &str) -> (r: String)
    ensures
        r@ == unquoted(value@),
{
    let v = chars_of(value);
    let u = unquote_chars(&v);
    string_of(&u, 0, u.len())
}

/// What one line of a policy file holds.
pub enum PolicyLine {
    /// Nothing: only white space, a comment, or the document marker `---`.
    Blank,
    /// A key and its value.
    Entry { key: Seq<char>, value: Seq<char> },
    /// Text with neither `:` nor `=` in it.
    Malformed,
}

/// The part of a line that counts: what precedes its first `#`, trimmed.
pub open spec fn line_content(raw: Seq<char>) -> Seq<char> {
    trim(before_first(raw, '#'))
}

/// The entry `c[..p]: c[p+1..]`: the key trimmed, the value trimmed and
/// unquoted.
pub open spec fn entry_at(c: Seq<char>, p: int) -> PolicyLine {
    PolicyLine::Entry {
        key: trim(c.subrange(0, p)),
        value: unquoted(trim(c.subrange(p + 1, c.len() as int))),
    }
}

/// What the line `raw` holds. A key ends at the first `:` of the line, or,
/// where the line has none, at its first `=`.
pub open spec fn classify(raw: Seq<char>) -> PolicyLine {
    let c = line_content(raw);
    if c.len() == 0 || c == "---"@ {
        PolicyLine::Blank
    } else {
        match first_index_of(c, ':') {
            Some(p) => entry_at(c, p),
            None => match first_index_of(c, '=') {
                Some(p) => entry_at(c, p),
                None => PolicyLine::Malformed,
            },
        }
    }
}

/// A line of a policy file, taken apart.
pub enum LineParts {
    Blank,
    Entry { key: Vec<char>, value: Vec<char> },
    Malformed,
}

impl View for LineParts {
    type V = PolicyLine;

    open spec fn view(&self) -> PolicyLine {
        match self {
            LineParts::Blank => PolicyLine::Blank,
            LineParts::Entry { key, value } => PolicyLine::Entry { key: key@, value: value@ },
            LineParts::Malformed => PolicyLine::Malformed,
        }
    }
}

fn entry_parts(c: &Vec<char>, p: usize) -> (r: LineParts)
    requires
        p < c@.len(),
    ensures
        r@ == entry_at(c@, p as int),
{
    let n = c.len();
    let k = slice_chars(c, 0, p);
    let v = slice_chars(c, p + 1, n);
    let key = trimmed(&k);
    let tv = trimmed(&v);
    let value = unquote_chars(&tv);
    LineParts::Entry { key, value }
}

/// Takes the line `raw` of a policy file apart.
pub fn classify_line(raw: &Vec<char>) -> (r: LineParts)
    ensures
        r@ == classify(raw@),
{
    let before = text_before(raw, '#');
    let c = trimmed(&before);
    if c.len() == 0 || is_text(&c, "---") {
        return LineParts::Blank;
    }
    match find_char(&c, ':') {
        Some(p) => {
            proof {
                lemma_first_index_of(c@, ':');
            }
            entry_parts(&c, p)
        },
        None => match find_char(&c, '=') {
            Some(p) => {
                proof {
                    lemma_first_index_of(c@, '=');
                }
                entry_parts(&c, p)
            },
            None => LineParts::Malformed,
        },
    }
}

} // verus!

verus! {

/// The settings after the line `key: value`, or the message of the error that
/// line gives. A key whose value is a number with a fractional part leaves the
/// settings as they are: the caller reads such a value.
pub open spec fn assign_model(m: PolicyModel, k: PolicyKey, v: Seq<char>) -> Result<
    PolicyModel,
    Seq<char>,
> {
    match k {
        PolicyKey::Name => Ok(PolicyModel { name: v, ..m }),
        PolicyKey::SampleIntervalMs => match parse_unsigned(v, u64::MAX as nat) {
            Some(n) => Ok(PolicyModel { sample_interval_ms: n as u64, ..m }),
            None => Err(unsigned_error(k.text(), v)),
        },
        PolicyKey::WorkloadStaleAfterS => match parse_unsigned(v, u64::MAX as nat) {
            Some(n) => Ok(PolicyModel { workload_stale_after_s: n as u64, ..m }),
            None => Err(unsigned_error(k.text(), v)),
        },
        PolicyKey::IdleNvpmodelMode => match parse_unsigned(v, u8::MAX as nat) {
            Some(n) => Ok(PolicyModel { idle_nvpmodel_mode: n as u8, ..m }),
            None => Err(u8_error(k.text(), v)),
        },
        PolicyKey::ActiveNvpmodelMode => match parse_unsigned(v, u8::MAX as nat) {
            Some(n) => Ok(PolicyModel { active_nvpmodel_mode: n as u8, ..m }),
            None => Err(u8_error(k.text(), v)),
        },
        PolicyKey::HotNvpmodelMode => match parse_unsigned(v, u8::MAX as nat) {
            Some(n) => Ok(PolicyModel { hot_nvpmodel_mode: n as u8, ..m }),
            None => Err(u8_error(k.text(), v)),
        },
        PolicyKey::IdleCpuGovernor => Ok(PolicyModel { idle_cpu_governor: v, ..m }),
        PolicyKey::ActiveCpuGovernor => Ok(PolicyModel { active_cpu_governor: v, ..m }),
        PolicyKey::HotCpuGovernor => Ok(PolicyModel { hot_cpu_governor: v, ..m }),
        PolicyKey::NvpmodelBin => Ok(PolicyModel { nvpmodel_bin: v, ..m }),
        PolicyKey::WorkloadFile => Ok(PolicyModel { workload_file: v, ..m }),
        PolicyKey::PrometheusListen => Ok(PolicyModel { prometheus_listen: v, ..m }),
        PolicyKey::MaxTempC | PolicyKey::CriticalTempC | PolicyKey::MinFps => Ok(m),
    }
}

impl PolicySettings {
    /// Sets the value of `key` from the text `value`.
    pub fn assign(&mut self, key: PolicyKey, value: &str) -> (r: Result<(), String>)
        ensures
            match assign_model(old(self)@, key, value@) {
                Ok(m) => r is Ok && final(self)@ == m,
                Err(e) => r matches Err(msg) && msg@ == e && final(self)@ == old(self)@,
            },
    {
        match key {
            PolicyKey::Name => {
                self.name = String::from_str(value);
            },
            PolicyKey::SampleIntervalMs => {
                let n = parse_u64(key.name(), value)?;
                self.sample_interval_ms = n;
            },
            PolicyKey::WorkloadStaleAfterS => {
                let n = parse_u64(key.name(), value)?;
                self.workload_stale_after_s = n;
            },
            PolicyKey::IdleNvpmodelMode => {
                let n = parse_u8(key.name(), value)?;
                self.idle_nvpmodel_mode = n;
            },
            PolicyKey::ActiveNvpmodelMode => {
                let n = parse_u8(key.name(), value)?;
                self.active_nvpmodel_mode = n;
            },
            PolicyKey::HotNvpmodelMode => {
                let n = parse_u8(key.name(), value)?;
                self.hot_nvpmodel_mode = n;
            },
            PolicyKey::IdleCpuGovernor => {
                self.idle_cpu_governor = String::from_str(value);
            },
            PolicyKey::ActiveCpuGovernor => {
                self.active_cpu_governor = String::from_str(value);
            },
            PolicyKey::HotCpuGovernor => {
                self.hot_cpu_governor = String::from_str(value);
            },
            PolicyKey::NvpmodelBin => {
                self.nvpmodel_bin = String::from_str(value);
            },
            PolicyKey::WorkloadFile => {
                self.workload_file = String::from_str(value);
            },
            PolicyKey::PrometheusListen => {
                self.prometheus_listen = String::from_str(value);
            },
            PolicyKey::MaxTempC | PolicyKey::CriticalTempC | PolicyKey::MinFps => {},
        }
        Ok(())
    }
}

} // verus!

verus! {

/// `"line N: expected key: value"`.
pub open spec fn malformed_message(line_no: nat) -> Seq<char> {
    "line "@ + decimal(line_no) + ": expected key: value"@
}

/// `"line N: unknown key K"`.
pub open spec fn unknown_key_message(line_no: nat, key: Seq<char>) -> Seq<char> {
    "line "@ + decimal(line_no) + ": unknown key "@ + key
}

/// The required keys among the first `n` that `seen` does not mark, in order.
pub open spec fn missing_keys(seen: Seq<bool>, n: int) -> Seq<Seq<char>>
    decreases n,
{
    if n <= 0 {
        Seq::empty()
    } else if !seen[n - 1] {
        missing_keys(seen, n - 1).push(PolicyKey::at(n - 1).text())
    } else {
        missing_keys(seen, n - 1)
    }
}

/// `"missing policy keys: K1, K2, ..."`.
pub open spec fn missing_message(keys: Seq<Seq<char>>) -> Seq<char> {
    "missing policy keys: "@ + join(keys, ", "@)
}

/// The state of a `PolicyReader`: the lines of the file, how many of them were
/// read, the settings so far, and which keys were met.
pub struct ReaderModel {
    pub lines: Seq<Seq<char>>,
    pub next: int,
    pub settings: PolicyModel,
    pub seen: Seq<bool>,
}

/// What one call of `PolicyReader::advance` hands back.
pub enum StepModel {
    /// The line that was read last sets `key` to the number written `value`,
    /// which the caller reads.
    Number(PolicyKey, Seq<char>),
    /// The file is no valid policy: the message says why.
    Failed(Seq<char>),
    /// All lines were read and every required key was met.
    Finished,
}

/// Whether `line` sets the key at position `i`.
pub open spec fn sets_key(line: Seq<char>, i: int) -> bool {
    match classify(line) {
        PolicyLine::Entry { key, value } => key_of(key) == Some(PolicyKey::at(i)),
        _ => false,
    }
}

/// A reader state that `PolicyReader` can be in.
pub open spec fn reader_wf(st: ReaderModel) -> bool {
    &&& 0 <= st.next <= st.lines.len()
    &&& st.seen.len() == POLICY_KEY_COUNT
    &&& forall|i: int|
        0 <= i < POLICY_KEY_COUNT && #[trigger] st.seen[i] ==> exists|j: int|
            0 <= j < st.next && sets_key(st.lines[j], i)
}

/// What reading on from `st` gives: the lines are read in order, each setting
/// the key it names, until a line sets a number with a fractional part, until
/// a line is malformed, names no key or gives a value that is no valid value
/// of its key, or until the lines are done, when every required key must have
/// been met.
pub open spec fn scan(st: ReaderModel) -> (ReaderModel, StepModel)
    decreases st.lines.len() - st.next,
{
    if st.next < 0 || st.next >= st.lines.len() {
        let missing = missing_keys(st.seen, POLICY_KEY_COUNT as int);
        (st, if missing.len() == 0 {
            StepModel::Finished
        } else {
            StepModel::Failed(missing_message(missing))
        })
    } else {
        let line_no = (st.next + 1) as nat;
        let st1 = ReaderModel { next: st.next + 1, ..st };
        match classify(st.lines[st.next]) {
            PolicyLine::Blank => scan(st1),
            PolicyLine::Malformed => (st1, StepModel::Failed(malformed_message(line_no))),
            PolicyLine::Entry { key, value } => match key_of(key) {
                None => (st1, StepModel::Failed(unknown_key_message(line_no, key))),
                Some(k) => {
                    let st2 = ReaderModel { seen: st1.seen.update(k.index(), true), ..st1 };
                    if k.is_number() {
                        (st2, StepModel::Number(k, value))
                    } else {
                        match assign_model(st.settings, k, value) {
                            Ok(m) => scan(ReaderModel { settings: m, ..st2 }),
                            Err(e) => (st1, StepModel::Failed(e)),
                        }
                    }
                },
            },
        }
    }
}

/// One step of reading a policy file.
pub enum PolicyStep {
    Number { key: PolicyKey, value: String },
    Failed(String),
    Finished,
}

impl View for PolicyStep {
    type V = StepModel;

    open spec fn view(&self) -> StepModel {
        match self {
            PolicyStep::Number { key, value } => StepModel::Number(*key, value@),
            PolicyStep::Failed(m) => StepModel::Failed(m@),
            PolicyStep::Finished => StepModel::Finished,
        }
    }
}

/// Reads a policy file line by line. The reader sets every key itself but
/// those whose values are numbers with a fractional part: it hands those back
/// to the caller, one at a time, and the caller goes on reading with
/// `advance` once it has read the number.
pub struct PolicyReader {
    lines: Vec<Vec<char>>,
    next: usize,
    settings: PolicySettings,
    seen: Vec<bool>,
}

impl View for PolicyReader {
    type V = ReaderModel;

    closed spec fn view(&self) -> ReaderModel {
        ReaderModel {
            lines: self.lines@.map_values(|l: Vec<char>| l@),
            next: self.next as int,
            settings: self.settings@,
            seen: self.seen@,
        }
    }
}

proof fn lemma_missing_keys_bound(seen: Seq<bool>, n: int)
    ensures
        missing_keys(seen, n).len() <= if n < 0 { 0 } else { n },
        (forall|i: int| 0 <= i < n ==> seen[i]) ==> missing_keys(seen, n).len() == 0,
        missing_keys(seen, n).len() == 0 ==> (forall|i: int| 0 <= i < n ==> seen[i]),
    decreases n,
{
    if n > 0 {
        lemma_missing_keys_bound(seen, n - 1);
    }
}

impl PolicyReader {
    /// The reader is in a state that `scan` describes.
    pub closed spec fn wf(&self) -> bool {
        &&& reader_wf(self@)
        &&& self.lines@.len() == self@.lines.len()
    }

    /// A reader of `content`, which starts from the reference settings.
    pub fn new(content: &str) -> (r: PolicyReader)
        ensures
            r.wf(),
            r@.lines == crate::text::lines_of(content@),
            r@.next == 0,
            r@.settings == default_model(),
            r@.seen == Seq::new(POLICY_KEY_COUNT as nat, |i: int| false),
    {
        let lines = crate::text::split_lines(content);
        let mut seen: Vec<bool> = Vec::new();
        let mut i: usize = 0;
        while i < POLICY_KEY_COUNT
            invariant
                i <= POLICY_KEY_COUNT,
                seen@ == Seq::new(i as nat, |k: int| false),
            decreases POLICY_KEY_COUNT - i,
        {
            seen.push(false);
            i = i + 1;
            assert(seen@ =~= Seq::new(i as nat, |k: int| false));
        }
        let r = PolicyReader { lines, next: 0, settings: PolicySettings::default(), seen };
        assert(r@.lines.len() == r.lines@.len());
        r
    }

    /// The settings read, once the reader is done with them.
    pub fn into_settings(self) -> (r: PolicySettings)
        ensures
            r@ == self@.settings,
    {
        self.settings
    }

    /// The settings read so far.
    pub fn settings(&self) -> (r: &PolicySettings)
        ensures
            r@ == self@.settings,
    {
        &self.settings
    }

    fn missing_text(&self) -> (r: Option<String>)
        requires
            self.wf(),
        ensures
            match r {
                None => missing_keys(self@.seen, POLICY_KEY_COUNT as int).len() == 0,
                Some(m) => missing_keys(self@.seen, POLICY_KEY_COUNT as int).len() > 0
                    && m@ == missing_message(missing_keys(self@.seen, POLICY_KEY_COUNT as int)),
            },
    {
        let ghost seen = self@.seen;
        let mut text = String::new();
        let mut count: usize = 0;
        let mut i: usize = 0;
        while i < POLICY_KEY_COUNT
            invariant
                i <= POLICY_KEY_COUNT,
                seen == self@.seen,
                seen.len() == POLICY_KEY_COUNT,
                self.seen@ == seen,
                count == missing_keys(seen, i as int).len(),
                text@ == join(missing_keys(seen, i as int), ", "@),
            decreases POLICY_KEY_COUNT - i,
        {
            proof {
                lemma_missing_keys_bound(seen, i as int);
            }
            if !self.seen[i] {
                let key = PolicyKey::at_position(i);
                if count > 0 {
                    append_str(&mut text, ", ");
                }
                append_str(&mut text, key.name());
                proof {
                    let prev = missing_keys(seen, i as int);
                    let now = missing_keys(seen, i + 1);
                    assert(now == prev.push(key.text()));
                    assert(now.drop_last() =~= prev);
                    if count == 0 {
                        assert(prev.len() == 0);
                        assert(text@ =~= join(now, ", "@));
                    }
                }
                count = count + 1;
            }
            i = i + 1;
        }
        if count == 0 {
            None
        } else {
            let mut m = String::new();
            append_str(&mut m, "missing policy keys: ");
            append_str(&mut m, text.as_str());
            Some(m)
        }
    }
}

} // verus!

verus! {

proof fn lemma_at_index(k: PolicyKey)
    ensures
        PolicyKey::at(k.index()) == k,
        0 <= k.index() < POLICY_KEY_COUNT,
{
}

fn malformed_text(line_no: usize) -> (r: String)
    ensures
        r@ == malformed_message(line_no as nat),
{
    let mut m = String::new();
    append_str(&mut m, "line ");
    append_decimal(&mut m, line_no as u64);
    append_str(&mut m, ": expected key: value");
    m
}

fn unknown_key_text(line_no: usize, key: &Vec<char>) -> (r: String)
    ensures
        r@ == unknown_key_message(line_no as nat, key@),
{
    let mut m = String::new();
    append_str(&mut m, "line ");
    append_decimal(&mut m, line_no as u64);
    append_str(&mut m, ": unknown key ");
    let k = string_of(key, 0, key.len());
    assert(k@ =~= key@);
    append_str(&mut m, k.as_str());
    m
}

impl PolicyReader {
    /// Reads on: see `scan`.
    pub fn advance(&mut self) -> (r: PolicyStep)
        requires
            old(self).wf(),
        ensures
            final(self).wf(),
            (final(self)@, r@) == scan(old(self)@),
    {
        let ghost start = self@;
        loop
            invariant
                self.wf(),
                scan(self@) == scan(start),
                start == old(self)@,
            decreases self@.lines.len() - self@.next,
        {
            if self.next >= self.lines.len() {
                proof {
                    lemma_missing_keys_bound(self@.seen, POLICY_KEY_COUNT as int);
                }
                return match self.missing_text() {
                    None => PolicyStep::Finished,
                    Some(m) => PolicyStep::Failed(m),
                };
            }
            let ghost before = self@;
            let idx = self.next;
            let parts = classify_line(&self.lines[idx]);
            assert(self.lines@[idx as int]@ == before.lines[idx as int]);
            let line_no = idx + 1;
            self.next = line_no;
            assert(self@ == ReaderModel { next: before.next + 1, ..before });
            match parts {
                LineParts::Blank => {},
                LineParts::Malformed => {
                    return PolicyStep::Failed(malformed_text(line_no));
                },
                LineParts::Entry { key, value } => {
                    match key_from_chars(&key) {
                        None => {
                            return PolicyStep::Failed(unknown_key_text(line_no, &key));
                        },
                        Some(k) => {
                            proof {
                                lemma_at_index(k);
                            }
                            let value_text = string_of(&value, 0, value.len());
                            assert(value_text@ =~= value@);
                            if k == PolicyKey::MaxTempC || k == PolicyKey::CriticalTempC || k
                                == PolicyKey::MinFps {
                                self.seen.set(k.position(), true);
                                proof {
                                    assert(sets_key(self@.lines[idx as int], k.index()));
                                }
                                return PolicyStep::Number { key: k, value: value_text };
                            }
                            match self.settings.assign(k, value_text.as_str()) {
                                Ok(()) => {
                                    self.seen.set(k.position(), true);
                                    proof {
                                        assert(sets_key(self@.lines[idx as int], k.index()));
                                    }
                                },
                                Err(e) => {
                                    return PolicyStep::Failed(e);
                                },
                            }
                        },
                    }
                },
            }
        }
    }
}

/// Whether some line of `lines` sets the key at position `i`.
pub open spec fn file_sets_key(lines: Seq<Seq<char>>, i: int) -> bool {
    exists|j: int| 0 <= j < lines.len() && sets_key(lines[j], i)
}

/// Reading a policy file ends well only when every required key was met: if
/// reading on from a reader state ends with `Finished`, each required key is
/// set by some line of the file.
pub proof fn finished_policy_sets_every_key(st: ReaderModel)
    requires
        reader_wf(st),
        scan(st).1 is Finished,
    ensures
        forall|i: int| 0 <= i < POLICY_KEY_COUNT ==> #[trigger] file_sets_key(st.lines, i),
    decreases st.lines.len() - st.next,
{
    if st.next >= st.lines.len() {
        lemma_missing_keys_bound(st.seen, POLICY_KEY_COUNT as int);
        assert forall|i: int| 0 <= i < POLICY_KEY_COUNT implies #[trigger] file_sets_key(st.lines, i) by {
            assert(st.seen[i]);
        }
    } else {
        let st1 = ReaderModel { next: st.next + 1, ..st };
        match classify(st.lines[st.next]) {
            PolicyLine::Blank => {
                finished_policy_sets_every_key(st1);
            },
            PolicyLine::Malformed => {},
            PolicyLine::Entry { key, value } => match key_of(key) {
                None => {},
                Some(k) => {
                    lemma_at_index(k);
                    let st2 = ReaderModel { seen: st1.seen.update(k.index(), true), ..st1 };
                    if !k.is_number() {
                        match assign_model(st.settings, k, value) {
                            Ok(m) => {
                                let st3 = ReaderModel { settings: m, ..st2 };
                                assert forall|i: int|
                                    0 <= i < POLICY_KEY_COUNT && #[trigger] st3.seen[i] implies exists|j: int|
                                    0 <= j < st3.next && sets_key(st3.lines[j], i) by {
                                    if i == k.index() {
                                        assert(sets_key(st3.lines[st.next], i));
                                    } else {
                                        assert(st.seen[i]);
                                    }
                                }
                                finished_policy_sets_every_key(st3);
                            },
                            Err(e) => {},
                        }
                    }
                },
            },
        }
    }
}

} // verus!

verus! {

/// What the caller finds of the thresholds it keeps, which are numbers with a
/// fractional part.
pub struct ThresholdChecks {
    /// `max_temp_c` is a finite number.
    pub max_temp_finite: bool,
    /// `critical_temp_c` is a finite number.
    pub critical_temp_finite: bool,
    /// `critical_temp_c` is greater than `max_temp_c`.
    pub critical_above_max: bool,
    /// `min_fps` is a finite number, at least 0.
    pub min_fps_valid: bool,
}

/// Whether `s` is empty once trimmed.
pub open spec fn blank(s: Seq<char>) -> bool {
    trim(s).len() == 0
}

/// The first rule that a policy breaks, as its message, or `None` for a valid
/// policy. The rules, in order: a name that is not blank; a sample interval of
/// at least 100 ms; finite thresholds; a critical temperature above the
/// maximum one; a minimum frame rate that is finite and not negative; a
/// staleness limit of at least 1 s; governors, `nvpmodel` path and workload
/// file that are not blank; and governors and `nvpmodel` modes on the
/// allowlists.
pub open spec fn policy_violation(m: PolicyModel, c: ThresholdChecks) -> Option<Seq<char>> {
    if blank(m.name) {
        Some("name must not be empty"@)
    } else if m.sample_interval_ms < 100 {
        Some("sample_interval_ms must be >= 100"@)
    } else if !c.max_temp_finite {
        Some("max_temp_c must be a finite number"@)
    } else if !c.critical_temp_finite {
        Some("critical_temp_c must be a finite number"@)
    } else if !c.critical_above_max {
        Some("critical_temp_c must be greater than max_temp_c"@)
    } else if !c.min_fps_valid {
        Some("min_fps must be a finite number >= 0"@)
    } else if m.workload_stale_after_s == 0 {
        Some("workload_stale_after_s must be >= 1"@)
    } else if blank(m.idle_cpu_governor) {
        Some("idle_cpu_governor"@ + " must not be empty"@)
    } else if blank(m.active_cpu_governor) {
        Some("active_cpu_governor"@ + " must not be empty"@)
    } else if blank(m.hot_cpu_governor) {
        Some("hot_cpu_governor"@ + " must not be empty"@)
    } else if blank(m.nvpmodel_bin) {
        Some("nvpmodel_bin"@ + " must not be empty"@)
    } else if blank(m.workload_file) {
        Some("workload_file"@ + " must not be empty"@)
    } else if !allowed_governor(m.idle_cpu_governor) {
        Some("idle_cpu_governor"@ + " is not an allowed CPU governor"@)
    } else if !allowed_governor(m.active_cpu_governor) {
        Some("active_cpu_governor"@ + " is not an allowed CPU governor"@)
    } else if !allowed_governor(m.hot_cpu_governor) {
        Some("hot_cpu_governor"@ + " is not an allowed CPU governor"@)
    } else if !allowed_nvpmodel_mode(m.idle_nvpmodel_mode) {
        Some("idle_nvpmodel_mode"@ + " is not an allowed nvpmodel mode"@)
    } else if !allowed_nvpmodel_mode(m.active_nvpmodel_mode) {
        Some("active_nvpmodel_mode"@ + " is not an allowed nvpmodel mode"@)
    } else if !allowed_nvpmodel_mode(m.hot_nvpmodel_mode) {
        Some("hot_nvpmodel_mode"@ + " is not an allowed nvpmodel mode"@)
    } else {
        None
    }
}

/// The CPU governors that a policy may select: the standard cpufreq
/// governors that leave the frequency to the kernel.
pub open spec fn allowed_governor(g: Seq<char>) -> bool {
    g == "conservative"@ || g == "ondemand"@ || g == "performance"@ || g == "powersave"@ || g
        == "schedutil"@
}

/// The `nvpmodel` modes that a policy may select: those of the Jetson Nano
/// class, 0 (maximum performance) and 1 (5 W).
pub open spec fn allowed_nvpmodel_mode(mode: u8) -> bool {
    mode == 0 || mode == 1
}

/// Whether `g` is on the allowlist of CPU governors.
pub fn is_allowed_governor(g: &String) -> (r: bool)
    ensures
        r == allowed_governor(g@),
{
    let v = chars_of(g.as_str());
    is_text(&v, "conservative") || is_text(&v, "ondemand") || is_text(&v, "performance")
        || is_text(&v, "powersave") || is_text(&v, "schedutil")
}

/// Whether `mode` is on the allowlist of `nvpmodel` modes.
pub fn is_allowed_nvpmodel_mode(mode: u8) -> (r: bool)
    ensures
        r == allowed_nvpmodel_mode(mode),
{
    mode == 0 || mode == 1
}

fn not_allowed_message(key: &str, what: &str) -> (r: String)
    ensures
        r@ == key@ + what@,
{
    let mut m = String::from_str(key);
    append_str(&mut m, what);
    m
}

/// A policy that passes the checks selects only allowed governors and
/// `nvpmodel` modes, so that no action outside the allowlists is ever taken.
pub proof fn valid_policy_stays_in_allowlists(m: PolicyModel, c: ThresholdChecks)
    requires
        policy_violation(m, c) is None,
    ensures
        allowed_governor(m.idle_cpu_governor),
        allowed_governor(m.active_cpu_governor),
        allowed_governor(m.hot_cpu_governor),
        allowed_nvpmodel_mode(m.idle_nvpmodel_mode),
        allowed_nvpmodel_mode(m.active_nvpmodel_mode),
        allowed_nvpmodel_mode(m.hot_nvpmodel_mode),
{
}

fn is_blank(s: &String) -> (r: bool)
    ensures
        r == blank(s@),
{
    let v = chars_of(s.as_str());
    let (a, b) = crate::text::trim_bounds(&v);
    a == b
}

fn empty_field_message(key: &str) -> (r: String)
    ensures
        r@ == key@ + " must not be empty"@,
{
    let mut m = String::from_str(key);
    append_str(&mut m, " must not be empty");
    m
}

/// Checks `policy` against the rules of `policy_violation`, with the
/// thresholds as `checks` finds them.
pub fn validate_policy(policy: &PolicySettings, checks: &ThresholdChecks) -> (r: Result<(), String>)
    ensures
        match policy_violation(policy@, *checks) {
            None => r is Ok,
            Some(msg) => r matches Err(e) && e@ == msg,
        },
{
    if is_blank(&policy.name) {
        return Err(String::from_str("name must not be empty"));
    }
    if policy.sample_interval_ms < 100 {
        return Err(String::from_str("sample_interval_ms must be >= 100"));
    }
    if !checks.max_temp_finite {
        return Err(String::from_str("max_temp_c must be a finite number"));
    }
    if !checks.critical_temp_finite {
        return Err(String::from_str("critical_temp_c must be a finite number"));
    }
    if !checks.critical_above_max {
        return Err(String::from_str("critical_temp_c must be greater than max_temp_c"));
    }
    if !checks.min_fps_valid {
        return Err(String::from_str("min_fps must be a finite number >= 0"));
    }
    if policy.workload_stale_after_s == 0 {
        return Err(String::from_str("workload_stale_after_s must be >= 1"));
    }
    if is_blank(&policy.idle_cpu_governor) {
        return Err(empty_field_message("idle_cpu_governor"));
    }
    if is_blank(&policy.active_cpu_governor) {
        return Err(empty_field_message("active_cpu_governor"));
    }
    if is_blank(&policy.hot_cpu_governor) {
        return Err(empty_field_message("hot_cpu_governor"));
    }
    if is_blank(&policy.nvpmodel_bin) {
        return Err(empty_field_message("nvpmodel_bin"));
    }
    if is_blank(&policy.workload_file) {
        return Err(empty_field_message("workload_file"));
    }
    if !is_allowed_governor(&policy.idle_cpu_governor) {
        return Err(not_allowed_message("idle_cpu_governor", " is not an allowed CPU governor"));
    }
    if !is_allowed_governor(&policy.active_cpu_governor) {
        return Err(not_allowed_message("active_cpu_governor", " is not an allowed CPU governor"));
    }
    if !is_allowed_governor(&policy.hot_cpu_governor) {
        return Err(not_allowed_message("hot_cpu_governor", " is not an allowed CPU governor"));
    }
    if !is_allowed_nvpmodel_mode(policy.idle_nvpmodel_mode) {
        return Err(not_allowed_message("idle_nvpmodel_mode", " is not an allowed nvpmodel mode"));
    }
    if !is_allowed_nvpmodel_mode(policy.active_nvpmodel_mode) {
        return Err(not_allowed_message("active_nvpmodel_mode", " is not an allowed nvpmodel mode"));
    }
    if !is_allowed_nvpmodel_mode(policy.hot_nvpmodel_mode) {
        return Err(not_allowed_message("hot_nvpmodel_mode", " is not an allowed nvpmodel mode"));
    }
    Ok(())
}

} // verus!

verus! {

/// The text a policy holds for key `k`, when `k` takes a text value.
pub open spec fn text_setting(m: PolicyModel, k: PolicyKey) -> Option<Seq<char>> {
    match k {
        PolicyKey::Name => Some(m.name),
        PolicyKey::IdleCpuGovernor => Some(m.idle_cpu_governor),
        PolicyKey::ActiveCpuGovernor => Some(m.active_cpu_governor),
        PolicyKey::HotCpuGovernor => Some(m.hot_cpu_governor),
        PolicyKey::NvpmodelBin => Some(m.nvpmodel_bin),
        PolicyKey::WorkloadFile => Some(m.workload_file),
        PolicyKey::PrometheusListen => Some(m.prometheus_listen),
        _ => None,
    }
}

/// The integer a policy holds for key `k`, when `k` takes an integer value.
pub open spec fn integer_setting(m: PolicyModel, k: PolicyKey) -> Option<nat> {
    match k {
        PolicyKey::SampleIntervalMs => Some(m.sample_interval_ms as nat),
        PolicyKey::WorkloadStaleAfterS => Some(m.workload_stale_after_s as nat),
        PolicyKey::IdleNvpmodelMode => Some(m.idle_nvpmodel_mode as nat),
        PolicyKey::ActiveNvpmodelMode => Some(m.active_nvpmodel_mode as nat),
        PolicyKey::HotNvpmodelMode => Some(m.hot_nvpmodel_mode as nat),
        _ => None,
    }
}

/// The largest value of the integer type of key `k`: `u64` for the interval
/// and the staleness limit, `u8` for the `nvpmodel` modes.
pub open spec fn integer_limit(k: PolicyKey) -> nat {
    match k {
        PolicyKey::IdleNvpmodelMode | PolicyKey::ActiveNvpmodelMode | PolicyKey::HotNvpmodelMode => u8::MAX as nat,
        _ => u64::MAX as nat,
    }
}

/// A line with a text key sets that key to the line's value and nothing else:
/// it is accepted, the key's text becomes `v`, and every other setting stays.
pub proof fn text_line_sets_its_key(m: PolicyModel, k: PolicyKey, v: Seq<char>)
    requires
        text_setting(m, k) is Some,
    ensures
        assign_model(m, k, v) matches Ok(r) && text_setting(r, k) == Some(v) && (forall|j: PolicyKey|
            j != k ==> #[trigger] text_setting(r, j) == text_setting(m, j)) && (forall|j: PolicyKey|
            #[trigger] integer_setting(r, j) == integer_setting(m, j)),
{
}

/// A line with an integer key and the decimal text of `n` sets that key to
/// `n` and nothing else, when `n` fits the key's type; otherwise the line is
/// refused.
pub proof fn integer_line_sets_its_key(m: PolicyModel, k: PolicyKey, n: nat)
    requires
        integer_setting(m, k) is Some,
    ensures
        n <= integer_limit(k) ==> (assign_model(m, k, decimal(n)) matches Ok(r) && integer_setting(
            r,
            k,
        ) == Some(n) && (forall|j: PolicyKey|
            j != k ==> #[trigger] integer_setting(r, j) == integer_setting(m, j)) && (forall|
            j: PolicyKey,
        | #[trigger] text_setting(r, j) == text_setting(m, j))),
        n > integer_limit(k) ==> assign_model(m, k, decimal(n)) is Err,
{
    if n <= integer_limit(k) {
        crate::numbers::decimal_text_parses_back(n, integer_limit(k));
    } else {
        crate::numbers::decimal_text_above_limit_is_refused(n, integer_limit(k));
    }
}

/// A line with a key whose value has a fractional part leaves the settings
/// as they are: the caller reads that value.
pub proof fn number_line_leaves_settings(m: PolicyModel, k: PolicyKey, v: Seq<char>)
    requires
        k.is_number(),
    ensures
        assign_model(m, k, v) == Ok::<PolicyModel, Seq<char>>(m),
{
}

/// An accepted line for key `k` leaves the setting of every other key.
proof fn other_keys_stay(m: PolicyModel, k: PolicyKey, v: Seq<char>, j: PolicyKey)
    requires
        j != k,
    ensures
        assign_model(m, k, v) is Ok ==> text_setting(assign_model(m, k, v)->Ok_0, j) == text_setting(m, j)
            && integer_setting(assign_model(m, k, v)->Ok_0, j) == integer_setting(m, j),
{
}

proof fn lemma_scan_moves_on(st: ReaderModel)
    requires
        0 <= st.next < st.lines.len(),
    ensures
        scan(st).0.next > st.next,
    decreases st.lines.len() - st.next,
{
    let st1 = ReaderModel { next: st.next + 1, ..st };
    match classify(st.lines[st.next]) {
        PolicyLine::Blank => {
            if st1.next < st1.lines.len() {
                lemma_scan_moves_on(st1);
            }
        },
        PolicyLine::Malformed => {},
        PolicyLine::Entry { key, value } => match key_of(key) {
            None => {},
            Some(k) => {
                let st2 = ReaderModel { seen: st1.seen.update(k.index(), true), ..st1 };
                if !k.is_number() {
                    match assign_model(st.settings, k, value) {
                        Ok(m) => {
                            let st3 = ReaderModel { settings: m, ..st2 };
                            if st3.next < st3.lines.len() {
                                lemma_scan_moves_on(st3);
                            }
                        },
                        Err(e) => {},
                    }
                }
            },
        },
    }
}

/// Lines that do not set key `k` leave its setting: reading on from `st`,
/// where none of the lines read sets `k`, ends with the same setting of `k`.
pub proof fn lines_for_other_keys_keep_a_setting(st: ReaderModel, k: PolicyKey)
    requires
        forall|j: int|
            st.next <= j < scan(st).0.next ==> !sets_key(#[trigger] st.lines[j], k.index()),
    ensures
        text_setting(scan(st).0.settings, k) == text_setting(st.settings, k),
        integer_setting(scan(st).0.settings, k) == integer_setting(st.settings, k),
    decreases st.lines.len() - st.next,
{
    if 0 <= st.next < st.lines.len() {
        let st1 = ReaderModel { next: st.next + 1, ..st };
        match classify(st.lines[st.next]) {
            PolicyLine::Blank => {
                lines_for_other_keys_keep_a_setting(st1, k);
            },
            PolicyLine::Malformed => {},
            PolicyLine::Entry { key, value } => match key_of(key) {
                None => {},
                Some(k2) => {
                    let st2 = ReaderModel { seen: st1.seen.update(k2.index(), true), ..st1 };
                    if !k2.is_number() {
                        match assign_model(st.settings, k2, value) {
                            Ok(m) => {
                                lemma_at_index(k);
                                lemma_at_index(k2);
                                lemma_scan_moves_on(st);
                                assert(!sets_key(st.lines[st.next], k.index()));
                                assert(k2 != k);
                                other_keys_stay(st.settings, k2, value, k);
                                lines_for_other_keys_keep_a_setting(
                                    ReaderModel { settings: m, ..st2 },
                                    k,
                                );
                            },
                            Err(e) => {},
                        }
                    }
                },
            },
        }
    }
}

/// Reading a line `key: value` with a text key sets that key to the line's
/// value (trimmed and unquoted, as `classify` takes it apart), and it keeps
/// that value while no later line sets the key again.
pub proof fn text_line_value_is_kept(st: ReaderModel, key: Seq<char>, value: Seq<char>, k: PolicyKey)
    requires
        0 <= st.next < st.lines.len(),
        classify(st.lines[st.next]) == (PolicyLine::Entry { key, value }),
        key_of(key) == Some(k),
        text_setting(st.settings, k) is Some,
        forall|j: int|
            st.next < j < scan(st).0.next ==> !sets_key(#[trigger] st.lines[j], k.index()),
    ensures
        scan(st).1 !is Failed ==> text_setting(scan(st).0.settings, k) == Some(value),
{
    let st1 = ReaderModel { next: st.next + 1, ..st };
    let st2 = ReaderModel { seen: st1.seen.update(k.index(), true), ..st1 };
    text_line_sets_its_key(st.settings, k, value);
    match assign_model(st.settings, k, value) {
        Ok(m) => {
            let st3 = ReaderModel { settings: m, ..st2 };
            assert(scan(st) == scan(st3));
            lines_for_other_keys_keep_a_setting(st3, k);
        },
        Err(e) => {},
    }
}

/// A policy passes the checks exactly when it keeps every rule: a name that is
/// not blank, a sample interval of at least 100 ms, finite thresholds with the
/// critical temperature above the maximum one, a valid minimum frame rate, a
/// staleness limit of at least 1 s, governors, `nvpmodel` path and workload
/// file that are not blank, and governors and modes on the allowlists.
pub proof fn valid_policy_keeps_every_rule(m: PolicyModel, c: ThresholdChecks)
    ensures
        policy_violation(m, c) is None <==> {
            &&& !blank(m.name)
            &&& m.sample_interval_ms >= 100
            &&& c.max_temp_finite
            &&& c.critical_temp_finite
            &&& c.critical_above_max
            &&& c.min_fps_valid
            &&& m.workload_stale_after_s >= 1
            &&& !blank(m.idle_cpu_governor)
            &&& !blank(m.active_cpu_governor)
            &&& !blank(m.hot_cpu_governor)
            &&& !blank(m.nvpmodel_bin)
            &&& !blank(m.workload_file)
            &&& allowed_governor(m.idle_cpu_governor)
            &&& allowed_governor(m.active_cpu_governor)
            &&& allowed_governor(m.hot_cpu_governor)
            &&& allowed_nvpmodel_mode(m.idle_nvpmodel_mode)
            &&& allowed_nvpmodel_mode(m.active_nvpmodel_mode)
            &&& allowed_nvpmodel_mode(m.hot_nvpmodel_mode)
        },
{
}

/// A blank path or file is refused as empty: when the earlier rules hold and
/// the `nvpmodel` path (or, with that path set, the workload file) is blank,
/// the message says that it must not be empty.
pub proof fn blank_paths_are_refused(m: PolicyModel, c: ThresholdChecks)
    requires
        !blank(m.name),
        m.sample_interval_ms >= 100,
        c.max_temp_finite && c.critical_temp_finite && c.critical_above_max && c.min_fps_valid,
        m.workload_stale_after_s >= 1,
        !blank(m.idle_cpu_governor) && !blank(m.active_cpu_governor) && !blank(m.hot_cpu_governor),
    ensures
        blank(m.nvpmodel_bin) ==> policy_violation(m, c) == Some("nvpmodel_bin must not be empty"@),
        !blank(m.nvpmodel_bin) && blank(m.workload_file) ==> policy_violation(m, c) == Some(
            "workload_file must not be empty"@,
        ),
{
    reveal_strlit("nvpmodel_bin must not be empty");
    reveal_strlit("nvpmodel_bin");
    reveal_strlit(" must not be empty");
    reveal_strlit("workload_file must not be empty");
    reveal_strlit("workload_file");
    assert("nvpmodel_bin"@ + " must not be empty"@ =~= "nvpmodel_bin must not be empty"@);
    assert("workload_file"@ + " must not be empty"@ =~= "workload_file must not be empty"@);
}

} // verus!
