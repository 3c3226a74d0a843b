//! The Prometheus text that the metrics endpoint serves.
use vstd::prelude::*;
use crate::governors::GovernorMap;
use crate::numbers::{append_decimal, decimal};
use crate::text::{append_str, chars_of, find_char, has_infix, lemma_first_index_of, push_char};

verus! {

/// The text that stands for `c` inside a quoted label value.
pub open spec fn escape_char(c: char) -> Seq<char> {
    if c == '\\' {
        seq!['\\', '\\']
    } else if c == '"' {
        seq!['\\', '"']
    } else if c == '\n' {
        seq!['\\', 'n']
    } else {
        seq![c]
    }
}

/// `s` as a quoted label value holds it: each backslash doubled, each double
/// quote and each line feed escaped with a backslash.
pub open spec fn escaped(s: Seq<char>) -> Seq<char>
    decreases s.len(),
{
    if s.len() == 0 {
        Seq::empty()
    } else {
        escape_char(s[0]) + escaped(s.drop_first())
    }
}

/// The text that an escaped label value stands for.
pub open spec fn unescaped(s: Seq<char>) -> Seq<char>
    decreases s.len(),
{
    if s.len() == 0 {
        Seq::empty()
    } else if s[0] == '\\' && s.len() >= 2 {
        seq![if s[1] == 'n' { '\n' } else { s[1] }] + unescaped(s.subrange(2, s.len() as int))
    } else {
        seq![s[0]] + unescaped(s.drop_first())
    }
}

proof fn lemma_escaped_append(s: Seq<char>, c: char)
    ensures
        escaped(s.push(c)) == escaped(s) + escape_char(c),
    decreases s.len(),
{
    if s.len() == 0 {
        assert(s.push(c).drop_first() =~= Seq::<char>::empty());
        assert(escaped(Seq::<char>::empty()) =~= Seq::<char>::empty());
        assert(s.push(c)[0] == c);
        assert(escaped(s) =~= Seq::<char>::empty());
        assert(escaped(s.push(c)) =~= escape_char(c));
    } else {
        lemma_escaped_append(s.drop_first(), c);
        assert(s.push(c).drop_first() =~= s.drop_first().push(c));
        assert(escaped(s.push(c)) =~= escaped(s) + escape_char(c));
    }
}

/// Escaping can be undone: the label value that an escaped text stands for is
/// the text that was escaped.
pub proof fn unescape_undoes_escape(s: Seq<char>)
    ensures
        unescaped(escaped(s)) == s,
    decreases s.len(),
{
    if s.len() > 0 {
        unescape_undoes_escape(s.drop_first());
        let e = escaped(s);
        let head = escape_char(s[0]);
        if head.len() == 2 {
            assert(e.subrange(2, e.len() as int) =~= escaped(s.drop_first()));
        } else {
            assert(e.drop_first() =~= escaped(s.drop_first()));
        }
        assert(unescaped(e) =~= s);
    }
}

/// An escaped label value holds no line feed, so that each metric stays on
/// its line.
pub proof fn escaped_has_no_line_feed(s: Seq<char>)
    ensures
        forall|i: int| 0 <= i < escaped(s).len() ==> escaped(s)[i] != '\n',
    decreases s.len(),
{
    if s.len() > 0 {
        escaped_has_no_line_feed(s.drop_first());
        let head = escape_char(s[0]);
        assert forall|i: int| 0 <= i < escaped(s).len() implies escaped(s)[i] != '\n' by {
            if i >= head.len() {
                assert(escaped(s)[i] == escaped(s.drop_first())[i - head.len()]);
            }
        }
    }
}

/// Appends `value`, escaped for a quoted label value, to `out`.
pub fn append_escaped(out: &mut String, value: &str)
    ensures
        final(out)@ == old(out)@ + escaped(value@),
{
    let v = chars_of(value);
    let ghost start = out@;
    let mut i: usize = 0;
    assert(v@.take(0) =~= Seq::<char>::empty());
    assert(start + escaped(Seq::<char>::empty()) =~= start);
    while i < v.len()
        invariant
            i <= v@.len(),
            v@ == value@,
            out@ == start + escaped(v@.take(i as int)),
        decreases v@.len() - i,
    {
        let c = v[i];
        if c == '\\' {
            push_char(out, '\\');
            push_char(out, '\\');
        } else if c == '"' {
            push_char(out, '\\');
            push_char(out, '"');
        } else if c == '\n' {
            push_char(out, '\\');
            push_char(out, 'n');
        } else {
            push_char(out, c);
        }
        proof {
            lemma_escaped_append(v@.take(i as int), c);
            assert(v@.take(i + 1) =~= v@.take(i as int).push(c));
            assert(out@ =~= start + escaped(v@.take(i + 1)));
        }
        i = i + 1;
    }
    assert(v@.take(i as int) =~= v@);
}

/// `value` escaped for a quoted label value.
pub fn escape_label(value: &str) -> (r: String)
    ensures
        r@ == escaped(value@),
{
    let mut r = String::new();
    append_escaped(&mut r, value);
    assert(r@ =~= escaped(value@));
    r
}

/// The text of a number shown as a metric value. It holds no line feed, so
/// that each value keeps to the one line of its sample.
pub struct MetricValue {
    text: String,
}

impl View for MetricValue {
    type V = Seq<char>;

    closed spec fn view(&self) -> Seq<char> {
        self.text@
    }
}

impl MetricValue {
    #[verifier::type_invariant]
    spec fn one_line(self) -> bool {
        !self.text@.contains('\n')
    }

    /// `text` as a metric value; `None` when it holds a line feed.
    pub fn new(text: String) -> (r: Option<MetricValue>)
        ensures
            r is Some <==> !text@.contains('\n'),
            r matches Some(v) ==> v@ == text@,
    {
        let v = chars_of(text.as_str());
        proof {
            lemma_first_index_of(v@, '\n');
        }
        match find_char(&v, '\n') {
            Some(i) => {
                assert(text@[i as int] == '\n');
                None
            },
            None => Some(MetricValue { text }),
        }
    }

    /// The text of the value, which holds no line feed.
    pub fn as_str(&self) -> (r: &str)
        ensures
            r@ == self@,
            !r@.contains('\n'),
    {
        proof {
            use_type_invariant(self);
        }
        self.text.as_str()
    }
}

/// The text of an optional metric value.
pub open spec fn opt_value(o: Option<MetricValue>) -> Option<Seq<char>> {
    match o {
        Some(v) => Some(v@),
        None => None,
    }
}

/// The three lines of a gauge `name` with help text `help` and value `v`.
pub open spec fn gauge_lines(name: Seq<char>, help: Seq<char>, v: Seq<char>) -> Seq<char> {
    "# HELP "@ + name + " "@ + help + "\n"@ + "# TYPE "@ + name + " gauge\n"@ + name + " "@ + v
        + "\n"@
}

/// The gauge for an optional value: nothing when there is no value.
pub open spec fn optional_gauge(name: Seq<char>, help: Seq<char>, value: Option<Seq<char>>) -> Seq<
    char,
> {
    match value {
        Some(v) => gauge_lines(name, help, v),
        None => Seq::empty(),
    }
}

/// The text of an optional string.
pub open spec fn opt_text(o: Option<String>) -> Option<Seq<char>> {
    match o {
        Some(s) => Some(s@),
        None => None,
    }
}

/// Appends the gauge `name` with help text `help` and value `value`, if there
/// is a value.
pub fn push_opt(out: &mut String, name: &str, help: &str, value: &Option<MetricValue>)
    ensures
        final(out)@ == old(out)@ + optional_gauge(name@, help@, opt_value(*value)),
{
    match value {
        Some(v) => {
            append_str(out, "# HELP ");
            append_str(out, name);
            append_str(out, " ");
            append_str(out, help);
            append_str(out, "\n");
            append_str(out, "# TYPE ");
            append_str(out, name);
            append_str(out, " gauge\n");
            append_str(out, name);
            append_str(out, " ");
            append_str(out, v.as_str());
            append_str(out, "\n");
        },
        None => {
            assert(old(out)@ + Seq::<char>::empty() =~= old(out)@);
        },
    }
}

/// The temperature of one thermal zone.
pub struct ThermalZone {
    pub name: String,
    /// The temperature in degrees Celsius.
    pub temp_c: MetricValue,
}

/// The zone names and temperatures of `zs`, as texts.
pub open spec fn zone_texts(zs: Seq<ThermalZone>) -> Seq<(Seq<char>, Seq<char>)> {
    zs.map_values(|z: ThermalZone| (z.name@, z.temp_c@))
}

/// What the metrics endpoint shows: the last sample, the last choice and the
/// count of failed actions. Numbers with a fractional part are held as the
/// text the endpoint shows for them, each a `MetricValue`.
pub struct SharedMetrics {
    pub ts_unix: u64,
    pub policy_name: String,
    pub reason: String,
    pub dry_run: bool,
    pub max_temp_c: Option<MetricValue>,
    pub thermal_zones: Vec<ThermalZone>,
    pub avg_cpu_freq_khz: Option<MetricValue>,
    pub cpu_governors: GovernorMap,
    pub gpu_cur_freq_hz: Option<MetricValue>,
    pub gpu_max_freq_hz: Option<MetricValue>,
    pub power_mw_sum: Option<MetricValue>,
    pub workload_active: bool,
    pub workload_fps: Option<MetricValue>,
    pub workload_phase: Option<String>,
    pub workload_stale: bool,
    pub nvpmodel_mode: Option<u8>,
    pub cpu_governor: Option<String>,
    pub actions_failed: u64,
}

/// The value of a `SharedMetrics`.
pub struct MetricsModel {
    pub ts_unix: u64,
    pub policy_name: Seq<char>,
    pub reason: Seq<char>,
    pub dry_run: bool,
    pub max_temp_c: Option<Seq<char>>,
    pub thermal_zones: Seq<(Seq<char>, Seq<char>)>,
    pub avg_cpu_freq_khz: Option<Seq<char>>,
    pub cpu_governors: Seq<(Seq<char>, Seq<char>)>,
    pub gpu_cur_freq_hz: Option<Seq<char>>,
    pub gpu_max_freq_hz: Option<Seq<char>>,
    pub power_mw_sum: Option<Seq<char>>,
    pub workload_active: bool,
    pub workload_fps: Option<Seq<char>>,
    pub workload_phase: Option<Seq<char>>,
    pub workload_stale: bool,
    pub nvpmodel_mode: Option<u8>,
    pub cpu_governor: Option<Seq<char>>,
    pub actions_failed: u64,
}


impl View for SharedMetrics {
    type V = MetricsModel;

    open spec fn view(&self) -> MetricsModel {
        MetricsModel {
            ts_unix: self.ts_unix,
            policy_name: self.policy_name@,
            reason: self.reason@,
            dry_run: self.dry_run,
            max_temp_c: opt_value(self.max_temp_c),
            thermal_zones: zone_texts(self.thermal_zones@),
            avg_cpu_freq_khz: opt_value(self.avg_cpu_freq_khz),
            cpu_governors: self.cpu_governors@,
            gpu_cur_freq_hz: opt_value(self.gpu_cur_freq_hz),
            gpu_max_freq_hz: opt_value(self.gpu_max_freq_hz),
            power_mw_sum: opt_value(self.power_mw_sum),
            workload_active: self.workload_active,
            workload_fps: opt_value(self.workload_fps),
            workload_phase: opt_text(self.workload_phase),
            workload_stale: self.workload_stale,
            nvpmodel_mode: self.nvpmodel_mode,
            cpu_governor: opt_text(self.cpu_governor),
            actions_failed: self.actions_failed,
        }
    }
}

impl Default for SharedMetrics {
    fn default() -> (r: Self)
        ensures
            r@.ts_unix == 0,
            r@.policy_name.len() == 0,
            r@.reason.len() == 0,
            !r@.dry_run,
            r@.max_temp_c is None,
            r@.thermal_zones.len() == 0,
            r@.avg_cpu_freq_khz is None,
            r@.cpu_governors.len() == 0,
            r@.gpu_cur_freq_hz is None,
            r@.gpu_max_freq_hz is None,
            r@.power_mw_sum is None,
            !r@.workload_active,
            r@.workload_fps is None,
            r@.workload_phase is None,
            !r@.workload_stale,
            r@.nvpmodel_mode is None,
            r@.cpu_governor is None,
            r@.actions_failed == 0,
    {
        SharedMetrics {
            ts_unix: 0,
            policy_name: String::new(),
            reason: String::new(),
            dry_run: false,
            max_temp_c: None,
            thermal_zones: Vec::new(),
            avg_cpu_freq_khz: None,
            cpu_governors: GovernorMap::new(),
            gpu_cur_freq_hz: None,
            gpu_max_freq_hz: None,
            power_mw_sum: None,
            workload_active: false,
            workload_fps: None,
            workload_phase: None,
            workload_stale: false,
            nvpmodel_mode: None,
            cpu_governor: None,
            actions_failed: 0,
        }
    }
}

} // verus!

verus! {

pub open spec fn bool_text(b: bool) -> Seq<char> {
    if b {
        "true"@
    } else {
        "false"@
    }
}

pub open spec fn flag_digit(b: bool) -> Seq<char> {
    if b {
        "1"@
    } else {
        "0"@
    }
}

pub open spec fn info_section(name: Seq<char>, dry_run: bool) -> Seq<char> {
    "# HELP thermagent_info Static daemon info.\n"@ + "# TYPE thermagent_info gauge\n"@
        + "thermagent_info{policy=\""@ + escaped(name) + "\",dry_run=\""@ + bool_text(dry_run)
        + "\"} 1\n"@
}

pub open spec fn timestamp_section(ts: u64) -> Seq<char> {
    "# HELP thermagent_timestamp_seconds Last telemetry sample timestamp.\n"@
        + "# TYPE thermagent_timestamp_seconds gauge\n"@ + "thermagent_timestamp_seconds "@
        + decimal(ts as nat) + "\n"@
}

pub open spec fn zone_line(z: (Seq<char>, Seq<char>)) -> Seq<char> {
    "thermagent_thermal_zone_temperature_celsius{zone=\""@ + escaped(z.0) + "\"} "@ + z.1 + "\n"@
}

pub open spec fn zone_lines(zs: Seq<(Seq<char>, Seq<char>)>) -> Seq<char>
    decreases zs.len(),
{
    if zs.len() == 0 {
        Seq::empty()
    } else {
        zone_lines(zs.drop_last()) + zone_line(zs.last())
    }
}

pub open spec fn zones_section(zs: Seq<(Seq<char>, Seq<char>)>) -> Seq<char> {
    if zs.len() == 0 {
        Seq::empty()
    } else {
        "# HELP thermagent_thermal_zone_temperature_celsius Thermal-zone temperature by zone.\n"@
            + "# TYPE thermagent_thermal_zone_temperature_celsius gauge\n"@ + zone_lines(zs)
    }
}

pub open spec fn governor_line(g: (Seq<char>, Seq<char>)) -> Seq<char> {
    "thermagent_cpu_scaling_governor_info{cpu=\""@ + escaped(g.0) + "\",governor=\""@ + escaped(
        g.1,
    ) + "\"} 1\n"@
}

pub open spec fn governor_lines(gs: Seq<(Seq<char>, Seq<char>)>) -> Seq<char>
    decreases gs.len(),
{
    if gs.len() == 0 {
        Seq::empty()
    } else {
        governor_lines(gs.drop_last()) + governor_line(gs.last())
    }
}

pub open spec fn governors_section(gs: Seq<(Seq<char>, Seq<char>)>) -> Seq<char> {
    if gs.len() == 0 {
        Seq::empty()
    } else {
        "# HELP thermagent_cpu_scaling_governor_info Current CPU cpufreq governor labels.\n"@
            + "# TYPE thermagent_cpu_scaling_governor_info gauge\n"@ + governor_lines(gs)
    }
}

pub open spec fn active_section(active: bool) -> Seq<char> {
    "# HELP thermagent_workload_active Workload hint active flag.\n"@
        + "# TYPE thermagent_workload_active gauge\n"@ + "thermagent_workload_active "@
        + flag_digit(active) + "\n"@
}

pub open spec fn stale_section(stale: bool) -> Seq<char> {
    "# HELP thermagent_workload_stale Workload hint staleness flag.\n"@
        + "# TYPE thermagent_workload_stale gauge\n"@ + "thermagent_workload_stale "@ + flag_digit(
        stale,
    ) + "\n"@
}

pub open spec fn phase_section(phase: Option<Seq<char>>) -> Seq<char> {
    match phase {
        Some(p) => "# HELP thermagent_workload_phase_info Workload phase label from hint.\n"@
            + "# TYPE thermagent_workload_phase_info gauge\n"@
            + "thermagent_workload_phase_info{phase=\""@ + escaped(p) + "\"} 1\n"@,
        None => Seq::empty(),
    }
}

pub open spec fn nvpmodel_section(mode: Option<u8>, reason: Seq<char>) -> Seq<char> {
    match mode {
        Some(m) => "# HELP thermagent_nvpmodel_mode Desired Jetson nvpmodel mode.\n"@
            + "# TYPE thermagent_nvpmodel_mode gauge\n"@ + "thermagent_nvpmodel_mode{reason=\""@
            + escaped(reason) + "\"} "@ + decimal(m as nat) + "\n"@,
        None => Seq::empty(),
    }
}

pub open spec fn governor_choice_section(governor: Option<Seq<char>>, reason: Seq<char>) -> Seq<
    char,
> {
    match governor {
        Some(g) => "# HELP thermagent_cpu_governor_info Desired CPU governor label.\n"@
            + "# TYPE thermagent_cpu_governor_info gauge\n"@
            + "thermagent_cpu_governor_info{governor=\""@ + escaped(g) + "\",reason=\""@
            + escaped(reason) + "\"} 1\n"@,
        None => Seq::empty(),
    }
}

pub open spec fn actions_section(failed: u64) -> Seq<char> {
    "# HELP thermagent_actions_failed_total Failed action attempts.\n"@
        + "# TYPE thermagent_actions_failed_total counter\n"@ + "thermagent_actions_failed_total "@
        + decimal(failed as nat) + "\n"@
}

/// The first part of the Prometheus text: daemon info, timestamp and the
/// temperature and CPU gauges.
pub open spec fn sample_text(m: MetricsModel) -> Seq<char> {
    info_section(m.policy_name, m.dry_run) + timestamp_section(m.ts_unix) + optional_gauge(
        "thermagent_temperature_celsius"@,
        "Max thermal-zone temperature."@,
        m.max_temp_c,
    ) + zones_section(m.thermal_zones) + optional_gauge(
        "thermagent_cpu_freq_khz"@,
        "Average CPU frequency from cpufreq."@,
        m.avg_cpu_freq_khz,
    ) + governors_section(m.cpu_governors)
}

/// The second part: the GPU and power gauges.
pub open spec fn device_text(m: MetricsModel) -> Seq<char> {
    optional_gauge(
        "thermagent_gpu_cur_freq_hz"@,
        "GPU-like devfreq current frequency."@,
        m.gpu_cur_freq_hz,
    ) + optional_gauge(
        "thermagent_gpu_max_freq_hz"@,
        "GPU-like devfreq max frequency."@,
        m.gpu_max_freq_hz,
    ) + optional_gauge(
        "thermagent_power_mw_sum"@,
        "Sum of discovered INA3221 power input files."@,
        m.power_mw_sum,
    )
}

/// The third part: the workload hint.
pub open spec fn workload_text(m: MetricsModel) -> Seq<char> {
    active_section(m.workload_active) + optional_gauge(
        "thermagent_workload_fps"@,
        "Workload hint FPS."@,
        m.workload_fps,
    ) + stale_section(m.workload_stale) + phase_section(m.workload_phase)
}

/// The last part: the choice made and the count of failed actions.
pub open spec fn choice_text(m: MetricsModel) -> Seq<char> {
    nvpmodel_section(m.nvpmodel_mode, m.reason) + governor_choice_section(m.cpu_governor, m.reason)
        + actions_section(m.actions_failed)
}

/// The Prometheus text for `m`: the daemon info, the timestamp, then the
/// gauges in a fixed order, each optional one only when it has a value.
pub open spec fn prometheus_text(m: MetricsModel) -> Seq<char> {
    sample_text(m) + device_text(m) + workload_text(m) + choice_text(m)
}

fn append_bool(out: &mut String, b: bool, yes: &str, no: &str)
    ensures
        final(out)@ == old(out)@ + if b {
            yes@
        } else {
            no@
        },
{
    if b {
        append_str(out, yes);
    } else {
        append_str(out, no);
    }
}

fn append_info(out: &mut String, m: &SharedMetrics)
    ensures
        final(out)@ == old(out)@ + info_section(m@.policy_name, m@.dry_run),
{
    append_str(out, "# HELP thermagent_info Static daemon info.\n");
    append_str(out, "# TYPE thermagent_info gauge\n");
    append_str(out, "thermagent_info{policy=\"");
    append_escaped(out, m.policy_name.as_str());
    append_str(out, "\",dry_run=\"");
    append_bool(out, m.dry_run, "true", "false");
    append_str(out, "\"} 1\n");
}

fn append_timestamp(out: &mut String, ts: u64)
    ensures
        final(out)@ == old(out)@ + timestamp_section(ts),
{
    append_str(out, "# HELP thermagent_timestamp_seconds Last telemetry sample timestamp.\n");
    append_str(out, "# TYPE thermagent_timestamp_seconds gauge\n");
    append_str(out, "thermagent_timestamp_seconds ");
    append_decimal(out, ts);
    append_str(out, "\n");
}

fn append_zones(out: &mut String, zones: &Vec<ThermalZone>)
    ensures
        final(out)@ == old(out)@ + zones_section(zone_texts(zones@)),
{
    let ghost zs = zone_texts(zones@);
    if zones.len() == 0 {
        assert(old(out)@ + Seq::<char>::empty() =~= old(out)@);
        return;
    }
    append_str(out, "# HELP thermagent_thermal_zone_temperature_celsius Thermal-zone temperature by zone.\n");
    append_str(out, "# TYPE thermagent_thermal_zone_temperature_celsius gauge\n");
    let ghost start = out@;
    let mut i: usize = 0;
    assert(zs.take(0) =~= Seq::<(Seq<char>, Seq<char>)>::empty());
    assert(start + zone_lines(zs.take(0)) =~= start);
    while i < zones.len()
        invariant
            i <= zones@.len(),
            zs == zone_texts(zones@),
            out@ == start + zone_lines(zs.take(i as int)),
        decreases zones@.len() - i,
    {
        let z = &zones[i];
        append_str(out, "thermagent_thermal_zone_temperature_celsius{zone=\"");
        append_escaped(out, z.name.as_str());
        append_str(out, "\"} ");
        append_str(out, z.temp_c.as_str());
        append_str(out, "\n");
        proof {
            assert(zs.take(i + 1).drop_last() =~= zs.take(i as int));
            assert(zs.take(i + 1).last() == zs[i as int]);
            assert(out@ =~= start + zone_lines(zs.take(i + 1)));
        }
        i = i + 1;
    }
    assert(zs.take(i as int) =~= zs);
}

fn append_governors(out: &mut String, gs: &GovernorMap)
    ensures
        final(out)@ == old(out)@ + governors_section(gs@),
{
    let n = gs.len();
    if n == 0 {
        assert(old(out)@ + Seq::<char>::empty() =~= old(out)@);
        return;
    }
    append_str(out, "# HELP thermagent_cpu_scaling_governor_info Current CPU cpufreq governor labels.\n");
    append_str(out, "# TYPE thermagent_cpu_scaling_governor_info gauge\n");
    let ghost start = out@;
    let ghost all = gs@;
    let mut i: usize = 0;
    assert(all.take(0) =~= Seq::<(Seq<char>, Seq<char>)>::empty());
    assert(start + governor_lines(all.take(0)) =~= start);
    while i < n
        invariant
            i <= n == all.len(),
            all == gs@,
            out@ == start + governor_lines(all.take(i as int)),
        decreases n - i,
    {
        let (cpu, governor) = gs.entry(i);
        append_str(out, "thermagent_cpu_scaling_governor_info{cpu=\"");
        append_escaped(out, cpu.as_str());
        append_str(out, "\",governor=\"");
        append_escaped(out, governor.as_str());
        append_str(out, "\"} 1\n");
        proof {
            assert(all.take(i + 1).drop_last() =~= all.take(i as int));
            assert(all.take(i + 1).last() == all[i as int]);
            assert(out@ =~= start + governor_lines(all.take(i + 1)));
        }
        i = i + 1;
    }
    assert(all.take(i as int) =~= all);
}

fn append_flag_gauge(out: &mut String, help: &str, type_line: &str, name: &str, flag: bool)
    ensures
        final(out)@ == old(out)@ + help@ + type_line@ + name@ + flag_digit(flag) + "\n"@,
{
    append_str(out, help);
    append_str(out, type_line);
    append_str(out, name);
    append_bool(out, flag, "1", "0");
    append_str(out, "\n");
}

fn append_phase(out: &mut String, phase: &Option<String>)
    ensures
        final(out)@ == old(out)@ + phase_section(opt_text(*phase)),
{
    match phase {
        Some(p) => {
            append_str(out, "# HELP thermagent_workload_phase_info Workload phase label from hint.\n");
            append_str(out, "# TYPE thermagent_workload_phase_info gauge\n");
            append_str(out, "thermagent_workload_phase_info{phase=\"");
            append_escaped(out, p.as_str());
            append_str(out, "\"} 1\n");
        },
        None => {
            assert(old(out)@ + Seq::<char>::empty() =~= old(out)@);
        },
    }
}

fn append_nvpmodel(out: &mut String, mode: Option<u8>, reason: &String)
    ensures
        final(out)@ == old(out)@ + nvpmodel_section(mode, reason@),
{
    match mode {
        Some(m) => {
            append_str(out, "# HELP thermagent_nvpmodel_mode Desired Jetson nvpmodel mode.\n");
            append_str(out, "# TYPE thermagent_nvpmodel_mode gauge\n");
            append_str(out, "thermagent_nvpmodel_mode{reason=\"");
            append_escaped(out, reason.as_str());
            append_str(out, "\"} ");
            append_decimal(out, m as u64);
            append_str(out, "\n");
        },
        None => {
            assert(old(out)@ + Seq::<char>::empty() =~= old(out)@);
        },
    }
}

fn append_governor_choice(out: &mut String, governor: &Option<String>, reason: &String)
    ensures
        final(out)@ == old(out)@ + governor_choice_section(opt_text(*governor), reason@),
{
    match governor {
        Some(g) => {
            append_str(out, "# HELP thermagent_cpu_governor_info Desired CPU governor label.\n");
            append_str(out, "# TYPE thermagent_cpu_governor_info gauge\n");
            append_str(out, "thermagent_cpu_governor_info{governor=\"");
            append_escaped(out, g.as_str());
            append_str(out, "\",reason=\"");
            append_escaped(out, reason.as_str());
            append_str(out, "\"} 1\n");
        },
        None => {
            assert(old(out)@ + Seq::<char>::empty() =~= old(out)@);
        },
    }
}

fn append_actions(out: &mut String, failed: u64)
    ensures
        final(out)@ == old(out)@ + actions_section(failed),
{
    append_str(out, "# HELP thermagent_actions_failed_total Failed action attempts.\n");
    append_str(out, "# TYPE thermagent_actions_failed_total counter\n");
    append_str(out, "thermagent_actions_failed_total ");
    append_decimal(out, failed);
    append_str(out, "\n");
}

fn append_sample(out: &mut String, m: &SharedMetrics)
    ensures
        final(out)@ == old(out)@ + sample_text(m@),
{
    let ghost start = out@;
    let mut part = String::new();
    append_info(&mut part, m);
    assert(part@ =~= info_section(m@.policy_name, m@.dry_run));
    append_timestamp(&mut part, m.ts_unix);
    push_opt(&mut part, "thermagent_temperature_celsius", "Max thermal-zone temperature.", &m.max_temp_c);
    append_zones(&mut part, &m.thermal_zones);
    push_opt(&mut part, "thermagent_cpu_freq_khz", "Average CPU frequency from cpufreq.", &m.avg_cpu_freq_khz);
    append_governors(&mut part, &m.cpu_governors);
    assert(part@ == sample_text(m@));
    append_str(out, part.as_str());
}

fn append_device(out: &mut String, m: &SharedMetrics)
    ensures
        final(out)@ == old(out)@ + device_text(m@),
{
    let mut part = String::new();
    push_opt(&mut part, "thermagent_gpu_cur_freq_hz", "GPU-like devfreq current frequency.", &m.gpu_cur_freq_hz);
    assert(part@ =~= optional_gauge(
        "thermagent_gpu_cur_freq_hz"@,
        "GPU-like devfreq current frequency."@,
        m@.gpu_cur_freq_hz,
    ));
    push_opt(&mut part, "thermagent_gpu_max_freq_hz", "GPU-like devfreq max frequency.", &m.gpu_max_freq_hz);
    push_opt(
        &mut part,
        "thermagent_power_mw_sum",
        "Sum of discovered INA3221 power input files.",
        &m.power_mw_sum,
    );
    assert(part@ == device_text(m@));
    append_str(out, part.as_str());
}

fn append_workload(out: &mut String, m: &SharedMetrics)
    ensures
        final(out)@ == old(out)@ + workload_text(m@),
{
    let mut part = String::new();
    append_flag_gauge(
        &mut part,
        "# HELP thermagent_workload_active Workload hint active flag.\n",
        "# TYPE thermagent_workload_active gauge\n",
        "thermagent_workload_active ",
        m.workload_active,
    );
    assert(part@ =~= active_section(m@.workload_active));
    push_opt(&mut part, "thermagent_workload_fps", "Workload hint FPS.", &m.workload_fps);
    let ghost mid = part@;
    let mut stale = String::new();
    append_flag_gauge(
        &mut stale,
        "# HELP thermagent_workload_stale Workload hint staleness flag.\n",
        "# TYPE thermagent_workload_stale gauge\n",
        "thermagent_workload_stale ",
        m.workload_stale,
    );
    assert(stale@ =~= stale_section(m@.workload_stale));
    append_str(&mut part, stale.as_str());
    append_phase(&mut part, &m.workload_phase);
    assert(part@ == workload_text(m@));
    append_str(out, part.as_str());
}

fn append_choice(out: &mut String, m: &SharedMetrics)
    ensures
        final(out)@ == old(out)@ + choice_text(m@),
{
    let mut part = String::new();
    append_nvpmodel(&mut part, m.nvpmodel_mode, &m.reason);
    assert(part@ =~= nvpmodel_section(m@.nvpmodel_mode, m@.reason));
    append_governor_choice(&mut part, &m.cpu_governor, &m.reason);
    append_actions(&mut part, m.actions_failed);
    assert(part@ == choice_text(m@));
    append_str(out, part.as_str());
}

/// The Prometheus text for `m`, as `prometheus_text` describes it.
pub fn render_prometheus(m: &SharedMetrics) -> (r: String)
    ensures
        r@ == prometheus_text(m@),
{
    let mut out = String::new();
    append_sample(&mut out, m);
    assert(out@ =~= sample_text(m@));
    append_device(&mut out, m);
    append_workload(&mut out, m);
    append_choice(&mut out, m);
    out
}

} // verus!

verus! {

/// The HTTP response that carries `body`: status line, content type,
/// `Content-Length` in bytes of UTF-8, a blank line, then the body.
pub open spec fn http_response_text(body: Seq<char>) -> Seq<char> {
    "HTTP/1.1 200 OK\r\nContent-Type: text/plain; version=0.0.4\r\nContent-Length: "@ + decimal(
        vstd::utf8::encode_utf8(body).len(),
    ) + "\r\n\r\n"@ + body
}

/// The HTTP response that carries the metrics text `body`.
pub fn http_response(body: &str) -> (r: String)
    requires
        vstd::utf8::encode_utf8(body@).len() <= usize::MAX,
    ensures
        r@ == http_response_text(body@),
{
    let n = body.len();
    let mut r = String::from_str(
        "HTTP/1.1 200 OK\r\nContent-Type: text/plain; version=0.0.4\r\nContent-Length: ",
    );
    append_decimal(&mut r, n as u64);
    append_str(&mut r, "\r\n\r\n");
    append_str(&mut r, body);
    r
}

/// Whether the metrics endpoint is to be served: its address is not blank.
pub fn metrics_enabled(listen: &str) -> (r: bool)
    ensures
        r == (crate::text::trim(listen@).len() > 0),
{
    let v = chars_of(listen);
    let (a, b) = crate::text::trim_bounds(&v);
    a < b
}

/// `x` occurs in `a + x + b`.
proof fn lemma_infix(a: Seq<char>, x: Seq<char>, b: Seq<char>)
    ensures
        has_infix(a + x + b, x),
{
    assert((a + x + b).subrange(a.len() as int, (a.len() + x.len()) as int) =~= x);
}

/// Whatever occurs in `x` occurs in `a + x + b`.
proof fn lemma_infix_in(a: Seq<char>, x: Seq<char>, b: Seq<char>, y: Seq<char>)
    requires
        has_infix(x, y),
    ensures
        has_infix(a + x + b, y),
{
    let i = choose|i: int| 0 <= i && i + y.len() <= x.len() && #[trigger] x.subrange(i, i + y.len()) == y;
    assert((a + x + b).subrange(a.len() + i, a.len() + i + y.len()) =~= x.subrange(i, i + y.len()));
}

/// The three lines of gauge `name` with value `v`, as one text: `block` is the
/// help line, the type line and the name with its space.
proof fn lemma_gauge_block(name: Seq<char>, help: Seq<char>, v: Seq<char>, block: Seq<char>)
    requires
        block == "# HELP "@ + name + " "@ + help + "\n"@ + "# TYPE "@ + name + " gauge\n"@ + name + " "@,
    ensures
        gauge_lines(name, help, v) == block + v + "\n"@,
{
    assert(gauge_lines(name, help, v) =~= block + v + "\n"@);
}

proof fn lemma_pieces()
    ensures
        "# HELP "@ == seq!['#', ' ', 'H', 'E', 'L', 'P', ' '],
        " "@ == seq![' '],
        "\n"@ == seq!['\n'],
        "# TYPE "@ == seq!['#', ' ', 'T', 'Y', 'P', 'E', ' '],
        " gauge\n"@ == seq![' ', 'g', 'a', 'u', 'g', 'e', '\n'],
{
    reveal_strlit("# HELP ");
    reveal_strlit(" ");
    reveal_strlit("\n");
    reveal_strlit("# TYPE ");
    reveal_strlit(" gauge\n");
}

proof fn max_temp_c_gauge_is_shown(m: MetricsModel)
    ensures
        m.max_temp_c matches Some(v) ==> has_infix(
            prometheus_text(m),
            "# HELP thermagent_temperature_celsius Max thermal-zone temperature.\n# TYPE thermagent_temperature_celsius gauge\nthermagent_temperature_celsius "@ + v + "\n"@,
        ),
{
    if let Some(v) = m.max_temp_c {
        lemma_pieces();
        reveal_strlit("thermagent_temperature_celsius");
        reveal_strlit("Max thermal-zone temperature.");
        reveal_strlit("# HELP thermagent_temperature_celsius Max thermal-zone temperature.\n# TYPE thermagent_temperature_celsius gauge\nthermagent_temperature_celsius ");
        assert("# HELP thermagent_temperature_celsius Max thermal-zone temperature.\n# TYPE thermagent_temperature_celsius gauge\nthermagent_temperature_celsius "@ =~= "# HELP "@ + "thermagent_temperature_celsius"@ + " "@ + "Max thermal-zone temperature."@ + "\n"@ + "# TYPE "@ + "thermagent_temperature_celsius"@ + " gauge\n"@ + "thermagent_temperature_celsius"@ + " "@);
        lemma_gauge_block("thermagent_temperature_celsius"@, "Max thermal-zone temperature."@, v, "# HELP thermagent_temperature_celsius Max thermal-zone temperature.\n# TYPE thermagent_temperature_celsius gauge\nthermagent_temperature_celsius "@);
        let g = optional_gauge("thermagent_temperature_celsius"@, "Max thermal-zone temperature."@, m.max_temp_c);
        let pre = info_section(m.policy_name, m.dry_run) + timestamp_section(m.ts_unix);
        let post = zones_section(m.thermal_zones) + optional_gauge("thermagent_cpu_freq_khz"@, "Average CPU frequency from cpufreq."@, m.avg_cpu_freq_khz) + governors_section(m.cpu_governors);
        assert(sample_text(m) =~= pre + g + post);
        lemma_infix(pre, g, post);
        assert(prometheus_text(m) =~= Seq::<char>::empty() + sample_text(m) + (device_text(m) + workload_text(m) + choice_text(m)));
        lemma_infix_in(Seq::<char>::empty(), sample_text(m), device_text(m) + workload_text(m) + choice_text(m), g);
    }
}

proof fn avg_cpu_freq_khz_gauge_is_shown(m: MetricsModel)
    ensures
        m.avg_cpu_freq_khz matches Some(v) ==> has_infix(
            prometheus_text(m),
            "# HELP thermagent_cpu_freq_khz Average CPU frequency from cpufreq.\n# TYPE thermagent_cpu_freq_khz gauge\nthermagent_cpu_freq_khz "@ + v + "\n"@,
        ),
{
    if let Some(v) = m.avg_cpu_freq_khz {
        lemma_pieces();
        reveal_strlit("thermagent_cpu_freq_khz");
        reveal_strlit("Average CPU frequency from cpufreq.");
        reveal_strlit("# HELP thermagent_cpu_freq_khz Average CPU frequency from cpufreq.\n# TYPE thermagent_cpu_freq_khz gauge\nthermagent_cpu_freq_khz ");
        assert("# HELP thermagent_cpu_freq_khz Average CPU frequency from cpufreq.\n# TYPE thermagent_cpu_freq_khz gauge\nthermagent_cpu_freq_khz "@ =~= "# HELP "@ + "thermagent_cpu_freq_khz"@ + " "@ + "Average CPU frequency from cpufreq."@ + "\n"@ + "# TYPE "@ + "thermagent_cpu_freq_khz"@ + " gauge\n"@ + "thermagent_cpu_freq_khz"@ + " "@);
        lemma_gauge_block("thermagent_cpu_freq_khz"@, "Average CPU frequency from cpufreq."@, v, "# HELP thermagent_cpu_freq_khz Average CPU frequency from cpufreq.\n# TYPE thermagent_cpu_freq_khz gauge\nthermagent_cpu_freq_khz "@);
        let g = optional_gauge("thermagent_cpu_freq_khz"@, "Average CPU frequency from cpufreq."@, m.avg_cpu_freq_khz);
        let pre = info_section(m.policy_name, m.dry_run) + timestamp_section(m.ts_unix) + optional_gauge("thermagent_temperature_celsius"@, "Max thermal-zone temperature."@, m.max_temp_c) + zones_section(m.thermal_zones);
        let post = governors_section(m.cpu_governors);
        assert(sample_text(m) =~= pre + g + post);
        lemma_infix(pre, g, post);
        assert(prometheus_text(m) =~= Seq::<char>::empty() + sample_text(m) + (device_text(m) + workload_text(m) + choice_text(m)));
        lemma_infix_in(Seq::<char>::empty(), sample_text(m), device_text(m) + workload_text(m) + choice_text(m), g);
    }
}

proof fn gpu_cur_freq_hz_gauge_is_shown(m: MetricsModel)
    ensures
        m.gpu_cur_freq_hz matches Some(v) ==> has_infix(
            prometheus_text(m),
            "# HELP thermagent_gpu_cur_freq_hz GPU-like devfreq current frequency.\n# TYPE thermagent_gpu_cur_freq_hz gauge\nthermagent_gpu_cur_freq_hz "@ + v + "\n"@,
        ),
{
    if let Some(v) = m.gpu_cur_freq_hz {
        lemma_pieces();
        reveal_strlit("thermagent_gpu_cur_freq_hz");
        reveal_strlit("GPU-like devfreq current frequency.");
        reveal_strlit("# HELP thermagent_gpu_cur_freq_hz GPU-like devfreq current frequency.\n# TYPE thermagent_gpu_cur_freq_hz gauge\nthermagent_gpu_cur_freq_hz ");
        assert("# HELP thermagent_gpu_cur_freq_hz GPU-like devfreq current frequency.\n# TYPE thermagent_gpu_cur_freq_hz gauge\nthermagent_gpu_cur_freq_hz "@ =~= "# HELP "@ + "thermagent_gpu_cur_freq_hz"@ + " "@ + "GPU-like devfreq current frequency."@ + "\n"@ + "# TYPE "@ + "thermagent_gpu_cur_freq_hz"@ + " gauge\n"@ + "thermagent_gpu_cur_freq_hz"@ + " "@);
        lemma_gauge_block("thermagent_gpu_cur_freq_hz"@, "GPU-like devfreq current frequency."@, v, "# HELP thermagent_gpu_cur_freq_hz GPU-like devfreq current frequency.\n# TYPE thermagent_gpu_cur_freq_hz gauge\nthermagent_gpu_cur_freq_hz "@);
        let g = optional_gauge("thermagent_gpu_cur_freq_hz"@, "GPU-like devfreq current frequency."@, m.gpu_cur_freq_hz);
        let pre = Seq::<char>::empty();
        let post = optional_gauge("thermagent_gpu_max_freq_hz"@, "GPU-like devfreq max frequency."@, m.gpu_max_freq_hz) + optional_gauge("thermagent_power_mw_sum"@, "Sum of discovered INA3221 power input files."@, m.power_mw_sum);
        assert(device_text(m) =~= pre + g + post);
        lemma_infix(pre, g, post);
        assert(prometheus_text(m) =~= sample_text(m) + device_text(m) + (workload_text(m) + choice_text(m)));
        lemma_infix_in(sample_text(m), device_text(m), workload_text(m) + choice_text(m), g);
    }
}

proof fn gpu_max_freq_hz_gauge_is_shown(m: MetricsModel)
    ensures
        m.gpu_max_freq_hz matches Some(v) ==> has_infix(
            prometheus_text(m),
            "# HELP thermagent_gpu_max_freq_hz GPU-like devfreq max frequency.\n# TYPE thermagent_gpu_max_freq_hz gauge\nthermagent_gpu_max_freq_hz "@ + v + "\n"@,
        ),
{
    if let Some(v) = m.gpu_max_freq_hz {
        lemma_pieces();
        reveal_strlit("thermagent_gpu_max_freq_hz");
        reveal_strlit("GPU-like devfreq max frequency.");
        reveal_strlit("# HELP thermagent_gpu_max_freq_hz GPU-like devfreq max frequency.\n# TYPE thermagent_gpu_max_freq_hz gauge\nthermagent_gpu_max_freq_hz ");
        assert("# HELP thermagent_gpu_max_freq_hz GPU-like devfreq max frequency.\n# TYPE thermagent_gpu_max_freq_hz gauge\nthermagent_gpu_max_freq_hz "@ =~= "# HELP "@ + "thermagent_gpu_max_freq_hz"@ + " "@ + "GPU-like devfreq max frequency."@ + "\n"@ + "# TYPE "@ + "thermagent_gpu_max_freq_hz"@ + " gauge\n"@ + "thermagent_gpu_max_freq_hz"@ + " "@);
        lemma_gauge_block("thermagent_gpu_max_freq_hz"@, "GPU-like devfreq max frequency."@, v, "# HELP thermagent_gpu_max_freq_hz GPU-like devfreq max frequency.\n# TYPE thermagent_gpu_max_freq_hz gauge\nthermagent_gpu_max_freq_hz "@);
        let g = optional_gauge("thermagent_gpu_max_freq_hz"@, "GPU-like devfreq max frequency."@, m.gpu_max_freq_hz);
        let pre = optional_gauge("thermagent_gpu_cur_freq_hz"@, "GPU-like devfreq current frequency."@, m.gpu_cur_freq_hz);
        let post = optional_gauge("thermagent_power_mw_sum"@, "Sum of discovered INA3221 power input files."@, m.power_mw_sum);
        assert(device_text(m) =~= pre + g + post);
        lemma_infix(pre, g, post);
        assert(prometheus_text(m) =~= sample_text(m) + device_text(m) + (workload_text(m) + choice_text(m)));
        lemma_infix_in(sample_text(m), device_text(m), workload_text(m) + choice_text(m), g);
    }
}

proof fn power_mw_sum_gauge_is_shown(m: MetricsModel)
    ensures
        m.power_mw_sum matches Some(v) ==> has_infix(
            prometheus_text(m),
            "# HELP thermagent_power_mw_sum Sum of discovered INA3221 power input files.\n# TYPE thermagent_power_mw_sum gauge\nthermagent_power_mw_sum "@ + v + "\n"@,
        ),
{
    if let Some(v) = m.power_mw_sum {
        lemma_pieces();
        reveal_strlit("thermagent_power_mw_sum");
        reveal_strlit("Sum of discovered INA3221 power input files.");
        reveal_strlit("# HELP thermagent_power_mw_sum Sum of discovered INA3221 power input files.\n# TYPE thermagent_power_mw_sum gauge\nthermagent_power_mw_sum ");
        assert("# HELP thermagent_power_mw_sum Sum of discovered INA3221 power input files.\n# TYPE thermagent_power_mw_sum gauge\nthermagent_power_mw_sum "@ =~= "# HELP "@ + "thermagent_power_mw_sum"@ + " "@ + "Sum of discovered INA3221 power input files."@ + "\n"@ + "# TYPE "@ + "thermagent_power_mw_sum"@ + " gauge\n"@ + "thermagent_power_mw_sum"@ + " "@);
        lemma_gauge_block("thermagent_power_mw_sum"@, "Sum of discovered INA3221 power input files."@, v, "# HELP thermagent_power_mw_sum Sum of discovered INA3221 power input files.\n# TYPE thermagent_power_mw_sum gauge\nthermagent_power_mw_sum "@);
        let g = optional_gauge("thermagent_power_mw_sum"@, "Sum of discovered INA3221 power input files."@, m.power_mw_sum);
        let pre = optional_gauge("thermagent_gpu_cur_freq_hz"@, "GPU-like devfreq current frequency."@, m.gpu_cur_freq_hz) + optional_gauge("thermagent_gpu_max_freq_hz"@, "GPU-like devfreq max frequency."@, m.gpu_max_freq_hz);
        let post = Seq::<char>::empty();
        assert(device_text(m) =~= pre + g + post);
        lemma_infix(pre, g, post);
        assert(prometheus_text(m) =~= sample_text(m) + device_text(m) + (workload_text(m) + choice_text(m)));
        lemma_infix_in(sample_text(m), device_text(m), workload_text(m) + choice_text(m), g);
    }
}

proof fn workload_fps_gauge_is_shown(m: MetricsModel)
    ensures
        m.workload_fps matches Some(v) ==> has_infix(
            prometheus_text(m),
            "# HELP thermagent_workload_fps Workload hint FPS.\n# TYPE thermagent_workload_fps gauge\nthermagent_workload_fps "@ + v + "\n"@,
        ),
{
    if let Some(v) = m.workload_fps {
        lemma_pieces();
        reveal_strlit("thermagent_workload_fps");
        reveal_strlit("Workload hint FPS.");
        reveal_strlit("# HELP thermagent_workload_fps Workload hint FPS.\n# TYPE thermagent_workload_fps gauge\nthermagent_workload_fps ");
        assert("# HELP thermagent_workload_fps Workload hint FPS.\n# TYPE thermagent_workload_fps gauge\nthermagent_workload_fps "@ =~= "# HELP "@ + "thermagent_workload_fps"@ + " "@ + "Workload hint FPS."@ + "\n"@ + "# TYPE "@ + "thermagent_workload_fps"@ + " gauge\n"@ + "thermagent_workload_fps"@ + " "@);
        lemma_gauge_block("thermagent_workload_fps"@, "Workload hint FPS."@, v, "# HELP thermagent_workload_fps Workload hint FPS.\n# TYPE thermagent_workload_fps gauge\nthermagent_workload_fps "@);
        let g = optional_gauge("thermagent_workload_fps"@, "Workload hint FPS."@, m.workload_fps);
        let pre = active_section(m.workload_active);
        let post = stale_section(m.workload_stale) + phase_section(m.workload_phase);
        assert(workload_text(m) =~= pre + g + post);
        lemma_infix(pre, g, post);
        assert(prometheus_text(m) =~= sample_text(m) + device_text(m) + workload_text(m) + (choice_text(m)));
        lemma_infix_in(sample_text(m) + device_text(m), workload_text(m), choice_text(m), g);
    }
}

/// Each optional gauge is shown whenever it has a value: the rendered text
/// holds its help line, its type line and the line with the value, for the
/// temperature, the CPU frequency, the GPU frequencies, the power reading
/// and the frame rate.
pub proof fn optional_gauges_are_shown(m: MetricsModel)
    ensures
        m.max_temp_c matches Some(v) ==> has_infix(
            prometheus_text(m),
            "# HELP thermagent_temperature_celsius Max thermal-zone temperature.\n# TYPE thermagent_temperature_celsius gauge\nthermagent_temperature_celsius "@ + v + "\n"@,
        ),
        m.avg_cpu_freq_khz matches Some(v) ==> has_infix(
            prometheus_text(m),
            "# HELP thermagent_cpu_freq_khz Average CPU frequency from cpufreq.\n# TYPE thermagent_cpu_freq_khz gauge\nthermagent_cpu_freq_khz "@ + v + "\n"@,
        ),
        m.gpu_cur_freq_hz matches Some(v) ==> has_infix(
            prometheus_text(m),
            "# HELP thermagent_gpu_cur_freq_hz GPU-like devfreq current frequency.\n# TYPE thermagent_gpu_cur_freq_hz gauge\nthermagent_gpu_cur_freq_hz "@ + v + "\n"@,
        ),
        m.gpu_max_freq_hz matches Some(v) ==> has_infix(
            prometheus_text(m),
            "# HELP thermagent_gpu_max_freq_hz GPU-like devfreq max frequency.\n# TYPE thermagent_gpu_max_freq_hz gauge\nthermagent_gpu_max_freq_hz "@ + v + "\n"@,
        ),
        m.power_mw_sum matches Some(v) ==> has_infix(
            prometheus_text(m),
            "# HELP thermagent_power_mw_sum Sum of discovered INA3221 power input files.\n# TYPE thermagent_power_mw_sum gauge\nthermagent_power_mw_sum "@ + v + "\n"@,
        ),
        m.workload_fps matches Some(v) ==> has_infix(
            prometheus_text(m),
            "# HELP thermagent_workload_fps Workload hint FPS.\n# TYPE thermagent_workload_fps gauge\nthermagent_workload_fps "@ + v + "\n"@,
        ),
{
    max_temp_c_gauge_is_shown(m);
    avg_cpu_freq_khz_gauge_is_shown(m);
    gpu_cur_freq_hz_gauge_is_shown(m);
    gpu_max_freq_hz_gauge_is_shown(m);
    power_mw_sum_gauge_is_shown(m);
    workload_fps_gauge_is_shown(m);
}

proof fn info_line_is_shown(m: MetricsModel)
    ensures
        has_infix(prometheus_text(m), "thermagent_info{policy=\""@ + escaped(m.policy_name) + "\",dry_run=\""@ + (if m.dry_run { "true"@ } else { "false"@ }) + "\"} 1\n"@),
{
    let line = "thermagent_info{policy=\""@ + escaped(m.policy_name) + "\",dry_run=\""@ + (if m.dry_run { "true"@ } else { "false"@ }) + "\"} 1\n"@;
    let x = info_section(m.policy_name, m.dry_run);
    assert(x =~= "# HELP thermagent_info Static daemon info.\n"@ + "# TYPE thermagent_info gauge\n"@ + line + Seq::<char>::empty());
    lemma_infix("# HELP thermagent_info Static daemon info.\n"@ + "# TYPE thermagent_info gauge\n"@, line, Seq::<char>::empty());
    let pre = Seq::<char>::empty();
    let post = timestamp_section(m.ts_unix) + optional_gauge("thermagent_temperature_celsius"@, "Max thermal-zone temperature."@, m.max_temp_c) + zones_section(m.thermal_zones) + optional_gauge("thermagent_cpu_freq_khz"@, "Average CPU frequency from cpufreq."@, m.avg_cpu_freq_khz) + governors_section(m.cpu_governors);
    assert(sample_text(m) =~= pre + x + post);
    lemma_infix_in(pre, x, post, line);
    assert(prometheus_text(m) =~= Seq::<char>::empty() + sample_text(m) + (device_text(m) + workload_text(m) + choice_text(m)));
    lemma_infix_in(Seq::<char>::empty(), sample_text(m), device_text(m) + workload_text(m) + choice_text(m), line);
}

proof fn timestamp_line_is_shown(m: MetricsModel)
    ensures
        has_infix(prometheus_text(m), "thermagent_timestamp_seconds "@ + decimal(m.ts_unix as nat) + "\n"@),
{
    let line = "thermagent_timestamp_seconds "@ + decimal(m.ts_unix as nat) + "\n"@;
    let x = timestamp_section(m.ts_unix);
    assert(x =~= "# HELP thermagent_timestamp_seconds Last telemetry sample timestamp.\n"@ + "# TYPE thermagent_timestamp_seconds gauge\n"@ + line + Seq::<char>::empty());
    lemma_infix("# HELP thermagent_timestamp_seconds Last telemetry sample timestamp.\n"@ + "# TYPE thermagent_timestamp_seconds gauge\n"@, line, Seq::<char>::empty());
    let pre = info_section(m.policy_name, m.dry_run);
    let post = optional_gauge("thermagent_temperature_celsius"@, "Max thermal-zone temperature."@, m.max_temp_c) + zones_section(m.thermal_zones) + optional_gauge("thermagent_cpu_freq_khz"@, "Average CPU frequency from cpufreq."@, m.avg_cpu_freq_khz) + governors_section(m.cpu_governors);
    assert(sample_text(m) =~= pre + x + post);
    lemma_infix_in(pre, x, post, line);
    assert(prometheus_text(m) =~= Seq::<char>::empty() + sample_text(m) + (device_text(m) + workload_text(m) + choice_text(m)));
    lemma_infix_in(Seq::<char>::empty(), sample_text(m), device_text(m) + workload_text(m) + choice_text(m), line);
}

proof fn active_line_is_shown(m: MetricsModel)
    ensures
        has_infix(prometheus_text(m), "thermagent_workload_active "@ + (if m.workload_active { "1"@ } else { "0"@ }) + "\n"@),
{
    let line = "thermagent_workload_active "@ + (if m.workload_active { "1"@ } else { "0"@ }) + "\n"@;
    let x = active_section(m.workload_active);
    assert(x =~= "# HELP thermagent_workload_active Workload hint active flag.\n"@ + "# TYPE thermagent_workload_active gauge\n"@ + line + Seq::<char>::empty());
    lemma_infix("# HELP thermagent_workload_active Workload hint active flag.\n"@ + "# TYPE thermagent_workload_active gauge\n"@, line, Seq::<char>::empty());
    let pre = Seq::<char>::empty();
    let post = optional_gauge("thermagent_workload_fps"@, "Workload hint FPS."@, m.workload_fps) + stale_section(m.workload_stale) + phase_section(m.workload_phase);
    assert(workload_text(m) =~= pre + x + post);
    lemma_infix_in(pre, x, post, line);
    assert(prometheus_text(m) =~= sample_text(m) + device_text(m) + workload_text(m) + (choice_text(m)));
    lemma_infix_in(sample_text(m) + device_text(m), workload_text(m), choice_text(m), line);
}

proof fn stale_line_is_shown(m: MetricsModel)
    ensures
        has_infix(prometheus_text(m), "thermagent_workload_stale "@ + (if m.workload_stale { "1"@ } else { "0"@ }) + "\n"@),
{
    let line = "thermagent_workload_stale "@ + (if m.workload_stale { "1"@ } else { "0"@ }) + "\n"@;
    let x = stale_section(m.workload_stale);
    assert(x =~= "# HELP thermagent_workload_stale Workload hint staleness flag.\n"@ + "# TYPE thermagent_workload_stale gauge\n"@ + line + Seq::<char>::empty());
    lemma_infix("# HELP thermagent_workload_stale Workload hint staleness flag.\n"@ + "# TYPE thermagent_workload_stale gauge\n"@, line, Seq::<char>::empty());
    let pre = active_section(m.workload_active) + optional_gauge("thermagent_workload_fps"@, "Workload hint FPS."@, m.workload_fps);
    let post = phase_section(m.workload_phase);
    assert(workload_text(m) =~= pre + x + post);
    lemma_infix_in(pre, x, post, line);
    assert(prometheus_text(m) =~= sample_text(m) + device_text(m) + workload_text(m) + (choice_text(m)));
    lemma_infix_in(sample_text(m) + device_text(m), workload_text(m), choice_text(m), line);
}

proof fn actions_line_is_shown(m: MetricsModel)
    ensures
        has_infix(prometheus_text(m), "thermagent_actions_failed_total "@ + decimal(m.actions_failed as nat) + "\n"@),
{
    let line = "thermagent_actions_failed_total "@ + decimal(m.actions_failed as nat) + "\n"@;
    let x = actions_section(m.actions_failed);
    assert(x =~= "# HELP thermagent_actions_failed_total Failed action attempts.\n"@ + "# TYPE thermagent_actions_failed_total counter\n"@ + line + Seq::<char>::empty());
    lemma_infix("# HELP thermagent_actions_failed_total Failed action attempts.\n"@ + "# TYPE thermagent_actions_failed_total counter\n"@, line, Seq::<char>::empty());
    let pre = nvpmodel_section(m.nvpmodel_mode, m.reason) + governor_choice_section(m.cpu_governor, m.reason);
    let post = Seq::<char>::empty();
    assert(choice_text(m) =~= pre + x + post);
    lemma_infix_in(pre, x, post, line);
    assert(prometheus_text(m) =~= sample_text(m) + device_text(m) + workload_text(m) + choice_text(m) + (Seq::<char>::empty()));
    lemma_infix_in(sample_text(m) + device_text(m) + workload_text(m), choice_text(m), Seq::<char>::empty(), line);
}

proof fn phase_line_is_shown(m: MetricsModel)
    ensures
        m.workload_phase matches Some(ph) ==> has_infix(prometheus_text(m), "thermagent_workload_phase_info{phase=\""@ + escaped(ph) + "\"} 1\n"@),
{
    if let Some(ph) = m.workload_phase {
        let line = "thermagent_workload_phase_info{phase=\""@ + escaped(ph) + "\"} 1\n"@;
        let x = phase_section(m.workload_phase);
        assert(x =~= "# HELP thermagent_workload_phase_info Workload phase label from hint.\n"@ + "# TYPE thermagent_workload_phase_info gauge\n"@ + line + Seq::<char>::empty());
        lemma_infix("# HELP thermagent_workload_phase_info Workload phase label from hint.\n"@ + "# TYPE thermagent_workload_phase_info gauge\n"@, line, Seq::<char>::empty());
        let pre = active_section(m.workload_active) + optional_gauge("thermagent_workload_fps"@, "Workload hint FPS."@, m.workload_fps) + stale_section(m.workload_stale);
        let post = Seq::<char>::empty();
        assert(workload_text(m) =~= pre + x + post);
        lemma_infix_in(pre, x, post, line);
        assert(prometheus_text(m) =~= sample_text(m) + device_text(m) + workload_text(m) + (choice_text(m)));
        lemma_infix_in(sample_text(m) + device_text(m), workload_text(m), choice_text(m), line);
    }
}

proof fn nvpmodel_line_is_shown(m: MetricsModel)
    ensures
        m.nvpmodel_mode matches Some(mode) ==> has_infix(prometheus_text(m), "thermagent_nvpmodel_mode{reason=\""@ + escaped(m.reason) + "\"} "@ + decimal(mode as nat) + "\n"@),
{
    if let Some(mode) = m.nvpmodel_mode {
        let line = "thermagent_nvpmodel_mode{reason=\""@ + escaped(m.reason) + "\"} "@ + decimal(mode as nat) + "\n"@;
        let x = nvpmodel_section(m.nvpmodel_mode, m.reason);
        assert(x =~= "# HELP thermagent_nvpmodel_mode Desired Jetson nvpmodel mode.\n"@ + "# TYPE thermagent_nvpmodel_mode gauge\n"@ + line + Seq::<char>::empty());
        lemma_infix("# HELP thermagent_nvpmodel_mode Desired Jetson nvpmodel mode.\n"@ + "# TYPE thermagent_nvpmodel_mode gauge\n"@, line, Seq::<char>::empty());
        let pre = Seq::<char>::empty();
        let post = governor_choice_section(m.cpu_governor, m.reason) + actions_section(m.actions_failed);
        assert(choice_text(m) =~= pre + x + post);
        lemma_infix_in(pre, x, post, line);
        assert(prometheus_text(m) =~= sample_text(m) + device_text(m) + workload_text(m) + choice_text(m) + (Seq::<char>::empty()));
        lemma_infix_in(sample_text(m) + device_text(m) + workload_text(m), choice_text(m), Seq::<char>::empty(), line);
    }
}

proof fn governor_choice_line_is_shown(m: MetricsModel)
    ensures
        m.cpu_governor matches Some(g) ==> has_infix(prometheus_text(m), "thermagent_cpu_governor_info{governor=\""@ + escaped(g) + "\",reason=\""@ + escaped(m.reason) + "\"} 1\n"@),
{
    if let Some(g) = m.cpu_governor {
        let line = "thermagent_cpu_governor_info{governor=\""@ + escaped(g) + "\",reason=\""@ + escaped(m.reason) + "\"} 1\n"@;
        let x = governor_choice_section(m.cpu_governor, m.reason);
        assert(x =~= "# HELP thermagent_cpu_governor_info Desired CPU governor label.\n"@ + "# TYPE thermagent_cpu_governor_info gauge\n"@ + line + Seq::<char>::empty());
        lemma_infix("# HELP thermagent_cpu_governor_info Desired CPU governor label.\n"@ + "# TYPE thermagent_cpu_governor_info gauge\n"@, line, Seq::<char>::empty());
        let pre = nvpmodel_section(m.nvpmodel_mode, m.reason);
        let post = actions_section(m.actions_failed);
        assert(choice_text(m) =~= pre + x + post);
        lemma_infix_in(pre, x, post, line);
        assert(prometheus_text(m) =~= sample_text(m) + device_text(m) + workload_text(m) + choice_text(m) + (Seq::<char>::empty()));
        lemma_infix_in(sample_text(m) + device_text(m) + workload_text(m), choice_text(m), Seq::<char>::empty(), line);
    }
}

/// Every fixed line and every line of the choice is shown: the daemon info
/// with the escaped policy name and the dry-run flag, the timestamp, the
/// workload flags, the count of failed actions, and, when there is one, the
/// workload phase, the `nvpmodel` mode and the CPU governor chosen, each with
/// the escaped reason.
pub proof fn value_lines_are_shown(m: MetricsModel)
    ensures
        has_infix(prometheus_text(m), "thermagent_info{policy=\""@ + escaped(m.policy_name) + "\",dry_run=\""@ + (if m.dry_run { "true"@ } else { "false"@ }) + "\"} 1\n"@),
        has_infix(prometheus_text(m), "thermagent_timestamp_seconds "@ + decimal(m.ts_unix as nat) + "\n"@),
        has_infix(prometheus_text(m), "thermagent_workload_active "@ + (if m.workload_active { "1"@ } else { "0"@ }) + "\n"@),
        has_infix(prometheus_text(m), "thermagent_workload_stale "@ + (if m.workload_stale { "1"@ } else { "0"@ }) + "\n"@),
        has_infix(prometheus_text(m), "thermagent_actions_failed_total "@ + decimal(m.actions_failed as nat) + "\n"@),
        m.workload_phase matches Some(ph) ==> has_infix(prometheus_text(m), "thermagent_workload_phase_info{phase=\""@ + escaped(ph) + "\"} 1\n"@),
        m.nvpmodel_mode matches Some(mode) ==> has_infix(prometheus_text(m), "thermagent_nvpmodel_mode{reason=\""@ + escaped(m.reason) + "\"} "@ + decimal(mode as nat) + "\n"@),
        m.cpu_governor matches Some(g) ==> has_infix(prometheus_text(m), "thermagent_cpu_governor_info{governor=\""@ + escaped(g) + "\",reason=\""@ + escaped(m.reason) + "\"} 1\n"@),
{
    info_line_is_shown(m);
    timestamp_line_is_shown(m);
    active_line_is_shown(m);
    stale_line_is_shown(m);
    actions_line_is_shown(m);
    phase_line_is_shown(m);
    nvpmodel_line_is_shown(m);
    governor_choice_line_is_shown(m);
}

proof fn lemma_zone_lines_hold(zs: Seq<(Seq<char>, Seq<char>)>, i: int)
    requires
        0 <= i < zs.len(),
    ensures
        has_infix(zone_lines(zs), zone_line(zs[i])),
    decreases zs.len(),
{
    let e = Seq::<char>::empty();
    if i == zs.len() - 1 {
        assert(zone_lines(zs) =~= zone_lines(zs.drop_last()) + zone_line(zs[i]) + e);
        lemma_infix(zone_lines(zs.drop_last()), zone_line(zs[i]), e);
    } else {
        lemma_zone_lines_hold(zs.drop_last(), i);
        assert(zs.drop_last()[i] == zs[i]);
        assert(zone_lines(zs) =~= e + zone_lines(zs.drop_last()) + zone_line(zs.last()));
        lemma_infix_in(e, zone_lines(zs.drop_last()), zone_line(zs.last()), zone_line(zs[i]));
    }
}

proof fn lemma_governor_lines_hold(gs: Seq<(Seq<char>, Seq<char>)>, i: int)
    requires
        0 <= i < gs.len(),
    ensures
        has_infix(governor_lines(gs), governor_line(gs[i])),
    decreases gs.len(),
{
    let e = Seq::<char>::empty();
    if i == gs.len() - 1 {
        assert(governor_lines(gs) =~= governor_lines(gs.drop_last()) + governor_line(gs[i]) + e);
        lemma_infix(governor_lines(gs.drop_last()), governor_line(gs[i]), e);
    } else {
        lemma_governor_lines_hold(gs.drop_last(), i);
        assert(gs.drop_last()[i] == gs[i]);
        assert(governor_lines(gs) =~= e + governor_lines(gs.drop_last()) + governor_line(gs.last()));
        lemma_infix_in(e, governor_lines(gs.drop_last()), governor_line(gs.last()), governor_line(gs[i]));
    }
}

proof fn zone_line_is_shown(m: MetricsModel, i: int)
    requires
        0 <= i < m.thermal_zones.len(),
    ensures
        has_infix(prometheus_text(m), zone_line(m.thermal_zones[i])),
{
    let zs = m.thermal_zones;
    let e = Seq::<char>::empty();
    lemma_zone_lines_hold(zs, i);
    let h = "# HELP thermagent_thermal_zone_temperature_celsius Thermal-zone temperature by zone.\n"@
        + "# TYPE thermagent_thermal_zone_temperature_celsius gauge\n"@;
    assert(zones_section(zs) =~= h + zone_lines(zs) + e);
    lemma_infix_in(h, zone_lines(zs), e, zone_line(zs[i]));
    let a = info_section(m.policy_name, m.dry_run) + timestamp_section(m.ts_unix) + optional_gauge(
        "thermagent_temperature_celsius"@,
        "Max thermal-zone temperature."@,
        m.max_temp_c,
    );
    let b = optional_gauge(
        "thermagent_cpu_freq_khz"@,
        "Average CPU frequency from cpufreq."@,
        m.avg_cpu_freq_khz,
    ) + governors_section(m.cpu_governors);
    assert(sample_text(m) =~= a + zones_section(zs) + b);
    lemma_infix_in(a, zones_section(zs), b, zone_line(zs[i]));
    let rest = device_text(m) + workload_text(m) + choice_text(m);
    assert(prometheus_text(m) =~= e + sample_text(m) + rest);
    lemma_infix_in(e, sample_text(m), rest, zone_line(zs[i]));
}

proof fn governor_line_is_shown(m: MetricsModel, i: int)
    requires
        0 <= i < m.cpu_governors.len(),
    ensures
        has_infix(prometheus_text(m), governor_line(m.cpu_governors[i])),
{
    let gs = m.cpu_governors;
    let e = Seq::<char>::empty();
    lemma_governor_lines_hold(gs, i);
    let h = "# HELP thermagent_cpu_scaling_governor_info Current CPU cpufreq governor labels.\n"@
        + "# TYPE thermagent_cpu_scaling_governor_info gauge\n"@;
    assert(governors_section(gs) =~= h + governor_lines(gs) + e);
    lemma_infix_in(h, governor_lines(gs), e, governor_line(gs[i]));
    let a = info_section(m.policy_name, m.dry_run) + timestamp_section(m.ts_unix) + optional_gauge(
        "thermagent_temperature_celsius"@,
        "Max thermal-zone temperature."@,
        m.max_temp_c,
    ) + zones_section(m.thermal_zones) + optional_gauge(
        "thermagent_cpu_freq_khz"@,
        "Average CPU frequency from cpufreq."@,
        m.avg_cpu_freq_khz,
    );
    assert(sample_text(m) =~= a + governors_section(gs) + e);
    lemma_infix_in(a, governors_section(gs), e, governor_line(gs[i]));
    let rest = device_text(m) + workload_text(m) + choice_text(m);
    assert(prometheus_text(m) =~= e + sample_text(m) + rest);
    lemma_infix_in(e, sample_text(m), rest, governor_line(gs[i]));
}

/// Every thermal zone and every CPU governor is shown: for each zone the
/// rendered text holds a line with its escaped name and its temperature, and
/// for each CPU a line with its escaped name and escaped governor.
pub proof fn zones_and_governors_are_shown(m: MetricsModel)
    ensures
        forall|i: int|
            0 <= i < m.thermal_zones.len() ==> has_infix(
                prometheus_text(m),
                "thermagent_thermal_zone_temperature_celsius{zone=\""@ + escaped(
                    #[trigger] m.thermal_zones[i].0,
                ) + "\"} "@ + m.thermal_zones[i].1 + "\n"@,
            ),
        forall|i: int|
            0 <= i < m.cpu_governors.len() ==> has_infix(
                prometheus_text(m),
                "thermagent_cpu_scaling_governor_info{cpu=\""@ + escaped(#[trigger] m.cpu_governors[i].0)
                    + "\",governor=\""@ + escaped(m.cpu_governors[i].1) + "\"} 1\n"@,
            ),
{
    assert forall|i: int| 0 <= i < m.thermal_zones.len() implies has_infix(
        prometheus_text(m),
        "thermagent_thermal_zone_temperature_celsius{zone=\""@ + escaped(#[trigger] m.thermal_zones[i].0)
            + "\"} "@ + m.thermal_zones[i].1 + "\n"@,
    ) by {
        zone_line_is_shown(m, i);
    }
    assert forall|i: int| 0 <= i < m.cpu_governors.len() implies has_infix(
        prometheus_text(m),
        "thermagent_cpu_scaling_governor_info{cpu=\""@ + escaped(#[trigger] m.cpu_governors[i].0)
            + "\",governor=\""@ + escaped(m.cpu_governors[i].1) + "\"} 1\n"@,
    ) by {
        governor_line_is_shown(m, i);
    }
}

} // verus!
