use thermagentd::actuation::{
    governor_file_text, governor_result, nvpmodel_arguments, ActuatorState, ApplyStep, DECISION_HOLD_S,
};
use thermagentd::args::{apply_overrides, help_text, parse_args, ArgsOutcome, DEFAULT_POLICY};
use thermagentd::decision::{decide, Conditions, Decision, TemperatureReading, THERMAL_RELEASE_MARGIN_CENTI_C};
use thermagentd::governors::GovernorMap;
use thermagentd::metrics::{
    escape_label, http_response, metrics_enabled, push_opt, render_prometheus, MetricValue,
    SharedMetrics, ThermalZone,
};
use thermagentd::state::{state_json, STATE_FILE};
use thermagentd::numbers::{decimal_text, parse_u64, parse_u8};
use thermagentd::policy::PolicySettings;
use thermagentd::telemetry::{
    devfreq_haystack_text, is_cpu_dir, is_gpu_devfreq, is_gpu_text, is_power_input_file, is_thermal_zone_entry, now_unix,
    power_scan_descends, read_trim, read_u64_file, seconds_or_zero,
};
use thermagentd::workload::{hint_is_stale, parse_workload_hint, workload_is_active};

fn reading(max_temp: f64) -> TemperatureReading {
    let max_temp_c = 72.0;
    let critical_temp_c = 78.0;
    let release_c = max_temp_c - THERMAL_RELEASE_MARGIN_CENTI_C as f64 / 100.0;
    TemperatureReading {
        at_critical_temp: max_temp >= critical_temp_c,
        at_max_temp: max_temp >= max_temp_c,
        below_release_temp: max_temp < release_c,
    }
}

fn sample(max_temp: Option<f64>, workload_active: bool, fps: Option<f64>, stale: bool) -> Conditions {
    let min_fps = 12.0;
    thermagentd::decision::conditions(
        max_temp.map(reading),
        workload_active,
        fps.map(|f| f < min_fps),
        stale,
    )
}

fn conditions(max_temp: f64, workload_active: bool, fps: Option<f64>, stale: bool) -> Conditions {
    sample(Some(max_temp), workload_active, fps, stale)
}

#[test]
fn decide_prioritizes_critical_temperature_over_workload() {
    let policy = PolicySettings::default();
    let critical_temp_c = 78.0;
    let min_fps = 12.0;
    let c = conditions(critical_temp_c, true, Some(min_fps + 30.0), false);
    let decision = decide(&policy, &c, false);
    assert_eq!(decision.reason, "critical_cooldown");
    assert_eq!(decision.nvpmodel_mode, policy.hot_nvpmodel_mode);
    assert_eq!(decision.cpu_governor, policy.hot_cpu_governor);
}

#[test]
fn decide_thermal_guard_active_and_idle() {
    let policy = PolicySettings::default();
    let d = decide(&policy, &conditions(72.0, true, Some(30.0), false), false);
    assert_eq!(d.reason, "thermal_guard");
    assert_eq!(d.nvpmodel_mode, 1);
    assert_eq!(d.cpu_governor, "powersave");
    let d = decide(&policy, &conditions(60.0, true, Some(30.0), false), false);
    assert_eq!(d.reason, "active");
    assert_eq!(d.nvpmodel_mode, 0);
    assert_eq!(d.cpu_governor, "schedutil");
    let d = decide(&policy, &conditions(60.0, true, Some(5.0), false), false);
    assert_eq!(d.reason, "active_below_fps_target");
    let d = decide(&policy, &conditions(60.0, true, None, false), false);
    assert_eq!(d.reason, "active");
    let d = decide(&policy, &conditions(60.0, false, None, true), false);
    assert_eq!(d.reason, "idle_or_no_workload_hint");
    assert_eq!(d.nvpmodel_mode, 1);
    let d = decide(&policy, &conditions(0.0, false, None, false), false);
    assert_eq!(d.reason, "idle");
    assert_eq!(d.cpu_governor, "schedutil");
}

#[test]
fn prometheus_metrics_include_collected_telemetry() {
    let mut cpu_governors = GovernorMap::new();
    cpu_governors.insert("cpu0".to_string(), "schedutil".to_string());
    let metrics = SharedMetrics {
        policy_name: "jetson".to_string(),
        thermal_zones: vec![ThermalZone { name: "CPU-therm".to_string(), temp_c: MetricValue::new(format!("{}", 64.5)).unwrap() }],
        cpu_governors,
        workload_active: true,
        workload_phase: Some("vision".to_string()),
        workload_stale: false,
        ..SharedMetrics::default()
    };

    let body = render_prometheus(&metrics);

    assert!(body.contains("thermagent_thermal_zone_temperature_celsius{zone=\"CPU-therm\"} 64.5"));
    assert!(body.contains(
        "thermagent_cpu_scaling_governor_info{cpu=\"cpu0\",governor=\"schedutil\"} 1"
    ));
    assert!(body.contains("thermagent_workload_phase_info{phase=\"vision\"} 1"));
    assert!(body.contains("thermagent_workload_stale 0"));
}

#[test]
fn prometheus_text_of_default_metrics() {
    let body = render_prometheus(&SharedMetrics::default());
    let expected = "# HELP thermagent_info Static daemon info.\n\
# TYPE thermagent_info gauge\n\
thermagent_info{policy=\"\",dry_run=\"false\"} 1\n\
# HELP thermagent_timestamp_seconds Last telemetry sample timestamp.\n\
# TYPE thermagent_timestamp_seconds gauge\n\
thermagent_timestamp_seconds 0\n\
# HELP thermagent_workload_active Workload hint active flag.\n\
# TYPE thermagent_workload_active gauge\n\
thermagent_workload_active 0\n\
# HELP thermagent_workload_stale Workload hint staleness flag.\n\
# TYPE thermagent_workload_stale gauge\n\
thermagent_workload_stale 0\n\
# HELP thermagent_actions_failed_total Failed action attempts.\n\
# TYPE thermagent_actions_failed_total counter\n\
thermagent_actions_failed_total 0\n";
    assert_eq!(body, expected);
}

#[test]
fn prometheus_text_shows_the_choice() {
    let metrics = SharedMetrics {
        ts_unix: 1700000000,
        policy_name: "p\"q".to_string(),
        reason: "thermal_guard".to_string(),
        dry_run: true,
        max_temp_c: MetricValue::new("73.5".to_string()),
        gpu_cur_freq_hz: MetricValue::new("921600000".to_string()),
        nvpmodel_mode: Some(1),
        cpu_governor: Some("powersave".to_string()),
        actions_failed: 12,
        ..SharedMetrics::default()
    };
    let body = render_prometheus(&metrics);
    assert!(body.contains("thermagent_info{policy=\"p\\\"q\",dry_run=\"true\"} 1\n"));
    assert!(body.contains("thermagent_timestamp_seconds 1700000000\n"));
    assert!(body.contains("# HELP thermagent_temperature_celsius Max thermal-zone temperature.\n# TYPE thermagent_temperature_celsius gauge\nthermagent_temperature_celsius 73.5\n"));
    assert!(body.contains("thermagent_gpu_cur_freq_hz 921600000\n"));
    assert!(!body.contains("thermagent_gpu_max_freq_hz"));
    assert!(body.contains("thermagent_nvpmodel_mode{reason=\"thermal_guard\"} 1\n"));
    assert!(body.contains("thermagent_cpu_governor_info{governor=\"powersave\",reason=\"thermal_guard\"} 1\n"));
    assert!(body.ends_with("thermagent_actions_failed_total 12\n"));
}

#[test]
fn push_opt_writes_three_lines_or_nothing() {
    let mut out = String::from("x");
    push_opt(&mut out, "m", "help text", &None);
    assert_eq!(out, "x");
    push_opt(&mut out, "m", "help text", &MetricValue::new("2.5".to_string()));
    assert_eq!(out, "x# HELP m help text\n# TYPE m gauge\nm 2.5\n");
}

#[test]
fn escape_label_escapes_backslash_quote_and_newline() {
    assert_eq!(escape_label("a\\b\"c\nd"), "a\\\\b\\\"c\\nd");
    assert_eq!(escape_label("plain"), "plain");
    assert_eq!(escape_label(""), "");
}

#[test]
fn http_response_counts_bytes() {
    assert_eq!(
        http_response("é1\n"),
        "HTTP/1.1 200 OK\r\nContent-Type: text/plain; version=0.0.4\r\nContent-Length: 4\r\n\r\né1\n"
    );
}

#[test]
fn metrics_enabled_needs_an_address() {
    assert!(metrics_enabled("127.0.0.1:9920"));
    assert!(!metrics_enabled("  "));
    assert!(!metrics_enabled(""));
}

#[test]
fn governor_map_keeps_cpus_in_order_once() {
    let mut g = GovernorMap::new();
    g.insert("cpu2".to_string(), "a".to_string());
    g.insert("cpu10".to_string(), "b".to_string());
    g.insert("cpu0".to_string(), "c".to_string());
    g.insert("cpu2".to_string(), "d".to_string());
    assert_eq!(g.len(), 3);
    let names: Vec<(String, String)> = (0..g.len())
        .map(|i| {
            let (c, v) = g.entry(i);
            (c.clone(), v.clone())
        })
        .collect();
    assert_eq!(
        names,
        vec![
            ("cpu0".to_string(), "c".to_string()),
            ("cpu10".to_string(), "b".to_string()),
            ("cpu2".to_string(), "d".to_string()),
        ]
    );
}

#[test]
fn numbers_parse_and_print() {
    assert_eq!(parse_u64("k", "18446744073709551615"), Ok(u64::MAX));
    assert_eq!(parse_u64("k", "+007"), Ok(7));
    assert_eq!(
        parse_u64("k", "18446744073709551616"),
        Err("k expects unsigned integer, got 18446744073709551616".to_string())
    );
    assert!(parse_u64("k", "").is_err());
    assert!(parse_u64("k", "+").is_err());
    assert!(parse_u64("k", "-1").is_err());
    assert!(parse_u64("k", " 1").is_err());
    assert_eq!(parse_u8("k", "255"), Ok(255));
    assert_eq!(parse_u8("k", "256"), Err("k expects u8 integer, got 256".to_string()));
    assert_eq!(decimal_text(0), "0");
    assert_eq!(decimal_text(1234567890), "1234567890");
    assert_eq!(decimal_text(u64::MAX), u64::MAX.to_string());
    for n in [0u64, 9, 10, 99, 100, 65535, u64::MAX] {
        assert_eq!(parse_u64("k", &decimal_text(n)), Ok(n));
    }
}

#[test]
fn cpu_dirs_are_cpu_and_digits() {
    assert!(is_cpu_dir("cpu0"));
    assert!(is_cpu_dir("cpu12"));
    assert!(is_cpu_dir("cpu"));
    assert!(!is_cpu_dir("cpufreq"));
    assert!(!is_cpu_dir("cpuidle"));
    assert!(!is_cpu_dir("cp"));
    assert!(!is_cpu_dir("xcpu0"));
}

#[test]
fn sysfs_entry_names() {
    assert!(is_thermal_zone_entry("thermal_zone0"));
    assert!(!is_thermal_zone_entry("cooling_device0"));
    assert!(is_power_input_file("in_power0_input"));
    assert!(!is_power_input_file("in_power0_label"));
    assert!(!is_power_input_file("in_current0_input"));
    assert!(power_scan_descends(5));
    assert!(!power_scan_descends(6));
}

#[test]
fn gpu_devfreq_is_found_in_any_case() {
    assert!(is_gpu_devfreq("57000000.GPU", "", ""));
    assert!(is_gpu_devfreq("devfreq0", "../../devices/GBUS", ""));
    assert!(is_gpu_devfreq("devfreq1", "", "NVIDIA Gpu"));
    assert!(is_gpu_devfreq("x", "/sys/57000000.qcom", ""));
    assert!(!is_gpu_devfreq("devfreq2", "../emc", "memory"));
    assert!(!is_gpu_devfreq("g", "p", "u"));
}

#[test]
fn gpu_haystack_is_matched_as_given() {
    assert_eq!(devfreq_haystack_text("a", "b", "c"), "a b c");
    assert!(is_gpu_text("x gpu y"));
    assert!(is_gpu_text("gbus"));
    assert!(is_gpu_text("57000000.qcom"));
    assert!(!is_gpu_text("GPU"));
    assert!(!is_gpu_text("g p u"));
}

#[test]
fn sysfs_contents_are_trimmed_and_read() {
    assert_eq!(read_trim(Some("  schedutil\n")), Some("schedutil".to_string()));
    assert_eq!(read_trim(Some(" \n")), None);
    assert_eq!(read_trim(None), None);
    assert_eq!(read_u64_file(Some("921600000\n")), Some(921600000));
    assert_eq!(read_u64_file(Some("12.5\n")), None);
    assert_eq!(read_u64_file(Some("")), None);
    assert_eq!(read_u64_file(None), None);
}

#[test]
fn clock_readings_become_timestamps() {
    assert_eq!(seconds_or_zero(Some(42)), 42);
    assert_eq!(seconds_or_zero(None), 0);
    assert!(now_unix() > 1_600_000_000);
}

#[test]
fn command_line_is_read() {
    let args: Vec<String> = ["-c", "/tmp/p", "--dry-run", "--once", "--interval-ms", "500", "--prometheus", "0.0.0.0:1"]
        .iter()
        .map(|s| s.to_string())
        .collect();
    match parse_args(&args) {
        ArgsOutcome::Run(a) => {
            assert_eq!(a.config, "/tmp/p");
            assert!(a.dry_run);
            assert!(a.once);
            assert_eq!(a.interval_ms, Some(500));
            assert_eq!(a.prometheus_listen, Some("0.0.0.0:1".to_string()));
            let mut p = PolicySettings::default();
            apply_overrides(&mut p, &a);
            assert_eq!(p.sample_interval_ms, 500);
            assert_eq!(p.prometheus_listen, "0.0.0.0:1");
        }
        _ => panic!("expected arguments"),
    }
    match parse_args(&Vec::new()) {
        ArgsOutcome::Run(a) => {
            assert_eq!(a.config, DEFAULT_POLICY);
            assert!(!a.dry_run && !a.once);
            assert_eq!(a.interval_ms, None);
        }
        _ => panic!("expected arguments"),
    }
}

#[test]
fn command_line_errors() {
    let v = |xs: &[&str]| xs.iter().map(|s| s.to_string()).collect::<Vec<String>>();
    match parse_args(&v(&["--interval-ms", "soon"])) {
        ArgsOutcome::Invalid { message, show_help } => {
            assert_eq!(message, "invalid --interval-ms value soon");
            assert!(!show_help);
        }
        _ => panic!("expected an error"),
    }
    match parse_args(&v(&["-c"])) {
        ArgsOutcome::Invalid { message, .. } => assert_eq!(message, "--config requires a value"),
        _ => panic!("expected an error"),
    }
    match parse_args(&v(&["--bogus"])) {
        ArgsOutcome::Invalid { message, show_help } => {
            assert_eq!(message, "unknown argument --bogus");
            assert!(show_help);
        }
        _ => panic!("expected an error"),
    }
    assert!(matches!(parse_args(&v(&["--once", "-h", "--bogus"])), ArgsOutcome::Help));
    assert!(help_text().contains("--config /etc/thermagent/policy.d/jetson-nano-lite.policy\n"));
    assert!(help_text().starts_with("thermagentd 0.1.0\n\nUsage:\n  thermagentd [--config PATH]"));
}

#[test]
fn workload_hints_are_read() {
    let hint = parse_workload_hint("busy=YES\nfps: 12.5\nphase = vision # camera\nfps=14\nnoise\n");
    assert!(hint.busy);
    assert_eq!(hint.fps, Some("14".to_string()));
    assert_eq!(hint.phase, Some("vision".to_string()));
    let hint = parse_workload_hint("busy: 0\n# fps=3\n");
    assert!(!hint.busy);
    assert_eq!(hint.fps, None);
    assert_eq!(hint.phase, None);
    assert!(parse_workload_hint("busy=True").busy);
    assert!(parse_workload_hint("busy=1").busy);
    assert!(!parse_workload_hint("busy=yess").busy);
    assert!(parse_workload_hint("url=a:b").fps.is_none());
    assert!(hint_is_stale(None, 15));
    assert!(hint_is_stale(Some(16), 15));
    assert!(!hint_is_stale(Some(15), 15));
    assert!(workload_is_active(false, true, false));
    assert!(workload_is_active(false, false, true));
    assert!(!workload_is_active(true, true, true));
    assert!(!workload_is_active(false, false, false));
}

#[test]
fn actions_are_planned_and_counted() {
    let mut s = ActuatorState::new();
    assert!(s.needs_nvpmodel(0, false, 100));
    s.record_nvpmodel(0, 100);
    assert!(!s.needs_nvpmodel(0, false, 100));
    assert!(!s.needs_nvpmodel(0, true, 500));
    assert!(s.needs_nvpmodel(1, false, 100 + DECISION_HOLD_S));
    s.record_failure();
    assert_eq!(s.actions_failed, 1);
    assert_eq!(s.last_nvpmodel_mode, Some(0));
    assert_eq!(s.last_change_s, 100);
    assert_eq!(governor_file_text("powersave"), "powersave\n");
    assert_eq!(governor_result(0, true, &Vec::new()), Ok(()));
    assert_eq!(
        governor_result(0, false, &Vec::new()),
        Err("no CPU cpufreq governor files found".to_string())
    );
    assert_eq!(governor_result(4, false, &Vec::new()), Ok(()));
    assert_eq!(
        governor_result(2, false, &vec!["a: denied".to_string(), "b: busy".to_string()]),
        Err("a: denied; b: busy".to_string())
    );
    assert_eq!(nvpmodel_arguments(3), ("-m".to_string(), "3".to_string()));
}

fn decision(mode: u8, hot: bool) -> Decision {
    Decision {
        reason: if hot { "thermal_guard" } else { "idle" }.to_string(),
        nvpmodel_mode: mode,
        cpu_governor: "powersave".to_string(),
        hot,
    }
}

#[test]
fn decide_falls_back_to_hot_settings_without_temperature() {
    let policy = PolicySettings::default();
    let d = decide(&policy, &sample(None, true, Some(30.0), false), false);
    assert_eq!(d.reason, "thermal_telemetry_missing");
    assert_eq!(d.nvpmodel_mode, policy.hot_nvpmodel_mode);
    assert_eq!(d.cpu_governor, policy.hot_cpu_governor);
    assert!(d.hot);
    let c = sample(None, false, None, true);
    assert!(c.temperature_missing);
    assert!(!c.at_max_temp);
    assert!(!c.below_fps_target);
}

#[test]
fn hot_settings_are_kept_within_the_hysteresis_band() {
    let policy = PolicySettings::default();
    let d = decide(&policy, &conditions(72.5, true, Some(30.0), false), false);
    assert_eq!(d.reason, "thermal_guard");
    assert!(d.hot);
    let d = decide(&policy, &conditions(71.9, true, Some(30.0), false), d.hot);
    assert_eq!(d.reason, "thermal_guard");
    assert_eq!(d.nvpmodel_mode, policy.hot_nvpmodel_mode);
    assert_eq!(d.cpu_governor, policy.hot_cpu_governor);
    let d = decide(&policy, &conditions(70.0, true, Some(30.0), false), d.hot);
    assert_eq!(d.reason, "thermal_guard");
    let d = decide(&policy, &conditions(69.9, true, Some(30.0), false), d.hot);
    assert_eq!(d.reason, "active");
    assert_eq!(d.nvpmodel_mode, 0);
    assert!(!d.hot);
    let d = decide(&policy, &conditions(71.9, true, Some(30.0), false), d.hot);
    assert_eq!(d.reason, "active");
    let d = decide(&policy, &conditions(60.0, false, None, false), true);
    assert_eq!(d.reason, "idle");
}

#[test]
fn nvpmodel_changes_are_held_for_the_hold_interval() {
    let mut s = ActuatorState::new();
    assert_eq!(s.after_governor(true, &decision(0, false), 1000), ApplyStep::RunNvpmodel);
    s.record_nvpmodel(0, 1000);
    assert_eq!(s.after_governor(true, &decision(0, false), 1001), ApplyStep::Done);
    assert_eq!(s.after_governor(true, &decision(1, false), 1001), ApplyStep::Done);
    assert_eq!(s.after_governor(true, &decision(1, false), 1000 + DECISION_HOLD_S - 1), ApplyStep::Done);
    assert_eq!(s.after_governor(true, &decision(1, false), 1000 + DECISION_HOLD_S), ApplyStep::RunNvpmodel);
    assert_eq!(s.after_governor(true, &decision(1, true), 1001), ApplyStep::RunNvpmodel);
    assert_eq!(s.after_governor(false, &decision(1, true), 1001), ApplyStep::Stop);
    assert_eq!(s.after_governor(false, &decision(0, false), 5000), ApplyStep::Stop);
    assert_eq!(s.after_governor(true, &decision(1, false), 999), ApplyStep::RunNvpmodel);
    assert_eq!(s.last_nvpmodel_mode, Some(0));
}

#[test]
fn state_file_holds_the_latest_decision() {
    assert_eq!(STATE_FILE, "/var/lib/thermagent/state.json");
    let d = Decision {
        reason: "thermal_guard".to_string(),
        nvpmodel_mode: 1,
        cpu_governor: "powersave".to_string(),
        hot: true,
    };
    assert_eq!(
        state_json(&d),
        "{\"reason\":\"thermal_guard\",\"nvpmodel_mode\":1,\"cpu_governor\":\"powersave\",\"hot\":true}\n"
    );
    let d = Decision {
        reason: "a\"b\\c\nd\u{1}".to_string(),
        nvpmodel_mode: 200,
        cpu_governor: "schedutil".to_string(),
        hot: false,
    };
    assert_eq!(
        state_json(&d),
        "{\"reason\":\"a\\\"b\\\\c\\u000ad\\u0001\",\"nvpmodel_mode\":200,\"cpu_governor\":\"schedutil\",\"hot\":false}\n"
    );
}

#[test]
fn metric_values_hold_no_line_feed() {
    assert!(MetricValue::new("1\n2".to_string()).is_none());
    assert!(MetricValue::new("\n".to_string()).is_none());
    let v = MetricValue::new("64.5".to_string()).unwrap();
    assert_eq!(v.as_str(), "64.5");
    assert_eq!(MetricValue::new(String::new()).unwrap().as_str(), "");
}
