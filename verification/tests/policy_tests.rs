use thermagentd::policy::{
    validate_policy, PolicyKey, PolicyReader, PolicySettings, PolicyStep, ThresholdChecks,
};
use thermagentd::policy::unquote;

struct ReadPolicy {
    settings: PolicySettings,
    max_temp_c: f64,
    critical_temp_c: f64,
    min_fps: f64,
}

fn parse_number(key: &str, value: &str) -> Result<f64, String> {
    let parsed = value
        .parse::<f64>()
        .map_err(|_| format!("{} expects number, got {}", key, value))?;
    if parsed.is_finite() {
        Ok(parsed)
    } else {
        Err(format!("{} expects finite number, got {}", key, value))
    }
}

fn read_policy_text(text: &str) -> Result<ReadPolicy, String> {
    let mut reader = PolicyReader::new(text);
    let mut max_temp_c = 72.0;
    let mut critical_temp_c = 78.0;
    let mut min_fps = 12.0;
    loop {
        match reader.advance() {
            PolicyStep::Number { key, value } => {
                let v = parse_number(key.name(), &value)?;
                match key {
                    PolicyKey::MaxTempC => max_temp_c = v,
                    PolicyKey::CriticalTempC => critical_temp_c = v,
                    _ => min_fps = v,
                }
            }
            PolicyStep::Failed(message) => return Err(message),
            PolicyStep::Finished => break,
        }
    }
    let checks = ThresholdChecks {
        max_temp_finite: f64::is_finite(max_temp_c),
        critical_temp_finite: f64::is_finite(critical_temp_c),
        critical_above_max: critical_temp_c > max_temp_c,
        min_fps_valid: f64::is_finite(min_fps) && min_fps >= 0.0,
    };
    validate_policy(reader.settings(), &checks)?;
    Ok(ReadPolicy {
        settings: reader.into_settings(),
        max_temp_c,
        critical_temp_c,
        min_fps,
    })
}

fn sample_policy_text() -> &'static str {
    r#"
name: jetson-nano-lite-safe-vision
sample_interval_ms: 1000
max_temp_c: 72.0
critical_temp_c: 78.0
min_fps: 12.0
workload_stale_after_s: 15
idle_nvpmodel_mode: 1
active_nvpmodel_mode: 0
hot_nvpmodel_mode: 1
idle_cpu_governor: schedutil
active_cpu_governor: schedutil
hot_cpu_governor: powersave
nvpmodel_bin: /usr/sbin/nvpmodel
workload_file: /run/thermagent/workload.metrics
prometheus_listen: 127.0.0.1:9920
"#
}

#[test]
fn read_policy_rejects_missing_required_keys() {
    let err = match read_policy_text("name: incomplete\n") {
        Ok(_) => panic!("policy should fail"),
        Err(e) => e,
    };
    assert!(err.contains("missing policy keys"));
    assert!(err.contains("sample_interval_ms"));
}

#[test]
fn read_policy_accepts_complete_policy() {
    let policy = match read_policy_text(sample_policy_text()) {
        Ok(p) => p,
        Err(e) => panic!("policy should parse: {}", e),
    };
    assert_eq!(policy.settings.name, "jetson-nano-lite-safe-vision");
    assert_eq!(policy.settings.hot_cpu_governor, "powersave");
}

#[test]
fn complete_policy_values_are_read() {
    let text = "---\n# reference\nname: \"lab\"\nsample_interval_ms = 250\nmax_temp_c: 70.5\ncritical_temp_c: 80\nmin_fps: 5\nworkload_stale_after_s: 30 # seconds\nidle_nvpmodel_mode: 1\nactive_nvpmodel_mode: 0\nhot_nvpmodel_mode: 1\nidle_cpu_governor: 'ondemand'\nactive_cpu_governor: performance\nhot_cpu_governor: powersave\nnvpmodel_bin: /bin/nv\nworkload_file: /tmp/w\nprometheus_listen: 0.0.0.0:1\n";
    let p = read_policy_text(text).expect("policy should parse");
    assert_eq!(p.settings.name, "lab");
    assert_eq!(p.settings.sample_interval_ms, 250);
    assert_eq!(p.settings.workload_stale_after_s, 30);
    assert_eq!(p.settings.idle_nvpmodel_mode, 1);
    assert_eq!(p.settings.active_nvpmodel_mode, 0);
    assert_eq!(p.settings.hot_nvpmodel_mode, 1);
    assert_eq!(p.settings.idle_cpu_governor, "ondemand");
    assert_eq!(p.settings.active_cpu_governor, "performance");
    assert_eq!(p.settings.prometheus_listen, "0.0.0.0:1");
    assert_eq!(p.max_temp_c, 70.5);
    assert_eq!(p.critical_temp_c, 80.0);
    assert_eq!(p.min_fps, 5.0);
}

#[test]
fn malformed_policy_line_is_reported_with_its_number() {
    let err = read_policy_text("name: a\n\njust words\n").err().unwrap();
    assert_eq!(err, "line 3: expected key: value");
}

#[test]
fn unknown_policy_key_is_reported() {
    let err = read_policy_text("# c\ncolour: blue\n").err().unwrap();
    assert_eq!(err, "line 2: unknown key colour");
}

#[test]
fn bad_integer_values_are_reported() {
    let err = read_policy_text("sample_interval_ms: fast\n").err().unwrap();
    assert_eq!(err, "sample_interval_ms expects unsigned integer, got fast");
    let err = read_policy_text("hot_nvpmodel_mode: 256\n").err().unwrap();
    assert_eq!(err, "hot_nvpmodel_mode expects u8 integer, got 256");
}

#[test]
fn bad_number_stops_reading_at_its_line() {
    let err = read_policy_text("max_temp_c: hot\ncolour: blue\n").err().unwrap();
    assert_eq!(err, "max_temp_c expects number, got hot");
}

#[test]
fn policy_reader_hands_numbers_to_the_caller() {
    let mut reader = PolicyReader::new("min_fps: '7.5'\n");
    match reader.advance() {
        PolicyStep::Number { key, value } => {
            assert_eq!(key, PolicyKey::MinFps);
            assert_eq!(value, "7.5");
        }
        _ => panic!("expected a number"),
    }
    match reader.advance() {
        PolicyStep::Failed(m) => assert!(m.starts_with("missing policy keys: name, sample_interval_ms, max_temp_c, critical_temp_c, workload_stale_after_s")),
        _ => panic!("expected missing keys"),
    }
}

#[test]
fn validation_rules_apply_in_order() {
    let ok = ThresholdChecks {
        max_temp_finite: true,
        critical_temp_finite: true,
        critical_above_max: true,
        min_fps_valid: true,
    };
    let mut s = PolicySettings::default();
    assert!(validate_policy(&s, &ok).is_ok());
    s.sample_interval_ms = 99;
    assert_eq!(validate_policy(&s, &ok).unwrap_err(), "sample_interval_ms must be >= 100");
    s.name = "  ".to_string();
    assert_eq!(validate_policy(&s, &ok).unwrap_err(), "name must not be empty");
    let mut s = PolicySettings::default();
    let bad = ThresholdChecks { critical_above_max: false, ..ok };
    assert_eq!(
        validate_policy(&s, &bad).unwrap_err(),
        "critical_temp_c must be greater than max_temp_c"
    );
    let bad = ThresholdChecks { min_fps_valid: false, ..ok };
    assert_eq!(validate_policy(&s, &bad).unwrap_err(), "min_fps must be a finite number >= 0");
    s.workload_stale_after_s = 0;
    assert_eq!(validate_policy(&s, &ok).unwrap_err(), "workload_stale_after_s must be >= 1");
    let mut s = PolicySettings::default();
    s.hot_cpu_governor = String::new();
    assert_eq!(validate_policy(&s, &ok).unwrap_err(), "hot_cpu_governor must not be empty");
    let mut s = PolicySettings::default();
    s.workload_file = "\t".to_string();
    assert_eq!(validate_policy(&s, &ok).unwrap_err(), "workload_file must not be empty");
    let bad = ThresholdChecks { max_temp_finite: false, ..ok };
    assert_eq!(
        validate_policy(&PolicySettings::default(), &bad).unwrap_err(),
        "max_temp_c must be a finite number"
    );
}

#[test]
fn policy_allowlists_reject_unsupported_actions() {
    let ok = ThresholdChecks {
        max_temp_finite: true,
        critical_temp_finite: true,
        critical_above_max: true,
        min_fps_valid: true,
    };
    let mut s = PolicySettings::default();
    s.hot_cpu_governor = "overdrive".to_string();
    s.hot_nvpmodel_mode = 200;
    assert_eq!(validate_policy(&s, &ok).unwrap_err(), "hot_cpu_governor is not an allowed CPU governor");
    s.hot_cpu_governor = "conservative".to_string();
    assert_eq!(validate_policy(&s, &ok).unwrap_err(), "hot_nvpmodel_mode is not an allowed nvpmodel mode");
    s.hot_nvpmodel_mode = 0;
    assert!(validate_policy(&s, &ok).is_ok());
    let mut s = PolicySettings::default();
    s.idle_cpu_governor = "userspace".to_string();
    assert_eq!(validate_policy(&s, &ok).unwrap_err(), "idle_cpu_governor is not an allowed CPU governor");
    let mut s = PolicySettings::default();
    s.active_nvpmodel_mode = 2;
    assert_eq!(validate_policy(&s, &ok).unwrap_err(), "active_nvpmodel_mode is not an allowed nvpmodel mode");
    for g in ["conservative", "ondemand", "performance", "powersave", "schedutil"] {
        let mut s = PolicySettings::default();
        s.active_cpu_governor = g.to_string();
        assert!(validate_policy(&s, &ok).is_ok());
    }
    let text = "name: lab\nsample_interval_ms: 250\nmax_temp_c: 70.5\ncritical_temp_c: 80\nmin_fps: 5\nworkload_stale_after_s: 30\nidle_nvpmodel_mode: 2\nactive_nvpmodel_mode: 0\nhot_nvpmodel_mode: 1\nidle_cpu_governor: ondemand\nactive_cpu_governor: performance\nhot_cpu_governor: powersave\nnvpmodel_bin: /bin/nv\nworkload_file: /tmp/w\nprometheus_listen: 0.0.0.0:1\n";
    let err = read_policy_text(text).err().unwrap();
    assert_eq!(err, "idle_nvpmodel_mode is not an allowed nvpmodel mode");
}

#[test]
fn unquote_removes_one_matching_pair() {
    assert_eq!(unquote("\"abc\""), "abc");
    assert_eq!(unquote("'abc'"), "abc");
    assert_eq!(unquote("\"abc'"), "\"abc'");
    assert_eq!(unquote("\""), "\"");
    assert_eq!(unquote("''"), "");
    assert_eq!(unquote("\"\"x\"\""), "\"x\"");
}

#[test]
fn default_policy_is_the_reference_one() {
    let p = PolicySettings::default();
    assert_eq!(p.name, "jetson-nano-lite-safe-vision");
    assert_eq!(p.sample_interval_ms, 1000);
    assert_eq!(p.hot_cpu_governor, "powersave");
    assert_eq!(p.prometheus_listen, "127.0.0.1:9920");
}

#[test]
fn policy_lines_may_end_with_carriage_returns() {
    let text = sample_policy_text().replace('\n', "\r\n");
    let p = read_policy_text(&text).expect("policy should parse");
    assert_eq!(p.settings.nvpmodel_bin, "/usr/sbin/nvpmodel");
    assert_eq!(p.settings.prometheus_listen, "127.0.0.1:9920");
}
