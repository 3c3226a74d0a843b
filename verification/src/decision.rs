//! Choosing the power mode and CPU governor from the readings of one sample.
use vstd::prelude::*;
use crate::policy::{
    allowed_governor, allowed_nvpmodel_mode, policy_violation, valid_policy_stays_in_allowlists,
    PolicyModel, PolicySettings, ThresholdChecks,
};

verus! {

/// How far below `max_temp_c`, in hundredths of a degree Celsius, the
/// temperature must fall before the hot settings are left again.
pub const THERMAL_RELEASE_MARGIN_CENTI_C: u64 = 200;

/// How the highest zone temperature compares with the policy's thresholds.
/// The caller makes the comparisons, which are on numbers with a fractional
/// part.
pub struct TemperatureReading {
    /// The temperature is at least `critical_temp_c`.
    pub at_critical_temp: bool,
    /// The temperature is at least `max_temp_c`.
    pub at_max_temp: bool,
    /// The temperature is below `max_temp_c` less the release margin
    /// (`THERMAL_RELEASE_MARGIN_CENTI_C`).
    pub below_release_temp: bool,
}

/// What one sample shows, as far as the choice depends on it.
pub struct Conditions {
    /// No thermal zone could be read.
    pub temperature_missing: bool,
    /// The highest zone temperature is at least `critical_temp_c`.
    pub at_critical_temp: bool,
    /// The highest zone temperature is at least `max_temp_c`.
    pub at_max_temp: bool,
    /// The highest zone temperature is below `max_temp_c` less the release
    /// margin.
    pub below_release_temp: bool,
    /// The workload hint says that the workload is active.
    pub workload_active: bool,
    /// The frame rate of the workload is below `min_fps`.
    pub below_fps_target: bool,
    /// The workload hint is missing or stale.
    pub workload_stale: bool,
}

/// The conditions of a sample: `temperature` is `None` when no thermal zone
/// could be read, and then counts as missing (and as no comparison at all);
/// `fps_below_target` is `None` when the hint gives no frame rate, which then
/// counts as the policy's minimum, so not below it.
pub fn conditions(
    temperature: Option<TemperatureReading>,
    workload_active: bool,
    fps_below_target: Option<bool>,
    workload_stale: bool,
) -> (r: Conditions)
    ensures
        r.temperature_missing == temperature is None,
        r.at_critical_temp == (temperature matches Some(t) && t.at_critical_temp),
        r.at_max_temp == (temperature matches Some(t) && t.at_max_temp),
        r.below_release_temp == (temperature matches Some(t) && t.below_release_temp),
        r.workload_active == workload_active,
        r.below_fps_target == (fps_below_target == Some(true)),
        r.workload_stale == workload_stale,
{
    let (missing, critical, max, release) = match temperature {
        Some(t) => (false, t.at_critical_temp, t.at_max_temp, t.below_release_temp),
        None => (true, false, false, false),
    };
    Conditions {
        temperature_missing: missing,
        at_critical_temp: critical,
        at_max_temp: max,
        below_release_temp: release,
        workload_active,
        below_fps_target: match fps_below_target {
            Some(b) => b,
            None => false,
        },
        workload_stale,
    }
}

/// A power mode and CPU governor to apply, and why; `hot` says that the hot
/// settings were chosen.
pub struct Decision {
    pub reason: String,
    pub nvpmodel_mode: u8,
    pub cpu_governor: String,
    pub hot: bool,
}

/// The value of a `Decision`.
pub struct DecisionModel {
    pub reason: Seq<char>,
    pub nvpmodel_mode: u8,
    pub cpu_governor: Seq<char>,
    pub hot: bool,
}

impl View for Decision {
    type V = DecisionModel;

    open spec fn view(&self) -> DecisionModel {
        DecisionModel {
            reason: self.reason@,
            nvpmodel_mode: self.nvpmodel_mode,
            cpu_governor: self.cpu_governor@,
            hot: self.hot,
        }
    }
}

/// The hot settings of `p`, for `reason`.
pub open spec fn hot_choice(p: PolicyModel, reason: Seq<char>) -> DecisionModel {
    DecisionModel {
        reason,
        nvpmodel_mode: p.hot_nvpmodel_mode,
        cpu_governor: p.hot_cpu_governor,
        hot: true,
    }
}

/// The choice for policy `p` under conditions `c`, where `was_hot` says that
/// the previous choice was the hot settings: a missing temperature, a
/// critical temperature, a temperature at the maximum, or, after a hot
/// choice, a temperature not yet below the maximum less the release margin,
/// select the hot settings; otherwise an active workload selects the active
/// mode; otherwise the idle mode.
pub open spec fn decision_for(p: PolicyModel, c: Conditions, was_hot: bool) -> DecisionModel {
    if c.temperature_missing {
        hot_choice(p, "thermal_telemetry_missing"@)
    } else if c.at_critical_temp {
        hot_choice(p, "critical_cooldown"@)
    } else if c.at_max_temp || (was_hot && !c.below_release_temp) {
        hot_choice(p, "thermal_guard"@)
    } else if c.workload_active {
        DecisionModel {
            reason: if c.below_fps_target {
                "active_below_fps_target"@
            } else {
                "active"@
            },
            nvpmodel_mode: p.active_nvpmodel_mode,
            cpu_governor: p.active_cpu_governor,
            hot: false,
        }
    } else {
        DecisionModel {
            reason: if c.workload_stale {
                "idle_or_no_workload_hint"@
            } else {
                "idle"@
            },
            nvpmodel_mode: p.idle_nvpmodel_mode,
            cpu_governor: p.idle_cpu_governor,
            hot: false,
        }
    }
}

fn hot_decision(policy: &PolicySettings, reason: &str) -> (r: Decision)
    ensures
        r@ == hot_choice(policy@, reason@),
{
    Decision {
        reason: String::from_str(reason),
        nvpmodel_mode: policy.hot_nvpmodel_mode,
        cpu_governor: policy.hot_cpu_governor.clone(),
        hot: true,
    }
}

/// Chooses the power mode and CPU governor for one sample; `was_hot` is the
/// `hot` of the previous choice (false for the first).
pub fn decide(policy: &PolicySettings, c: &Conditions, was_hot: bool) -> (r: Decision)
    ensures
        r@ == decision_for(policy@, *c, was_hot),
{
    if c.temperature_missing {
        return hot_decision(policy, "thermal_telemetry_missing");
    }
    if c.at_critical_temp {
        return hot_decision(policy, "critical_cooldown");
    }
    if c.at_max_temp || (was_hot && !c.below_release_temp) {
        return hot_decision(policy, "thermal_guard");
    }
    if c.workload_active {
        let reason = if c.below_fps_target {
            "active_below_fps_target"
        } else {
            "active"
        };
        return Decision {
            reason: String::from_str(reason),
            nvpmodel_mode: policy.active_nvpmodel_mode,
            cpu_governor: policy.active_cpu_governor.clone(),
            hot: false,
        };
    }
    let reason = if c.workload_stale {
        "idle_or_no_workload_hint"
    } else {
        "idle"
    };
    Decision {
        reason: String::from_str(reason),
        nvpmodel_mode: policy.idle_nvpmodel_mode,
        cpu_governor: policy.idle_cpu_governor.clone(),
        hot: false,
    }
}

/// Local safety always wins: whenever a temperature is at the maximum or
/// above, or no temperature can be read, the hot power mode and the hot
/// governor are chosen, whatever the workload hint says.
pub proof fn local_safety_always_wins(p: PolicyModel, c: Conditions, was_hot: bool)
    requires
        c.at_max_temp || c.at_critical_temp || c.temperature_missing,
    ensures
        decision_for(p, c, was_hot).nvpmodel_mode == p.hot_nvpmodel_mode,
        decision_for(p, c, was_hot).cpu_governor == p.hot_cpu_governor,
        decision_for(p, c, was_hot).hot,
{
}

/// Without thermal telemetry the hot settings are the conservative fallback.
pub proof fn missing_temperature_falls_back_to_hot(p: PolicyModel, c: Conditions, was_hot: bool)
    requires
        c.temperature_missing,
    ensures
        decision_for(p, c, was_hot) == hot_choice(p, "thermal_telemetry_missing"@),
{
}

/// A critical temperature takes priority over the workload: with thermal
/// telemetry at hand, the reason is then `critical_cooldown`.
pub proof fn critical_temperature_comes_first(p: PolicyModel, c: Conditions, was_hot: bool)
    requires
        c.at_critical_temp,
        !c.temperature_missing,
    ensures
        decision_for(p, c, was_hot).reason == "critical_cooldown"@,
        decision_for(p, c, was_hot).nvpmodel_mode == p.hot_nvpmodel_mode,
{
}

/// Thermal hysteresis: after a hot choice, the hot settings are left only
/// once the temperature is below the maximum less the release margin.
pub proof fn hot_mode_is_left_only_below_release(p: PolicyModel, c: Conditions)
    requires
        !decision_for(p, c, true).hot,
    ensures
        !c.temperature_missing,
        !c.at_critical_temp,
        !c.at_max_temp,
        c.below_release_temp,
{
}

/// Without a temperature alarm and with the temperature below the release
/// point (or no hot choice before), the workload hint alone chooses between
/// the active and the idle settings.
pub proof fn workload_chooses_when_cool(p: PolicyModel, c: Conditions, was_hot: bool)
    requires
        !c.temperature_missing,
        !c.at_max_temp,
        !c.at_critical_temp,
        !was_hot || c.below_release_temp,
    ensures
        c.workload_active ==> decision_for(p, c, was_hot).nvpmodel_mode == p.active_nvpmodel_mode
            && decision_for(p, c, was_hot).cpu_governor == p.active_cpu_governor,
        !c.workload_active ==> decision_for(p, c, was_hot).nvpmodel_mode == p.idle_nvpmodel_mode
            && decision_for(p, c, was_hot).cpu_governor == p.idle_cpu_governor,
{
}

/// Only allowlisted actions are chosen: under a policy that passes the
/// checks, every choice selects an allowed CPU governor and an allowed
/// `nvpmodel` mode.
pub proof fn choices_stay_in_allowlists(p: PolicyModel, t: ThresholdChecks, c: Conditions, was_hot: bool)
    requires
        policy_violation(p, t) is None,
    ensures
        allowed_governor(decision_for(p, c, was_hot).cpu_governor),
        allowed_nvpmodel_mode(decision_for(p, c, was_hot).nvpmodel_mode),
{
    valid_policy_stays_in_allowlists(p, t);
}

/// A choice is marked hot exactly when it is made for a thermal reason: no
/// temperature, a critical temperature, a temperature at the maximum, or,
/// after a hot choice, a temperature not yet below the release point. Every
/// other choice, idle or active, is not hot.
pub proof fn hot_marks_exactly_the_thermal_choices(p: PolicyModel, c: Conditions, was_hot: bool)
    ensures
        decision_for(p, c, was_hot).hot <==> (c.temperature_missing || c.at_critical_temp
            || c.at_max_temp || (was_hot && !c.below_release_temp)),
{
}

/// The reason names the settings chosen: each of the three thermal reasons
/// comes with the hot settings, each active reason with the active settings,
/// and each idle reason with the idle settings; no other reason occurs.
pub proof fn reason_names_the_settings(p: PolicyModel, c: Conditions, was_hot: bool)
    ensures
        ({
            let d = decision_for(p, c, was_hot);
            &&& (d.reason == "thermal_telemetry_missing"@ || d.reason == "critical_cooldown"@
                || d.reason == "thermal_guard"@) ==> d.nvpmodel_mode == p.hot_nvpmodel_mode
                && d.cpu_governor == p.hot_cpu_governor && d.hot
            &&& (d.reason == "active"@ || d.reason == "active_below_fps_target"@)
                ==> d.nvpmodel_mode == p.active_nvpmodel_mode && d.cpu_governor
                == p.active_cpu_governor && !d.hot
            &&& (d.reason == "idle"@ || d.reason == "idle_or_no_workload_hint"@)
                ==> d.nvpmodel_mode == p.idle_nvpmodel_mode && d.cpu_governor
                == p.idle_cpu_governor && !d.hot
            &&& d.reason == "thermal_telemetry_missing"@ || d.reason == "critical_cooldown"@
                || d.reason == "thermal_guard"@ || d.reason == "active"@ || d.reason
                == "active_below_fps_target"@ || d.reason == "idle"@ || d.reason
                == "idle_or_no_workload_hint"@
        }),
{
    reveal_strlit("thermal_telemetry_missing");
    reveal_strlit("critical_cooldown");
    reveal_strlit("thermal_guard");
    reveal_strlit("active");
    reveal_strlit("active_below_fps_target");
    reveal_strlit("idle");
    reveal_strlit("idle_or_no_workload_hint");
    assert("idle"@.len() == 4);
    assert("active"@.len() == 6);
    assert("thermal_guard"@.len() == 13);
    assert("critical_cooldown"@.len() == 17);
    assert("active_below_fps_target"@.len() == 23);
    assert("idle_or_no_workload_hint"@.len() == 24);
    assert("thermal_telemetry_missing"@.len() == 25);
}

/// The active reasons tell the frame rate apart: an active workload below
/// its frame-rate target is reported as such, at or above it as plain
/// `active`; an idle choice says whether the hint was missing or stale.
pub proof fn reasons_report_the_workload(p: PolicyModel, c: Conditions, was_hot: bool)
    requires
        !c.temperature_missing,
        !c.at_critical_temp,
        !c.at_max_temp,
        !was_hot || c.below_release_temp,
    ensures
        c.workload_active && c.below_fps_target ==> decision_for(p, c, was_hot).reason
            == "active_below_fps_target"@,
        c.workload_active && !c.below_fps_target ==> decision_for(p, c, was_hot).reason
            == "active"@,
        !c.workload_active && c.workload_stale ==> decision_for(p, c, was_hot).reason
            == "idle_or_no_workload_hint"@,
        !c.workload_active && !c.workload_stale ==> decision_for(p, c, was_hot).reason
            == "idle"@,
{
}

} // verus!
