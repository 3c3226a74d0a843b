//! Applying a decision: which actions to take, and what comes of them.
use vstd::prelude::*;
use crate::decision::Decision;
use crate::numbers::{decimal, decimal_text};
use crate::text::{append_str, has_infix, join, join_strings};

verus! {

/// How long, in seconds, an applied `nvpmodel` mode is held before a
/// decision that is not the hot one may change it again.
pub const DECISION_HOLD_S: u64 = 10;

/// What the daemon remembers between samples: the `nvpmodel` mode it last
/// applied, when it applied it (seconds since the Unix epoch), and how many
/// actions failed.
pub struct ActuatorState {
    pub last_nvpmodel_mode: Option<u8>,
    pub last_change_s: u64,
    pub actions_failed: u64,
}

/// The next step of applying a decision, once the governor was written.
#[derive(Debug, Clone, Copy, PartialEq, Eq, Structural)]
pub enum ApplyStep {
    /// Writing the governor failed: stop, and report the failure.
    Stop,
    /// Run `nvpmodel` for the decision's mode.
    RunNvpmodel,
    /// Nothing more to do.
    Done,
}

impl ActuatorState {
    /// Nothing applied yet, nothing failed.
    pub fn new() -> (r: ActuatorState)
        ensures
            r.last_nvpmodel_mode is None,
            r.last_change_s == 0,
            r.actions_failed == 0,
    {
        ActuatorState { last_nvpmodel_mode: None, last_change_s: 0, actions_failed: 0 }
    }

    /// Whether `nvpmodel` must run for `mode` at time `now_s`, for a decision
    /// whose `hot` flag is `hot` (see `needs_run`).
    pub fn needs_nvpmodel(&self, mode: u8, hot: bool, now_s: u64) -> (r: bool)
        ensures
            r == needs_run(self.last_nvpmodel_mode, self.last_change_s, mode, hot, now_s),
    {
        match self.last_nvpmodel_mode {
            Some(m) => m != mode && (hot || !self.holds_at(now_s)),
            None => true,
        }
    }

    fn holds_at(&self, now_s: u64) -> (r: bool)
        ensures
            r == within_hold(self.last_change_s, now_s),
    {
        self.last_change_s <= now_s && now_s - self.last_change_s < DECISION_HOLD_S
    }

    /// What follows the governor write for `decision` at time `now_s`:
    /// stop when the write failed, else run `nvpmodel` when `needs_run` says
    /// so, else nothing.
    pub fn after_governor(&self, governor_ok: bool, decision: &Decision, now_s: u64) -> (r: ApplyStep)
        ensures
            r == apply_step(
                self.last_nvpmodel_mode,
                self.last_change_s,
                governor_ok,
                decision.nvpmodel_mode,
                decision.hot,
                now_s,
            ),
    {
        if !governor_ok {
            ApplyStep::Stop
        } else if self.needs_nvpmodel(decision.nvpmodel_mode, decision.hot, now_s) {
            ApplyStep::RunNvpmodel
        } else {
            ApplyStep::Done
        }
    }

    /// Notes that `nvpmodel` applied `mode` at time `now_s`.
    pub fn record_nvpmodel(&mut self, mode: u8, now_s: u64)
        ensures
            final(self).last_nvpmodel_mode == Some(mode),
            final(self).last_change_s == now_s,
            final(self).actions_failed == old(self).actions_failed,
    {
        self.last_nvpmodel_mode = Some(mode);
        self.last_change_s = now_s;
    }

    /// Notes that applying a decision failed.
    pub fn record_failure(&mut self)
        requires
            old(self).actions_failed < u64::MAX,
        ensures
            final(self).actions_failed == old(self).actions_failed + 1,
            final(self).last_nvpmodel_mode == old(self).last_nvpmodel_mode,
            final(self).last_change_s == old(self).last_change_s,
    {
        self.actions_failed = self.actions_failed + 1;
    }
}

/// Whether `now` falls within the hold interval that began at `last_change`.
pub open spec fn within_hold(last_change: u64, now: u64) -> bool {
    last_change <= now && now < last_change + DECISION_HOLD_S
}

/// Whether `nvpmodel` must run for `mode` at time `now`, after `last` was
/// applied at `last_change`: always when nothing was applied yet; never for
/// the mode already applied; for another mode, at once for a hot decision
/// (local safety is not held back), and otherwise only once the hold
/// interval is over.
pub open spec fn needs_run(last: Option<u8>, last_change: u64, mode: u8, hot: bool, now: u64) -> bool {
    match last {
        None => true,
        Some(m) => m != mode && (hot || !within_hold(last_change, now)),
    }
}

/// The step after the governor write, as `ActuatorState::after_governor`
/// takes it.
pub open spec fn apply_step(
    last: Option<u8>,
    last_change: u64,
    governor_ok: bool,
    mode: u8,
    hot: bool,
    now: u64,
) -> ApplyStep {
    if !governor_ok {
        ApplyStep::Stop
    } else if needs_run(last, last_change, mode, hot, now) {
        ApplyStep::RunNvpmodel
    } else {
        ApplyStep::Done
    }
}

/// A mode that was applied is not applied again: right after `nvpmodel`
/// applied `mode` at `at`, the same mode needs no new run at any later time.
pub proof fn applied_mode_is_not_reapplied(mode: u8, at: u64, now: u64, hot: bool)
    ensures
        !needs_run(Some(mode), at, mode, hot, now),
{
}

/// The decision hold: within the hold interval after a change, a decision
/// that is not the hot one does not change the applied mode, even when the
/// governor was written.
pub proof fn decision_hold_keeps_mode(applied: u8, at: u64, mode: u8, now: u64)
    requires
        at <= now < at + DECISION_HOLD_S,
    ensures
        !needs_run(Some(applied), at, mode, false, now),
        apply_step(Some(applied), at, true, mode, false, now) == ApplyStep::Done,
{
}

/// Once the hold interval is over, a different mode is applied.
pub proof fn hold_ends_after_interval(applied: u8, at: u64, mode: u8, hot: bool, now: u64)
    requires
        mode != applied,
        now >= at + DECISION_HOLD_S,
    ensures
        apply_step(Some(applied), at, true, mode, hot, now) == ApplyStep::RunNvpmodel,
{
}

/// Local safety is not held back: a hot decision with another mode runs
/// `nvpmodel` at once, within the hold interval too.
pub proof fn hot_decision_is_not_held(applied: u8, at: u64, mode: u8, now: u64)
    requires
        mode != applied,
    ensures
        apply_step(Some(applied), at, true, mode, true, now) == ApplyStep::RunNvpmodel,
{
}

/// A failed governor write stops the decision before `nvpmodel`.
pub proof fn failed_governor_write_stops(last: Option<u8>, at: u64, mode: u8, hot: bool, now: u64)
    ensures
        apply_step(last, at, false, mode, hot, now) == ApplyStep::Stop,
{
}

/// The text written to a `scaling_governor` file to select `governor`.
pub fn governor_file_text(governor: &str) -> (r: String)
    ensures
        r@ == governor@ + "\n"@,
{
    let mut r = String::from_str(governor);
    append_str(&mut r, "\n");
    r
}

/// What writing the governor to every CPU comes to: with no governor file
/// found, success in a dry run and failure otherwise; with files found,
/// success when no write failed, else the failures joined by `"; "`.
pub open spec fn governor_outcome(attempted: nat, dry_run: bool, failures: Seq<Seq<char>>) -> Result<
    (),
    Seq<char>,
> {
    if attempted == 0 {
        if dry_run {
            Ok(())
        } else {
            Err("no CPU cpufreq governor files found"@)
        }
    } else if failures.len() == 0 {
        Ok(())
    } else {
        Err(join(failures, "; "@))
    }
}

/// The result of writing the governor: `attempted` files found, `failures`
/// the messages of the writes that failed.
pub fn governor_result(attempted: usize, dry_run: bool, failures: &Vec<String>) -> (r: Result<(), String>)
    ensures
        match governor_outcome(attempted as nat, dry_run, failures@.map_values(|s: String| s@)) {
            Ok(()) => r is Ok,
            Err(m) => r matches Err(e) && e@ == m,
        },
{
    if attempted == 0 {
        if dry_run {
            return Ok(());
        }
        return Err(String::from_str("no CPU cpufreq governor files found"));
    }
    if failures.len() == 0 {
        Ok(())
    } else {
        Err(join_strings(failures, "; "))
    }
}

/// The arguments that select `mode` with `nvpmodel`: `-m` and the mode.
pub fn nvpmodel_arguments(mode: u8) -> (r: (String, String))
    ensures
        r.0@ == "-m"@,
        r.1@ == decimal(mode as nat),
{
    (String::from_str("-m"), decimal_text(mode as u64))
}

proof fn lemma_join_holds_each(items: Seq<Seq<char>>, sep: Seq<char>, i: int)
    requires
        0 <= i < items.len(),
    ensures
        has_infix(join(items, sep), items[i]),
    decreases items.len(),
{
    let j = join(items, sep);
    if items.len() == 1 {
        let w: int = 0;
        assert(j.subrange(w, w + items[i].len()) =~= items[i]);
    } else if i == items.len() - 1 {
        let pre = join(items.drop_last(), sep) + sep;
        let w: int = pre.len() as int;
        assert(j == pre + items[i]);
        assert(j.subrange(w, w + items[i].len()) =~= items[i]);
    } else {
        lemma_join_holds_each(items.drop_last(), sep, i);
        let inner = join(items.drop_last(), sep);
        assert(items.drop_last()[i] == items[i]);
        let k = choose|k: int|
            0 <= k && k + items[i].len() <= inner.len() && #[trigger] inner.subrange(k, k + items[i].len())
                == items[i];
        assert(j == inner + sep + items.last());
        assert(j.subrange(k, k + items[i].len()) =~= inner.subrange(k, k + items[i].len()));
    }
}

/// Writing the governor succeeds exactly when governor files were found and
/// none of the writes failed, or, in a dry run, when none were found; when
/// writes fail, the error names every one of the failures.
pub proof fn governor_writes_are_reported(attempted: nat, dry_run: bool, failures: Seq<Seq<char>>)
    ensures
        governor_outcome(attempted, dry_run, failures) is Ok <==> (attempted > 0 && failures.len()
            == 0) || (attempted == 0 && dry_run),
        attempted > 0 ==> forall|i: int|
            0 <= i < failures.len() ==> (governor_outcome(attempted, dry_run, failures) matches Err(
                msg,
            ) && has_infix(msg, #[trigger] failures[i])),
{
    if attempted > 0 {
        assert forall|i: int| 0 <= i < failures.len() implies (governor_outcome(
            attempted,
            dry_run,
            failures,
        ) matches Err(msg) && has_infix(msg, #[trigger] failures[i])) by {
            lemma_join_holds_each(failures, "; "@, i);
        }
    }
}

} // verus!
