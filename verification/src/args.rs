//! The command line of the daemon.
use vstd::prelude::*;
use crate::numbers::{decimal, parse_unsigned};
use crate::policy::{PolicyModel, PolicySettings};
use crate::text::{append_str, chars_of, str_eq};

verus! {

/// Where the policy is read from when `--config` does not say.
pub const DEFAULT_POLICY: &'static str = "/etc/thermagent/policy.d/jetson-nano-lite.policy";

/// What the command line asks for.
pub struct Args {
    pub config: String,
    pub dry_run: bool,
    pub once: bool,
    pub interval_ms: Option<u64>,
    pub prometheus_listen: Option<String>,
}

/// The value of an `Args`.
pub struct ArgsModel {
    pub config: Seq<char>,
    pub dry_run: bool,
    pub once: bool,
    pub interval_ms: Option<u64>,
    pub prometheus_listen: Option<Seq<char>>,
}

impl View for Args {
    type V = ArgsModel;

    open spec fn view(&self) -> ArgsModel {
        ArgsModel {
            config: self.config@,
            dry_run: self.dry_run,
            once: self.once,
            interval_ms: self.interval_ms,
            prometheus_listen: match self.prometheus_listen {
                Some(p) => Some(p@),
                None => None,
            },
        }
    }
}

/// What reading the command line comes to.
pub enum ArgsOutcome {
    /// Run with these arguments.
    Run(Args),
    /// Print the help text and stop with success.
    Help,
    /// Stop with failure, after the message and, where `show_help` says so,
    /// the help text.
    Invalid { message: String, show_help: bool },
}

/// The value of an `ArgsOutcome`.
pub enum OutcomeModel {
    Run(ArgsModel),
    Help,
    Invalid(Seq<char>, bool),
}

impl View for ArgsOutcome {
    type V = OutcomeModel;

    open spec fn view(&self) -> OutcomeModel {
        match self {
            ArgsOutcome::Run(a) => OutcomeModel::Run(a@),
            ArgsOutcome::Help => OutcomeModel::Help,
            ArgsOutcome::Invalid { message, show_help } => OutcomeModel::Invalid(
                message@,
                *show_help,
            ),
        }
    }
}

/// The arguments before any is read.
pub open spec fn initial_args() -> ArgsModel {
    ArgsModel {
        config: DEFAULT_POLICY@,
        dry_run: false,
        once: false,
        interval_ms: None,
        prometheus_listen: None,
    }
}

/// `"FLAG requires a value"`.
pub open spec fn missing_value_message(flag: Seq<char>) -> Seq<char> {
    flag + " requires a value"@
}

/// What the arguments `args[i..]` come to, from the arguments `st` read so
/// far. Each flag is read in turn; a flag that takes a value takes the next
/// argument.
pub open spec fn read_args(args: Seq<Seq<char>>, i: int, st: ArgsModel) -> OutcomeModel
    decreases args.len() - i,
{
    if i < 0 || i >= args.len() {
        OutcomeModel::Run(st)
    } else {
        let a = args[i];
        if a == "--config"@ || a == "-c"@ {
            if i + 1 < args.len() {
                read_args(args, i + 2, ArgsModel { config: args[i + 1], ..st })
            } else {
                OutcomeModel::Invalid(missing_value_message("--config"@), false)
            }
        } else if a == "--dry-run"@ {
            read_args(args, i + 1, ArgsModel { dry_run: true, ..st })
        } else if a == "--once"@ {
            read_args(args, i + 1, ArgsModel { once: true, ..st })
        } else if a == "--interval-ms"@ {
            if i + 1 < args.len() {
                match parse_unsigned(args[i + 1], u64::MAX as nat) {
                    Some(n) => read_args(args, i + 2, ArgsModel { interval_ms: Some(n as u64), ..st }),
                    None => OutcomeModel::Invalid(
                        "invalid --interval-ms value "@ + args[i + 1],
                        false,
                    ),
                }
            } else {
                OutcomeModel::Invalid(missing_value_message("--interval-ms"@), false)
            }
        } else if a == "--prometheus"@ {
            if i + 1 < args.len() {
                read_args(args, i + 2, ArgsModel { prometheus_listen: Some(args[i + 1]), ..st })
            } else {
                OutcomeModel::Invalid(missing_value_message("--prometheus"@), false)
            }
        } else if a == "--help"@ || a == "-h"@ {
            OutcomeModel::Help
        } else {
            OutcomeModel::Invalid("unknown argument "@ + a, true)
        }
    }
}

fn missing_value(flag: &str) -> (r: ArgsOutcome)
    ensures
        r@ == OutcomeModel::Invalid(missing_value_message(flag@), false),
{
    let mut m = String::from_str(flag);
    append_str(&mut m, " requires a value");
    ArgsOutcome::Invalid { message: m, show_help: false }
}

/// Reads the command line `args` (without the program name).
pub fn parse_args(args: &Vec<String>) -> (r: ArgsOutcome)
    ensures
        r@ == read_args(args@.map_values(|s: String| s@), 0, initial_args()),
{
    let ghost all = args@.map_values(|s: String| s@);
    let mut st = Args {
        config: String::from_str(DEFAULT_POLICY),
        dry_run: false,
        once: false,
        interval_ms: None,
        prometheus_listen: None,
    };
    let mut i: usize = 0;
    while i < args.len()
        invariant
            i <= args@.len(),
            all == args@.map_values(|s: String| s@),
            all.len() == args@.len(),
            read_args(all, i as int, st@) == read_args(all, 0, initial_args()),
        decreases args@.len() - i,
    {
        let a = args[i].as_str();
        assert(a@ == all[i as int]);
        if str_eq(a, "--config") || str_eq(a, "-c") {
            if i + 1 < args.len() {
                assert(args[i as int + 1]@ == all[i + 1]);
                st.config = args[i + 1].clone();
                i = i + 2;
            } else {
                return missing_value("--config");
            }
        } else if str_eq(a, "--dry-run") {
            st.dry_run = true;
            i = i + 1;
        } else if str_eq(a, "--once") {
            st.once = true;
            i = i + 1;
        } else if str_eq(a, "--interval-ms") {
            if i + 1 < args.len() {
                let value = args[i + 1].as_str();
                assert(value@ == all[i + 1]);
                let v = chars_of(value);
                match crate::numbers::parse_unsigned_chars(&v, u64::MAX) {
                    Some(n) => {
                        st.interval_ms = Some(n);
                        i = i + 2;
                    },
                    None => {
                        let mut m = String::from_str("invalid --interval-ms value ");
                        append_str(&mut m, value);
                        return ArgsOutcome::Invalid { message: m, show_help: false };
                    },
                }
            } else {
                return missing_value("--interval-ms");
            }
        } else if str_eq(a, "--prometheus") {
            if i + 1 < args.len() {
                assert(args[i as int + 1]@ == all[i + 1]);
                st.prometheus_listen = Some(args[i + 1].clone());
                i = i + 2;
            } else {
                return missing_value("--prometheus");
            }
        } else if str_eq(a, "--help") || str_eq(a, "-h") {
            return ArgsOutcome::Help;
        } else {
            let mut m = String::from_str("unknown argument ");
            append_str(&mut m, a);
            return ArgsOutcome::Invalid { message: m, show_help: true };
        }
    }
    ArgsOutcome::Run(st)
}

/// The usage text.
pub open spec fn help_message() -> Seq<char> {
    "thermagentd 0.1.0\n\nUsage:\n  thermagentd [--config PATH] [--dry-run] [--once] [--interval-ms N] [--prometheus ADDR]\n\nDefaults:\n  --config "@
        + DEFAULT_POLICY@ + "\n  --prometheus 127.0.0.1:9920\n"@
}

/// The usage text.
pub fn help_text() -> (r: String)
    ensures
        r@ == help_message(),
{
    let mut m = String::from_str(
        "thermagentd 0.1.0\n\nUsage:\n  thermagentd [--config PATH] [--dry-run] [--once] [--interval-ms N] [--prometheus ADDR]\n\nDefaults:\n  --config ",
    );
    append_str(&mut m, DEFAULT_POLICY);
    append_str(&mut m, "\n  --prometheus 127.0.0.1:9920\n");
    m
}

/// The settings once the command line has its say: `--interval-ms` and
/// `--prometheus` replace the policy's values.
pub open spec fn with_overrides(p: PolicyModel, a: ArgsModel) -> PolicyModel {
    PolicyModel {
        sample_interval_ms: match a.interval_ms {
            Some(ms) => ms,
            None => p.sample_interval_ms,
        },
        prometheus_listen: match a.prometheus_listen {
            Some(addr) => addr,
            None => p.prometheus_listen,
        },
        ..p
    }
}

/// Lets the command line override the policy's sample interval and metrics
/// address.
pub fn apply_overrides(policy: &mut PolicySettings, args: &Args)
    ensures
        final(policy)@ == with_overrides(old(policy)@, args@),
{
    if let Some(ms) = args.interval_ms {
        policy.sample_interval_ms = ms;
    }
    if let Some(addr) = &args.prometheus_listen {
        policy.prometheus_listen = addr.clone();
    }
}

proof fn lemma_flags_differ()
    ensures
        "-c"@ != "--config"@,
        "--dry-run"@ != "--config"@ && "--dry-run"@ != "-c"@,
        "--once"@ != "--config"@ && "--once"@ != "-c"@ && "--once"@ != "--dry-run"@,
        "--interval-ms"@ != "--config"@ && "--interval-ms"@ != "-c"@ && "--interval-ms"@
            != "--dry-run"@ && "--interval-ms"@ != "--once"@,
        "--prometheus"@ != "--config"@ && "--prometheus"@ != "-c"@ && "--prometheus"@
            != "--dry-run"@ && "--prometheus"@ != "--once"@ && "--prometheus"@ != "--interval-ms"@,
        "--help"@ != "--config"@ && "--help"@ != "-c"@ && "--help"@ != "--dry-run"@ && "--help"@
            != "--once"@ && "--help"@ != "--interval-ms"@ && "--help"@ != "--prometheus"@,
        "-h"@ != "--config"@ && "-h"@ != "-c"@ && "-h"@ != "--dry-run"@ && "-h"@ != "--once"@
            && "-h"@ != "--interval-ms"@ && "-h"@ != "--prometheus"@ && "-h"@ != "--help"@,
{
    reveal_strlit("--config");
    reveal_strlit("-c");
    reveal_strlit("--dry-run");
    reveal_strlit("--once");
    reveal_strlit("--interval-ms");
    reveal_strlit("--prometheus");
    reveal_strlit("--help");
    reveal_strlit("-h");
    assert("--config"@.len() == 8);
    assert("-c"@.len() == 2);
    assert("--dry-run"@.len() == 9);
    assert("--once"@.len() == 6);
    assert("--interval-ms"@.len() == 13);
    assert("--prometheus"@.len() == 12);
    assert("--help"@.len() == 6);
    assert("-h"@.len() == 2);
    assert("--once"@[2] != "--help"@[2]);
    assert("-c"@[1] != "-h"@[1]);
}

proof fn lemma_read_args_shift(pre: Seq<Seq<char>>, rest: Seq<Seq<char>>, i: int, st: ArgsModel)
    requires
        0 <= i,
    ensures
        read_args(pre + rest, pre.len() + i, st) == read_args(rest, i, st),
    decreases rest.len() - i,
{
    let s = pre + rest;
    if i < rest.len() {
        assert(s[pre.len() + i] == rest[i]);
        if i + 1 < rest.len() {
            assert(s[pre.len() + i + 1] == rest[i + 1]);
        }
        lemma_read_args_shift(pre, rest, i + 1, ArgsModel { dry_run: true, ..st });
        lemma_read_args_shift(pre, rest, i + 1, ArgsModel { once: true, ..st });
        if i + 1 < rest.len() {
            lemma_read_args_shift(pre, rest, i + 2, ArgsModel { config: rest[i + 1], ..st });
            lemma_read_args_shift(
                pre,
                rest,
                i + 2,
                ArgsModel { prometheus_listen: Some(rest[i + 1]), ..st },
            );
            match parse_unsigned(rest[i + 1], u64::MAX as nat) {
                Some(n) => {
                    lemma_read_args_shift(
                        pre,
                        rest,
                        i + 2,
                        ArgsModel { interval_ms: Some(n as u64), ..st },
                    );
                },
                None => {},
            }
        }
    }
}

/// `--config PATH` (or `-c PATH`) sets the policy path to `PATH`, whatever
/// `PATH` is, and reading goes on with the arguments after it.
pub proof fn config_flag_sets_the_policy_path(p: Seq<char>, rest: Seq<Seq<char>>, st: ArgsModel)
    ensures
        read_args(seq!["--config"@, p], 0, initial_args()) == OutcomeModel::Run(
            ArgsModel {
                config: p,
                dry_run: false,
                once: false,
                interval_ms: None,
                prometheus_listen: None,
            },
        ),
        read_args(seq!["-c"@, p], 0, initial_args()) == OutcomeModel::Run(
            ArgsModel {
                config: p,
                dry_run: false,
                once: false,
                interval_ms: None,
                prometheus_listen: None,
            },
        ),
        read_args(seq!["--config"@, p] + rest, 0, st) == read_args(
            rest,
            0,
            ArgsModel { config: p, ..st },
        ),
        read_args(seq!["-c"@, p] + rest, 0, st) == read_args(rest, 0, ArgsModel { config: p, ..st }),
{
    lemma_flags_differ();
    lemma_read_args_shift(seq!["--config"@, p], rest, 0, ArgsModel { config: p, ..st });
    lemma_read_args_shift(seq!["-c"@, p], rest, 0, ArgsModel { config: p, ..st });
    assert((seq!["--config"@, p] + rest)[0] == "--config"@);
    assert((seq!["--config"@, p] + rest)[1] == p);
    assert((seq!["-c"@, p] + rest)[0] == "-c"@);
    assert((seq!["-c"@, p] + rest)[1] == p);
    reveal_with_fuel(read_args, 2);
}

/// Without arguments the daemon runs with the default policy path, not in a
/// dry run, in a loop, with the policy's interval and metrics address.
pub proof fn no_arguments_run_with_defaults()
    ensures
        read_args(Seq::empty(), 0, initial_args()) == OutcomeModel::Run(
            ArgsModel {
                config: DEFAULT_POLICY@,
                dry_run: false,
                once: false,
                interval_ms: None,
                prometheus_listen: None,
            },
        ),
{
}

/// `--dry-run` and `--once` set their switches, and reading goes on with the
/// arguments after them.
pub proof fn switches_are_set(rest: Seq<Seq<char>>, st: ArgsModel)
    ensures
        read_args(seq!["--dry-run"@] + rest, 0, st) == read_args(
            rest,
            0,
            ArgsModel { dry_run: true, ..st },
        ),
        read_args(seq!["--once"@] + rest, 0, st) == read_args(rest, 0, ArgsModel { once: true, ..st }),
        read_args(seq!["--dry-run"@], 0, initial_args()) matches OutcomeModel::Run(a) && a.dry_run
            && !a.once,
        read_args(seq!["--once"@], 0, initial_args()) matches OutcomeModel::Run(a) && a.once
            && !a.dry_run,
{
    lemma_flags_differ();
    lemma_read_args_shift(seq!["--dry-run"@], rest, 0, ArgsModel { dry_run: true, ..st });
    lemma_read_args_shift(seq!["--once"@], rest, 0, ArgsModel { once: true, ..st });
    assert((seq!["--dry-run"@] + rest)[0] == "--dry-run"@);
    assert((seq!["--once"@] + rest)[0] == "--once"@);
    reveal_with_fuel(read_args, 2);
}

/// `--interval-ms N` sets the interval to `N` when `N` is the decimal text of
/// a `u64`, and a larger number is refused with its text in the message;
/// `--prometheus ADDR` sets the metrics address to `ADDR`.
pub proof fn valued_flags_set_their_values(n: nat, addr: Seq<char>, rest: Seq<Seq<char>>, st: ArgsModel)
    ensures
        n <= u64::MAX ==> read_args(seq!["--interval-ms"@, decimal(n)] + rest, 0, st) == read_args(
            rest,
            0,
            ArgsModel { interval_ms: Some(n as u64), ..st },
        ),
        n > u64::MAX ==> read_args(seq!["--interval-ms"@, decimal(n)] + rest, 0, st)
            == OutcomeModel::Invalid("invalid --interval-ms value "@ + decimal(n), false),
        read_args(seq!["--prometheus"@, addr] + rest, 0, st) == read_args(
            rest,
            0,
            ArgsModel { prometheus_listen: Some(addr), ..st },
        ),
{
    lemma_flags_differ();
    let a = seq!["--interval-ms"@, decimal(n)] + rest;
    let b = seq!["--prometheus"@, addr] + rest;
    assert(a[0] == "--interval-ms"@ && a[1] == decimal(n));
    assert(b[0] == "--prometheus"@ && b[1] == addr);
    if n <= u64::MAX {
        crate::numbers::decimal_text_parses_back(n, u64::MAX as nat);
        lemma_read_args_shift(
            seq!["--interval-ms"@, decimal(n)],
            rest,
            0,
            ArgsModel { interval_ms: Some(n as u64), ..st },
        );
    } else {
        crate::numbers::decimal_text_above_limit_is_refused(n, u64::MAX as nat);
    }
    lemma_read_args_shift(
        seq!["--prometheus"@, addr],
        rest,
        0,
        ArgsModel { prometheus_listen: Some(addr), ..st },
    );
}

/// `--help` or `-h` asks for the help text, whatever follows; a flag that
/// takes a value but ends the command line is refused without the help text;
/// any other argument is refused as unknown, with the help text.
pub proof fn help_and_errors(rest: Seq<Seq<char>>, st: ArgsModel, a: Seq<char>)
    ensures
        read_args(seq!["--help"@] + rest, 0, st) == OutcomeModel::Help,
        read_args(seq!["-h"@] + rest, 0, st) == OutcomeModel::Help,
        read_args(seq!["--config"@], 0, st) == OutcomeModel::Invalid(
            "--config requires a value"@,
            false,
        ),
        read_args(seq!["-c"@], 0, st) == OutcomeModel::Invalid("--config requires a value"@, false),
        read_args(seq!["--interval-ms"@], 0, st) == OutcomeModel::Invalid(
            "--interval-ms requires a value"@,
            false,
        ),
        read_args(seq!["--prometheus"@], 0, st) == OutcomeModel::Invalid(
            "--prometheus requires a value"@,
            false,
        ),
        a != "--config"@ && a != "-c"@ && a != "--dry-run"@ && a != "--once"@ && a
            != "--interval-ms"@ && a != "--prometheus"@ && a != "--help"@ && a != "-h"@
            ==> read_args(seq![a] + rest, 0, st) == OutcomeModel::Invalid(
            "unknown argument "@ + a,
            true,
        ),
{
    lemma_flags_differ();
    assert((seq!["--help"@] + rest)[0] == "--help"@);
    assert((seq!["-h"@] + rest)[0] == "-h"@);
    assert((seq![a] + rest)[0] == a);
    reveal_strlit("--config requires a value");
    reveal_strlit("--interval-ms requires a value");
    reveal_strlit("--prometheus requires a value");
    reveal_strlit(" requires a value");
    reveal_strlit("--config");
    reveal_strlit("--interval-ms");
    reveal_strlit("--prometheus");
    assert("--config"@ + " requires a value"@ =~= "--config requires a value"@);
    assert("--interval-ms"@ + " requires a value"@ =~= "--interval-ms requires a value"@);
    assert("--prometheus"@ + " requires a value"@ =~= "--prometheus requires a value"@);
}

} // verus!
