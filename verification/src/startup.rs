//! Startup options from the command line: `--no-audio`, a SoundFont (`--soundfont PATH` or
//! `--soundfont=PATH`) and a score (`--score`/`--file`, with either form), falling back to the
//! `LILYPALOOZA_SOUNDFONT` and `LILYPALOOZA_SCORE` environment variables.

use vstd::prelude::*;

use crate::text::{chars_of, concat_strs, has_prefix, owned, starts_with_chars, str_equal};

verus! {

/// Where a startup path comes from: a whole argument, the rest of an argument after its
/// `--flag=` prefix (from that character on), or the environment.
#[derive(Debug, Clone, Copy, PartialEq, Eq, Structural)]
pub enum StartupSource {
    Argument(usize),
    ArgumentSuffix(usize, usize),
    Environment,
}

/// A startup flag that was ignored.
#[derive(Debug, Clone, Copy, PartialEq, Eq, Structural)]
pub enum StartupWarning {
    /// `--soundfont` came last, without a path.
    MissingSoundfontPath,
    /// The score flag at this argument came last, without a path.
    MissingScorePath(usize),
    /// `--soundfont=` had nothing after the `=`.
    EmptySoundfontPath,
    /// `--score=` or `--file=` had nothing after the `=`.
    EmptyScorePath,
}

/// What the command line asks for, before the environment is consulted.
#[derive(Debug, Clone, PartialEq, Eq)]
pub struct StartupScan {
    pub audio_enabled: bool,
    pub soundfont: Option<StartupSource>,
    pub score: Option<StartupSource>,
    pub warnings: Vec<StartupWarning>,
}

/// The startup options.
#[derive(Debug, Clone, PartialEq, Eq)]
pub struct StartupOptions {
    pub audio_enabled: bool,
    pub soundfont: Option<StartupSource>,
    pub score: Option<StartupSource>,
    pub warnings: Vec<StartupWarning>,
}

/// The state of the scan as plain values.
pub struct ScanView {
    pub audio_enabled: bool,
    pub soundfont: Option<StartupSource>,
    pub score: Option<StartupSource>,
    pub warnings: Seq<StartupWarning>,
}

/// The command line read from argument `i` on, each argument given as its text when it is
/// valid UTF-8. A later flag overrides an earlier one.
pub open spec fn spec_scan(args: Seq<Option<Seq<char>>>, i: int, st: ScanView) -> ScanView
    decreases args.len() - i,
{
    if i < 0 || i >= args.len() {
        st
    } else {
        match args[i] {
            None => spec_scan(args, i + 1, st),
            Some(a) => if a == "--no-audio"@ {
                spec_scan(args, i + 1, ScanView { audio_enabled: false, ..st })
            } else if a == "--soundfont"@ {
                if i + 1 < args.len() {
                    spec_scan(
                        args,
                        i + 2,
                        ScanView { soundfont: Some(StartupSource::Argument((i + 1) as usize)), ..st },
                    )
                } else {
                    spec_scan(
                        args,
                        i + 1,
                        ScanView { warnings: st.warnings.push(StartupWarning::MissingSoundfontPath), ..st },
                    )
                }
            } else if a == "--score"@ || a == "--file"@ {
                if i + 1 < args.len() {
                    spec_scan(
                        args,
                        i + 2,
                        ScanView { score: Some(StartupSource::Argument((i + 1) as usize)), ..st },
                    )
                } else {
                    spec_scan(
                        args,
                        i + 1,
                        ScanView {
                            warnings: st.warnings.push(StartupWarning::MissingScorePath(i as usize)),
                            ..st
                        },
                    )
                }
            } else if has_prefix(a, "--soundfont="@) {
                if a.len() == 12 {
                    spec_scan(
                        args,
                        i + 1,
                        ScanView { warnings: st.warnings.push(StartupWarning::EmptySoundfontPath), ..st },
                    )
                } else {
                    spec_scan(
                        args,
                        i + 1,
                        ScanView { soundfont: Some(StartupSource::ArgumentSuffix(i as usize, 12)), ..st },
                    )
                }
            } else if has_prefix(a, "--score="@) || has_prefix(a, "--file="@) {
                let k: int = if has_prefix(a, "--score="@) {
                    8
                } else {
                    7
                };
                if a.len() == k {
                    spec_scan(
                        args,
                        i + 1,
                        ScanView { warnings: st.warnings.push(StartupWarning::EmptyScorePath), ..st },
                    )
                } else {
                    spec_scan(
                        args,
                        i + 1,
                        ScanView { score: Some(StartupSource::ArgumentSuffix(i as usize, k as usize)), ..st },
                    )
                }
            } else {
                spec_scan(args, i + 1, st)
            },
        }
    }
}

/// The arguments as plain values.
pub open spec fn args_view(args: Seq<Option<String>>) -> Seq<Option<Seq<char>>> {
    args.map_values(|a: Option<String>| match a {
        Some(s) => Some(s@),
        None => None,
    })
}

/// The scan of the whole command line from the defaults: audio on, no paths, no warnings.
pub open spec fn spec_scan_all(args: Seq<Option<String>>) -> ScanView {
    spec_scan(
        args_view(args),
        0,
        ScanView { audio_enabled: true, soundfont: None, score: None, warnings: Seq::empty() },
    )
}

/// Whether `a` is exactly `flag`.
fn is_flag(a: &str, flag: &str) -> (r: bool)
    ensures
        r == (a@ == flag@),
{
    str_equal(a, flag)
}

/// Whether `a` starts with `prefix`.
fn has_flag_prefix(a: &str, prefix: &str) -> (r: bool)
    ensures
        r == has_prefix(a@, prefix@),
{
    let ac = chars_of(a);
    let pc = chars_of(prefix);
    starts_with_chars(ac.as_slice(), pc.as_slice())
}

/// Reads the command line, each argument given as its text when it is valid UTF-8.
pub fn scan_startup_arguments(args: &Vec<Option<String>>) -> (r: StartupScan)
    ensures
        ({
            let v = spec_scan_all(args@);
            r.audio_enabled == v.audio_enabled && r.soundfont == v.soundfont && r.score == v.score
                && r.warnings@ == v.warnings
        }),
{
    proof {
        reveal_strlit("--no-audio");
        reveal_strlit("--soundfont");
        reveal_strlit("--score");
        reveal_strlit("--file");
        reveal_strlit("--soundfont=");
        reveal_strlit("--score=");
        reveal_strlit("--file=");
    }
    let mut audio_enabled = true;
    let mut soundfont: Option<StartupSource> = None;
    let mut score: Option<StartupSource> = None;
    let mut warnings: Vec<StartupWarning> = Vec::new();
    let n = args.len();
    let ghost av = args_view(args@);
    let mut i: usize = 0;
    while i < n
        invariant
            n == args@.len(),
            av == args_view(args@),
            av.len() == n,
            i <= n + 1,
            spec_scan(av, i as int, ScanView { audio_enabled, soundfont, score, warnings: warnings@ })
                == spec_scan_all(args@),
        decreases n + 1 - i,
    {
        proof {
            assert(av[i as int] == match args@[i as int] {
                Some(s) => Some(s@),
                None => None,
            });
        }
        let a = match &args[i] {
            Some(a) => a.as_str(),
            None => {
                i = i + 1;
                continue;
            },
        };
        if is_flag(a, "--no-audio") {
            audio_enabled = false;
            i = i + 1;
            continue;
        }
        if is_flag(a, "--soundfont") {
            if i + 1 < n {
                soundfont = Some(StartupSource::Argument(i + 1));
                i = i + 2;
            } else {
                warnings.push(StartupWarning::MissingSoundfontPath);
                i = i + 1;
            }
            continue;
        }
        if is_flag(a, "--score") || is_flag(a, "--file") {
            if i + 1 < n {
                score = Some(StartupSource::Argument(i + 1));
                i = i + 2;
            } else {
                warnings.push(StartupWarning::MissingScorePath(i));
                i = i + 1;
            }
            continue;
        }
        if has_flag_prefix(a, "--soundfont=") {
            if a.unicode_len() == 12 {
                warnings.push(StartupWarning::EmptySoundfontPath);
            } else {
                soundfont = Some(StartupSource::ArgumentSuffix(i, 12));
            }
            i = i + 1;
            continue;
        }
        let score_prefix = has_flag_prefix(a, "--score=");
        if score_prefix || has_flag_prefix(a, "--file=") {
            let k: usize = if score_prefix {
                8
            } else {
                7
            };
            if a.unicode_len() == k {
                warnings.push(StartupWarning::EmptyScorePath);
            } else {
                score = Some(StartupSource::ArgumentSuffix(i, k));
            }
            i = i + 1;
            continue;
        }
        i = i + 1;
    }
    StartupScan { audio_enabled, soundfont, score, warnings }
}

/// Whether an environment value names a path: it is set, valid UTF-8 and not empty.
pub fn env_value_usable(value: &Option<String>) -> (r: bool)
    ensures
        r == (value matches Some(v) && v@.len() > 0),
{
    match value {
        Some(v) => v.unicode_len() > 0,
        None => false,
    }
}

/// The startup options: the command line's choices, with the SoundFont and the score taken
/// from the environment when the command line names none and the variable is usable.
pub fn startup_options_from_args(
    args: &Vec<Option<String>>,
    soundfont_env: &Option<String>,
    score_env: &Option<String>,
) -> (r: StartupOptions)
    ensures
        ({
            let v = spec_scan_all(args@);
            &&& r.audio_enabled == v.audio_enabled
            &&& r.warnings@ == v.warnings
            &&& r.soundfont == match v.soundfont {
                Some(s) => Some(s),
                None => if (soundfont_env matches Some(e) && e@.len() > 0) {
                    Some(StartupSource::Environment)
                } else {
                    None
                },
            }
            &&& r.score == match v.score {
                Some(s) => Some(s),
                None => if (score_env matches Some(e) && e@.len() > 0) {
                    Some(StartupSource::Environment)
                } else {
                    None
                },
            }
        }),
{
    let scan = scan_startup_arguments(args);
    let soundfont = match scan.soundfont {
        Some(s) => Some(s),
        None => if env_value_usable(soundfont_env) {
            Some(StartupSource::Environment)
        } else {
            None
        },
    };
    let score = match scan.score {
        Some(s) => Some(s),
        None => if env_value_usable(score_env) {
            Some(StartupSource::Environment)
        } else {
            None
        },
    };
    StartupOptions { audio_enabled: scan.audio_enabled, soundfont, score, warnings: scan.warnings }
}

/// What a warning says; `flag` is the score flag as given (`--score` or `--file`).
pub open spec fn spec_warning_message(warning: StartupWarning, flag: Seq<char>) -> Seq<char> {
    match warning {
        StartupWarning::MissingSoundfontPath => "Ignoring --soundfont: no path was provided"@,
        StartupWarning::MissingScorePath(_) => "Ignoring \""@ + flag + "\": no path was provided"@,
        StartupWarning::EmptySoundfontPath => "Ignoring --soundfont=: empty path"@,
        StartupWarning::EmptyScorePath => "Ignoring score startup flag: empty path"@,
    }
}

impl StartupWarning {
    /// The line reported for an ignored flag; `flag` is the text of the argument a
    /// [`StartupWarning::MissingScorePath`] points at.
    pub fn message(&self, flag: &str) -> (r: String)
        ensures
            r@ == spec_warning_message(*self, flag@),
    {
        match self {
            StartupWarning::MissingSoundfontPath => owned("Ignoring --soundfont: no path was provided"),
            StartupWarning::MissingScorePath(_) => {
                let head = concat_strs("Ignoring \"", flag);
                concat_strs(head.as_str(), "\": no path was provided")
            },
            StartupWarning::EmptySoundfontPath => owned("Ignoring --soundfont=: empty path"),
            StartupWarning::EmptyScorePath => owned("Ignoring score startup flag: empty path"),
        }
    }
}

} // verus!
