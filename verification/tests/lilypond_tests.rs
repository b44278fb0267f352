use lilypalooza::lilypond::{LilypondStatus, VersionCheck, startup_check_outcome};
use lilypalooza::prompts::{ErrorFatality, PromptOkAction};
use lilypalooza::lilypond::{
    CompileEvent, CompileLogDrain, LilypondError, LogStream, Version, VersionCommandOutput,
    PollOutcome, SpawnFailure, apply_compile_event, apply_poll_outcome, check_lilypond, check_lilypond_with_min_version, compile_log_prefix,
    finished_compile_log_line, lilypond_compile_args, parse_version, parse_version_token,
};

#[test]
fn parses_version_from_lilypond_output() {
    let output = "GNU LilyPond 2.24.3 (running Guile 2.2)";
    let version = parse_version(output);
    assert_eq!(version, Some(Version::new(2, 24, 3)));
}

#[test]
fn parses_version_with_trailing_punctuation() {
    let output = "GNU LilyPond 2.25.1, some extra text";
    let version = parse_version(output);
    assert_eq!(version, Some(Version::new(2, 25, 1)));
}

#[test]
fn version_ordering_works() {
    assert!(Version::new(2, 24, 0) > Version::new(2, 23, 82));
}

#[test]
fn lilypond_compile_args_keep_interactive_svg_output() {
    let args = lilypond_compile_args("/tmp/out");

    assert_eq!(args[0], "--svg");
    assert!(!args.iter().any(|arg| arg == "-dbackend=cairo"));
    assert!(args.iter().any(|arg| arg == "-dmidi-extension=midi"));
    assert!(args.iter().any(|arg| arg == "-dpoint-and-click=note-event"));
    assert_eq!(args[args.len() - 2], "-o");
    assert_eq!(args[args.len() - 1], "/tmp/out");
}

#[test]
fn version_is_before_matches_derived_order() {
    let pairs = [
        (Version::new(2, 24, 0), Version::new(2, 23, 82)),
        (Version::new(1, 99, 99), Version::new(2, 0, 0)),
        (Version::new(2, 24, 1), Version::new(2, 24, 1)),
        (Version::new(2, 24, 1), Version::new(2, 24, 2)),
    ];
    for (a, b) in pairs {
        assert_eq!(a.is_before(&b), a < b);
    }
}

#[test]
fn version_token_patch_defaults_to_zero() {
    let token: Vec<char> = "v2.22".chars().collect();
    assert_eq!(parse_version_token(&token), Some(Version::new(2, 22, 0)));
    let token: Vec<char> = "2.22.x".chars().collect();
    assert_eq!(parse_version_token(&token), Some(Version::new(2, 22, 0)));
}

#[test]
fn version_token_without_minor_is_rejected() {
    let token: Vec<char> = "2".chars().collect();
    assert_eq!(parse_version_token(&token), None);
    let token: Vec<char> = "Guile".chars().collect();
    assert_eq!(parse_version_token(&token), None);
    let token: Vec<char> = "99999.1".chars().collect();
    assert_eq!(parse_version_token(&token), None);
}

#[test]
fn parse_version_skips_unreadable_words() {
    assert_eq!(parse_version("no version here"), None);
    assert_eq!(parse_version("lilypond\t  2.23.82\n"), Some(Version::new(2, 23, 82)));
}

fn output(success: bool, stdout: &str, stderr: &str) -> VersionCommandOutput {
    VersionCommandOutput {
        success,
        stdout: stdout.as_bytes().to_vec(),
        stderr: stderr.as_bytes().to_vec(),
    }
}

#[test]
fn check_accepts_new_enough_version() {
    let check = check_lilypond(Ok(output(true, "GNU LilyPond 2.24.3", ""))).unwrap();
    assert_eq!(check.detected, Version::new(2, 24, 3));
    assert_eq!(check.min_required, Version::new(2, 24, 0));
}

#[test]
fn check_rejects_old_version() {
    match check_lilypond(Ok(output(true, "GNU LilyPond 2.22.1", ""))) {
        Err(LilypondError::VersionTooOld {
            detected,
            min_required,
        }) => {
            assert_eq!(detected, Version::new(2, 22, 1));
            assert_eq!(min_required, Version::new(2, 24, 0));
        }
        other => panic!("unexpected {other:?}"),
    }
}

#[test]
fn check_reports_failed_command_and_unparsable_output() {
    match check_lilypond_with_min_version(
        Ok(output(false, "", "boom")),
        Version::new(2, 0, 0),
    ) {
        Err(LilypondError::CommandFailed { context, details }) => {
            assert_eq!(context, "lilypond --version");
            assert_eq!(details, "boom");
        }
        other => panic!("unexpected {other:?}"),
    }
    match check_lilypond(Ok(output(true, "hello", "world"))) {
        Err(LilypondError::VersionParseFailed { raw_output }) => {
            assert_eq!(raw_output, "hello\nworld");
        }
        other => panic!("unexpected {other:?}"),
    }
}

#[test]
fn check_maps_missing_binary() {
    let missing = SpawnFailure {
        error: std::io::Error::new(std::io::ErrorKind::NotFound, "nope"),
        not_found: true,
    };
    assert!(matches!(
        check_lilypond(Err(missing)),
        Err(LilypondError::BinaryNotFound { bin: "lilypond" })
    ));
    let denied = SpawnFailure {
        error: std::io::Error::new(std::io::ErrorKind::PermissionDenied, "nope"),
        not_found: false,
    };
    assert!(matches!(check_lilypond(Err(denied)), Err(LilypondError::Io(_))));
}

#[test]
fn compile_log_lines_are_tagged() {
    assert_eq!(compile_log_prefix(LogStream::Stderr), "lilypond:stderr");
    let mut drain = CompileLogDrain {
        lines: Vec::new(),
        finished_successfully: false,
        keep_session: true,
    };
    apply_compile_event(
        &mut drain,
        CompileEvent::Log {
            stream: LogStream::Stdout,
            line: "Processing".to_string(),
        },
    );
    apply_compile_event(&mut drain, CompileEvent::ProcessError("pipe".to_string()));
    assert!(drain.keep_session);
    apply_compile_event(
        &mut drain,
        CompileEvent::Finished {
            success: true,
            exit_code: Some(0),
        },
    );
    assert_eq!(
        drain.lines,
        vec![
            "[lilypond:stdout] Processing".to_string(),
            "[lilypond:process-error] pipe".to_string(),
            "LilyPond compile finished successfully (exit code 0)".to_string(),
        ]
    );
    assert!(drain.finished_successfully);
    assert!(!drain.keep_session);
}

#[test]
fn finished_line_formats_exit_codes() {
    assert_eq!(
        finished_compile_log_line(false, Some(-3)),
        "LilyPond compile failed (exit code Some(-3))"
    );
    assert_eq!(
        finished_compile_log_line(false, None),
        "LilyPond compile failed (exit code None)"
    );
    assert_eq!(
        finished_compile_log_line(true, None),
        "LilyPond compile finished successfully (exit code 0)"
    );
}

#[test]
fn versions_and_errors_read_as_text() {
    assert_eq!(Version::new(2, 24, 3).text(), "2.24.3");
    let error = LilypondError::VersionTooOld {
        detected: Version::new(2, 22, 1),
        min_required: Version::new(2, 24, 0),
    };
    assert_eq!(
        error.message(),
        "LilyPond version 2.22.1 is below minimum required version 2.24.0"
    );
    assert_eq!(
        LilypondError::BinaryNotFound { bin: "lilypond" }.message(),
        "binary not found in PATH: lilypond"
    );
    assert_eq!(
        LilypondError::CommandFailed {
            context: "lilypond --version",
            details: "boom".to_string()
        }
        .message(),
        "lilypond --version failed: boom"
    );
    assert_eq!(
        LilypondError::VersionParseFailed {
            raw_output: "??".to_string()
        }
        .message(),
        "failed to parse LilyPond version from output: ??"
    );
}

#[test]
fn the_startup_check_sets_the_status_and_reports_failures() {
    let check = VersionCheck {
        detected: Version::new(2, 24, 4),
        min_required: Version::new(2, 24, 0),
    };
    let (status, line, prompt) = startup_check_outcome(Ok(check));
    assert_eq!(
        status,
        LilypondStatus::Ready {
            detected: Version::new(2, 24, 4)
        }
    );
    assert_eq!(line, "LilyPond ready: installed 2.24.4, minimum required 2.24.0");
    assert!(prompt.is_none());

    let (status, line, prompt) = startup_check_outcome(Err("missing".to_string()));
    assert_eq!(status, LilypondStatus::Unavailable);
    assert_eq!(line, "LilyPond startup check failed: missing");
    let (prompt, action) = prompt.expect("prompt");
    assert_eq!(prompt.title, "LilyPond Startup Error");
    assert_eq!(prompt.message, "missing");
    assert_eq!(prompt.fatality, ErrorFatality::Critical);
    assert_eq!(action, PromptOkAction::ExitApp);
}

#[test]
fn poll_outcomes_add_lines_or_stop_the_drain() {
    let mut drain = CompileLogDrain {
        lines: Vec::new(),
        finished_successfully: false,
        keep_session: true,
    };
    assert!(apply_poll_outcome(
        &mut drain,
        PollOutcome::Event(CompileEvent::Log {
            stream: LogStream::Stdout,
            line: "Processing".to_string()
        })
    ));
    assert_eq!(drain.lines, vec!["[lilypond:stdout] Processing".to_string()]);
    assert!(!apply_poll_outcome(&mut drain, PollOutcome::Empty));
    assert!(drain.keep_session);
    assert!(!apply_poll_outcome(&mut drain, PollOutcome::Disconnected));
    assert!(!drain.keep_session);
    assert_eq!(drain.lines.len(), 1);
    assert!(!drain.finished_successfully);
}
