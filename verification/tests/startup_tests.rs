use lilypalooza::startup::{
    StartupSource, StartupWarning, env_value_usable, scan_startup_arguments,
    startup_options_from_args,
};

fn args(items: &[&str]) -> Vec<Option<String>> {
    items.iter().map(|item| Some(item.to_string())).collect()
}

#[test]
fn parses_no_audio_flag() {
    let startup = startup_options_from_args(&args(&["--no-audio"]), &None, &None);
    assert!(!startup.audio_enabled);
}

#[test]
fn audio_is_enabled_without_the_flag() {
    let startup = startup_options_from_args(&args(&[]), &None, &None);
    assert!(startup.audio_enabled);
    assert_eq!(startup.soundfont, None);
    assert_eq!(startup.score, None);
    assert!(startup.warnings.is_empty());
}

#[test]
fn soundfont_and_score_flags_take_the_next_argument() {
    let scan = scan_startup_arguments(&args(&[
        "--soundfont",
        "piano.sf2",
        "--score",
        "song.ly",
    ]));
    assert_eq!(scan.soundfont, Some(StartupSource::Argument(1)));
    assert_eq!(scan.score, Some(StartupSource::Argument(3)));
    assert!(scan.audio_enabled);
}

#[test]
fn file_flag_is_an_alias_for_score() {
    let scan = scan_startup_arguments(&args(&["--file", "song.ly"]));
    assert_eq!(scan.score, Some(StartupSource::Argument(1)));
}

#[test]
fn prefixed_flags_take_the_rest_of_the_argument() {
    let scan = scan_startup_arguments(&args(&["--soundfont=a.sf2", "--score=b.ly"]));
    assert_eq!(scan.soundfont, Some(StartupSource::ArgumentSuffix(0, 12)));
    assert_eq!(scan.score, Some(StartupSource::ArgumentSuffix(1, 8)));
    let scan = scan_startup_arguments(&args(&["--file=c.ly"]));
    assert_eq!(scan.score, Some(StartupSource::ArgumentSuffix(0, 7)));
}

#[test]
fn later_flags_override_earlier_ones() {
    let scan = scan_startup_arguments(&args(&["--score", "a.ly", "--file=b.ly"]));
    assert_eq!(scan.score, Some(StartupSource::ArgumentSuffix(2, 7)));
}

#[test]
fn flags_without_a_path_are_ignored_with_a_warning() {
    let scan = scan_startup_arguments(&args(&["--soundfont="]));
    assert_eq!(scan.soundfont, None);
    assert_eq!(scan.warnings, vec![StartupWarning::EmptySoundfontPath]);

    let scan = scan_startup_arguments(&args(&["--score="]));
    assert_eq!(scan.score, None);
    assert_eq!(scan.warnings, vec![StartupWarning::EmptyScorePath]);

    let scan = scan_startup_arguments(&args(&["--no-audio", "--score"]));
    assert_eq!(scan.score, None);
    assert!(!scan.audio_enabled);
    assert_eq!(scan.warnings, vec![StartupWarning::MissingScorePath(1)]);

    let scan = scan_startup_arguments(&args(&["--soundfont"]));
    assert_eq!(scan.warnings, vec![StartupWarning::MissingSoundfontPath]);
}

#[test]
fn unknown_and_non_utf8_arguments_are_skipped() {
    let mut list = args(&["--verbose"]);
    list.push(None);
    list.push(Some("--no-audio".to_string()));
    let scan = scan_startup_arguments(&list);
    assert!(!scan.audio_enabled);
    assert_eq!(scan.soundfont, None);
    assert!(scan.warnings.is_empty());
}

#[test]
fn environment_is_used_only_when_the_command_line_names_nothing() {
    let env = Some("env.sf2".to_string());
    let startup = startup_options_from_args(&args(&[]), &env, &Some("env.ly".to_string()));
    assert_eq!(startup.soundfont, Some(StartupSource::Environment));
    assert_eq!(startup.score, Some(StartupSource::Environment));

    let startup = startup_options_from_args(&args(&["--soundfont", "cli.sf2"]), &env, &None);
    assert_eq!(startup.soundfont, Some(StartupSource::Argument(1)));
    assert_eq!(startup.score, None);

    let startup = startup_options_from_args(&args(&[]), &Some(String::new()), &None);
    assert_eq!(startup.soundfont, None);
}

#[test]
fn empty_or_missing_environment_values_are_unusable() {
    assert!(!env_value_usable(&None));
    assert!(!env_value_usable(&Some(String::new())));
    assert!(env_value_usable(&Some("x".to_string())));
}

#[test]
fn ignored_flags_are_reported() {
    let scan = scan_startup_arguments(&args(&["--soundfont=", "--file"]));
    assert_eq!(
        scan.warnings,
        vec![StartupWarning::EmptySoundfontPath, StartupWarning::MissingScorePath(1)]
    );
    assert_eq!(
        StartupWarning::MissingScorePath(1).message("--file"),
        "Ignoring \"--file\": no path was provided"
    );
    assert_eq!(
        StartupWarning::MissingSoundfontPath.message(""),
        "Ignoring --soundfont: no path was provided"
    );
    assert_eq!(
        StartupWarning::EmptySoundfontPath.message(""),
        "Ignoring --soundfont=: empty path"
    );
    assert_eq!(
        StartupWarning::EmptyScorePath.message(""),
        "Ignoring score startup flag: empty path"
    );
}
