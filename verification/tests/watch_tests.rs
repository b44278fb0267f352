use lilypalooza::watch::{
    BrowserWatchAction, ScoreWatcherPoll, WatcherReport, browser_watch_action, browser_watcher_started,
    score_watcher_response, sync_browser_watcher,
};
use lilypalooza::watch::{
    EditorWatchSet, WatchEvent, WatchEventKind, WatchPlan, collect_affected_editor_tabs, is_relevant_browser_file_change,
    is_relevant_editor_file_change, is_relevant_score_change, watched_event_kind,
};

fn event(kind: WatchEventKind, paths: &[&str]) -> WatchEvent {
    WatchEvent {
        kind,
        paths: paths.iter().map(|path| path.to_string()).collect(),
    }
}

#[test]
fn only_changing_kinds_are_watched() {
    assert!(watched_event_kind(WatchEventKind::Modify));
    assert!(watched_event_kind(WatchEventKind::Any));
    assert!(!watched_event_kind(WatchEventKind::Access));
    assert!(!watched_event_kind(WatchEventKind::Other));
}

#[test]
fn score_changes_name_the_score_or_nothing() {
    assert!(is_relevant_score_change(
        &event(WatchEventKind::Modify, &["/p/song.ly"]),
        "/p/song.ly"
    ));
    assert!(is_relevant_score_change(&event(WatchEventKind::Create, &[]), "/p/song.ly"));
    assert!(!is_relevant_score_change(
        &event(WatchEventKind::Modify, &["/p/other.ly"]),
        "/p/song.ly"
    ));
    assert!(!is_relevant_score_change(
        &event(WatchEventKind::Access, &["/p/song.ly"]),
        "/p/song.ly"
    ));
}

#[test]
fn editor_file_changes_include_its_folder() {
    assert!(is_relevant_editor_file_change(
        &event(WatchEventKind::Remove, &["/p/other.ly"]),
        "/p/song.ly"
    ));
    assert!(is_relevant_editor_file_change(
        &event(WatchEventKind::Remove, &["/p"]),
        "/p/song.ly"
    ));
    assert!(!is_relevant_editor_file_change(
        &event(WatchEventKind::Modify, &["/q/song.ly"]),
        "/p/song.ly"
    ));
    assert!(!is_relevant_editor_file_change(
        &event(WatchEventKind::Modify, &[]),
        "/p/song.ly"
    ));
}

#[test]
fn browser_changes_are_below_the_root() {
    assert!(is_relevant_browser_file_change(
        &event(WatchEventKind::Create, &["/p/a/b.ly"]),
        "/p"
    ));
    assert!(is_relevant_browser_file_change(&event(WatchEventKind::Create, &[]), "/p"));
    assert!(!is_relevant_browser_file_change(
        &event(WatchEventKind::Create, &["/q/b.ly"]),
        "/p"
    ));
}

#[test]
fn affected_tabs_are_collected_once_in_order() {
    let watched = vec![
        (3, "/p/a.ly".to_string()),
        (1, "/q/b.ly".to_string()),
        (2, "/p/c.ly".to_string()),
    ];
    let mut affected = vec![2];
    collect_affected_editor_tabs(
        &mut affected,
        &watched,
        &event(WatchEventKind::Modify, &["/p/a.ly"]),
    );
    assert_eq!(affected, vec![2, 3]);
}

fn paths(items: &[&str]) -> Vec<String> {
    items.iter().map(|s| s.to_string()).collect()
}

#[test]
fn syncing_editor_watches_keeps_folders_while_a_file_remains() {
    let mut watches = EditorWatchSet::new();
    let plan = watches.sync_paths(&paths(&["/a/x.ly", "/a/y.ly"]));
    assert_eq!(plan.watch_files, paths(&["/a/x.ly", "/a/y.ly"]));
    assert_eq!(plan.watch_dirs, paths(&["/a"]));
    assert!(plan.unwatch_files.is_empty() && plan.unwatch_dirs.is_empty());

    let plan = watches.sync_paths(&paths(&["/a/y.ly", "/b/z.ly", "/b/z.ly"]));
    assert_eq!(
        plan,
        WatchPlan {
            unwatch_files: paths(&["/a/x.ly"]),
            unwatch_dirs: Vec::new(),
            watch_files: paths(&["/b/z.ly"]),
            watch_dirs: paths(&["/b"]),
        }
    );
    assert_eq!(watches.files, paths(&["/a/y.ly", "/b/z.ly"]));

    let plan = watches.sync_paths(&paths(&["/b/z.ly"]));
    assert_eq!(plan.unwatch_files, paths(&["/a/y.ly"]));
    assert_eq!(plan.unwatch_dirs, paths(&["/a"]));
    assert!(plan.watch_files.is_empty() && plan.watch_dirs.is_empty());
}

#[test]
fn draining_the_score_watcher_gathers_changes_and_errors() {
    let mut poll = ScoreWatcherPoll::new();
    assert!(poll.take_report(WatcherReport::Event(event(WatchEventKind::Access, &["/s/a.ly"])), "/s/a.ly"));
    assert!(!poll.changed);
    assert!(poll.take_report(WatcherReport::Event(event(WatchEventKind::Modify, &["/s/a.ly"])), "/s/a.ly"));
    assert!(poll.changed);
    assert!(poll.take_report(WatcherReport::Error("boom".to_string()), "/s/a.ly"));
    assert!(!poll.take_report(WatcherReport::Empty, "/s/a.ly"));
    assert!(!poll.disconnected);

    let response = score_watcher_response(&poll);
    assert_eq!(response.log_lines, vec!["[watcher:error] boom".to_string()]);
    assert!(response.recompile);
    assert!(!response.stop_watching);
    assert!(response.prompt.is_none());
}

#[test]
fn a_disconnected_score_watcher_is_dropped_with_a_prompt() {
    let mut poll = ScoreWatcherPoll::new();
    assert!(!poll.take_report(WatcherReport::Disconnected, "/s/a.ly"));
    let response = score_watcher_response(&poll);
    assert!(response.stop_watching);
    assert!(!response.recompile);
    let prompt = response.prompt.expect("prompt");
    assert_eq!(prompt.title, "File Watcher Error");
    assert_eq!(prompt.message, "Score file watcher disconnected");
}

#[test]
fn the_browser_watcher_follows_the_browser_root() {
    assert_eq!(browser_watch_action(false, Some("/w"), "/w"), BrowserWatchAction::Stop);
    assert_eq!(browser_watch_action(true, Some("/w"), "/w"), BrowserWatchAction::Keep);
    assert_eq!(browser_watch_action(true, Some("/w"), "/other"), BrowserWatchAction::Start);
    assert_eq!(browser_watch_action(true, None, "/w"), BrowserWatchAction::Start);
}

#[test]
fn the_browser_watcher_is_kept_restarted_or_dropped() {
    let mut watched = Some("/w".to_string());
    assert_eq!(sync_browser_watcher(&mut watched, true, "/w"), BrowserWatchAction::Keep);
    assert_eq!(watched, Some("/w".to_string()));

    assert_eq!(sync_browser_watcher(&mut watched, true, "/other"), BrowserWatchAction::Start);
    assert!(browser_watcher_started(&mut watched, "/other".to_string(), Ok(())).is_none());
    assert_eq!(watched, Some("/other".to_string()));

    assert_eq!(sync_browser_watcher(&mut watched, false, "/other"), BrowserWatchAction::Stop);
    assert_eq!(watched, None);

    let prompt = browser_watcher_started(&mut watched, "/x".to_string(), Err("denied".to_string()))
        .expect("prompt");
    assert_eq!(prompt.title, "File Browser Error");
    assert_eq!(prompt.message, "Failed to watch browser directory changes: denied");
    assert_eq!(watched, None);
}
