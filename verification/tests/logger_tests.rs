use lilypalooza::dock::{DockGroup, DockGroupEntry, DockNode};
use lilypalooza::logger::{Logger, MAX_LOG_LINES, request_clear_logs};
use lilypalooza::prompts::{PromptOkAction, PromptSelectedButton, PromptState};
use lilypalooza::shortcuts::WorkspacePaneKind;
use lilypalooza::workspace::Workspace;

#[test]
fn log_joins_lines_and_reports_the_last() {
    let mut log = Logger::new();
    assert!(log.is_empty());
    assert_eq!(log.last_line(), None);
    assert_eq!(log.text(), "");

    log.push("Opened score file /s/a.ly".to_string());
    log.extend(vec!["[lilypond:stdout] ok".to_string(), "done".to_string()]);
    assert!(!log.is_empty());
    assert_eq!(log.last_line(), Some("done"));
    assert_eq!(log.text(), "Opened score file /s/a.ly\n[lilypond:stdout] ok\ndone");

    log.clear();
    assert!(log.is_empty());
    assert_eq!(log.text(), "");
}

#[test]
fn log_keeps_only_the_latest_lines() {
    let mut log = Logger::new();
    for i in 0..MAX_LOG_LINES + 5 {
        log.push(format!("line {i}"));
    }
    let text = log.text();
    let lines: Vec<&str> = text.split('\n').collect();
    assert_eq!(lines.len(), MAX_LOG_LINES);
    assert_eq!(lines.first(), Some(&"line 5"));
    assert_eq!(log.last_line(), Some(format!("line {}", MAX_LOG_LINES + 4).as_str()));

    let mut batch = Logger::new();
    batch.extend((0..MAX_LOG_LINES + 5).map(|i| format!("line {i}")).collect());
    assert_eq!(batch.text(), text);
}

fn logger_workspace() -> Workspace {
    let groups = vec![
        DockGroupEntry {
            id: 1,
            group: DockGroup { tabs: vec![WorkspacePaneKind::Editor], active: WorkspacePaneKind::Editor },
        },
        DockGroupEntry {
            id: 2,
            group: DockGroup { tabs: vec![WorkspacePaneKind::Logger], active: WorkspacePaneKind::Logger },
        },
    ];
    Workspace::from_parts(Some(DockNode::Group(1)), groups, 3, Vec::new()).expect("well formed")
}

#[test]
fn clearing_a_non_empty_log_asks_first() {
    let mut workspace = logger_workspace();
    let mut prompts = PromptState::new();
    let mut log = Logger::new();
    log.push("line".to_string());
    request_clear_logs(&mut workspace, &log, &mut prompts);
    assert_eq!(workspace.focused_workspace_pane, Some(WorkspacePaneKind::Logger));
    let prompt = prompts.error_prompt.clone().expect("prompt");
    assert_eq!(prompt.title, "Clear Logger");
    assert_eq!(prompt.message, "Do you want to clear all log messages?");
    assert_eq!(prompts.prompt_ok_action, Some(PromptOkAction::ClearLogs));
    assert_eq!(prompts.prompt_selected_button, PromptSelectedButton::Okay);
}

#[test]
fn clearing_an_empty_log_asks_nothing() {
    let mut workspace = logger_workspace();
    let mut prompts = PromptState::new();
    let log = Logger::new();
    request_clear_logs(&mut workspace, &log, &mut prompts);
    assert_eq!(workspace.focused_workspace_pane, Some(WorkspacePaneKind::Logger));
    assert!(prompts.error_prompt.is_none());
    assert!(prompts.prompt_ok_action.is_none());
}
