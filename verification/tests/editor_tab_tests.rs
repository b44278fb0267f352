use lilypalooza::editor_tabs::{
    ConflictingTab, EditorTabRenameAction, EditorTabRenameState, conflicting_editor_tab,
    editor_open_outcome, editor_rename_error_prompt,
};
use lilypalooza::prompts::{EditorContinuation, PendingEditorAction, PromptState};

#[test]
fn renaming_an_untitled_tab_offers_untitled_ly() {
    let mut state = EditorTabRenameState::new();
    state.start(4, false, "Untitled", "ignored.ly".to_string());
    assert_eq!(state.value, "untitled.ly");
    assert_eq!(state.renaming_tab, Some(4));
    state.start(5, true, "Untitled", "song.ly".to_string());
    assert_eq!(state.value, "song.ly");
}

#[test]
fn committing_renames_within_the_folder() {
    let mut state = EditorTabRenameState::new();
    state.start(1, true, "a.ly", "a.ly".to_string());
    state.update_value(" b.ly ".to_string(), false);
    let action = state.commit(Some("/p/a.ly".to_string()));
    assert_eq!(
        action,
        EditorTabRenameAction::RenameTo {
            tab_id: 1,
            path: "/p/b.ly".to_string()
        }
    );
    assert!(state.renaming_tab.is_none());
    assert!(state.value.is_empty());
}

#[test]
fn committing_the_same_name_only_closes_the_field() {
    let mut state = EditorTabRenameState::new();
    state.start(1, true, "a.ly", "a.ly".to_string());
    assert_eq!(
        state.commit(Some("/p/a.ly".to_string())),
        EditorTabRenameAction::Closed
    );
}

#[test]
fn committing_nothing_usable_keeps_the_field_open() {
    let mut state = EditorTabRenameState::new();
    assert_eq!(state.commit(None), EditorTabRenameAction::Nothing);
    state.start(1, true, "a.ly", "a.ly".to_string());
    state.update_value("   ".to_string(), false);
    assert_eq!(state.commit(None), EditorTabRenameAction::Nothing);
    assert_eq!(state.renaming_tab, Some(1));
}

#[test]
fn tabs_without_a_file_ask_where_to_save() {
    let mut state = EditorTabRenameState::new();
    state.start(7, false, "Untitled", String::new());
    let action = state.commit(None);
    assert_eq!(
        action,
        EditorTabRenameAction::PickSaveLocation {
            tab_id: 7,
            file_name: "untitled.ly".to_string()
        }
    );
    assert_eq!(state.pending_picked_tab, Some(7));
    assert_eq!(
        state.finish_pick(Some("/x/y.ly".to_string())),
        Some((7, "/x/y.ly".to_string()))
    );
    assert_eq!(state.pending_picked_tab, None);
    assert_eq!(state.finish_pick(Some("/x/z.ly".to_string())), None);
}

#[test]
fn typing_with_a_modifier_is_ignored() {
    let mut state = EditorTabRenameState::new();
    state.start(1, true, "a.ly", "a.ly".to_string());
    state.update_value("b.ly".to_string(), true);
    assert_eq!(state.value, "a.ly");
    state.cancel();
    assert!(state.renaming_tab.is_none());
}

#[test]
fn a_modified_tab_at_the_target_refuses_the_rename() {
    assert_eq!(
        conflicting_editor_tab(1, "/p/b.ly", Some(2), true),
        ConflictingTab::Refuse(
            "The target file /p/b.ly is already open and modified in another tab.".to_string()
        )
    );
    assert_eq!(
        conflicting_editor_tab(1, "/p/b.ly", Some(2), false),
        ConflictingTab::Close(2)
    );
    assert_eq!(
        conflicting_editor_tab(1, "/p/b.ly", Some(1), true),
        ConflictingTab::NoConflict
    );
    assert_eq!(
        conflicting_editor_tab(1, "/p/b.ly", None, true),
        ConflictingTab::NoConflict
    );
    assert_eq!(editor_rename_error_prompt("x".to_string()).title, "Editor Rename Error");
}

#[test]
fn closing_a_dirty_tab_waits_for_the_prompt() {
    let mut prompts = PromptState::new();
    assert!(prompts.request_close_editor_tab(3, false, false, "a.ly"));
    assert!(prompts.error_prompt.is_none());
    assert!(!prompts.request_close_editor_tab(3, true, false, "a.ly"));
    assert!(prompts.error_prompt.is_some());
    assert_eq!(
        prompts.pending_editor_action,
        Some(PendingEditorAction::ResolveDirtyTabs {
            dirty_tab_ids: vec![3],
            continuation: EditorContinuation::CloseTab(3)
        })
    );
}

#[test]
fn opening_an_editor_file_logs_or_prompts() {
    let (line, prompt) = editor_open_outcome("/s/a.ly", Ok(false));
    assert_eq!(line, Some("Opened editor file /s/a.ly".to_string()));
    assert!(prompt.is_none());
    let (line, _) = editor_open_outcome("/s/a.ly", Ok(true));
    assert_eq!(line, Some("Activated editor file /s/a.ly".to_string()));
    let (line, prompt) = editor_open_outcome("/s/a.ly", Err("missing".to_string()));
    assert!(line.is_none());
    let prompt = prompt.expect("prompt");
    assert_eq!(prompt.title, "Editor Open Error");
    assert_eq!(prompt.message, "missing");
}
