use lilypalooza::disk_state::{
    EditorTabDiskState, EditorTabFileState, TabReconcile, classify_tab_disk_state,
    disk_problem_log_line, reconcile_tab, tab_read_error_log_line,
};
use lilypalooza::prompts::{PromptButtons, PromptOkAction, PromptState};

#[test]
fn tab_files_are_classified_against_their_saved_content() {
    assert_eq!(
        classify_tab_disk_state(false, Ok("x".to_string()), Some("x"), false),
        EditorTabDiskState::Missing
    );
    assert_eq!(
        classify_tab_disk_state(true, Err("denied".to_string()), Some("x"), false),
        EditorTabDiskState::ReadError("denied".to_string())
    );
    assert_eq!(
        classify_tab_disk_state(true, Ok("x".to_string()), Some("x"), true),
        EditorTabDiskState::Unchanged
    );
    assert_eq!(
        classify_tab_disk_state(true, Ok("y".to_string()), Some("x"), true),
        EditorTabDiskState::Changed { modified: true }
    );
    assert_eq!(
        classify_tab_disk_state(true, Ok("y".to_string()), None, false),
        EditorTabDiskState::Changed { modified: false }
    );
}

#[test]
fn changed_files_reload_unless_the_tab_has_unsaved_changes() {
    assert_eq!(
        reconcile_tab(
            EditorTabDiskState::Changed { modified: false },
            EditorTabFileState::Fine
        ),
        TabReconcile::Reload
    );
    assert_eq!(
        reconcile_tab(
            EditorTabDiskState::Changed { modified: true },
            EditorTabFileState::Fine
        ),
        TabReconcile::Mark {
            state: EditorTabFileState::ChangedOnDisk,
            changed: true
        }
    );
    assert_eq!(
        reconcile_tab(EditorTabDiskState::Missing, EditorTabFileState::MissingOnDisk),
        TabReconcile::Mark {
            state: EditorTabFileState::MissingOnDisk,
            changed: false
        }
    );
    assert_eq!(
        reconcile_tab(EditorTabDiskState::Unchanged, EditorTabFileState::ChangedOnDisk),
        TabReconcile::Mark {
            state: EditorTabFileState::Fine,
            changed: true
        }
    );
    assert_eq!(
        reconcile_tab(
            EditorTabDiskState::ReadError("e".to_string()),
            EditorTabFileState::Fine
        ),
        TabReconcile::LogReadError("e".to_string())
    );
}

#[test]
fn disk_problems_are_logged() {
    assert_eq!(
        disk_problem_log_line(EditorTabFileState::MissingOnDisk, "/p/a.ly"),
        "Editor file missing on disk: /p/a.ly"
    );
    assert_eq!(
        disk_problem_log_line(EditorTabFileState::ChangedOnDisk, "/p/a.ly"),
        "Editor file changed on disk while modified: /p/a.ly"
    );
    assert_eq!(
        tab_read_error_log_line("/p/a.ly", "denied"),
        "[editor-watcher:error] Failed to read /p/a.ly: denied"
    );
}

#[test]
fn disk_problem_prompts_do_not_replace_an_open_prompt() {
    let mut prompts = PromptState::new();
    prompts.show_disk_problem_prompt(false, 4, "/p/a.ly");
    let prompt = prompts.error_prompt.clone().expect("prompt");
    assert_eq!(prompt.title, "File Changed on Disk");
    assert_eq!(
        prompt.message,
        "/p/a.ly changed on disk while this tab has unsaved changes."
    );
    assert_eq!(prompt.buttons, PromptButtons::OkCancel);
    assert_eq!(prompt.ok_label.as_deref(), Some("Reload"));
    assert_eq!(prompt.cancel_label.as_deref(), Some("Keep Editor Version"));
    assert_eq!(prompts.prompt_ok_action, Some(PromptOkAction::ReloadEditorTab(4)));

    prompts.show_disk_problem_prompt(true, 5, "/p/b.ly");
    assert_eq!(prompts.error_prompt.clone().expect("prompt").title, "File Changed on Disk");

    let mut prompts = PromptState::new();
    prompts.show_disk_problem_prompt(true, 5, "/p/b.ly");
    let prompt = prompts.error_prompt.clone().expect("prompt");
    assert_eq!(prompt.title, "File Missing on Disk");
    assert_eq!(
        prompt.message,
        "/p/b.ly was removed or moved outside Lilypalooza. The tab stays open and you can save to recreate it."
    );
    assert_eq!(prompt.ok_label.as_deref(), Some("Keep Editing"));
    assert_eq!(prompts.prompt_ok_action, None);
}
