use lilypalooza::keys::{KeyName, KeyPress};
use lilypalooza::prompts::{
    EditorContinuation, ErrorFatality, ErrorPrompt, PendingEditorAction, PendingSave,
    PendingStep, PromptButtons, PromptKeyOutcome, PromptMessage, PromptOkAction,
    PromptResponse, PromptSelectedButton, PromptState, PromptTone, clear_logs_prompt,
    dirty_tab_prompt, prompt_buttons,
};

fn key(key: KeyName, shift: bool) -> KeyPress {
    KeyPress {
        key,
        captured: false,
        shift,
        control: false,
        command: false,
    }
}

fn prompt(buttons: PromptButtons) -> ErrorPrompt {
    ErrorPrompt::new(
        "Title".to_string(),
        "Message".to_string(),
        ErrorFatality::Recoverable,
        buttons,
    )
}

#[test]
fn prompt_buttons_are_listed_in_keyboard_order() {
    assert_eq!(prompt_buttons(PromptButtons::OkOnly), vec![PromptSelectedButton::Okay]);
    assert_eq!(
        prompt_buttons(PromptButtons::SaveDiscardCancel),
        vec![
            PromptSelectedButton::Cancel,
            PromptSelectedButton::Discard,
            PromptSelectedButton::Okay
        ]
    );
}

#[test]
fn new_prompt_takes_tone_from_fatality_and_default_labels() {
    let critical = ErrorPrompt::new(
        "Crash".to_string(),
        "Boom".to_string(),
        ErrorFatality::Critical,
        PromptButtons::OkOnly,
    );
    assert_eq!(critical.tone, PromptTone::Error);
    assert_eq!(critical.ok_button_label(), "OK");
    let save = prompt(PromptButtons::SaveDiscardCancel).with_cancel_label("Back".to_string());
    assert_eq!(save.tone, PromptTone::Warning);
    assert_eq!(save.ok_button_label(), "Save");
    assert_eq!(save.discard_button_label(), "Discard");
    assert_eq!(save.cancel_button_label(), "Back");
    assert_eq!(save.title(), "Title");
}

#[test]
fn tab_cycles_forward_and_shift_tab_back() {
    let mut state = PromptState::new();
    state.show_prompt(prompt(PromptButtons::SaveDiscardCancel), None);
    assert_eq!(state.prompt_selected_button, PromptSelectedButton::Okay);

    assert_eq!(
        state.handle_prompt_key_pressed(key(KeyName::Tab, false)),
        PromptKeyOutcome::Handled
    );
    assert_eq!(state.prompt_selected_button, PromptSelectedButton::Cancel);
    state.handle_prompt_key_pressed(key(KeyName::ArrowRight, false));
    assert_eq!(state.prompt_selected_button, PromptSelectedButton::Discard);
    state.handle_prompt_key_pressed(key(KeyName::Tab, true));
    assert_eq!(state.prompt_selected_button, PromptSelectedButton::Cancel);
    state.handle_prompt_key_pressed(key(KeyName::ArrowLeft, false));
    assert_eq!(state.prompt_selected_button, PromptSelectedButton::Okay);
}

#[test]
fn cycling_once_per_button_returns_to_start() {
    let mut state = PromptState::new();
    state.show_prompt(prompt(PromptButtons::OkCancel), None);
    state.cycle_prompt_selection(1);
    state.cycle_prompt_selection(1);
    assert_eq!(state.prompt_selected_button, PromptSelectedButton::Okay);
}

#[test]
fn enter_sends_selected_button_and_escape_cancels_only_with_cancel_button() {
    let mut state = PromptState::new();
    state.show_prompt(prompt(PromptButtons::OkOnly), None);
    assert_eq!(
        state.handle_prompt_key_pressed(key(KeyName::Enter, false)),
        PromptKeyOutcome::Send(PromptMessage::Acknowledge)
    );
    assert_eq!(
        state.handle_prompt_key_pressed(key(KeyName::Escape, false)),
        PromptKeyOutcome::Handled
    );
    state.show_prompt(prompt(PromptButtons::OkCancel), None);
    assert_eq!(
        state.handle_prompt_key_pressed(key(KeyName::Escape, false)),
        PromptKeyOutcome::Send(PromptMessage::Cancel)
    );
    assert!(state.prompt_has_button(PromptSelectedButton::Cancel));
    assert!(!state.prompt_has_button(PromptSelectedButton::Discard));
}

#[test]
fn acknowledging_runs_ok_action_once() {
    let mut state = PromptState::new();
    state.show_prompt(clear_logs_prompt(), Some(PromptOkAction::ClearLogs));
    assert_eq!(
        state.handle_prompt_message(PromptMessage::Acknowledge),
        PromptResponse::RunOkAction(Some(PromptOkAction::ClearLogs))
    );
    assert!(state.error_prompt.is_none());
    assert_eq!(
        state.handle_prompt_message(PromptMessage::Acknowledge),
        PromptResponse::RunOkAction(None)
    );
}

#[test]
fn cancel_closes_prompt_and_forgets_action() {
    let mut state = PromptState::new();
    state.show_prompt(
        prompt(PromptButtons::OkCancel),
        Some(PromptOkAction::DeleteBrowserPath("/tmp/a".to_string())),
    );
    assert_eq!(
        state.handle_prompt_message(PromptMessage::Cancel),
        PromptResponse::Done
    );
    assert!(state.error_prompt.is_none());
    assert!(state.prompt_ok_action.is_none());
}

#[test]
fn dirty_tabs_are_resolved_one_prompt_at_a_time() {
    let mut state = PromptState::new();
    assert_eq!(
        state.begin_pending_editor_action(Vec::new(), EditorContinuation::ExitApp),
        PendingStep::Continue(EditorContinuation::ExitApp)
    );
    assert_eq!(
        state.begin_pending_editor_action(vec![4, 7], EditorContinuation::CloseTab(4)),
        PendingStep::ShowPrompt
    );
    state.show_current_pending_editor_prompt("notes.ly", false);
    let shown = state.error_prompt.clone().expect("prompt");
    assert_eq!(shown.title, "Close notes.ly?");
    assert_eq!(shown.message, "Save changes to notes.ly before continuing?");

    assert_eq!(
        state.handle_prompt_message(PromptMessage::Acknowledge),
        PromptResponse::SavePending
    );
    assert_eq!(state.handle_pending_prompt_save(), PendingSave::Tab(Some(4)));
    assert_eq!(state.advance_pending_editor_action(), PendingStep::ShowPrompt);
    assert_eq!(state.first_pending_dirty_tab(), Some(7));
    assert_eq!(
        state.handle_pending_prompt_discard(),
        PendingStep::Continue(EditorContinuation::CloseTab(4))
    );
    assert!(state.pending_editor_action.is_none());
}

#[test]
fn missing_tab_prompt_offers_to_recreate_file() {
    let prompt = dirty_tab_prompt("score.ly", true);
    assert_eq!(prompt.title, "Save score.ly?");
    assert_eq!(
        prompt.message,
        "score.ly is missing on disk. Save it before continuing to recreate the file?"
    );
    assert_eq!(prompt.discard_label.as_deref(), Some("Close Without Saving"));
}

#[test]
fn dirty_project_discard_continues_without_asking_again() {
    let mut state = PromptState::new();
    assert_eq!(
        state.begin_pending_project_action(true, EditorContinuation::OpenScore("a.ly".to_string())),
        PendingStep::ShowPrompt
    );
    state.show_current_pending_editor_prompt("", false);
    assert_eq!(
        state.error_prompt.as_ref().map(|p| p.title.clone()),
        Some("Save project changes?".to_string())
    );
    assert_eq!(
        state.handle_pending_prompt_discard(),
        PendingStep::ContinueWithoutProjectCheck(EditorContinuation::OpenScore(
            "a.ly".to_string()
        ))
    );
    assert_eq!(
        state.begin_pending_project_action(false, EditorContinuation::ExitApp),
        PendingStep::Continue(EditorContinuation::ExitApp)
    );
}

#[test]
fn cancelling_pending_prompt_abandons_action() {
    let mut state = PromptState::new();
    state.pending_editor_action = Some(PendingEditorAction::ResolveDirtyProject {
        continuation: EditorContinuation::ExitApp,
    });
    state.pending_editor_save_as_tab = Some(3);
    assert_eq!(
        state.handle_prompt_message(PromptMessage::Cancel),
        PromptResponse::Done
    );
    assert!(state.pending_editor_action.is_none());
    assert!(state.pending_editor_save_as_tab.is_none());
}
