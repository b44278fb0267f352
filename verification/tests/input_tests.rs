use lilypalooza::shortcuts::ShortcutAction;
use lilypalooza::keys::{KeyOutcome, ShortcutResolutions, route_key_press};
use lilypalooza::keys::{
    FileBrowserNavigation, KeyName, KeyPress, ModalKeyContext, ModalKeyRoute, PreCaptureLookup,
    ShortcutsDialogKey, editor_escape_closes_popups, handle_file_browser_navigation_key,
    handle_modal_key_pressed, pre_capture_lookup,
};
use lilypalooza::mixer::MixerMessageKind;
use lilypalooza::routing::{
    AppMessageKind, EditorMessageKind, EditorRoute, EditorWidgetEventKind, PianoRollMessageKind,
    ViewerMessageKind, route_editor_message, should_commit_track_rename_before_message,
    widget_message_focuses_editor,
};
use lilypalooza::shortcuts::WorkspacePaneKind;

fn key(key: KeyName) -> KeyPress {
    KeyPress {
        key,
        captured: false,
        shift: false,
        control: false,
        command: false,
    }
}

fn quiet() -> ModalKeyContext {
    ModalKeyContext {
        prompt_open: false,
        shortcuts_dialog_open: false,
        renaming_editor_tab: false,
        browser_inline_edit_open: false,
        editor_file_browser_focused: false,
        track_rename_open: false,
        track_color_picker_open: false,
        renaming_origin: None,
        metronome_menu_open: false,
        processor_browser_open: false,
        focused_pane: None,
    }
}

#[test]
fn an_open_prompt_takes_every_key() {
    let ctx = ModalKeyContext {
        prompt_open: true,
        shortcuts_dialog_open: true,
        ..quiet()
    };
    assert_eq!(
        handle_modal_key_pressed(&ctx, &key(KeyName::Other)),
        Some(ModalKeyRoute::Prompt)
    );
}

#[test]
fn the_shortcut_palette_maps_its_keys() {
    let ctx = ModalKeyContext {
        shortcuts_dialog_open: true,
        ..quiet()
    };
    assert_eq!(
        handle_modal_key_pressed(&ctx, &key(KeyName::Escape)),
        Some(ModalKeyRoute::ShortcutsDialog(Some(ShortcutsDialogKey::CloseDialog)))
    );
    assert_eq!(
        handle_modal_key_pressed(&ctx, &key(KeyName::ArrowDown)),
        Some(ModalKeyRoute::ShortcutsDialog(Some(ShortcutsDialogKey::SelectNext)))
    );
}

#[test]
fn inline_edits_cancel_on_escape_and_commit_on_enter() {
    let ctx = ModalKeyContext {
        browser_inline_edit_open: true,
        ..quiet()
    };
    assert_eq!(
        handle_modal_key_pressed(&ctx, &key(KeyName::Escape)),
        Some(ModalKeyRoute::CancelBrowserInlineEdit)
    );
    assert_eq!(
        handle_modal_key_pressed(&ctx, &key(KeyName::Enter)),
        Some(ModalKeyRoute::CommitBrowserInlineEdit)
    );
    let tab = ModalKeyContext {
        renaming_editor_tab: true,
        ..quiet()
    };
    assert_eq!(
        handle_modal_key_pressed(&tab, &key(KeyName::Escape)),
        Some(ModalKeyRoute::CancelEditorTabRename)
    );
}

#[test]
fn escape_cancels_a_track_rename_in_its_pane_first() {
    let ctx = ModalKeyContext {
        track_rename_open: true,
        renaming_origin: Some(WorkspacePaneKind::Mixer),
        metronome_menu_open: true,
        ..quiet()
    };
    assert_eq!(
        handle_modal_key_pressed(&ctx, &key(KeyName::Escape)),
        Some(ModalKeyRoute::CancelMixerTrackRename)
    );
    let menu = ModalKeyContext {
        metronome_menu_open: true,
        processor_browser_open: true,
        ..quiet()
    };
    assert_eq!(
        handle_modal_key_pressed(&menu, &key(KeyName::Escape)),
        Some(ModalKeyRoute::CloseMetronomeMenu)
    );
}

#[test]
fn escape_in_the_editor_closes_its_popups() {
    let ctx = ModalKeyContext {
        focused_pane: Some(WorkspacePaneKind::Editor),
        ..quiet()
    };
    assert_eq!(
        handle_modal_key_pressed(&ctx, &key(KeyName::Escape)),
        Some(ModalKeyRoute::CloseEditorPopups)
    );
    assert_eq!(handle_modal_key_pressed(&quiet(), &key(KeyName::Escape)), None);
    assert!(!editor_escape_closes_popups(
        Some(WorkspacePaneKind::Score),
        &key(KeyName::Escape)
    ));
}

#[test]
fn arrow_keys_move_in_a_focused_browser() {
    assert_eq!(
        handle_file_browser_navigation_key(true, KeyName::ArrowUp),
        Some(FileBrowserNavigation::Row(-1))
    );
    assert_eq!(
        handle_file_browser_navigation_key(true, KeyName::ArrowRight),
        Some(FileBrowserNavigation::Column(true))
    );
    assert_eq!(handle_file_browser_navigation_key(false, KeyName::ArrowUp), None);
    assert_eq!(handle_file_browser_navigation_key(true, KeyName::Enter), None);
}

#[test]
fn pre_capture_shortcuts_need_a_modifier_outside_the_editor() {
    assert_eq!(
        pre_capture_lookup(WorkspacePaneKind::Editor, &key(KeyName::Other)),
        PreCaptureLookup::EditorBrowserThenContextual
    );
    assert_eq!(
        pre_capture_lookup(WorkspacePaneKind::Score, &key(KeyName::Other)),
        PreCaptureLookup::Nothing
    );
    let mut with_control = key(KeyName::Other);
    with_control.control = true;
    assert_eq!(
        pre_capture_lookup(WorkspacePaneKind::Score, &with_control),
        PreCaptureLookup::Contextual
    );
}

#[test]
fn editor_messages_reach_one_handler() {
    assert_eq!(route_editor_message(EditorMessageKind::Widget), EditorRoute::Widget);
    assert_eq!(route_editor_message(EditorMessageKind::TabPressed), EditorRoute::Tab);
    assert_eq!(route_editor_message(EditorMessageKind::CommitRename), EditorRoute::Rename);
    assert_eq!(
        route_editor_message(EditorMessageKind::FileBrowserPasteRequested),
        EditorRoute::FileBrowser
    );
    assert_eq!(route_editor_message(EditorMessageKind::SaveRequested), EditorRoute::File);
    assert_eq!(
        route_editor_message(EditorMessageKind::SetThemeWarmth),
        EditorRoute::Appearance
    );
    assert_eq!(route_editor_message(EditorMessageKind::Other), EditorRoute::Unhandled);
}

#[test]
fn only_unrelated_messages_commit_a_track_rename() {
    assert!(!should_commit_track_rename_before_message(AppMessageKind::Tick));
    assert!(!should_commit_track_rename_before_message(AppMessageKind::Viewer(
        ViewerMessageKind::ViewportCursorMoved
    )));
    assert!(should_commit_track_rename_before_message(AppMessageKind::Viewer(
        ViewerMessageKind::Other
    )));
    assert!(!should_commit_track_rename_before_message(AppMessageKind::PianoRoll(
        PianoRollMessageKind::CommitTrackRename
    )));
    assert!(should_commit_track_rename_before_message(AppMessageKind::PianoRoll(
        PianoRollMessageKind::Other
    )));
    assert!(!should_commit_track_rename_before_message(AppMessageKind::Mixer(
        MixerMessageKind::CommitTrackRename
    )));
    assert!(should_commit_track_rename_before_message(AppMessageKind::Other));
}

fn resolutions(
    global: Option<ShortcutAction>,
    contextual: Option<ShortcutAction>,
) -> ShortcutResolutions {
    ShortcutResolutions {
        global,
        navigation: None,
        editor_browser: None,
        contextual,
    }
}

#[test]
fn key_presses_go_to_modals_then_global_then_pane_shortcuts() {
    let editor = ModalKeyContext {
        focused_pane: Some(WorkspacePaneKind::Editor),
        ..quiet()
    };
    assert_eq!(
        route_key_press(
            &editor,
            &key(KeyName::Escape),
            &resolutions(Some(ShortcutAction::ToggleMetronome), None)
        ),
        KeyOutcome::Modal(ModalKeyRoute::CloseEditorPopups)
    );
    assert_eq!(
        route_key_press(
            &editor,
            &key(KeyName::Other),
            &resolutions(Some(ShortcutAction::ToggleMetronome), None)
        ),
        KeyOutcome::Swallowed
    );
    let score = ModalKeyContext {
        focused_pane: Some(WorkspacePaneKind::Score),
        ..quiet()
    };
    assert_eq!(
        route_key_press(
            &score,
            &key(KeyName::Other),
            &resolutions(Some(ShortcutAction::ToggleMetronome), None)
        ),
        KeyOutcome::Shortcut(ShortcutAction::ToggleMetronome)
    );
    let mut captured = key(KeyName::Other);
    captured.captured = true;
    assert_eq!(
        route_key_press(
            &score,
            &captured,
            &resolutions(None, Some(ShortcutAction::ToggleMetronome))
        ),
        KeyOutcome::Ignored
    );
    captured.control = true;
    assert_eq!(
        route_key_press(
            &score,
            &captured,
            &resolutions(None, Some(ShortcutAction::ToggleMetronome))
        ),
        KeyOutcome::Shortcut(ShortcutAction::ToggleMetronome)
    );
    assert_eq!(
        route_key_press(&quiet(), &key(KeyName::Other), &resolutions(None, None)),
        KeyOutcome::Ignored
    );
    let browser = ModalKeyContext {
        editor_file_browser_focused: true,
        focused_pane: Some(WorkspacePaneKind::Editor),
        ..quiet()
    };
    assert_eq!(
        route_key_press(&browser, &key(KeyName::ArrowDown), &resolutions(None, None)),
        KeyOutcome::BrowserNavigation(FileBrowserNavigation::Row(1))
    );
}

#[test]
fn clicking_the_editor_text_focuses_the_editor() {
    assert!(widget_message_focuses_editor(EditorWidgetEventKind::CanvasFocusGained));
    assert!(widget_message_focuses_editor(EditorWidgetEventKind::MouseClick));
    assert!(widget_message_focuses_editor(EditorWidgetEventKind::MouseDrag));
    assert!(widget_message_focuses_editor(EditorWidgetEventKind::JumpClick));
    assert!(!widget_message_focuses_editor(EditorWidgetEventKind::Other));
}
