use lilypalooza::shortcuts::ShortcutPaletteState;
use lilypalooza::workspace::MenuState;
use lilypalooza::keys::{
    KeyName, KeyPress, ShortcutsDialogKey, event_is_captured, file_browser_horizontal_navigation,
    file_browser_vertical_navigation, key_is_enter, key_is_escape, prompt_key_cycles_forward,
    shortcut_requires_pre_capture_modifier, shortcuts_dialog_key_message,
};
use lilypalooza::shortcuts::{
    AppShortcut, ArrowDirection, EditorShellRequest, EditorShellShortcut, EditorWidgetCommand,
    EditorWidgetShortcut, EditorZoomDirection, FileBrowserShortcut, PaneCycleDirection,
    PianoRollShortcut, PianoRollZoomCommand, ShortcutAction, ShortcutGroup, TabDirection,
    TransportCommand, ViewerCommand, WorkspacePaneKind, WorkspaceShortcut, app_shortcut_route,
    editor_shell_shortcut_route, editor_widget_message_for_shortcut,
    editor_widget_shortcut_route, file_browser_shortcut_route, global_shortcut_runs,
    move_shortcut_palette_selection, piano_roll_shortcut_route,
    reconcile_shortcut_palette_selection, score_shortcut_message, shortcut_group,
    transport_shortcut_route, workspace_shortcut_route,
};

#[test]
fn editor_shortcuts_become_widget_commands() {
    assert_eq!(
        editor_widget_message_for_shortcut(ShortcutAction::EditorUndo),
        Some(EditorWidgetCommand::Undo)
    );
    assert_eq!(
        editor_widget_message_for_shortcut(ShortcutAction::EditorWordLeftSelect),
        Some(EditorWidgetCommand::WordArrowKey(ArrowDirection::Left, true))
    );
    assert_eq!(
        editor_widget_message_for_shortcut(ShortcutAction::EditorLineEnd),
        Some(EditorWidgetCommand::End(false))
    );
    assert_eq!(
        editor_widget_message_for_shortcut(ShortcutAction::EditorDocumentStartSelect),
        Some(EditorWidgetCommand::DocumentHome(true))
    );
    assert_eq!(
        editor_widget_message_for_shortcut(ShortcutAction::EditorIndent),
        Some(EditorWidgetCommand::Tab)
    );
    assert_eq!(
        editor_widget_message_for_shortcut(ShortcutAction::EditorJumpToMatchingBracket),
        Some(EditorWidgetCommand::JumpToMatchingBracket)
    );
    assert_eq!(editor_widget_message_for_shortcut(ShortcutAction::ScoreZoomIn), None);
}

#[test]
fn shortcuts_are_grouped_by_handler() {
    assert_eq!(shortcut_group(ShortcutAction::QuitApp), ShortcutGroup::App);
    assert_eq!(shortcut_group(ShortcutAction::FileBrowserCut), ShortcutGroup::FileBrowser);
    assert_eq!(shortcut_group(ShortcutAction::EditorZoomIn), ShortcutGroup::EditorShell);
    assert_eq!(shortcut_group(ShortcutAction::EditorPaste), ShortcutGroup::EditorWidget);
    assert_eq!(
        shortcut_group(ShortcutAction::ToggleWorkspacePane(WorkspacePaneKind::Logger)),
        ShortcutGroup::Workspace
    );
    assert_eq!(shortcut_group(ShortcutAction::ScorePrevPage), ShortcutGroup::Score);
    assert_eq!(shortcut_group(ShortcutAction::PianoRollScrollUp), ShortcutGroup::PianoRoll);
    assert_eq!(shortcut_group(ShortcutAction::ToggleMetronome), ShortcutGroup::Transport);
}

#[test]
fn group_routes_pick_the_command() {
    assert_eq!(app_shortcut_route(ShortcutAction::OpenActions), AppShortcut::OpenActions);
    assert_eq!(
        file_browser_shortcut_route(ShortcutAction::FileBrowserDelete),
        FileBrowserShortcut::Request(EditorShellRequest::FileBrowserTrashRequested)
    );
    assert_eq!(
        file_browser_shortcut_route(ShortcutAction::FileBrowserUndo),
        FileBrowserShortcut::Undo
    );
    assert_eq!(
        editor_shell_shortcut_route(ShortcutAction::SaveEditor),
        EditorShellShortcut::Request(EditorShellRequest::SaveRequested)
    );
    assert_eq!(
        editor_shell_shortcut_route(ShortcutAction::SwitchEditorTabPrevious),
        EditorShellShortcut::SwitchTab(false)
    );
    assert_eq!(
        editor_shell_shortcut_route(ShortcutAction::EditorZoomReset),
        EditorShellShortcut::Zoom(EditorZoomDirection::Reset)
    );
    assert_eq!(
        score_shortcut_message(ShortcutAction::ScoreScrollDown),
        Some(ViewerCommand::ScrollDown)
    );
    assert_eq!(
        piano_roll_shortcut_route(ShortcutAction::PianoRollZoomOut),
        PianoRollShortcut::Zoom(PianoRollZoomCommand::ZoomOut)
    );
    assert_eq!(
        piano_roll_shortcut_route(ShortcutAction::PianoRollCursorSubdivisionNext),
        PianoRollShortcut::MoveCursorBySubdivision(true)
    );
    assert_eq!(
        workspace_shortcut_route(ShortcutAction::SwitchWorkspaceTabNext),
        WorkspaceShortcut::SwitchTab(TabDirection::Next)
    );
    assert_eq!(
        workspace_shortcut_route(ShortcutAction::FocusWorkspacePanePrevious),
        WorkspaceShortcut::CycleFocus(PaneCycleDirection::Previous)
    );
}

#[test]
fn undo_in_mixer_goes_to_mixer_history() {
    assert_eq!(
        editor_widget_shortcut_route(ShortcutAction::EditorUndo, Some(WorkspacePaneKind::Mixer)),
        EditorWidgetShortcut::MixerUndo
    );
    assert_eq!(
        editor_widget_shortcut_route(ShortcutAction::EditorRedo, Some(WorkspacePaneKind::Mixer)),
        EditorWidgetShortcut::MixerRedo
    );
    assert_eq!(
        editor_widget_shortcut_route(ShortcutAction::EditorUndo, Some(WorkspacePaneKind::Editor)),
        EditorWidgetShortcut::Widget(EditorWidgetCommand::Undo)
    );
}

#[test]
fn metronome_shortcut_is_ignored_while_editing() {
    assert_eq!(
        transport_shortcut_route(ShortcutAction::ToggleMetronome, Some(WorkspacePaneKind::Editor)),
        None
    );
    assert_eq!(
        transport_shortcut_route(ShortcutAction::ToggleMetronome, Some(WorkspacePaneKind::Score)),
        Some(TransportCommand::ToggleMetronome)
    );
    assert!(!global_shortcut_runs(
        ShortcutAction::ToggleMetronome,
        Some(WorkspacePaneKind::Editor)
    ));
    assert!(global_shortcut_runs(ShortcutAction::TransportPlayPause, Some(WorkspacePaneKind::Editor)));
}

#[test]
fn palette_selection_moves_within_the_list() {
    let ids = vec![10, 20, 30];
    assert_eq!(move_shortcut_palette_selection(&ids, Some(20), 1), Some(30));
    assert_eq!(move_shortcut_palette_selection(&ids, Some(30), 1), Some(30));
    assert_eq!(move_shortcut_palette_selection(&ids, Some(10), -1), Some(10));
    assert_eq!(move_shortcut_palette_selection(&ids, Some(99), 1), Some(20));
    assert_eq!(move_shortcut_palette_selection(&ids, None, -1), Some(10));
    assert_eq!(move_shortcut_palette_selection(&Vec::new(), Some(1), 1), None);
}

#[test]
fn palette_selection_is_kept_when_still_listed() {
    let ids = vec![4, 5];
    assert_eq!(reconcile_shortcut_palette_selection(&ids, Some(5)), Some(5));
    assert_eq!(reconcile_shortcut_palette_selection(&ids, Some(9)), Some(4));
    assert_eq!(reconcile_shortcut_palette_selection(&Vec::new(), Some(9)), None);
}

#[test]
fn keys_are_classified() {
    assert!(key_is_escape(KeyName::Escape));
    assert!(!key_is_enter(KeyName::Escape));
    assert!(prompt_key_cycles_forward(KeyName::Tab));
    assert!(!prompt_key_cycles_forward(KeyName::ArrowLeft));
    assert_eq!(file_browser_vertical_navigation(KeyName::ArrowUp), Some(-1));
    assert_eq!(file_browser_horizontal_navigation(KeyName::ArrowRight), Some(true));
    assert_eq!(
        shortcuts_dialog_key_message(KeyName::Enter),
        Some(ShortcutsDialogKey::ActivateSelected)
    );
    assert_eq!(
        shortcuts_dialog_key_message(KeyName::ArrowDown),
        Some(ShortcutsDialogKey::SelectNext)
    );
    assert_eq!(shortcuts_dialog_key_message(KeyName::Tab), None);
    let press = KeyPress {
        key: KeyName::Other,
        captured: true,
        shift: false,
        control: true,
        command: false,
    };
    assert!(event_is_captured(&press));
    assert!(shortcut_requires_pre_capture_modifier(&press));
}

#[test]
fn the_palette_opens_selecting_the_first_action_and_closes_on_activation() {
    let mut palette = ShortcutPaletteState::new();
    let mut menus = MenuState::new();
    menus.open_project_menu = true;
    palette.open(&mut menus, &vec![10, 11, 12]);
    assert!(palette.open);
    assert_eq!(palette.selected, Some(10));
    assert_eq!(menus, MenuState::new());
    palette.set_query("zz".to_string(), false, &vec![12]);
    assert_eq!(palette.query, "zz");
    assert_eq!(palette.selected, Some(12));
    palette.set_query("ignored".to_string(), true, &vec![]);
    assert_eq!(palette.query, "zz");
    assert_eq!(palette.activate_selected(), Some(12));
    assert!(!palette.open);
    assert!(palette.query.is_empty());
    assert_eq!(palette.activate_selected(), None);
}
