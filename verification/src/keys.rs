//! Keys as the key handlers see them, and the small decisions made on a single key press.

use vstd::prelude::*;

use crate::shortcuts::{ShortcutAction, WorkspacePaneKind};
use crate::track_rename::TrackRenameState;

verus! {

/// The keys that the handlers tell apart; every other key is `Other`.
#[derive(Debug, Clone, Copy, PartialEq, Eq, Structural)]
pub enum KeyName {
    Escape,
    Enter,
    Tab,
    ArrowUp,
    ArrowDown,
    ArrowLeft,
    ArrowRight,
    Other,
}

/// A key press: the key, whether a widget already captured the event, and the modifiers held.
#[derive(Debug, Clone, Copy, PartialEq, Eq, Structural)]
pub struct KeyPress {
    pub key: KeyName,
    pub captured: bool,
    pub shift: bool,
    pub control: bool,
    pub command: bool,
}

/// A message for the shortcut palette.
#[derive(Debug, Clone, Copy, PartialEq, Eq, Structural)]
pub enum ShortcutsDialogKey {
    CloseDialog,
    ActivateSelected,
    SelectNext,
    SelectPrevious,
}

/// Whether the key is Escape.
pub fn key_is_escape(key: KeyName) -> (r: bool)
    ensures
        r == (key == KeyName::Escape),
{
    matches!(key, KeyName::Escape)
}

/// Whether the key is Enter.
pub fn key_is_enter(key: KeyName) -> (r: bool)
    ensures
        r == (key == KeyName::Enter),
{
    matches!(key, KeyName::Enter)
}

/// Whether a widget already captured the key press.
pub fn event_is_captured(key_press: &KeyPress) -> (r: bool)
    ensures
        r == key_press.captured,
{
    key_press.captured
}

/// Outside the editor a contextual shortcut runs before widgets see the key only when the
/// command or control modifier is held.
pub fn shortcut_requires_pre_capture_modifier(key_press: &KeyPress) -> (r: bool)
    ensures
        r == (key_press.command || key_press.control),
{
    key_press.command || key_press.control
}

/// Escape closes the palette and Enter runs the selected action.
pub fn shortcuts_dialog_close_or_activate_message(key: KeyName) -> (r: Option<ShortcutsDialogKey>)
    ensures
        r == (match key {
            KeyName::Escape => Some(ShortcutsDialogKey::CloseDialog),
            KeyName::Enter => Some(ShortcutsDialogKey::ActivateSelected),
            _ => None,
        }),
{
    match key {
        KeyName::Escape => Some(ShortcutsDialogKey::CloseDialog),
        KeyName::Enter => Some(ShortcutsDialogKey::ActivateSelected),
        _ => None,
    }
}

/// The arrow keys move the palette selection.
pub fn shortcuts_dialog_selection_message(key: KeyName) -> (r: Option<ShortcutsDialogKey>)
    ensures
        r == (match key {
            KeyName::ArrowDown => Some(ShortcutsDialogKey::SelectNext),
            KeyName::ArrowUp => Some(ShortcutsDialogKey::SelectPrevious),
            _ => None,
        }),
{
    match key {
        KeyName::ArrowDown => Some(ShortcutsDialogKey::SelectNext),
        KeyName::ArrowUp => Some(ShortcutsDialogKey::SelectPrevious),
        _ => None,
    }
}

/// What a key does while the shortcut palette is open.
pub open spec fn spec_shortcuts_dialog_key_message(key: KeyName) -> Option<ShortcutsDialogKey> {
    match key {
        KeyName::Escape => Some(ShortcutsDialogKey::CloseDialog),
        KeyName::Enter => Some(ShortcutsDialogKey::ActivateSelected),
        KeyName::ArrowDown => Some(ShortcutsDialogKey::SelectNext),
        KeyName::ArrowUp => Some(ShortcutsDialogKey::SelectPrevious),
        _ => None,
    }
}

/// The message a key sends to the open shortcut palette, if any.
pub fn shortcuts_dialog_key_message(key: KeyName) -> (r: Option<ShortcutsDialogKey>)
    ensures
        r == spec_shortcuts_dialog_key_message(key),
{
    match shortcuts_dialog_close_or_activate_message(key) {
        Some(message) => Some(message),
        None => shortcuts_dialog_selection_message(key),
    }
}

/// Up and down move the file browser selection by one row.
pub fn file_browser_vertical_navigation(key: KeyName) -> (r: Option<i32>)
    ensures
        r == (match key {
            KeyName::ArrowUp => Some(-1i32),
            KeyName::ArrowDown => Some(1i32),
            _ => None,
        }),
{
    match key {
        KeyName::ArrowUp => Some(-1),
        KeyName::ArrowDown => Some(1),
        _ => None,
    }
}

/// Left and right move between file browser columns; `true` is to the right.
pub fn file_browser_horizontal_navigation(key: KeyName) -> (r: Option<bool>)
    ensures
        r == (match key {
            KeyName::ArrowLeft => Some(false),
            KeyName::ArrowRight => Some(true),
            _ => None,
        }),
{
    match key {
        KeyName::ArrowLeft => Some(false),
        KeyName::ArrowRight => Some(true),
        _ => None,
    }
}

/// Tab and the right arrow move the prompt's selected button forward.
pub fn prompt_key_cycles_forward(key: KeyName) -> (r: bool)
    ensures
        r == (key == KeyName::Tab || key == KeyName::ArrowRight),
{
    matches!(key, KeyName::Tab | KeyName::ArrowRight)
}

/// What the open dialogs, editors and overlays are, as the key handlers see them before any
/// shortcut.
#[derive(Debug, Clone, Copy, PartialEq, Eq, Structural)]
pub struct ModalKeyContext {
    pub prompt_open: bool,
    pub shortcuts_dialog_open: bool,
    pub renaming_editor_tab: bool,
    pub browser_inline_edit_open: bool,
    pub editor_file_browser_focused: bool,
    pub track_rename_open: bool,
    pub track_color_picker_open: bool,
    pub renaming_origin: Option<WorkspacePaneKind>,
    pub metronome_menu_open: bool,
    pub processor_browser_open: bool,
    pub focused_pane: Option<WorkspacePaneKind>,
}

/// Where a key press goes before any shortcut is looked up.
#[derive(Debug, Clone, Copy, PartialEq, Eq, Structural)]
pub enum ModalKeyRoute {
    /// The open prompt handles the key.
    Prompt,
    /// The shortcut palette gets this message, if any.
    ShortcutsDialog(Option<ShortcutsDialogKey>),
    CancelEditorTabRename,
    CancelBrowserInlineEdit,
    CommitBrowserInlineEdit,
    /// The key is used up and nothing happens.
    Swallow,
    CancelPianoRollTrackRename,
    CancelMixerTrackRename,
    CancelTrackRename,
    CloseMetronomeMenu,
    CloseProcessorBrowser,
    /// Escape in the editor closes its search and go-to-line popups.
    CloseEditorPopups,
}

/// An inline editor that is open takes Escape and Enter when it has a message for them, and
/// swallows any other key a widget captured.
pub fn handle_active_key_modal(
    active: bool,
    key_press: &KeyPress,
    escape_route: Option<ModalKeyRoute>,
    enter_route: Option<ModalKeyRoute>,
) -> (r: Option<ModalKeyRoute>)
    ensures
        r == if !active {
            None
        } else if key_press.key == KeyName::Escape && escape_route is Some {
            escape_route
        } else if key_press.key == KeyName::Enter && enter_route is Some {
            enter_route
        } else if key_press.captured {
            Some(ModalKeyRoute::Swallow)
        } else {
            None
        },
{
    if !active {
        return None;
    }
    if key_is_escape(key_press.key) && escape_route.is_some() {
        return escape_route;
    }
    if key_is_enter(key_press.key) && enter_route.is_some() {
        return enter_route;
    }
    if event_is_captured(key_press) {
        Some(ModalKeyRoute::Swallow)
    } else {
        None
    }
}

/// Escape cancels a track rename or closes the colour picker (in the pane the rename began
/// in), then closes the metronome menu, then the processor browser; a captured key during a
/// rename is swallowed.
pub open spec fn spec_transient_overlay_route(ctx: ModalKeyContext, key_press: KeyPress) -> Option<ModalKeyRoute> {
    if (ctx.track_rename_open || ctx.track_color_picker_open) && key_press.key == KeyName::Escape {
        Some(
            match ctx.renaming_origin {
                Some(WorkspacePaneKind::PianoRoll) => ModalKeyRoute::CancelPianoRollTrackRename,
                Some(WorkspacePaneKind::Mixer) => ModalKeyRoute::CancelMixerTrackRename,
                _ => ModalKeyRoute::CancelTrackRename,
            },
        )
    } else if ctx.metronome_menu_open && key_press.key == KeyName::Escape {
        Some(ModalKeyRoute::CloseMetronomeMenu)
    } else if ctx.processor_browser_open && key_press.key == KeyName::Escape {
        Some(ModalKeyRoute::CloseProcessorBrowser)
    } else if ctx.track_rename_open && key_press.captured {
        Some(ModalKeyRoute::Swallow)
    } else {
        None
    }
}

/// Where the transient overlays send a key.
pub fn transient_overlay_route(ctx: &ModalKeyContext, key_press: &KeyPress) -> (r: Option<ModalKeyRoute>)
    ensures
        r == spec_transient_overlay_route(*ctx, *key_press),
{
    let escape = key_is_escape(key_press.key);
    if (ctx.track_rename_open || ctx.track_color_picker_open) && escape {
        return Some(
            match ctx.renaming_origin {
                Some(WorkspacePaneKind::PianoRoll) => ModalKeyRoute::CancelPianoRollTrackRename,
                Some(WorkspacePaneKind::Mixer) => ModalKeyRoute::CancelMixerTrackRename,
                _ => ModalKeyRoute::CancelTrackRename,
            },
        );
    }
    if ctx.metronome_menu_open && escape {
        return Some(ModalKeyRoute::CloseMetronomeMenu);
    }
    if ctx.processor_browser_open && escape {
        return Some(ModalKeyRoute::CloseProcessorBrowser);
    }
    if ctx.track_rename_open && event_is_captured(key_press) {
        return Some(ModalKeyRoute::Swallow);
    }
    None
}

/// The key context the transient overlays see: the rename and colour picker of `rename`,
/// and whether the metronome menu and the processor browser are open.
pub open spec fn overlay_context(
    rename: TrackRenameState,
    metronome_menu_open: bool,
    processor_browser_open: bool,
) -> ModalKeyContext {
    ModalKeyContext {
        prompt_open: false,
        shortcuts_dialog_open: false,
        renaming_editor_tab: false,
        browser_inline_edit_open: false,
        editor_file_browser_focused: false,
        track_rename_open: rename.renaming_target is Some,
        track_color_picker_open: rename.color_picker_target is Some,
        renaming_origin: rename.renaming_origin,
        metronome_menu_open,
        processor_browser_open,
        focused_pane: None,
    }
}

/// A key press reaching the transient overlays: routed as `transient_overlay_route`
/// does; when Escape cancels a rename begun outside the piano roll and the mixer, the rename
/// is dropped and the colour picker closed here. Every other route leaves the rename as it is.
pub fn handle_transient_overlay_key_pressed(
    rename: &mut TrackRenameState,
    metronome_menu_open: bool,
    processor_browser_open: bool,
    key_press: &KeyPress,
) -> (r: Option<ModalKeyRoute>)
    ensures
        r == spec_transient_overlay_route(
            overlay_context(*old(rename), metronome_menu_open, processor_browser_open),
            *key_press,
        ),
        r == Some(ModalKeyRoute::CancelTrackRename) ==> {
            &&& final(rename).renaming_target is None
            &&& final(rename).renaming_origin is None
            &&& final(rename).color_picker_target is None
            &&& !final(rename).was_focused
            &&& final(rename).value@.len() == 0
            &&& !final(rename).color_picker_open
        },
        r != Some(ModalKeyRoute::CancelTrackRename) ==> *final(rename) == *old(rename),
{
    let ctx = ModalKeyContext {
        prompt_open: false,
        shortcuts_dialog_open: false,
        renaming_editor_tab: false,
        browser_inline_edit_open: false,
        editor_file_browser_focused: false,
        track_rename_open: rename.renaming_target.is_some(),
        track_color_picker_open: rename.color_picker_target.is_some(),
        renaming_origin: rename.renaming_origin,
        metronome_menu_open,
        processor_browser_open,
        focused_pane: None,
    };
    let r = transient_overlay_route(&ctx, key_press);
    if r == Some(ModalKeyRoute::CancelTrackRename) {
        rename.cancel();
    }
    r
}

/// The inline editors' handling of a key: the tab rename (Escape cancels), then the file
/// browser's inline edit (Escape cancels, Enter commits), then a focused file browser that
/// swallows a captured Enter.
pub open spec fn spec_inline_editor_route(ctx: ModalKeyContext, key_press: KeyPress) -> Option<ModalKeyRoute> {
    let tab = if !ctx.renaming_editor_tab {
        None
    } else if key_press.key == KeyName::Escape {
        Some(ModalKeyRoute::CancelEditorTabRename)
    } else if key_press.captured {
        Some(ModalKeyRoute::Swallow)
    } else {
        None
    };
    let inline = if !ctx.browser_inline_edit_open {
        None
    } else if key_press.key == KeyName::Escape {
        Some(ModalKeyRoute::CancelBrowserInlineEdit)
    } else if key_press.key == KeyName::Enter {
        Some(ModalKeyRoute::CommitBrowserInlineEdit)
    } else if key_press.captured {
        Some(ModalKeyRoute::Swallow)
    } else {
        None
    };
    if tab is Some {
        tab
    } else if inline is Some {
        inline
    } else if ctx.editor_file_browser_focused && key_press.captured && key_press.key
        == KeyName::Enter {
        Some(ModalKeyRoute::Swallow)
    } else {
        None
    }
}

/// The inline editors' handling of a key.
pub fn handle_inline_editor_key_pressed(ctx: &ModalKeyContext, key_press: &KeyPress) -> (r: Option<ModalKeyRoute>)
    ensures
        r == spec_inline_editor_route(*ctx, *key_press),
{
    if let Some(route) = handle_active_key_modal(
        ctx.renaming_editor_tab,
        key_press,
        Some(ModalKeyRoute::CancelEditorTabRename),
        None,
    ) {
        return Some(route);
    }
    if let Some(route) = handle_active_key_modal(
        ctx.browser_inline_edit_open,
        key_press,
        Some(ModalKeyRoute::CancelBrowserInlineEdit),
        Some(ModalKeyRoute::CommitBrowserInlineEdit),
    ) {
        return Some(route);
    }
    if ctx.editor_file_browser_focused && event_is_captured(key_press) && key_is_enter(key_press.key) {
        return Some(ModalKeyRoute::Swallow);
    }
    None
}

/// Where a key goes before any shortcut: an open prompt takes every key, then the shortcut
/// palette, the inline editors, the transient overlays, and Escape in the editor closes its
/// popups.
pub open spec fn spec_modal_key_route(ctx: ModalKeyContext, key_press: KeyPress) -> Option<ModalKeyRoute> {
    if ctx.prompt_open {
        Some(ModalKeyRoute::Prompt)
    } else if ctx.shortcuts_dialog_open {
        Some(ModalKeyRoute::ShortcutsDialog(spec_shortcuts_dialog_key_message(key_press.key)))
    } else if spec_inline_editor_route(ctx, key_press) is Some {
        spec_inline_editor_route(ctx, key_press)
    } else if spec_transient_overlay_route(ctx, key_press) is Some {
        spec_transient_overlay_route(ctx, key_press)
    } else if ctx.focused_pane == Some(WorkspacePaneKind::Editor) && key_press.key == KeyName::Escape {
        Some(ModalKeyRoute::CloseEditorPopups)
    } else {
        None
    }
}

/// Where a key goes before any shortcut, if anywhere.
pub fn handle_modal_key_pressed(ctx: &ModalKeyContext, key_press: &KeyPress) -> (r: Option<ModalKeyRoute>)
    ensures
        r == spec_modal_key_route(*ctx, *key_press),
{
    if ctx.prompt_open {
        return Some(ModalKeyRoute::Prompt);
    }
    if ctx.shortcuts_dialog_open {
        return Some(ModalKeyRoute::ShortcutsDialog(shortcuts_dialog_key_message(key_press.key)));
    }
    if let Some(route) = handle_inline_editor_key_pressed(ctx, key_press) {
        return Some(route);
    }
    if let Some(route) = transient_overlay_route(ctx, key_press) {
        return Some(route);
    }
    if editor_escape_closes_popups(ctx.focused_pane, key_press) {
        return Some(ModalKeyRoute::CloseEditorPopups);
    }
    None
}

/// Escape in the focused editor closes its popups.
pub fn editor_escape_closes_popups(focused_pane: Option<WorkspacePaneKind>, key_press: &KeyPress) -> (r: bool)
    ensures
        r == (focused_pane == Some(WorkspacePaneKind::Editor) && key_press.key == KeyName::Escape),
{
    matches!(focused_pane, Some(WorkspacePaneKind::Editor)) && key_is_escape(key_press.key)
}

/// An open prompt takes every key: nothing else sees a key press while a prompt is open.
pub proof fn law_prompt_takes_every_key(ctx: ModalKeyContext, key_press: KeyPress)
    requires
        ctx.prompt_open,
    ensures
        spec_modal_key_route(ctx, key_press) == Some(ModalKeyRoute::Prompt),
{
}

/// How arrow keys move in a focused file browser.
#[derive(Debug, Clone, Copy, PartialEq, Eq, Structural)]
pub enum FileBrowserNavigation {
    /// Up (`-1`) or down (`1`) a row.
    Row(i32),
    /// To the column on the right (`true`) or left.
    Column(bool),
}

/// The arrow keys move in the editor's file browser while it has the focus.
pub fn handle_file_browser_navigation_key(browser_focused: bool, key: KeyName) -> (r: Option<FileBrowserNavigation>)
    ensures
        r == if !browser_focused {
            None
        } else {
            match key {
                KeyName::ArrowUp => Some(FileBrowserNavigation::Row(-1i32)),
                KeyName::ArrowDown => Some(FileBrowserNavigation::Row(1i32)),
                KeyName::ArrowLeft => Some(FileBrowserNavigation::Column(false)),
                KeyName::ArrowRight => Some(FileBrowserNavigation::Column(true)),
                _ => None,
            }
        },
{
    if !browser_focused {
        return None;
    }
    if let Some(direction) = file_browser_vertical_navigation(key) {
        return Some(FileBrowserNavigation::Row(direction));
    }
    match file_browser_horizontal_navigation(key) {
        Some(forward) => Some(FileBrowserNavigation::Column(forward)),
        None => None,
    }
}

/// Which shortcuts are looked up before widgets see a key.
#[derive(Debug, Clone, Copy, PartialEq, Eq, Structural)]
pub enum PreCaptureLookup {
    /// In the editor: the file browser's shortcuts when it is focused, then the editor's.
    EditorBrowserThenContextual,
    /// The focused pane's shortcuts.
    Contextual,
    /// None yet.
    Nothing,
}

/// In the editor, shortcuts are looked up before its widgets see the key; in other panes only
/// with the command or control modifier.
pub fn pre_capture_lookup(focused_pane: WorkspacePaneKind, key_press: &KeyPress) -> (r: PreCaptureLookup)
    ensures
        r == if focused_pane == WorkspacePaneKind::Editor {
            PreCaptureLookup::EditorBrowserThenContextual
        } else if key_press.command || key_press.control {
            PreCaptureLookup::Contextual
        } else {
            PreCaptureLookup::Nothing
        },
{
    if matches!(focused_pane, WorkspacePaneKind::Editor) {
        return PreCaptureLookup::EditorBrowserThenContextual;
    }
    if !shortcut_requires_pre_capture_modifier(key_press) {
        return PreCaptureLookup::Nothing;
    }
    PreCaptureLookup::Contextual
}

/// The shortcut actions a key press resolves to under the shortcut settings, for each kind
/// of lookup: the global shortcuts, the navigation shortcuts, the editor's file browser
/// shortcuts, and the focused pane's shortcuts.
#[derive(Debug, Clone, Copy, PartialEq, Eq, Structural)]
pub struct ShortcutResolutions {
    pub global: Option<ShortcutAction>,
    pub navigation: Option<ShortcutAction>,
    pub editor_browser: Option<ShortcutAction>,
    pub contextual: Option<ShortcutAction>,
}

/// What a key press does.
#[derive(Debug, Clone, Copy, PartialEq, Eq, Structural)]
pub enum KeyOutcome {
    /// A dialog, inline editor or overlay takes it.
    Modal(ModalKeyRoute),
    /// It runs a shortcut action.
    Shortcut(ShortcutAction),
    /// It moves in the focused file browser.
    BrowserNavigation(FileBrowserNavigation),
    /// It is used up without effect.
    Swallowed,
    /// Nothing handles it.
    Ignored,
}

/// What a key press does: first the modal handlers; then a global shortcut (the metronome
/// toggle does nothing while the editor has the focus), or else a navigation shortcut; then
/// the arrows of a focused file browser. With a focused pane, the editor looks its shortcuts
/// up before its widgets see the key (the file browser's first when it has the focus), and
/// other panes do so only with the command or control modifier; a key a widget captured
/// goes no further; else the focused pane's shortcut runs.
pub open spec fn spec_key_outcome(ctx: ModalKeyContext, key_press: KeyPress, res: ShortcutResolutions) -> KeyOutcome {
    if spec_modal_key_route(ctx, key_press) is Some {
        KeyOutcome::Modal(spec_modal_key_route(ctx, key_press)->0)
    } else if res.global is Some {
        if res.global == Some(ShortcutAction::ToggleMetronome) && ctx.focused_pane == Some(
            WorkspacePaneKind::Editor,
        ) {
            KeyOutcome::Swallowed
        } else {
            KeyOutcome::Shortcut(res.global->0)
        }
    } else if res.navigation is Some {
        KeyOutcome::Shortcut(res.navigation->0)
    } else if ctx.editor_file_browser_focused && spec_browser_navigation(key_press.key) is Some {
        KeyOutcome::BrowserNavigation(spec_browser_navigation(key_press.key)->0)
    } else if ctx.focused_pane is None {
        KeyOutcome::Ignored
    } else if ctx.focused_pane == Some(WorkspacePaneKind::Editor) && ctx.editor_file_browser_focused
        && res.editor_browser is Some {
        KeyOutcome::Shortcut(res.editor_browser->0)
    } else if (ctx.focused_pane == Some(WorkspacePaneKind::Editor) || key_press.command
        || key_press.control) && res.contextual is Some {
        KeyOutcome::Shortcut(res.contextual->0)
    } else if key_press.captured {
        KeyOutcome::Ignored
    } else if res.contextual is Some {
        KeyOutcome::Shortcut(res.contextual->0)
    } else {
        KeyOutcome::Ignored
    }
}

/// How the arrows move in a focused file browser.
pub open spec fn spec_browser_navigation(key: KeyName) -> Option<FileBrowserNavigation> {
    match key {
        KeyName::ArrowUp => Some(FileBrowserNavigation::Row(-1i32)),
        KeyName::ArrowDown => Some(FileBrowserNavigation::Row(1i32)),
        KeyName::ArrowLeft => Some(FileBrowserNavigation::Column(false)),
        KeyName::ArrowRight => Some(FileBrowserNavigation::Column(true)),
        _ => None,
    }
}

/// What a key press does (see `spec_key_outcome`).
pub fn route_key_press(ctx: &ModalKeyContext, key_press: &KeyPress, res: &ShortcutResolutions) -> (r:
    KeyOutcome)
    ensures
        r == spec_key_outcome(*ctx, *key_press, *res),
{
    if let Some(route) = handle_modal_key_pressed(ctx, key_press) {
        return KeyOutcome::Modal(route);
    }
    if let Some(action) = res.global {
        if action == ShortcutAction::ToggleMetronome && ctx.focused_pane == Some(
            WorkspacePaneKind::Editor,
        ) {
            return KeyOutcome::Swallowed;
        }
        return KeyOutcome::Shortcut(action);
    }
    if let Some(action) = res.navigation {
        return KeyOutcome::Shortcut(action);
    }
    if let Some(navigation) = handle_file_browser_navigation_key(
        ctx.editor_file_browser_focused,
        key_press.key,
    ) {
        return KeyOutcome::BrowserNavigation(navigation);
    }
    let focused = match ctx.focused_pane {
        Some(pane) => pane,
        None => return KeyOutcome::Ignored,
    };
    match pre_capture_lookup(focused, key_press) {
        PreCaptureLookup::EditorBrowserThenContextual => {
            if ctx.editor_file_browser_focused {
                if let Some(action) = res.editor_browser {
                    return KeyOutcome::Shortcut(action);
                }
            }
            if let Some(action) = res.contextual {
                return KeyOutcome::Shortcut(action);
            }
        },
        PreCaptureLookup::Contextual => {
            if let Some(action) = res.contextual {
                return KeyOutcome::Shortcut(action);
            }
        },
        PreCaptureLookup::Nothing => {},
    }
    if event_is_captured(key_press) {
        return KeyOutcome::Ignored;
    }
    match res.contextual {
        Some(action) => KeyOutcome::Shortcut(action),
        None => KeyOutcome::Ignored,
    }
}

/// A key a widget already captured runs no shortcut of a pane other than the editor unless
/// the command or control modifier is held (global and navigation shortcuts aside).
pub proof fn law_captured_keys_skip_plain_pane_shortcuts(
    ctx: ModalKeyContext,
    key_press: KeyPress,
    res: ShortcutResolutions,
)
    requires
        key_press.captured,
        !key_press.command,
        !key_press.control,
        ctx.focused_pane != Some(WorkspacePaneKind::Editor),
        res.global is None,
        res.navigation is None,
    ensures
        !(spec_key_outcome(ctx, key_press, res) is Shortcut),
{
}

} // verus!
