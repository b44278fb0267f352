//! Keyboard shortcut actions, the group that handles each, and the command each one becomes
//! for the code editor, the score viewer, the piano roll, the file browser and the workspace.

use vstd::prelude::*;

use crate::workspace::MenuState;

verus! {

/// The panes of the workspace.
#[derive(Debug, Clone, Copy, PartialEq, Eq, Structural, Hash)]
pub enum WorkspacePaneKind {
    Score,
    PianoRoll,
    Editor,
    Logger,
    Mixer,
}

/// Everything a shortcut can do.
#[derive(Debug, Clone, Copy, PartialEq, Eq, Structural, Hash)]
pub enum ShortcutAction {
    QuitApp,
    OpenActions,
    OpenSettingsFile,
    FileBrowserUndo,
    FileBrowserRedo,
    FileBrowserCut,
    FileBrowserCopy,
    FileBrowserPaste,
    FileBrowserRename,
    FileBrowserDelete,
    NewEditor,
    OpenEditorFile,
    ToggleFileBrowser,
    SaveEditor,
    CloseEditorTab,
    SwitchEditorTabPrevious,
    SwitchEditorTabNext,
    EditorZoomIn,
    EditorZoomOut,
    EditorZoomReset,
    EditorUndo,
    EditorRedo,
    EditorCopy,
    EditorPaste,
    EditorOpenSearch,
    EditorOpenSearchReplace,
    EditorOpenGotoLine,
    EditorTriggerCompletion,
    EditorFindNext,
    EditorFindPrevious,
    EditorWordLeft,
    EditorWordRight,
    EditorWordLeftSelect,
    EditorWordRightSelect,
    EditorDeleteWordBackward,
    EditorDeleteWordForward,
    EditorDeleteToLineStart,
    EditorDeleteToLineEnd,
    EditorLineStart,
    EditorLineEnd,
    EditorLineStartSelect,
    EditorLineEndSelect,
    EditorDocumentStart,
    EditorDocumentEnd,
    EditorDocumentStartSelect,
    EditorDocumentEndSelect,
    EditorDeleteSelection,
    EditorSelectAll,
    EditorInsertLineBelow,
    EditorInsertLineAbove,
    EditorDeleteLine,
    EditorMoveLineUp,
    EditorMoveLineDown,
    EditorCopyLineUp,
    EditorCopyLineDown,
    EditorJoinLines,
    EditorIndent,
    EditorOutdent,
    EditorToggleLineComment,
    EditorToggleBlockComment,
    EditorSelectLine,
    EditorJumpToMatchingBracket,
    ToggleWorkspacePane(WorkspacePaneKind),
    SwitchWorkspaceTabPrevious,
    SwitchWorkspaceTabNext,
    FocusWorkspacePanePrevious,
    FocusWorkspacePaneNext,
    ScoreZoomIn,
    ScoreZoomOut,
    ScoreZoomReset,
    ScoreScrollUp,
    ScoreScrollDown,
    ScorePrevPage,
    ScoreNextPage,
    PianoRollZoomIn,
    PianoRollZoomOut,
    PianoRollZoomReset,
    PianoRollCursorSubdivisionPrevious,
    PianoRollCursorSubdivisionNext,
    PianoRollScrollUp,
    PianoRollScrollDown,
    TransportPlayPause,
    TransportRewind,
    ToggleMetronome,
}

/// The handler that receives a shortcut.
#[derive(Debug, Clone, Copy, PartialEq, Eq, Structural)]
pub enum ShortcutGroup {
    App,
    FileBrowser,
    EditorShell,
    EditorWidget,
    Workspace,
    Score,
    PianoRoll,
    Transport,
}

/// The handler of each shortcut.
pub open spec fn spec_shortcut_group(action: ShortcutAction) -> ShortcutGroup {
    match action {
        ShortcutAction::QuitApp | ShortcutAction::OpenActions
        | ShortcutAction::OpenSettingsFile => ShortcutGroup::App,
        ShortcutAction::FileBrowserUndo | ShortcutAction::FileBrowserRedo
        | ShortcutAction::FileBrowserCut | ShortcutAction::FileBrowserCopy
        | ShortcutAction::FileBrowserPaste | ShortcutAction::FileBrowserRename
        | ShortcutAction::FileBrowserDelete => ShortcutGroup::FileBrowser,
        ShortcutAction::NewEditor | ShortcutAction::OpenEditorFile
        | ShortcutAction::ToggleFileBrowser | ShortcutAction::SaveEditor
        | ShortcutAction::CloseEditorTab | ShortcutAction::SwitchEditorTabPrevious
        | ShortcutAction::SwitchEditorTabNext | ShortcutAction::EditorZoomIn
        | ShortcutAction::EditorZoomOut | ShortcutAction::EditorZoomReset => ShortcutGroup::EditorShell,
        ShortcutAction::ToggleWorkspacePane(_) | ShortcutAction::SwitchWorkspaceTabPrevious
        | ShortcutAction::SwitchWorkspaceTabNext | ShortcutAction::FocusWorkspacePanePrevious
        | ShortcutAction::FocusWorkspacePaneNext => ShortcutGroup::Workspace,
        ShortcutAction::ScoreZoomIn | ShortcutAction::ScoreZoomOut
        | ShortcutAction::ScoreZoomReset | ShortcutAction::ScoreScrollUp
        | ShortcutAction::ScoreScrollDown | ShortcutAction::ScorePrevPage
        | ShortcutAction::ScoreNextPage => ShortcutGroup::Score,
        ShortcutAction::PianoRollZoomIn | ShortcutAction::PianoRollZoomOut
        | ShortcutAction::PianoRollZoomReset | ShortcutAction::PianoRollCursorSubdivisionPrevious
        | ShortcutAction::PianoRollCursorSubdivisionNext | ShortcutAction::PianoRollScrollUp
        | ShortcutAction::PianoRollScrollDown => ShortcutGroup::PianoRoll,
        ShortcutAction::TransportPlayPause | ShortcutAction::TransportRewind
        | ShortcutAction::ToggleMetronome => ShortcutGroup::Transport,
        _ => ShortcutGroup::EditorWidget,
    }
}

/// The handler that receives `action`.
pub fn shortcut_group(action: ShortcutAction) -> (g: ShortcutGroup)
    ensures
        g == spec_shortcut_group(action),
{
    match action {
        ShortcutAction::QuitApp | ShortcutAction::OpenActions
        | ShortcutAction::OpenSettingsFile => ShortcutGroup::App,
        ShortcutAction::FileBrowserUndo | ShortcutAction::FileBrowserRedo
        | ShortcutAction::FileBrowserCut | ShortcutAction::FileBrowserCopy
        | ShortcutAction::FileBrowserPaste | ShortcutAction::FileBrowserRename
        | ShortcutAction::FileBrowserDelete => ShortcutGroup::FileBrowser,
        ShortcutAction::NewEditor | ShortcutAction::OpenEditorFile
        | ShortcutAction::ToggleFileBrowser | ShortcutAction::SaveEditor
        | ShortcutAction::CloseEditorTab | ShortcutAction::SwitchEditorTabPrevious
        | ShortcutAction::SwitchEditorTabNext | ShortcutAction::EditorZoomIn
        | ShortcutAction::EditorZoomOut | ShortcutAction::EditorZoomReset => ShortcutGroup::EditorShell,
        ShortcutAction::ToggleWorkspacePane(_) | ShortcutAction::SwitchWorkspaceTabPrevious
        | ShortcutAction::SwitchWorkspaceTabNext | ShortcutAction::FocusWorkspacePanePrevious
        | ShortcutAction::FocusWorkspacePaneNext => ShortcutGroup::Workspace,
        ShortcutAction::ScoreZoomIn | ShortcutAction::ScoreZoomOut
        | ShortcutAction::ScoreZoomReset | ShortcutAction::ScoreScrollUp
        | ShortcutAction::ScoreScrollDown | ShortcutAction::ScorePrevPage
        | ShortcutAction::ScoreNextPage => ShortcutGroup::Score,
        ShortcutAction::PianoRollZoomIn | ShortcutAction::PianoRollZoomOut
        | ShortcutAction::PianoRollZoomReset | ShortcutAction::PianoRollCursorSubdivisionPrevious
        | ShortcutAction::PianoRollCursorSubdivisionNext | ShortcutAction::PianoRollScrollUp
        | ShortcutAction::PianoRollScrollDown => ShortcutGroup::PianoRoll,
        ShortcutAction::TransportPlayPause | ShortcutAction::TransportRewind
        | ShortcutAction::ToggleMetronome => ShortcutGroup::Transport,
        _ => ShortcutGroup::EditorWidget,
    }
}

/// Left or right, for word-wise cursor moves.
#[derive(Debug, Clone, Copy, PartialEq, Eq, Structural)]
pub enum ArrowDirection {
    Left,
    Right,
}

/// A command for the code editor widget; the flag of the edge moves says whether the
/// selection is extended.
#[derive(Debug, Clone, Copy, PartialEq, Eq, Structural)]
pub enum EditorWidgetCommand {
    Undo,
    Redo,
    Copy,
    Paste,
    OpenSearch,
    OpenSearchReplace,
    OpenGotoLine,
    TriggerCompletion,
    FindNext,
    FindPrevious,
    WordArrowKey(ArrowDirection, bool),
    DeleteWordBackward,
    DeleteWordForward,
    DeleteToLineStart,
    DeleteToLineEnd,
    Home(bool),
    End(bool),
    DocumentHome(bool),
    DocumentEnd(bool),
    InsertLineBelow,
    InsertLineAbove,
    DeleteLine,
    MoveLineUp,
    MoveLineDown,
    CopyLineUp,
    CopyLineDown,
    JoinLines,
    DeleteSelection,
    SelectAll,
    SelectLine,
    Tab,
    ShiftTab,
    ToggleLineComment,
    ToggleBlockComment,
    JumpToMatchingBracket,
    CloseSearch,
    CloseGotoLine,
}

/// The first of two options that is present.
pub open spec fn or_opt<T>(a: Option<T>, b: Option<T>) -> Option<T> {
    if a is Some {
        a
    } else {
        b
    }
}

/// Undo and redo in the editor.
pub open spec fn spec_editor_undo_redo(action: ShortcutAction) -> Option<EditorWidgetCommand> {
    match action {
        ShortcutAction::EditorUndo => Some(EditorWidgetCommand::Undo),
        ShortcutAction::EditorRedo => Some(EditorWidgetCommand::Redo),
        _ => None,
    }
}

/// Copy and paste in the editor.
pub open spec fn spec_editor_clipboard(action: ShortcutAction) -> Option<EditorWidgetCommand> {
    match action {
        ShortcutAction::EditorCopy => Some(EditorWidgetCommand::Copy),
        ShortcutAction::EditorPaste => Some(EditorWidgetCommand::Paste),
        _ => None,
    }
}

/// Opening the search and replace panels.
pub open spec fn spec_editor_search_open(action: ShortcutAction) -> Option<EditorWidgetCommand> {
    match action {
        ShortcutAction::EditorOpenSearch => Some(EditorWidgetCommand::OpenSearch),
        ShortcutAction::EditorOpenSearchReplace => Some(EditorWidgetCommand::OpenSearchReplace),
        _ => None,
    }
}

/// Going to a line and asking for completions.
pub open spec fn spec_editor_goto_completion(action: ShortcutAction) -> Option<
    EditorWidgetCommand,
> {
    match action {
        ShortcutAction::EditorOpenGotoLine => Some(EditorWidgetCommand::OpenGotoLine),
        ShortcutAction::EditorTriggerCompletion => Some(EditorWidgetCommand::TriggerCompletion),
        _ => None,
    }
}

/// Moving between search matches.
pub open spec fn spec_editor_search_navigation(action: ShortcutAction) -> Option<
    EditorWidgetCommand,
> {
    match action {
        ShortcutAction::EditorFindNext => Some(EditorWidgetCommand::FindNext),
        ShortcutAction::EditorFindPrevious => Some(EditorWidgetCommand::FindPrevious),
        _ => None,
    }
}

/// Word-wise moves, selecting or not.
pub open spec fn spec_editor_word_arrow(action: ShortcutAction, select: bool) -> Option<
    EditorWidgetCommand,
> {
    match (action, select) {
        (ShortcutAction::EditorWordLeft, false) | (ShortcutAction::EditorWordLeftSelect, true) => Some(
            EditorWidgetCommand::WordArrowKey(ArrowDirection::Left, select),
        ),
        (ShortcutAction::EditorWordRight, false) | (ShortcutAction::EditorWordRightSelect, true) => Some(
            EditorWidgetCommand::WordArrowKey(ArrowDirection::Right, select),
        ),
        _ => None,
    }
}

/// Deleting a word at a time.
pub open spec fn spec_editor_word_boundary_delete(action: ShortcutAction) -> Option<
    EditorWidgetCommand,
> {
    match action {
        ShortcutAction::EditorDeleteWordBackward => Some(EditorWidgetCommand::DeleteWordBackward),
        ShortcutAction::EditorDeleteWordForward => Some(EditorWidgetCommand::DeleteWordForward),
        _ => None,
    }
}

/// Deleting to either end of the line.
pub open spec fn spec_editor_line_edge_delete(action: ShortcutAction) -> Option<
    EditorWidgetCommand,
> {
    match action {
        ShortcutAction::EditorDeleteToLineStart => Some(EditorWidgetCommand::DeleteToLineStart),
        ShortcutAction::EditorDeleteToLineEnd => Some(EditorWidgetCommand::DeleteToLineEnd),
        _ => None,
    }
}

/// Whether an edge move covers the line or the whole document.
#[derive(Debug, Clone, Copy, PartialEq, Eq, Structural)]
pub enum EditorEdgeScope {
    Line,
    Document,
}

/// Moves to the start or end of the line or document, selecting or not.
pub open spec fn spec_editor_edge(
    action: ShortcutAction,
    select: bool,
    scope: EditorEdgeScope,
) -> Option<EditorWidgetCommand> {
    match scope {
        EditorEdgeScope::Line => match (action, select) {
            (ShortcutAction::EditorLineStart, false) | (ShortcutAction::EditorLineStartSelect, true) => Some(
                EditorWidgetCommand::Home(select),
            ),
            (ShortcutAction::EditorLineEnd, false) | (ShortcutAction::EditorLineEndSelect, true) => Some(
                EditorWidgetCommand::End(select),
            ),
            _ => None,
        },
        EditorEdgeScope::Document => match (action, select) {
            (ShortcutAction::EditorDocumentStart, false)
            | (ShortcutAction::EditorDocumentStartSelect, true) => Some(
                EditorWidgetCommand::DocumentHome(select),
            ),
            (ShortcutAction::EditorDocumentEnd, false)
            | (ShortcutAction::EditorDocumentEndSelect, true) => Some(
                EditorWidgetCommand::DocumentEnd(select),
            ),
            _ => None,
        },
    }
}

/// Inserting and deleting lines.
pub open spec fn spec_editor_line_insert_delete(action: ShortcutAction) -> Option<
    EditorWidgetCommand,
> {
    match action {
        ShortcutAction::EditorInsertLineBelow => Some(EditorWidgetCommand::InsertLineBelow),
        ShortcutAction::EditorInsertLineAbove => Some(EditorWidgetCommand::InsertLineAbove),
        ShortcutAction::EditorDeleteLine => Some(EditorWidgetCommand::DeleteLine),
        _ => None,
    }
}

/// Moving lines up and down.
pub open spec fn spec_editor_line_move(action: ShortcutAction) -> Option<EditorWidgetCommand> {
    match action {
        ShortcutAction::EditorMoveLineUp => Some(EditorWidgetCommand::MoveLineUp),
        ShortcutAction::EditorMoveLineDown => Some(EditorWidgetCommand::MoveLineDown),
        _ => None,
    }
}

/// Copying lines up and down, and joining lines.
pub open spec fn spec_editor_line_copy_join(action: ShortcutAction) -> Option<
    EditorWidgetCommand,
> {
    match action {
        ShortcutAction::EditorCopyLineUp => Some(EditorWidgetCommand::CopyLineUp),
        ShortcutAction::EditorCopyLineDown => Some(EditorWidgetCommand::CopyLineDown),
        ShortcutAction::EditorJoinLines => Some(EditorWidgetCommand::JoinLines),
        _ => None,
    }
}

/// Deleting and making selections.
pub open spec fn spec_editor_selection(action: ShortcutAction) -> Option<EditorWidgetCommand> {
    match action {
        ShortcutAction::EditorDeleteSelection => Some(EditorWidgetCommand::DeleteSelection),
        ShortcutAction::EditorSelectAll => Some(EditorWidgetCommand::SelectAll),
        ShortcutAction::EditorSelectLine => Some(EditorWidgetCommand::SelectLine),
        _ => None,
    }
}

/// Indenting and outdenting.
pub open spec fn spec_editor_indent(action: ShortcutAction) -> Option<EditorWidgetCommand> {
    match action {
        ShortcutAction::EditorIndent => Some(EditorWidgetCommand::Tab),
        ShortcutAction::EditorOutdent => Some(EditorWidgetCommand::ShiftTab),
        _ => None,
    }
}

/// Commenting lines and blocks.
pub open spec fn spec_editor_comment(action: ShortcutAction) -> Option<EditorWidgetCommand> {
    match action {
        ShortcutAction::EditorToggleLineComment => Some(EditorWidgetCommand::ToggleLineComment),
        ShortcutAction::EditorToggleBlockComment => Some(EditorWidgetCommand::ToggleBlockComment),
        _ => None,
    }
}

/// Jumping to the matching bracket.
pub open spec fn spec_editor_bracket(action: ShortcutAction) -> Option<EditorWidgetCommand> {
    match action {
        ShortcutAction::EditorJumpToMatchingBracket => Some(
            EditorWidgetCommand::JumpToMatchingBracket,
        ),
        _ => None,
    }
}

/// Editing history and the clipboard.
pub open spec fn spec_editor_history(action: ShortcutAction) -> Option<EditorWidgetCommand> {
    or_opt(spec_editor_undo_redo(action), spec_editor_clipboard(action))
}

/// The search panels.
pub open spec fn spec_editor_search_panel(action: ShortcutAction) -> Option<EditorWidgetCommand> {
    or_opt(spec_editor_search_open(action), spec_editor_goto_completion(action))
}

/// Search panels and match navigation.
pub open spec fn spec_editor_search(action: ShortcutAction) -> Option<EditorWidgetCommand> {
    or_opt(spec_editor_search_panel(action), spec_editor_search_navigation(action))
}

/// Word-wise moves.
pub open spec fn spec_editor_word_navigation(action: ShortcutAction) -> Option<
    EditorWidgetCommand,
> {
    or_opt(spec_editor_word_arrow(action, false), spec_editor_word_arrow(action, true))
}

/// Word-wise and line-edge deletions.
pub open spec fn spec_editor_word_delete(action: ShortcutAction) -> Option<EditorWidgetCommand> {
    or_opt(spec_editor_word_boundary_delete(action), spec_editor_line_edge_delete(action))
}

/// Word-wise moves and deletions.
pub open spec fn spec_editor_word(action: ShortcutAction) -> Option<EditorWidgetCommand> {
    or_opt(spec_editor_word_navigation(action), spec_editor_word_delete(action))
}

/// Moves to the line's ends.
pub open spec fn spec_editor_line_navigation(action: ShortcutAction) -> Option<
    EditorWidgetCommand,
> {
    or_opt(
        spec_editor_edge(action, false, EditorEdgeScope::Line),
        spec_editor_edge(action, true, EditorEdgeScope::Line),
    )
}

/// Line edits.
pub open spec fn spec_editor_line_edit(action: ShortcutAction) -> Option<EditorWidgetCommand> {
    or_opt(
        or_opt(spec_editor_line_insert_delete(action), spec_editor_line_move(action)),
        spec_editor_line_copy_join(action),
    )
}

/// Line moves and edits.
pub open spec fn spec_editor_line(action: ShortcutAction) -> Option<EditorWidgetCommand> {
    or_opt(spec_editor_line_navigation(action), spec_editor_line_edit(action))
}

/// Moves to the document's ends.
pub open spec fn spec_editor_document(action: ShortcutAction) -> Option<EditorWidgetCommand> {
    or_opt(
        spec_editor_edge(action, false, EditorEdgeScope::Document),
        spec_editor_edge(action, true, EditorEdgeScope::Document),
    )
}

/// Selections, indentation, comments and brackets.
pub open spec fn spec_editor_misc(action: ShortcutAction) -> Option<EditorWidgetCommand> {
    or_opt(
        or_opt(
            or_opt(spec_editor_selection(action), spec_editor_indent(action)),
            spec_editor_comment(action),
        ),
        spec_editor_bracket(action),
    )
}

/// The editor command of a shortcut, if it has one.
pub open spec fn spec_editor_widget_command(action: ShortcutAction) -> Option<EditorWidgetCommand> {
    or_opt(
        or_opt(
            or_opt(
                or_opt(
                    or_opt(spec_editor_history(action), spec_editor_search(action)),
                    spec_editor_word(action),
                ),
                spec_editor_line(action),
            ),
            spec_editor_document(action),
        ),
        spec_editor_misc(action),
    )
}

/// Undo and redo in the editor.
pub fn editor_undo_redo_message(action: ShortcutAction) -> (r: Option<EditorWidgetCommand>)
    ensures
        r == spec_editor_undo_redo(action),
{
    match action {
        ShortcutAction::EditorUndo => Some(EditorWidgetCommand::Undo),
        ShortcutAction::EditorRedo => Some(EditorWidgetCommand::Redo),
        _ => None,
    }
}

/// Copy and paste in the editor; the pasted text is fetched from the clipboard later.
pub fn editor_clipboard_message(action: ShortcutAction) -> (r: Option<EditorWidgetCommand>)
    ensures
        r == spec_editor_clipboard(action),
{
    match action {
        ShortcutAction::EditorCopy => Some(EditorWidgetCommand::Copy),
        ShortcutAction::EditorPaste => Some(EditorWidgetCommand::Paste),
        _ => None,
    }
}

/// Editing history and the clipboard.
pub fn editor_history_message(action: ShortcutAction) -> (r: Option<EditorWidgetCommand>)
    ensures
        r == spec_editor_history(action),
{
    match editor_undo_redo_message(action) {
        Some(m) => Some(m),
        None => editor_clipboard_message(action),
    }
}

/// Opening the search and replace panels.
pub fn editor_search_open_message(action: ShortcutAction) -> (r: Option<EditorWidgetCommand>)
    ensures
        r == spec_editor_search_open(action),
{
    match action {
        ShortcutAction::EditorOpenSearch => Some(EditorWidgetCommand::OpenSearch),
        ShortcutAction::EditorOpenSearchReplace => Some(EditorWidgetCommand::OpenSearchReplace),
        _ => None,
    }
}

/// Going to a line and asking for completions.
pub fn editor_goto_completion_message(action: ShortcutAction) -> (r: Option<EditorWidgetCommand>)
    ensures
        r == spec_editor_goto_completion(action),
{
    match action {
        ShortcutAction::EditorOpenGotoLine => Some(EditorWidgetCommand::OpenGotoLine),
        ShortcutAction::EditorTriggerCompletion => Some(EditorWidgetCommand::TriggerCompletion),
        _ => None,
    }
}

/// The search panels.
pub fn editor_search_panel_message(action: ShortcutAction) -> (r: Option<EditorWidgetCommand>)
    ensures
        r == spec_editor_search_panel(action),
{
    match editor_search_open_message(action) {
        Some(m) => Some(m),
        None => editor_goto_completion_message(action),
    }
}

/// Moving between search matches.
pub fn editor_search_navigation_message(action: ShortcutAction) -> (r: Option<
    EditorWidgetCommand,
>)
    ensures
        r == spec_editor_search_navigation(action),
{
    match action {
        ShortcutAction::EditorFindNext => Some(EditorWidgetCommand::FindNext),
        ShortcutAction::EditorFindPrevious => Some(EditorWidgetCommand::FindPrevious),
        _ => None,
    }
}

/// Search panels and match navigation.
pub fn editor_search_message(action: ShortcutAction) -> (r: Option<EditorWidgetCommand>)
    ensures
        r == spec_editor_search(action),
{
    match editor_search_panel_message(action) {
        Some(m) => Some(m),
        None => editor_search_navigation_message(action),
    }
}

/// A word-wise move; with `select` only the selecting shortcuts match, without it only the
/// plain ones.
pub fn editor_word_arrow_message(action: ShortcutAction, select: bool) -> (r: Option<
    EditorWidgetCommand,
>)
    ensures
        r == spec_editor_word_arrow(action, select),
{
    let direction = match (action, select) {
        (ShortcutAction::EditorWordLeft, false) | (ShortcutAction::EditorWordLeftSelect, true) => {
            ArrowDirection::Left
        },
        (ShortcutAction::EditorWordRight, false) | (ShortcutAction::EditorWordRightSelect, true) => {
            ArrowDirection::Right
        },
        _ => return None,
    };
    Some(EditorWidgetCommand::WordArrowKey(direction, select))
}

/// Word-wise moves.
pub fn editor_word_navigation_message(action: ShortcutAction) -> (r: Option<EditorWidgetCommand>)
    ensures
        r == spec_editor_word_navigation(action),
{
    match editor_word_arrow_message(action, false) {
        Some(m) => Some(m),
        None => editor_word_arrow_message(action, true),
    }
}

/// Deleting a word at a time.
pub fn editor_word_boundary_delete_message(action: ShortcutAction) -> (r: Option<
    EditorWidgetCommand,
>)
    ensures
        r == spec_editor_word_boundary_delete(action),
{
    match action {
        ShortcutAction::EditorDeleteWordBackward => Some(EditorWidgetCommand::DeleteWordBackward),
        ShortcutAction::EditorDeleteWordForward => Some(EditorWidgetCommand::DeleteWordForward),
        _ => None,
    }
}

/// Deleting to either end of the line.
pub fn editor_line_edge_delete_message(action: ShortcutAction) -> (r: Option<EditorWidgetCommand>)
    ensures
        r == spec_editor_line_edge_delete(action),
{
    match action {
        ShortcutAction::EditorDeleteToLineStart => Some(EditorWidgetCommand::DeleteToLineStart),
        ShortcutAction::EditorDeleteToLineEnd => Some(EditorWidgetCommand::DeleteToLineEnd),
        _ => None,
    }
}

/// Word-wise and line-edge deletions.
pub fn editor_word_delete_message(action: ShortcutAction) -> (r: Option<EditorWidgetCommand>)
    ensures
        r == spec_editor_word_delete(action),
{
    match editor_word_boundary_delete_message(action) {
        Some(m) => Some(m),
        None => editor_line_edge_delete_message(action),
    }
}

/// Word-wise moves and deletions.
pub fn editor_word_message(action: ShortcutAction) -> (r: Option<EditorWidgetCommand>)
    ensures
        r == spec_editor_word(action),
{
    match editor_word_navigation_message(action) {
        Some(m) => Some(m),
        None => editor_word_delete_message(action),
    }
}

/// The four shortcuts of one kind of edge move, and the commands they become.
#[derive(Debug, Clone, Copy, PartialEq, Eq, Structural)]
pub struct EdgeActions {
    pub start: ShortcutAction,
    pub start_select: ShortcutAction,
    pub end: ShortcutAction,
    pub end_select: ShortcutAction,
}

/// The start command of an edge move of `scope`.
pub open spec fn edge_start_command(scope: EditorEdgeScope, select: bool) -> EditorWidgetCommand {
    match scope {
        EditorEdgeScope::Line => EditorWidgetCommand::Home(select),
        EditorEdgeScope::Document => EditorWidgetCommand::DocumentHome(select),
    }
}

/// The end command of an edge move of `scope`.
pub open spec fn edge_end_command(scope: EditorEdgeScope, select: bool) -> EditorWidgetCommand {
    match scope {
        EditorEdgeScope::Line => EditorWidgetCommand::End(select),
        EditorEdgeScope::Document => EditorWidgetCommand::DocumentEnd(select),
    }
}

/// An edge move of `scope`: the plain start or end shortcut without `select`, the selecting
/// one with it.
pub fn editor_scoped_edge_message(
    action: ShortcutAction,
    select: bool,
    actions: EdgeActions,
    scope: EditorEdgeScope,
) -> (r: Option<EditorWidgetCommand>)
    ensures
        r == if (action == actions.start && !select) || (action == actions.start_select && select) {
            Some(edge_start_command(scope, select))
        } else if (action == actions.end && !select) || (action == actions.end_select && select) {
            Some(edge_end_command(scope, select))
        } else {
            None
        },
{
    if (action == actions.start && !select) || (action == actions.start_select && select) {
        return Some(
            match scope {
                EditorEdgeScope::Line => EditorWidgetCommand::Home(select),
                EditorEdgeScope::Document => EditorWidgetCommand::DocumentHome(select),
            },
        );
    }
    if (action == actions.end && !select) || (action == actions.end_select && select) {
        return Some(
            match scope {
                EditorEdgeScope::Line => EditorWidgetCommand::End(select),
                EditorEdgeScope::Document => EditorWidgetCommand::DocumentEnd(select),
            },
        );
    }
    None
}

/// Moves to the start or end of the line or document.
pub fn editor_edge_message(action: ShortcutAction, select: bool, scope: EditorEdgeScope) -> (r:
    Option<EditorWidgetCommand>)
    ensures
        r == spec_editor_edge(action, select, scope),
{
    match scope {
        EditorEdgeScope::Line => editor_scoped_edge_message(
            action,
            select,
            EdgeActions {
                start: ShortcutAction::EditorLineStart,
                start_select: ShortcutAction::EditorLineStartSelect,
                end: ShortcutAction::EditorLineEnd,
                end_select: ShortcutAction::EditorLineEndSelect,
            },
            scope,
        ),
        EditorEdgeScope::Document => editor_scoped_edge_message(
            action,
            select,
            EdgeActions {
                start: ShortcutAction::EditorDocumentStart,
                start_select: ShortcutAction::EditorDocumentStartSelect,
                end: ShortcutAction::EditorDocumentEnd,
                end_select: ShortcutAction::EditorDocumentEndSelect,
            },
            scope,
        ),
    }
}

/// Moves to the line's ends, selecting or not.
pub fn editor_line_arrow_message(action: ShortcutAction, select: bool) -> (r: Option<
    EditorWidgetCommand,
>)
    ensures
        r == spec_editor_edge(action, select, EditorEdgeScope::Line),
{
    editor_edge_message(action, select, EditorEdgeScope::Line)
}

/// Moves to the document's ends, selecting or not.
pub fn editor_document_edge_message(action: ShortcutAction, select: bool) -> (r: Option<
    EditorWidgetCommand,
>)
    ensures
        r == spec_editor_edge(action, select, EditorEdgeScope::Document),
{
    editor_edge_message(action, select, EditorEdgeScope::Document)
}

/// Moves to the line's ends.
pub fn editor_line_navigation_message(action: ShortcutAction) -> (r: Option<EditorWidgetCommand>)
    ensures
        r == spec_editor_line_navigation(action),
{
    match editor_line_arrow_message(action, false) {
        Some(m) => Some(m),
        None => editor_line_arrow_message(action, true),
    }
}

/// Inserting and deleting lines.
pub fn editor_line_insert_delete_message(action: ShortcutAction) -> (r: Option<
    EditorWidgetCommand,
>)
    ensures
        r == spec_editor_line_insert_delete(action),
{
    match action {
        ShortcutAction::EditorInsertLineBelow => Some(EditorWidgetCommand::InsertLineBelow),
        ShortcutAction::EditorInsertLineAbove => Some(EditorWidgetCommand::InsertLineAbove),
        ShortcutAction::EditorDeleteLine => Some(EditorWidgetCommand::DeleteLine),
        _ => None,
    }
}

/// Moving lines up and down.
pub fn editor_line_move_message(action: ShortcutAction) -> (r: Option<EditorWidgetCommand>)
    ensures
        r == spec_editor_line_move(action),
{
    match action {
        ShortcutAction::EditorMoveLineUp => Some(EditorWidgetCommand::MoveLineUp),
        ShortcutAction::EditorMoveLineDown => Some(EditorWidgetCommand::MoveLineDown),
        _ => None,
    }
}

/// Copying lines up and down, and joining lines.
pub fn editor_line_copy_join_message(action: ShortcutAction) -> (r: Option<EditorWidgetCommand>)
    ensures
        r == spec_editor_line_copy_join(action),
{
    match action {
        ShortcutAction::EditorCopyLineUp => Some(EditorWidgetCommand::CopyLineUp),
        ShortcutAction::EditorCopyLineDown => Some(EditorWidgetCommand::CopyLineDown),
        ShortcutAction::EditorJoinLines => Some(EditorWidgetCommand::JoinLines),
        _ => None,
    }
}

/// Line edits.
pub fn editor_line_edit_message(action: ShortcutAction) -> (r: Option<EditorWidgetCommand>)
    ensures
        r == spec_editor_line_edit(action),
{
    match editor_line_insert_delete_message(action) {
        Some(m) => Some(m),
        None => match editor_line_move_message(action) {
            Some(m) => Some(m),
            None => editor_line_copy_join_message(action),
        },
    }
}

/// Line moves and edits.
pub fn editor_line_message(action: ShortcutAction) -> (r: Option<EditorWidgetCommand>)
    ensures
        r == spec_editor_line(action),
{
    match editor_line_navigation_message(action) {
        Some(m) => Some(m),
        None => editor_line_edit_message(action),
    }
}

/// Moves to the document's ends.
pub fn editor_document_message(action: ShortcutAction) -> (r: Option<EditorWidgetCommand>)
    ensures
        r == spec_editor_document(action),
{
    match editor_document_edge_message(action, false) {
        Some(m) => Some(m),
        None => editor_document_edge_message(action, true),
    }
}

/// Deleting and making selections.
pub fn editor_selection_message(action: ShortcutAction) -> (r: Option<EditorWidgetCommand>)
    ensures
        r == spec_editor_selection(action),
{
    match action {
        ShortcutAction::EditorDeleteSelection => Some(EditorWidgetCommand::DeleteSelection),
        ShortcutAction::EditorSelectAll => Some(EditorWidgetCommand::SelectAll),
        ShortcutAction::EditorSelectLine => Some(EditorWidgetCommand::SelectLine),
        _ => None,
    }
}

/// Indenting and outdenting.
pub fn editor_indent_message(action: ShortcutAction) -> (r: Option<EditorWidgetCommand>)
    ensures
        r == spec_editor_indent(action),
{
    match action {
        ShortcutAction::EditorIndent => Some(EditorWidgetCommand::Tab),
        ShortcutAction::EditorOutdent => Some(EditorWidgetCommand::ShiftTab),
        _ => None,
    }
}

/// Commenting lines and blocks.
pub fn editor_comment_message(action: ShortcutAction) -> (r: Option<EditorWidgetCommand>)
    ensures
        r == spec_editor_comment(action),
{
    match action {
        ShortcutAction::EditorToggleLineComment => Some(EditorWidgetCommand::ToggleLineComment),
        ShortcutAction::EditorToggleBlockComment => Some(EditorWidgetCommand::ToggleBlockComment),
        _ => None,
    }
}

/// Jumping to the matching bracket.
pub fn editor_bracket_message(action: ShortcutAction) -> (r: Option<EditorWidgetCommand>)
    ensures
        r == spec_editor_bracket(action),
{
    match action {
        ShortcutAction::EditorJumpToMatchingBracket => Some(
            EditorWidgetCommand::JumpToMatchingBracket,
        ),
        _ => None,
    }
}

/// Selections, indentation, comments and brackets.
pub fn editor_misc_message(action: ShortcutAction) -> (r: Option<EditorWidgetCommand>)
    ensures
        r == spec_editor_misc(action),
{
    match editor_selection_message(action) {
        Some(m) => Some(m),
        None => match editor_indent_message(action) {
            Some(m) => Some(m),
            None => match editor_comment_message(action) {
                Some(m) => Some(m),
                None => editor_bracket_message(action),
            },
        },
    }
}

/// The editor command of a shortcut, if it has one.
pub fn editor_widget_message_for_shortcut(action: ShortcutAction) -> (r: Option<
    EditorWidgetCommand,
>)
    ensures
        r == spec_editor_widget_command(action),
{
    if let Some(m) = editor_history_message(action) {
        return Some(m);
    }
    if let Some(m) = editor_search_message(action) {
        return Some(m);
    }
    if let Some(m) = editor_word_message(action) {
        return Some(m);
    }
    if let Some(m) = editor_line_message(action) {
        return Some(m);
    }
    if let Some(m) = editor_document_message(action) {
        return Some(m);
    }
    editor_misc_message(action)
}

/// A shortcut has an editor command exactly when the editor widget group handles it.
pub proof fn law_editor_commands_belong_to_editor(action: ShortcutAction)
    ensures
        spec_editor_widget_command(action) is Some <==> spec_shortcut_group(action)
            == ShortcutGroup::EditorWidget,
{
}

/// No two shortcuts give the same editor command.
pub proof fn law_editor_commands_distinct(a: ShortcutAction, b: ShortcutAction)
    requires
        spec_editor_widget_command(a) is Some,
        spec_editor_widget_command(a) == spec_editor_widget_command(b),
    ensures
        a == b,
{
}

/// Each editor shortcut runs the editor command it is named for: moves and copies keep their
/// direction (up is up, left is left), the selecting variants select, and indenting and
/// outdenting are Tab and Shift-Tab.
pub proof fn law_editor_shortcuts_run_their_named_commands()
    ensures
        spec_editor_widget_command(ShortcutAction::EditorUndo) == Some(EditorWidgetCommand::Undo),
        spec_editor_widget_command(ShortcutAction::EditorRedo) == Some(EditorWidgetCommand::Redo),
        spec_editor_widget_command(ShortcutAction::EditorCopy) == Some(EditorWidgetCommand::Copy),
        spec_editor_widget_command(ShortcutAction::EditorPaste) == Some(EditorWidgetCommand::Paste),
        spec_editor_widget_command(ShortcutAction::EditorOpenSearch) == Some(EditorWidgetCommand::OpenSearch),
        spec_editor_widget_command(ShortcutAction::EditorOpenSearchReplace) == Some(EditorWidgetCommand::OpenSearchReplace),
        spec_editor_widget_command(ShortcutAction::EditorOpenGotoLine) == Some(EditorWidgetCommand::OpenGotoLine),
        spec_editor_widget_command(ShortcutAction::EditorTriggerCompletion) == Some(EditorWidgetCommand::TriggerCompletion),
        spec_editor_widget_command(ShortcutAction::EditorFindNext) == Some(EditorWidgetCommand::FindNext),
        spec_editor_widget_command(ShortcutAction::EditorFindPrevious) == Some(EditorWidgetCommand::FindPrevious),
        spec_editor_widget_command(ShortcutAction::EditorWordLeft) == Some(EditorWidgetCommand::WordArrowKey(ArrowDirection::Left, false)),
        spec_editor_widget_command(ShortcutAction::EditorWordLeftSelect) == Some(EditorWidgetCommand::WordArrowKey(ArrowDirection::Left, true)),
        spec_editor_widget_command(ShortcutAction::EditorWordRight) == Some(EditorWidgetCommand::WordArrowKey(ArrowDirection::Right, false)),
        spec_editor_widget_command(ShortcutAction::EditorWordRightSelect) == Some(EditorWidgetCommand::WordArrowKey(ArrowDirection::Right, true)),
        spec_editor_widget_command(ShortcutAction::EditorDeleteWordBackward) == Some(EditorWidgetCommand::DeleteWordBackward),
        spec_editor_widget_command(ShortcutAction::EditorDeleteWordForward) == Some(EditorWidgetCommand::DeleteWordForward),
        spec_editor_widget_command(ShortcutAction::EditorDeleteToLineStart) == Some(EditorWidgetCommand::DeleteToLineStart),
        spec_editor_widget_command(ShortcutAction::EditorDeleteToLineEnd) == Some(EditorWidgetCommand::DeleteToLineEnd),
        spec_editor_widget_command(ShortcutAction::EditorLineStart) == Some(EditorWidgetCommand::Home(false)),
        spec_editor_widget_command(ShortcutAction::EditorLineStartSelect) == Some(EditorWidgetCommand::Home(true)),
        spec_editor_widget_command(ShortcutAction::EditorLineEnd) == Some(EditorWidgetCommand::End(false)),
        spec_editor_widget_command(ShortcutAction::EditorLineEndSelect) == Some(EditorWidgetCommand::End(true)),
        spec_editor_widget_command(ShortcutAction::EditorDocumentStart) == Some(EditorWidgetCommand::DocumentHome(false)),
        spec_editor_widget_command(ShortcutAction::EditorDocumentStartSelect) == Some(EditorWidgetCommand::DocumentHome(true)),
        spec_editor_widget_command(ShortcutAction::EditorDocumentEnd) == Some(EditorWidgetCommand::DocumentEnd(false)),
        spec_editor_widget_command(ShortcutAction::EditorDocumentEndSelect) == Some(EditorWidgetCommand::DocumentEnd(true)),
        spec_editor_widget_command(ShortcutAction::EditorInsertLineBelow) == Some(EditorWidgetCommand::InsertLineBelow),
        spec_editor_widget_command(ShortcutAction::EditorInsertLineAbove) == Some(EditorWidgetCommand::InsertLineAbove),
        spec_editor_widget_command(ShortcutAction::EditorDeleteLine) == Some(EditorWidgetCommand::DeleteLine),
        spec_editor_widget_command(ShortcutAction::EditorMoveLineUp) == Some(EditorWidgetCommand::MoveLineUp),
        spec_editor_widget_command(ShortcutAction::EditorMoveLineDown) == Some(EditorWidgetCommand::MoveLineDown),
        spec_editor_widget_command(ShortcutAction::EditorCopyLineUp) == Some(EditorWidgetCommand::CopyLineUp),
        spec_editor_widget_command(ShortcutAction::EditorCopyLineDown) == Some(EditorWidgetCommand::CopyLineDown),
        spec_editor_widget_command(ShortcutAction::EditorJoinLines) == Some(EditorWidgetCommand::JoinLines),
        spec_editor_widget_command(ShortcutAction::EditorDeleteSelection) == Some(EditorWidgetCommand::DeleteSelection),
        spec_editor_widget_command(ShortcutAction::EditorSelectAll) == Some(EditorWidgetCommand::SelectAll),
        spec_editor_widget_command(ShortcutAction::EditorSelectLine) == Some(EditorWidgetCommand::SelectLine),
        spec_editor_widget_command(ShortcutAction::EditorIndent) == Some(EditorWidgetCommand::Tab),
        spec_editor_widget_command(ShortcutAction::EditorOutdent) == Some(EditorWidgetCommand::ShiftTab),
        spec_editor_widget_command(ShortcutAction::EditorToggleLineComment) == Some(EditorWidgetCommand::ToggleLineComment),
        spec_editor_widget_command(ShortcutAction::EditorToggleBlockComment) == Some(EditorWidgetCommand::ToggleBlockComment),
        spec_editor_widget_command(ShortcutAction::EditorJumpToMatchingBracket) == Some(EditorWidgetCommand::JumpToMatchingBracket),
{
}

/// A request from the editor pane's shell: files, the browser panel, and browser clipboard
/// and edits.
#[derive(Debug, Clone, Copy, PartialEq, Eq, Structural)]
pub enum EditorShellRequest {
    NewRequested,
    OpenRequested,
    SaveRequested,
    ToggleFileBrowser,
    FileBrowserCutRequested,
    FileBrowserCopyRequested,
    FileBrowserPasteRequested,
    FileBrowserRenameRequested,
    FileBrowserTrashRequested,
}

/// New, open and save.
pub open spec fn spec_editor_file_lifecycle(action: ShortcutAction) -> Option<EditorShellRequest> {
    match action {
        ShortcutAction::NewEditor => Some(EditorShellRequest::NewRequested),
        ShortcutAction::OpenEditorFile => Some(EditorShellRequest::OpenRequested),
        ShortcutAction::SaveEditor => Some(EditorShellRequest::SaveRequested),
        _ => None,
    }
}

/// Showing and hiding the file browser.
pub open spec fn spec_editor_file_browser_shell(action: ShortcutAction) -> Option<
    EditorShellRequest,
> {
    match action {
        ShortcutAction::ToggleFileBrowser => Some(EditorShellRequest::ToggleFileBrowser),
        _ => None,
    }
}

/// New, open and save.
pub fn editor_file_lifecycle_message(action: ShortcutAction) -> (r: Option<EditorShellRequest>)
    ensures
        r == spec_editor_file_lifecycle(action),
{
    match action {
        ShortcutAction::NewEditor => Some(EditorShellRequest::NewRequested),
        ShortcutAction::OpenEditorFile => Some(EditorShellRequest::OpenRequested),
        ShortcutAction::SaveEditor => Some(EditorShellRequest::SaveRequested),
        _ => None,
    }
}

/// Showing and hiding the file browser.
pub fn editor_file_browser_shell_message(action: ShortcutAction) -> (r: Option<
    EditorShellRequest,
>)
    ensures
        r == spec_editor_file_browser_shell(action),
{
    match action {
        ShortcutAction::ToggleFileBrowser => Some(EditorShellRequest::ToggleFileBrowser),
        _ => None,
    }
}

/// The editor shell request of a file shortcut.
pub fn editor_file_shell_message(action: ShortcutAction) -> (r: Option<EditorShellRequest>)
    ensures
        r == or_opt(spec_editor_file_lifecycle(action), spec_editor_file_browser_shell(action)),
{
    match editor_file_lifecycle_message(action) {
        Some(m) => Some(m),
        None => editor_file_browser_shell_message(action),
    }
}

/// Cut, copy and paste in the file browser.
pub open spec fn spec_file_browser_clipboard(action: ShortcutAction) -> Option<EditorShellRequest> {
    match action {
        ShortcutAction::FileBrowserCut => Some(EditorShellRequest::FileBrowserCutRequested),
        ShortcutAction::FileBrowserCopy => Some(EditorShellRequest::FileBrowserCopyRequested),
        ShortcutAction::FileBrowserPaste => Some(EditorShellRequest::FileBrowserPasteRequested),
        _ => None,
    }
}

/// The file browser request of a shortcut, if it has one.
pub open spec fn spec_file_browser_shortcut(action: ShortcutAction) -> Option<EditorShellRequest> {
    match action {
        ShortcutAction::FileBrowserCut => Some(EditorShellRequest::FileBrowserCutRequested),
        ShortcutAction::FileBrowserCopy => Some(EditorShellRequest::FileBrowserCopyRequested),
        ShortcutAction::FileBrowserPaste => Some(EditorShellRequest::FileBrowserPasteRequested),
        ShortcutAction::FileBrowserRename => Some(EditorShellRequest::FileBrowserRenameRequested),
        ShortcutAction::FileBrowserDelete => Some(EditorShellRequest::FileBrowserTrashRequested),
        _ => None,
    }
}

/// Cut, copy and paste in the file browser.
pub fn file_browser_clipboard_shortcut_message(action: ShortcutAction) -> (r: Option<
    EditorShellRequest,
>)
    ensures
        r == spec_file_browser_clipboard(action),
{
    match action {
        ShortcutAction::FileBrowserCut => Some(EditorShellRequest::FileBrowserCutRequested),
        ShortcutAction::FileBrowserCopy => Some(EditorShellRequest::FileBrowserCopyRequested),
        ShortcutAction::FileBrowserPaste => Some(EditorShellRequest::FileBrowserPasteRequested),
        _ => None,
    }
}

/// Renaming in the file browser.
pub fn file_browser_inline_shortcut_message(action: ShortcutAction) -> (r: Option<
    EditorShellRequest,
>)
    ensures
        r == (match action {
            ShortcutAction::FileBrowserRename => Some(EditorShellRequest::FileBrowserRenameRequested),
            _ => None,
        }),
{
    match action {
        ShortcutAction::FileBrowserRename => Some(EditorShellRequest::FileBrowserRenameRequested),
        _ => None,
    }
}

/// Moving the selection to the trash.
pub fn file_browser_destructive_shortcut_message(action: ShortcutAction) -> (r: Option<
    EditorShellRequest,
>)
    ensures
        r == (match action {
            ShortcutAction::FileBrowserDelete => Some(EditorShellRequest::FileBrowserTrashRequested),
            _ => None,
        }),
{
    match action {
        ShortcutAction::FileBrowserDelete => Some(EditorShellRequest::FileBrowserTrashRequested),
        _ => None,
    }
}

/// The file browser request of a shortcut.
pub fn file_browser_shortcut_message(action: ShortcutAction) -> (r: Option<EditorShellRequest>)
    ensures
        r == spec_file_browser_shortcut(action),
{
    match file_browser_clipboard_shortcut_message(action) {
        Some(m) => Some(m),
        None => match file_browser_inline_shortcut_message(action) {
            Some(m) => Some(m),
            None => file_browser_destructive_shortcut_message(action),
        },
    }
}

/// A command for the score viewer.
#[derive(Debug, Clone, Copy, PartialEq, Eq, Structural)]
pub enum ViewerCommand {
    ZoomIn,
    ZoomOut,
    ResetZoom,
    ScrollUp,
    ScrollDown,
    PrevPage,
    NextPage,
}

/// The score viewer command of a shortcut, if it has one.
pub open spec fn spec_score_shortcut(action: ShortcutAction) -> Option<ViewerCommand> {
    match action {
        ShortcutAction::ScoreZoomIn => Some(ViewerCommand::ZoomIn),
        ShortcutAction::ScoreZoomOut => Some(ViewerCommand::ZoomOut),
        ShortcutAction::ScoreZoomReset => Some(ViewerCommand::ResetZoom),
        ShortcutAction::ScoreScrollUp => Some(ViewerCommand::ScrollUp),
        ShortcutAction::ScoreScrollDown => Some(ViewerCommand::ScrollDown),
        ShortcutAction::ScorePrevPage => Some(ViewerCommand::PrevPage),
        ShortcutAction::ScoreNextPage => Some(ViewerCommand::NextPage),
        _ => None,
    }
}

/// Zooming the score.
pub fn score_zoom_shortcut_message(action: ShortcutAction) -> (r: Option<ViewerCommand>)
    ensures
        r == (match action {
            ShortcutAction::ScoreZoomIn => Some(ViewerCommand::ZoomIn),
            ShortcutAction::ScoreZoomOut => Some(ViewerCommand::ZoomOut),
            ShortcutAction::ScoreZoomReset => Some(ViewerCommand::ResetZoom),
            _ => None,
        }),
{
    match action {
        ShortcutAction::ScoreZoomIn => Some(ViewerCommand::ZoomIn),
        ShortcutAction::ScoreZoomOut => Some(ViewerCommand::ZoomOut),
        ShortcutAction::ScoreZoomReset => Some(ViewerCommand::ResetZoom),
        _ => None,
    }
}

/// Scrolling the score.
pub fn score_scroll_shortcut_message(action: ShortcutAction) -> (r: Option<ViewerCommand>)
    ensures
        r == (match action {
            ShortcutAction::ScoreScrollUp => Some(ViewerCommand::ScrollUp),
            ShortcutAction::ScoreScrollDown => Some(ViewerCommand::ScrollDown),
            _ => None,
        }),
{
    match action {
        ShortcutAction::ScoreScrollUp => Some(ViewerCommand::ScrollUp),
        ShortcutAction::ScoreScrollDown => Some(ViewerCommand::ScrollDown),
        _ => None,
    }
}

/// Turning the score's pages.
pub fn score_page_shortcut_message(action: ShortcutAction) -> (r: Option<ViewerCommand>)
    ensures
        r == (match action {
            ShortcutAction::ScorePrevPage => Some(ViewerCommand::PrevPage),
            ShortcutAction::ScoreNextPage => Some(ViewerCommand::NextPage),
            _ => None,
        }),
{
    match action {
        ShortcutAction::ScorePrevPage => Some(ViewerCommand::PrevPage),
        ShortcutAction::ScoreNextPage => Some(ViewerCommand::NextPage),
        _ => None,
    }
}

/// The score viewer command of a shortcut.
pub fn score_shortcut_message(action: ShortcutAction) -> (r: Option<ViewerCommand>)
    ensures
        r == spec_score_shortcut(action),
{
    match score_zoom_shortcut_message(action) {
        Some(m) => Some(m),
        None => match score_scroll_shortcut_message(action) {
            Some(m) => Some(m),
            None => score_page_shortcut_message(action),
        },
    }
}

/// A zoom command for the piano roll.
#[derive(Debug, Clone, Copy, PartialEq, Eq, Structural)]
pub enum PianoRollZoomCommand {
    ZoomIn,
    ZoomOut,
    ResetZoom,
}

/// Zooming the piano roll.
pub fn piano_roll_shortcut_message(action: ShortcutAction) -> (r: Option<PianoRollZoomCommand>)
    ensures
        r == (match action {
            ShortcutAction::PianoRollZoomIn => Some(PianoRollZoomCommand::ZoomIn),
            ShortcutAction::PianoRollZoomOut => Some(PianoRollZoomCommand::ZoomOut),
            ShortcutAction::PianoRollZoomReset => Some(PianoRollZoomCommand::ResetZoom),
            _ => None,
        }),
{
    match action {
        ShortcutAction::PianoRollZoomIn => Some(PianoRollZoomCommand::ZoomIn),
        ShortcutAction::PianoRollZoomOut => Some(PianoRollZoomCommand::ZoomOut),
        ShortcutAction::PianoRollZoomReset => Some(PianoRollZoomCommand::ResetZoom),
        _ => None,
    }
}

/// Moving the piano roll cursor to the previous (`false`) or next (`true`) subdivision.
pub fn piano_roll_cursor_subdivision_direction(action: ShortcutAction) -> (r: Option<bool>)
    ensures
        r == (match action {
            ShortcutAction::PianoRollCursorSubdivisionPrevious => Some(false),
            ShortcutAction::PianoRollCursorSubdivisionNext => Some(true),
            _ => None,
        }),
{
    match action {
        ShortcutAction::PianoRollCursorSubdivisionPrevious => Some(false),
        ShortcutAction::PianoRollCursorSubdivisionNext => Some(true),
        _ => None,
    }
}

/// Which way to switch the tab of the focused pane.
#[derive(Debug, Clone, Copy, PartialEq, Eq, Structural)]
pub enum TabDirection {
    Previous,
    Next,
}

/// Which way to move the focus between panes.
#[derive(Debug, Clone, Copy, PartialEq, Eq, Structural)]
pub enum PaneCycleDirection {
    Previous,
    Next,
}

/// The pane a shortcut shows or hides.
pub fn toggle_workspace_pane_shortcut(action: ShortcutAction) -> (r: Option<WorkspacePaneKind>)
    ensures
        r == (match action {
            ShortcutAction::ToggleWorkspacePane(pane) => Some(pane),
            _ => None,
        }),
{
    match action {
        ShortcutAction::ToggleWorkspacePane(pane) => Some(pane),
        _ => None,
    }
}

/// The direction a shortcut switches the focused pane's tab.
pub fn workspace_tab_shortcut_direction(action: ShortcutAction) -> (r: Option<TabDirection>)
    ensures
        r == (match action {
            ShortcutAction::SwitchWorkspaceTabPrevious => Some(TabDirection::Previous),
            ShortcutAction::SwitchWorkspaceTabNext => Some(TabDirection::Next),
            _ => None,
        }),
{
    match action {
        ShortcutAction::SwitchWorkspaceTabPrevious => Some(TabDirection::Previous),
        ShortcutAction::SwitchWorkspaceTabNext => Some(TabDirection::Next),
        _ => None,
    }
}

/// The direction a shortcut moves the pane focus.
pub fn workspace_focus_shortcut_direction(action: ShortcutAction) -> (r: Option<
    PaneCycleDirection,
>)
    ensures
        r == (match action {
            ShortcutAction::FocusWorkspacePanePrevious => Some(PaneCycleDirection::Previous),
            ShortcutAction::FocusWorkspacePaneNext => Some(PaneCycleDirection::Next),
            _ => None,
        }),
{
    match action {
        ShortcutAction::FocusWorkspacePanePrevious => Some(PaneCycleDirection::Previous),
        ShortcutAction::FocusWorkspacePaneNext => Some(PaneCycleDirection::Next),
        _ => None,
    }
}

/// How the editor zoom changes.
#[derive(Debug, Clone, Copy, PartialEq, Eq, Structural)]
pub enum EditorZoomDirection {
    In,
    Out,
    Reset,
}

/// What an application shortcut does.
#[derive(Debug, Clone, Copy, PartialEq, Eq, Structural)]
pub enum AppShortcut {
    Quit,
    OpenActions,
    OpenSettingsFile,
    Nothing,
}

/// What an application shortcut does.
pub fn app_shortcut_route(action: ShortcutAction) -> (r: AppShortcut)
    ensures
        r == (match action {
            ShortcutAction::QuitApp => AppShortcut::Quit,
            ShortcutAction::OpenActions => AppShortcut::OpenActions,
            ShortcutAction::OpenSettingsFile => AppShortcut::OpenSettingsFile,
            _ => AppShortcut::Nothing,
        }),
{
    match action {
        ShortcutAction::QuitApp => AppShortcut::Quit,
        ShortcutAction::OpenActions => AppShortcut::OpenActions,
        ShortcutAction::OpenSettingsFile => AppShortcut::OpenSettingsFile,
        _ => AppShortcut::Nothing,
    }
}

/// What a file browser shortcut does.
#[derive(Debug, Clone, Copy, PartialEq, Eq, Structural)]
pub enum FileBrowserShortcut {
    Undo,
    Redo,
    Request(EditorShellRequest),
    Nothing,
}

/// What a file browser shortcut does: undo and redo go to the browser history, the others
/// become editor requests.
pub fn file_browser_shortcut_route(action: ShortcutAction) -> (r: FileBrowserShortcut)
    ensures
        r == (match action {
            ShortcutAction::FileBrowserUndo => FileBrowserShortcut::Undo,
            ShortcutAction::FileBrowserRedo => FileBrowserShortcut::Redo,
            _ => match spec_file_browser_shortcut(action) {
                Some(m) => FileBrowserShortcut::Request(m),
                None => FileBrowserShortcut::Nothing,
            },
        }),
{
    if action == ShortcutAction::FileBrowserUndo {
        return FileBrowserShortcut::Undo;
    }
    if action == ShortcutAction::FileBrowserRedo {
        return FileBrowserShortcut::Redo;
    }
    match file_browser_shortcut_message(action) {
        Some(m) => FileBrowserShortcut::Request(m),
        None => FileBrowserShortcut::Nothing,
    }
}

/// What an editor shell shortcut does.
#[derive(Debug, Clone, Copy, PartialEq, Eq, Structural)]
pub enum EditorShellShortcut {
    Request(EditorShellRequest),
    CloseActiveTab,
    SwitchTab(bool),
    Zoom(EditorZoomDirection),
    Nothing,
}

/// Closing and switching editor tabs.
pub fn editor_tab_shell_shortcut(action: ShortcutAction) -> (r: Option<EditorShellShortcut>)
    ensures
        r == (match action {
            ShortcutAction::CloseEditorTab => Some(EditorShellShortcut::CloseActiveTab),
            ShortcutAction::SwitchEditorTabPrevious => Some(EditorShellShortcut::SwitchTab(false)),
            ShortcutAction::SwitchEditorTabNext => Some(EditorShellShortcut::SwitchTab(true)),
            _ => None,
        }),
{
    match action {
        ShortcutAction::CloseEditorTab => Some(EditorShellShortcut::CloseActiveTab),
        ShortcutAction::SwitchEditorTabPrevious => Some(EditorShellShortcut::SwitchTab(false)),
        ShortcutAction::SwitchEditorTabNext => Some(EditorShellShortcut::SwitchTab(true)),
        _ => None,
    }
}

/// Zooming the editor.
pub fn editor_zoom_shell_shortcut(action: ShortcutAction) -> (r: EditorShellShortcut)
    ensures
        r == (match action {
            ShortcutAction::EditorZoomIn => EditorShellShortcut::Zoom(EditorZoomDirection::In),
            ShortcutAction::EditorZoomOut => EditorShellShortcut::Zoom(EditorZoomDirection::Out),
            ShortcutAction::EditorZoomReset => EditorShellShortcut::Zoom(EditorZoomDirection::Reset),
            _ => EditorShellShortcut::Nothing,
        }),
{
    match action {
        ShortcutAction::EditorZoomIn => EditorShellShortcut::Zoom(EditorZoomDirection::In),
        ShortcutAction::EditorZoomOut => EditorShellShortcut::Zoom(EditorZoomDirection::Out),
        ShortcutAction::EditorZoomReset => EditorShellShortcut::Zoom(EditorZoomDirection::Reset),
        _ => EditorShellShortcut::Nothing,
    }
}

/// What an editor shell shortcut does: a file request first, then tab handling, then zoom.
pub fn editor_shell_shortcut_route(action: ShortcutAction) -> (r: EditorShellShortcut)
    ensures
        r == (match or_opt(
            spec_editor_file_lifecycle(action),
            spec_editor_file_browser_shell(action),
        ) {
            Some(m) => EditorShellShortcut::Request(m),
            None => match action {
                ShortcutAction::CloseEditorTab => EditorShellShortcut::CloseActiveTab,
                ShortcutAction::SwitchEditorTabPrevious => EditorShellShortcut::SwitchTab(false),
                ShortcutAction::SwitchEditorTabNext => EditorShellShortcut::SwitchTab(true),
                ShortcutAction::EditorZoomIn => EditorShellShortcut::Zoom(EditorZoomDirection::In),
                ShortcutAction::EditorZoomOut => EditorShellShortcut::Zoom(
                    EditorZoomDirection::Out,
                ),
                ShortcutAction::EditorZoomReset => EditorShellShortcut::Zoom(
                    EditorZoomDirection::Reset,
                ),
                _ => EditorShellShortcut::Nothing,
            },
        }),
{
    if let Some(m) = editor_file_shell_message(action) {
        return EditorShellShortcut::Request(m);
    }
    if let Some(r) = editor_tab_shell_shortcut(action) {
        return r;
    }
    editor_zoom_shell_shortcut(action)
}

/// What an editor widget shortcut does.
#[derive(Debug, Clone, Copy, PartialEq, Eq, Structural)]
pub enum EditorWidgetShortcut {
    MixerUndo,
    MixerRedo,
    Widget(EditorWidgetCommand),
    Nothing,
}

/// What an editor widget shortcut does: with the mixer focused, undo and redo act on the
/// mixer; otherwise the shortcut's command goes to the active editor.
pub fn editor_widget_shortcut_route(
    action: ShortcutAction,
    focused_pane: Option<WorkspacePaneKind>,
) -> (r: EditorWidgetShortcut)
    ensures
        r == if action == ShortcutAction::EditorUndo && focused_pane == Some(
            WorkspacePaneKind::Mixer,
        ) {
            EditorWidgetShortcut::MixerUndo
        } else if action == ShortcutAction::EditorRedo && focused_pane == Some(
            WorkspacePaneKind::Mixer,
        ) {
            EditorWidgetShortcut::MixerRedo
        } else {
            match spec_editor_widget_command(action) {
                Some(c) => EditorWidgetShortcut::Widget(c),
                None => EditorWidgetShortcut::Nothing,
            }
        },
{
    let mixer_focused = matches!(focused_pane, Some(WorkspacePaneKind::Mixer));
    if matches!(action, ShortcutAction::EditorUndo) && mixer_focused {
        return EditorWidgetShortcut::MixerUndo;
    }
    if matches!(action, ShortcutAction::EditorRedo) && mixer_focused {
        return EditorWidgetShortcut::MixerRedo;
    }
    match editor_widget_message_for_shortcut(action) {
        Some(c) => EditorWidgetShortcut::Widget(c),
        None => EditorWidgetShortcut::Nothing,
    }
}

/// What a workspace shortcut does.
#[derive(Debug, Clone, Copy, PartialEq, Eq, Structural)]
pub enum WorkspaceShortcut {
    TogglePane(WorkspacePaneKind),
    SwitchTab(TabDirection),
    CycleFocus(PaneCycleDirection),
    Nothing,
}

/// What a workspace shortcut does.
pub fn workspace_shortcut_route(action: ShortcutAction) -> (r: WorkspaceShortcut)
    ensures
        r == (match action {
            ShortcutAction::ToggleWorkspacePane(pane) => WorkspaceShortcut::TogglePane(pane),
            ShortcutAction::SwitchWorkspaceTabPrevious => WorkspaceShortcut::SwitchTab(
                TabDirection::Previous,
            ),
            ShortcutAction::SwitchWorkspaceTabNext => WorkspaceShortcut::SwitchTab(
                TabDirection::Next,
            ),
            ShortcutAction::FocusWorkspacePanePrevious => WorkspaceShortcut::CycleFocus(
                PaneCycleDirection::Previous,
            ),
            ShortcutAction::FocusWorkspacePaneNext => WorkspaceShortcut::CycleFocus(
                PaneCycleDirection::Next,
            ),
            _ => WorkspaceShortcut::Nothing,
        }),
{
    if let Some(pane) = toggle_workspace_pane_shortcut(action) {
        return WorkspaceShortcut::TogglePane(pane);
    }
    if let Some(direction) = workspace_tab_shortcut_direction(action) {
        return WorkspaceShortcut::SwitchTab(direction);
    }
    match workspace_focus_shortcut_direction(action) {
        Some(direction) => WorkspaceShortcut::CycleFocus(direction),
        None => WorkspaceShortcut::Nothing,
    }
}

/// What a piano roll shortcut does.
#[derive(Debug, Clone, Copy, PartialEq, Eq, Structural)]
pub enum PianoRollShortcut {
    Zoom(PianoRollZoomCommand),
    MoveCursorBySubdivision(bool),
    ScrollUp,
    ScrollDown,
    Nothing,
}

/// What a piano roll shortcut does.
pub fn piano_roll_shortcut_route(action: ShortcutAction) -> (r: PianoRollShortcut)
    ensures
        r == (match action {
            ShortcutAction::PianoRollZoomIn => PianoRollShortcut::Zoom(PianoRollZoomCommand::ZoomIn),
            ShortcutAction::PianoRollZoomOut => PianoRollShortcut::Zoom(
                PianoRollZoomCommand::ZoomOut,
            ),
            ShortcutAction::PianoRollZoomReset => PianoRollShortcut::Zoom(
                PianoRollZoomCommand::ResetZoom,
            ),
            ShortcutAction::PianoRollCursorSubdivisionPrevious => PianoRollShortcut::MoveCursorBySubdivision(false),
            ShortcutAction::PianoRollCursorSubdivisionNext => PianoRollShortcut::MoveCursorBySubdivision(true),
            ShortcutAction::PianoRollScrollUp => PianoRollShortcut::ScrollUp,
            ShortcutAction::PianoRollScrollDown => PianoRollShortcut::ScrollDown,
            _ => PianoRollShortcut::Nothing,
        }),
{
    if let Some(m) = piano_roll_shortcut_message(action) {
        return PianoRollShortcut::Zoom(m);
    }
    if let Some(next) = piano_roll_cursor_subdivision_direction(action) {
        return PianoRollShortcut::MoveCursorBySubdivision(next);
    }
    match action {
        ShortcutAction::PianoRollScrollUp => PianoRollShortcut::ScrollUp,
        ShortcutAction::PianoRollScrollDown => PianoRollShortcut::ScrollDown,
        _ => PianoRollShortcut::Nothing,
    }
}

/// A transport command.
#[derive(Debug, Clone, Copy, PartialEq, Eq, Structural)]
pub enum TransportCommand {
    PlayPause,
    Rewind,
    ToggleMetronome,
}

/// What a transport shortcut does; the metronome is not toggled while the editor has the
/// focus.
pub fn transport_shortcut_route(
    action: ShortcutAction,
    focused_pane: Option<WorkspacePaneKind>,
) -> (r: Option<TransportCommand>)
    ensures
        r == (match action {
            ShortcutAction::TransportPlayPause => Some(TransportCommand::PlayPause),
            ShortcutAction::TransportRewind => Some(TransportCommand::Rewind),
            ShortcutAction::ToggleMetronome => if focused_pane == Some(WorkspacePaneKind::Editor) {
                None
            } else {
                Some(TransportCommand::ToggleMetronome)
            },
            _ => None,
        }),
{
    match action {
        ShortcutAction::TransportPlayPause => Some(TransportCommand::PlayPause),
        ShortcutAction::TransportRewind => Some(TransportCommand::Rewind),
        ShortcutAction::ToggleMetronome => {
            if matches!(focused_pane, Some(WorkspacePaneKind::Editor)) {
                None
            } else {
                Some(TransportCommand::ToggleMetronome)
            }
        },
        _ => None,
    }
}

/// A global shortcut runs unless it toggles the metronome while the editor has the focus.
pub fn global_shortcut_runs(action: ShortcutAction, focused_pane: Option<WorkspacePaneKind>) -> (r:
    bool)
    ensures
        r == !(action == ShortcutAction::ToggleMetronome && focused_pane == Some(
            WorkspacePaneKind::Editor,
        )),
{
    !(matches!(action, ShortcutAction::ToggleMetronome) && matches!(
        focused_pane,
        Some(WorkspacePaneKind::Editor)
    ))
}

/// The palette selection after moving `delta` rows from `selected` among `ids`: it stays
/// within the list, starts from the top when the selection is not listed, and is cleared
/// when the list is empty.
pub open spec fn spec_moved_selection(ids: Seq<u64>, selected: Option<u64>, delta: int) -> Option<
    u64,
> {
    if ids.len() == 0 {
        None
    } else {
        let current = match selected {
            Some(s) => if ids.contains(s) {
                first_index_of(ids, s)
            } else {
                0
            },
            None => 0,
        };
        let next = if delta < 0 {
            if current + delta < 0 {
                0
            } else {
                current + delta
            }
        } else if current + delta > ids.len() - 1 {
            ids.len() - 1
        } else {
            current + delta
        };
        Some(ids[next])
    }
}

/// The first place `x` stands in `s`.
pub open spec fn first_index_of(s: Seq<u64>, x: u64) -> int {
    choose|i: int| 0 <= i < s.len() && s[i] == x && forall|j: int| 0 <= j < i ==> s[j] != x
}

/// The first place `x` stands in `ids`, if it does.
pub fn position_of(ids: &Vec<u64>, x: u64) -> (r: Option<usize>)
    ensures
        match r {
            Some(i) => i < ids@.len() && ids@[i as int] == x && forall|j: int|
                0 <= j < i ==> ids@[j] != x,
            None => !ids@.contains(x),
        },
{
    let mut i: usize = 0;
    while i < ids.len()
        invariant
            i <= ids@.len(),
            forall|j: int| 0 <= j < i ==> ids@[j] != x,
        decreases ids.len() - i,
    {
        if ids[i] == x {
            return Some(i);
        }
        i = i + 1;
    }
    None
}

/// A found first position is the one `first_index_of` names.
pub proof fn lemma_first_index_of(s: Seq<u64>, x: u64, i: int)
    requires
        0 <= i < s.len(),
        s[i] == x,
        forall|j: int| 0 <= j < i ==> s[j] != x,
    ensures
        first_index_of(s, x) == i,
{
    let k = first_index_of(s, x);
    assert(0 <= k < s.len() && s[k] == x && forall|j: int| 0 <= j < k ==> s[j] != x);
    if k < i {
        assert(s[k] != x);
    }
    if i < k {
        assert(s[i] != x);
    }
}

/// Moves the shortcut palette selection by `delta` rows among the listed action ids.
pub fn move_shortcut_palette_selection(ids: &Vec<u64>, selected: Option<u64>, delta: i32) -> (r:
    Option<u64>)
    ensures
        r == spec_moved_selection(ids@, selected, delta as int),
{
    if ids.len() == 0 {
        return None;
    }
    let current: usize = match selected {
        Some(s) => match position_of(ids, s) {
            Some(i) => {
                proof {
                    lemma_first_index_of(ids@, s, i as int);
                }
                i
            },
            None => 0,
        },
        None => 0,
    };
    let last = ids.len() - 1;
    let next: usize = if delta < 0 {
        let back = (0i64 - delta as i64) as u64;
        if (current as u64) < back {
            0
        } else {
            ((current as u64) - back) as usize
        }
    } else {
        let ahead = delta as u64;
        if (last - current) as u64 <= ahead {
            last
        } else {
            ((current as u64) + ahead) as usize
        }
    };
    Some(ids[next])
}

/// Keeps the palette selection when its action is still listed, and otherwise selects the
/// first listed action.
pub fn reconcile_shortcut_palette_selection(ids: &Vec<u64>, selected: Option<u64>) -> (r: Option<
    u64,
>)
    ensures
        r == match selected {
            Some(s) if ids@.contains(s) => Some(s),
            _ => if ids@.len() > 0 {
                Some(ids@[0])
            } else {
                None
            },
        },
{
    if let Some(s) = selected {
        if position_of(ids, s).is_some() {
            return Some(s);
        }
    }
    if ids.len() > 0 {
        Some(ids[0])
    } else {
        None
    }
}

/// The shortcut palette: whether it is open, the search typed, and the selected action.
#[derive(Debug, Clone)]
pub struct ShortcutPaletteState {
    pub open: bool,
    pub query: String,
    pub selected: Option<u64>,
}

impl ShortcutPaletteState {
    /// Closed, with nothing typed or selected.
    pub fn new() -> (s: Self)
        ensures
            !s.open,
            s.query@.len() == 0,
            s.selected is None,
    {
        ShortcutPaletteState { open: false, query: String::new(), selected: None }
    }

    /// Opens the palette with an empty search, selecting the first of all actions (`all_ids`,
    /// as listed for an empty search); the header menus close.
    pub fn open(&mut self, menus: &mut MenuState, all_ids: &Vec<u64>)
        ensures
            final(self).open,
            final(self).query@.len() == 0,
            final(self).selected == if all_ids@.len() > 0 {
                Some(all_ids@[0])
            } else {
                None
            },
            *final(menus) == MenuState::new_spec(),
    {
        *menus = MenuState::new();
        self.open = true;
        self.query = String::new();
        self.selected = if all_ids.len() > 0 {
            Some(all_ids[0])
        } else {
            None
        };
    }

    /// Closes the palette, clearing the search and the selection.
    pub fn close(&mut self)
        ensures
            !final(self).open,
            final(self).query@.len() == 0,
            final(self).selected is None,
    {
        self.open = false;
        self.query = String::new();
        self.selected = None;
    }

    /// Takes a typed search, unless a shortcut modifier is held; then the selection is kept
    /// if its action is still listed (`listed_ids`, for the new search), else the first
    /// listed action is selected.
    pub fn set_query(&mut self, value: String, shortcut_modifier_active: bool, listed_ids: &Vec<u64>)
        ensures
            final(self).open == old(self).open,
            shortcut_modifier_active ==> *final(self) == *old(self),
            !shortcut_modifier_active ==> final(self).query == value && final(self).selected
                == match old(self).selected {
                Some(s) if listed_ids@.contains(s) => Some(s),
                _ => if listed_ids@.len() > 0 {
                    Some(listed_ids@[0])
                } else {
                    None
                },
            },
    {
        if shortcut_modifier_active {
            return ;
        }
        self.query = value;
        self.selected = reconcile_shortcut_palette_selection(listed_ids, self.selected);
    }

    /// Activates the selected action: the palette closes and the action's id is returned.
    /// Nothing happens without a selection.
    pub fn activate_selected(&mut self) -> (r: Option<u64>)
        ensures
            r == old(self).selected,
            r is Some ==> !final(self).open && final(self).query@.len() == 0 && final(self).selected is None,
            r is None ==> *final(self) == *old(self),
    {
        match self.selected {
            Some(id) => {
                self.close();
                Some(id)
            },
            None => None,
        }
    }
}

} // verus!
