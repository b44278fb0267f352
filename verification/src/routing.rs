//! Which handler receives each editor message, and which application messages first commit
//! a track rename in progress.

use vstd::prelude::*;

use crate::mixer::MixerMessageKind;

verus! {

/// The kinds of editor message.
#[derive(Debug, Clone, Copy, PartialEq, Eq, Structural)]
pub enum EditorMessageKind {
    Widget,
    ActiveWidgetMessage,
    NewRequested,
    TabPressed,
    CloseTabRequested,
    TabMoved,
    TabGlobalMoved,
    TabHovered,
    TabBarScrolled,
    TabBarEmptyMoved,
    TabBarMoved,
    TabDragReleased,
    TabDragExited,
    StartRename,
    RenameInputChanged,
    CommitRename,
    CancelRename,
    RenameRequested,
    RenamePicked,
    ToggleFileBrowser,
    FileBrowserFocused,
    FileBrowserToggleHiddenRequested,
    FileBrowserCutRequested,
    FileBrowserCopyRequested,
    FileBrowserPasteRequested,
    FileBrowserNewFileRequested,
    FileBrowserNewDirectoryRequested,
    FileBrowserRenameRequested,
    FileBrowserInlineEditChanged,
    CommitFileBrowserInlineEdit,
    CancelFileBrowserInlineEdit,
    FileBrowserTrashRequested,
    FileBrowserScrolled,
    FileBrowserColumnScrolled,
    FileBrowserEntryPressed,
    FileBrowserEntryHovered,
    FileBrowserEntryDragReleased,
    FileBrowserEntryDoublePressed,
    FileBrowserDragMoved,
    FileBrowserDragReleased,
    OpenRequested,
    OpenPicked,
    OpenRecent,
    SaveRequested,
    SaveAsRequested,
    SaveAsPicked,
    SetCenterCursor,
    ZoomIn,
    ZoomOut,
    ResetZoom,
    SetThemeHueOffsetDegrees,
    SetThemeSaturation,
    SetThemeWarmth,
    SetThemeBrightness,
    SetThemeTextDim,
    SetThemeCommentDim,
    Other,
}

/// Dragging and scrolling in the tab bar.
pub open spec fn spec_tab_drag(k: EditorMessageKind) -> bool {
    k is TabMoved || k is TabGlobalMoved || k is TabHovered || k is TabBarScrolled
        || k is TabBarEmptyMoved || k is TabBarMoved || k is TabDragReleased || k is TabDragExited
}

/// Dragging and scrolling in the tab bar.
pub fn editor_tab_drag_message(k: EditorMessageKind) -> (r: bool)
    ensures
        r == spec_tab_drag(k),
{
    matches!(
        k,
        EditorMessageKind::TabMoved | EditorMessageKind::TabGlobalMoved
            | EditorMessageKind::TabHovered | EditorMessageKind::TabBarScrolled
            | EditorMessageKind::TabBarEmptyMoved | EditorMessageKind::TabBarMoved
            | EditorMessageKind::TabDragReleased | EditorMessageKind::TabDragExited
    )
}

/// Opening, pressing, closing and dragging tabs.
pub open spec fn spec_tab(k: EditorMessageKind) -> bool {
    k is NewRequested || k is TabPressed || k is CloseTabRequested || spec_tab_drag(k)
}

/// Opening, pressing, closing and dragging tabs.
pub fn editor_tab_message(k: EditorMessageKind) -> (r: bool)
    ensures
        r == spec_tab(k),
{
    matches!(
        k,
        EditorMessageKind::NewRequested | EditorMessageKind::TabPressed
            | EditorMessageKind::CloseTabRequested
    ) || editor_tab_drag_message(k)
}

/// Renaming a tab.
pub open spec fn spec_rename(k: EditorMessageKind) -> bool {
    k is StartRename || k is RenameInputChanged || k is CommitRename || k is CancelRename
        || k is RenameRequested || k is RenamePicked
}

/// Renaming a tab.
pub fn editor_rename_message(k: EditorMessageKind) -> (r: bool)
    ensures
        r == spec_rename(k),
{
    matches!(
        k,
        EditorMessageKind::StartRename | EditorMessageKind::RenameInputChanged
            | EditorMessageKind::CommitRename | EditorMessageKind::CancelRename
            | EditorMessageKind::RenameRequested | EditorMessageKind::RenamePicked
    )
}

/// Commands of the file browser.
pub open spec fn spec_browser_command(k: EditorMessageKind) -> bool {
    k is ToggleFileBrowser || k is FileBrowserFocused || k is FileBrowserToggleHiddenRequested
        || k is FileBrowserCutRequested || k is FileBrowserCopyRequested
        || k is FileBrowserPasteRequested || k is FileBrowserNewFileRequested
        || k is FileBrowserNewDirectoryRequested || k is FileBrowserRenameRequested
        || k is FileBrowserInlineEditChanged || k is CommitFileBrowserInlineEdit
        || k is CancelFileBrowserInlineEdit || k is FileBrowserTrashRequested
}

/// Commands of the file browser.
pub fn file_browser_command_message(k: EditorMessageKind) -> (r: bool)
    ensures
        r == spec_browser_command(k),
{
    matches!(
        k,
        EditorMessageKind::ToggleFileBrowser | EditorMessageKind::FileBrowserFocused
            | EditorMessageKind::FileBrowserToggleHiddenRequested
            | EditorMessageKind::FileBrowserCutRequested
            | EditorMessageKind::FileBrowserCopyRequested
            | EditorMessageKind::FileBrowserPasteRequested
            | EditorMessageKind::FileBrowserNewFileRequested
            | EditorMessageKind::FileBrowserNewDirectoryRequested
            | EditorMessageKind::FileBrowserRenameRequested
            | EditorMessageKind::FileBrowserInlineEditChanged
            | EditorMessageKind::CommitFileBrowserInlineEdit
            | EditorMessageKind::CancelFileBrowserInlineEdit
            | EditorMessageKind::FileBrowserTrashRequested
    )
}

/// Scrolling the file browser.
pub open spec fn spec_browser_scroll(k: EditorMessageKind) -> bool {
    k is FileBrowserScrolled || k is FileBrowserColumnScrolled
}

/// Scrolling the file browser.
pub fn file_browser_scroll_message(k: EditorMessageKind) -> (r: bool)
    ensures
        r == spec_browser_scroll(k),
{
    matches!(k, EditorMessageKind::FileBrowserScrolled | EditorMessageKind::FileBrowserColumnScrolled)
}

/// Pointer work on the file browser's entries.
pub open spec fn spec_browser_entry(k: EditorMessageKind) -> bool {
    k is FileBrowserEntryPressed || k is FileBrowserEntryHovered
        || k is FileBrowserEntryDragReleased || k is FileBrowserEntryDoublePressed
        || k is FileBrowserDragMoved || k is FileBrowserDragReleased
}

/// Pointer work on the file browser's entries.
pub fn file_browser_entry_message(k: EditorMessageKind) -> (r: bool)
    ensures
        r == spec_browser_entry(k),
{
    matches!(
        k,
        EditorMessageKind::FileBrowserEntryPressed | EditorMessageKind::FileBrowserEntryHovered
            | EditorMessageKind::FileBrowserEntryDragReleased
            | EditorMessageKind::FileBrowserEntryDoublePressed
            | EditorMessageKind::FileBrowserDragMoved | EditorMessageKind::FileBrowserDragReleased
    )
}

/// Opening and saving files.
pub open spec fn spec_file(k: EditorMessageKind) -> bool {
    k is OpenRequested || k is OpenPicked || k is OpenRecent || k is SaveRequested
        || k is SaveAsRequested || k is SaveAsPicked
}

/// Opening and saving files.
pub fn editor_file_message(k: EditorMessageKind) -> (r: bool)
    ensures
        r == spec_file(k),
{
    matches!(
        k,
        EditorMessageKind::OpenRequested | EditorMessageKind::OpenPicked
            | EditorMessageKind::OpenRecent | EditorMessageKind::SaveRequested
            | EditorMessageKind::SaveAsRequested | EditorMessageKind::SaveAsPicked
    )
}

/// The editor's look: centring, zoom and theme.
pub open spec fn spec_appearance(k: EditorMessageKind) -> bool {
    k is SetCenterCursor || k is ZoomIn || k is ZoomOut || k is ResetZoom
        || k is SetThemeHueOffsetDegrees || k is SetThemeSaturation || k is SetThemeWarmth
        || k is SetThemeBrightness || k is SetThemeTextDim || k is SetThemeCommentDim
}

/// The editor's look: centring, zoom and theme.
pub fn editor_appearance_message(k: EditorMessageKind) -> (r: bool)
    ensures
        r == spec_appearance(k),
{
    matches!(
        k,
        EditorMessageKind::SetCenterCursor | EditorMessageKind::ZoomIn
            | EditorMessageKind::ZoomOut | EditorMessageKind::ResetZoom
            | EditorMessageKind::SetThemeHueOffsetDegrees
            | EditorMessageKind::SetThemeSaturation | EditorMessageKind::SetThemeWarmth
            | EditorMessageKind::SetThemeBrightness | EditorMessageKind::SetThemeTextDim
            | EditorMessageKind::SetThemeCommentDim
    )
}

/// The handler of an editor message.
#[derive(Debug, Clone, Copy, PartialEq, Eq, Structural)]
pub enum EditorRoute {
    Widget,
    ActiveWidget,
    Tab,
    Rename,
    FileBrowser,
    File,
    Appearance,
    Unhandled,
}

/// The stages an editor message passes through until a handler takes it.
#[derive(Debug, Clone, Copy, PartialEq, Eq, Structural)]
pub enum EditorRouteStage {
    State,
    FileBrowser,
    FileOrAppearance,
}

/// The handler of each editor message.
pub open spec fn spec_editor_route(k: EditorMessageKind) -> EditorRoute {
    if k is Widget {
        EditorRoute::Widget
    } else if k is ActiveWidgetMessage {
        EditorRoute::ActiveWidget
    } else if spec_tab(k) {
        EditorRoute::Tab
    } else if spec_rename(k) {
        EditorRoute::Rename
    } else if spec_browser_command(k) || spec_browser_scroll(k) || spec_browser_entry(k) {
        EditorRoute::FileBrowser
    } else if spec_file(k) {
        EditorRoute::File
    } else if spec_appearance(k) {
        EditorRoute::Appearance
    } else {
        EditorRoute::Unhandled
    }
}

/// Passes a message through the stages from `stage` on: tabs and renaming, then the file
/// browser, then files and appearance.
pub fn route_editor_by_stage(k: EditorMessageKind, stage: EditorRouteStage) -> (r: EditorRoute)
    ensures
        r == match stage {
            EditorRouteStage::State => if spec_tab(k) {
                EditorRoute::Tab
            } else if spec_rename(k) {
                EditorRoute::Rename
            } else if spec_browser_command(k) || spec_browser_scroll(k) || spec_browser_entry(k) {
                EditorRoute::FileBrowser
            } else if spec_file(k) {
                EditorRoute::File
            } else if spec_appearance(k) {
                EditorRoute::Appearance
            } else {
                EditorRoute::Unhandled
            },
            EditorRouteStage::FileBrowser => if spec_browser_command(k) || spec_browser_scroll(k)
                || spec_browser_entry(k) {
                EditorRoute::FileBrowser
            } else if spec_file(k) {
                EditorRoute::File
            } else if spec_appearance(k) {
                EditorRoute::Appearance
            } else {
                EditorRoute::Unhandled
            },
            EditorRouteStage::FileOrAppearance => if spec_file(k) {
                EditorRoute::File
            } else if spec_appearance(k) {
                EditorRoute::Appearance
            } else {
                EditorRoute::Unhandled
            },
        },
    decreases
            match stage {
                EditorRouteStage::State => 2nat,
                EditorRouteStage::FileBrowser => 1nat,
                EditorRouteStage::FileOrAppearance => 0nat,
            },
{
    let next_stage = match stage {
        EditorRouteStage::State => {
            if editor_tab_message(k) {
                return EditorRoute::Tab;
            }
            if editor_rename_message(k) {
                return EditorRoute::Rename;
            }
            EditorRouteStage::FileBrowser
        },
        EditorRouteStage::FileBrowser => {
            if file_browser_command_message(k) || file_browser_scroll_message(k)
                || file_browser_entry_message(k) {
                return EditorRoute::FileBrowser;
            }
            EditorRouteStage::FileOrAppearance
        },
        EditorRouteStage::FileOrAppearance => {
            if editor_file_message(k) {
                return EditorRoute::File;
            }
            if editor_appearance_message(k) {
                return EditorRoute::Appearance;
            }
            return EditorRoute::Unhandled;
        },
    };
    route_editor_by_stage(k, next_stage)
}

/// The handler of an editor message: the widgets first, then the stages.
pub fn route_editor_message(k: EditorMessageKind) -> (r: EditorRoute)
    ensures
        r == spec_editor_route(k),
{
    match k {
        EditorMessageKind::Widget => EditorRoute::Widget,
        EditorMessageKind::ActiveWidgetMessage => EditorRoute::ActiveWidget,
        _ => route_editor_by_stage(k, EditorRouteStage::State),
    }
}

/// Each kind of editor message belongs to at most one group, so the order of the stages
/// decides nothing: a message is handled by the one group it belongs to, and by none when it
/// belongs to none.
pub proof fn law_editor_message_groups_disjoint(k: EditorMessageKind)
    ensures
        (spec_tab(k) as int) + (spec_rename(k) as int) + ((spec_browser_command(k)
            || spec_browser_scroll(k) || spec_browser_entry(k)) as int) + (spec_file(k) as int)
            + (spec_appearance(k) as int) <= 1,
        spec_editor_route(k) == EditorRoute::Unhandled <==> (k is Other),
{
}

/// A widget message that puts the pointer or the keyboard focus into the editor's text.
#[derive(Debug, Clone, Copy, PartialEq, Eq, Structural)]
pub enum EditorWidgetEventKind {
    CanvasFocusGained,
    MouseClick,
    MouseDrag,
    JumpClick,
    Other,
}

/// Clicking, dragging or focusing the editor's text focuses the editor pane and activates
/// the tab.
pub fn widget_message_focuses_editor(k: EditorWidgetEventKind) -> (r: bool)
    ensures
        r == !(k is Other),
{
    !matches!(k, EditorWidgetEventKind::Other)
}

/// The kinds of score viewer message that matter before a rename is committed.
#[derive(Debug, Clone, Copy, PartialEq, Eq, Structural)]
pub enum ViewerMessageKind {
    ScrollPositionChanged,
    ViewportCursorMoved,
    ViewportCursorLeft,
    Other,
}

/// The kinds of piano roll message that matter before a rename is committed.
#[derive(Debug, Clone, Copy, PartialEq, Eq, Structural)]
pub enum PianoRollMessageKind {
    StartTrackRename,
    OpenTrackColorPickerForTrack,
    TrackRenameInputChanged,
    OpenTrackColorPicker,
    SubmitTrackColor,
    PreviewTrackColor,
    CommitTrackRename,
    CancelTrackRename,
    ViewportCursorMoved,
    ViewportCursorLeft,
    RollScrolled,
    Other,
}

/// The kinds of application message.
#[derive(Debug, Clone, Copy, PartialEq, Eq, Structural)]
pub enum AppMessageKind {
    Noop,
    StartupChecked,
    BrowserHistoryCleanupFinished,
    PluginScanCacheSaved,
    ScorePreviewReady,
    CompileOutputsReady,
    Pane,
    Viewer(ViewerMessageKind),
    KeyPressed,
    TrackRenameFocusChanged,
    ModifiersChanged,
    PrimaryMousePressed,
    Tick,
    Frame,
    WindowOpened,
    WindowClosed,
    WindowFocused,
    WindowResized,
    WindowCloseRequested,
    PianoRoll(PianoRollMessageKind),
    Mixer(MixerMessageKind),
    Other,
}

/// Whether a message leaves a track rename in progress open: background results, pane and
/// input plumbing, frames and windows, view scrolling and pointer motion, and the rename's
/// and colour picker's own messages. Every other message commits the rename first.
pub open spec fn spec_keeps_rename_open(m: AppMessageKind) -> bool {
    match m {
        AppMessageKind::Viewer(v) => !(v is Other),
        AppMessageKind::PianoRoll(p) => !(p is Other),
        AppMessageKind::Mixer(x) => x is StartTrackRename || x is StartBusRename
            || x is TrackRenameInputChanged || x is OpenTrackColorPicker || x is SubmitTrackColor
            || x is PreviewTrackColor || x is CommitTrackRename || x is CancelTrackRename
            || x is InstrumentViewportScrolled || x is BusViewportScrolled,
        AppMessageKind::Other => false,
        _ => true,
    }
}

/// Whether a track rename in progress is committed before handling a message.
pub fn should_commit_track_rename_before_message(m: AppMessageKind) -> (r: bool)
    ensures
        r == !spec_keeps_rename_open(m),
{
    let keeps_open = match m {
        AppMessageKind::Viewer(v) => !matches!(v, ViewerMessageKind::Other),
        AppMessageKind::PianoRoll(p) => !matches!(p, PianoRollMessageKind::Other),
        AppMessageKind::Mixer(x) => matches!(
            x,
            MixerMessageKind::StartTrackRename(_) | MixerMessageKind::StartBusRename(_)
                | MixerMessageKind::TrackRenameInputChanged | MixerMessageKind::OpenTrackColorPicker
                | MixerMessageKind::SubmitTrackColor | MixerMessageKind::PreviewTrackColor
                | MixerMessageKind::CommitTrackRename | MixerMessageKind::CancelTrackRename
                | MixerMessageKind::InstrumentViewportScrolled
                | MixerMessageKind::BusViewportScrolled
        ),
        AppMessageKind::Other => false,
        _ => true,
    };
    !keeps_open
}

} // verus!
