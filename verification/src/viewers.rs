//! The score viewer's and the piano roll's messages: which handler each goes to, and the
//! score's page stepping.
//!
//! Pointer positions, scroll offsets and zoom deltas are left out of the messages here: the
//! routing does not look at them, and the caller keeps them beside the message.

use vstd::prelude::*;

verus! {

/// A message of the score viewer.
#[derive(Debug, Clone, Copy, PartialEq, Eq, Structural)]
pub enum ViewerMessage {
    ScrollUp,
    ScrollDown,
    ScrollPositionChanged,
    ViewportCursorMoved,
    ViewportCursorLeft,
    OpenPointAndClick,
    PrevPage,
    NextPage,
    ZoomIn,
    ZoomOut,
    SmoothZoom,
    ResetZoom,
    DecreasePageBrightness,
    IncreasePageBrightness,
    ResetPageBrightness,
}

/// Which way a keyboard scroll of the score goes.
#[derive(Debug, Clone, Copy, PartialEq, Eq, Structural)]
pub enum ScrollDirection {
    Up,
    Down,
}

/// Where a score viewer message goes.
#[derive(Debug, Clone, Copy, PartialEq, Eq, Structural)]
pub enum ScoreViewerRoute {
    /// Scroll by one keyboard step.
    ScrollBy(ScrollDirection),
    /// Remember the scroll position.
    ScrollPosition,
    /// Remember the pointer: inside the viewport, or gone.
    Cursor { inside: bool },
    /// Open the source of the note under the pointer.
    PointAndClick,
    Page(ViewerMessage),
    Zoom(ViewerMessage),
    Brightness(ViewerMessage),
}

/// Where a score viewer message goes.
pub open spec fn spec_score_viewer_route(m: ViewerMessage) -> ScoreViewerRoute {
    match m {
        ViewerMessage::ScrollUp => ScoreViewerRoute::ScrollBy(ScrollDirection::Up),
        ViewerMessage::ScrollDown => ScoreViewerRoute::ScrollBy(ScrollDirection::Down),
        ViewerMessage::ScrollPositionChanged => ScoreViewerRoute::ScrollPosition,
        ViewerMessage::ViewportCursorMoved => ScoreViewerRoute::Cursor { inside: true },
        ViewerMessage::ViewportCursorLeft => ScoreViewerRoute::Cursor { inside: false },
        ViewerMessage::OpenPointAndClick => ScoreViewerRoute::PointAndClick,
        ViewerMessage::PrevPage | ViewerMessage::NextPage => ScoreViewerRoute::Page(m),
        ViewerMessage::ZoomIn | ViewerMessage::ZoomOut | ViewerMessage::SmoothZoom
        | ViewerMessage::ResetZoom => ScoreViewerRoute::Zoom(m),
        ViewerMessage::DecreasePageBrightness | ViewerMessage::IncreasePageBrightness
        | ViewerMessage::ResetPageBrightness => ScoreViewerRoute::Brightness(m),
    }
}

/// Where a score viewer message goes.
pub fn score_viewer_route(message: ViewerMessage) -> (r: ScoreViewerRoute)
    ensures
        r == spec_score_viewer_route(message),
{
    match message {
        ViewerMessage::ScrollUp => ScoreViewerRoute::ScrollBy(ScrollDirection::Up),
        ViewerMessage::ScrollDown => ScoreViewerRoute::ScrollBy(ScrollDirection::Down),
        ViewerMessage::ScrollPositionChanged => ScoreViewerRoute::ScrollPosition,
        ViewerMessage::ViewportCursorMoved => ScoreViewerRoute::Cursor { inside: true },
        ViewerMessage::ViewportCursorLeft => ScoreViewerRoute::Cursor { inside: false },
        ViewerMessage::OpenPointAndClick => ScoreViewerRoute::PointAndClick,
        ViewerMessage::PrevPage | ViewerMessage::NextPage => ScoreViewerRoute::Page(message),
        ViewerMessage::ZoomIn | ViewerMessage::ZoomOut | ViewerMessage::SmoothZoom
        | ViewerMessage::ResetZoom => ScoreViewerRoute::Zoom(message),
        ViewerMessage::DecreasePageBrightness | ViewerMessage::IncreasePageBrightness
        | ViewerMessage::ResetPageBrightness => ScoreViewerRoute::Brightness(message),
    }
}

/// The page shown after a page message, or `None` when it does not move: the previous page
/// unless on the first, the next unless on the last.
pub fn step_score_page(current_page: usize, page_count: usize, message: ViewerMessage) -> (r: Option<
    usize,
>)
    ensures
        r == match message {
            ViewerMessage::PrevPage => if current_page > 0 {
                Some((current_page - 1) as usize)
            } else {
                None
            },
            ViewerMessage::NextPage => if current_page + 1 < page_count {
                Some((current_page + 1) as usize)
            } else {
                None
            },
            _ => None,
        },
{
    match message {
        ViewerMessage::PrevPage => {
            if current_page > 0 {
                Some(current_page - 1)
            } else {
                None
            }
        },
        ViewerMessage::NextPage => {
            if current_page < page_count && page_count - current_page > 1 {
                Some(current_page + 1)
            } else {
                None
            }
        },
        _ => None,
    }
}

/// A message of the piano roll. Track colors are whatever the caller uses for them (`C`).
#[derive(Debug, Clone, PartialEq, Eq)]
pub enum PianoRollMessage<C> {
    ViewportCursorMoved,
    ViewportCursorLeft,
    RollScrolled,
    ZoomIn,
    ZoomOut,
    SmoothZoom,
    ResetZoom,
    SetCursorTicks(u64),
    SetRewindFlagTicks(u64),
    BeatSubdivisionSliderChanged,
    BeatSubdivisionInputChanged(String),
    FilePrevious,
    FileNext,
    SelectTrack(usize),
    StartTrackRename(usize),
    TrackRenameInputChanged(String),
    CommitTrackRename,
    CancelTrackRename,
    OpenTrackColorPickerForTrack(usize),
    OpenTrackColorPicker,
    SubmitTrackColor(C),
    PreviewTrackColor(C),
    TrackPanelToggle,
    TrackPanelResizedBy,
    TrackMuteToggled(usize),
    TrackSoloToggled(usize),
    TransportSeekNormalized,
    TransportSeekReleased,
    TransportPlayPause,
    TransportRewind,
    TransportToggleMetronome,
    TransportOpenMetronomeMenu,
    TransportCloseMetronomeMenu,
    TransportMetronomeGainChanged,
    TransportMetronomePitchChanged,
}

/// Where a pointer or scroll message of the piano roll's viewport goes.
#[derive(Debug, Clone, Copy, PartialEq, Eq, Structural)]
pub enum PianoRollViewportRoute {
    CursorMoved,
    CursorLeft,
    Scrolled,
}

/// Which track edit a message is.
#[derive(Debug, Clone, Copy, PartialEq, Eq, Structural)]
pub enum PianoRollTrackEditRoute {
    /// Starting a rename or typing in it.
    RenameEdit,
    /// Committing or cancelling a rename.
    RenameFinish,
    /// The color picker.
    Color,
}

/// Which track panel action a message is.
#[derive(Debug, Clone, Copy, PartialEq, Eq, Structural)]
pub enum PianoRollTrackPanelRoute {
    Toggle,
    Resize,
    ToggleMute(usize),
    ToggleSolo(usize),
}

/// Where a track message goes.
#[derive(Debug, Clone, Copy, PartialEq, Eq, Structural)]
pub enum PianoRollTrackRoute {
    Select(usize),
    Edit(PianoRollTrackEditRoute),
    Panel(PianoRollTrackPanelRoute),
}

/// Where a piano roll message goes.
#[derive(Debug, Clone, Copy, PartialEq, Eq, Structural)]
pub enum PianoRollRoute {
    Viewport(PianoRollViewportRoute),
    Zoom,
    Timeline,
    Track(PianoRollTrackRoute),
    Transport,
}

/// Where a piano roll message goes.
pub open spec fn spec_piano_roll_route<C>(m: PianoRollMessage<C>) -> PianoRollRoute {
    match m {
        PianoRollMessage::ViewportCursorMoved => PianoRollRoute::Viewport(
            PianoRollViewportRoute::CursorMoved,
        ),
        PianoRollMessage::ViewportCursorLeft => PianoRollRoute::Viewport(
            PianoRollViewportRoute::CursorLeft,
        ),
        PianoRollMessage::RollScrolled => PianoRollRoute::Viewport(PianoRollViewportRoute::Scrolled),
        PianoRollMessage::ZoomIn | PianoRollMessage::ZoomOut | PianoRollMessage::SmoothZoom
        | PianoRollMessage::ResetZoom => PianoRollRoute::Zoom,
        PianoRollMessage::SetCursorTicks(_) | PianoRollMessage::SetRewindFlagTicks(_)
        | PianoRollMessage::BeatSubdivisionSliderChanged
        | PianoRollMessage::BeatSubdivisionInputChanged(_) | PianoRollMessage::FilePrevious
        | PianoRollMessage::FileNext => PianoRollRoute::Timeline,
        PianoRollMessage::SelectTrack(i) => PianoRollRoute::Track(PianoRollTrackRoute::Select(i)),
        PianoRollMessage::StartTrackRename(_) | PianoRollMessage::TrackRenameInputChanged(_) =>
            PianoRollRoute::Track(PianoRollTrackRoute::Edit(PianoRollTrackEditRoute::RenameEdit)),
        PianoRollMessage::CommitTrackRename | PianoRollMessage::CancelTrackRename =>
            PianoRollRoute::Track(PianoRollTrackRoute::Edit(PianoRollTrackEditRoute::RenameFinish)),
        PianoRollMessage::OpenTrackColorPickerForTrack(_) | PianoRollMessage::OpenTrackColorPicker
        | PianoRollMessage::SubmitTrackColor(_) | PianoRollMessage::PreviewTrackColor(_) =>
            PianoRollRoute::Track(PianoRollTrackRoute::Edit(PianoRollTrackEditRoute::Color)),
        PianoRollMessage::TrackPanelToggle => PianoRollRoute::Track(
            PianoRollTrackRoute::Panel(PianoRollTrackPanelRoute::Toggle),
        ),
        PianoRollMessage::TrackPanelResizedBy => PianoRollRoute::Track(
            PianoRollTrackRoute::Panel(PianoRollTrackPanelRoute::Resize),
        ),
        PianoRollMessage::TrackMuteToggled(i) => PianoRollRoute::Track(
            PianoRollTrackRoute::Panel(PianoRollTrackPanelRoute::ToggleMute(i)),
        ),
        PianoRollMessage::TrackSoloToggled(i) => PianoRollRoute::Track(
            PianoRollTrackRoute::Panel(PianoRollTrackPanelRoute::ToggleSolo(i)),
        ),
        _ => PianoRollRoute::Transport,
    }
}

/// Where a piano roll message goes.
pub fn piano_roll_route<C>(message: &PianoRollMessage<C>) -> (r: PianoRollRoute)
    ensures
        r == spec_piano_roll_route(*message),
{
    match message {
        PianoRollMessage::ViewportCursorMoved => PianoRollRoute::Viewport(
            PianoRollViewportRoute::CursorMoved,
        ),
        PianoRollMessage::ViewportCursorLeft => PianoRollRoute::Viewport(
            PianoRollViewportRoute::CursorLeft,
        ),
        PianoRollMessage::RollScrolled => PianoRollRoute::Viewport(PianoRollViewportRoute::Scrolled),
        PianoRollMessage::ZoomIn | PianoRollMessage::ZoomOut | PianoRollMessage::SmoothZoom
        | PianoRollMessage::ResetZoom => PianoRollRoute::Zoom,
        PianoRollMessage::SetCursorTicks(_) | PianoRollMessage::SetRewindFlagTicks(_)
        | PianoRollMessage::BeatSubdivisionSliderChanged
        | PianoRollMessage::BeatSubdivisionInputChanged(_) | PianoRollMessage::FilePrevious
        | PianoRollMessage::FileNext => PianoRollRoute::Timeline,
        PianoRollMessage::SelectTrack(i) => PianoRollRoute::Track(PianoRollTrackRoute::Select(*i)),
        PianoRollMessage::StartTrackRename(_) | PianoRollMessage::TrackRenameInputChanged(_) =>
            PianoRollRoute::Track(PianoRollTrackRoute::Edit(PianoRollTrackEditRoute::RenameEdit)),
        PianoRollMessage::CommitTrackRename | PianoRollMessage::CancelTrackRename =>
            PianoRollRoute::Track(PianoRollTrackRoute::Edit(PianoRollTrackEditRoute::RenameFinish)),
        PianoRollMessage::OpenTrackColorPickerForTrack(_) | PianoRollMessage::OpenTrackColorPicker
        | PianoRollMessage::SubmitTrackColor(_) | PianoRollMessage::PreviewTrackColor(_) =>
            PianoRollRoute::Track(PianoRollTrackRoute::Edit(PianoRollTrackEditRoute::Color)),
        PianoRollMessage::TrackPanelToggle => PianoRollRoute::Track(
            PianoRollTrackRoute::Panel(PianoRollTrackPanelRoute::Toggle),
        ),
        PianoRollMessage::TrackPanelResizedBy => PianoRollRoute::Track(
            PianoRollTrackRoute::Panel(PianoRollTrackPanelRoute::Resize),
        ),
        PianoRollMessage::TrackMuteToggled(i) => PianoRollRoute::Track(
            PianoRollTrackRoute::Panel(PianoRollTrackPanelRoute::ToggleMute(*i)),
        ),
        PianoRollMessage::TrackSoloToggled(i) => PianoRollRoute::Track(
            PianoRollTrackRoute::Panel(PianoRollTrackPanelRoute::ToggleSolo(*i)),
        ),
        PianoRollMessage::TransportSeekNormalized | PianoRollMessage::TransportSeekReleased
        | PianoRollMessage::TransportPlayPause | PianoRollMessage::TransportRewind
        | PianoRollMessage::TransportToggleMetronome
        | PianoRollMessage::TransportOpenMetronomeMenu
        | PianoRollMessage::TransportCloseMetronomeMenu
        | PianoRollMessage::TransportMetronomeGainChanged
        | PianoRollMessage::TransportMetronomePitchChanged => PianoRollRoute::Transport,
    }
}

/// Which way a file step of the piano roll goes.
#[derive(Debug, Clone, Copy, PartialEq, Eq, Structural)]
pub enum PianoRollFileStep {
    Previous,
    Next,
}

/// The file step a message asks for, if any.
pub fn piano_roll_file_step<C>(message: &PianoRollMessage<C>) -> (r: Option<PianoRollFileStep>)
    ensures
        r == match *message {
            PianoRollMessage::FilePrevious => Some(PianoRollFileStep::Previous),
            PianoRollMessage::FileNext => Some(PianoRollFileStep::Next),
            _ => None,
        },
{
    match message {
        PianoRollMessage::FilePrevious => Some(PianoRollFileStep::Previous),
        PianoRollMessage::FileNext => Some(PianoRollFileStep::Next),
        _ => None,
    }
}

/// The track whose rename a message starts, if it starts one.
pub fn start_track_rename_message<C>(message: &PianoRollMessage<C>) -> (r: Option<usize>)
    ensures
        r == match *message {
            PianoRollMessage::StartTrackRename(i) => Some(i),
            _ => None,
        },
{
    match message {
        PianoRollMessage::StartTrackRename(track_index) => Some(*track_index),
        _ => None,
    }
}

/// The track whose color picker a message opens on its own, if it opens one.
pub fn track_color_picker_target<C>(message: &PianoRollMessage<C>) -> (r: Option<usize>)
    ensures
        r == match *message {
            PianoRollMessage::OpenTrackColorPickerForTrack(i) => Some(i),
            _ => None,
        },
{
    match message {
        PianoRollMessage::OpenTrackColorPickerForTrack(track_index) => Some(*track_index),
        _ => None,
    }
}

/// Where rewinding goes from `current_tick`: back to the rewind flag when playback is past
/// it, else to the start.
pub open spec fn spec_rewind_target(current_tick: u64, rewind_flag_tick: u64) -> u64 {
    if current_tick > rewind_flag_tick {
        rewind_flag_tick
    } else {
        0
    }
}

/// Where rewinding goes from `current_tick`.
pub fn rewind_target_tick(current_tick: u64, rewind_flag_tick: u64) -> (r: u64)
    ensures
        r == spec_rewind_target(current_tick, rewind_flag_tick),
{
    if current_tick > rewind_flag_tick {
        rewind_flag_tick
    } else {
        0
    }
}

/// Rewinding twice goes to the start: the first rewind stops at the flag (or the start),
/// from where the second goes to the start.
pub proof fn law_rewind_twice_reaches_start(current_tick: u64, rewind_flag_tick: u64)
    ensures
        spec_rewind_target(spec_rewind_target(current_tick, rewind_flag_tick), rewind_flag_tick) == 0,
{
}

/// A seek stays within the file: ticks past its end go to its end.
pub fn clamp_seek_tick(tick: u64, total_ticks: u64) -> (r: u64)
    ensures
        r == if tick < total_ticks { tick } else { total_ticks },
{
    if tick < total_ticks {
        tick
    } else {
        total_ticks
    }
}

} // verus!
