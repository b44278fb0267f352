use lilypalooza::viewers::{clamp_seek_tick, rewind_target_tick};
use lilypalooza::viewers::{
    PianoRollFileStep, PianoRollMessage, PianoRollRoute, PianoRollTrackEditRoute,
    PianoRollTrackPanelRoute, PianoRollTrackRoute, PianoRollViewportRoute, ScoreViewerRoute,
    ScrollDirection, ViewerMessage, piano_roll_file_step, piano_roll_route, score_viewer_route,
    start_track_rename_message, step_score_page, track_color_picker_target,
};

type Message = PianoRollMessage<u32>;

fn assert_route(message: Message, expected: fn(PianoRollRoute) -> bool) {
    assert!(expected(piano_roll_route(&message)));
}

fn assert_track_route(message: Message, expected: fn(PianoRollTrackRoute) -> bool) {
    let PianoRollRoute::Track(route) = piano_roll_route(&message) else {
        panic!("message should route to track handler");
    };
    assert!(expected(route));
}

#[test]
fn piano_roll_route_classifies_message_groups() {
    assert_route(Message::ViewportCursorMoved, |route| {
        matches!(
            route,
            PianoRollRoute::Viewport(PianoRollViewportRoute::CursorMoved)
        )
    });
    assert_route(Message::ViewportCursorLeft, |route| {
        matches!(
            route,
            PianoRollRoute::Viewport(PianoRollViewportRoute::CursorLeft)
        )
    });
    assert_route(Message::RollScrolled, |route| {
        matches!(route, PianoRollRoute::Viewport(PianoRollViewportRoute::Scrolled))
    });
    assert_route(Message::ZoomIn, |route| matches!(route, PianoRollRoute::Zoom));
    assert_route(Message::SetCursorTicks(24), |route| {
        matches!(route, PianoRollRoute::Timeline)
    });
    assert_route(Message::SelectTrack(1), |route| {
        matches!(route, PianoRollRoute::Track(_))
    });
    assert_route(Message::TransportPlayPause, |route| {
        matches!(route, PianoRollRoute::Transport)
    });
}

#[test]
fn piano_roll_track_route_classifies_edit_messages() {
    assert_track_route(Message::SelectTrack(2), |route| {
        matches!(route, PianoRollTrackRoute::Select(2))
    });
    assert_track_route(Message::StartTrackRename(2), |route| {
        matches!(
            route,
            PianoRollTrackRoute::Edit(PianoRollTrackEditRoute::RenameEdit)
        )
    });
    assert_track_route(Message::CommitTrackRename, |route| {
        matches!(
            route,
            PianoRollTrackRoute::Edit(PianoRollTrackEditRoute::RenameFinish)
        )
    });
    assert_track_route(Message::PreviewTrackColor(0), |route| {
        matches!(route, PianoRollTrackRoute::Edit(PianoRollTrackEditRoute::Color))
    });
}

#[test]
fn piano_roll_track_route_classifies_panel_messages() {
    assert_track_route(Message::TrackPanelToggle, |route| {
        matches!(
            route,
            PianoRollTrackRoute::Panel(PianoRollTrackPanelRoute::Toggle)
        )
    });
    assert_track_route(Message::TrackPanelResizedBy, |route| {
        matches!(
            route,
            PianoRollTrackRoute::Panel(PianoRollTrackPanelRoute::Resize)
        )
    });
    assert_track_route(Message::TrackMuteToggled(1), |route| {
        matches!(
            route,
            PianoRollTrackRoute::Panel(PianoRollTrackPanelRoute::ToggleMute(1))
        )
    });
    assert_track_route(Message::TrackSoloToggled(1), |route| {
        matches!(
            route,
            PianoRollTrackRoute::Panel(PianoRollTrackPanelRoute::ToggleSolo(1))
        )
    });
}

#[test]
fn piano_roll_message_helpers_pick_their_payloads() {
    assert_eq!(
        piano_roll_file_step(&Message::FilePrevious),
        Some(PianoRollFileStep::Previous)
    );
    assert_eq!(piano_roll_file_step(&Message::FileNext), Some(PianoRollFileStep::Next));
    assert_eq!(piano_roll_file_step(&Message::ZoomIn), None);
    assert_eq!(start_track_rename_message(&Message::StartTrackRename(4)), Some(4));
    assert_eq!(start_track_rename_message(&Message::SelectTrack(4)), None);
    assert_eq!(
        track_color_picker_target(&Message::OpenTrackColorPickerForTrack(6)),
        Some(6)
    );
    assert_eq!(track_color_picker_target(&Message::OpenTrackColorPicker), None);
}

fn assert_score_route(message: ViewerMessage, expected: fn(ScoreViewerRoute) -> bool) {
    assert!(expected(score_viewer_route(message)));
}

#[test]
fn score_viewer_route_classifies_viewer_messages() {
    assert_score_route(ViewerMessage::ScrollUp, |route| {
        matches!(route, ScoreViewerRoute::ScrollBy(_))
    });
    assert_score_route(ViewerMessage::ScrollPositionChanged, |route| {
        matches!(route, ScoreViewerRoute::ScrollPosition)
    });
    assert_score_route(ViewerMessage::ViewportCursorMoved, |route| {
        matches!(route, ScoreViewerRoute::Cursor { inside: true })
    });
    assert_score_route(ViewerMessage::ViewportCursorLeft, |route| {
        matches!(route, ScoreViewerRoute::Cursor { inside: false })
    });
    assert_score_route(ViewerMessage::OpenPointAndClick, |route| {
        matches!(route, ScoreViewerRoute::PointAndClick)
    });
    assert_score_route(ViewerMessage::NextPage, |route| {
        matches!(route, ScoreViewerRoute::Page(_))
    });
    assert_score_route(ViewerMessage::ZoomIn, |route| {
        matches!(route, ScoreViewerRoute::Zoom(_))
    });
    assert_score_route(ViewerMessage::ResetPageBrightness, |route| {
        matches!(route, ScoreViewerRoute::Brightness(_))
    });
}

#[test]
fn keyboard_scrolls_go_up_and_down() {
    assert_eq!(
        score_viewer_route(ViewerMessage::ScrollUp),
        ScoreViewerRoute::ScrollBy(ScrollDirection::Up)
    );
    assert_eq!(
        score_viewer_route(ViewerMessage::ScrollDown),
        ScoreViewerRoute::ScrollBy(ScrollDirection::Down)
    );
}

#[test]
fn score_pages_step_within_bounds() {
    assert_eq!(step_score_page(0, 3, ViewerMessage::PrevPage), None);
    assert_eq!(step_score_page(1, 3, ViewerMessage::PrevPage), Some(0));
    assert_eq!(step_score_page(1, 3, ViewerMessage::NextPage), Some(2));
    assert_eq!(step_score_page(2, 3, ViewerMessage::NextPage), None);
    assert_eq!(step_score_page(0, 0, ViewerMessage::NextPage), None);
    assert_eq!(step_score_page(1, 3, ViewerMessage::ZoomIn), None);
}

#[test]
fn rewinding_stops_at_the_flag_then_the_start() {
    assert_eq!(rewind_target_tick(900, 480), 480);
    assert_eq!(rewind_target_tick(480, 480), 0);
    assert_eq!(rewind_target_tick(100, 480), 0);
    assert_eq!(clamp_seek_tick(100, 50), 50);
    assert_eq!(clamp_seek_tick(10, 50), 10);
}
