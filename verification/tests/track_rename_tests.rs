use lilypalooza::keys::{KeyName, KeyPress, ModalKeyRoute, handle_transient_overlay_key_pressed};
use lilypalooza::shortcuts::WorkspacePaneKind;
use lilypalooza::track_rename::{RenameTarget, TrackRenameState};

fn press(key: KeyName) -> KeyPress {
    KeyPress {
        key,
        captured: false,
        shift: false,
        control: false,
        command: false,
    }
}

fn renaming(origin: Option<WorkspacePaneKind>) -> TrackRenameState {
    let mut state = TrackRenameState::new();
    state.renaming_target = Some(RenameTarget::Track(2));
    state.renaming_origin = origin;
    state.color_picker_target = Some((2, WorkspacePaneKind::Score));
    state.was_focused = true;
    state.value = "Lead".to_string();
    state.color_picker_open = true;
    state
}

#[test]
fn escape_cancels_a_rename_begun_elsewhere() {
    let mut state = renaming(None);
    let route = handle_transient_overlay_key_pressed(&mut state, false, false, &press(KeyName::Escape));
    assert_eq!(route, Some(ModalKeyRoute::CancelTrackRename));
    assert!(state.renaming_target.is_none());
    assert!(state.renaming_origin.is_none());
    assert!(state.color_picker_target.is_none());
    assert!(!state.was_focused);
    assert!(state.value.is_empty());
    assert!(!state.color_picker_open);
}

#[test]
fn escape_in_the_piano_roll_rename_is_routed_there() {
    let mut state = renaming(Some(WorkspacePaneKind::PianoRoll));
    let route = handle_transient_overlay_key_pressed(&mut state, false, false, &press(KeyName::Escape));
    assert_eq!(route, Some(ModalKeyRoute::CancelPianoRollTrackRename));
    assert_eq!(state.value, "Lead");
}

#[test]
fn no_overlay_takes_no_key() {
    let mut state = TrackRenameState::new();
    assert_eq!(handle_transient_overlay_key_pressed(&mut state, false, false, &press(KeyName::Escape)), None);
    assert_eq!(
        handle_transient_overlay_key_pressed(&mut state, true, false, &press(KeyName::Escape)),
        Some(ModalKeyRoute::CloseMetronomeMenu)
    );
}
