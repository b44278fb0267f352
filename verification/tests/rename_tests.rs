use lilypalooza::rename::{
    RenameCommit, RenameTarget, TrackRenameState, set_track_override, track_override,
};
use lilypalooza::shortcuts::WorkspacePaneKind;

#[test]
fn track_rename_commits_on_focus_loss() {
    let mut state = TrackRenameState::new(0u32);
    let mut overrides: Vec<Option<String>> = Vec::new();
    state.target = Some(RenameTarget::Track(0));
    state.was_focused = true;
    state.value = "Lead".into();

    let commit = state.handle_focus_changed(false);
    if let Some(RenameCommit::Track { track_index, value }) = commit {
        set_track_override(&mut overrides, track_index, Some(value));
    }

    assert_eq!(track_override(&overrides, 0).map(String::as_str), Some("Lead"));
    assert!(state.target.is_none());
    assert!(state.value.is_empty());
}

#[test]
fn gaining_focus_arms_the_commit_and_an_open_picker_holds_it() {
    let mut state = TrackRenameState::new(0u32);
    assert_eq!(
        state.start(RenameTarget::Track(2), WorkspacePaneKind::PianoRoll, "Bass".into(), 7),
        None
    );
    assert_eq!(state.handle_focus_changed(false), None);
    assert_eq!(state.target, Some(RenameTarget::Track(2)));
    assert_eq!(state.handle_focus_changed(true), None);
    assert!(state.was_focused);
    state.open_color_picker(9);
    assert_eq!(state.color_value, 9);
    assert_eq!(state.handle_focus_changed(false), None);
    assert!(state.target.is_some());
}

#[test]
fn focus_changes_without_a_rename_do_nothing() {
    let mut state = TrackRenameState::new(0u32);
    state.was_focused = true;
    assert_eq!(state.handle_focus_changed(false), None);
    assert!(!state.was_focused);
}

#[test]
fn starting_another_rename_applies_the_pending_one() {
    let mut state = TrackRenameState::new(0u32);
    state.start(RenameTarget::Track(1), WorkspacePaneKind::Mixer, "One".into(), 1);
    let commit = state.start(RenameTarget::Bus(3), WorkspacePaneKind::Mixer, "Bus".into(), 0);
    assert_eq!(
        commit,
        Some(RenameCommit::Track {
            track_index: 1,
            value: "One".to_string()
        })
    );
    assert_eq!(state.target, Some(RenameTarget::Bus(3)));
    assert_eq!(state.value, "Bus");
    assert!(state.is_renaming_track_in(1, WorkspacePaneKind::Mixer) == false);
}

#[test]
fn restarting_the_same_rename_commits_nothing() {
    let mut state = TrackRenameState::new(0u32);
    state.start(RenameTarget::Track(1), WorkspacePaneKind::Mixer, "One".into(), 1);
    let commit = state.start(RenameTarget::Track(1), WorkspacePaneKind::PianoRoll, "Two".into(), 1);
    assert_eq!(commit, None);
    assert!(state.is_renaming_track_in(1, WorkspacePaneKind::PianoRoll));
}

#[test]
fn bus_renames_are_trimmed_and_empty_ones_dropped() {
    let mut state = TrackRenameState::new(0u32);
    state.start(RenameTarget::Bus(4), WorkspacePaneKind::Mixer, "  Drums  ".into(), 0);
    assert_eq!(
        state.apply_pending(),
        Some(RenameCommit::Bus {
            bus_id: 4,
            name: "Drums".to_string()
        })
    );
    state.start(RenameTarget::Bus(4), WorkspacePaneKind::Mixer, "   ".into(), 0);
    assert_eq!(state.apply_pending(), None);
    assert!(state.target.is_none());
    assert_eq!(state.apply_pending(), None);
}

#[test]
fn typed_values_are_cut_to_the_limit() {
    let mut state = TrackRenameState::new(0u32);
    state.update_value("Melody", 4);
    assert_eq!(state.value, "Melo");
    state.update_value("Mé", 4);
    assert_eq!(state.value, "Mé");
}

#[test]
fn cancelling_restores_the_resolved_color() {
    let mut state = TrackRenameState::new(0u32);
    state.start(RenameTarget::Track(0), WorkspacePaneKind::Mixer, "x".into(), 5);
    state.preview_color(8);
    assert_eq!(state.color_track(), Some(0));
    state.cancel(Some(5));
    assert_eq!(state.color_value, 5);
    assert!(state.target.is_none());
    assert!(state.value.is_empty());
    state.cancel(Some(1));
    assert_eq!(state.color_value, 5);
}

#[test]
fn picked_colors_go_to_the_renamed_or_picked_track() {
    let mut state = TrackRenameState::new(0u32);
    assert_eq!(
        state.open_color_picker_for_track(3, WorkspacePaneKind::PianoRoll, 11),
        None
    );
    assert!(state.is_picking_track_color_in(3, WorkspacePaneKind::PianoRoll));
    assert_eq!(state.effective_track_color(3, 1), 11);
    assert_eq!(state.effective_track_color(4, 1), 1);
    assert_eq!(state.submit_color(12), Some(3));
    assert_eq!(state.color_value, 12);
    assert!(!state.color_picker_open);
    assert!(state.color_picker_target.is_none());
    assert_eq!(state.submit_color(13), None);
    assert_eq!(state.color_value, 12);
}

#[test]
fn opening_a_track_picker_applies_a_pending_rename() {
    let mut state = TrackRenameState::new(0u32);
    state.start(RenameTarget::Track(2), WorkspacePaneKind::Mixer, "Keys".into(), 0);
    let commit = state.open_color_picker_for_track(5, WorkspacePaneKind::Mixer, 3);
    assert_eq!(
        commit,
        Some(RenameCommit::Track {
            track_index: 2,
            value: "Keys".to_string()
        })
    );
    assert!(state.target.is_none());
    assert_eq!(state.color_picker_target, Some((5, WorkspacePaneKind::Mixer)));
}

#[test]
fn overrides_are_sized_to_the_track_before_setting() {
    let mut overrides: Vec<Option<u32>> = vec![Some(1), Some(2), Some(3), Some(4)];
    set_track_override(&mut overrides, 1, Some(9));
    assert_eq!(overrides, vec![Some(1), Some(9)]);
    set_track_override(&mut overrides, 3, None);
    assert_eq!(overrides, vec![Some(1), Some(9), None, None]);
    assert_eq!(track_override(&overrides, 1), Some(&9));
    assert_eq!(track_override(&overrides, 2), None);
    assert_eq!(track_override(&overrides, 7), None);
}
