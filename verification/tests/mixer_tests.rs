use lilypalooza::mixer::{MixerRoute, plan_mixer_message};
use lilypalooza::mixer::{
    MixerStrip, mixer_strip, move_effect_slot, numbered_bus_name, remove_effect_slot,
    upsert_effect_slot,
};
use lilypalooza::mixer::{
    EditorTarget, EffectLabel, EffectMove, EffectRackState, MixerHistory, MixerHistoryMode,
    MixerHistoryStep, MixerMessageKind, ProcessorBrowserBackend, ProcessorBrowserSectionKey,
    ProcessorBrowserState, ProcessorSlotRole, TrackReveal, TrackSelectionOrigin,
    assign_effect_instance_label_index, editor_target_destroyed_by_mixer_message,
    editor_window_title, effect_rack_drop_index, effect_rack_hovered_index,
    mixer_message_focuses_mixer, mixer_message_history_mode, next_preset_index,
    remove_bus_prompt, select_track, toggle_mixer_effect_rack,
};
use lilypalooza::prompts::{PromptButtons, PromptMessage, PromptOkAction, PromptResponse, PromptState};

#[test]
fn mixer_drag_value_changes_use_gesture_history() {
    assert_eq!(
        mixer_message_history_mode(MixerMessageKind::SetTrackGain(0), true),
        MixerHistoryMode::Gesture
    );
    assert_eq!(
        mixer_message_history_mode(MixerMessageKind::SetTrackPan(0), true),
        MixerHistoryMode::Gesture
    );
}

#[test]
fn mixer_discrete_value_changes_use_immediate_history() {
    assert_eq!(
        mixer_message_history_mode(MixerMessageKind::SetTrackGain(0), false),
        MixerHistoryMode::Immediate
    );
    let target = EditorTarget {
        strip_index: 1,
        slot_index: 0,
    };
    assert_eq!(
        mixer_message_history_mode(MixerMessageKind::SelectProcessor(target), false),
        MixerHistoryMode::Immediate
    );
    assert_eq!(
        mixer_message_history_mode(MixerMessageKind::ToggleProcessorBrowser(target), false),
        MixerHistoryMode::NotRecorded
    );
}

#[test]
fn mixer_meter_resets_do_not_record_history() {
    assert_eq!(
        mixer_message_history_mode(MixerMessageKind::ResetTrackMeter(0), false),
        MixerHistoryMode::NotRecorded
    );
}

#[test]
fn toggle_mixer_effect_rack_opens_and_closes_track_panel() {
    let mut open: Vec<usize> = Vec::new();

    toggle_mixer_effect_rack(&mut open, 3);
    assert_eq!(open, vec![3]);

    toggle_mixer_effect_rack(&mut open, 5);
    assert_eq!(open, vec![3, 5]);

    toggle_mixer_effect_rack(&mut open, 3);
    assert_eq!(open, vec![5]);
}

#[test]
fn effect_racks_stay_sorted_when_opened_out_of_order() {
    let mut open: Vec<usize> = Vec::new();
    toggle_mixer_effect_rack(&mut open, 7);
    toggle_mixer_effect_rack(&mut open, 2);
    toggle_mixer_effect_rack(&mut open, 4);
    assert_eq!(open, vec![2, 4, 7]);
    toggle_mixer_effect_rack(&mut open, 4);
    toggle_mixer_effect_rack(&mut open, 4);
    assert_eq!(open, vec![2, 4, 7]);
}

#[test]
fn processor_browser_opens_for_master_effect_without_track_underflow() {
    let mut browser = ProcessorBrowserState::new();
    let target = EditorTarget {
        strip_index: 0,
        slot_index: 1,
    };

    let opened = browser.toggle(target);

    assert!(opened);
    assert_eq!(browser.open_target, Some(target));
    assert_eq!(browser.open_instrument_track, None);
}

#[test]
fn processor_browser_toggle_for_instrument_slot_picks_track_and_closes() {
    let mut browser = ProcessorBrowserState::new();
    browser.search = "reverb".to_string();
    let target = EditorTarget {
        strip_index: 2,
        slot_index: 0,
    };
    assert!(browser.toggle(target));
    assert_eq!(browser.open_instrument_track, Some(1));
    assert!(browser.search.is_empty());
    assert!(!browser.toggle(target));
    assert_eq!(browser.open_target, None);
    assert_eq!(browser.open_instrument_track, None);
}

#[test]
fn processor_browser_section_toggle_expands_and_collapses_for_session() {
    let mut browser = ProcessorBrowserState::new();
    let key = ProcessorBrowserSectionKey::new(
        ProcessorSlotRole::Effect,
        ProcessorBrowserBackend::BuiltIn,
        "Utility".to_string(),
    );
    browser.toggle_section(&key);
    assert_eq!(browser.expanded_sections.len(), 1);
    assert_eq!(browser.expanded_sections[0].category, "Utility");
    browser.toggle_section(&key);
    assert!(browser.expanded_sections.is_empty());
}

#[test]
fn mixer_undo_then_redo_restores_state_and_stacks() {
    let mut history: MixerHistory<u32> = MixerHistory::new();
    history.record(MixerHistoryMode::Immediate, Some(10));
    history.record(MixerHistoryMode::Immediate, Some(20));
    assert_eq!(history.undo_stack, vec![10, 20]);

    let current = 30;
    let restored = history.begin_step(MixerHistoryStep::Undo);
    assert_eq!(restored, Some(20));
    history.finish_step(MixerHistoryStep::Undo, current);
    assert_eq!(history.redo_stack, vec![30]);

    let redone = history.begin_step(MixerHistoryStep::Redo);
    assert_eq!(redone, Some(30));
    history.finish_step(MixerHistoryStep::Redo, 20);
    assert_eq!(history.undo_stack, vec![10, 20]);
    assert!(history.redo_stack.is_empty());
}

#[test]
fn mixer_gesture_records_once_and_commits_on_release() {
    let mut history: MixerHistory<u32> = MixerHistory::new();
    history.redo_stack.push(99);
    history.record(MixerHistoryMode::Gesture, Some(1));
    history.record(MixerHistoryMode::Gesture, Some(2));
    assert_eq!(history.pending, Some(1));
    assert!(history.undo_stack.is_empty());
    history.commit_pending();
    assert_eq!(history.undo_stack, vec![1]);
    assert!(history.redo_stack.is_empty());
    assert_eq!(history.pending, None);
}

#[test]
fn mixer_unrecorded_messages_leave_history_alone() {
    let mut history: MixerHistory<u32> = MixerHistory::new();
    history.record(MixerHistoryMode::NotRecorded, Some(5));
    assert!(history.undo_stack.is_empty());
    assert_eq!(history.pending, None);
    assert_eq!(history.begin_step(MixerHistoryStep::Undo), None);
}

#[test]
fn history_step_inverse_swaps_undo_and_redo() {
    assert_eq!(MixerHistoryStep::Undo.inverse(), MixerHistoryStep::Redo);
    assert_eq!(MixerHistoryStep::Redo.inverse(), MixerHistoryStep::Undo);
}

#[test]
fn selecting_processor_destroys_its_editor_first() {
    let target = EditorTarget {
        strip_index: 2,
        slot_index: 1,
    };
    assert_eq!(
        editor_target_destroyed_by_mixer_message(MixerMessageKind::SelectProcessor(target)),
        Some(target)
    );
    assert_eq!(
        editor_target_destroyed_by_mixer_message(MixerMessageKind::OpenEditor(target)),
        None
    );
}

#[test]
fn scrolling_and_track_selection_keep_focus() {
    assert!(!mixer_message_focuses_mixer(MixerMessageKind::SelectTrack(1)));
    assert!(!mixer_message_focuses_mixer(MixerMessageKind::BusViewportScrolled));
    assert!(mixer_message_focuses_mixer(MixerMessageKind::AddBus));
}

#[test]
fn piano_roll_track_selection_updates_shared_state() {
    let mut selected: Option<usize> = None;
    let _reveal = select_track(
        &mut selected,
        3,
        TrackSelectionOrigin::PianoRoll,
        false,
        false,
        None,
    );
    assert_eq!(selected, Some(3));
}

#[test]
fn mixer_track_selection_updates_shared_state_without_playback() {
    let mut selected: Option<usize> = None;
    let _reveal = select_track(&mut selected, 5, TrackSelectionOrigin::Mixer, false, false, None);
    assert_eq!(selected, Some(5));
}

#[test]
fn track_selection_reveals_in_the_other_pane() {
    let mut selected = None;
    assert_eq!(
        select_track(&mut selected, 2, TrackSelectionOrigin::PianoRoll, true, true, Some(4)),
        TrackReveal::InMixer(2)
    );
    assert_eq!(
        select_track(&mut selected, 2, TrackSelectionOrigin::Mixer, true, true, Some(4)),
        TrackReveal::InPianoRoll(2)
    );
    assert_eq!(
        select_track(&mut selected, 4, TrackSelectionOrigin::Mixer, true, true, Some(4)),
        TrackReveal::Nothing
    );
}

#[test]
fn effect_drag_within_strip_moves_effect() {
    let mut rack = EffectRackState::new();
    rack.set_processor_slot_hovered(Some(EditorTarget {
        strip_index: 1,
        slot_index: 2,
    }));
    assert_eq!(rack.hovered_effect, Some((1, 1)));
    rack.begin_drag_from_hover();
    assert_eq!(rack.drag_source, Some((1, 1)));
    assert!(rack.update_drag_position(1, Some(3), Some(3)));
    let moved = rack.finish_drag(None);
    assert_eq!(
        moved,
        Some(EffectMove {
            strip_index: 1,
            from_effect_index: 1,
            to_effect_index: 3,
        })
    );
    assert_eq!(rack.drag_source, None);
    assert_eq!(rack.autoscroll_direction, 0);
}

#[test]
fn effect_drag_to_another_strip_or_same_place_moves_nothing() {
    let mut rack = EffectRackState::new();
    rack.start_drag(1, 0);
    assert_eq!(rack.finish_drag(Some((2, 0))), None);
    rack.start_drag(1, 0);
    assert_eq!(rack.finish_drag(Some((1, 0))), None);
}

#[test]
fn leaving_rack_clears_hover_and_stops_autoscroll() {
    let mut rack = EffectRackState::new();
    rack.start_drag(4, 0);
    rack.autoscroll_direction = 1;
    rack.hovered_effect = Some((4, 0));
    rack.clear_hover_for_strip(4);
    assert_eq!(rack.hovered_effect, None);
    assert!(rack.clear_drag_for_strip(4));
    assert_eq!(rack.autoscroll_direction, 0);
    assert!(!rack.clear_drag_for_strip(3));
}

#[test]
fn effect_rack_row_indices_stay_within_effects() {
    assert_eq!(effect_rack_hovered_index(2, Some(3)), Some(2));
    assert_eq!(effect_rack_hovered_index(3, Some(3)), None);
    assert_eq!(effect_rack_drop_index(9, Some(3)), Some(2));
    assert_eq!(effect_rack_drop_index(0, Some(0)), None);
    assert_eq!(effect_rack_drop_index(0, None), None);
}

#[test]
fn preset_steps_wrap_around() {
    assert_eq!(next_preset_index(Some(2), 3, 1), 0);
    assert_eq!(next_preset_index(Some(0), 3, -1), 2);
    assert_eq!(next_preset_index(Some(1), 3, -4), 0);
    assert_eq!(next_preset_index(None, 4, 1), 0);
    assert_eq!(next_preset_index(None, 4, -1), 3);
}

fn label(name: &str, index: usize) -> EffectLabel {
    EffectLabel {
        name: Some(name.to_string()),
        instance_label_index: index,
    }
}

#[test]
fn selecting_track_effect_uses_lowest_free_duplicate_label_index() {
    let effects = vec![label("Gain", 1), label("Gain", 3)];
    assert_eq!(assign_effect_instance_label_index(&effects, 2, "Gain"), 2);
}

#[test]
fn replacing_slot_with_same_processor_keeps_its_label() {
    let effects = vec![label("Gain", 1), label("Gain", 4)];
    assert_eq!(assign_effect_instance_label_index(&effects, 1, "Gain"), 4);
    assert_eq!(assign_effect_instance_label_index(&effects, 1, "Delay"), 1);
    assert_eq!(assign_effect_instance_label_index(&Vec::new(), 0, "Gain"), 1);
}

#[test]
fn remove_bus_prompt_names_the_bus() {
    let prompt = remove_bus_prompt(Some("Drums"), 3);
    assert_eq!(prompt.title, "Remove Drums?");
    assert_eq!(prompt.buttons, PromptButtons::OkCancel);
    let unnamed = remove_bus_prompt(None, 12);
    assert_eq!(unnamed.title, "Remove Bus 12?");
}

#[test]
fn editor_window_title_uses_track_name_only_for_instrument_slot() {
    assert_eq!(editor_window_title("Violin", "Gain 2", 0), "Violin");
    assert_eq!(editor_window_title("Violin", "Gain 2", 1), "Gain 2");
}

#[test]
fn processor_browser_toggle_opens_and_closes_same_track_instrument() {
    let mut browser = ProcessorBrowserState::new();
    let target = EditorTarget {
        strip_index: 4,
        slot_index: 0,
    };

    browser.toggle(target);

    assert_eq!(browser.open_instrument_track, Some(3));
    assert_eq!(browser.open_target, Some(target));
    assert!(browser.search.is_empty());

    browser.toggle(target);

    assert_eq!(browser.open_instrument_track, None);
    assert_eq!(browser.open_target, None);
}

#[test]
fn effect_slots_move_remove_and_upsert() {
    let mut effects = vec!['a', 'b', 'c', 'd'];
    assert!(move_effect_slot(&mut effects, 0, 2));
    assert_eq!(effects, vec!['b', 'c', 'a', 'd']);
    assert!(move_effect_slot(&mut effects, 2, 0));
    assert_eq!(effects, vec!['a', 'b', 'c', 'd']);
    assert!(!move_effect_slot(&mut effects, 4, 0));
    assert_eq!(effects, vec!['a', 'b', 'c', 'd']);
    remove_effect_slot(&mut effects, 1);
    assert_eq!(effects, vec!['a', 'c', 'd']);
    remove_effect_slot(&mut effects, 9);
    assert_eq!(effects, vec!['a', 'c', 'd']);
    upsert_effect_slot(&mut effects, 0, 'x');
    upsert_effect_slot(&mut effects, 5, 'y');
    assert_eq!(effects, vec!['x', 'c', 'd', 'y']);

    assert_eq!(mixer_strip(0, 3), MixerStrip::Master);
    assert_eq!(mixer_strip(2, 3), MixerStrip::Track(1));
    assert_eq!(mixer_strip(4, 3), MixerStrip::Bus);
    assert_eq!(numbered_bus_name(0), "Bus 1");
    assert_eq!(numbered_bus_name(11), "Bus 12");
}

#[test]
fn mixer_messages_are_planned() {
    let plan = plan_mixer_message(MixerMessageKind::SetTrackGain(1), true);
    assert!(plan.focus_mixer);
    assert_eq!(plan.history, MixerHistoryMode::Gesture);
    assert_eq!(
        plan.route,
        MixerRoute::Playback {
            closes_browser: false,
            replaces_editor: None
        }
    );
    let target = EditorTarget {
        strip_index: 2,
        slot_index: 1,
    };
    let plan = plan_mixer_message(MixerMessageKind::SelectProcessor(target), false);
    assert_eq!(
        plan.route,
        MixerRoute::Playback {
            closes_browser: true,
            replaces_editor: Some(target)
        }
    );
    let plan = plan_mixer_message(MixerMessageKind::SelectTrack(0), false);
    assert!(!plan.focus_mixer);
    assert_eq!(plan.route, MixerRoute::BrowserUi);
    assert_eq!(
        plan_mixer_message(MixerMessageKind::RemoveBus(3), false).route,
        MixerRoute::RemoveBus(3)
    );
    assert_eq!(
        plan_mixer_message(MixerMessageKind::CommitTrackRename, false).route,
        MixerRoute::Rename
    );
    assert_eq!(
        plan_mixer_message(MixerMessageKind::PreviewTrackColor, false).route,
        MixerRoute::Color
    );
    assert_eq!(
        plan_mixer_message(MixerMessageKind::DropTrackEffect, false).route,
        MixerRoute::EffectDrag
    );
    assert_eq!(
        plan_mixer_message(MixerMessageKind::OpenEditor(target), false).route,
        MixerRoute::OpenEditor(target)
    );
}

#[test]
fn moving_track_effect_reorders_effect_slots() {
    let first = vec![1u8];
    let second = vec![2u8];
    let mut effects = vec![first.clone(), second.clone()];
    assert!(move_effect_slot(&mut effects, 0, 1));
    assert_eq!(effects.first(), Some(&second));
    assert_eq!(effects.get(1), Some(&first));
}

#[test]
fn dropping_dragged_track_effect_reorders_effect_slots() {
    let first = vec![1u8];
    let second = vec![2u8];
    let mut effects = vec![first.clone(), second.clone()];
    let mut rack = EffectRackState::new();

    rack.start_drag(1, 0);
    let moved = rack.finish_drag(Some((1, 1))).expect("a move within the strip");
    assert_eq!(
        moved,
        EffectMove {
            strip_index: 1,
            from_effect_index: 0,
            to_effect_index: 1
        }
    );
    assert!(move_effect_slot(
        &mut effects,
        moved.from_effect_index,
        moved.to_effect_index
    ));

    assert_eq!(effects.first(), Some(&second));
    assert_eq!(effects.get(1), Some(&first));
    assert_eq!(rack.drag_source, None);
}

#[test]
fn rack_hover_press_drag_release_reorders_effect_slots() {
    let first = vec![1u8];
    let second = vec![2u8];
    let third = vec![3u8];
    let mut effects = vec![first.clone(), second.clone(), third.clone()];
    let count = Some(effects.len());
    let mut rack = EffectRackState::new();

    // The pointer is over the first row, the button goes down, the pointer moves to the
    // third row, and the button comes up.
    rack.update_drag_position(1, effect_rack_hovered_index(0, count), effect_rack_drop_index(0, count));
    rack.begin_drag_from_hover();
    rack.update_drag_position(1, effect_rack_hovered_index(2, count), effect_rack_drop_index(2, count));
    let moved = rack.finish_drag(None).expect("a move within the strip");
    assert!(move_effect_slot(
        &mut effects,
        moved.from_effect_index,
        moved.to_effect_index
    ));

    assert_eq!(effects.first(), Some(&second));
    assert_eq!(effects.get(1), Some(&third));
    assert_eq!(effects.get(2), Some(&first));
}

#[test]
fn processor_slot_hover_can_start_effect_drag() {
    let mut rack = EffectRackState::new();
    let target = EditorTarget {
        strip_index: 1,
        slot_index: 1,
    };
    rack.set_processor_slot_hovered(Some(target));
    rack.begin_drag_from_hover();

    assert_eq!(rack.drag_source, Some((1, 0)));
    assert_eq!(rack.drag_target, Some((1, 0)));
}

#[test]
fn rack_cursor_exit_clears_hovered_effect_before_mouse_press() {
    let mut rack = EffectRackState::new();
    let count = Some(1);
    rack.update_drag_position(1, effect_rack_hovered_index(0, count), effect_rack_drop_index(0, count));
    rack.clear_hover_for_strip(1);
    rack.begin_drag_from_hover();

    assert_eq!(rack.hovered_effect, None);
    assert_eq!(rack.drag_source, None);
}

#[test]
fn selecting_track_instrument_closes_open_browser() {
    let mut browser = ProcessorBrowserState::new();
    let target = EditorTarget {
        strip_index: 1,
        slot_index: 0,
    };
    assert!(browser.toggle(target));
    browser.search = "piano".to_string();
    assert_eq!(browser.open_instrument_track, Some(0));

    let plan = plan_mixer_message(MixerMessageKind::SelectProcessor(target), false);
    if let MixerRoute::Playback {
        closes_browser: true,
        ..
    } = plan.route
    {
        browser.close();
    }

    assert_eq!(browser.open_instrument_track, None);
    assert_eq!(browser.open_target, None);
    assert!(browser.search.is_empty());
}

fn remove_first_bus_prompt(prompts: &mut PromptState) -> u16 {
    let bus_name = numbered_bus_name(0);
    let bus_id: u16 = 1;
    let plan = plan_mixer_message(MixerMessageKind::RemoveBus(bus_id), false);
    assert_eq!(plan.route, MixerRoute::RemoveBus(bus_id));
    prompts.show_prompt(
        remove_bus_prompt(Some(bus_name.as_str()), bus_id),
        Some(PromptOkAction::RemoveBus(bus_id)),
    );
    bus_id
}

#[test]
fn remove_bus_message_removes_bus() {
    let mut prompts = PromptState::new();
    let bus_id = remove_first_bus_prompt(&mut prompts);
    assert_eq!(
        prompts.error_prompt.as_ref().map(|prompt| prompt.title()),
        Some("Remove Bus 1?")
    );

    assert_eq!(
        prompts.handle_prompt_message(PromptMessage::Acknowledge),
        PromptResponse::RunOkAction(Some(PromptOkAction::RemoveBus(bus_id)))
    );
    assert!(prompts.error_prompt.is_none());
}

#[test]
fn canceling_remove_bus_prompt_keeps_bus() {
    let mut prompts = PromptState::new();
    remove_first_bus_prompt(&mut prompts);
    assert_eq!(
        prompts.handle_prompt_message(PromptMessage::Cancel),
        PromptResponse::Done
    );

    assert!(prompts.error_prompt.is_none());
    assert_eq!(prompts.prompt_ok_action, None);
}

#[test]
fn processor_frame_next_from_placeholder_loads_first_preset() {
    let presets = vec!["First", "Second"];
    let index = next_preset_index(None, presets.len(), 1);
    assert_eq!(presets[index], "First");
}

struct Strips {
    master: Vec<&'static str>,
    tracks: Vec<Vec<&'static str>>,
    buses: Vec<Vec<&'static str>>,
}

fn one_track_mixer() -> Strips {
    Strips {
        master: Vec::new(),
        tracks: vec![Vec::new()],
        buses: Vec::new(),
    }
}

fn select_effect(strips: &mut Strips, target: EditorTarget, processor: &'static str) {
    let plan = plan_mixer_message(MixerMessageKind::SelectProcessor(target), false);
    assert!(matches!(plan.route, MixerRoute::Playback { .. }));
    let track_count = strips.tracks.len();
    let effects = match mixer_strip(target.strip_index, track_count) {
        MixerStrip::Master => &mut strips.master,
        MixerStrip::Track(index) => &mut strips.tracks[index],
        MixerStrip::Bus => &mut strips.buses[target.strip_index - 1 - track_count],
    };
    upsert_effect_slot(effects, target.slot_index - 1, processor);
}

#[test]
fn selecting_track_effect_adds_effect_slot() {
    let mut strips = one_track_mixer();
    select_effect(
        &mut strips,
        EditorTarget {
            strip_index: 1,
            slot_index: 1,
        },
        "gain",
    );
    assert_eq!(strips.tracks[0].len(), 1);
    assert_eq!(strips.tracks[0][0], "gain");
}

#[test]
fn selecting_master_effect_adds_effect_slot() {
    let mut strips = one_track_mixer();
    select_effect(
        &mut strips,
        EditorTarget {
            strip_index: 0,
            slot_index: 1,
        },
        "gain",
    );
    assert_eq!(strips.master.len(), 1);
}

#[test]
fn selecting_bus_effect_adds_effect_slot() {
    let mut strips = one_track_mixer();
    strips.buses.push(Vec::new());
    let bus_strip_index = 1 + strips.tracks.len();
    select_effect(
        &mut strips,
        EditorTarget {
            strip_index: bus_strip_index,
            slot_index: 1,
        },
        "gain",
    );
    assert_eq!(strips.buses.first().expect("bus should exist").len(), 1);
}
