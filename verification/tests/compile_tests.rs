use lilypalooza::compile::{ScoreOutputs, activate_score};
use lilypalooza::project::SelectedScore;
use lilypalooza::compile::{
    CompileQueue, CompileStart, loaded_midi_message, loaded_pages_message,
    non_unfolded_repeat_warning, order_build_outputs, rendered_page_number, select_midi_roll_paths,
    require_rendered_pages, select_rendered_pages, selected_score_stem, page_after_reload, point_and_click_disabled_warning,
};

#[test]
fn a_queued_compile_starts_once_nothing_runs() {
    let mut queue = CompileQueue::new();
    assert_eq!(queue.start_if_queued(true), CompileStart::Wait);
    assert!(queue.queue());
    assert!(!queue.queue());
    assert_eq!(queue.start_if_queued(true), CompileStart::Start(1));
    assert_eq!(queue.generation, 0);
    assert_eq!(queue.begin(), 1);
    queue.started();
    assert!(queue.session_running);
    assert!(!queue.requested);
    queue.queue();
    assert_eq!(queue.start_if_queued(true), CompileStart::Wait);
    assert!(queue.finished(true, true));
    assert!(queue.outputs_loading);
    assert_eq!(queue.start_if_queued(true), CompileStart::Wait);
}

#[test]
fn a_queued_compile_without_a_score_is_dropped() {
    let mut queue = CompileQueue::new();
    queue.queue();
    assert_eq!(queue.start_if_queued(false), CompileStart::NoScore);
    assert!(!queue.requested);
    queue.queue();
    queue.start_failed();
    assert!(!queue.requested);
}

#[test]
fn failed_compiles_load_nothing() {
    let mut queue = CompileQueue::new();
    queue.queue();
    queue.start_if_queued(true);
    queue.started();
    assert!(!queue.finished(false, true));
    assert!(!queue.session_running);
    assert!(!queue.outputs_loading);
}

#[test]
fn only_outputs_of_the_latest_compile_for_the_open_score_are_taken() {
    let mut queue = CompileQueue::new();
    queue.queue();
    queue.start_if_queued(true);
    queue.begin();
    let current = Some("/p/song.ly".to_string());
    assert!(queue.outputs_ready(1, &Some("/p/song.ly".to_string()), &current));
    assert!(!queue.outputs_ready(0, &Some("/p/song.ly".to_string()), &current));
    assert!(!queue.outputs_ready(1, &Some("/p/other.ly".to_string()), &current));
    assert!(queue.outputs_ready(1, &None, &current));
    assert!(!queue.outputs_loading);
}

#[test]
fn generations_wrap_around() {
    let mut queue = CompileQueue::new();
    queue.generation = u64::MAX;
    queue.queue();
    assert_eq!(queue.start_if_queued(true), CompileStart::Start(0));
}

#[test]
fn the_shown_page_stays_within_the_new_pages() {
    assert_eq!(page_after_reload(2, 5), 2);
    assert_eq!(page_after_reload(7, 5), 4);
    assert_eq!(page_after_reload(3, 0), 0);
}

#[test]
fn output_messages() {
    assert_eq!(loaded_pages_message(3), "Loaded 3 SVG page(s)");
    assert_eq!(loaded_midi_message(0), "No MIDI output found");
    assert_eq!(loaded_midi_message(2), "Loaded 2 MIDI file(s)");
}

#[test]
fn cursor_warnings() {
    assert!(point_and_click_disabled_warning(Some(true), true));
    assert!(!point_and_click_disabled_warning(Some(false), true));
    assert!(!point_and_click_disabled_warning(None, true));
    assert!(non_unfolded_repeat_warning(true, Some(1000), 1400, 480));
    assert!(!non_unfolded_repeat_warning(true, Some(1000), 1500, 480));
    assert!(!non_unfolded_repeat_warning(false, Some(1000), 1000, 480));
    assert!(!non_unfolded_repeat_warning(true, None, 0, 480));
}

#[test]
fn build_outputs_are_ordered_by_number_then_path() {
    let items = vec![
        (2, "/b/score-2.svg".to_string()),
        (0, "/b/score.svg".to_string()),
        (1, "/b/score-1.svg".to_string()),
        (1, "/b/other-1.svg".to_string()),
    ];
    let ordered = order_build_outputs(items);
    assert_eq!(
        ordered,
        vec![
            (0, "/b/score.svg".to_string()),
            (1, "/b/other-1.svg".to_string()),
            (1, "/b/score-1.svg".to_string()),
            (2, "/b/score-2.svg".to_string()),
        ]
    );
    assert!(order_build_outputs(Vec::new()).is_empty());
}

fn build_entries() -> Vec<String> {
    [
        "/b/score-page3.svg",
        "/b/score.midi",
        "/b/score-2.svg",
        "/b/other.svg",
        "/b/score-x.midi",
        "/b/score.svg",
        "/b/score-1.mid",
        "/b/score.log",
    ]
    .iter()
    .map(|s| s.to_string())
    .collect()
}

#[test]
fn rendered_pages_are_the_scores_svgs_in_page_order() {
    assert_eq!(rendered_page_number("/b/score-page3.svg", "score"), Some(3));
    assert_eq!(rendered_page_number("/b/score.SVG", "score"), Some(1));
    assert_eq!(rendered_page_number("/b/other.svg", "score"), None);
    assert_eq!(rendered_page_number("/b/score.midi", "score"), None);
    assert_eq!(
        select_rendered_pages(&build_entries(), "score"),
        vec![
            (1, "/b/score.svg".to_string()),
            (2, "/b/score-2.svg".to_string()),
            (3, "/b/score-page3.svg".to_string()),
        ]
    );
}

#[test]
fn midi_files_are_ordered_by_index_with_unnumbered_last() {
    assert_eq!(
        select_midi_roll_paths(&build_entries(), "score"),
        vec![
            (1, "/b/score-1.mid".to_string()),
            (1, "/b/score.midi".to_string()),
            (u32::MAX, "/b/score-x.midi".to_string()),
        ]
    );
    assert!(select_midi_roll_paths(&Vec::new(), "score").is_empty());
}

#[test]
fn outputs_need_a_score_stem_and_a_page() {
    assert_eq!(selected_score_stem("song.ly"), Ok("song".to_string()));
    assert_eq!(selected_score_stem(""), Err("Selected score name has no valid stem".to_string()));
    assert_eq!(require_rendered_pages(2), Ok(()));
    assert_eq!(
        require_rendered_pages(0),
        Err("LilyPond finished without SVG output".to_string())
    );
}

#[test]
fn unloading_the_score_stops_output_loading() {
    let mut queue = CompileQueue::new();
    queue.queue();
    assert_eq!(queue.start_if_queued(true), CompileStart::Start(1));
    assert_eq!(queue.generation, 0);
    assert_eq!(queue.begin(), 1);
    queue.started();
    assert!(queue.finished(true, true));
    queue.score_unloaded();
    assert!(!queue.outputs_loading);
    assert!(!queue.session_running);
}

#[test]
fn opening_a_score_queues_and_starts_a_compile() {
    let mut queue = CompileQueue::new();
    queue.outputs_loading = true;
    let mut current = None;
    let mut outputs: ScoreOutputs<u32, u32, u32> = ScoreOutputs::new();
    outputs.rendered = Some(3);
    outputs.cursor_maps = Some(1);
    outputs.cursor_overlay = Some(2);
    let score = SelectedScore { path: "/s/a.ly".to_string(), file_name: "a.ly".to_string() };
    let activation = activate_score(&mut queue, &mut current, &mut outputs, score.clone());
    assert_eq!(activation.start, CompileStart::Start(1));
    assert_eq!(activation.opened_line, "Opened score file /s/a.ly");
    assert!(activation.newly_queued);
    assert_eq!(current, Some(score));
    assert!(!queue.outputs_loading);
    assert_eq!(queue.generation, 0);
    assert!(outputs.rendered.is_none());
    assert!(outputs.cursor_maps.is_none());
    assert!(outputs.cursor_overlay.is_none());

    let mut busy = CompileQueue::new();
    busy.session_running = true;
    busy.requested = true;
    let mut current = None;
    let other = SelectedScore { path: "/s/b.ly".to_string(), file_name: "b.ly".to_string() };
    let activation = activate_score(&mut busy, &mut current, &mut outputs, other);
    assert_eq!(activation.start, CompileStart::Wait);
    assert!(!activation.newly_queued);
    assert!(busy.requested);
}

#[test]
fn a_compile_that_fails_before_its_build_folder_keeps_the_generation() {
    let mut queue = CompileQueue::new();
    queue.queue();
    assert_eq!(queue.start_if_queued(true), CompileStart::Start(1));
    queue.start_failed();
    assert_eq!(queue.generation, 0);
    assert!(!queue.requested);
}
