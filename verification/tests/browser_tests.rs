use lilypalooza::browser::transfer_selection_column;
use lilypalooza::browser::{
    BrowserClipboard, BrowserClipboardKind, BrowserHistory, BrowserHistoryDirection,
    BrowserHistoryEntry, BrowserHistoryPlan, BrowserHistoryStep, BrowserInlineEditKind,
    BrowserInlineEditState, BrowserPointerState, InlineRenamePlan, MoveCheck, PastePlan,
    already_exists_message, browser_create_move_paths, browser_delete_history_paths,
    browser_move_history_paths, check_browser_move, is_stale_browser_history_dir, copy_or_cut_selection, delete_prompt_title,
    normalize_editor_tab_file_name, plan_inline_rename, plan_paste,
};
use lilypalooza::browser::{
    BrowserMovePlan, InlineEditOutcome, file_browser_error_prompt, plan_browser_move, move_succeeded, paste_succeeded,
    remap_score_after_folder_move,
};
use lilypalooza::project::SelectedScore;
use lilypalooza::prompts::{ErrorFatality, PromptButtons};

fn s(text: &str) -> String {
    text.to_string()
}

#[test]
fn recording_clears_redo() {
    let mut history = BrowserHistory::new(Some(s("/stash")));
    history.redo_stack.push(BrowserHistoryEntry::Move {
        from: s("/a"),
        to: s("/b"),
    });
    history.record(BrowserHistoryEntry::Move {
        from: s("/c"),
        to: s("/d"),
    });
    assert_eq!(history.undo_stack.len(), 1);
    assert!(history.redo_stack.is_empty());
}

#[test]
fn undoing_a_move_moves_back_and_redo_moves_again() {
    let mut history = BrowserHistory::new(None);
    let entry = BrowserHistoryEntry::Move {
        from: s("/a/x.ly"),
        to: s("/b/x.ly"),
    };
    history.record(entry.clone());
    let popped = history.pop(BrowserHistoryDirection::Undo).expect("entry");
    let undo = history
        .plan(popped, BrowserHistoryDirection::Undo)
        .expect("plan");
    assert_eq!(
        undo.step,
        BrowserHistoryStep::MoveTracked {
            source: s("/b/x.ly"),
            destination: s("/a/x.ly")
        }
    );
    history.complete(BrowserHistoryDirection::Undo, undo);
    assert_eq!(history.redo_stack, vec![entry.clone()]);
    let popped = history.pop(BrowserHistoryDirection::Redo).expect("entry");
    let redo = history
        .plan(popped, BrowserHistoryDirection::Redo)
        .expect("plan");
    assert_eq!(
        redo.step,
        BrowserHistoryStep::MoveTracked {
            source: s("/a/x.ly"),
            destination: s("/b/x.ly")
        }
    );
    history.complete(BrowserHistoryDirection::Redo, redo);
    assert_eq!(history.undo_stack, vec![entry]);
}

#[test]
fn undoing_a_creation_stashes_it_under_a_numbered_name() {
    let mut history = BrowserHistory::new(Some(s("/stash")));
    let undo = history
        .plan(
            BrowserHistoryEntry::Create {
                path: s("/p/new.ly"),
                stash_path: None,
            },
            BrowserHistoryDirection::Undo,
        )
        .expect("plan");
    assert_eq!(
        undo,
        BrowserHistoryPlan {
            step: BrowserHistoryStep::MoveFile {
                source: s("/p/new.ly"),
                destination: s("/stash/0-new.ly")
            },
            entry: BrowserHistoryEntry::Create {
                path: s("/p/new.ly"),
                stash_path: Some(s("/stash/0-new.ly"))
            },
        }
    );
    assert_eq!(history.next_stash_id, 1);
    assert_eq!(history.next_stash_path("/q/other"), Ok(s("/stash/1-other")));
}

#[test]
fn redoing_a_never_stashed_creation_does_nothing() {
    let mut history = BrowserHistory::new(None);
    let redo = history
        .plan(
            BrowserHistoryEntry::Create {
                path: s("/p/new.ly"),
                stash_path: None,
            },
            BrowserHistoryDirection::Redo,
        )
        .expect("plan");
    assert_eq!(redo.step, BrowserHistoryStep::Nothing);
}

#[test]
fn history_without_a_stash_directory_cannot_stash() {
    let mut history = BrowserHistory::new(None);
    let error = history
        .plan(
            BrowserHistoryEntry::Create {
                path: s("/p/new.ly"),
                stash_path: None,
            },
            BrowserHistoryDirection::Undo,
        )
        .unwrap_err();
    assert_eq!(error, "Browser undo history is unavailable.");
    assert!(history.plan_delete("/p/a.ly").is_err());
}

#[test]
fn deleting_plans_a_move_into_the_stash() {
    let mut history = BrowserHistory::new(Some(s("/stash")));
    let plan = history.plan_delete("/p/a.ly").expect("plan");
    assert_eq!(
        plan.step,
        BrowserHistoryStep::MoveFile {
            source: s("/p/a.ly"),
            destination: s("/stash/0-a.ly")
        }
    );
    assert_eq!(
        plan.entry,
        BrowserHistoryEntry::Delete {
            path: s("/p/a.ly"),
            stash_path: s("/stash/0-a.ly")
        }
    );
    let undo = history
        .plan(plan.entry, BrowserHistoryDirection::Undo)
        .expect("plan");
    assert_eq!(
        undo.step,
        BrowserHistoryStep::MoveFile {
            source: s("/stash/0-a.ly"),
            destination: s("/p/a.ly")
        }
    );
}

#[test]
fn copy_and_cut_need_a_selection() {
    let mut clipboard = None;
    copy_or_cut_selection(&mut clipboard, None, BrowserClipboardKind::Copy);
    assert_eq!(clipboard, None);
    copy_or_cut_selection(&mut clipboard, Some(s("/a.ly")), BrowserClipboardKind::Cut);
    assert_eq!(
        clipboard,
        Some(BrowserClipboard {
            path: s("/a.ly"),
            kind: BrowserClipboardKind::Cut
        })
    );
}

#[test]
fn pasting_copies_or_moves_into_the_target_folder() {
    let copy = Some(BrowserClipboard {
        path: s("/a/x.ly"),
        kind: BrowserClipboardKind::Copy,
    });
    assert_eq!(
        plan_paste(&copy, Some("/b"), "/c", false),
        PastePlan::Copy {
            source: s("/a/x.ly"),
            destination: s("/b/x.ly")
        }
    );
    assert_eq!(
        plan_paste(&copy, None, "/c", false),
        PastePlan::Copy {
            source: s("/a/x.ly"),
            destination: s("/c/x.ly")
        }
    );
    let cut = Some(BrowserClipboard {
        path: s("/a/x.ly"),
        kind: BrowserClipboardKind::Cut,
    });
    assert_eq!(
        plan_paste(&cut, None, "/c", false),
        PastePlan::Move {
            source: s("/a/x.ly"),
            destination: s("/c/x.ly")
        }
    );
}

#[test]
fn pasting_onto_itself_or_into_itself_is_refused() {
    let copy = Some(BrowserClipboard {
        path: s("/a/dir"),
        kind: BrowserClipboardKind::Copy,
    });
    assert_eq!(plan_paste(&copy, None, "/a", true), PastePlan::Nothing);
    assert_eq!(
        plan_paste(&copy, Some("/a/dir"), "/a", true),
        PastePlan::FolderIntoItself
    );
    assert_eq!(plan_paste(&None, None, "/a", false), PastePlan::Nothing);
}

#[test]
fn moves_are_checked_in_order() {
    assert_eq!(check_browser_move("/a", "/b", true, false), MoveCheck::DestinationExists);
    assert_eq!(check_browser_move("/a", "/a", false, false), MoveCheck::Same);
    assert_eq!(check_browser_move("/a", "/a/b", false, true), MoveCheck::FolderIntoItself);
    assert_eq!(check_browser_move("/a", "/a/b", false, false), MoveCheck::Proceed);
    assert_eq!(check_browser_move("/a", "/ab", false, true), MoveCheck::Proceed);
}

#[test]
fn messages_and_titles() {
    assert_eq!(already_exists_message("/x"), "/x already exists");
    assert_eq!(delete_prompt_title("/p/song.ly"), "Delete song.ly?");
    assert_eq!(delete_prompt_title("/"), "Delete item?");
}

#[test]
fn typed_file_names_are_trimmed_to_their_last_component() {
    assert_eq!(normalize_editor_tab_file_name("  a.ly "), Some(s("a.ly")));
    assert_eq!(normalize_editor_tab_file_name("dir/b.ly"), Some(s("b.ly")));
    assert_eq!(normalize_editor_tab_file_name("   "), None);
    assert_eq!(normalize_editor_tab_file_name(".."), None);
}

#[test]
fn inline_creation_and_rename_fill_the_field() {
    let mut inline = BrowserInlineEditState::new();
    inline.start_create(None, s("/p"), false);
    assert!(inline.edit.is_none());
    inline.start_create(Some(1), s("/p"), true);
    assert_eq!(inline.value, "New Folder");
    assert_eq!(
        inline.edit.as_ref().map(|edit| edit.kind),
        Some(BrowserInlineEditKind::NewDirectory)
    );
    assert_eq!(inline.commit_destination(), Some(s("/p/New Folder")));
    inline.update_value(s("ignored"), true);
    assert_eq!(inline.value, "New Folder");
    inline.update_value(s(" x.ly "), false);
    assert_eq!(inline.commit_destination(), Some(s("/p/x.ly")));
    inline.cancel();
    assert!(inline.edit.is_none());
    assert!(inline.value.is_empty());

    assert!(inline.start_rename(Some(s("/p/old.ly")), Some(0)));
    assert_eq!(inline.value, "old.ly");
    let edit = inline.edit.clone().expect("edit");
    assert_eq!(edit.parent_dir, "/p");
    assert_eq!(edit.kind, BrowserInlineEditKind::Rename);
    assert!(!inline.start_rename(None, Some(0)));
}

#[test]
fn inline_renames_are_planned() {
    let mut inline = BrowserInlineEditState::new();
    inline.start_rename(Some(s("/p/old.ly")), Some(0));
    let edit = inline.edit.clone().expect("edit");
    assert_eq!(
        plan_inline_rename(&edit, s("/p/old.ly"), true, None),
        InlineRenamePlan::Unchanged
    );
    assert_eq!(
        plan_inline_rename(&edit, s("/p/new.ly"), true, None),
        InlineRenamePlan::DestinationExists
    );
    assert_eq!(
        plan_inline_rename(&edit, s("/p/new.ly"), false, Some(4)),
        InlineRenamePlan::RenameOpenTab {
            tab_id: 4,
            source: s("/p/old.ly"),
            destination: s("/p/new.ly")
        }
    );
    assert_eq!(
        plan_inline_rename(&edit, s("/p/new.ly"), false, None),
        InlineRenamePlan::RenamePath {
            source: s("/p/old.ly"),
            destination: s("/p/new.ly")
        }
    );
}

#[test]
fn pointer_drags_start_past_the_threshold_and_pick_folder_targets() {
    let mut pointer = BrowserPointerState::new();
    pointer.begin_press(s("/p/dir"), true);
    pointer.handle_move(false, false);
    assert!(pointer.drag.is_none());
    pointer.handle_move(true, true);
    assert!(pointer.drag.is_none());
    pointer.handle_move(false, true);
    assert!(pointer.drag.is_some());

    pointer.update_drop_target(Some((0, s("/p/dir/sub"), true)));
    assert!(pointer.drop_target.is_none());
    pointer.update_drop_target(Some((0, s("/p/file.ly"), false)));
    assert!(pointer.drop_target.is_none());
    pointer.update_drop_target(Some((2, s("/q"), true)));
    assert_eq!(pointer.drop_target_dir(), Some(s("/q")));
    assert_eq!(
        pointer.drop_destination("/q"),
        Some((s("/p/dir"), s("/q/dir")))
    );
    pointer.clear();
    assert!(pointer.pressed.is_none() && pointer.drag.is_none());
    assert_eq!(pointer.drop_destination("/q"), None);
}

#[test]
fn transferred_paths_are_selected_in_the_right_column() {
    assert_eq!(transfer_selection_column(1, Some("/p"), "/p/a.ly", true), Some(2));
    assert_eq!(transfer_selection_column(1, Some("/p"), "/p/a.ly", false), Some(1));
    assert_eq!(transfer_selection_column(1, Some("/q"), "/p/a.ly", true), Some(1));
    assert_eq!(transfer_selection_column(1, None, "/p/a.ly", true), None);
}

#[test]
fn renaming_to_an_equal_path_changes_nothing() {
    let mut inline = BrowserInlineEditState::new();
    inline.start_rename(Some(s("/p/old.ly")), Some(0));
    let edit = inline.edit.clone().expect("edit");
    assert_eq!(
        plan_inline_rename(&edit, s("/p//old.ly"), false, None),
        InlineRenamePlan::Unchanged
    );
}

#[test]
fn history_paths_swap_with_the_direction() {
    assert_eq!(
        browser_create_move_paths("/p/new.ly", "/stash/1", BrowserHistoryDirection::Redo),
        ("/stash/1", "/p/new.ly")
    );
    assert_eq!(
        browser_create_move_paths("/p/new.ly", "/stash/1", BrowserHistoryDirection::Undo),
        ("/p/new.ly", "/stash/1")
    );
    assert_eq!(browser_move_history_paths("/a", "/b", true), ("/a", "/b"));
    assert_eq!(browser_move_history_paths("/a", "/b", false), ("/b", "/a"));
    assert_eq!(
        browser_delete_history_paths("/p/x.ly", "/stash/2", true),
        ("/p/x.ly", "/stash/2")
    );
    assert_eq!(
        browser_delete_history_paths("/p/x.ly", "/stash/2", false),
        ("/stash/2", "/p/x.ly")
    );
}

#[test]
fn leftover_history_stashes_are_removed_except_the_current_one() {
    let stash = "/tmp/lilypalooza-browser-history-42";
    assert!(is_stale_browser_history_dir(
        Some("lilypalooza-browser-history-42"),
        true,
        stash,
        None
    ));
    assert!(is_stale_browser_history_dir(
        Some("lilypalooza-browser-history-42"),
        true,
        stash,
        Some("/tmp/lilypalooza-browser-history-7")
    ));
    assert!(!is_stale_browser_history_dir(
        Some("lilypalooza-browser-history-42"),
        true,
        stash,
        Some(stash)
    ));
    assert!(!is_stale_browser_history_dir(
        Some("lilypalooza-browser-history-42"),
        false,
        stash,
        None
    ));
    assert!(!is_stale_browser_history_dir(Some("other"), true, "/tmp/other", None));
    assert!(!is_stale_browser_history_dir(None, true, "/tmp/x", None));
}

#[test]
fn file_browser_errors_are_recoverable_ok_prompts() {
    let prompt = file_browser_error_prompt(s("disk full"));
    assert_eq!(prompt.title, "File Browser Error");
    assert_eq!(prompt.message, "disk full");
    assert_eq!(prompt.fatality, ErrorFatality::Recoverable);
    assert_eq!(prompt.buttons, PromptButtons::OkOnly);
}

#[test]
fn pasting_a_folder_into_itself_shows_an_error() {
    let prompt = PastePlan::FolderIntoItself.error_prompt().expect("prompt");
    assert_eq!(prompt.title, "File Browser Error");
    assert_eq!(prompt.message, "Cannot paste a folder into itself.");
    assert!(PastePlan::Nothing.error_prompt().is_none());
    let copy = PastePlan::Copy { source: s("/a/x"), destination: s("/b/x") };
    assert!(copy.error_prompt().is_none());
}

#[test]
fn refused_moves_report_their_reason() {
    assert_eq!(
        MoveCheck::FolderIntoItself.error_message("/a/b"),
        Some(s("Cannot move a folder into itself."))
    );
    assert_eq!(
        MoveCheck::DestinationExists.error_message("/a/b"),
        Some(s("/a/b already exists"))
    );
    assert_eq!(MoveCheck::Same.error_message("/a/b"), None);
    assert_eq!(MoveCheck::Proceed.error_message("/a/b"), None);
}

#[test]
fn a_score_inside_a_moved_folder_follows_it() {
    let mut score = SelectedScore { path: s("/work/songs/tune.ly"), file_name: s("tune.ly") };
    assert!(remap_score_after_folder_move(&mut score, "/work/songs", "/archive/old"));
    assert_eq!(score.path, "/archive/old/tune.ly");
    assert_eq!(score.file_name, "tune.ly");

    let mut outside = SelectedScore { path: s("/work/other/tune.ly"), file_name: s("tune.ly") };
    assert!(!remap_score_after_folder_move(&mut outside, "/work/songs", "/archive"));
    assert_eq!(outside.path, "/work/other/tune.ly");
}

#[test]
fn a_recorded_move_clears_redo_and_moves_the_score() {
    let mut history = BrowserHistory::new(Some(s("/stash")));
    history.redo_stack.push(BrowserHistoryEntry::Move { from: s("/p"), to: s("/q") });
    let mut score = Some(SelectedScore { path: s("/a/dir/main.ly"), file_name: s("main.ly") });
    let moved = move_succeeded(&mut history, &mut score, s("/a/dir"), s("/b/dir"), true, true);
    assert!(moved);
    assert_eq!(score.unwrap().path, "/b/dir/main.ly");
    assert_eq!(
        history.undo_stack,
        vec![BrowserHistoryEntry::Move { from: s("/a/dir"), to: s("/b/dir") }]
    );
    assert!(history.redo_stack.is_empty());

    let mut quiet = BrowserHistory::new(None);
    let mut no_score: Option<SelectedScore> = None;
    assert!(!move_succeeded(&mut quiet, &mut no_score, s("/a"), s("/b"), false, false));
    assert!(quiet.undo_stack.is_empty());
}

#[test]
fn a_pasted_copy_records_a_creation_and_keeps_the_clipboard() {
    let mut history = BrowserHistory::new(Some(s("/stash")));
    history.redo_stack.push(BrowserHistoryEntry::Move { from: s("/p"), to: s("/q") });
    let mut clipboard = Some(BrowserClipboard { path: s("/a/x.ly"), kind: BrowserClipboardKind::Copy });
    let mut score = None;
    let plan = PastePlan::Copy { source: s("/a/x.ly"), destination: s("/b/x.ly") };
    assert!(!paste_succeeded(&plan, false, &mut clipboard, &mut history, &mut score));
    assert_eq!(
        history.undo_stack,
        vec![BrowserHistoryEntry::Create { path: s("/b/x.ly"), stash_path: None }]
    );
    assert!(history.redo_stack.is_empty());
    assert!(clipboard.is_some());
}

#[test]
fn a_pasted_cut_records_a_move_and_empties_the_clipboard() {
    let mut history = BrowserHistory::new(Some(s("/stash")));
    let mut clipboard = Some(BrowserClipboard { path: s("/a/x.ly"), kind: BrowserClipboardKind::Cut });
    let mut score = None;
    let plan = PastePlan::Move { source: s("/a/x.ly"), destination: s("/b/x.ly") };
    assert!(!paste_succeeded(&plan, false, &mut clipboard, &mut history, &mut score));
    assert_eq!(
        history.undo_stack,
        vec![BrowserHistoryEntry::Move { from: s("/a/x.ly"), to: s("/b/x.ly") }]
    );
    assert!(clipboard.is_none());
}

#[test]
fn a_failed_inline_edit_stays_open_and_shows_the_error() {
    let mut state = BrowserInlineEditState::new();
    state.start_create(Some(0), s("/dir"), false);
    let mut history = BrowserHistory::new(None);
    let prompt = state
        .finish_commit(&mut history, InlineEditOutcome::Failed(s("/dir/untitled already exists")))
        .expect("prompt");
    assert_eq!(prompt.title, "File Browser Error");
    assert_eq!(prompt.message, "/dir/untitled already exists");
    assert!(state.edit.is_some());
    assert_eq!(state.value, "untitled");
    assert!(history.undo_stack.is_empty());

    let entry = BrowserHistoryEntry::Create { path: s("/dir/untitled"), stash_path: None };
    assert!(state.finish_commit(&mut history, InlineEditOutcome::Applied(entry.clone())).is_none());
    assert!(state.edit.is_none());
    assert_eq!(history.undo_stack, vec![entry]);
}

#[test]
fn a_move_goes_through_an_open_tab_or_on_disk() {
    assert_eq!(
        plan_browser_move("/a/x.ly", "/b/x.ly", true, false, None),
        BrowserMovePlan::Refused(s("/b/x.ly already exists"))
    );
    assert_eq!(plan_browser_move("/a/x.ly", "/a/x.ly", false, false, None), BrowserMovePlan::Nothing);
    assert_eq!(
        plan_browser_move("/a", "/a/b", false, true, None),
        BrowserMovePlan::Refused(s("Cannot move a folder into itself."))
    );
    assert_eq!(plan_browser_move("/a/x.ly", "/b/x.ly", false, false, Some(7)), BrowserMovePlan::RenameOpenTab(7));
    assert_eq!(plan_browser_move("/a/x.ly", "/b/x.ly", false, false, None), BrowserMovePlan::MovePath);
}
