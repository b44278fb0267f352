use lilypalooza::project::{apply_recent_files_limit, continuation_needs_project_prompt};
use lilypalooza::prompts::EditorContinuation;
use lilypalooza::project::{
    PersistenceContext, ProjectLoadOutcome, ProjectLoadStep, default_project_name,
    loaded_project_name, persistence_context_for_score, persistence_error_prompt,
    plan_project_load, project_load_outcome, project_title, register_editor_recent_file,
    register_recent_entry, register_recent_project, same_root, selected_score_from_path,
    state_load_error_prompt, suggested_project_directory, SelectedScore,
};
use lilypalooza::prompts::{ErrorFatality, PromptButtons};

fn strings(items: &[&str]) -> Vec<String> {
    items.iter().map(|item| item.to_string()).collect()
}

#[test]
fn registering_moves_a_path_to_the_front_without_duplicates() {
    let mut recent = strings(&["/a", "/b", "/c"]);
    register_recent_entry(&mut recent, "/b".to_string(), 10);
    assert_eq!(recent, strings(&["/b", "/a", "/c"]));
}

#[test]
fn registering_treats_equal_paths_as_the_same_entry() {
    let mut recent = strings(&["/a/", "/b"]);
    register_recent_entry(&mut recent, "/a".to_string(), 10);
    assert_eq!(recent, strings(&["/a", "/b"]));
}

#[test]
fn recent_projects_keep_seven_entries() {
    let mut recent = strings(&["/1", "/2", "/3", "/4", "/5", "/6", "/7"]);
    register_recent_project(&mut recent, "/8".to_string());
    assert_eq!(recent, strings(&["/8", "/1", "/2", "/3", "/4", "/5", "/6"]));
}

#[test]
fn recent_files_keep_at_least_one_entry() {
    let mut recent = strings(&["/a", "/b"]);
    register_editor_recent_file(&mut recent, "/c".to_string(), 0);
    assert_eq!(recent, strings(&["/c"]));
    let mut recent = strings(&["/a", "/b"]);
    register_editor_recent_file(&mut recent, "/c".to_string(), 2);
    assert_eq!(recent, strings(&["/c", "/a"]));
}

#[test]
fn default_project_name_is_the_folder_name() {
    assert_eq!(default_project_name("/home/me/My Song"), "My Song");
    assert_eq!(default_project_name("/"), "Untitled Project");
    assert_eq!(default_project_name(""), "Untitled Project");
}

#[test]
fn loaded_project_name_prefers_the_saved_one() {
    assert_eq!(
        loaded_project_name(&Some("Saved".to_string()), "/x/Folder"),
        "Saved"
    );
    assert_eq!(loaded_project_name(&None, "/x/Folder"), "Folder");
}

#[test]
fn project_title_falls_back_for_missing_or_empty_names() {
    assert_eq!(project_title(&Some("Opus".to_string())), "Opus");
    assert_eq!(project_title(&Some(String::new())), "Unsaved Project");
    assert_eq!(project_title(&None), "Unsaved Project");
}

#[test]
fn loading_a_project_settles_dirty_tabs_then_a_dirty_project() {
    let current = Some("/old".to_string());
    assert_eq!(
        plan_project_load(false, true, &current, "/new", true),
        ProjectLoadStep::ResolveDirtyTabs
    );
    assert_eq!(
        plan_project_load(false, false, &current, "/new", true),
        ProjectLoadStep::ConfirmDirtyProject
    );
    assert_eq!(
        plan_project_load(false, false, &current, "/old", true),
        ProjectLoadStep::Read
    );
    assert_eq!(
        plan_project_load(true, true, &current, "/new", true),
        ProjectLoadStep::Read
    );
    assert_eq!(
        plan_project_load(false, false, &None, "/new", false),
        ProjectLoadStep::Read
    );
}

#[test]
fn a_missing_project_file_is_reported() {
    let outcome = project_load_outcome("/p", "/p/project.toml", false, Ok(None));
    let ProjectLoadOutcome::Failed(prompt) = outcome else {
        panic!("missing file should fail");
    };
    assert_eq!(prompt.title, "Project Load Error");
    assert_eq!(prompt.message, "No project file found at /p/project.toml");
    assert_eq!(prompt.fatality, ErrorFatality::Recoverable);
    assert_eq!(prompt.buttons, PromptButtons::OkOnly);
}

#[test]
fn a_read_error_is_reported() {
    let outcome = project_load_outcome("/p", "/p/project.toml", true, Err("bad".to_string()));
    let ProjectLoadOutcome::Failed(prompt) = outcome else {
        panic!("read error should fail");
    };
    assert_eq!(prompt.title, "Project Load Error");
    assert_eq!(prompt.message, "bad");
}

#[test]
fn the_main_score_is_opened_from_the_project_folder() {
    let outcome = project_load_outcome("/p", "/p/project.toml", true, Ok(Some("main.ly".to_string())));
    let ProjectLoadOutcome::Apply { main_score } = outcome else {
        panic!("project should load");
    };
    assert_eq!(main_score, Some("/p/main.ly".to_string()));
    let outcome = project_load_outcome("/p", "/p/project.toml", true, Ok(None));
    assert!(matches!(outcome, ProjectLoadOutcome::Apply { main_score: None }));
}

#[test]
fn opened_scores_switch_the_saved_state_only_when_their_project_differs() {
    let current = Some("/p".to_string());
    assert_eq!(
        persistence_context_for_score(&current, Some("/p/".to_string())),
        PersistenceContext::Unchanged
    );
    assert_eq!(
        persistence_context_for_score(&current, Some("/q".to_string())),
        PersistenceContext::Project("/q".to_string())
    );
    assert_eq!(
        persistence_context_for_score(&current, None),
        PersistenceContext::Global
    );
    assert_eq!(
        persistence_context_for_score(&None, None),
        PersistenceContext::Unchanged
    );
    assert!(same_root(&None, &None));
    assert!(!same_root(&None, &current));
}

#[test]
fn state_and_persistence_prompts_have_their_titles() {
    let prompt = state_load_error_prompt("x".to_string());
    assert_eq!(prompt.title, "State Load Error");
    assert_eq!(prompt.message, "x");
    let prompt = persistence_error_prompt("y".to_string());
    assert_eq!(prompt.title, "Persistence Error");
    assert_eq!(prompt.buttons, PromptButtons::OkOnly);
}

#[test]
fn continuations_ask_about_a_dirty_project_when_it_would_be_left() {
    let current = Some("/p".to_string());
    assert!(!continuation_needs_project_prompt(
        &EditorContinuation::CloseTab(1),
        true,
        &current,
        &None
    ));
    assert!(continuation_needs_project_prompt(
        &EditorContinuation::LoadProject("/q".to_string()),
        true,
        &current,
        &None
    ));
    assert!(!continuation_needs_project_prompt(
        &EditorContinuation::LoadProject("/p".to_string()),
        true,
        &current,
        &None
    ));
    assert!(!continuation_needs_project_prompt(
        &EditorContinuation::OpenScore("/p/a.ly".to_string()),
        true,
        &current,
        &Some("/p".to_string())
    ));
    assert!(continuation_needs_project_prompt(
        &EditorContinuation::OpenScore("/x.ly".to_string()),
        true,
        &current,
        &None
    ));
    assert!(continuation_needs_project_prompt(
        &EditorContinuation::ExitApp,
        true,
        &current,
        &None
    ));
    assert!(!continuation_needs_project_prompt(
        &EditorContinuation::ExitApp,
        false,
        &current,
        &None
    ));

    let mut recent = strings(&["/a", "/b", "/c"]);
    assert_eq!(apply_recent_files_limit(&mut recent, 0), 1);
    assert_eq!(recent, strings(&["/a"]));
}

#[test]
fn selected_scores_need_a_file_name() {
    assert_eq!(
        selected_score_from_path("/music/song.ly".to_string()),
        Ok(SelectedScore {
            path: "/music/song.ly".to_string(),
            file_name: "song.ly".to_string()
        })
    );
    assert_eq!(
        selected_score_from_path("/".to_string()),
        Err("Selected path has no file name".to_string())
    );
}

#[test]
fn project_folder_is_suggested_from_root_then_score() {
    assert_eq!(suggested_project_directory(Some("/p"), Some("/s/a.ly")), "/p");
    assert_eq!(suggested_project_directory(None, Some("/s/a.ly")), "/s");
    assert_eq!(suggested_project_directory(None, None), ".");
}
