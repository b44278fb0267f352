//! Projects: the lists of recent projects and files, a project's name and title, and the
//! decisions taken when a project is loaded or an opened score belongs to another project.

use vstd::prelude::*;

use crate::paths::{path_eq, path_file_name, path_join, spec_path_eq, spec_path_file_name, spec_path_join};
use crate::prompts::{EditorContinuation, ErrorFatality, ErrorPrompt, PromptButtons};
use crate::text::{concat_strs, owned};

verus! {

/// How many recent projects are kept.
pub const RECENT_PROJECTS_LIMIT: usize = 7;

/// The characters of each path of a list.
pub open spec fn path_views(list: Seq<String>) -> Seq<Seq<char>> {
    list.map_values(|s: String| s@)
}

/// Whether a path is another path than `path`.
pub open spec fn other_path(path: Seq<char>) -> spec_fn(Seq<char>) -> bool {
    |p: Seq<char>| !spec_path_eq(p, path)
}

/// The list after `path` was used: `path` first, then the earlier entries that are other
/// paths, in their order, cut to `keep` entries.
pub open spec fn spec_register_recent(list: Seq<Seq<char>>, path: Seq<char>, keep: int) -> Seq<
    Seq<char>,
> {
    let full = seq![path] + list.filter(other_path(path));
    if keep < full.len() {
        full.take(keep)
    } else {
        full
    }
}

/// Moves `path` to the front of a list of recently used paths, drops the entries that are
/// the same path, and keeps at most `keep` entries.
pub fn register_recent_entry(list: &mut Vec<String>, path: String, keep: usize)
    ensures
        path_views(final(list)@) == spec_register_recent(path_views(old(list)@), path@, keep as int),
{
    let ghost views = path_views(list@);
    let mut kept: Vec<String> = Vec::new();
    let mut k: usize = 0;
    while k < list.len()
        invariant
            k <= list@.len(),
            views == path_views(list@),
            path_views(kept@) == views.subrange(0, k as int).filter(other_path(path@)),
        decreases list.len() - k,
    {
        let entry = list[k].clone();
        proof {
            assert(views.subrange(0, k + 1) =~= views.subrange(0, k as int).push(entry@));
            views.subrange(0, k as int).lemma_filter_push(entry@, other_path(path@));
        }
        if !path_eq(&entry, &path) {
            let ghost before = kept@;
            kept.push(entry);
            proof {
                assert(path_views(kept@) =~= path_views(before).push(entry@));
            }
        }
        k += 1;
    }
    proof {
        assert(views.subrange(0, k as int) =~= views);
    }
    let ghost filtered = kept@;
    kept.insert(0, path);
    proof {
        assert(path_views(kept@) =~= seq![path@] + path_views(filtered));
    }
    let ghost full = kept@;
    kept.truncate(keep);
    proof {
        if keep < full.len() {
            assert(path_views(kept@) =~= path_views(full).take(keep as int));
        }
    }
    *list = kept;
}

/// After a path is used, it comes first, no later entry is the same path, and at most
/// `keep` entries are kept.
pub proof fn law_registered_path_comes_first_once(list: Seq<Seq<char>>, path: Seq<char>, keep: int)
    requires
        keep >= 1,
    ensures
        spec_register_recent(list, path, keep).len() >= 1,
        spec_register_recent(list, path, keep)[0] == path,
        spec_register_recent(list, path, keep).len() <= keep,
        forall|k: int|
            1 <= k < spec_register_recent(list, path, keep).len() ==> !spec_path_eq(
                #[trigger] spec_register_recent(list, path, keep)[k],
                path,
            ),
{
    let f = other_path(path);
    let filtered = list.filter(f);
    #[allow(deprecated)]
    list.filter_lemma(f);
    let full = seq![path] + filtered;
    let r = spec_register_recent(list, path, keep);
    assert forall|k: int| 1 <= k < r.len() implies !spec_path_eq(#[trigger] r[k], path) by {
        assert(r[k] == full[k]);
        assert(full[k] == filtered[k - 1]);
        assert(f(filtered[k - 1]));
    }
}

/// Puts a project at the front of the recent projects, which keep seven entries.
pub fn register_recent_project(recent_projects: &mut Vec<String>, project_root: String)
    ensures
        path_views(final(recent_projects)@) == spec_register_recent(
            path_views(old(recent_projects)@),
            project_root@,
            RECENT_PROJECTS_LIMIT as int,
        ),
{
    register_recent_entry(recent_projects, project_root, RECENT_PROJECTS_LIMIT);
}

/// Puts a file at the front of the recent editor files, which keep `limit` entries and at
/// least one.
pub fn register_editor_recent_file(recent_files: &mut Vec<String>, path: String, limit: usize)
    ensures
        path_views(final(recent_files)@) == spec_register_recent(
            path_views(old(recent_files)@),
            path@,
            if limit < 1 { 1 } else { limit as int },
        ),
{
    let keep = if limit < 1 {
        1
    } else {
        limit
    };
    register_recent_entry(recent_files, path, keep);
}

/// The name a project gets when it has none: the name of its folder, or "Untitled Project"
/// when that is missing or empty.
pub open spec fn spec_default_project_name(project_root: Seq<char>) -> Seq<char> {
    match spec_path_file_name(project_root) {
        Some(name) if name.len() > 0 => name,
        _ => "Untitled Project"@,
    }
}

/// The name a project gets when it has none: the name of its folder, or "Untitled Project"
/// when that is missing or empty.
pub fn default_project_name(project_root: &str) -> (r: String)
    ensures
        r@ == spec_default_project_name(project_root@),
{
    match path_file_name(project_root) {
        Some(name) => {
            if !name.as_str().is_empty() {
                return name;
            }
        },
        None => {},
    }
    let r = owned("Untitled Project");
    proof {
        reveal_strlit("Untitled Project");
    }
    r
}

/// The name of a loaded project: the saved one, or its folder's name.
pub fn loaded_project_name(saved_name: &Option<String>, project_root: &str) -> (r: String)
    ensures
        r@ == match saved_name {
            Some(name) => name@,
            None => spec_default_project_name(project_root@),
        },
{
    match saved_name {
        Some(name) => name.clone(),
        None => default_project_name(project_root),
    }
}

/// The title shown for the project: its name, or "Unsaved Project" when it has no name or an
/// empty one.
pub fn project_title(project_name: &Option<String>) -> (r: String)
    ensures
        r@ == match project_name {
            Some(name) if name@.len() > 0 => name@,
            _ => "Unsaved Project"@,
        },
{
    match project_name {
        Some(name) => {
            if !name.as_str().is_empty() {
                return name.clone();
            }
        },
        None => {},
    }
    let r = owned("Unsaved Project");
    proof {
        reveal_strlit("Unsaved Project");
    }
    r
}

/// What loading a project does first.
#[derive(Debug, Clone, Copy, PartialEq, Eq, Structural)]
pub enum ProjectLoadStep {
    /// Ask about the editor tabs with unsaved changes, then load.
    ResolveDirtyTabs,
    /// Ask whether to drop the unsaved changes of the current project, then load.
    ConfirmDirtyProject,
    /// Read the project.
    Read,
}

/// Whether two optional paths are the same: both missing, or equal paths.
pub open spec fn spec_same_root(a: Option<Seq<char>>, b: Option<Seq<char>>) -> bool {
    match (a, b) {
        (None, None) => true,
        (Some(x), Some(y)) => spec_path_eq(x, y),
        _ => false,
    }
}

/// Whether two optional paths are the same: both missing, or equal paths.
pub fn same_root(a: &Option<String>, b: &Option<String>) -> (r: bool)
    ensures
        r == spec_same_root(crate::paths::opt_view(*a), crate::paths::opt_view(*b)),
{
    match (a, b) {
        (None, None) => true,
        (Some(x), Some(y)) => path_eq(x, y),
        _ => false,
    }
}

/// The first step of loading the project at `requested_root`. Unless an editor action is
/// already waiting, editor tabs with unsaved changes are settled first; then, when another
/// project than the current one is asked for and the current one has unsaved changes, that
/// is confirmed first. Otherwise the project is read.
pub fn plan_project_load(
    pending_action: bool,
    has_dirty_tabs: bool,
    current_root: &Option<String>,
    requested_root: &str,
    project_dirty: bool,
) -> (r: ProjectLoadStep)
    ensures
        r == if !pending_action && has_dirty_tabs {
            ProjectLoadStep::ResolveDirtyTabs
        } else if !pending_action && !(current_root matches Some(c) && spec_path_eq(
            c@,
            requested_root@,
        )) && project_dirty {
            ProjectLoadStep::ConfirmDirtyProject
        } else {
            ProjectLoadStep::Read
        },
{
    if !pending_action && has_dirty_tabs {
        return ProjectLoadStep::ResolveDirtyTabs;
    }
    let same = match current_root {
        Some(current) => path_eq(current, requested_root),
        None => false,
    };
    if !pending_action && !same && project_dirty {
        ProjectLoadStep::ConfirmDirtyProject
    } else {
        ProjectLoadStep::Read
    }
}

/// What reading a project led to.
#[derive(Debug, Clone)]
pub enum ProjectLoadOutcome {
    /// It could not be read: the prompt to show.
    Failed(ErrorPrompt),
    /// Its state is applied, and its main score, when it names one, is opened from this path.
    Apply { main_score: Option<String> },
}

/// The prompt for a project that could not be loaded.
pub open spec fn spec_project_load_error(p: ErrorPrompt, message: Seq<char>) -> bool {
    &&& p.title@ == "Project Load Error"@
    &&& p.message@ == message
    &&& p.fatality == ErrorFatality::Recoverable
    &&& p.buttons == PromptButtons::OkOnly
    &&& p.ok_label is None
    &&& p.discard_label is None
    &&& p.cancel_label is None
}

/// The prompt for a project that could not be loaded.
pub fn project_load_error_prompt(message: String) -> (p: ErrorPrompt)
    ensures
        spec_project_load_error(p, message@),
{
    let title = owned("Project Load Error");
    ErrorPrompt::new(title, message, ErrorFatality::Recoverable, PromptButtons::OkOnly)
}

/// The prompt for global state that could not be loaded.
pub fn state_load_error_prompt(message: String) -> (p: ErrorPrompt)
    ensures
        p.title@ == "State Load Error"@,
        p.message@ == message@,
        p.fatality == ErrorFatality::Recoverable,
        p.buttons == PromptButtons::OkOnly,
{
    let title = owned("State Load Error");
    ErrorPrompt::new(title, message, ErrorFatality::Recoverable, PromptButtons::OkOnly)
}

/// The prompt for settings or state that could not be saved.
pub fn persistence_error_prompt(message: String) -> (p: ErrorPrompt)
    ensures
        p.title@ == "Persistence Error"@,
        p.message@ == message@,
        p.fatality == ErrorFatality::Recoverable,
        p.buttons == PromptButtons::OkOnly,
{
    let title = owned("Persistence Error");
    ErrorPrompt::new(title, message, ErrorFatality::Recoverable, PromptButtons::OkOnly)
}

/// What reading the project at `project_root` led to, given whether its project file
/// `project_file` exists and, when it does, what reading it gave: the saved main score,
/// relative to the project, or an error. A missing file or a read error is reported in a
/// prompt; a main score is opened from its path joined to the project's.
pub fn project_load_outcome(
    project_root: &str,
    project_file: &str,
    file_exists: bool,
    loaded: Result<Option<String>, String>,
) -> (r: ProjectLoadOutcome)
    ensures
        !file_exists ==> (r matches ProjectLoadOutcome::Failed(p) && spec_project_load_error(
            p,
            "No project file found at "@ + project_file@,
        )),
        file_exists ==> match loaded {
            Err(e) => r matches ProjectLoadOutcome::Failed(p) && spec_project_load_error(p, e@),
            Ok(None) => r matches ProjectLoadOutcome::Apply { main_score: None },
            Ok(Some(rel)) => r matches ProjectLoadOutcome::Apply { main_score: Some(path) }
                && path@ == spec_path_join(project_root@, rel@),
        },
{
    if !file_exists {
        let message = concat_strs("No project file found at ", project_file);
        proof {
            reveal_strlit("No project file found at ");
        }
        return ProjectLoadOutcome::Failed(project_load_error_prompt(message));
    }
    match loaded {
        Err(error) => ProjectLoadOutcome::Failed(project_load_error_prompt(error)),
        Ok(None) => ProjectLoadOutcome::Apply { main_score: None },
        Ok(Some(relative)) => ProjectLoadOutcome::Apply {
            main_score: Some(path_join(project_root, &relative)),
        },
    }
}

/// Which saved state goes with an opened score.
#[derive(Debug, Clone, PartialEq, Eq)]
pub enum PersistenceContext {
    /// The score belongs to the project already loaded: nothing changes.
    Unchanged,
    /// The score belongs to the project at this path, which is loaded.
    Project(String),
    /// The score belongs to no project: the global state is loaded.
    Global,
}

/// Which saved state goes with a score, given the project it belongs to, if any, and the
/// project loaded now: nothing changes when they are the same, else that project's state or
/// the global state is loaded.
pub fn persistence_context_for_score(current_root: &Option<String>, score_root: Option<String>) -> (r:
    PersistenceContext)
    ensures
        spec_same_root(crate::paths::opt_view(*current_root), crate::paths::opt_view(score_root))
            ==> r == PersistenceContext::Unchanged,
        !spec_same_root(crate::paths::opt_view(*current_root), crate::paths::opt_view(score_root))
            ==> match score_root {
            Some(root) => r matches PersistenceContext::Project(p) && p@ == root@,
            None => r == PersistenceContext::Global,
        },
{
    if same_root(current_root, &score_root) {
        return PersistenceContext::Unchanged;
    }
    match score_root {
        Some(root) => PersistenceContext::Project(root),
        None => PersistenceContext::Global,
    }
}

/// Whether going on with `continuation` first asks to save the current project's changes:
/// never for closing a tab; for loading a project or opening a score, when the current
/// project has unsaved changes and the project asked for (for a score, the project it
/// belongs to, `score_root`) is another one; for quitting, whenever the project has unsaved
/// changes.
pub fn continuation_needs_project_prompt(
    continuation: &EditorContinuation,
    project_dirty: bool,
    current_root: &Option<String>,
    score_root: &Option<String>,
) -> (r: bool)
    ensures
        r == match *continuation {
            EditorContinuation::CloseTab(_) => false,
            EditorContinuation::LoadProject(root) => project_dirty && !(current_root matches Some(
                c,
            ) && spec_path_eq(c@, root@)),
            EditorContinuation::OpenScore(_) => project_dirty && !spec_same_root(
                crate::paths::opt_view(*score_root),
                crate::paths::opt_view(*current_root),
            ),
            EditorContinuation::ExitApp => project_dirty,
        },
{
    match continuation {
        EditorContinuation::CloseTab(_) => false,
        EditorContinuation::LoadProject(root) => {
            let same = match current_root {
                Some(current) => path_eq(current, root),
                None => false,
            };
            project_dirty && !same
        },
        EditorContinuation::OpenScore(_) => project_dirty && !same_root(score_root, current_root),
        EditorContinuation::ExitApp => project_dirty,
    }
}

/// Settings reloaded from disk set how many recent files are kept, at least one; the list
/// is cut to that many. Returns the limit in force.
pub fn apply_recent_files_limit(recent_files: &mut Vec<String>, limit: usize) -> (r: usize)
    ensures
        r == if limit < 1 { 1 } else { limit },
        final(recent_files)@ == if old(recent_files)@.len() > r {
            old(recent_files)@.take(r as int)
        } else {
            old(recent_files)@
        },
{
    let kept = if limit < 1 {
        1
    } else {
        limit
    };
    recent_files.truncate(kept);
    kept
}

/// An opened score: its path and its file name.
#[derive(Debug, Clone, PartialEq, Eq)]
pub struct SelectedScore {
    pub path: String,
    pub file_name: String,
}

/// The score at `path` (already made absolute where possible); a path without a file
/// name is refused.
pub fn selected_score_from_path(path: String) -> (r: Result<SelectedScore, String>)
    ensures
        match crate::paths::spec_path_file_name(path@) {
            Some(name) => r matches Ok(score) && score.path@ == path@ && score.file_name@ == name,
            None => r matches Err(e) && e@ == "Selected path has no file name"@,
        },
{
    match crate::paths::path_file_name(path.as_str()) {
        Some(file_name) => Ok(SelectedScore { path, file_name }),
        None => Err(crate::text::owned("Selected path has no file name")),
    }
}

/// Where a project folder is suggested: the open project's root, else the folder of the
/// open score, else the working folder.
pub fn suggested_project_directory(project_root: Option<&str>, score_path: Option<&str>) -> (r: String)
    ensures
        r@ == match project_root {
            Some(root) => root@,
            None => match score_path {
                Some(p) => match crate::paths::spec_path_parent(p@) {
                    Some(parent) => parent,
                    None => "."@,
                },
                None => "."@,
            },
        },
{
    match project_root {
        Some(root) => crate::text::owned(root),
        None => match score_path {
            Some(p) => match crate::paths::path_parent(p) {
                Some(parent) => parent,
                None => crate::text::owned("."),
            },
            None => crate::text::owned("."),
        },
    }
}

} // verus!
