//! Open editor tabs whose files change on disk: how a tab's file compares with what the tab
//! last saved, and what is done about it (reload, mark, prompt or log).

use vstd::prelude::*;

use crate::prompts::{
    ErrorFatality, ErrorPrompt, PromptButtons, PromptOkAction, PromptSelectedButton, PromptState,
};
use crate::text::{concat_strs, owned};

verus! {

/// How a tab's file stands on disk, as last seen.
#[derive(Debug, Clone, Copy, PartialEq, Eq, Structural)]
pub enum EditorTabFileState {
    /// The file is as the tab last saw it.
    Fine,
    MissingOnDisk,
    ChangedOnDisk,
}

/// How a tab's file compares with what the tab last saved.
#[derive(Debug, Clone, PartialEq, Eq)]
pub enum EditorTabDiskState {
    /// The file is gone.
    Missing,
    /// The file could not be read.
    ReadError(String),
    /// The file holds what the tab last saved.
    Unchanged,
    /// The file holds something else; `modified` when the tab has unsaved changes.
    Changed { modified: bool },
}

/// How a tab's file compares with what the tab last saved, given whether the file exists,
/// what reading it gave, and what the tab last saved, if anything.
pub fn classify_tab_disk_state(
    exists: bool,
    read: Result<String, String>,
    saved_content: Option<&str>,
    modified: bool,
) -> (r: EditorTabDiskState)
    ensures
        !exists ==> r == EditorTabDiskState::Missing,
        exists ==> match read {
            Err(e) => r == EditorTabDiskState::ReadError(e),
            Ok(content) => if (saved_content matches Some(saved) && saved@ == content@) {
                r == EditorTabDiskState::Unchanged
            } else {
                r == (EditorTabDiskState::Changed { modified })
            },
        },
{
    if !exists {
        return EditorTabDiskState::Missing;
    }
    match read {
        Err(error) => EditorTabDiskState::ReadError(error),
        Ok(content) => {
            let same = match saved_content {
                Some(saved) => crate::text::str_equal(saved, content.as_str()),
                None => false,
            };
            if same {
                EditorTabDiskState::Unchanged
            } else {
                EditorTabDiskState::Changed { modified }
            }
        },
    }
}

/// What is done about a tab's file.
#[derive(Debug, Clone, PartialEq, Eq)]
pub enum TabReconcile {
    /// Set the tab's file state to this one; when it was another, log `log_line`, ask
    /// (`prompt`, unless a prompt is open) and save the settings.
    Mark { state: EditorTabFileState, changed: bool },
    /// Log the read error.
    LogReadError(String),
    /// Reload the tab, which has no unsaved changes, from disk.
    Reload,
}

/// What is done about a tab's file, given how it stands now and the state the tab had: a
/// missing file marks the tab missing, an unreadable one is logged, an unchanged one marks
/// the tab fine, a changed one is reloaded when the tab has no unsaved changes and else
/// marks the tab changed. A mark that changes the tab's state is reported as a change.
pub fn reconcile_tab(disk: EditorTabDiskState, current: EditorTabFileState) -> (r: TabReconcile)
    ensures
        r == match disk {
            EditorTabDiskState::Missing => TabReconcile::Mark {
                state: EditorTabFileState::MissingOnDisk,
                changed: current != EditorTabFileState::MissingOnDisk,
            },
            EditorTabDiskState::ReadError(e) => TabReconcile::LogReadError(e),
            EditorTabDiskState::Unchanged => TabReconcile::Mark {
                state: EditorTabFileState::Fine,
                changed: current != EditorTabFileState::Fine,
            },
            EditorTabDiskState::Changed { modified } => if modified {
                TabReconcile::Mark {
                    state: EditorTabFileState::ChangedOnDisk,
                    changed: current != EditorTabFileState::ChangedOnDisk,
                }
            } else {
                TabReconcile::Reload
            },
        },
{
    match disk {
        EditorTabDiskState::Missing => TabReconcile::Mark {
            state: EditorTabFileState::MissingOnDisk,
            changed: current != EditorTabFileState::MissingOnDisk,
        },
        EditorTabDiskState::ReadError(error) => TabReconcile::LogReadError(error),
        EditorTabDiskState::Unchanged => TabReconcile::Mark {
            state: EditorTabFileState::Fine,
            changed: current != EditorTabFileState::Fine,
        },
        EditorTabDiskState::Changed { modified } => {
            if modified {
                TabReconcile::Mark {
                    state: EditorTabFileState::ChangedOnDisk,
                    changed: current != EditorTabFileState::ChangedOnDisk,
                }
            } else {
                TabReconcile::Reload
            }
        },
    }
}

/// The log line for a tab whose file went missing or changed under unsaved edits.
pub fn disk_problem_log_line(state: EditorTabFileState, path: &str) -> (r: String)
    ensures
        state == EditorTabFileState::MissingOnDisk ==> r@ == "Editor file missing on disk: "@
            + path@,
        state != EditorTabFileState::MissingOnDisk ==> r@
            == "Editor file changed on disk while modified: "@ + path@,
{
    proof {
        reveal_strlit("Editor file missing on disk: ");
        reveal_strlit("Editor file changed on disk while modified: ");
    }
    if state == EditorTabFileState::MissingOnDisk {
        concat_strs("Editor file missing on disk: ", path)
    } else {
        concat_strs("Editor file changed on disk while modified: ", path)
    }
}

/// The log line for a tab's file that could not be read.
pub fn tab_read_error_log_line(path: &str, error: &str) -> (r: String)
    ensures
        r@ == "[editor-watcher:error] Failed to read "@ + path@ + ": "@ + error@,
{
    proof {
        reveal_strlit("[editor-watcher:error] Failed to read ");
        reveal_strlit(": ");
    }
    let head = concat_strs("[editor-watcher:error] Failed to read ", path);
    let middle = concat_strs(head.as_str(), ": ");
    concat_strs(middle.as_str(), error)
}

/// The prompt for a tab whose file went missing: the tab stays open.
pub open spec fn spec_missing_prompt(p: ErrorPrompt, path: Seq<char>) -> bool {
    &&& p.title@ == "File Missing on Disk"@
    &&& p.message@ == path
        + " was removed or moved outside Lilypalooza. The tab stays open and you can save to recreate it."@
    &&& p.fatality == ErrorFatality::Recoverable
    &&& p.buttons == PromptButtons::OkOnly
    &&& p.ok_label matches Some(l) && l@ == "Keep Editing"@
    &&& p.discard_label is None
    &&& p.cancel_label is None
}

/// The prompt for a tab whose file changed under unsaved edits: reload, or keep the edits.
pub open spec fn spec_changed_prompt(p: ErrorPrompt, path: Seq<char>) -> bool {
    &&& p.title@ == "File Changed on Disk"@
    &&& p.message@ == path + " changed on disk while this tab has unsaved changes."@
    &&& p.fatality == ErrorFatality::Recoverable
    &&& p.buttons == PromptButtons::OkCancel
    &&& p.ok_label matches Some(l) && l@ == "Reload"@
    &&& p.cancel_label matches Some(l) && l@ == "Keep Editor Version"@
    &&& p.discard_label is None
}

impl PromptState {
    /// Asks about a tab whose file went missing (`missing`) or changed under unsaved edits,
    /// unless a prompt is already open. Answering OK to a changed file reloads the tab.
    pub fn show_disk_problem_prompt(&mut self, missing: bool, tab_id: u64, path: &str)
        ensures
            old(self).error_prompt is Some ==> *final(self) == *old(self),
            old(self).error_prompt is None ==> {
                &&& final(self).error_prompt matches Some(p) && if missing {
                    spec_missing_prompt(p, path@)
                } else {
                    spec_changed_prompt(p, path@)
                }
                &&& final(self).prompt_ok_action == if missing {
                    None
                } else {
                    Some(PromptOkAction::ReloadEditorTab(tab_id))
                }
                &&& final(self).prompt_selected_button == PromptSelectedButton::Okay
                &&& final(self).pending_editor_action == old(self).pending_editor_action
                &&& final(self).pending_editor_save_as_tab == old(self).pending_editor_save_as_tab
            },
    {
        if self.error_prompt.is_some() {
            return ;
        }
        proof {
            reveal_strlit("File Missing on Disk");
            reveal_strlit(
                " was removed or moved outside Lilypalooza. The tab stays open and you can save to recreate it.",
            );
            reveal_strlit("Keep Editing");
            reveal_strlit("File Changed on Disk");
            reveal_strlit(" changed on disk while this tab has unsaved changes.");
            reveal_strlit("Reload");
            reveal_strlit("Keep Editor Version");
        }
        if missing {
            let message = concat_strs(
                path,
                " was removed or moved outside Lilypalooza. The tab stays open and you can save to recreate it.",
            );
            let prompt = ErrorPrompt::new(
                owned("File Missing on Disk"),
                message,
                ErrorFatality::Recoverable,
                PromptButtons::OkOnly,
            ).with_ok_label(owned("Keep Editing"));
            self.show_prompt(prompt, None);
        } else {
            let message = concat_strs(path, " changed on disk while this tab has unsaved changes.");
            let prompt = ErrorPrompt::new(
                owned("File Changed on Disk"),
                message,
                ErrorFatality::Recoverable,
                PromptButtons::OkCancel,
            ).with_ok_label(owned("Reload")).with_cancel_label(owned("Keep Editor Version"));
            self.show_prompt(prompt, Some(PromptOkAction::ReloadEditorTab(tab_id)));
        }
    }
}

} // verus!
