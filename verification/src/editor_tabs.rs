//! Renaming editor tabs: the rename field on a tab, what committing it does, and the check
//! made before a tab takes over the path of another open tab.

use vstd::prelude::*;

use crate::browser::{normalize_editor_tab_file_name, spec_normalize_file_name};
use crate::paths::{path_eq, path_join, path_parent, spec_path_eq, spec_path_join, spec_path_parent};
use crate::prompts::{ErrorFatality, ErrorPrompt, PromptButtons};
use crate::text::{concat_strs, owned, str_equal};

verus! {

/// The rename field of the editor's tab bar.
#[derive(Debug, Clone)]
pub struct EditorTabRenameState {
    /// The tab whose name is being edited.
    pub renaming_tab: Option<u64>,
    /// The typed name.
    pub value: String,
    /// The tab waiting for a save location to be picked, for a tab without a file.
    pub pending_picked_tab: Option<u64>,
}

/// What committing the rename field does.
#[derive(Debug, Clone, PartialEq, Eq)]
pub enum EditorTabRenameAction {
    /// Nothing: no rename, or no usable name typed; the field stays as it was.
    Nothing,
    /// The field closes and nothing else happens.
    Closed,
    /// The field closes and the tab's file is renamed to `path`.
    RenameTo { tab_id: u64, path: String },
    /// The field closes and a save location is asked for, suggesting `file_name`.
    PickSaveLocation { tab_id: u64, file_name: String },
}

/// The name offered when a rename starts: a tab without a file still called "Untitled" is
/// offered `untitled.ly`, any other tab its suggested name.
pub open spec fn spec_rename_start_value(has_path: bool, title: Seq<char>, suggested: Seq<char>) -> Seq<char> {
    if !has_path && title == "Untitled"@ {
        "untitled.ly"@
    } else {
        suggested
    }
}

impl EditorTabRenameState {
    /// No rename.
    pub fn new() -> (s: Self)
        ensures
            s.renaming_tab is None,
            s.value@.len() == 0,
            s.pending_picked_tab is None,
    {
        EditorTabRenameState { renaming_tab: None, value: String::new(), pending_picked_tab: None }
    }

    /// Starts renaming tab `tab_id`, whose title is `title` and whose suggested file name is
    /// `suggested`.
    pub fn start(&mut self, tab_id: u64, has_path: bool, title: &str, suggested: String)
        ensures
            final(self).renaming_tab == Some(tab_id),
            final(self).value@ == spec_rename_start_value(has_path, title@, suggested@),
            final(self).pending_picked_tab == old(self).pending_picked_tab,
    {
        proof {
            reveal_strlit("Untitled");
            reveal_strlit("untitled.ly");
        }
        self.value = if !has_path && str_equal(title, "Untitled") {
            owned("untitled.ly")
        } else {
            suggested
        };
        self.renaming_tab = Some(tab_id);
    }

    /// Takes a typed value, unless a shortcut modifier is held.
    pub fn update_value(&mut self, value: String, shortcut_modifier_active: bool)
        ensures
            final(self).renaming_tab == old(self).renaming_tab,
            final(self).pending_picked_tab == old(self).pending_picked_tab,
            final(self).value == if shortcut_modifier_active {
                old(self).value
            } else {
                value
            },
    {
        if !shortcut_modifier_active {
            self.value = value;
        }
    }

    /// Closes the field.
    pub fn cancel(&mut self)
        ensures
            final(self).renaming_tab is None,
            final(self).value@.len() == 0,
            final(self).pending_picked_tab == old(self).pending_picked_tab,
    {
        self.renaming_tab = None;
        self.value = String::new();
    }

    /// Commits the field, given the current path of the renamed tab's file, if it has one.
    /// The typed name is tidied (trimmed, last path component); with no usable name nothing
    /// happens. A tab with a file is renamed within its folder unless the name is unchanged;
    /// a tab without one asks where to save, and waits for the pick.
    pub fn commit(&mut self, current_path: Option<String>) -> (r: EditorTabRenameAction)
        ensures
            match (old(self).renaming_tab, spec_normalize_file_name(old(self).value@)) {
                (Some(tab), Some(name)) => {
                    &&& final(self).renaming_tab is None
                    &&& final(self).value@.len() == 0
                    &&& match current_path {
                        Some(p) => {
                            &&& final(self).pending_picked_tab == old(self).pending_picked_tab
                            &&& match spec_path_parent(p@) {
                                None => r == EditorTabRenameAction::Closed,
                                Some(parent) => if spec_path_eq(spec_path_join(parent, name), p@) {
                                    r == EditorTabRenameAction::Closed
                                } else {
                                    r matches EditorTabRenameAction::RenameTo { tab_id, path }
                                        && tab_id == tab && path@ == spec_path_join(parent, name)
                                },
                            }
                        },
                        None => {
                            &&& final(self).pending_picked_tab == Some(tab)
                            &&& r matches EditorTabRenameAction::PickSaveLocation { tab_id, file_name }
                                && tab_id == tab && file_name@ == name
                        },
                    }
                },
                _ => r == EditorTabRenameAction::Nothing && *final(self) == *old(self),
            },
    {
        let tab_id = match self.renaming_tab {
            Some(tab_id) => tab_id,
            None => return EditorTabRenameAction::Nothing,
        };
        let file_name = match normalize_editor_tab_file_name(self.value.as_str()) {
            Some(name) => name,
            None => return EditorTabRenameAction::Nothing,
        };
        self.cancel();
        match current_path {
            Some(current) => {
                let parent = match path_parent(current.as_str()) {
                    Some(parent) => parent,
                    None => return EditorTabRenameAction::Closed,
                };
                let target = path_join(parent.as_str(), file_name.as_str());
                if path_eq(target.as_str(), current.as_str()) {
                    return EditorTabRenameAction::Closed;
                }
                EditorTabRenameAction::RenameTo { tab_id, path: target }
            },
            None => {
                self.pending_picked_tab = Some(tab_id);
                EditorTabRenameAction::PickSaveLocation { tab_id, file_name }
            },
        }
    }

    /// A save location was picked, or the pick was cancelled (`None`): the tab that waited
    /// for it, if any, is renamed to the picked path.
    pub fn finish_pick(&mut self, picked: Option<String>) -> (r: Option<(u64, String)>)
        ensures
            final(self).pending_picked_tab is None,
            final(self).renaming_tab == old(self).renaming_tab,
            final(self).value == old(self).value,
            r == match (old(self).pending_picked_tab, picked) {
                (Some(tab), Some(path)) => Some((tab, path)),
                _ => None,
            },
    {
        let tab = self.pending_picked_tab;
        self.pending_picked_tab = None;
        match (tab, picked) {
            (Some(tab), Some(path)) => Some((tab, path)),
            _ => None,
        }
    }
}

/// What to do with another open tab that already shows the target path of a rename.
#[derive(Debug, Clone, PartialEq, Eq)]
pub enum ConflictingTab {
    /// No other tab shows it.
    NoConflict,
    /// The other tab has no unsaved changes: it is closed first.
    Close(u64),
    /// The other tab has unsaved changes: the rename is refused with this message.
    Refuse(String),
}

/// Checks the tab that already shows `target_path`, if any, before tab `tab_id` is renamed
/// to it.
pub fn conflicting_editor_tab(
    tab_id: u64,
    target_path: &str,
    existing_tab: Option<u64>,
    existing_modified: bool,
) -> (r: ConflictingTab)
    ensures
        match existing_tab {
            Some(other) => if other == tab_id {
                r == ConflictingTab::NoConflict
            } else if existing_modified {
                r matches ConflictingTab::Refuse(message) && message@ == "The target file "@
                    + target_path@ + " is already open and modified in another tab."@
            } else {
                r == ConflictingTab::Close(other)
            },
            None => r == ConflictingTab::NoConflict,
        },
{
    match existing_tab {
        Some(other) => {
            if other == tab_id {
                return ConflictingTab::NoConflict;
            }
            if existing_modified {
                let head = concat_strs("The target file ", target_path);
                let message = concat_strs(
                    head.as_str(),
                    " is already open and modified in another tab.",
                );
                proof {
                    reveal_strlit("The target file ");
                    reveal_strlit(" is already open and modified in another tab.");
                }
                return ConflictingTab::Refuse(message);
            }
            ConflictingTab::Close(other)
        },
        None => ConflictingTab::NoConflict,
    }
}

/// The prompt for a tab that could not be renamed.
pub fn editor_rename_error_prompt(message: String) -> (p: ErrorPrompt)
    ensures
        p.title@ == "Editor Rename Error"@,
        p.message@ == message@,
        p.fatality == ErrorFatality::Recoverable,
        p.buttons == PromptButtons::OkOnly,
{
    let title = owned("Editor Rename Error");
    ErrorPrompt::new(title, message, ErrorFatality::Recoverable, PromptButtons::OkOnly)
}

/// Opening a file in the editor, once loading it ended (`Ok(reused)`, whether an open tab
/// already showed it, or the error): a loaded file is logged as `Activated editor file <path>`
/// when its tab was reused and as `Opened editor file <path>` otherwise, and the editor pane
/// is then shown and focused; a failure shows an `Editor Open Error` prompt instead.
pub fn editor_open_outcome(path: &str, loaded: Result<bool, String>) -> (r: (Option<String>, Option<ErrorPrompt>))
    ensures
        match loaded {
            Ok(reused) => r.1 is None && (r.0 matches Some(line) && line@ == (if reused {
                "Activated editor file "@
            } else {
                "Opened editor file "@
            }) + path@),
            Err(e) => r.0 is None && (r.1 matches Some(p) && p.title@ == "Editor Open Error"@ && p.message
                == e && p.fatality == ErrorFatality::Recoverable && p.buttons == PromptButtons::OkOnly
                && p.ok_label is None && p.discard_label is None && p.cancel_label is None),
        },
{
    match loaded {
        Ok(reused) => {
            let line = if reused {
                concat_strs("Activated editor file ", path)
            } else {
                concat_strs("Opened editor file ", path)
            };
            (Some(line), None)
        },
        Err(e) => (
            None,
            Some(ErrorPrompt::new(owned("Editor Open Error"), e, ErrorFatality::Recoverable, PromptButtons::OkOnly)),
        ),
    }
}

} // verus!
