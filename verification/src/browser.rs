//! The file browser: undo/redo history of file operations, clipboard, drag and drop,
//! and inline creation and renaming of entries.

use vstd::prelude::*;

use crate::paths::{
    opt_view, path_eq, path_file_name, path_join, path_parent, path_starts_with, path_strip_prefix,
    spec_path_eq, spec_path_file_name, spec_path_join, spec_path_parent, spec_path_starts_with,
    spec_path_strip_prefix,
};
use crate::project::SelectedScore;
use crate::prompts::{tone_for, ErrorFatality, ErrorPrompt, PromptButtons};
use crate::text::{chars_of, decimal_chars, owned, spec_trim, string_from_chars, trim_str};

verus! {

/// A file operation that can be undone and redone.
#[derive(Debug, Clone, PartialEq, Eq)]
pub enum BrowserHistoryEntry {
    /// `path` was created; once undone it is kept at `stash_path`.
    Create { path: String, stash_path: Option<String> },
    /// `from` was moved to `to`.
    Move { from: String, to: String },
    /// `path` was deleted by moving it to `stash_path`.
    Delete { path: String, stash_path: String },
}

/// Which way a history step goes.
#[derive(Debug, Clone, Copy, PartialEq, Eq, Structural)]
pub enum BrowserHistoryDirection {
    Undo,
    Redo,
}

impl BrowserHistoryDirection {
    /// Whether this is a redo.
    pub fn is_redo(self) -> (r: bool)
        ensures
            r == (self == BrowserHistoryDirection::Redo),
    {
        match self {
            BrowserHistoryDirection::Redo => true,
            BrowserHistoryDirection::Undo => false,
        }
    }

    /// The other direction: the stack a step's result goes onto.
    pub fn inverse(self) -> (r: Self)
        ensures
            r == spec_inverse(self),
    {
        match self {
            BrowserHistoryDirection::Undo => BrowserHistoryDirection::Redo,
            BrowserHistoryDirection::Redo => BrowserHistoryDirection::Undo,
        }
    }
}

pub open spec fn spec_inverse(d: BrowserHistoryDirection) -> BrowserHistoryDirection {
    match d {
        BrowserHistoryDirection::Undo => BrowserHistoryDirection::Redo,
        BrowserHistoryDirection::Redo => BrowserHistoryDirection::Undo,
    }
}

/// The history entry for a created path.
pub fn browser_create_entry(path: String, stash_path: Option<String>) -> (e: BrowserHistoryEntry)
    ensures
        e == (BrowserHistoryEntry::Create { path, stash_path }),
{
    BrowserHistoryEntry::Create { path, stash_path }
}

/// Source and destination when a creation is undone (the path goes to the stash) or
/// redone (it comes back).
pub fn browser_create_move_paths<'a>(
    path: &'a str,
    stash_path: &'a str,
    direction: BrowserHistoryDirection,
) -> (r: (&'a str, &'a str))
    ensures
        direction == BrowserHistoryDirection::Redo ==> r == (stash_path, path),
        direction == BrowserHistoryDirection::Undo ==> r == (path, stash_path),
{
    match direction {
        BrowserHistoryDirection::Redo => (stash_path, path),
        BrowserHistoryDirection::Undo => (path, stash_path),
    }
}

/// Source and destination when a move is redone (forward) or undone (back).
pub fn browser_move_history_paths<'a>(from: &'a str, to: &'a str, redo: bool) -> (r: (
    &'a str,
    &'a str,
))
    ensures
        r == (if redo {
            (from, to)
        } else {
            (to, from)
        }),
{
    if redo {
        (from, to)
    } else {
        (to, from)
    }
}

/// Source and destination when a deletion is redone (into the stash) or undone (back).
pub fn browser_delete_history_paths<'a>(path: &'a str, stash_path: &'a str, redo: bool) -> (r: (
    &'a str,
    &'a str,
))
    ensures
        r == (if redo {
            (path, stash_path)
        } else {
            (stash_path, path)
        }),
{
    if redo {
        (path, stash_path)
    } else {
        (stash_path, path)
    }
}

/// What carrying out one history entry does to the file system.
#[derive(Debug, Clone, PartialEq, Eq)]
pub enum BrowserHistoryStep {
    /// Nothing to move.
    Nothing,
    /// Move a file or folder directly.
    MoveFile { source: String, destination: String },
    /// Move a file or folder the way the browser moves it (open editor tabs follow).
    MoveTracked { source: String, destination: String },
}

/// A history entry planned for one direction: what to move, and the entry that goes onto
/// the other stack once the move succeeded.
#[derive(Debug, Clone, PartialEq, Eq)]
pub struct BrowserHistoryPlan {
    pub step: BrowserHistoryStep,
    pub entry: BrowserHistoryEntry,
}

/// The undo and redo stacks of file-browser operations.
#[derive(Debug, Clone)]
pub struct BrowserHistory {
    pub undo_stack: Vec<BrowserHistoryEntry>,
    pub redo_stack: Vec<BrowserHistoryEntry>,
    /// Directory where undone creations and deletions are kept, when there is one.
    pub stash_dir: Option<String>,
    pub next_stash_id: u64,
}

/// Text of the error when no stash directory exists.
pub open spec fn history_unavailable_text() -> Seq<char> {
    "Browser undo history is unavailable."@
}

/// The name a stashed item gets: its sequence number, a dash, and its file name (`item`
/// when it has none).
pub open spec fn stash_file_name(id: u64, path: Seq<char>) -> Seq<char> {
    crate::text::decimal_digits(id as nat) + seq!['-'] + match spec_path_file_name(path) {
        Some(name) => name,
        None => "item"@,
    }
}

pub open spec fn saturating_inc(n: u64) -> u64 {
    if n == u64::MAX {
        n
    } else {
        (n + 1) as u64
    }
}

impl BrowserHistory {
    /// Empty stacks; undone items are kept in `stash_dir`.
    pub fn new(stash_dir: Option<String>) -> (h: Self)
        ensures
            h.undo_stack@.len() == 0,
            h.redo_stack@.len() == 0,
            h.stash_dir == stash_dir,
            h.next_stash_id == 0,
    {
        BrowserHistory { undo_stack: Vec::new(), redo_stack: Vec::new(), stash_dir, next_stash_id: 0 }
    }

    /// Records a new operation: it can be undone, and nothing can be redone any more.
    pub fn record(&mut self, entry: BrowserHistoryEntry)
        ensures
            final(self).undo_stack@ == old(self).undo_stack@.push(entry),
            final(self).redo_stack@.len() == 0,
            final(self).stash_dir == old(self).stash_dir,
            final(self).next_stash_id == old(self).next_stash_id,
    {
        self.undo_stack.push(entry);
        self.redo_stack.clear();
    }

    /// Ends a copy or move on disk: its history entry, when there is one, is recorded.
    pub fn finish_transfer(&mut self, entry: Option<BrowserHistoryEntry>)
        ensures
            match entry {
                Some(e) => final(self).undo_stack@ == old(self).undo_stack@.push(e)
                    && final(self).redo_stack@.len() == 0,
                None => final(self).undo_stack@ == old(self).undo_stack@ && final(self).redo_stack@
                    == old(self).redo_stack@,
            },
            final(self).stash_dir == old(self).stash_dir,
            final(self).next_stash_id == old(self).next_stash_id,
    {
        if let Some(e) = entry {
            self.record(e);
        }
    }

    /// Takes the entry a step in `direction` applies: the latest undoable or redoable one.
    pub fn pop(&mut self, direction: BrowserHistoryDirection) -> (r: Option<BrowserHistoryEntry>)
        ensures
            final(self).stash_dir == old(self).stash_dir,
            final(self).next_stash_id == old(self).next_stash_id,
            direction == BrowserHistoryDirection::Undo ==> {
                &&& final(self).redo_stack@ == old(self).redo_stack@
                &&& if old(self).undo_stack@.len() == 0 {
                    r is None && final(self).undo_stack@ == old(self).undo_stack@
                } else {
                    r == Some(old(self).undo_stack@.last()) && final(self).undo_stack@ == old(
                        self,
                    ).undo_stack@.drop_last()
                }
            },
            direction == BrowserHistoryDirection::Redo ==> {
                &&& final(self).undo_stack@ == old(self).undo_stack@
                &&& if old(self).redo_stack@.len() == 0 {
                    r is None && final(self).redo_stack@ == old(self).redo_stack@
                } else {
                    r == Some(old(self).redo_stack@.last()) && final(self).redo_stack@ == old(
                        self,
                    ).redo_stack@.drop_last()
                }
            },
    {
        match direction {
            BrowserHistoryDirection::Undo => self.undo_stack.pop(),
            BrowserHistoryDirection::Redo => self.redo_stack.pop(),
        }
    }

    /// Puts an entry onto the stack of `direction`.
    pub fn push(&mut self, direction: BrowserHistoryDirection, entry: BrowserHistoryEntry)
        ensures
            final(self).stash_dir == old(self).stash_dir,
            final(self).next_stash_id == old(self).next_stash_id,
            direction == BrowserHistoryDirection::Undo ==> final(self).undo_stack@ == old(
                self,
            ).undo_stack@.push(entry) && final(self).redo_stack@ == old(self).redo_stack@,
            direction == BrowserHistoryDirection::Redo ==> final(self).redo_stack@ == old(
                self,
            ).redo_stack@.push(entry) && final(self).undo_stack@ == old(self).undo_stack@,
    {
        match direction {
            BrowserHistoryDirection::Undo => self.undo_stack.push(entry),
            BrowserHistoryDirection::Redo => self.redo_stack.push(entry),
        }
    }

    /// A fresh place in the stash directory for `path`.
    pub fn next_stash_path(&mut self, path: &str) -> (r: Result<String, String>)
        ensures
            final(self).undo_stack@ == old(self).undo_stack@,
            final(self).redo_stack@ == old(self).redo_stack@,
            final(self).stash_dir == old(self).stash_dir,
            match old(self).stash_dir {
                None => r matches Err(e) && e@ == history_unavailable_text()
                    && final(self).next_stash_id == old(self).next_stash_id,
                Some(dir) => r matches Ok(p) && p@ == spec_path_join(
                    dir@,
                    stash_file_name(old(self).next_stash_id, path@),
                ) && final(self).next_stash_id == saturating_inc(old(self).next_stash_id),
            },
    {
        let dir = match &self.stash_dir {
            Some(dir) => dir.clone(),
            None => return Err(owned("Browser undo history is unavailable.")),
        };
        let id = self.next_stash_id;
        self.next_stash_id = self.next_stash_id.saturating_add(1);
        let mut name = decimal_chars(id);
        name.push('-');
        let file_name = match path_file_name(path) {
            Some(file_name) => file_name,
            None => owned("item"),
        };
        proof {
            reveal_strlit("item");
        }
        let mut rest = chars_of(file_name.as_str());
        name.append(&mut rest);
        proof {
            assert(name@ =~= stash_file_name(id, path@));
        }
        let name = string_from_chars(&name);
        Ok(path_join(dir.as_str(), name.as_str()))
    }

    /// Plans carrying out `entry` in `direction`. A creation is undone by stashing the
    /// created path (in a fresh stash place unless it already has one) and redone by
    /// bringing it back (nothing to do when it was never stashed); a move is replayed the
    /// way the browser moves paths; a deletion moves between the path and its stash.
    pub fn plan(&mut self, entry: BrowserHistoryEntry, direction: BrowserHistoryDirection) -> (r:
        Result<BrowserHistoryPlan, String>)
        ensures
            final(self).undo_stack@ == old(self).undo_stack@,
            final(self).redo_stack@ == old(self).redo_stack@,
            final(self).stash_dir == old(self).stash_dir,
            match entry {
                BrowserHistoryEntry::Create { path, stash_path } => match (direction, stash_path) {
                    (BrowserHistoryDirection::Redo, None) => r == Ok::<
                        BrowserHistoryPlan,
                        String,
                    >(
                        BrowserHistoryPlan {
                            step: BrowserHistoryStep::Nothing,
                            entry: BrowserHistoryEntry::Create { path, stash_path: None },
                        },
                    ) && final(self).next_stash_id == old(self).next_stash_id,
                    (BrowserHistoryDirection::Redo, Some(s)) => r == Ok::<
                        BrowserHistoryPlan,
                        String,
                    >(
                        BrowserHistoryPlan {
                            step: BrowserHistoryStep::MoveFile { source: s, destination: path },
                            entry: BrowserHistoryEntry::Create { path, stash_path: Some(s) },
                        },
                    ) && final(self).next_stash_id == old(self).next_stash_id,
                    (BrowserHistoryDirection::Undo, Some(s)) => r == Ok::<
                        BrowserHistoryPlan,
                        String,
                    >(
                        BrowserHistoryPlan {
                            step: BrowserHistoryStep::MoveFile { source: path, destination: s },
                            entry: BrowserHistoryEntry::Create { path, stash_path: Some(s) },
                        },
                    ) && final(self).next_stash_id == old(self).next_stash_id,
                    (BrowserHistoryDirection::Undo, None) => match old(self).stash_dir {
                        None => r matches Err(e) && e@ == history_unavailable_text(),
                        Some(dir) => r matches Ok(plan) && plan.step matches BrowserHistoryStep::MoveFile {
                            source,
                            destination,
                        } && source == path && destination@ == spec_path_join(
                            dir@,
                            stash_file_name(old(self).next_stash_id, path@),
                        ) && plan.entry == (BrowserHistoryEntry::Create {
                            path,
                            stash_path: Some(destination),
                        }) && final(self).next_stash_id == saturating_inc(
                            old(self).next_stash_id,
                        ),
                    },
                },
                BrowserHistoryEntry::Move { from, to } => final(self).next_stash_id == old(
                    self,
                ).next_stash_id && r == Ok::<BrowserHistoryPlan, String>(
                    BrowserHistoryPlan {
                        step: if direction == BrowserHistoryDirection::Redo {
                            BrowserHistoryStep::MoveTracked { source: from, destination: to }
                        } else {
                            BrowserHistoryStep::MoveTracked { source: to, destination: from }
                        },
                        entry: BrowserHistoryEntry::Move { from, to },
                    },
                ),
                BrowserHistoryEntry::Delete { path, stash_path } => final(self).next_stash_id
                    == old(self).next_stash_id && r == Ok::<BrowserHistoryPlan, String>(
                    BrowserHistoryPlan {
                        step: if direction == BrowserHistoryDirection::Redo {
                            BrowserHistoryStep::MoveFile { source: path, destination: stash_path }
                        } else {
                            BrowserHistoryStep::MoveFile { source: stash_path, destination: path }
                        },
                        entry: BrowserHistoryEntry::Delete { path, stash_path },
                    },
                ),
            },
    {
        match entry {
            BrowserHistoryEntry::Create { path, stash_path } => {
                match (direction, stash_path) {
                    (BrowserHistoryDirection::Redo, None) => Ok(
                        BrowserHistoryPlan {
                            step: BrowserHistoryStep::Nothing,
                            entry: browser_create_entry(path, None),
                        },
                    ),
                    (BrowserHistoryDirection::Redo, Some(stash)) => Ok(
                        BrowserHistoryPlan {
                            step: BrowserHistoryStep::MoveFile {
                                source: stash.clone(),
                                destination: path.clone(),
                            },
                            entry: browser_create_entry(path, Some(stash)),
                        },
                    ),
                    (BrowserHistoryDirection::Undo, Some(stash)) => Ok(
                        BrowserHistoryPlan {
                            step: BrowserHistoryStep::MoveFile {
                                source: path.clone(),
                                destination: stash.clone(),
                            },
                            entry: browser_create_entry(path, Some(stash)),
                        },
                    ),
                    (BrowserHistoryDirection::Undo, None) => {
                        let stash = match self.next_stash_path(path.as_str()) {
                            Ok(stash) => stash,
                            Err(e) => return Err(e),
                        };
                        Ok(
                            BrowserHistoryPlan {
                                step: BrowserHistoryStep::MoveFile {
                                    source: path.clone(),
                                    destination: stash.clone(),
                                },
                                entry: browser_create_entry(path, Some(stash)),
                            },
                        )
                    },
                }
            },
            BrowserHistoryEntry::Move { from, to } => {
                let step = if direction.is_redo() {
                    BrowserHistoryStep::MoveTracked { source: from.clone(), destination: to.clone() }
                } else {
                    BrowserHistoryStep::MoveTracked { source: to.clone(), destination: from.clone() }
                };
                Ok(BrowserHistoryPlan { step, entry: BrowserHistoryEntry::Move { from, to } })
            },
            BrowserHistoryEntry::Delete { path, stash_path } => {
                let step = if direction.is_redo() {
                    BrowserHistoryStep::MoveFile {
                        source: path.clone(),
                        destination: stash_path.clone(),
                    }
                } else {
                    BrowserHistoryStep::MoveFile {
                        source: stash_path.clone(),
                        destination: path.clone(),
                    }
                };
                Ok(BrowserHistoryPlan { step, entry: BrowserHistoryEntry::Delete { path, stash_path } })
            },
        }
    }

    /// After the step planned for `direction` succeeded, its entry becomes available in the
    /// other direction.
    pub fn complete(&mut self, direction: BrowserHistoryDirection, plan: BrowserHistoryPlan)
        ensures
            final(self).stash_dir == old(self).stash_dir,
            final(self).next_stash_id == old(self).next_stash_id,
            direction == BrowserHistoryDirection::Undo ==> final(self).redo_stack@ == old(
                self,
            ).redo_stack@.push(plan.entry) && final(self).undo_stack@ == old(self).undo_stack@,
            direction == BrowserHistoryDirection::Redo ==> final(self).undo_stack@ == old(
                self,
            ).undo_stack@.push(plan.entry) && final(self).redo_stack@ == old(self).redo_stack@,
    {
        self.push(direction.inverse(), plan.entry);
    }

    /// Deleting `path` with history: plans its move into a fresh stash place; the
    /// deletion is recorded once the move succeeded (see `record`).
    pub fn plan_delete(&mut self, path: &str) -> (r: Result<BrowserHistoryPlan, String>)
        ensures
            final(self).undo_stack@ == old(self).undo_stack@,
            final(self).redo_stack@ == old(self).redo_stack@,
            final(self).stash_dir == old(self).stash_dir,
            match old(self).stash_dir {
                None => r matches Err(e) && e@ == history_unavailable_text(),
                Some(dir) => r matches Ok(plan) && plan.step matches BrowserHistoryStep::MoveFile {
                    source,
                    destination,
                } && source@ == path@ && destination@ == spec_path_join(
                    dir@,
                    stash_file_name(old(self).next_stash_id, path@),
                ) && plan.entry == (BrowserHistoryEntry::Delete {
                    path: source,
                    stash_path: destination,
                }),
            },
    {
        let stash = match self.next_stash_path(path) {
            Ok(stash) => stash,
            Err(e) => return Err(e),
        };
        let source = owned(path);
        Ok(
            BrowserHistoryPlan {
                step: BrowserHistoryStep::MoveFile {
                    source: source.clone(),
                    destination: stash.clone(),
                },
                entry: BrowserHistoryEntry::Delete { path: source, stash_path: stash },
            },
        )
    }
}

/// The file-system move a plan makes, when it makes one.
pub open spec fn plan_move(step: BrowserHistoryStep) -> Option<(String, String)> {
    match step {
        BrowserHistoryStep::Nothing => None,
        BrowserHistoryStep::MoveFile { source, destination } => Some((source, destination)),
        BrowserHistoryStep::MoveTracked { source, destination } => Some((source, destination)),
    }
}

/// Turning a direction around twice gives it back, and exactly one of a direction and its
/// inverse is a redo.
pub proof fn law_direction_inverse_involution(d: BrowserHistoryDirection)
    ensures
        spec_inverse(spec_inverse(d)) == d,
        (spec_inverse(d) == BrowserHistoryDirection::Redo) != (d == BrowserHistoryDirection::Redo),
{
}

/// Redo reverses undo: an entry that undo moved from `a` to `b` is moved by the redo
/// of the entry undo left behind from `b` back to `a`, and that redo leaves the same
/// entry again (for moves and deletions in both orders of undo and redo).
pub proof fn law_redo_reverses_undo(
    h0: BrowserHistory,
    h1: BrowserHistory,
    h2: BrowserHistory,
    entry: BrowserHistoryEntry,
    undo: BrowserHistoryPlan,
    redo: BrowserHistoryPlan,
)
    requires
        h0.stash_dir is Some || !(entry matches BrowserHistoryEntry::Create { stash_path: None, .. }),
        plan_outcome(h0, entry, BrowserHistoryDirection::Undo, h1, undo),
        plan_outcome(h1, undo.entry, BrowserHistoryDirection::Redo, h2, redo),
    ensures
        plan_move(undo.step) matches Some((a, b)) && plan_move(redo.step) == Some((b, a)),
        redo.entry == undo.entry,
{
}

/// Undo reverses redo for moves and deletions.
pub proof fn law_undo_reverses_redo(
    h0: BrowserHistory,
    h1: BrowserHistory,
    h2: BrowserHistory,
    entry: BrowserHistoryEntry,
    redo: BrowserHistoryPlan,
    undo: BrowserHistoryPlan,
)
    requires
        !(entry is Create),
        plan_outcome(h0, entry, BrowserHistoryDirection::Redo, h1, redo),
        plan_outcome(h1, redo.entry, BrowserHistoryDirection::Undo, h2, undo),
    ensures
        plan_move(redo.step) matches Some((a, b)) && plan_move(undo.step) == Some((b, a)),
        undo.entry == redo.entry,
{
}

/// `plan` run on history `h` with `entry` in `direction` succeeded, giving `after` and `p`.
pub open spec fn plan_outcome(
    h: BrowserHistory,
    entry: BrowserHistoryEntry,
    direction: BrowserHistoryDirection,
    after: BrowserHistory,
    p: BrowserHistoryPlan,
) -> bool {
    match entry {
        BrowserHistoryEntry::Create { path, stash_path } => match (direction, stash_path) {
            (BrowserHistoryDirection::Redo, None) => p == BrowserHistoryPlan {
                step: BrowserHistoryStep::Nothing,
                entry: BrowserHistoryEntry::Create { path, stash_path: None },
            },
            (BrowserHistoryDirection::Redo, Some(s)) => p == BrowserHistoryPlan {
                step: BrowserHistoryStep::MoveFile { source: s, destination: path },
                entry: BrowserHistoryEntry::Create { path, stash_path: Some(s) },
            },
            (BrowserHistoryDirection::Undo, Some(s)) => p == BrowserHistoryPlan {
                step: BrowserHistoryStep::MoveFile { source: path, destination: s },
                entry: BrowserHistoryEntry::Create { path, stash_path: Some(s) },
            },
            (BrowserHistoryDirection::Undo, None) => {
                &&& h.stash_dir is Some
                &&& p.step matches BrowserHistoryStep::MoveFile { source, destination }
                &&& source == path
                &&& p.entry == (BrowserHistoryEntry::Create { path, stash_path: Some(destination) })
            },
        },
        BrowserHistoryEntry::Move { from, to } => p == BrowserHistoryPlan {
            step: if direction == BrowserHistoryDirection::Redo {
                BrowserHistoryStep::MoveTracked { source: from, destination: to }
            } else {
                BrowserHistoryStep::MoveTracked { source: to, destination: from }
            },
            entry: BrowserHistoryEntry::Move { from, to },
        },
        BrowserHistoryEntry::Delete { path, stash_path } => p == BrowserHistoryPlan {
            step: if direction == BrowserHistoryDirection::Redo {
                BrowserHistoryStep::MoveFile { source: path, destination: stash_path }
            } else {
                BrowserHistoryStep::MoveFile { source: stash_path, destination: path }
            },
            entry: BrowserHistoryEntry::Delete { path, stash_path },
        },
    }
}

/// Kind of clipboard operation.
#[derive(Debug, Clone, Copy, PartialEq, Eq, Structural)]
pub enum BrowserClipboardKind {
    Copy,
    Cut,
}

/// A path copied or cut in the file browser.
#[derive(Debug, Clone, PartialEq, Eq)]
pub struct BrowserClipboard {
    pub path: String,
    pub kind: BrowserClipboardKind,
}

/// The selected entry goes to the clipboard; nothing happens when none is selected.
pub fn copy_or_cut_selection(
    clipboard: &mut Option<BrowserClipboard>,
    selected: Option<String>,
    kind: BrowserClipboardKind,
)
    ensures
        match selected {
            Some(path) => *final(clipboard) == Some(BrowserClipboard { path, kind }),
            None => *final(clipboard) == *old(clipboard),
        },
{
    if let Some(path) = selected {
        *clipboard = Some(BrowserClipboard { path, kind });
    }
}

/// What pasting the clipboard into the browser does.
#[derive(Debug, Clone, PartialEq, Eq)]
pub enum PastePlan {
    /// Nothing to paste, or the clipboard path would land on itself.
    Nothing,
    /// A folder would be pasted into itself.
    FolderIntoItself,
    /// Copy `source` to `destination`; the copy is recorded as a creation.
    Copy { source: String, destination: String },
    /// Move `source` to `destination`; the clipboard empties once the move succeeds.
    Move { source: String, destination: String },
}

/// Where a pasted entry lands: in the selected folder, or else in the current folder,
/// under the clipboard entry's file name.
pub open spec fn paste_destination(clip: Seq<char>, target_dir: Seq<char>) -> Option<Seq<char>> {
    match spec_path_file_name(clip) {
        Some(name) => Some(spec_path_join(target_dir, name)),
        None => None,
    }
}

/// Plans a paste. `selected_dir` is the selected entry when it is a folder, `current_dir`
/// the folder shown, and `clipboard_is_dir` whether the clipboard entry is a folder.
pub fn plan_paste(
    clipboard: &Option<BrowserClipboard>,
    selected_dir: Option<&str>,
    current_dir: &str,
    clipboard_is_dir: bool,
) -> (r: PastePlan)
    ensures
        match clipboard {
            None => r == PastePlan::Nothing,
            Some(clip) => {
                let target = match selected_dir {
                    Some(d) => d@,
                    None => current_dir@,
                };
                match paste_destination(clip.path@, target) {
                    None => r == PastePlan::Nothing,
                    Some(dest) => if spec_path_eq(dest, clip.path@) {
                        r == PastePlan::Nothing
                    } else if clipboard_is_dir && spec_path_starts_with(dest, clip.path@) {
                        r == PastePlan::FolderIntoItself
                    } else {
                        match clip.kind {
                            BrowserClipboardKind::Copy => r matches PastePlan::Copy {
                                source,
                                destination,
                            } && source == clip.path && destination@ == dest,
                            BrowserClipboardKind::Cut => r matches PastePlan::Move {
                                source,
                                destination,
                            } && source == clip.path && destination@ == dest,
                        }
                    },
                }
            },
        },
{
    let clip = match clipboard {
        Some(clip) => clip,
        None => return PastePlan::Nothing,
    };
    let file_name = match path_file_name(clip.path.as_str()) {
        Some(name) => name,
        None => return PastePlan::Nothing,
    };
    let target = match selected_dir {
        Some(dir) => dir,
        None => current_dir,
    };
    let destination = path_join(target, file_name.as_str());
    if path_eq(destination.as_str(), clip.path.as_str()) {
        return PastePlan::Nothing;
    }
    if clipboard_is_dir && path_starts_with(destination.as_str(), clip.path.as_str()) {
        return PastePlan::FolderIntoItself;
    }
    match clip.kind {
        BrowserClipboardKind::Copy => PastePlan::Copy { source: clip.path.clone(), destination },
        BrowserClipboardKind::Cut => PastePlan::Move { source: clip.path.clone(), destination },
    }
}

/// Title of the error prompts of the file browser.
pub open spec fn file_browser_error_title() -> Seq<char> {
    "File Browser Error"@
}

/// `p` is the file browser's error prompt for `message`: recoverable, titled
/// `File Browser Error`, with an OK button and the default labels.
pub open spec fn is_file_browser_error(p: ErrorPrompt, message: Seq<char>) -> bool {
    &&& p.title@ == file_browser_error_title()
    &&& p.message@ == message
    &&& p.fatality == ErrorFatality::Recoverable
    &&& p.tone == tone_for(ErrorFatality::Recoverable)
    &&& p.buttons == PromptButtons::OkOnly
    &&& p.ok_label is None
    &&& p.discard_label is None
    &&& p.cancel_label is None
}

/// The prompt the file browser shows when an operation fails with `message`.
pub fn file_browser_error_prompt(message: String) -> (p: ErrorPrompt)
    ensures
        is_file_browser_error(p, message@),
        p.message == message,
{
    ErrorPrompt::new(owned("File Browser Error"), message, ErrorFatality::Recoverable, PromptButtons::OkOnly)
}

/// Text shown when a folder would be pasted into itself.
pub open spec fn paste_into_itself_text() -> Seq<char> {
    "Cannot paste a folder into itself."@
}

/// Text shown when a folder would be moved into itself.
pub open spec fn move_into_itself_text() -> Seq<char> {
    "Cannot move a folder into itself."@
}

impl PastePlan {
    /// The prompt a paste shows before any file is touched: only pasting a folder into
    /// itself has one.
    pub fn error_prompt(&self) -> (r: Option<ErrorPrompt>)
        ensures
            match self {
                PastePlan::FolderIntoItself => r matches Some(p) && is_file_browser_error(
                    p,
                    paste_into_itself_text(),
                ),
                _ => r is None,
            },
    {
        match self {
            PastePlan::FolderIntoItself => Some(
                file_browser_error_prompt(owned("Cannot paste a folder into itself.")),
            ),
            _ => None,
        }
    }
}

/// `after` is the score `before` once the folder `source` moved to `destination`: the same
/// place below the folder, and the file name of its new path (`score.ly` when it has none).
pub open spec fn moved_with_folder(
    before: SelectedScore,
    after: SelectedScore,
    source: Seq<char>,
    destination: Seq<char>,
) -> bool {
    &&& spec_path_strip_prefix(before.path@, source) matches Some(rest) && after.path@
        == spec_path_join(destination, rest)
    &&& after.file_name@ == match spec_path_file_name(after.path@) {
        Some(name) => name,
        None => "score.ly"@,
    }
}

/// A score inside the folder `source` follows it to `destination`; returns whether it moved.
pub fn remap_score_after_folder_move(score: &mut SelectedScore, source: &str, destination: &str) -> (moved: bool)
    ensures
        moved == spec_path_starts_with(old(score).path@, source@),
        spec_path_strip_prefix(old(score).path@, source@) is Some <==> spec_path_starts_with(
            old(score).path@,
            source@,
        ),
        moved ==> moved_with_folder(*old(score), *final(score), source@, destination@),
        !moved ==> *final(score) == *old(score),
{
    match path_strip_prefix(score.path.as_str(), source) {
        Some(rest) => {
            let path = path_join(destination, rest.as_str());
            let file_name = match path_file_name(path.as_str()) {
                Some(name) => name,
                None => owned("score.ly"),
            };
            score.path = path;
            score.file_name = file_name;
            true
        },
        None => false,
    }
}

/// What follows a move on disk of `source` to `destination`: when a folder moved, an open
/// score inside it moves along; the move is recorded in the history when asked. Returns
/// whether the score moved (its watcher then follows it).
pub fn move_succeeded(
    history: &mut BrowserHistory,
    score: &mut Option<SelectedScore>,
    source: String,
    destination: String,
    source_is_dir: bool,
    record_history: bool,
) -> (score_moved: bool)
    ensures
        score_moved == (source_is_dir && *old(score) is Some && spec_path_starts_with(
            (*old(score))->0.path@,
            source@,
        )),
        score_moved ==> *final(score) is Some && moved_with_folder(
            (*old(score))->0,
            (*final(score))->0,
            source@,
            destination@,
        ),
        !score_moved ==> *final(score) == *old(score),
        record_history ==> final(history).undo_stack@ == old(history).undo_stack@.push(
            BrowserHistoryEntry::Move { from: source, to: destination },
        ) && final(history).redo_stack@.len() == 0,
        !record_history ==> final(history).undo_stack@ == old(history).undo_stack@
            && final(history).redo_stack@ == old(history).redo_stack@,
        final(history).stash_dir == old(history).stash_dir,
        final(history).next_stash_id == old(history).next_stash_id,
{
    let mut score_moved = false;
    if source_is_dir {
        match score {
            Some(s) => {
                score_moved = remap_score_after_folder_move(s, source.as_str(), destination.as_str());
            },
            None => {},
        }
    }
    if record_history {
        history.finish_transfer(Some(BrowserHistoryEntry::Move { from: source, to: destination }));
    }
    score_moved
}

/// What follows a paste that went through on disk: a copy is recorded as the creation of
/// its destination and leaves the clipboard as it is; a move is recorded as a move, takes
/// an open score inside a moved folder along, and empties the clipboard. Returns whether
/// the score moved.
pub fn paste_succeeded(
    plan: &PastePlan,
    source_is_dir: bool,
    clipboard: &mut Option<BrowserClipboard>,
    history: &mut BrowserHistory,
    score: &mut Option<SelectedScore>,
) -> (score_moved: bool)
    ensures
        final(history).stash_dir == old(history).stash_dir,
        final(history).next_stash_id == old(history).next_stash_id,
        match plan {
            PastePlan::Copy { source, destination } => {
                &&& final(history).undo_stack@ == old(history).undo_stack@.push(
                    BrowserHistoryEntry::Create { path: *destination, stash_path: None },
                )
                &&& final(history).redo_stack@.len() == 0
                &&& *final(clipboard) == *old(clipboard)
                &&& *final(score) == *old(score)
                &&& !score_moved
            },
            PastePlan::Move { source, destination } => {
                &&& final(history).undo_stack@ == old(history).undo_stack@.push(
                    BrowserHistoryEntry::Move { from: *source, to: *destination },
                )
                &&& final(history).redo_stack@.len() == 0
                &&& *final(clipboard) is None
                &&& score_moved == (source_is_dir && *old(score) is Some && spec_path_starts_with(
                    (*old(score))->0.path@,
                    source@,
                ))
                &&& score_moved ==> *final(score) is Some && moved_with_folder(
                    (*old(score))->0,
                    (*final(score))->0,
                    source@,
                    destination@,
                )
                &&& !score_moved ==> *final(score) == *old(score)
            },
            _ => {
                &&& final(history).undo_stack@ == old(history).undo_stack@
                &&& final(history).redo_stack@ == old(history).redo_stack@
                &&& *final(clipboard) == *old(clipboard)
                &&& *final(score) == *old(score)
                &&& !score_moved
            },
        },
{
    match plan {
        PastePlan::Copy { source: _, destination } => {
            history.finish_transfer(
                Some(BrowserHistoryEntry::Create { path: destination.clone(), stash_path: None }),
            );
            false
        },
        PastePlan::Move { source, destination } => {
            let moved = move_succeeded(history, score, source.clone(), destination.clone(), source_is_dir, true);
            *clipboard = None;
            moved
        },
        _ => false,
    }
}

/// Why a path cannot be moved where asked.
#[derive(Debug, Clone, PartialEq, Eq)]
pub enum MoveCheck {
    /// The move may go ahead.
    Proceed,
    /// Source and destination are the same: nothing to do.
    Same,
    /// The destination already exists.
    DestinationExists,
    /// A folder would be moved into itself.
    FolderIntoItself,
}

/// Checks a requested move: the destination must not exist, a move onto itself does
/// nothing, and a folder cannot move below itself.
pub fn check_browser_move(
    source: &str,
    destination: &str,
    destination_exists: bool,
    source_is_dir: bool,
) -> (r: MoveCheck)
    ensures
        r == (if destination_exists {
            MoveCheck::DestinationExists
        } else if spec_path_eq(source@, destination@) {
            MoveCheck::Same
        } else if source_is_dir && spec_path_starts_with(destination@, source@) {
            MoveCheck::FolderIntoItself
        } else {
            MoveCheck::Proceed
        }),
{
    if destination_exists {
        MoveCheck::DestinationExists
    } else if path_eq(source, destination) {
        MoveCheck::Same
    } else if source_is_dir && path_starts_with(destination, source) {
        MoveCheck::FolderIntoItself
    } else {
        MoveCheck::Proceed
    }
}

impl MoveCheck {
    /// The error a refused move reports: `<destination> already exists`, or that a folder
    /// cannot move into itself; nothing when the move may go ahead or does nothing.
    pub fn error_message(&self, destination: &str) -> (r: Option<String>)
        ensures
            match self {
                MoveCheck::DestinationExists => r matches Some(m) && m@ == destination@
                    + " already exists"@,
                MoveCheck::FolderIntoItself => r matches Some(m) && m@ == move_into_itself_text(),
                _ => r is None,
            },
    {
        match self {
            MoveCheck::DestinationExists => Some(already_exists_message(destination)),
            MoveCheck::FolderIntoItself => Some(owned("Cannot move a folder into itself.")),
            _ => None,
        }
    }
}

/// How a requested move of a browser entry goes.
#[derive(Debug, Clone, PartialEq, Eq)]
pub enum BrowserMovePlan {
    /// The move is refused with this message.
    Refused(String),
    /// Source and destination are the same: nothing to do.
    Nothing,
    /// The entry is open in this editor tab, which is renamed (moving the file with it).
    RenameOpenTab(u64),
    /// The entry is moved on disk.
    MovePath,
}

/// Plans a move of `source` to `destination`: refused when the destination exists or a
/// folder would move into itself, nothing when they are the same, else through the editor
/// tab that shows `source` (`open_tab`), or on disk.
pub fn plan_browser_move(
    source: &str,
    destination: &str,
    destination_exists: bool,
    source_is_dir: bool,
    open_tab: Option<u64>,
) -> (r: BrowserMovePlan)
    ensures
        if destination_exists {
            r matches BrowserMovePlan::Refused(m) && m@ == destination@ + " already exists"@
        } else if spec_path_eq(source@, destination@) {
            r == BrowserMovePlan::Nothing
        } else if source_is_dir && spec_path_starts_with(destination@, source@) {
            r matches BrowserMovePlan::Refused(m) && m@ == move_into_itself_text()
        } else {
            match open_tab {
                Some(tab_id) => r == BrowserMovePlan::RenameOpenTab(tab_id),
                None => r == BrowserMovePlan::MovePath,
            }
        },
{
    let check = check_browser_move(source, destination, destination_exists, source_is_dir);
    match check {
        MoveCheck::Proceed => match open_tab {
            Some(tab_id) => BrowserMovePlan::RenameOpenTab(tab_id),
            None => BrowserMovePlan::MovePath,
        },
        MoveCheck::Same => BrowserMovePlan::Nothing,
        _ => match check.error_message(destination) {
            Some(m) => BrowserMovePlan::Refused(m),
            None => BrowserMovePlan::Nothing,
        },
    }
}

/// `<path> already exists`.
pub fn already_exists_message(path: &str) -> (r: String)
    ensures
        r@ == path@ + " already exists"@,
{
    crate::text::concat_strs(path, " already exists")
}

/// The file name typed for an editor tab or browser entry: the input trimmed, then its
/// last path component; nothing when that is empty.
pub open spec fn spec_normalize_file_name(value: Seq<char>) -> Option<Seq<char>> {
    let trimmed = spec_trim(value);
    if trimmed.len() == 0 {
        None
    } else {
        match spec_path_file_name(trimmed) {
            Some(name) => if name.len() == 0 {
                None
            } else {
                Some(name)
            },
            None => None,
        }
    }
}

/// The file name typed for an editor tab or browser entry.
pub fn normalize_editor_tab_file_name(value: &str) -> (r: Option<String>)
    ensures
        opt_view(r) == spec_normalize_file_name(value@),
{
    let trimmed = trim_str(value);
    if trimmed.as_str().unicode_len() == 0 {
        return None;
    }
    match path_file_name(trimmed.as_str()) {
        Some(name) => if name.as_str().unicode_len() == 0 {
            None
        } else {
            Some(name)
        },
        None => None,
    }
}

/// The kind of inline edit in the file browser.
#[derive(Debug, Clone, Copy, PartialEq, Eq, Structural)]
pub enum BrowserInlineEditKind {
    NewFile,
    NewDirectory,
    Rename,
}

/// An entry being created or renamed in place.
#[derive(Debug, Clone, PartialEq, Eq)]
pub struct BrowserInlineEdit {
    pub column_index: usize,
    pub parent_dir: String,
    pub target_path: Option<String>,
    pub kind: BrowserInlineEditKind,
}

/// The inline editor of the file browser and the text typed into it.
#[derive(Debug, Clone)]
pub struct BrowserInlineEditState {
    pub edit: Option<BrowserInlineEdit>,
    pub value: String,
}

impl BrowserInlineEditState {
    /// No entry is being edited.
    pub fn new() -> (s: Self)
        ensures
            s.edit is None,
            s.value@.len() == 0,
    {
        BrowserInlineEditState { edit: None, value: String::new() }
    }

    /// Starts creating a file or folder in the current folder, proposing `untitled` or
    /// `New Folder`; nothing happens when no folder column is shown.
    pub fn start_create(&mut self, column_index: Option<usize>, parent_dir: String, directory: bool)
        ensures
            match column_index {
                None => *final(self) == *old(self),
                Some(c) => final(self).edit == Some(
                    BrowserInlineEdit {
                        column_index: c,
                        parent_dir,
                        target_path: None,
                        kind: if directory {
                            BrowserInlineEditKind::NewDirectory
                        } else {
                            BrowserInlineEditKind::NewFile
                        },
                    },
                ) && final(self).value@ == (if directory {
                    "New Folder"@
                } else {
                    "untitled"@
                }),
            },
    {
        let column_index = match column_index {
            Some(c) => c,
            None => return,
        };
        self.edit = Some(
            BrowserInlineEdit {
                column_index,
                parent_dir,
                target_path: None,
                kind: if directory {
                    BrowserInlineEditKind::NewDirectory
                } else {
                    BrowserInlineEditKind::NewFile
                },
            },
        );
        self.value = if directory {
            owned("New Folder")
        } else {
            owned("untitled")
        };
    }

    /// Starts renaming the selected entry, proposing its file name (`Untitled` when it has
    /// none). Nothing happens without a selection, a parent folder, or a folder column.
    pub fn start_rename(&mut self, selected: Option<String>, column_index: Option<usize>) -> (started:
        bool)
        ensures
            started == (selected is Some && spec_path_parent(selected->0@) is Some
                && column_index is Some),
            !started ==> *final(self) == *old(self),
            started ==> (final(self).edit matches Some(edit) && edit.column_index
                == column_index->0 && edit.parent_dir@ == spec_path_parent(selected->0@)->0
                && edit.target_path == selected && edit.kind == BrowserInlineEditKind::Rename),
            started ==> final(self).value@ == match spec_path_file_name(selected->0@) {
                Some(name) => name,
                None => "Untitled"@,
            },
    {
        let target = match selected {
            Some(target) => target,
            None => return false,
        };
        let parent_dir = match path_parent(target.as_str()) {
            Some(parent) => parent,
            None => return false,
        };
        let column_index = match column_index {
            Some(c) => c,
            None => return false,
        };
        let value = match path_file_name(target.as_str()) {
            Some(name) => name,
            None => owned("Untitled"),
        };
        proof {
            reveal_strlit("Untitled");
        }
        self.edit = Some(
            BrowserInlineEdit {
                column_index,
                parent_dir,
                target_path: Some(target),
                kind: BrowserInlineEditKind::Rename,
            },
        );
        self.value = value;
        true
    }

    /// Typing into the inline editor, ignored while a shortcut modifier is held.
    pub fn update_value(&mut self, value: String, shortcut_modifier_active: bool)
        ensures
            final(self).edit == old(self).edit,
            shortcut_modifier_active ==> final(self).value == old(self).value,
            !shortcut_modifier_active ==> final(self).value == value,
    {
        if !shortcut_modifier_active {
            self.value = value;
        }
    }

    /// Ends inline editing.
    pub fn cancel(&mut self)
        ensures
            final(self).edit is None,
            final(self).value@.len() == 0,
    {
        self.edit = None;
        self.value = String::new();
    }

    /// The path the typed name designates: the typed file name inside the edit's parent
    /// folder; nothing when no edit is open or no name was typed.
    pub fn commit_destination(&self) -> (r: Option<String>)
        ensures
            match (self.edit, spec_normalize_file_name(self.value@)) {
                (Some(edit), Some(name)) => r matches Some(d) && d@ == spec_path_join(
                    edit.parent_dir@,
                    name,
                ),
                _ => r is None,
            },
    {
        let edit = match &self.edit {
            Some(edit) => edit,
            None => return None,
        };
        let name = match normalize_editor_tab_file_name(self.value.as_str()) {
            Some(name) => name,
            None => return None,
        };
        Some(path_join(edit.parent_dir.as_str(), name.as_str()))
    }
}

/// How applying an inline edit on disk ended.
#[derive(Debug, Clone, PartialEq, Eq)]
pub enum InlineEditOutcome {
    /// Nothing was applied.
    Noop,
    /// An open editor tab took the rename over.
    Finished,
    /// The entry was created or renamed; `entry` undoes it.
    Applied(BrowserHistoryEntry),
    /// It failed with this message.
    Failed(String),
}

impl BrowserInlineEditState {
    /// Settles a committed inline edit: an applied one ends the edit and is recorded in the
    /// history; a failed one keeps the edit open, records nothing, and returns the error
    /// prompt to show.
    pub fn finish_commit(&mut self, history: &mut BrowserHistory, outcome: InlineEditOutcome) -> (r:
        Option<ErrorPrompt>)
        ensures
            final(history).stash_dir == old(history).stash_dir,
            final(history).next_stash_id == old(history).next_stash_id,
            match outcome {
                InlineEditOutcome::Applied(entry) => {
                    &&& final(self).edit is None
                    &&& final(self).value@.len() == 0
                    &&& final(history).undo_stack@ == old(history).undo_stack@.push(entry)
                    &&& final(history).redo_stack@.len() == 0
                    &&& r is None
                },
                InlineEditOutcome::Failed(message) => {
                    &&& *final(self) == *old(self)
                    &&& *final(history) == *old(history)
                    &&& r matches Some(p) && is_file_browser_error(p, message@)
                },
                _ => *final(self) == *old(self) && *final(history) == *old(history) && r is None,
            },
    {
        match outcome {
            InlineEditOutcome::Applied(entry) => {
                self.cancel();
                history.record(entry);
                None
            },
            InlineEditOutcome::Failed(message) => Some(file_browser_error_prompt(message)),
            _ => None,
        }
    }
}

/// What committing an inline rename does.
#[derive(Debug, Clone, PartialEq, Eq)]
pub enum InlineRenamePlan {
    /// Nothing to rename (no target); the edit stays.
    Noop,
    /// The name did not change: the edit ends.
    Unchanged,
    /// The destination exists already.
    DestinationExists,
    /// Rename through the open editor tab that shows `source`.
    RenameOpenTab { tab_id: u64, source: String, destination: String },
    /// Rename `source` on disk; the rename is recorded as a move.
    RenamePath { source: String, destination: String },
}

/// Plans an inline rename to `destination`. `destination_exists` and `open_tab` (the tab
/// showing the target, when it is a file open in the editor) come from outside.
pub fn plan_inline_rename(
    edit: &BrowserInlineEdit,
    destination: String,
    destination_exists: bool,
    open_tab: Option<u64>,
) -> (r: InlineRenamePlan)
    ensures
        match edit.target_path {
            None => r == InlineRenamePlan::Noop,
            Some(source) => if spec_path_eq(source@, destination@) {
                r == InlineRenamePlan::Unchanged
            } else if destination_exists {
                r == InlineRenamePlan::DestinationExists
            } else {
                match open_tab {
                    Some(tab_id) => r == (InlineRenamePlan::RenameOpenTab {
                        tab_id,
                        source,
                        destination,
                    }),
                    None => r == (InlineRenamePlan::RenamePath { source, destination }),
                }
            },
        },
{
    let source = match &edit.target_path {
        Some(source) => source.clone(),
        None => return InlineRenamePlan::Noop,
    };
    if path_eq(source.as_str(), destination.as_str()) {
        return InlineRenamePlan::Unchanged;
    }
    if destination_exists {
        return InlineRenamePlan::DestinationExists;
    }
    match open_tab {
        Some(tab_id) => InlineRenamePlan::RenameOpenTab { tab_id, source, destination },
        None => InlineRenamePlan::RenamePath { source, destination },
    }
}

/// An entry pressed with the pointer, which may become a drag.
#[derive(Debug, Clone, PartialEq, Eq)]
pub struct BrowserPressedEntry {
    pub path: String,
    pub is_dir: bool,
}

/// The entry being dragged.
#[derive(Debug, Clone, PartialEq, Eq)]
pub struct BrowserDragState {
    pub source_path: String,
    pub source_is_dir: bool,
}

/// The folder a drag would drop into.
#[derive(Debug, Clone, PartialEq, Eq)]
pub struct BrowserDropTarget {
    pub column_index: usize,
    pub path: String,
    pub target_dir: String,
}

/// Pointer state of the file browser: pressed entry, drag, and drop target.
#[derive(Debug, Clone)]
pub struct BrowserPointerState {
    pub pressed: Option<BrowserPressedEntry>,
    pub drag: Option<BrowserDragState>,
    pub drop_target: Option<BrowserDropTarget>,
}

impl BrowserPointerState {
    /// Nothing pressed or dragged.
    pub fn new() -> (s: Self)
        ensures
            s.pressed is None && s.drag is None && s.drop_target is None,
    {
        BrowserPointerState { pressed: None, drag: None, drop_target: None }
    }

    /// An entry was pressed: it may start a drag; any drag ends.
    pub fn begin_press(&mut self, path: String, is_dir: bool)
        ensures
            final(self).pressed == Some(BrowserPressedEntry { path, is_dir }),
            final(self).drag is None,
            final(self).drop_target is None,
    {
        self.pressed = Some(BrowserPressedEntry { path, is_dir });
        self.drag = None;
        self.drop_target = None;
    }

    /// The pointer moved: a pressed entry starts dragging once the pointer has moved far
    /// enough, unless an inline edit is open or a drag is already on.
    pub fn handle_move(&mut self, inline_edit_open: bool, past_threshold: bool)
        ensures
            final(self).pressed == old(self).pressed,
            final(self).drop_target == old(self).drop_target,
            if !inline_edit_open && old(self).drag is None && old(self).pressed is Some
                && past_threshold {
                final(self).drag == Some(
                    BrowserDragState {
                        source_path: old(self).pressed->0.path,
                        source_is_dir: old(self).pressed->0.is_dir,
                    },
                )
            } else {
                final(self).drag == old(self).drag
            },
    {
        if inline_edit_open || self.drag.is_some() {
            return;
        }
        let pressed = match &self.pressed {
            Some(pressed) => pressed,
            None => return,
        };
        if !past_threshold {
            return;
        }
        self.drag = Some(
            BrowserDragState { source_path: pressed.path.clone(), source_is_dir: pressed.is_dir },
        );
    }

    /// The entry under the pointer while dragging becomes the drop target when it is a
    /// folder other than the dragged entry and not inside a dragged folder.
    pub fn update_drop_target(&mut self, hovered: Option<(usize, String, bool)>)
        ensures
            final(self).pressed == old(self).pressed,
            final(self).drag == old(self).drag,
            match (old(self).drag, hovered) {
                (Some(drag), Some((column_index, path, is_dir))) => if !is_dir || spec_path_eq(
                    path@,
                    drag.source_path@,
                ) || (drag.source_is_dir && spec_path_starts_with(path@, drag.source_path@)) {
                    final(self).drop_target is None
                } else {
                    final(self).drop_target == Some(
                        BrowserDropTarget { column_index, path, target_dir: path },
                    )
                },
                _ => final(self).drop_target is None,
            },
    {
        let drag = match &self.drag {
            Some(drag) => drag,
            None => {
                self.drop_target = None;
                return;
            },
        };
        let (column_index, path, is_dir) = match hovered {
            Some(h) => h,
            None => {
                self.drop_target = None;
                return;
            },
        };
        if !is_dir || path_eq(path.as_str(), drag.source_path.as_str()) {
            self.drop_target = None;
            return;
        }
        if drag.source_is_dir && path_starts_with(path.as_str(), drag.source_path.as_str()) {
            self.drop_target = None;
            return;
        }
        self.drop_target = Some(
            BrowserDropTarget { column_index, path: path.clone(), target_dir: path },
        );
    }

    /// Ends any press, drag and drop target.
    pub fn clear(&mut self)
        ensures
            final(self).pressed is None && final(self).drag is None && final(self).drop_target is None,
    {
        self.pressed = None;
        self.drag = None;
        self.drop_target = None;
    }

    /// Where the dragged entry goes when dropped into `target_dir`: its file name inside
    /// that folder; nothing without a drag or a file name.
    pub fn drop_destination(&self, target_dir: &str) -> (r: Option<(String, String)>)
        ensures
            match self.drag {
                None => r is None,
                Some(drag) => match spec_path_file_name(drag.source_path@) {
                    None => r is None,
                    Some(name) => r matches Some((src, dst)) && src == drag.source_path && dst@
                        == spec_path_join(target_dir@, name),
                },
            },
    {
        let drag = match &self.drag {
            Some(drag) => drag,
            None => return None,
        };
        let name = match path_file_name(drag.source_path.as_str()) {
            Some(name) => name,
            None => return None,
        };
        Some((drag.source_path.clone(), path_join(target_dir, name.as_str())))
    }

    /// The folder the current drop target designates.
    pub fn drop_target_dir(&self) -> (r: Option<String>)
        ensures
            match self.drop_target {
                None => r is None,
                Some(t) => r == Some(t.target_dir),
            },
    {
        match &self.drop_target {
            Some(target) => Some(target.target_dir.clone()),
            None => None,
        }
    }
}

/// Title of the prompt asking to delete the selected entry: `Delete <name>?` with the
/// entry's file name (`item` when it has none).
pub open spec fn spec_delete_prompt_title(path: Seq<char>) -> Seq<char> {
    "Delete "@ + match spec_path_file_name(path) {
        Some(name) => name,
        None => "item"@,
    } + "?"@
}

/// The question asked before deleting an entry.
pub fn delete_prompt_title(path: &str) -> (r: String)
    ensures
        r@ == spec_delete_prompt_title(path@),
{
    let name = match path_file_name(path) {
        Some(name) => name,
        None => owned("item"),
    };
    proof {
        reveal_strlit("item");
        reveal_strlit("Delete ");
        reveal_strlit("?");
    }
    let mut out = chars_of("Delete ");
    let mut rest = chars_of(name.as_str());
    out.append(&mut rest);
    out.push('?');
    proof {
        assert(out@ =~= spec_delete_prompt_title(path@));
    }
    string_from_chars(&out)
}

/// The column in which a path that was moved or copied in is selected: the next column
/// when the selected entry is the path's folder and that column shows the folder's
/// contents, else the column it was dropped in. Nothing is selected without a selection.
pub fn transfer_selection_column(
    column_index: usize,
    selected: Option<&str>,
    path: &str,
    has_preview_column: bool,
) -> (r: Option<usize>)
    requires
        has_preview_column ==> column_index < usize::MAX,
    ensures
        match selected {
            None => r is None,
            Some(sel) => r == Some(
                if (spec_path_parent(path@) matches Some(parent) && spec_path_eq(sel@, parent))
                    && has_preview_column {
                    (column_index + 1) as usize
                } else {
                    column_index
                },
            ),
        },
{
    let selected = match selected {
        Some(selected) => selected,
        None => return None,
    };
    let in_parent = match path_parent(path) {
        Some(parent) => path_eq(selected, parent.as_str()),
        None => false,
    };
    if in_parent && has_preview_column {
        Some(column_index + 1)
    } else {
        Some(column_index)
    }
}

/// Whether a temporary-folder entry is a leftover browser-history stash to remove: its
/// name starts with `lilypalooza-browser-history`, it is a folder, and it is not the stash
/// in use now. An entry whose name is not valid text is left alone.
pub fn is_stale_browser_history_dir(
    file_name: Option<&str>,
    is_dir: bool,
    path: &str,
    current_dir: Option<&str>,
) -> (r: bool)
    ensures
        r == (file_name matches Some(name) && crate::text::has_prefix(name@, "lilypalooza-browser-history"@)
            && is_dir && !(current_dir matches Some(c) && spec_path_eq(c@, path@))),
{
    let name = match file_name {
        Some(n) => n,
        None => return false,
    };
    let stash_prefix = chars_of("lilypalooza-browser-history");
    let name_chars = chars_of(name);
    if !crate::text::starts_with_chars(name_chars.as_slice(), stash_prefix.as_slice()) || !is_dir {
        return false;
    }
    match current_dir {
        Some(c) => !path_eq(c, path),
        None => true,
    }
}

} // verus!
