//! Which file-system events matter to the score, editor-tab and file-browser watchers, and
//! which open editor tabs an event touches.

use vstd::prelude::*;

use crate::paths::{path_eq, path_parent, path_starts_with, spec_path_eq, spec_path_parent, spec_path_starts_with};
use crate::prompts::{tone_for, ErrorFatality, ErrorPrompt, PromptButtons};
use crate::text::{concat_strs, owned, str_equal};

verus! {

/// The kind of a file-system event.
#[derive(Debug, Clone, Copy, PartialEq, Eq, Structural)]
pub enum WatchEventKind {
    Any,
    Access,
    Create,
    Modify,
    Remove,
    Other,
}

/// A file-system event: its kind and the paths it names.
#[derive(Debug, Clone)]
pub struct WatchEvent {
    pub kind: WatchEventKind,
    pub paths: Vec<String>,
}

/// Events that may change a file: of any kind, creations, changes and removals.
pub open spec fn spec_watched_kind(kind: WatchEventKind) -> bool {
    kind is Any || kind is Create || kind is Modify || kind is Remove
}

/// Whether an event's kind may change a file.
pub fn watched_event_kind(kind: WatchEventKind) -> (r: bool)
    ensures
        r == spec_watched_kind(kind),
{
    matches!(kind, WatchEventKind::Any | WatchEventKind::Create | WatchEventKind::Modify | WatchEventKind::Remove)
}

/// The score file changed: a watched kind of event that names no path or names the score.
pub open spec fn spec_relevant_score_change(kind: WatchEventKind, paths: Seq<String>, watched: Seq<char>) -> bool {
    spec_watched_kind(kind) && (paths.len() == 0 || exists|k: int|
        0 <= k < paths.len() && spec_path_eq(#[trigger] paths[k]@, watched))
}

/// Whether an event may have changed the watched score.
pub fn is_relevant_score_change(event: &WatchEvent, watched_path: &str) -> (r: bool)
    ensures
        r == spec_relevant_score_change(event.kind, event.paths@, watched_path@),
{
    if !watched_event_kind(event.kind) {
        return false;
    }
    if event.paths.len() == 0 {
        return true;
    }
    let mut k: usize = 0;
    while k < event.paths.len()
        invariant
            k <= event.paths@.len(),
            spec_watched_kind(event.kind),
            forall|j: int| 0 <= j < k ==> !spec_path_eq(#[trigger] event.paths@[j]@, watched_path@),
        decreases event.paths.len() - k,
    {
        if path_eq(event.paths[k].as_str(), watched_path) {
            proof {
                assert(spec_path_eq(event.paths@[k as int]@, watched_path@));
            }
            return true;
        }
        k += 1;
    }
    false
}

/// A path touches a watched file: it is the file, a path in the file's folder, or that
/// folder itself.
pub open spec fn spec_touches_file(path: Seq<char>, watched: Seq<char>, parent: Seq<char>) -> bool {
    ||| spec_path_eq(path, watched)
    ||| (spec_path_parent(path) matches Some(p) && spec_path_eq(p, parent))
    ||| spec_path_eq(path, parent)
}

/// An open editor file may have changed: a watched kind of event naming the file, a path in
/// its folder, or the folder. A file with no folder is never touched.
pub open spec fn spec_relevant_editor_file_change(kind: WatchEventKind, paths: Seq<String>, watched: Seq<char>) -> bool {
    &&& spec_watched_kind(kind)
    &&& spec_path_parent(watched) matches Some(parent) && exists|k: int|
        0 <= k < paths.len() && spec_touches_file(#[trigger] paths[k]@, watched, parent)
}

/// Whether an event may have changed an open editor file.
pub fn is_relevant_editor_file_change(event: &WatchEvent, watched_path: &str) -> (r: bool)
    ensures
        r == spec_relevant_editor_file_change(event.kind, event.paths@, watched_path@),
{
    if !watched_event_kind(event.kind) {
        return false;
    }
    let parent = match path_parent(watched_path) {
        Some(parent) => parent,
        None => return false,
    };
    let mut k: usize = 0;
    while k < event.paths.len()
        invariant
            k <= event.paths@.len(),
            spec_watched_kind(event.kind),
            spec_path_parent(watched_path@) == Some(parent@),
            forall|j: int|
                0 <= j < k ==> !spec_touches_file(#[trigger] event.paths@[j]@, watched_path@, parent@),
        decreases event.paths.len() - k,
    {
        let path = event.paths[k].as_str();
        let in_folder = match path_parent(path) {
            Some(candidate) => path_eq(candidate.as_str(), parent.as_str()),
            None => false,
        };
        if path_eq(path, watched_path) || in_folder || path_eq(path, parent.as_str()) {
            proof {
                assert(spec_touches_file(event.paths@[k as int]@, watched_path@, parent@));
            }
            return true;
        }
        k += 1;
    }
    false
}

/// The browsed folder changed: a watched kind of event that names no path, or names the
/// folder or a path below it.
pub open spec fn spec_relevant_browser_change(kind: WatchEventKind, paths: Seq<String>, root: Seq<char>) -> bool {
    spec_watched_kind(kind) && (paths.len() == 0 || exists|k: int|
        0 <= k < paths.len() && (spec_path_eq(#[trigger] paths[k]@, root) || spec_path_starts_with(
            paths[k]@,
            root,
        )))
}

/// Whether an event may have changed the browsed folder.
pub fn is_relevant_browser_file_change(event: &WatchEvent, watched_root: &str) -> (r: bool)
    ensures
        r == spec_relevant_browser_change(event.kind, event.paths@, watched_root@),
{
    if !watched_event_kind(event.kind) {
        return false;
    }
    if event.paths.len() == 0 {
        return true;
    }
    let mut k: usize = 0;
    while k < event.paths.len()
        invariant
            k <= event.paths@.len(),
            spec_watched_kind(event.kind),
            forall|j: int|
                0 <= j < k ==> !(spec_path_eq(#[trigger] event.paths@[j]@, watched_root@)
                    || spec_path_starts_with(event.paths@[j]@, watched_root@)),
        decreases event.paths.len() - k,
    {
        let path = event.paths[k].as_str();
        if path_eq(path, watched_root) || path_starts_with(path, watched_root) {
            proof {
                assert(spec_path_eq(event.paths@[k as int]@, watched_root@) || spec_path_starts_with(
                    event.paths@[k as int]@,
                    watched_root@,
                ));
            }
            return true;
        }
        k += 1;
    }
    false
}

/// Tab `id` is one of the watched tabs, and the event may have changed its file.
pub open spec fn spec_tab_touched(watched_tabs: Seq<(u64, String)>, kind: WatchEventKind, paths: Seq<String>, id: u64) -> bool {
    exists|k: int|
        0 <= k < watched_tabs.len() && (#[trigger] watched_tabs[k]).0 == id
            && spec_relevant_editor_file_change(kind, paths, watched_tabs[k].1@)
}

/// Whether `id` is listed.
fn id_listed(ids: &Vec<u64>, id: u64) -> (r: bool)
    ensures
        r == ids@.contains(id),
{
    let mut k: usize = 0;
    while k < ids.len()
        invariant
            k <= ids@.len(),
            forall|j: int| 0 <= j < k ==> ids@[j] != id,
        decreases ids.len() - k,
    {
        if ids[k] == id {
            return true;
        }
        k += 1;
    }
    false
}

/// Adds to `affected` the open tabs, in the order watched, whose files the event may have
/// changed and that are not listed yet.
pub fn collect_affected_editor_tabs(
    affected: &mut Vec<u64>,
    watched_tabs: &Vec<(u64, String)>,
    event: &WatchEvent,
)
    ensures
        old(affected)@.is_prefix_of(final(affected)@),
        forall|k: int|
            0 <= k < watched_tabs@.len() && spec_relevant_editor_file_change(
                event.kind,
                event.paths@,
                (#[trigger] watched_tabs@[k]).1@,
            ) ==> final(affected)@.contains(watched_tabs@[k].0),
        forall|i: int|
            old(affected)@.len() <= i < final(affected)@.len() ==> spec_tab_touched(
                watched_tabs@,
                event.kind,
                event.paths@,
                #[trigger] final(affected)@[i],
            ),
        forall|i: int, j: int|
            old(affected)@.len() <= i < j < final(affected)@.len() ==> final(affected)@[i]
                != final(affected)@[j],
        forall|i: int, j: int|
            0 <= i < old(affected)@.len() <= j < final(affected)@.len() ==> final(affected)@[i]
                != final(affected)@[j],
{
    let ghost start = affected@;
    let mut k: usize = 0;
    while k < watched_tabs.len()
        invariant
            k <= watched_tabs@.len(),
            start.is_prefix_of(affected@),
            forall|m: int|
                0 <= m < k && spec_relevant_editor_file_change(
                    event.kind,
                    event.paths@,
                    (#[trigger] watched_tabs@[m]).1@,
                ) ==> affected@.contains(watched_tabs@[m].0),
            forall|i: int|
                start.len() <= i < affected@.len() ==> spec_tab_touched(
                    watched_tabs@,
                    event.kind,
                    event.paths@,
                    #[trigger] affected@[i],
                ),
            forall|i: int, j: int|
                start.len() <= i < j < affected@.len() ==> affected@[i] != affected@[j],
            forall|i: int, j: int|
                0 <= i < start.len() <= j < affected@.len() ==> affected@[i] != affected@[j],
        decreases watched_tabs.len() - k,
    {
        let tab_id = watched_tabs[k].0;
        let relevant = is_relevant_editor_file_change(event, watched_tabs[k].1.as_str());
        if relevant && !id_listed(affected, tab_id) {
            let ghost before = affected@;
            affected.push(tab_id);
            proof {
                assert(affected@[before.len() as int] == tab_id);
                assert forall|i: int|
                    start.len() <= i < affected@.len() implies spec_tab_touched(
                        watched_tabs@,
                        event.kind,
                        event.paths@,
                        #[trigger] affected@[i],
                    ) by {
                    if i < before.len() {
                        assert(affected@[i] == before[i]);
                    } else {
                        assert(watched_tabs@[k as int].0 == affected@[i]);
                    }
                }
                assert forall|m: int|
                    0 <= m < k + 1 && spec_relevant_editor_file_change(
                        event.kind,
                        event.paths@,
                        (#[trigger] watched_tabs@[m]).1@,
                    ) implies affected@.contains(watched_tabs@[m].0) by {
                    if m < k {
                        let idx = choose|idx: int| 0 <= idx < before.len() && before[idx] == watched_tabs@[m].0;
                        assert(affected@[idx] == before[idx]);
                    } else {
                        assert(affected@[before.len() as int] == watched_tabs@[m].0);
                    }
                }
                assert(start.is_prefix_of(affected@)) by {
                    assert forall|i: int| 0 <= i < start.len() implies affected@[i] == start[i] by {
                        assert(before[i] == start[i]);
                    }
                }
            }
        }
        k += 1;
    }
}

/// Whether `path` is one of the listed paths (compared as text).
pub open spec fn listed(paths: Seq<String>, path: Seq<char>) -> bool {
    exists|i: int| 0 <= i < paths.len() && (#[trigger] paths[i])@ == path
}

/// No path is listed twice.
pub open spec fn distinct_paths(paths: Seq<String>) -> bool {
    forall|i: int, j: int| 0 <= i < j < paths.len() ==> (#[trigger] paths[i])@ != (#[trigger] paths[j])@
}

/// Whether one of the listed paths lies directly in `dir`.
pub open spec fn has_child_in(paths: Seq<String>, dir: Seq<char>) -> bool {
    exists|i: int| 0 <= i < paths.len() && spec_path_parent((#[trigger] paths[i])@) == Some(dir)
}

/// Whether a file watched before and still wanted lies directly in `dir`.
pub open spec fn has_kept_child(old: Seq<String>, next: Seq<String>, dir: Seq<char>) -> bool {
    exists|i: int|
        0 <= i < old.len() && listed(next, (#[trigger] old[i])@) && spec_path_parent(old[i]@) == Some(dir)
}

/// The same paths are listed in both.
pub open spec fn same_paths(a: Seq<String>, b: Seq<String>) -> bool {
    forall|p: Seq<char>| #[trigger] listed(a, p) <==> listed(b, p)
}

proof fn lemma_listed_push(s: Seq<String>, x: String, p: Seq<char>)
    ensures
        listed(s.push(x), p) <==> (listed(s, p) || x@ == p),
{
    if listed(s, p) {
        let i = choose|i: int| 0 <= i < s.len() && (#[trigger] s[i])@ == p;
        assert(s.push(x)[i] == s[i]);
    }
    if x@ == p {
        assert(s.push(x)[s.len() as int] == x);
    }
    if listed(s.push(x), p) {
        let i = choose|i: int| 0 <= i < s.push(x).len() && (#[trigger] s.push(x)[i])@ == p;
        if i < s.len() {
            assert(s[i] == s.push(x)[i]);
        }
    }
}

proof fn lemma_child_push(s: Seq<String>, x: String, d: Seq<char>)
    ensures
        has_child_in(s.push(x), d) <==> (has_child_in(s, d) || spec_path_parent(x@) == Some(d)),
{
    if has_child_in(s, d) {
        let i = choose|i: int| 0 <= i < s.len() && spec_path_parent((#[trigger] s[i])@) == Some(d);
        assert(s.push(x)[i] == s[i]);
    }
    if spec_path_parent(x@) == Some(d) {
        assert(s.push(x)[s.len() as int] == x);
    }
    if has_child_in(s.push(x), d) {
        let i = choose|i: int| 0 <= i < s.push(x).len() && spec_path_parent((#[trigger] s.push(x)[i])@) == Some(d);
        if i < s.len() {
            assert(s[i] == s.push(x)[i]);
        }
    }
}

proof fn lemma_take_step(s: Seq<String>, i: int)
    requires
        0 <= i < s.len(),
    ensures
        s.take(i + 1) == s.take(i).push(s[i]),
{
    assert(s.take(i + 1) =~= s.take(i).push(s[i]));
}

proof fn lemma_same_paths_children(a: Seq<String>, b: Seq<String>, d: Seq<char>)
    requires
        same_paths(a, b),
    ensures
        has_child_in(a, d) <==> has_child_in(b, d),
{
    if has_child_in(a, d) {
        let i = choose|i: int| 0 <= i < a.len() && spec_path_parent((#[trigger] a[i])@) == Some(d);
        assert(listed(a, a[i]@));
        assert(listed(b, a[i]@));
        let j = choose|j: int| 0 <= j < b.len() && (#[trigger] b[j])@ == a[i]@;
        assert(spec_path_parent(b[j]@) == Some(d));
    }
    if has_child_in(b, d) {
        let i = choose|i: int| 0 <= i < b.len() && spec_path_parent((#[trigger] b[i])@) == Some(d);
        assert(listed(b, b[i]@));
        assert(listed(a, b[i]@));
        let j = choose|j: int| 0 <= j < a.len() && (#[trigger] a[j])@ == b[i]@;
        assert(spec_path_parent(a[j]@) == Some(d));
    }
}

/// Whether `path` is listed.
fn contains_path(paths: &Vec<String>, path: &str) -> (r: bool)
    ensures
        r == listed(paths@, path@),
{
    let mut i: usize = 0;
    while i < paths.len()
        invariant
            i <= paths@.len(),
            forall|j: int| 0 <= j < i ==> (#[trigger] paths@[j])@ != path@,
        decreases paths.len() - i,
    {
        if str_equal(paths[i].as_str(), path) {
            return true;
        }
        i += 1;
    }
    false
}

/// Whether one of the paths lies directly in `dir`.
fn contains_child(paths: &Vec<String>, dir: &str) -> (r: bool)
    ensures
        r == has_child_in(paths@, dir@),
{
    let mut i: usize = 0;
    while i < paths.len()
        invariant
            i <= paths@.len(),
            forall|j: int| 0 <= j < i ==> spec_path_parent((#[trigger] paths@[j])@) != Some(dir@),
        decreases paths.len() - i,
    {
        match path_parent(paths[i].as_str()) {
            Some(parent) => {
                if str_equal(parent.as_str(), dir) {
                    return true;
                }
            },
            None => {},
        }
        i += 1;
    }
    false
}

proof fn lemma_listed_append(a: Seq<String>, b: Seq<String>, p: Seq<char>)
    ensures
        listed(a + b, p) <==> (listed(a, p) || listed(b, p)),
{
    if listed(a, p) {
        let i = choose|i: int| 0 <= i < a.len() && (#[trigger] a[i])@ == p;
        assert((a + b)[i] == a[i]);
    }
    if listed(b, p) {
        let i = choose|i: int| 0 <= i < b.len() && (#[trigger] b[i])@ == p;
        assert((a + b)[a.len() + i] == b[i]);
    }
    if listed(a + b, p) {
        let i = choose|i: int| 0 <= i < (a + b).len() && (#[trigger] (a + b)[i])@ == p;
        if i < a.len() {
            assert(a[i] == (a + b)[i]);
        } else {
            assert(b[i - a.len()] == (a + b)[i]);
        }
    }
}

proof fn lemma_child_append(a: Seq<String>, b: Seq<String>, d: Seq<char>)
    ensures
        has_child_in(a + b, d) <==> (has_child_in(a, d) || has_child_in(b, d)),
{
    if has_child_in(a, d) {
        let i = choose|i: int| 0 <= i < a.len() && spec_path_parent((#[trigger] a[i])@) == Some(d);
        assert((a + b)[i] == a[i]);
    }
    if has_child_in(b, d) {
        let i = choose|i: int| 0 <= i < b.len() && spec_path_parent((#[trigger] b[i])@) == Some(d);
        assert((a + b)[a.len() + i] == b[i]);
    }
    if has_child_in(a + b, d) {
        let i = choose|i: int| 0 <= i < (a + b).len() && spec_path_parent((#[trigger] (a + b)[i])@) == Some(d);
        if i < a.len() {
            assert(a[i] == (a + b)[i]);
        } else {
            assert(b[i - a.len()] == (a + b)[i]);
        }
    }
}

proof fn lemma_distinct_push(s: Seq<String>, x: String)
    requires
        distinct_paths(s),
        !listed(s, x@),
    ensures
        distinct_paths(s.push(x)),
{
    assert forall|i: int, j: int| 0 <= i < j < s.push(x).len() implies (#[trigger] s.push(x)[i])@
        != (#[trigger] s.push(x)[j])@ by {
        if j == s.len() {
            assert(s.push(x)[i] == s[i]);
            if s[i]@ == x@ {
                assert(listed(s, x@));
            }
        } else {
            assert(s.push(x)[i] == s[i] && s.push(x)[j] == s[j]);
        }
    }
}

proof fn lemma_distinct_append(a: Seq<String>, b: Seq<String>)
    requires
        distinct_paths(a),
        distinct_paths(b),
        forall|p: Seq<char>| listed(a, p) ==> !listed(b, p),
    ensures
        distinct_paths(a + b),
{
    assert forall|i: int, j: int| 0 <= i < j < (a + b).len() implies (#[trigger] (a + b)[i])@
        != (#[trigger] (a + b)[j])@ by {
        if j < a.len() {
            assert((a + b)[i] == a[i] && (a + b)[j] == a[j]);
        } else if i >= a.len() {
            assert((a + b)[i] == b[i - a.len()] && (a + b)[j] == b[j - a.len()]);
        } else {
            assert((a + b)[i] == a[i] && (a + b)[j] == b[j - a.len()]);
            if a[i]@ == b[j - a.len()]@ {
                assert(listed(a, a[i]@));
                assert(listed(b, a[i]@));
            }
        }
    }
}

proof fn lemma_kept_child_step(old: Seq<String>, next: Seq<String>, i: int, d: Seq<char>)
    requires
        0 <= i < old.len(),
    ensures
        has_kept_child(old.take(i + 1), next, d) <==> (has_kept_child(old.take(i), next, d) || (
        listed(next, old[i]@) && spec_path_parent(old[i]@) == Some(d))),
{
    lemma_take_step(old, i);
    let t = old.take(i);
    let u = old.take(i + 1);
    if has_kept_child(t, next, d) {
        let k = choose|k: int|
            0 <= k < t.len() && listed(next, (#[trigger] t[k])@) && spec_path_parent(t[k]@) == Some(d);
        assert(u[k] == t[k]);
    }
    if listed(next, old[i]@) && spec_path_parent(old[i]@) == Some(d) {
        assert(u[i] == old[i]);
    }
    if has_kept_child(u, next, d) {
        let k = choose|k: int|
            0 <= k < u.len() && listed(next, (#[trigger] u[k])@) && spec_path_parent(u[k]@) == Some(d);
        if k < i {
            assert(t[k] == u[k]);
        }
    }
}

/// The files the editor watches for changes on disk (those of its open tabs), each once.
/// Each watched file is watched itself, and so is the folder it lies in, which is watched
/// once for all of its watched files.
#[derive(Debug, Clone)]
pub struct EditorWatchSet {
    pub files: Vec<String>,
}

/// The watch calls that bring the watches in line with a new list of files: files and
/// folders to stop watching, then files and folders to start watching.
#[derive(Debug, Clone, PartialEq, Eq)]
pub struct WatchPlan {
    pub unwatch_files: Vec<String>,
    pub unwatch_dirs: Vec<String>,
    pub watch_files: Vec<String>,
    pub watch_dirs: Vec<String>,
}

impl EditorWatchSet {
    /// No file is listed twice.
    pub open spec fn wf(&self) -> bool {
        distinct_paths(self.files@)
    }

    /// Nothing watched.
    pub fn new() -> (s: Self)
        ensures
            s.wf(),
            s.files@.len() == 0,
    {
        EditorWatchSet { files: Vec::new() }
    }

    /// Watches exactly the files of `next` (a path listed twice is watched once). Files no
    /// longer listed are unwatched, and so is each folder none of the remaining files lies
    /// in; newly listed files are watched, and so is each folder none of the remaining files
    /// lay in. Afterwards the watched folders are exactly those the watched files lie in.
    #[verifier::rlimit(40)]
    pub fn sync_paths(&mut self, next: &Vec<String>) -> (plan: WatchPlan)
        requires
            old(self).wf(),
        ensures
            final(self).wf(),
            same_paths(final(self).files@, next@),
            forall|p: Seq<char>|
                #[trigger] listed(plan.unwatch_files@, p) <==> (listed(old(self).files@, p) && !listed(
                    next@,
                    p,
                )),
            forall|p: Seq<char>|
                #[trigger] listed(plan.watch_files@, p) <==> (listed(next@, p) && !listed(
                    old(self).files@,
                    p,
                )),
            forall|d: Seq<char>|
                #[trigger] listed(plan.unwatch_dirs@, d) <==> (has_child_in(plan.unwatch_files@, d)
                    && !has_kept_child(old(self).files@, next@, d)),
            forall|d: Seq<char>|
                #[trigger] listed(plan.watch_dirs@, d) <==> (has_child_in(plan.watch_files@, d)
                    && !has_kept_child(old(self).files@, next@, d)),
            distinct_paths(plan.unwatch_files@),
            distinct_paths(plan.unwatch_dirs@),
            distinct_paths(plan.watch_files@),
            distinct_paths(plan.watch_dirs@),
            forall|d: Seq<char>|
                #[trigger] has_child_in(final(self).files@, d) <==> ((has_child_in(old(self).files@, d)
                    && !listed(plan.unwatch_dirs@, d)) || listed(plan.watch_dirs@, d)),
    {
        let ghost old_files = self.files@;
        let mut kept: Vec<String> = Vec::new();
        let mut unwatch_files: Vec<String> = Vec::new();
        let mut i: usize = 0;
        while i < self.files.len()
            invariant
                old_files == self.files@,
                distinct_paths(old_files),
                i <= old_files.len(),
                forall|p: Seq<char>|
                    #[trigger] listed(kept@, p) <==> (listed(old_files.take(i as int), p) && listed(next@, p)),
                forall|p: Seq<char>|
                    #[trigger] listed(unwatch_files@, p) <==> (listed(old_files.take(i as int), p) && !listed(next@, p)),
                forall|d: Seq<char>|
                    #[trigger] has_child_in(kept@, d) <==> has_kept_child(old_files.take(i as int), next@, d),
                distinct_paths(kept@),
                distinct_paths(unwatch_files@),
            decreases self.files.len() - i,
        {
            let file = self.files[i].clone();
            proof {
                lemma_take_step(old_files, i as int);
                if listed(old_files.take(i as int), file@) {
                    let j = choose|j: int|
                        0 <= j < old_files.take(i as int).len() && (#[trigger] old_files.take(i as int)[j])@ == file@;
                    assert(old_files[j]@ == old_files[i as int]@);
                }
                assert(!listed(old_files.take(i as int), file@));
            }
            let ghost kept_before = kept@;
            let ghost unwatch_before = unwatch_files@;
            if contains_path(next, file.as_str()) {
                kept.push(file);
                proof {
                    lemma_distinct_push(kept_before, old_files[i as int]);
                }
            } else {
                unwatch_files.push(file);
                proof {
                    lemma_distinct_push(unwatch_before, old_files[i as int]);
                }
            }
            proof {
                assert forall|p: Seq<char>| #[trigger] listed(kept@, p) <==> (listed(old_files.take(i + 1), p) && listed(next@, p)) by {
                    lemma_listed_push(kept_before, old_files[i as int], p);
                    lemma_listed_push(old_files.take(i as int), old_files[i as int], p);
                }
                assert forall|p: Seq<char>| #[trigger] listed(unwatch_files@, p) <==> (listed(old_files.take(i + 1), p) && !listed(next@, p)) by {
                    lemma_listed_push(unwatch_before, old_files[i as int], p);
                    lemma_listed_push(old_files.take(i as int), old_files[i as int], p);
                }
                assert forall|d: Seq<char>| #[trigger] has_child_in(kept@, d) <==> has_kept_child(old_files.take(i + 1), next@, d) by {
                    lemma_child_push(kept_before, old_files[i as int], d);
                    lemma_kept_child_step(old_files, next@, i as int, d);
                }
            }
            i += 1;
        }
        proof {
            assert(old_files.take(i as int) =~= old_files);
        }

        let mut watch_files: Vec<String> = Vec::new();
        let mut j: usize = 0;
        while j < next.len()
            invariant
                old_files == self.files@,
                j <= next@.len(),
                forall|p: Seq<char>|
                    #[trigger] listed(watch_files@, p) <==> (listed(next@.take(j as int), p) && !listed(old_files, p)),
                distinct_paths(watch_files@),
            decreases next.len() - j,
        {
            let ghost watch_before = watch_files@;
            proof {
                lemma_take_step(next@, j as int);
            }
            let path = next[j].as_str();
            if !contains_path(&self.files, path) && !contains_path(&watch_files, path) {
                watch_files.push(next[j].clone());
                proof {
                    lemma_distinct_push(watch_before, next@[j as int]);
                }
            }
            proof {
                assert forall|p: Seq<char>| #[trigger] listed(watch_files@, p) <==> (listed(next@.take(j + 1), p) && !listed(old_files, p)) by {
                    lemma_listed_push(watch_before, next@[j as int], p);
                    lemma_listed_push(next@.take(j as int), next@[j as int], p);
                }
            }
            j += 1;
        }
        proof {
            assert(next@.take(j as int) =~= next@);
        }

        let unwatch_dirs = Self::dirs_without_kept_child(&unwatch_files, &kept);
        let watch_dirs = Self::dirs_without_kept_child(&watch_files, &kept);

        let ghost kept_view = kept@;
        let ghost watch_view = watch_files@;
        let ghost unwatch_view = unwatch_files@;
        let mut files = kept;
        let mut added = watch_files.clone();
        files.append(&mut added);
        proof {
            assert(files@ == kept_view + watch_view);
            assert forall|p: Seq<char>| listed(kept_view, p) implies !listed(watch_view, p) by {}
            lemma_distinct_append(kept_view, watch_view);
            assert forall|p: Seq<char>| #[trigger] listed(files@, p) <==> listed(next@, p) by {
                lemma_listed_append(kept_view, watch_view, p);
            }
            assert(same_paths(old_files, kept_view + unwatch_view)) by {
                assert forall|p: Seq<char>| #[trigger] listed(old_files, p) <==> listed(kept_view + unwatch_view, p) by {
                    lemma_listed_append(kept_view, unwatch_view, p);
                }
            }
            assert forall|d: Seq<char>| #[trigger] has_child_in(files@, d) <==> ((has_child_in(old_files, d)
                && !listed(unwatch_dirs@, d)) || listed(watch_dirs@, d)) by {
                lemma_child_append(kept_view, watch_view, d);
                lemma_child_append(kept_view, unwatch_view, d);
                lemma_same_paths_children(old_files, kept_view + unwatch_view, d);
            }
        }
        self.files = files;
        WatchPlan { unwatch_files, unwatch_dirs, watch_files, watch_dirs }
    }

    /// The folders the files lie in, each once, leaving out those a kept file lies in.
    fn dirs_without_kept_child(files: &Vec<String>, kept: &Vec<String>) -> (dirs: Vec<String>)
        ensures
            forall|d: Seq<char>|
                #[trigger] listed(dirs@, d) <==> (has_child_in(files@, d) && !has_child_in(kept@, d)),
            distinct_paths(dirs@),
    {
        let mut dirs: Vec<String> = Vec::new();
        let mut k: usize = 0;
        while k < files.len()
            invariant
                k <= files@.len(),
                forall|d: Seq<char>|
                    #[trigger] listed(dirs@, d) <==> (has_child_in(files@.take(k as int), d) && !has_child_in(kept@, d)),
                distinct_paths(dirs@),
            decreases files.len() - k,
        {
            let ghost dirs_before = dirs@;
            proof {
                lemma_take_step(files@, k as int);
            }
            match path_parent(files[k].as_str()) {
                Some(dir) => {
                    if !contains_child(kept, dir.as_str()) && !contains_path(&dirs, dir.as_str()) {
                        let ghost pushed = dir;
                        dirs.push(dir);
                        proof {
                            lemma_distinct_push(dirs_before, pushed);
                            assert forall|d: Seq<char>| #[trigger] listed(dirs@, d) <==> (has_child_in(files@.take(k + 1), d) && !has_child_in(kept@, d)) by {
                                lemma_listed_push(dirs_before, pushed, d);
                                lemma_child_push(files@.take(k as int), files@[k as int], d);
                            }
                        }
                    } else {
                        proof {
                            assert forall|d: Seq<char>| #[trigger] listed(dirs@, d) <==> (has_child_in(files@.take(k + 1), d) && !has_child_in(kept@, d)) by {
                                lemma_child_push(files@.take(k as int), files@[k as int], d);
                            }
                        }
                    }
                },
                None => {
                    proof {
                        assert forall|d: Seq<char>| #[trigger] listed(dirs@, d) <==> (has_child_in(files@.take(k + 1), d) && !has_child_in(kept@, d)) by {
                            lemma_child_push(files@.take(k as int), files@[k as int], d);
                        }
                    }
                },
            }
            k += 1;
        }
        proof {
            assert(files@.take(k as int) =~= files@);
        }
        dirs
    }
}


/// What one poll of the score watcher brought.
#[derive(Debug, Clone)]
pub enum WatcherReport {
    /// A file-system event.
    Event(WatchEvent),
    /// The watcher reported an error.
    Error(String),
    /// Nothing more for now.
    Empty,
    /// The watcher is gone.
    Disconnected,
}

/// What draining the score watcher gathered: whether the score changed, whether the watcher
/// went away, and the errors it reported, in order.
#[derive(Debug, Clone)]
pub struct ScoreWatcherPoll {
    pub changed: bool,
    pub disconnected: bool,
    pub errors: Vec<String>,
}

impl ScoreWatcherPoll {
    /// Nothing gathered yet.
    pub fn new() -> (p: Self)
        ensures
            !p.changed,
            !p.disconnected,
            p.errors@.len() == 0,
    {
        ScoreWatcherPoll { changed: false, disconnected: false, errors: Vec::new() }
    }

    /// Takes one report in: an event marks the score changed when it is relevant to
    /// `watched_path`, an error is kept, and an empty or disconnected watcher ends the drain.
    /// Returns whether to poll again.
    pub fn take_report(&mut self, report: WatcherReport, watched_path: &str) -> (more: bool)
        ensures
            match report {
                WatcherReport::Event(event) => {
                    &&& final(self).changed == (old(self).changed || spec_relevant_score_change(
                        event.kind,
                        event.paths@,
                        watched_path@,
                    ))
                    &&& final(self).disconnected == old(self).disconnected
                    &&& final(self).errors@ == old(self).errors@
                    &&& more
                },
                WatcherReport::Error(message) => {
                    &&& final(self).changed == old(self).changed
                    &&& final(self).disconnected == old(self).disconnected
                    &&& final(self).errors@ == old(self).errors@.push(message)
                    &&& more
                },
                WatcherReport::Empty => {
                    &&& final(self).changed == old(self).changed
                    &&& final(self).disconnected == old(self).disconnected
                    &&& final(self).errors@ == old(self).errors@
                    &&& !more
                },
                WatcherReport::Disconnected => {
                    &&& final(self).changed == old(self).changed
                    &&& final(self).disconnected
                    &&& final(self).errors@ == old(self).errors@
                    &&& !more
                },
            },
    {
        match report {
            WatcherReport::Event(event) => {
                let relevant = is_relevant_score_change(&event, watched_path);
                self.changed = self.changed || relevant;
                true
            },
            WatcherReport::Error(message) => {
                self.errors.push(message);
                true
            },
            WatcherReport::Empty => false,
            WatcherReport::Disconnected => {
                self.disconnected = true;
                false
            },
        }
    }
}

/// What follows a drain of the score watcher: each error is logged, a disconnected watcher
/// is dropped with a prompt saying so, and a change asks for a recompile.
#[derive(Debug, Clone)]
pub struct ScoreWatcherResponse {
    pub log_lines: Vec<String>,
    pub stop_watching: bool,
    pub prompt: Option<ErrorPrompt>,
    pub recompile: bool,
}

/// The log line of a watcher error.
pub open spec fn watcher_error_line(error: Seq<char>) -> Seq<char> {
    "[watcher:error] "@ + error
}

/// `p` is the recoverable `File Watcher Error` prompt, with an OK button, saying the score
/// watcher disconnected.
pub open spec fn is_watcher_disconnected_prompt(p: ErrorPrompt) -> bool {
    &&& p.title@ == "File Watcher Error"@
    &&& p.message@ == "Score file watcher disconnected"@
    &&& p.fatality == ErrorFatality::Recoverable
    &&& p.tone == tone_for(ErrorFatality::Recoverable)
    &&& p.buttons == PromptButtons::OkOnly
    &&& p.ok_label is None
    &&& p.discard_label is None
    &&& p.cancel_label is None
}

/// How the application answers a drain of the score watcher.
pub fn score_watcher_response(poll: &ScoreWatcherPoll) -> (r: ScoreWatcherResponse)
    ensures
        r.log_lines@.len() == poll.errors@.len(),
        forall|i: int| 0 <= i < poll.errors@.len() ==> #[trigger] r.log_lines@[i]@ == watcher_error_line(
            poll.errors@[i]@,
        ),
        r.stop_watching == poll.disconnected,
        poll.disconnected ==> (r.prompt matches Some(p) && is_watcher_disconnected_prompt(p)),
        !poll.disconnected ==> r.prompt is None,
        r.recompile == poll.changed,
{
    let mut log_lines: Vec<String> = Vec::new();
    let mut i: usize = 0;
    while i < poll.errors.len()
        invariant
            i <= poll.errors@.len(),
            log_lines@.len() == i,
            forall|j: int| 0 <= j < i ==> #[trigger] log_lines@[j]@ == watcher_error_line(poll.errors@[j]@),
        decreases poll.errors.len() - i,
    {
        log_lines.push(concat_strs("[watcher:error] ", poll.errors[i].as_str()));
        i = i + 1;
    }
    let prompt = if poll.disconnected {
        Some(
            ErrorPrompt::new(
                owned("File Watcher Error"),
                owned("Score file watcher disconnected"),
                ErrorFatality::Recoverable,
                PromptButtons::OkOnly,
            ),
        )
    } else {
        None
    };
    ScoreWatcherResponse { log_lines, stop_watching: poll.disconnected, prompt, recompile: poll.changed }
}

/// What keeping the file browser's watcher in step does.
#[derive(Debug, Clone, Copy, PartialEq, Eq, Structural)]
pub enum BrowserWatchAction {
    /// Drop the watcher: the browser is collapsed.
    Stop,
    /// The watcher already watches the browser's root.
    Keep,
    /// Start a watcher on the browser's root.
    Start,
}

/// The browser's folder is watched while the browser is expanded; a watcher already on its
/// root is kept, and one on another root (or none) makes way for a new one.
pub open spec fn spec_browser_watch_action(expanded: bool, watched_root: Option<Seq<char>>, root: Seq<char>) -> BrowserWatchAction {
    if !expanded {
        BrowserWatchAction::Stop
    } else if watched_root is Some && spec_path_eq(watched_root->0, root) {
        BrowserWatchAction::Keep
    } else {
        BrowserWatchAction::Start
    }
}

/// What keeping the browser's watcher in step does.
pub fn browser_watch_action(expanded: bool, watched_root: Option<&str>, root: &str) -> (r: BrowserWatchAction)
    ensures
        r == spec_browser_watch_action(
            expanded,
            match watched_root {
                Some(w) => Some(w@),
                None => None,
            },
            root@,
        ),
{
    if !expanded {
        return BrowserWatchAction::Stop;
    }
    match watched_root {
        Some(w) => if path_eq(w, root) {
            BrowserWatchAction::Keep
        } else {
            BrowserWatchAction::Start
        },
        None => BrowserWatchAction::Start,
    }
}

/// The root the browser's watcher watches, if there is one.
pub open spec fn watched_view(watched_root: Option<String>) -> Option<Seq<char>> {
    match watched_root {
        Some(w) => Some(w@),
        None => None,
    }
}

/// The root watched after keeping the watcher in step, when starting a new watcher
/// succeeds (`started`) or fails.
pub open spec fn watched_after_sync(
    watched_root: Option<Seq<char>>,
    expanded: bool,
    root: Seq<char>,
    started: bool,
) -> Option<Seq<char>> {
    match spec_browser_watch_action(expanded, watched_root, root) {
        BrowserWatchAction::Stop => None,
        BrowserWatchAction::Keep => watched_root,
        BrowserWatchAction::Start => if started {
            Some(root)
        } else {
            None
        },
    }
}

/// Keeps the browser's watcher in step, up to starting a new one: a collapsed browser drops
/// its watcher; otherwise the watcher stays as it is for now. Returns what to do.
pub fn sync_browser_watcher(watched_root: &mut Option<String>, expanded: bool, root: &str) -> (r:
    BrowserWatchAction)
    ensures
        r == spec_browser_watch_action(expanded, watched_view(*old(watched_root)), root@),
        r == BrowserWatchAction::Stop ==> *final(watched_root) is None,
        r != BrowserWatchAction::Stop ==> *final(watched_root) == *old(watched_root),
{
    let r = match watched_root {
        Some(w) => browser_watch_action(expanded, Some(w.as_str()), root),
        None => browser_watch_action(expanded, None, root),
    };
    if r == BrowserWatchAction::Stop {
        *watched_root = None;
    }
    r
}

/// `p` is the recoverable `File Browser Error` prompt, with an OK button, saying that
/// watching the browser's folder failed with `error`.
pub open spec fn is_browser_watch_failed_prompt(p: ErrorPrompt, error: Seq<char>) -> bool {
    &&& p.title@ == "File Browser Error"@
    &&& p.message@ == "Failed to watch browser directory changes: "@ + error
    &&& p.fatality == ErrorFatality::Recoverable
    &&& p.tone == tone_for(ErrorFatality::Recoverable)
    &&& p.buttons == PromptButtons::OkOnly
    &&& p.ok_label is None
    &&& p.discard_label is None
    &&& p.cancel_label is None
}

/// A new watcher on `root` was started, or failed to start with an error: it then watches
/// `root`, or there is none and the returned prompt says why.
pub fn browser_watcher_started(watched_root: &mut Option<String>, root: String, started: Result<(), String>) -> (r:
    Option<ErrorPrompt>)
    ensures
        match started {
            Ok(()) => *final(watched_root) == Some(root) && r is None,
            Err(e) => *final(watched_root) is None && (r matches Some(p) && is_browser_watch_failed_prompt(p, e@)),
        },
{
    match started {
        Ok(()) => {
            *watched_root = Some(root);
            None
        },
        Err(e) => {
            *watched_root = None;
            Some(
                ErrorPrompt::new(
                    owned("File Browser Error"),
                    concat_strs("Failed to watch browser directory changes: ", e.as_str()),
                    ErrorFatality::Recoverable,
                    PromptButtons::OkOnly,
                ),
            )
        },
    }
}

/// Keeping the browser's watcher in step (`sync_browser_watcher`, then
/// `browser_watcher_started` when a start was asked for) leaves a watcher only while the
/// browser is expanded, and only on its root; a watcher already on that root is kept as it
/// is; a collapsed browser has none.
pub proof fn law_browser_watcher_follows_root(
    watched_root: Option<Seq<char>>,
    expanded: bool,
    root: Seq<char>,
    started: bool,
)
    ensures
        watched_after_sync(watched_root, expanded, root, started) matches Some(w) ==> expanded && (
        w == root || spec_path_eq(w, root)),
        expanded && watched_root is Some && spec_path_eq(watched_root->0, root) ==> watched_after_sync(
            watched_root,
            expanded,
            root,
            started,
        ) == watched_root,
        !expanded ==> watched_after_sync(watched_root, expanded, root, started) is None,
{
}

} // verus!
