//! The workspace: which panes are shown in which dock groups, which are folded away and how
//! they come back, the focused pane, drag and drop of panes, and the header menus.

use vstd::prelude::*;

use crate::dock::{
    all_panes, first_active_workspace_pane, first_group_id_in_layout, group_index, ids_distinct,
    prune_group_from_layout, replace_group_with_split, replace_subtree_with_split,
    spec_first_active_pane, spec_first_group_id, spec_front, spec_group_index, split_restore_target_for_group,
    spec_collected_panes, spec_group_tabs, spec_panes_in_node, spec_replace_group_with_split,
    spec_replace_subtree_with_split, spec_prune_inner,
    collect_visible_group_order, move_tab_to_front, spec_visible_order, DockAxis, DockGroup, DockGroupEntry,
    DockNode, HALF_RATIO_BITS,
};
use crate::paths::opt_view;
use crate::shortcuts::{PaneCycleDirection, TabDirection, WorkspacePaneKind};

verus! {

/// Whether some group shows `p`.
pub open spec fn spec_visible(groups: Seq<DockGroupEntry>, p: WorkspacePaneKind) -> bool {
    exists|i: int| 0 <= i < groups.len() && #[trigger] groups[i].group.tabs@.contains(p)
}

/// A group that shows `p` (the only one, when no pane is shown twice).
pub open spec fn showing_index(groups: Seq<DockGroupEntry>, p: WorkspacePaneKind) -> int {
    choose|i: int| 0 <= i < groups.len() && #[trigger] groups[i].group.tabs@.contains(p)
}

/// The id of the group that shows `p`, if one does.
pub open spec fn spec_group_for_pane(groups: Seq<DockGroupEntry>, p: WorkspacePaneKind) -> Option<
    u64,
> {
    if spec_visible(groups, p) {
        Some(groups[showing_index(groups, p)].id)
    } else {
        None
    }
}

/// No pane is shown by two groups.
pub open spec fn panes_unique(groups: Seq<DockGroupEntry>) -> bool {
    forall|i: int, j: int, p: WorkspacePaneKind|
        0 <= i < groups.len() && 0 <= j < groups.len() && i != j
            && #[trigger] groups[i].group.tabs@.contains(p) ==> !(
        #[trigger] groups[j].group.tabs@.contains(p))
}

/// The first group that shows `pane`, by its position.
pub fn pane_group_position(groups: &Vec<DockGroupEntry>, pane: WorkspacePaneKind) -> (r: Option<
    usize,
>)
    ensures
        match r {
            Some(i) => i < groups@.len() && groups@[i as int].group.tabs@.contains(pane)
                && spec_visible(groups@, pane) && (panes_unique(groups@) ==> showing_index(
                groups@,
                pane,
            ) == i as int),
            None => !spec_visible(groups@, pane),
        },
{
    let mut i: usize = 0;
    while i < groups.len()
        invariant
            i <= groups@.len(),
            forall|j: int| 0 <= j < i ==> !(#[trigger] groups@[j].group.tabs@.contains(pane)),
        decreases groups.len() - i,
    {
        if tab_listed(&groups[i].group.tabs, pane) {
            proof {
                assert(groups@[i as int].group.tabs@.contains(pane));
                if panes_unique(groups@) {
                    let c = showing_index(groups@, pane);
                    assert(0 <= c < groups@.len() && groups@[c].group.tabs@.contains(pane));
                    if c != i {
                        assert(!groups@[c].group.tabs@.contains(pane));
                    }
                }
            }
            return Some(i);
        }
        i = i + 1;
    }
    None
}

/// Whether `pane` is among the tabs.
pub fn tab_listed(tabs: &Vec<WorkspacePaneKind>, pane: WorkspacePaneKind) -> (r: bool)
    ensures
        r == tabs@.contains(pane),
{
    crate::dock::pane_listed(tabs, pane)
}

/// The tabs without `pane`.
pub open spec fn spec_without(tabs: Seq<WorkspacePaneKind>, pane: WorkspacePaneKind) -> Seq<
    WorkspacePaneKind,
> {
    tabs.filter(not_pane(pane))
}

/// Whether a pane is other than `pane`.
pub open spec fn not_pane(pane: WorkspacePaneKind) -> spec_fn(WorkspacePaneKind) -> bool {
    |p: WorkspacePaneKind| p != pane
}

/// The tabs without `pane`.
pub fn tabs_without(tabs: &Vec<WorkspacePaneKind>, pane: WorkspacePaneKind) -> (r: Vec<
    WorkspacePaneKind,
>)
    ensures
        r@ == spec_without(tabs@, pane),
        !r@.contains(pane),
        forall|p: WorkspacePaneKind| p != pane ==> (r@.contains(p) <==> tabs@.contains(p)),
{
    let mut out: Vec<WorkspacePaneKind> = Vec::new();
    let mut k: usize = 0;
    while k < tabs.len()
        invariant
            k <= tabs@.len(),
            out@ == spec_without(tabs@.subrange(0, k as int), pane),
        decreases tabs.len() - k,
    {
        let p = tabs[k];
        proof {
            assert(tabs@.subrange(0, k + 1) =~= tabs@.subrange(0, k as int).push(p));
            tabs@.subrange(0, k as int).lemma_filter_push(p, not_pane(pane));
        }
        if p != pane {
            out.push(p);
        }
        k = k + 1;
    }
    proof {
        assert(tabs@.subrange(0, k as int) =~= tabs@);
        let f = not_pane(pane);
        assert(out@ == tabs@.filter(f));
        #[allow(deprecated)]
        tabs@.filter_lemma(f);
        assert forall|p: WorkspacePaneKind| p != pane implies (out@.contains(p) <==> tabs@.contains(
            p,
        )) by {
            if tabs@.contains(p) {
                let i = choose|i: int| 0 <= i < tabs@.len() && tabs@[i] == p;
                tabs@.lemma_filter_contains(f, i);
            }
            if out@.contains(p) {
                tabs@.lemma_filter_contains_rev(f, p);
            }
        }
        if out@.contains(pane) {
            let i = choose|i: int| 0 <= i < out@.len() && out@[i] == pane;
            assert(f(out@[i]));
        }
    }
    out
}

/// The first tab that is not `pane`.
pub fn first_other_tab(tabs: &Vec<WorkspacePaneKind>, pane: WorkspacePaneKind) -> (r: Option<
    WorkspacePaneKind,
>)
    ensures
        match r {
            Some(a) => a != pane && tabs@.contains(a),
            None => forall|j: int| 0 <= j < tabs@.len() ==> tabs@[j] == pane,
        },
{
    let mut i: usize = 0;
    while i < tabs.len()
        invariant
            i <= tabs@.len(),
            forall|j: int| 0 <= j < i ==> tabs@[j] == pane,
        decreases tabs.len() - i,
    {
        if tabs[i] != pane {
            proof {
                assert(tabs@[i as int] != pane);
            }
            return Some(tabs[i]);
        }
        i = i + 1;
    }
    None
}

/// A copy of the tabs.
pub fn copy_tabs(tabs: &Vec<WorkspacePaneKind>) -> (r: Vec<WorkspacePaneKind>)
    ensures
        r@ == tabs@,
{
    let mut out: Vec<WorkspacePaneKind> = Vec::new();
    let mut k: usize = 0;
    while k < tabs.len()
        invariant
            k <= tabs@.len(),
            out@ == tabs@.subrange(0, k as int),
        decreases tabs.len() - k,
    {
        out.push(tabs[k]);
        k = k + 1;
        proof {
            assert(out@ =~= tabs@.subrange(0, k as int));
        }
    }
    proof {
        assert(out@ =~= tabs@);
    }
    out
}

/// Takes `pane` out of group `group_id`; when it was the shown tab, the first remaining tab
/// (or the score) is shown. Says whether the group is left without tabs; `false` when there
/// is no such group.
pub fn remove_pane_from_group(groups: &mut Vec<DockGroupEntry>, group_id: u64, pane: WorkspacePaneKind) -> (r: bool)
    requires
        ids_distinct(old(groups)@),
    ensures
        final(groups)@.len() == old(groups)@.len(),
        match spec_group_index(old(groups)@, group_id) {
            None => final(groups)@ == old(groups)@ && !r,
            Some(i) => {
                &&& forall|k: int|
                    0 <= k < old(groups)@.len() && k != i ==> #[trigger] final(groups)@[k] == old(
                        groups,
                    )@[k]
                &&& final(groups)@[i].id == group_id
                &&& final(groups)@[i].group.tabs@ == spec_without(old(groups)@[i].group.tabs@, pane)
                &&& final(groups)@[i].group.active == if old(groups)@[i].group.active == pane {
                    let rest = spec_without(old(groups)@[i].group.tabs@, pane);
                    if rest.len() > 0 {
                        rest[0]
                    } else {
                        WorkspacePaneKind::Score
                    }
                } else {
                    old(groups)@[i].group.active
                }
                &&& r == (spec_without(old(groups)@[i].group.tabs@, pane).len() == 0)
            },
        },
        ids_distinct(final(groups)@),
        forall|k: int, p: WorkspacePaneKind|
            0 <= k < final(groups)@.len() && #[trigger] final(groups)@[k].group.tabs@.contains(p)
                ==> old(groups)@[k].group.tabs@.contains(p),
{
    let i = match group_index(groups, group_id) {
        Some(i) => i,
        None => return false,
    };
    let tabs = tabs_without(&groups[i].group.tabs, pane);
    let active = if groups[i].group.active == pane {
        if tabs.len() > 0 {
            tabs[0]
        } else {
            WorkspacePaneKind::Score
        }
    } else {
        groups[i].group.active
    };
    let empty = tabs.len() == 0;
    groups.set(i, DockGroupEntry { id: group_id, group: DockGroup { tabs, active } });
    proof {
        assert forall|a: int, b: int| 0 <= a < b < groups@.len() implies groups@[a].id
            != groups@[b].id by {
            assert(old(groups)@[a].id != old(groups)@[b].id);
        }
    }
    empty
}

/// Adds group `id`, replacing a group with the same id.
pub fn insert_group(groups: &mut Vec<DockGroupEntry>, id: u64, group: DockGroup)
    requires
        ids_distinct(old(groups)@),
    ensures
        ids_distinct(final(groups)@),
        match spec_group_index(old(groups)@, id) {
            Some(i) => final(groups)@ == old(groups)@.update(i, DockGroupEntry { id, group }),
            None => final(groups)@ == old(groups)@.push(DockGroupEntry { id, group }),
        },
{
    match group_index(groups, id) {
        Some(i) => {
            groups.set(i, DockGroupEntry { id, group });
            proof {
                assert(old(groups)@[i as int].id == id);
                assert forall|a: int, b: int| 0 <= a < b < groups@.len() implies groups@[a].id
                    != groups@[b].id by {
                    assert(old(groups)@[a].id != old(groups)@[b].id);
                }
            }
        },
        None => {
            groups.push(DockGroupEntry { id, group });
            proof {
                let n = old(groups)@.len() as int;
                assert forall|a: int, b: int| 0 <= a < b < groups@.len() implies groups@[a].id
                    != groups@[b].id by {
                    if b < n {
                        assert(old(groups)@[a].id != old(groups)@[b].id);
                    } else {
                        assert(old(groups)@[a].id != id);
                    }
                }
            }
        },
    }
}

/// Which panes a list of groups shows after one group is replaced.
pub proof fn lemma_update_visible(g: Seq<DockGroupEntry>, i: int, e: DockGroupEntry)
    requires
        0 <= i < g.len(),
    ensures
        forall|p: WorkspacePaneKind| #[trigger] spec_visible(g.update(i, e), p) <==> (e.group.tabs@.contains(p)
            || exists|k: int| 0 <= k < g.len() && k != i && #[trigger] g[k].group.tabs@.contains(p)),
        panes_unique(g) && (forall|p: WorkspacePaneKind| #[trigger] e.group.tabs@.contains(p)
            ==> g[i].group.tabs@.contains(p) || !spec_visible(g, p)) ==> panes_unique(
            g.update(i, e),
        ),
{
    let h = g.update(i, e);
    assert forall|p: WorkspacePaneKind| #[trigger] spec_visible(h, p) <==> (e.group.tabs@.contains(p)
        || exists|k: int| 0 <= k < g.len() && k != i && #[trigger] g[k].group.tabs@.contains(p)) by {
        if spec_visible(h, p) {
            let k = choose|k: int| 0 <= k < h.len() && #[trigger] h[k].group.tabs@.contains(p);
            if k != i {
                assert(g[k].group.tabs@.contains(p));
            }
        }
        if exists|k: int| 0 <= k < g.len() && k != i && #[trigger] g[k].group.tabs@.contains(p) {
            let k = choose|k: int| 0 <= k < g.len() && k != i && #[trigger] g[k].group.tabs@.contains(p);
            assert(h[k].group.tabs@.contains(p));
        }
        if e.group.tabs@.contains(p) {
            assert(h[i].group.tabs@.contains(p));
        }
    }
    if panes_unique(g) && (forall|p: WorkspacePaneKind| #[trigger] e.group.tabs@.contains(p)
        ==> g[i].group.tabs@.contains(p) || !spec_visible(g, p)) {
        assert forall|x: int, y: int, p: WorkspacePaneKind|
            0 <= x < h.len() && 0 <= y < h.len() && x != y
                && #[trigger] h[x].group.tabs@.contains(p) implies !(
            #[trigger] h[y].group.tabs@.contains(p)) by {
            if h[y].group.tabs@.contains(p) {
                if x == i {
                    assert(g[y].group.tabs@.contains(p));
                    assert(e.group.tabs@.contains(p));
                    if g[i].group.tabs@.contains(p) {
                    } else {
                        assert(spec_visible(g, p));
                    }
                } else if y == i {
                    assert(g[x].group.tabs@.contains(p));
                    assert(e.group.tabs@.contains(p));
                    if g[i].group.tabs@.contains(p) {
                    } else {
                        assert(spec_visible(g, p));
                    }
                } else {
                    assert(g[x].group.tabs@.contains(p));
                    assert(g[y].group.tabs@.contains(p));
                }
            }
        }
    }
}

/// Which panes a list of groups shows after a group is added.
pub proof fn lemma_push_visible(g: Seq<DockGroupEntry>, e: DockGroupEntry)
    ensures
        forall|p: WorkspacePaneKind| #[trigger] spec_visible(g.push(e), p) <==> (e.group.tabs@.contains(p)
            || spec_visible(g, p)),
        panes_unique(g) && (forall|p: WorkspacePaneKind| #[trigger] e.group.tabs@.contains(p)
            ==> !spec_visible(g, p)) ==> panes_unique(g.push(e)),
{
    let h = g.push(e);
    let n = g.len() as int;
    assert forall|p: WorkspacePaneKind| #[trigger] spec_visible(h, p) <==> (e.group.tabs@.contains(p)
        || spec_visible(g, p)) by {
        if spec_visible(h, p) {
            let k = choose|k: int| 0 <= k < h.len() && #[trigger] h[k].group.tabs@.contains(p);
            if k < n {
                assert(g[k].group.tabs@.contains(p));
            }
        }
        if spec_visible(g, p) {
            let k = choose|k: int| 0 <= k < g.len() && #[trigger] g[k].group.tabs@.contains(p);
            assert(h[k].group.tabs@.contains(p));
        }
        if e.group.tabs@.contains(p) {
            assert(h[n].group.tabs@.contains(p));
        }
    }
    if panes_unique(g) && (forall|p: WorkspacePaneKind| #[trigger] e.group.tabs@.contains(p)
        ==> !spec_visible(g, p)) {
        assert forall|x: int, y: int, p: WorkspacePaneKind|
            0 <= x < h.len() && 0 <= y < h.len() && x != y
                && #[trigger] h[x].group.tabs@.contains(p) implies !(
            #[trigger] h[y].group.tabs@.contains(p)) by {
            if h[y].group.tabs@.contains(p) {
                if x == n {
                    assert(g[y].group.tabs@.contains(p));
                } else if y == n {
                    assert(g[x].group.tabs@.contains(p));
                } else {
                    assert(g[x].group.tabs@.contains(p));
                }
            }
        }
    }
}

/// Which panes a list of groups shows after a group is removed.
pub proof fn lemma_remove_visible(g: Seq<DockGroupEntry>, i: int)
    requires
        0 <= i < g.len(),
    ensures
        forall|p: WorkspacePaneKind| #[trigger] spec_visible(g.remove(i), p) <==> exists|k: int|
            0 <= k < g.len() && k != i && #[trigger] g[k].group.tabs@.contains(p),
        panes_unique(g) ==> panes_unique(g.remove(i)),
        ids_distinct(g) ==> ids_distinct(g.remove(i)),
{
    let h = g.remove(i);
    assert forall|p: WorkspacePaneKind| #[trigger] spec_visible(h, p) <==> exists|k: int|
        0 <= k < g.len() && k != i && #[trigger] g[k].group.tabs@.contains(p) by {
        if spec_visible(h, p) {
            let k = choose|k: int| 0 <= k < h.len() && #[trigger] h[k].group.tabs@.contains(p);
            let k1 = if k < i { k } else { k + 1 };
            assert(g[k1].group.tabs@.contains(p));
        }
        if exists|k: int| 0 <= k < g.len() && k != i && #[trigger] g[k].group.tabs@.contains(p) {
            let k = choose|k: int| 0 <= k < g.len() && k != i && #[trigger] g[k].group.tabs@.contains(p);
            let k1 = if k < i { k } else { k - 1 };
            assert(h[k1].group.tabs@.contains(p));
        }
    }
    if panes_unique(g) {
        assert forall|x: int, y: int, p: WorkspacePaneKind|
            0 <= x < h.len() && 0 <= y < h.len() && x != y
                && #[trigger] h[x].group.tabs@.contains(p) implies !(
            #[trigger] h[y].group.tabs@.contains(p)) by {
            let x1 = if x < i { x } else { x + 1 };
            let y1 = if y < i { y } else { y + 1 };
            assert(g[x1].group.tabs@.contains(p));
            if h[y].group.tabs@.contains(p) {
                assert(g[y1].group.tabs@.contains(p));
            }
        }
    }
    if ids_distinct(g) {
        assert forall|x: int, y: int| 0 <= x < y < h.len() implies h[x].id != h[y].id by {
            let x1 = if x < i { x } else { x + 1 };
            let y1 = if y < i { y } else { y + 1 };
            assert(g[x1].id != g[y1].id);
        }
    }
}

/// The tabs without `pane` hold exactly the other tabs.
pub proof fn lemma_without_contains(tabs: Seq<WorkspacePaneKind>, pane: WorkspacePaneKind)
    ensures
        forall|p: WorkspacePaneKind| #[trigger] spec_without(tabs, pane).contains(p) <==> (tabs.contains(p)
            && p != pane),
{
    let f = not_pane(pane);
    #[allow(deprecated)]
    tabs.filter_lemma(f);
    assert forall|p: WorkspacePaneKind| #[trigger] spec_without(tabs, pane).contains(p) <==> (tabs.contains(p)
        && p != pane) by {
        if tabs.contains(p) && p != pane {
            let i = choose|i: int| 0 <= i < tabs.len() && tabs[i] == p;
            tabs.lemma_filter_contains(f, i);
        }
        if spec_without(tabs, pane).contains(p) {
            tabs.lemma_filter_contains_rev(f, p);
            let i = choose|i: int| 0 <= i < spec_without(tabs, pane).len() && spec_without(tabs, pane)[i] == p;
            assert(f(spec_without(tabs, pane)[i]));
        }
    }
}

/// Removes group `id`, if there is one.
pub fn remove_group(groups: &mut Vec<DockGroupEntry>, id: u64)
    requires
        ids_distinct(old(groups)@),
    ensures
        ids_distinct(final(groups)@),
        spec_group_index(final(groups)@, id) is None,
        match spec_group_index(old(groups)@, id) {
            Some(i) => final(groups)@ == old(groups)@.remove(i),
            None => final(groups)@ == old(groups)@,
        },
{
    match group_index(groups, id) {
        Some(i) => {
            groups.remove(i);
            proof {
                assert forall|a: int, b: int| 0 <= a < b < groups@.len() implies groups@[a].id
                    != groups@[b].id by {
                    let a1 = if a < i { a } else { a + 1 };
                    let b1 = if b < i { b } else { b + 1 };
                    assert(old(groups)@[a1].id != old(groups)@[b1].id);
                }
                if exists|c: int| 0 <= c < groups@.len() && groups@[c].id == id {
                    let c = choose|c: int| 0 <= c < groups@.len() && groups@[c].id == id;
                    let c1 = if c < i { c } else { c + 1 };
                    assert(old(groups)@[c1].id == id);
                    assert(old(groups)@[i as int].id == id);
                }
            }
        },
        None => {},
    }
}

/// How a folded pane comes back.
#[derive(Debug, Clone)]
pub enum FoldedPaneRestore {
    /// As a tab beside `anchor`.
    Tab { anchor: WorkspacePaneKind },
    /// In a group of its own, or beside the leftmost group.
    Standalone,
    /// Split off the subtree that held `sibling_panes` (or the group of `anchor`).
    Split {
        anchor: WorkspacePaneKind,
        axis: DockAxis,
        ratio_bits: u32,
        insert_first: bool,
        sibling_panes: Vec<WorkspacePaneKind>,
    },
}

/// A folded pane and how it comes back.
#[derive(Debug, Clone)]
pub struct FoldedPaneState {
    pub pane: WorkspacePaneKind,
    pub restore: FoldedPaneRestore,
}

/// The sections of the project menu.
#[derive(Debug, Clone, Copy, PartialEq, Eq, Structural)]
pub enum ProjectMenuSection {
    Project,
    View,
}

/// The sections of the editor's header menu.
#[derive(Debug, Clone, Copy, PartialEq, Eq, Structural)]
pub enum EditorHeaderMenuSection {
    File,
    View,
}

/// The submenus of the editor's File menu.
#[derive(Debug, Clone, Copy, PartialEq, Eq, Structural)]
pub enum EditorFileMenuSection {
    OpenRecent,
}

/// Where over a group a dragged pane is dropped.
#[derive(Debug, Clone, Copy, PartialEq, Eq, Structural)]
pub enum DockDropRegion {
    Center,
    Top,
    Bottom,
    Left,
    Right,
}

/// The group and region a dragged pane would be dropped on.
#[derive(Debug, Clone, Copy, PartialEq, Eq, Structural)]
pub struct DockDropTarget {
    pub group_id: u64,
    pub region: DockDropRegion,
}

/// The open header menus.
#[derive(Debug, Clone, Copy, PartialEq, Eq, Structural)]
pub struct MenuState {
    pub open_project_menu: bool,
    pub open_project_menu_section: Option<ProjectMenuSection>,
    pub open_project_recent: bool,
    pub open_header_overflow_menu: Option<u64>,
    pub open_editor_menu_section: Option<EditorHeaderMenuSection>,
    pub open_editor_file_menu_section: Option<EditorFileMenuSection>,
    pub hovered_editor_file_menu_section: Option<EditorFileMenuSection>,
}

/// A message from the workspace's panes, tabs and header menus.
#[derive(Debug, Clone)]
pub enum PaneMessage {
    WorkspaceTabPressed(WorkspacePaneKind),
    FocusWorkspacePane(WorkspacePaneKind),
    WorkspaceTabHovered(Option<WorkspacePaneKind>),
    OpenHeaderOverflowMenu(u64),
    SetEditorHeaderMenuSection(Option<EditorHeaderMenuSection>),
    HoverEditorFileMenuSection { section: Option<EditorFileMenuSection>, expanded: bool },
    CloseHeaderOverflowMenu,
    ToggleProjectMenu,
    CloseProjectMenu,
    SetProjectRecentOpen(bool),
    SetProjectMenuSection(Option<ProjectMenuSection>),
    TooltipHovered(Option<String>),
    ToggleWorkspacePane(WorkspacePaneKind),
    WorkspaceDragReleased,
    WorkspaceDragExited,
}

/// What the caller does after a pane message: save the settings, and restore the view state
/// of a pane that was shown again.
#[derive(Debug, Clone, Copy, PartialEq, Eq, Structural)]
pub struct PaneOutcome {
    pub persist_settings: bool,
    pub restore_view_of: Option<WorkspacePaneKind>,
    pub reset_drag_origin: bool,
}

/// The workspace's panes and menus.
#[derive(Debug)]
pub struct Workspace {
    pub dock_layout: Option<DockNode>,
    pub dock_groups: Vec<DockGroupEntry>,
    pub next_dock_group_id: u64,
    pub folded_panes: Vec<FoldedPaneState>,
    pub focused_workspace_pane: Option<WorkspacePaneKind>,
    pub editor_file_browser_focused: bool,
    pub hovered_workspace_pane: Option<WorkspacePaneKind>,
    pub pressed_workspace_pane: Option<WorkspacePaneKind>,
    pub dragged_workspace_pane: Option<WorkspacePaneKind>,
    pub dock_drop_target: Option<DockDropTarget>,
    pub piano_roll_visible: bool,
    pub menus: MenuState,
    pub hovered_tooltip_key: Option<String>,
    pub open_tooltip_key: Option<String>,
}

/// Whether `p` is folded.
pub open spec fn spec_is_folded(folded: Seq<FoldedPaneState>, p: WorkspacePaneKind) -> bool {
    exists|k: int| 0 <= k < folded.len() && #[trigger] folded[k].pane == p
}

impl Workspace {
    /// Group ids are distinct, no pane is shown twice, no pane is folded twice, and no folded
    /// pane is shown.
    pub open spec fn wf(&self) -> bool {
        &&& ids_distinct(self.dock_groups@)
        &&& panes_unique(self.dock_groups@)
        &&& forall|a: int, b: int|
            0 <= a < b < self.folded_panes@.len() ==> self.folded_panes@[a].pane
                != self.folded_panes@[b].pane
        &&& forall|k: int|
            0 <= k < self.folded_panes@.len() ==> !spec_visible(
                self.dock_groups@,
                #[trigger] self.folded_panes@[k].pane,
            )
    }

    /// Whether `pane` is shown.
    #[verifier::inline]
    pub open spec fn visible(&self, pane: WorkspacePaneKind) -> bool {
        spec_visible(self.dock_groups@, pane)
    }

    /// The group that shows `pane`, if any.
    pub fn group_for_pane(&self, pane: WorkspacePaneKind) -> (r: Option<u64>)
        requires
            panes_unique(self.dock_groups@),
        ensures
            r == spec_group_for_pane(self.dock_groups@, pane),
    {
        match pane_group_position(&self.dock_groups, pane) {
            Some(i) => Some(self.dock_groups[i].id),
            None => None,
        }
    }

    /// The focused pane, when it is shown.
    pub fn focused_workspace_pane(&self) -> (r: Option<WorkspacePaneKind>)
        ensures
            r == match self.focused_workspace_pane {
                Some(p) => if self.visible(p) {
                    Some(p)
                } else {
                    None
                },
                None => None,
            },
    {
        match self.focused_workspace_pane {
            Some(p) => if pane_group_position(&self.dock_groups, p).is_some() {
                Some(p)
            } else {
                None
            },
            None => None,
        }
    }

    /// Whether `pane` is folded.
    pub fn is_pane_folded(&self, pane: WorkspacePaneKind) -> (r: bool)
        ensures
            r == spec_is_folded(self.folded_panes@, pane),
    {
        folded_position(&self.folded_panes, pane).is_some()
    }

    /// Focuses a shown pane; focusing a pane other than the editor also takes the focus off
    /// the editor's file browser.
    pub fn set_focused_workspace_pane(&mut self, pane: WorkspacePaneKind)
        ensures
            old(self).visible(pane) ==> final(self).focused_workspace_pane == Some(pane)
                && final(self).editor_file_browser_focused == (pane == WorkspacePaneKind::Editor
                && old(self).editor_file_browser_focused),
            !old(self).visible(pane) ==> final(self).focused_workspace_pane == old(self).focused_workspace_pane && final(self).editor_file_browser_focused == old(self).editor_file_browser_focused,
            final(self).dock_groups == old(self).dock_groups,
            final(self).dock_layout == old(self).dock_layout,
            final(self).folded_panes == old(self).folded_panes,
            final(self).next_dock_group_id == old(self).next_dock_group_id,
            final(self).hovered_workspace_pane == old(self).hovered_workspace_pane,
            final(self).pressed_workspace_pane == old(self).pressed_workspace_pane,
            final(self).dragged_workspace_pane == old(self).dragged_workspace_pane,
            final(self).dock_drop_target == old(self).dock_drop_target,
            final(self).piano_roll_visible == old(self).piano_roll_visible,
            final(self).menus == old(self).menus,
            final(self).hovered_tooltip_key == old(self).hovered_tooltip_key,
            final(self).open_tooltip_key == old(self).open_tooltip_key,
    {
        if pane_group_position(&self.dock_groups, pane).is_some() {
            if !matches!(pane, WorkspacePaneKind::Editor) {
                self.editor_file_browser_focused = false;
            }
            self.focused_workspace_pane = Some(pane);
        }
    }

    /// Whether the code editor should hold the keyboard focus: the editor pane is focused and
    /// its file browser is not.
    pub fn editor_widget_should_focus(&self) -> (r: bool)
        ensures
            r == (self.focused_workspace_pane == Some(WorkspacePaneKind::Editor)
                && !self.editor_file_browser_focused),
    {
        matches!(self.focused_workspace_pane, Some(WorkspacePaneKind::Editor))
            && !self.editor_file_browser_focused
    }

    /// Focuses the editor's file browser.
    pub fn focus_editor_file_browser(&mut self)
        ensures
            final(self).focused_workspace_pane == Some(WorkspacePaneKind::Editor),
            final(self).editor_file_browser_focused,
            final(self).dock_groups == old(self).dock_groups,
            final(self).folded_panes == old(self).folded_panes,
    {
        self.focused_workspace_pane = Some(WorkspacePaneKind::Editor);
        self.editor_file_browser_focused = true;
    }

    /// Moves the focus from the editor's file browser to its text.
    pub fn focus_editor_text_area(&mut self)
        ensures
            !final(self).editor_file_browser_focused,
            final(self).focused_workspace_pane == old(self).focused_workspace_pane,
            final(self).dock_groups == old(self).dock_groups,
            final(self).folded_panes == old(self).folded_panes,
    {
        self.editor_file_browser_focused = false;
    }

    /// Keeps a focus on a shown pane; otherwise focuses the shown tab of the leftmost group
    /// of the layout, or of the first group.
    pub fn normalize_focused_workspace_pane(&mut self)
        requires
            ids_distinct(old(self).dock_groups@),
        ensures
            final(self).focused_workspace_pane == match old(self).focused_workspace_pane {
                Some(p) if old(self).visible(p) => Some(p),
                _ => match (match old(self).dock_layout {
                    Some(layout) => spec_first_active_pane(layout, old(self).dock_groups@),
                    None => None,
                }) {
                    Some(p) => Some(p),
                    None => if old(self).dock_groups@.len() > 0 {
                        Some(old(self).dock_groups@[0].group.active)
                    } else {
                        None
                    },
                },
            },
            final(self).dock_groups == old(self).dock_groups,
            final(self).dock_layout == old(self).dock_layout,
            final(self).folded_panes == old(self).folded_panes,
            final(self).next_dock_group_id == old(self).next_dock_group_id,
            final(self).editor_file_browser_focused == old(self).editor_file_browser_focused,
            final(self).hovered_workspace_pane == old(self).hovered_workspace_pane,
            final(self).pressed_workspace_pane == old(self).pressed_workspace_pane,
            final(self).dragged_workspace_pane == old(self).dragged_workspace_pane,
            final(self).dock_drop_target == old(self).dock_drop_target,
            final(self).piano_roll_visible == old(self).piano_roll_visible,
            final(self).menus == old(self).menus,
            final(self).hovered_tooltip_key == old(self).hovered_tooltip_key,
            final(self).open_tooltip_key == old(self).open_tooltip_key,
    {
        if let Some(p) = self.focused_workspace_pane {
            if pane_group_position(&self.dock_groups, p).is_some() {
                return ;
            }
        }
        let from_layout = match &self.dock_layout {
            Some(layout) => first_active_workspace_pane(layout, &self.dock_groups),
            None => None,
        };
        self.focused_workspace_pane = match from_layout {
            Some(p) => Some(p),
            None => if self.dock_groups.len() > 0 {
                Some(self.dock_groups[0].group.active)
            } else {
                None
            },
        };
    }

    /// Shows `pane` in its group.
    pub fn set_active_workspace_pane(&mut self, pane: WorkspacePaneKind)
        requires
            old(self).wf(),
        ensures
            final(self).wf(),
            final(self).dock_groups@.len() == old(self).dock_groups@.len(),
            forall|k: int|
                0 <= k < old(self).dock_groups@.len() ==> (#[trigger] final(self).dock_groups@[k]).id
                    == old(self).dock_groups@[k].id && final(self).dock_groups@[k].group.tabs@
                    == old(self).dock_groups@[k].group.tabs@,
            old(self).visible(pane) ==> final(self).dock_groups@[showing_index(
                old(self).dock_groups@,
                pane,
            )].group.active == pane,
            forall|k: int|
                0 <= k < old(self).dock_groups@.len() && !(old(self).visible(pane) && k == showing_index(
                    old(self).dock_groups@,
                    pane,
                )) ==> (#[trigger] final(self).dock_groups@[k]).group.active == old(self).dock_groups@[k].group.active,
            !old(self).visible(pane) ==> final(self).dock_groups == old(self).dock_groups,
            final(self).dock_layout == old(self).dock_layout,
            final(self).folded_panes == old(self).folded_panes,
            final(self).next_dock_group_id == old(self).next_dock_group_id,
            final(self).focused_workspace_pane == old(self).focused_workspace_pane,
            final(self).editor_file_browser_focused == old(self).editor_file_browser_focused,
            final(self).menus == old(self).menus,
            final(self).pressed_workspace_pane == old(self).pressed_workspace_pane,
            final(self).dragged_workspace_pane == old(self).dragged_workspace_pane,
            final(self).hovered_workspace_pane == old(self).hovered_workspace_pane,
            final(self).dock_drop_target == old(self).dock_drop_target,
            final(self).piano_roll_visible == old(self).piano_roll_visible,
            final(self).hovered_tooltip_key == old(self).hovered_tooltip_key,
            final(self).open_tooltip_key == old(self).open_tooltip_key,
    {
        let i = match pane_group_position(&self.dock_groups, pane) {
            Some(i) => i,
            None => return ,
        };
        let id = self.dock_groups[i].id;
        let tabs = copy_tabs(&self.dock_groups[i].group.tabs);
        self.dock_groups.set(i, DockGroupEntry { id, group: DockGroup { tabs, active: pane } });
        proof {
            lemma_same_tabs(old(self).dock_groups@, self.dock_groups@);
        }
    }

    /// Forgets the pointer's hover, press and drag over the panes.
    pub fn clear_workspace_drag_state(&mut self)
        ensures
            final(self).hovered_workspace_pane is None,
            final(self).pressed_workspace_pane is None,
            final(self).dragged_workspace_pane is None,
            final(self).dock_drop_target is None,
            final(self).dock_groups == old(self).dock_groups,
            final(self).dock_layout == old(self).dock_layout,
            final(self).folded_panes == old(self).folded_panes,
            final(self).next_dock_group_id == old(self).next_dock_group_id,
            final(self).focused_workspace_pane == old(self).focused_workspace_pane,
            final(self).editor_file_browser_focused == old(self).editor_file_browser_focused,
            final(self).piano_roll_visible == old(self).piano_roll_visible,
            final(self).menus == old(self).menus,
            final(self).hovered_tooltip_key == old(self).hovered_tooltip_key,
            final(self).open_tooltip_key == old(self).open_tooltip_key,
    {
        self.hovered_workspace_pane = None;
        self.pressed_workspace_pane = None;
        self.dragged_workspace_pane = None;
        self.dock_drop_target = None;
    }
}

/// Two group lists with the same ids and tabs, place by place, show the same panes the same
/// way.
pub proof fn lemma_same_tabs(a: Seq<DockGroupEntry>, b: Seq<DockGroupEntry>)
    requires
        a.len() == b.len(),
        forall|k: int| 0 <= k < a.len() ==> (#[trigger] a[k]).id == b[k].id && a[k].group.tabs@
            == b[k].group.tabs@,
    ensures
        ids_distinct(a) == ids_distinct(b),
        panes_unique(a) == panes_unique(b),
        forall|p: WorkspacePaneKind| spec_visible(a, p) == spec_visible(b, p),
        panes_unique(a) ==> forall|p: WorkspacePaneKind| #[trigger] spec_group_for_pane(a, p)
            == spec_group_for_pane(b, p),
{
    assert forall|k: int, p: WorkspacePaneKind| 0 <= k < a.len() implies (#[trigger] a[k].group.tabs@.contains(p) <==> b[k].group.tabs@.contains(p)) by {
        assert(a[k].group.tabs@ == b[k].group.tabs@);
    }
    assert forall|p: WorkspacePaneKind| spec_visible(a, p) == spec_visible(b, p) by {
        if spec_visible(a, p) {
            let i = choose|i: int| 0 <= i < a.len() && #[trigger] a[i].group.tabs@.contains(p);
            assert(b[i].group.tabs@.contains(p));
        }
        if spec_visible(b, p) {
            let i = choose|i: int| 0 <= i < b.len() && #[trigger] b[i].group.tabs@.contains(p);
            assert(a[i].group.tabs@.contains(p));
        }
    }
    if ids_distinct(a) {
        assert forall|x: int, y: int| 0 <= x < y < b.len() implies b[x].id != b[y].id by {
            assert(a[x].id != a[y].id);
        }
    }
    if ids_distinct(b) {
        assert forall|x: int, y: int| 0 <= x < y < a.len() implies a[x].id != a[y].id by {
            assert(b[x].id != b[y].id);
        }
    }
    if panes_unique(a) {
        assert forall|x: int, y: int, p: WorkspacePaneKind|
            0 <= x < b.len() && 0 <= y < b.len() && x != y
                && #[trigger] b[x].group.tabs@.contains(p) implies !(
            #[trigger] b[y].group.tabs@.contains(p)) by {
            assert(a[x].group.tabs@.contains(p));
            if b[y].group.tabs@.contains(p) {
                assert(a[y].group.tabs@.contains(p));
            }
        }
        assert forall|p: WorkspacePaneKind| #[trigger] spec_group_for_pane(a, p) == spec_group_for_pane(b, p) by {
            if spec_visible(a, p) {
                let ia = showing_index(a, p);
                let ib = showing_index(b, p);
                assert(0 <= ia < a.len() && a[ia].group.tabs@.contains(p));
                assert(0 <= ib < b.len() && b[ib].group.tabs@.contains(p));
                assert(a[ib].group.tabs@.contains(p));
                assert(ia == ib);
            }
        }
    }
    if panes_unique(b) {
        assert forall|x: int, y: int, p: WorkspacePaneKind|
            0 <= x < a.len() && 0 <= y < a.len() && x != y
                && #[trigger] a[x].group.tabs@.contains(p) implies !(
            #[trigger] a[y].group.tabs@.contains(p)) by {
            assert(b[x].group.tabs@.contains(p));
            if a[y].group.tabs@.contains(p) {
                assert(b[y].group.tabs@.contains(p));
            }
        }
    }
}

/// Whether folding `pane` goes ahead: it is shown and not folded, and when its group has
/// other tabs one of them differs from it.
pub open spec fn spec_can_fold(ws: Workspace, pane: WorkspacePaneKind) -> bool {
    &&& !spec_is_folded(ws.folded_panes@, pane)
    &&& ws.visible(pane)
    &&& ({
        let tabs = ws.dock_groups@[showing_index(ws.dock_groups@, pane)].group.tabs@;
        tabs.len() > 1 ==> exists|j: int| 0 <= j < tabs.len() && tabs[j] != pane
    })
}

/// The number of tabs of the group that shows `pane`.
pub open spec fn spec_group_size(ws: Workspace, pane: WorkspacePaneKind) -> nat {
    ws.dock_groups@[showing_index(ws.dock_groups@, pane)].group.tabs@.len()
}

impl Workspace {
    /// Folds a shown pane away, remembering how to bring it back: as a tab beside another tab
    /// of its group, or, when it was alone in its group, beside the sibling of the innermost
    /// split that held the group (the group leaves the layout), or on its own.
    #[verifier::rlimit(40)]
    pub fn fold_workspace_pane(&mut self, pane: WorkspacePaneKind) -> (r: bool)
        requires
            old(self).wf(),
        ensures
            final(self).wf(),
            r == spec_can_fold(*old(self), pane),
            !r ==> *final(self) == *old(self),
            r ==> spec_is_folded(final(self).folded_panes@, pane) && !final(self).visible(pane),
            r ==> forall|q: WorkspacePaneKind|
                q != pane ==> (#[trigger] final(self).visible(q) == old(self).visible(q)),
            r ==> final(self).folded_panes@.len() == old(self).folded_panes@.len() + 1
                && final(self).folded_panes@.subrange(0, old(self).folded_panes@.len() as int)
                == old(self).folded_panes@ && final(self).folded_panes@.last().pane == pane,
            r && spec_group_size(*old(self), pane) > 1 ==> (final(self).folded_panes@.last().restore matches FoldedPaneRestore::Tab { anchor } && anchor
                != pane && final(self).visible(anchor)),
            r && spec_group_size(*old(self), pane) <= 1 ==> !(final(self).folded_panes@.last().restore is Tab),
            r && (spec_group_size(*old(self), pane) > 1 || final(self).folded_panes@.last().restore is Standalone)
                ==> spec_unfold_guaranteed(*final(self), pane),
            r ==> final(self).piano_roll_visible == (old(self).piano_roll_visible && pane
                != WorkspacePaneKind::PianoRoll),
            r ==> final(self).dragged_workspace_pane is None && final(self).pressed_workspace_pane is None
                && final(self).dock_drop_target is None && final(self).hovered_workspace_pane is None,
            r && old(self).focused_workspace_pane is Some && old(self).focused_workspace_pane
                != Some(pane) && old(self).visible(old(self).focused_workspace_pane->0)
                ==> final(self).focused_workspace_pane == old(self).focused_workspace_pane,
            final(self).menus == old(self).menus,
            final(self).next_dock_group_id == old(self).next_dock_group_id,
            final(self).editor_file_browser_focused == old(self).editor_file_browser_focused,
            final(self).hovered_tooltip_key == old(self).hovered_tooltip_key,
            final(self).open_tooltip_key == old(self).open_tooltip_key,
    {
        if self.is_pane_folded(pane) {
            return false;
        }
        let gi = match pane_group_position(&self.dock_groups, pane) {
            Some(i) => i,
            None => return false,
        };
        let ghost g0 = self.dock_groups@;
        let group_id = self.dock_groups[gi].id;
        proof {
            assert(spec_group_index(g0, group_id) == Some(gi as int)) by {
                let c = choose|c: int| 0 <= c < g0.len() && g0[c].id == group_id;
                if c != gi {
                    assert(g0[c].id != g0[gi as int].id);
                }
            }
        }
        let restore = if self.dock_groups[gi].group.tabs.len() > 1 {
            let anchor = match first_other_tab(&self.dock_groups[gi].group.tabs, pane) {
                Some(a) => a,
                None => return false,
            };
            let _ = remove_pane_from_group(&mut self.dock_groups, group_id, pane);
            proof {
                let e = self.dock_groups@[gi as int];
                assert(self.dock_groups@ =~= g0.update(gi as int, e));
                lemma_fold_tab_groups(g0, gi as int, e, pane);
                lemma_without_contains(g0[gi as int].group.tabs@, pane);
                assert(e.group.tabs@.contains(anchor));
                assert(spec_visible(self.dock_groups@, anchor));
            }
            FoldedPaneRestore::Tab { anchor }
        } else {
            remove_group(&mut self.dock_groups, group_id);
            proof {
                lemma_fold_lone_groups(g0, gi as int, pane);
            }
            let target = match &self.dock_layout {
                Some(layout) => split_restore_target_for_group(layout, group_id, &self.dock_groups),
                None => None,
            };
            match target {
                Some((axis, ratio_bits, insert_first, anchor, sibling_panes)) => {
                    let layout = match self.dock_layout.take() {
                        Some(l) => l,
                        None => DockNode::Group(group_id),
                    };
                    self.dock_layout = Some(prune_group_from_layout(layout, group_id));
                    FoldedPaneRestore::Split { anchor, axis, ratio_bits, insert_first, sibling_panes }
                },
                None => {
                    self.dock_layout = None;
                    FoldedPaneRestore::Standalone
                },
            }
        };
        self.folded_panes.push(FoldedPaneState { pane, restore });
        if matches!(pane, WorkspacePaneKind::PianoRoll) {
            self.piano_roll_visible = false;
        }
        self.clear_workspace_drag_state();
        self.normalize_focused_workspace_pane();
        proof {
            let n = old(self).folded_panes@.len() as int;
            assert(self.folded_panes@ == old(self).folded_panes@.push(self.folded_panes@[n]));
            lemma_push_folded_wf(old(self).folded_panes@, self.folded_panes@[n], g0, self.dock_groups@, pane);
            assert(self.folded_panes@.subrange(0, n) =~= old(self).folded_panes@);
            let k = folded_index(self.folded_panes@, pane);
            assert(0 <= k < self.folded_panes@.len() && self.folded_panes@[k].pane == pane);
            if k != n {
                assert(self.folded_panes@[k].pane != self.folded_panes@[n].pane);
            }
        }
        true
    }
}

/// Where the folded entry of `pane` stands (the only one in a well-formed workspace).
pub open spec fn folded_index(folded: Seq<FoldedPaneState>, pane: WorkspacePaneKind) -> int {
    choose|k: int| 0 <= k < folded.len() && #[trigger] folded[k].pane == pane
}

/// The leftmost group of the layout, if there is a layout.
pub open spec fn spec_first_layout_group(ws: Workspace) -> Option<u64> {
    match ws.dock_layout {
        Some(l) => Some(spec_first_group_id(l)),
        None => None,
    }
}

/// A pane whose saved place is gone can still be brought back: there are no groups (it then
/// gets one of its own), or the layout's leftmost group exists and is not the id the next new
/// group takes.
pub open spec fn spec_fallback_ready(ws: Workspace) -> bool {
    ||| ws.dock_groups@.len() == 0
    ||| spec_first_layout_group(ws) matches Some(f) && spec_group_index(ws.dock_groups@, f) is Some
        && f != ws.next_dock_group_id
}

/// The place `pane` was folded from is still there: the pane it was a tab beside is shown, it
/// came back on its own, or the split it was taken from can be made again.
pub open spec fn spec_saved_restore_applies(ws: Workspace, pane: WorkspacePaneKind) -> bool {
    match ws.folded_panes@[folded_index(ws.folded_panes@, pane)].restore {
        FoldedPaneRestore::Tab { anchor } => ws.visible(anchor),
        FoldedPaneRestore::Standalone => true,
        FoldedPaneRestore::Split { anchor, axis, ratio_bits, insert_first, sibling_panes } => spec_split_restore(
            ws.dock_layout,
            restored_groups(ws.dock_groups@, ws.next_dock_group_id, pane),
            ws.next_dock_group_id,
            anchor,
            axis,
            ratio_bits,
            insert_first,
            sibling_panes@,
        ) is Some,
    }
}

/// Unfolding `pane` is sure to show it again: it is folded to come back as a tab beside a
/// pane that is shown, or on its own; or else the fallback can place it.
pub open spec fn spec_unfold_guaranteed(ws: Workspace, pane: WorkspacePaneKind) -> bool {
    &&& spec_is_folded(ws.folded_panes@, pane)
    &&& (match ws.folded_panes@[folded_index(ws.folded_panes@, pane)].restore {
        FoldedPaneRestore::Tab { anchor } => ws.visible(anchor),
        FoldedPaneRestore::Standalone => true,
        FoldedPaneRestore::Split { .. } => false,
    } || spec_fallback_ready(ws))
}

/// Where the fallback puts `pane` when its saved place is gone: with no groups, in a group of
/// its own that is the whole layout; else as the last and shown tab of the layout's leftmost
/// group.
pub open spec fn spec_fallback_placement(old: Workspace, new: Workspace, pane: WorkspacePaneKind) -> bool {
    if old.dock_groups@.len() == 0 {
        &&& new.dock_groups@.len() == 1
        &&& new.dock_groups@[0].group.tabs@ == seq![pane]
        &&& new.dock_groups@[0].group.active == pane
        &&& new.dock_layout == Some(DockNode::Group(new.dock_groups@[0].id))
    } else {
        let f = spec_first_layout_group(old)->0;
        &&& spec_group_tabs(new.dock_groups@, f) == Some(spec_group_tabs(old.dock_groups@, f)->0.push(pane))
        &&& spec_group_active(new.dock_groups@, f) == Some(pane)
    }
}

/// What unfolding `pane` from `old` to `new` with result `r` guarantees.
pub open spec fn spec_unfold_outcome(old: Workspace, new: Workspace, pane: WorkspacePaneKind, r: bool) -> bool {
    &&& new.wf()
    &&& !spec_is_folded(old.folded_panes@, pane) ==> !r && new == old
    &&& r ==> new.visible(pane) && !spec_is_folded(new.folded_panes@, pane)
        && new.focused_workspace_pane == Some(pane)
    &&& spec_unfold_guaranteed(old, pane) ==> r
    &&& spec_is_folded(old.folded_panes@, pane) && !spec_saved_restore_applies(old, pane)
        && spec_fallback_ready(old) ==> spec_fallback_placement(old, new, pane)
    &&& forall|q: WorkspacePaneKind| q != pane && #[trigger] new.visible(q) ==> old.visible(q)
    &&& r ==> new.piano_roll_visible == (old.piano_roll_visible || pane
        == WorkspacePaneKind::PianoRoll)
    &&& new.menus == old.menus
}

impl Workspace {
    /// Brings `pane` back as the shown tab of the group that shows `anchor`; fails, changing
    /// nothing, when `anchor` is not shown.
    pub fn restore_folded_pane_as_tab(&mut self, pane: WorkspacePaneKind, anchor: WorkspacePaneKind) -> (r: bool)
        requires
            ids_distinct(old(self).dock_groups@),
            panes_unique(old(self).dock_groups@),
            !old(self).visible(pane),
        ensures
            ids_distinct(final(self).dock_groups@),
            panes_unique(final(self).dock_groups@),
            r == old(self).visible(anchor),
            r ==> final(self).visible(pane),
            !r ==> final(self).dock_groups@ == old(self).dock_groups@,
            forall|q: WorkspacePaneKind| q != pane ==> (#[trigger] final(self).visible(q) == old(self).visible(q)),
            final(self).dock_layout == old(self).dock_layout,
            final(self).folded_panes == old(self).folded_panes,
            final(self).next_dock_group_id == old(self).next_dock_group_id,
            final(self).focused_workspace_pane == old(self).focused_workspace_pane,
            final(self).editor_file_browser_focused == old(self).editor_file_browser_focused,
            final(self).piano_roll_visible == old(self).piano_roll_visible,
            final(self).menus == old(self).menus,
    {
        let gi = match pane_group_position(&self.dock_groups, anchor) {
            Some(i) => i,
            None => return false,
        };
        self.push_tab_at(gi, pane);
        true
    }

    /// Makes `pane`, which no group shows, the last and shown tab of the group at `gi`.
    pub fn push_tab_at(&mut self, gi: usize, pane: WorkspacePaneKind)
        requires
            ids_distinct(old(self).dock_groups@),
            panes_unique(old(self).dock_groups@),
            !old(self).visible(pane),
            gi < old(self).dock_groups@.len(),
        ensures
            ids_distinct(final(self).dock_groups@),
            panes_unique(final(self).dock_groups@),
            final(self).visible(pane),
            final(self).dock_groups@.len() == old(self).dock_groups@.len(),
            final(self).dock_groups@[gi as int].id == old(self).dock_groups@[gi as int].id,
            final(self).dock_groups@[gi as int].group.active == pane,
            final(self).dock_groups@[gi as int].group.tabs@ == spec_without(old(self).dock_groups@[gi as int].group.tabs@, pane).push(pane),
            forall|k: int| 0 <= k < old(self).dock_groups@.len() && k != gi ==> #[trigger] final(self).dock_groups@[k] == old(self).dock_groups@[k],
            forall|q: WorkspacePaneKind| q != pane ==> (#[trigger] final(self).visible(q) == old(self).visible(q)),
            final(self).dock_layout == old(self).dock_layout,
            final(self).folded_panes == old(self).folded_panes,
            final(self).next_dock_group_id == old(self).next_dock_group_id,
            final(self).focused_workspace_pane == old(self).focused_workspace_pane,
            final(self).editor_file_browser_focused == old(self).editor_file_browser_focused,
            final(self).piano_roll_visible == old(self).piano_roll_visible,
            final(self).menus == old(self).menus,
    {
        let ghost g0 = self.dock_groups@;
        let id = self.dock_groups[gi].id;
        let mut tabs = tabs_without(&self.dock_groups[gi].group.tabs, pane);
        tabs.push(pane);
        let e = DockGroupEntry { id, group: DockGroup { tabs, active: pane } };
        proof {
            lemma_without_contains(g0[gi as int].group.tabs@, pane);
            assert forall|p: WorkspacePaneKind| #[trigger] e.group.tabs@.contains(p) <==> (g0[gi as int].group.tabs@.contains(p) || p == pane) by {
                if e.group.tabs@.contains(p) && p != pane {
                    let k = choose|k: int| 0 <= k < e.group.tabs@.len() && e.group.tabs@[k] == p;
                    assert(spec_without(g0[gi as int].group.tabs@, pane).contains(p));
                }
                if g0[gi as int].group.tabs@.contains(p) && p != pane {
                    assert(spec_without(g0[gi as int].group.tabs@, pane).contains(p));
                    let k = choose|k: int| 0 <= k < spec_without(g0[gi as int].group.tabs@, pane).len() && spec_without(g0[gi as int].group.tabs@, pane)[k] == p;
                    assert(e.group.tabs@[k] == p);
                }
                if p == pane {
                    assert(e.group.tabs@[e.group.tabs@.len() - 1] == pane);
                }
            }
            if g0[gi as int].group.tabs@.contains(pane) {
                assert(spec_visible(g0, pane));
            }
            lemma_update_visible(g0, gi as int, e);
        }
        self.dock_groups.set(gi, e);
        proof {
            assert(self.dock_groups@ == g0.update(gi as int, e));
            assert forall|a: int, b: int| 0 <= a < b < self.dock_groups@.len() implies self.dock_groups@[a].id
                != self.dock_groups@[b].id by {
                assert(g0[a].id != g0[b].id);
            }
            assert(e.group.tabs@.contains(pane));
            assert forall|q: WorkspacePaneKind| q != pane implies (#[trigger] spec_visible(self.dock_groups@, q) == spec_visible(g0, q)) by {
                if spec_visible(g0, q) {
                    let k = choose|k: int| 0 <= k < g0.len() && #[trigger] g0[k].group.tabs@.contains(q);
                    if k == gi {
                        assert(e.group.tabs@.contains(q));
                    }
                }
                if spec_visible(self.dock_groups@, q) {
                    if !e.group.tabs@.contains(q) {
                        let k = choose|k: int| 0 <= k < g0.len() && k != gi && #[trigger] g0[k].group.tabs@.contains(q);
                    }
                }
            }
        }
    }

    /// Brings `pane` back as the shown tab of the leftmost group of the layout, or else in a
    /// new group that becomes the whole layout.
    pub fn restore_folded_pane_as_standalone(&mut self, pane: WorkspacePaneKind) -> (r: bool)
        requires
            ids_distinct(old(self).dock_groups@),
            panes_unique(old(self).dock_groups@),
            !old(self).visible(pane),
        ensures
            r,
            ids_distinct(final(self).dock_groups@),
            panes_unique(final(self).dock_groups@),
            final(self).visible(pane),
            old(self).dock_groups@.len() == 0 ==> final(self).dock_groups@.len() == 1
                && final(self).dock_groups@[0].group.tabs@ == seq![pane]
                && final(self).dock_groups@[0].group.active == pane
                && final(self).dock_layout == Some(DockNode::Group(final(self).dock_groups@[0].id)),
            forall|q: WorkspacePaneKind| q != pane && #[trigger] final(self).visible(q) ==> old(self).visible(q),
            final(self).folded_panes == old(self).folded_panes,
            final(self).focused_workspace_pane == old(self).focused_workspace_pane,
            final(self).editor_file_browser_focused == old(self).editor_file_browser_focused,
            final(self).piano_roll_visible == old(self).piano_roll_visible,
            final(self).menus == old(self).menus,
    {
        let ghost g0 = self.dock_groups@;
        let first = match &self.dock_layout {
            Some(layout) => first_group_id_in_layout(layout),
            None => None,
        };
        if let Some(gid) = first {
            if let Some(i) = group_index(&self.dock_groups, gid) {
                let id = self.dock_groups[i].id;
                let mut tabs = copy_tabs(&self.dock_groups[i].group.tabs);
                tabs.push(pane);
                let e = DockGroupEntry { id, group: DockGroup { tabs, active: pane } };
                proof {
                    assert forall|p: WorkspacePaneKind| #[trigger] e.group.tabs@.contains(p) implies g0[i as int].group.tabs@.contains(p) || !spec_visible(g0, p) by {
                        if e.group.tabs@.contains(p) && p != pane {
                            let k = choose|k: int| 0 <= k < e.group.tabs@.len() && e.group.tabs@[k] == p;
                            assert(g0[i as int].group.tabs@[k] == p);
                        }
                    }
                    lemma_update_visible(g0, i as int, e);
                    assert(e.group.tabs@[e.group.tabs@.len() - 1] == pane);
                }
                self.dock_groups.set(i, e);
                proof {
                    assert(self.dock_groups@ == g0.update(i as int, e));
                    assert forall|a: int, b: int| 0 <= a < b < self.dock_groups@.len() implies self.dock_groups@[a].id
                        != self.dock_groups@[b].id by {
                        assert(g0[a].id != g0[b].id);
                    }
                    assert forall|q: WorkspacePaneKind| q != pane && #[trigger] spec_visible(self.dock_groups@, q) implies spec_visible(g0, q) by {
                        if e.group.tabs@.contains(q) {
                            let k = choose|k: int| 0 <= k < e.group.tabs@.len() && e.group.tabs@[k] == q;
                            assert(g0[i as int].group.tabs@[k] == q);
                            assert(g0[i as int].group.tabs@.contains(q));
                        } else {
                            let k = choose|k: int| 0 <= k < g0.len() && k != i && #[trigger] g0[k].group.tabs@.contains(q);
                        }
                    }
                }
                return true;
            }
        }
        let new_id = self.next_dock_group_id;
        self.next_dock_group_id = self.next_dock_group_id.saturating_add(1);
        self.insert_single_pane_group(new_id, pane);
        self.dock_layout = Some(DockNode::Group(new_id));
        proof {
            if g0.len() == 0 {
                assert(spec_group_index(g0, new_id) is None);
            }
        }
        true
    }

    /// Adds group `new_id` showing only `pane`, which no group showed.
    fn insert_single_pane_group(&mut self, new_id: u64, pane: WorkspacePaneKind)
        requires
            ids_distinct(old(self).dock_groups@),
            panes_unique(old(self).dock_groups@),
            !spec_visible(old(self).dock_groups@, pane),
        ensures
            ids_distinct(final(self).dock_groups@),
            panes_unique(final(self).dock_groups@),
            spec_visible(final(self).dock_groups@, pane),
            spec_group_index(final(self).dock_groups@, new_id) matches Some(i)
                && final(self).dock_groups@[i].group.tabs@ == seq![pane],
            groups_after_restore(old(self).dock_groups@, new_id, pane, final(self).dock_groups@),
            forall|q: WorkspacePaneKind| q != pane && #[trigger] spec_visible(final(self).dock_groups@, q) ==> spec_visible(old(self).dock_groups@, q),
            final(self).dock_layout == old(self).dock_layout,
            final(self).next_dock_group_id == old(self).next_dock_group_id,
            final(self).folded_panes == old(self).folded_panes,
            final(self).focused_workspace_pane == old(self).focused_workspace_pane,
            final(self).editor_file_browser_focused == old(self).editor_file_browser_focused,
            final(self).piano_roll_visible == old(self).piano_roll_visible,
            final(self).menus == old(self).menus,
    {
        let ghost g0 = self.dock_groups@;
        let group = DockGroup { tabs: vec![pane], active: pane };
        let ghost e = DockGroupEntry { id: new_id, group };
        proof {
            assert(e.group.tabs@ == seq![pane]);
            assert forall|p: WorkspacePaneKind| #[trigger] e.group.tabs@.contains(p) implies p == pane by {}
            assert(e.group.tabs@[0] == pane);
            lemma_push_visible(g0, e);
            if spec_group_index(g0, new_id) is Some {
                lemma_update_visible(g0, spec_group_index(g0, new_id)->0, e);
            }
        }
        insert_group(&mut self.dock_groups, new_id, group);
        proof {
            let g1 = self.dock_groups@;
            match spec_group_index(g0, new_id) {
                Some(i) => {
                    assert(g1 == g0.update(i, e));
                    lemma_index_of_id(g1, i, new_id);
                    assert(g1[i].group.tabs@.contains(pane));
                    assert forall|q: WorkspacePaneKind| q != pane && #[trigger] spec_visible(g1, q) implies spec_visible(g0, q) by {
                        if !e.group.tabs@.contains(q) {
                            let k = choose|k: int| 0 <= k < g0.len() && k != i && #[trigger] g0[k].group.tabs@.contains(q);
                        }
                    }
                },
                None => {
                    assert(g1 == g0.push(e));
                    lemma_index_of_id(g1, g0.len() as int, new_id);
                    assert(g1[g0.len() as int].group.tabs@.contains(pane));
                },
            }
        }
    }

    /// Brings `pane` back in a new group split off the subtree that shows exactly
    /// `sibling_panes`, or else off the group that shows `anchor`; fails when neither is found
    /// (the new group is then dropped).
    pub fn restore_folded_pane_as_split(
        &mut self,
        pane: WorkspacePaneKind,
        anchor: WorkspacePaneKind,
        axis: DockAxis,
        ratio_bits: u32,
        insert_first: bool,
        sibling_panes: &Vec<WorkspacePaneKind>,
    ) -> (r: bool)
        requires
            ids_distinct(old(self).dock_groups@),
            panes_unique(old(self).dock_groups@),
            !old(self).visible(pane),
        ensures
            ids_distinct(final(self).dock_groups@),
            panes_unique(final(self).dock_groups@),
            r == final(self).visible(pane),
            forall|q: WorkspacePaneKind| q != pane && #[trigger] final(self).visible(q) ==> old(self).visible(q),
            ({
                let new_id = old(self).next_dock_group_id;
                let restored = spec_split_restore(
                    old(self).dock_layout,
                    restored_groups(old(self).dock_groups@, new_id, pane),
                    new_id,
                    anchor,
                    axis,
                    ratio_bits,
                    insert_first,
                    sibling_panes@,
                );
                &&& r == restored is Some
                &&& r ==> final(self).dock_layout == restored
                    && groups_after_restore(old(self).dock_groups@, new_id, pane, final(self).dock_groups@)
                &&& !r ==> final(self).dock_layout == old(self).dock_layout
            }),
            !r ==> forall|id: u64| id != old(self).next_dock_group_id ==> #[trigger] same_group(
                old(self).dock_groups@,
                final(self).dock_groups@,
                id,
            ),
            !r && old(self).dock_groups@.len() == 0 ==> final(self).dock_groups@.len() == 0,
            final(self).next_dock_group_id == (if old(self).next_dock_group_id == u64::MAX {
                u64::MAX
            } else {
                (old(self).next_dock_group_id + 1) as u64
            }),
            final(self).folded_panes == old(self).folded_panes,
            final(self).focused_workspace_pane == old(self).focused_workspace_pane,
            final(self).editor_file_browser_focused == old(self).editor_file_browser_focused,
            final(self).piano_roll_visible == old(self).piano_roll_visible,
            final(self).menus == old(self).menus,
    {
        let ghost g0 = self.dock_groups@;
        let ghost l0 = self.dock_layout;
        let new_id = self.next_dock_group_id;
        self.next_dock_group_id = self.next_dock_group_id.saturating_add(1);
        self.insert_single_pane_group(new_id, pane);
        let ghost g1 = self.dock_groups@;
        proof {
            lemma_restored_groups(g0, new_id, pane, g1);
            assert(spec_split_restore(l0, g1, new_id, anchor, axis, ratio_bits, insert_first, sibling_panes@)
                == spec_split_restore(
                l0,
                restored_groups(g0, new_id, pane),
                new_id,
                anchor,
                axis,
                ratio_bits,
                insert_first,
                sibling_panes@,
            ));
        }
        let layout = self.dock_layout.take();
        if let Some(l) = layout {
            let (l2, done) = replace_subtree_with_split(
                l,
                axis,
                ratio_bits,
                new_id,
                insert_first,
                sibling_panes,
                &self.dock_groups,
            );
            self.dock_layout = Some(l2);
            if done {
                return true;
            }
        }
        let gid = match self.group_for_pane(anchor) {
            Some(g) => g,
            None => {
                self.drop_restored_group(new_id, pane);
                proof {
                    lemma_split_failed_groups(g0, g1, new_id, pane);
                }
                return false;
            },
        };
        let layout = match self.dock_layout.take() {
            Some(l) => l,
            None => {
                self.drop_restored_group(new_id, pane);
                proof {
                    lemma_split_failed_groups(g0, g1, new_id, pane);
                }
                return false;
            },
        };
        let (l2, done) = replace_group_with_split(layout, gid, axis, ratio_bits, new_id, insert_first);
        self.dock_layout = Some(l2);
        if done {
            true
        } else {
            self.drop_restored_group(new_id, pane);
            proof {
                lemma_split_failed_groups(g0, g1, new_id, pane);
            }
            false
        }
    }

    /// Drops the group `new_id` that was made to show `pane` alone.
    fn drop_restored_group(&mut self, new_id: u64, pane: WorkspacePaneKind)
        requires
            ids_distinct(old(self).dock_groups@),
            panes_unique(old(self).dock_groups@),
            spec_group_index(old(self).dock_groups@, new_id) matches Some(i)
                && old(self).dock_groups@[i].group.tabs@ == seq![pane],
        ensures
            ids_distinct(final(self).dock_groups@),
            panes_unique(final(self).dock_groups@),
            !final(self).visible(pane),
            final(self).dock_groups@ == old(self).dock_groups@.remove(spec_group_index(old(self).dock_groups@, new_id)->0),
            forall|q: WorkspacePaneKind| #[trigger] final(self).visible(q) ==> old(self).visible(q),
            final(self).dock_layout == old(self).dock_layout,
            final(self).next_dock_group_id == old(self).next_dock_group_id,
            final(self).folded_panes == old(self).folded_panes,
            final(self).focused_workspace_pane == old(self).focused_workspace_pane,
            final(self).editor_file_browser_focused == old(self).editor_file_browser_focused,
            final(self).piano_roll_visible == old(self).piano_roll_visible,
            final(self).menus == old(self).menus,
    {
        let ghost g = self.dock_groups@;
        let ghost i = spec_group_index(g, new_id)->0;
        proof {
            lemma_remove_visible(g, i);
            assert(g[i].group.tabs@[0] == pane);
            assert(g[i].group.tabs@.contains(pane));
        }
        remove_group(&mut self.dock_groups, new_id);
        proof {
            assert forall|q: WorkspacePaneKind| #[trigger] spec_visible(self.dock_groups@, q) implies spec_visible(g, q) by {
                let k = choose|k: int| 0 <= k < g.len() && k != i && #[trigger] g[k].group.tabs@.contains(q);
            }
            if spec_visible(self.dock_groups@, pane) {
                let k = choose|k: int| 0 <= k < g.len() && k != i && #[trigger] g[k].group.tabs@.contains(pane);
                assert(g[i].group.tabs@.contains(pane));
            }
        }
    }

    /// Shows a folded pane again where it was folded from, falling back to the leftmost
    /// group, and focuses it. Fails when `pane` is not folded, or when it cannot be placed
    /// (its folded entry is then gone).
    pub fn unfold_workspace_pane(&mut self, pane: WorkspacePaneKind) -> (r: bool)
        requires
            old(self).wf(),
        ensures
            spec_unfold_outcome(*old(self), *final(self), pane, r),
    {
        let index = match folded_position(&self.folded_panes, pane) {
            Some(i) => i,
            None => return false,
        };
        let ghost f0 = self.folded_panes@;
        let ghost g0 = self.dock_groups@;
        let ghost w0 = *self;
        proof {
            assert(folded_index(f0, pane) == index as int) by {
                let c = folded_index(f0, pane);
                assert(0 <= c < f0.len() && f0[c].pane == pane);
                if c != index {
                    if c < index {
                        assert(f0[c].pane != f0[index as int].pane);
                    } else {
                        assert(f0[index as int].pane != f0[c].pane);
                    }
                }
            }
            assert(!spec_visible(g0, pane));
        }
        let folded = self.folded_panes.remove(index);
        proof {
            assert(folded == f0[folded_index(f0, pane)]);
        }
        let restored = match folded.restore {
            FoldedPaneRestore::Tab { anchor } => {
                let r = self.restore_folded_pane_as_tab(pane, anchor);
                proof {
                    assert(!r ==> forall|x: u64| #[trigger] same_group(g0, self.dock_groups@, x));
                }
                r
            },
            FoldedPaneRestore::Standalone => self.restore_folded_pane_as_standalone(pane),
            FoldedPaneRestore::Split { anchor, axis, ratio_bits, insert_first, sibling_panes } => {
                self.restore_folded_pane_as_split(pane, anchor, axis, ratio_bits, insert_first, &sibling_panes)
            },
        };
        let ghost gr = self.dock_groups@;
        proof {
            assert(restored == spec_saved_restore_applies(w0, pane));
            if !restored {
                assert(self.dock_layout == w0.dock_layout);
                assert(forall|x: u64| x != w0.next_dock_group_id ==> #[trigger] same_group(g0, gr, x));
                assert(g0.len() == 0 ==> gr.len() == 0);
                if spec_fallback_ready(w0) && g0.len() > 0 {
                    let f = spec_first_layout_group(w0)->0;
                    assert(same_group(g0, gr, f));
                    assert(spec_group_index(gr, f) is Some);
                }
            }
        }
        if !restored {
            if self.dock_groups.len() == 0 {
                let _ = self.restore_folded_pane_as_standalone(pane);
            } else {
                let first = match &self.dock_layout {
                    Some(layout) => first_group_id_in_layout(layout),
                    None => None,
                };
                let gid = match first {
                    Some(gid) => gid,
                    None => {
                        proof { self.lemma_folded_removed_wf(f0, g0, index as int, pane); }
                        return false;
                    },
                };
                let i = match group_index(&self.dock_groups, gid) {
                    Some(i) => i,
                    None => {
                        proof { self.lemma_folded_removed_wf(f0, g0, index as int, pane); }
                        return false;
                    },
                };
                let ghost g1 = self.dock_groups@;
                let id = self.dock_groups[i].id;
                let mut tabs = copy_tabs(&self.dock_groups[i].group.tabs);
                tabs.push(pane);
                let e = DockGroupEntry { id, group: DockGroup { tabs, active: pane } };
                proof {
                    assert forall|p: WorkspacePaneKind| #[trigger] e.group.tabs@.contains(p) implies g1[i as int].group.tabs@.contains(p) || !spec_visible(g1, p) by {
                        if e.group.tabs@.contains(p) && p != pane {
                            let k = choose|k: int| 0 <= k < e.group.tabs@.len() && e.group.tabs@[k] == p;
                            assert(g1[i as int].group.tabs@[k] == p);
                        }
                    }
                    lemma_update_visible(g1, i as int, e);
                    assert(e.group.tabs@[e.group.tabs@.len() - 1] == pane);
                }
                self.dock_groups.set(i, e);
                proof {
                    assert(self.dock_groups@ == g1.update(i as int, e));
                    assert forall|a: int, b: int| 0 <= a < b < self.dock_groups@.len() implies self.dock_groups@[a].id
                        != self.dock_groups@[b].id by {
                        assert(g1[a].id != g1[b].id);
                    }
                    assert forall|q: WorkspacePaneKind| q != pane && #[trigger] spec_visible(self.dock_groups@, q) implies spec_visible(g1, q) by {
                        if e.group.tabs@.contains(q) {
                            let k = choose|k: int| 0 <= k < e.group.tabs@.len() && e.group.tabs@[k] == q;
                            assert(g1[i as int].group.tabs@[k] == q);
                            assert(g1[i as int].group.tabs@.contains(q));
                        } else {
                            let k = choose|k: int| 0 <= k < g1.len() && k != i && #[trigger] g1[k].group.tabs@.contains(q);
                        }
                    }
                }
            }
        }
        if matches!(pane, WorkspacePaneKind::PianoRoll) {
            self.piano_roll_visible = true;
        }
        self.set_focused_workspace_pane(pane);
        proof {
            self.lemma_folded_removed_wf(f0, g0, index as int, pane);
        }
        true
    }

    /// After the folded entry of `pane` is removed and `pane` alone may have become shown,
    /// the workspace is well formed again.
    proof fn lemma_folded_removed_wf(&self, f0: Seq<FoldedPaneState>, g0: Seq<DockGroupEntry>, index: int, pane: WorkspacePaneKind)
        requires
            0 <= index < f0.len(),
            f0[index].pane == pane,
            self.folded_panes@ == f0.remove(index),
            forall|a: int, b: int| 0 <= a < b < f0.len() ==> f0[a].pane != f0[b].pane,
            forall|k: int| 0 <= k < f0.len() ==> !spec_visible(g0, #[trigger] f0[k].pane),
            ids_distinct(self.dock_groups@),
            panes_unique(self.dock_groups@),
            forall|q: WorkspacePaneKind| q != pane && #[trigger] spec_visible(self.dock_groups@, q) ==> spec_visible(g0, q),
        ensures
            self.wf(),
            !spec_is_folded(self.folded_panes@, pane),
    {
        assert forall|a: int, b: int| 0 <= a < b < self.folded_panes@.len() implies self.folded_panes@[a].pane
            != self.folded_panes@[b].pane by {
            let a1 = if a < index { a } else { a + 1 };
            let b1 = if b < index { b } else { b + 1 };
            assert(f0[a1].pane != f0[b1].pane);
        }
        assert forall|k: int| 0 <= k < self.folded_panes@.len() implies !spec_visible(
            self.dock_groups@,
            #[trigger] self.folded_panes@[k].pane,
        ) by {
            let k1 = if k < index { k } else { k + 1 };
            assert(self.folded_panes@[k] == f0[k1]);
            assert(k1 != index);
            if k1 < index {
                assert(f0[k1].pane != f0[index].pane);
            } else {
                assert(f0[index].pane != f0[k1].pane);
            }
            assert(!spec_visible(g0, f0[k1].pane));
        }
        if spec_is_folded(self.folded_panes@, pane) {
            let k = choose|k: int| 0 <= k < self.folded_panes@.len() && #[trigger] self.folded_panes@[k].pane == pane;
            let k1 = if k < index { k } else { k + 1 };
            if k1 < index {
                assert(f0[k1].pane != f0[index].pane);
            } else {
                assert(f0[index].pane != f0[k1].pane);
            }
        }
    }
}

/// Whether dropping `dragged` on `target` changes the layout: the pane is shown, the target
/// group exists, and a drop on an edge does not split a group from its only tab.
pub open spec fn spec_drop_applies(ws: Workspace, dragged: WorkspacePaneKind, target: DockDropTarget) -> bool {
    &&& ws.visible(dragged)
    &&& spec_group_index(ws.dock_groups@, target.group_id) is Some
    &&& !(target.region != DockDropRegion::Center && ws.dock_groups@[showing_index(ws.dock_groups@, dragged)].id
        == target.group_id && spec_group_size(ws, dragged) <= 1)
}

impl Workspace {
    /// Drops a dragged pane: on the centre of its own group it becomes the first and shown
    /// tab; on the centre of another group it moves there as the shown tab (its old group
    /// leaves the layout when emptied); on an edge it gets a new group split off the target
    /// at half the size. The dropped pane is focused.
    #[verifier::rlimit(60)]
    pub fn apply_dock_drop(&mut self, dragged: WorkspacePaneKind, target: DockDropTarget)
        requires
            old(self).wf(),
        ensures
            final(self).wf(),
            spec_drop_applies(*old(self), dragged, target) ==> final(self).visible(dragged)
                && final(self).focused_workspace_pane == Some(dragged),
            !spec_drop_applies(*old(self), dragged, target) ==> *final(self) == *old(self),
            spec_drop_applies(*old(self), dragged, target) ==> spec_drop_effect(*old(self), *final(self), dragged, target),
            forall|q: WorkspacePaneKind| q != dragged && #[trigger] final(self).visible(q) ==> old(self).visible(q),
            final(self).folded_panes == old(self).folded_panes,
            final(self).menus == old(self).menus,
            final(self).piano_roll_visible == old(self).piano_roll_visible,
    {
        let si = match pane_group_position(&self.dock_groups, dragged) {
            Some(i) => i,
            None => return ,
        };
        let source_id = self.dock_groups[si].id;
        let ti = match group_index(&self.dock_groups, target.group_id) {
            Some(i) => i,
            None => return ,
        };
        let ghost g0 = self.dock_groups@;
        let ghost f0 = self.folded_panes@;
        let ghost w0 = *self;
        proof {
            lemma_index_of_id(g0, si as int, source_id);
            assert(drop_source(w0, dragged) == g0[si as int]);
        }
        match target.region {
            DockDropRegion::Center => {
                if source_id == target.group_id {
                    self.front_tab_at(si, dragged);
                    proof {
                        let g1 = self.dock_groups@;
                        lemma_index_of_id(g1, si as int, source_id);
                        lemma_groups_after_update(g0, g1, si as int);
                        assert(spec_drop_effect(w0, *self, dragged, target));
                    }
                } else {
                    self.take_pane_from_group(si, dragged, target.group_id, source_id);
                    let ghost g1 = self.dock_groups@;
                    proof {
                        assert(same_group(g0, g1, target.group_id));
                    }
                    match group_index(&self.dock_groups, target.group_id) {
                        Some(i) => {
                            self.push_tab_at(i, dragged);
                            proof {
                                let g2 = self.dock_groups@;
                                lemma_index_of_id(g2, i as int, target.group_id);
                                lemma_groups_after_update(g1, g2, i as int);
                                assert(same_group(g1, g2, source_id));
                                assert forall|id: u64| id != target.group_id && id != source_id implies #[trigger] same_group(g0, g2, id) by {
                                    assert(same_group(g0, g1, id));
                                    assert(same_group(g1, g2, id));
                                }
                                assert(spec_drop_effect(w0, *self, dragged, target));
                            }
                        },
                        None => {},
                    }
                }
            },
            region => {
                if source_id == target.group_id && self.dock_groups[si].group.tabs.len() <= 1 {
                    return ;
                }
                self.take_pane_from_group(si, dragged, target.group_id, source_id);
                let ghost g1 = self.dock_groups@;
                let new_id = self.next_dock_group_id;
                self.next_dock_group_id = self.next_dock_group_id.saturating_add(1);
                self.insert_single_pane_group(new_id, dragged);
                let (axis, insert_first) = match region {
                    DockDropRegion::Top => (DockAxis::Horizontal, true),
                    DockDropRegion::Bottom => (DockAxis::Horizontal, false),
                    DockDropRegion::Left => (DockAxis::Vertical, true),
                    _ => (DockAxis::Vertical, false),
                };
                proof {
                    let g2 = self.dock_groups@;
                    let i: int = match spec_group_index(g1, new_id) {
                        Some(i) => i,
                        None => g1.len() as int,
                    };
                    lemma_index_of_id(g2, i, new_id);
                    assert((axis, insert_first) == spec_edge_split(target.region));
                    lemma_groups_after_restore_same(g1, new_id, dragged, g2);
                    assert forall|id: u64| id != source_id && id != new_id implies #[trigger] same_group(g0, g2, id) by {
                        assert(same_group(g0, g1, id));
                        assert(same_group(g1, g2, id));
                    }
                    if source_id != new_id {
                        assert(same_group(g1, g2, source_id));
                    }
                }
                match self.dock_layout.take() {
                    Some(layout) => {
                        let (l2, _) = replace_group_with_split(
                            layout,
                            target.group_id,
                            axis,
                            HALF_RATIO_BITS,
                            new_id,
                            insert_first,
                        );
                        self.dock_layout = Some(l2);
                    },
                    None => {
                        self.dock_layout = Some(DockNode::Group(new_id));
                    },
                }
                proof {
                    assert(spec_drop_effect(w0, *self, dragged, target));
                }
            },
        }
        self.set_focused_workspace_pane(dragged);
        proof {
            assert forall|k: int| 0 <= k < self.folded_panes@.len() implies !spec_visible(
                self.dock_groups@,
                #[trigger] self.folded_panes@[k].pane,
            ) by {
                let q = f0[k].pane;
                assert(!spec_visible(g0, q));
            }
        }
    }

    /// Makes `pane`, a tab of the group at `si`, its first and shown tab.
    fn front_tab_at(&mut self, si: usize, pane: WorkspacePaneKind)
        requires
            ids_distinct(old(self).dock_groups@),
            panes_unique(old(self).dock_groups@),
            si < old(self).dock_groups@.len(),
            old(self).dock_groups@[si as int].group.tabs@.contains(pane),
        ensures
            ids_distinct(final(self).dock_groups@),
            panes_unique(final(self).dock_groups@),
            forall|q: WorkspacePaneKind| #[trigger] final(self).visible(q) == old(self).visible(q),
            final(self).dock_groups@[si as int].group.active == pane,
            final(self).dock_groups@.len() == old(self).dock_groups@.len(),
            final(self).dock_groups@[si as int].id == old(self).dock_groups@[si as int].id,
            final(self).dock_groups@[si as int].group.tabs@.len() == old(self).dock_groups@[si as int].group.tabs@.len(),
            final(self).dock_groups@[si as int].group.tabs@[0] == pane,
            final(self).dock_groups@[si as int].group.tabs@ == spec_front(old(self).dock_groups@[si as int].group.tabs@, pane),
            forall|p: WorkspacePaneKind| #[trigger] final(self).dock_groups@[si as int].group.tabs@.contains(p)
                <==> old(self).dock_groups@[si as int].group.tabs@.contains(p),
            forall|k: int| 0 <= k < old(self).dock_groups@.len() && k != si ==> #[trigger] final(self).dock_groups@[k] == old(self).dock_groups@[k],
            final(self).dock_layout == old(self).dock_layout,
            final(self).folded_panes == old(self).folded_panes,
            final(self).next_dock_group_id == old(self).next_dock_group_id,
            final(self).focused_workspace_pane == old(self).focused_workspace_pane,
            final(self).editor_file_browser_focused == old(self).editor_file_browser_focused,
            final(self).piano_roll_visible == old(self).piano_roll_visible,
            final(self).menus == old(self).menus,
    {
        let ghost g0 = self.dock_groups@;
        let id = self.dock_groups[si].id;
        let mut tabs = copy_tabs(&self.dock_groups[si].group.tabs);
        move_tab_to_front(&mut tabs, pane);
        let e = DockGroupEntry { id, group: DockGroup { tabs, active: pane } };
        proof {
            lemma_update_visible(g0, si as int, e);
        }
        self.dock_groups.set(si, e);
        proof {
            assert(self.dock_groups@ == g0.update(si as int, e));
            assert forall|a: int, b: int| 0 <= a < b < self.dock_groups@.len() implies self.dock_groups@[a].id
                != self.dock_groups@[b].id by {
                assert(g0[a].id != g0[b].id);
            }
            assert forall|q: WorkspacePaneKind| #[trigger] spec_visible(self.dock_groups@, q) == spec_visible(g0, q) by {
                if spec_visible(g0, q) {
                    let k = choose|k: int| 0 <= k < g0.len() && #[trigger] g0[k].group.tabs@.contains(q);
                    if k == si {
                        assert(e.group.tabs@.contains(q));
                    }
                }
                if spec_visible(self.dock_groups@, q) {
                    if !e.group.tabs@.contains(q) {
                        let k = choose|k: int| 0 <= k < g0.len() && k != si && #[trigger] g0[k].group.tabs@.contains(q);
                    }
                }
            }
        }
    }

    /// Takes `dragged` out of its group at `si` (id `source_id`); an emptied group other than
    /// `target_id` leaves the groups and the layout.
    fn take_pane_from_group(&mut self, si: usize, dragged: WorkspacePaneKind, target_id: u64, source_id: u64)
        requires
            ids_distinct(old(self).dock_groups@),
            panes_unique(old(self).dock_groups@),
            si < old(self).dock_groups@.len(),
            old(self).dock_groups@[si as int].id == source_id,
            old(self).dock_groups@[si as int].group.tabs@.contains(dragged),
        ensures
            ids_distinct(final(self).dock_groups@),
            panes_unique(final(self).dock_groups@),
            !final(self).visible(dragged),
            forall|q: WorkspacePaneKind| q != dragged ==> (#[trigger] final(self).visible(q) == old(self).visible(q)),
            spec_group_index(old(self).dock_groups@, target_id) is Some && target_id != source_id
                ==> spec_group_index(final(self).dock_groups@, target_id) is Some,
            spec_group_index(old(self).dock_groups@, target_id) is Some && target_id == source_id
                && old(self).dock_groups@[si as int].group.tabs@.len() > 1
                ==> spec_group_index(final(self).dock_groups@, target_id) is Some,
            ({
                let rest = spec_without(old(self).dock_groups@[si as int].group.tabs@, dragged);
                &&& rest.len() == 0 && source_id != target_id ==> spec_group_index(final(self).dock_groups@, source_id) is None
                    && final(self).dock_layout == Some(
                    match spec_prune_inner(
                        match old(self).dock_layout {
                            Some(l) => l,
                            None => DockNode::Group(target_id),
                        },
                        source_id,
                    ) {
                        Some(n) => n,
                        None => DockNode::Group(source_id),
                    },
                )
                &&& !(rest.len() == 0 && source_id != target_id) ==> final(self).dock_layout == old(self).dock_layout
                    && spec_group_tabs(final(self).dock_groups@, source_id) == Some(rest)
                    && spec_group_active(final(self).dock_groups@, source_id) == Some(
                    spec_active_after_take(old(self).dock_groups@[si as int], dragged),
                )
            }),
            forall|id: u64| id != source_id ==> #[trigger] same_group(old(self).dock_groups@, final(self).dock_groups@, id),
            final(self).folded_panes == old(self).folded_panes,
            final(self).next_dock_group_id == old(self).next_dock_group_id,
            final(self).focused_workspace_pane == old(self).focused_workspace_pane,
            final(self).editor_file_browser_focused == old(self).editor_file_browser_focused,
            final(self).piano_roll_visible == old(self).piano_roll_visible,
            final(self).menus == old(self).menus,
    {
        let ghost g0 = self.dock_groups@;
        proof {
            lemma_index_of_id(g0, si as int, source_id);
        }
        let source_empty = remove_pane_from_group(&mut self.dock_groups, source_id, dragged);
        let ghost g1 = self.dock_groups@;
        proof {
            let e = g1[si as int];
            lemma_groups_after_update(g0, g1, si as int);
            lemma_index_of_id(g1, si as int, source_id);
            assert(g1 =~= g0.update(si as int, e));
            lemma_fold_tab_groups(g0, si as int, e, dragged);
            if spec_group_index(g0, target_id) is Some {
                let t = spec_group_index(g0, target_id)->0;
                assert(g1[t].id == target_id);
                lemma_index_of_id(g1, t, target_id);
            }
        }
        if source_empty && source_id != target_id {
            proof {
                lemma_index_of_id(g1, si as int, source_id);
                lemma_remove_visible(g1, si as int);
            }
            remove_group(&mut self.dock_groups, source_id);
            let layout = match self.dock_layout.take() {
                Some(l) => l,
                None => DockNode::Group(target_id),
            };
            self.dock_layout = Some(prune_group_from_layout(layout, source_id));
            proof {
                let g2 = self.dock_groups@;
                assert(g2 == g1.remove(si as int));
                lemma_groups_after_remove(g1, si as int);
                assert forall|id: u64| id != source_id implies #[trigger] same_group(g0, g2, id) by {
                    assert(same_group(g0, g1, id));
                    assert(same_group(g1, g2, id));
                }
                assert forall|q: WorkspacePaneKind| #[trigger] spec_visible(g2, q) == spec_visible(g1, q) by {
                    if spec_visible(g1, q) {
                        let k = choose|k: int| 0 <= k < g1.len() && #[trigger] g1[k].group.tabs@.contains(q);
                        if k == si {
                            assert(g1[si as int].group.tabs@.len() == 0);
                        }
                    }
                    if spec_visible(g2, q) {
                        let k = choose|k: int| 0 <= k < g1.len() && k != si && #[trigger] g1[k].group.tabs@.contains(q);
                    }
                }
                if spec_group_index(g0, target_id) is Some {
                    let t = spec_group_index(g1, target_id)->0;
                    assert(t != si);
                    let t2 = if t < si { t } else { t - 1 };
                    assert(g2[t2].id == target_id);
                    lemma_index_of_id(g2, t2, target_id);
                }
            }
        }
    }
}

/// Whether a group with that id exists.
pub open spec fn group_exists(groups: Seq<DockGroupEntry>) -> spec_fn(u64) -> bool {
    |id: u64| spec_group_index(groups, id) is Some
}

/// The ids with each run of repeats kept once.
pub open spec fn spec_dedup(s: Seq<u64>) -> Seq<u64>
    decreases s.len(),
{
    if s.len() == 0 {
        s
    } else {
        let r = spec_dedup(s.drop_last());
        if r.len() > 0 && r.last() == s.last() {
            r
        } else {
            r.push(s.last())
        }
    }
}

/// The ids rise strictly.
pub open spec fn increasing(s: Seq<u64>) -> bool {
    forall|i: int, j: int| 0 <= i < j < s.len() ==> s[i] < s[j]
}

/// The order in which the focus moves between groups: the layout's groups left to right
/// that exist, each run of repeats once; without a layout, every group by rising id.
pub open spec fn order_fits(ws: Workspace, order: Seq<u64>) -> bool {
    match ws.dock_layout {
        Some(l) => order == spec_dedup(spec_visible_order(l).filter(group_exists(ws.dock_groups@))),
        None => increasing(order) && forall|id: u64| #[trigger] order.contains(id) <==> spec_group_index(
            ws.dock_groups@,
            id,
        ) is Some,
    }
}

/// Adds `x` to a rising list of ids that lacks it.
pub fn insert_sorted(v: &mut Vec<u64>, x: u64)
    requires
        increasing(old(v)@),
        !old(v)@.contains(x),
    ensures
        increasing(final(v)@),
        forall|y: u64| #[trigger] final(v)@.contains(y) <==> (old(v)@.contains(y) || y == x),
{
    let ghost before = v@;
    let mut i: usize = 0;
    while i < v.len() && v[i] < x
        invariant
            v@ == before,
            i <= v@.len(),
            forall|j: int| 0 <= j < i ==> v@[j] < x,
        decreases v.len() - i,
    {
        i = i + 1;
    }
    v.insert(i, x);
    proof {
        assert(v@ =~= before.insert(i as int, x));
        assert(i < before.len() ==> before[i as int] > x) by {
            if i < before.len() {
                assert(before[i as int] != x);
            }
        }
        assert forall|a: int, b: int| 0 <= a < b < v@.len() implies v@[a] < v@[b] by {
            if b < i {
                assert(before[a] < before[b]);
            } else if b == i {
            } else if a < i {
                assert(before[i as int] <= before[b - 1]);
            } else if a == i {
                assert(before[i as int] <= before[b - 1]);
            } else {
                assert(before[a - 1] < before[b - 1]);
            }
        }
        assert forall|y: u64| #[trigger] v@.contains(y) <==> (before.contains(y) || y == x) by {
            if v@.contains(y) {
                let k = choose|k: int| 0 <= k < v@.len() && v@[k] == y;
                if k < i {
                    assert(before[k] == y);
                } else if k > i {
                    assert(before[k - 1] == y);
                }
            }
            if before.contains(y) {
                let k = choose|k: int| 0 <= k < before.len() && before[k] == y;
                if k < i {
                    assert(v@[k] == y);
                } else {
                    assert(v@[k + 1] == y);
                }
            }
            if y == x {
                assert(v@[i as int] == x);
            }
        }
    }
}

/// Keeps the ids of existing groups and drops each repeat of the previous id.
pub fn existing_deduped(ids: &Vec<u64>, groups: &Vec<DockGroupEntry>) -> (r: Vec<u64>)
    requires
        ids_distinct(groups@),
    ensures
        r@ == spec_dedup(ids@.filter(group_exists(groups@))),
{
    let mut out: Vec<u64> = Vec::new();
    let mut k: usize = 0;
    while k < ids.len()
        invariant
            ids_distinct(groups@),
            k <= ids@.len(),
            out@ == spec_dedup(ids@.subrange(0, k as int).filter(group_exists(groups@))),
        decreases ids.len() - k,
    {
        let id = ids[k];
        let exists = group_index(groups, id).is_some();
        proof {
            assert(ids@.subrange(0, k + 1) =~= ids@.subrange(0, k as int).push(id));
            ids@.subrange(0, k as int).lemma_filter_push(id, group_exists(groups@));
        }
        if exists {
            let last_same = out.len() > 0 && out[out.len() - 1] == id;
            proof {
                let f = ids@.subrange(0, k as int).filter(group_exists(groups@));
                assert(f.push(id).drop_last() =~= f);
            }
            if !last_same {
                out.push(id);
            }
        }
        k = k + 1;
    }
    proof {
        assert(ids@.subrange(0, k as int) =~= ids@);
    }
    out
}

impl Workspace {
    /// The order in which the focus moves between groups.
    pub fn visible_workspace_group_order(&self) -> (r: Vec<u64>)
        requires
            ids_distinct(self.dock_groups@),
        ensures
            order_fits(*self, r@),
    {
        match &self.dock_layout {
            Some(layout) => {
                let mut raw: Vec<u64> = Vec::new();
                collect_visible_group_order(layout, &mut raw);
                proof {
                    assert(raw@ =~= spec_visible_order(*layout));
                }
                existing_deduped(&raw, &self.dock_groups)
            },
            None => {
                let mut out: Vec<u64> = Vec::new();
                let mut k: usize = 0;
                while k < self.dock_groups.len()
                    invariant
                        ids_distinct(self.dock_groups@),
                        k <= self.dock_groups@.len(),
                        increasing(out@),
                        forall|id: u64| #[trigger] out@.contains(id) <==> exists|j: int| 0 <= j < k && self.dock_groups@[j].id == id,
                    decreases self.dock_groups.len() - k,
                {
                    let id = self.dock_groups[k].id;
                    proof {
                        if out@.contains(id) {
                            let j = choose|j: int| 0 <= j < k && self.dock_groups@[j].id == id;
                            assert(self.dock_groups@[j].id != self.dock_groups@[k as int].id);
                        }
                    }
                    insert_sorted(&mut out, id);
                    k = k + 1;
                    proof {
                        assert forall|x: u64| #[trigger] out@.contains(x) <==> exists|j: int| 0 <= j < k && self.dock_groups@[j].id == x by {
                            if out@.contains(x) && x != id {
                                let j = choose|j: int| 0 <= j < k - 1 && self.dock_groups@[j].id == x;
                            }
                            if exists|j: int| 0 <= j < k && self.dock_groups@[j].id == x {
                                let j = choose|j: int| 0 <= j < k && self.dock_groups@[j].id == x;
                                if j < k - 1 {
                                    assert(exists|j2: int| 0 <= j2 < k - 1 && self.dock_groups@[j2].id == x);
                                }
                            }
                        }
                    }
                }
                proof {
                    assert forall|id: u64| #[trigger] out@.contains(id) <==> spec_group_index(self.dock_groups@, id) is Some by {
                        if out@.contains(id) {
                            let j = choose|j: int| 0 <= j < k && self.dock_groups@[j].id == id;
                        }
                    }
                }
                out
            },
        }
    }

    /// Switches the focused pane's group to its previous or next tab, wrapping around, and
    /// focuses that tab. Nothing happens without a shown focused pane or with a single tab.
    pub fn switch_focused_workspace_tab(&mut self, direction: TabDirection) -> (r: bool)
        requires
            old(self).wf(),
        ensures
            final(self).wf(),
            r == spec_switch_target(*old(self), direction) is Some,
            r ==> final(self).focused_workspace_pane == spec_switch_target(*old(self), direction)
                && final(self).dock_groups@[showing_index(old(self).dock_groups@, old(self).focused_workspace_pane->0)].group.active
                == spec_switch_target(*old(self), direction)->0,
            !r ==> *final(self) == *old(self),
            forall|q: WorkspacePaneKind| #[trigger] final(self).visible(q) == old(self).visible(q),
            final(self).folded_panes == old(self).folded_panes,
            final(self).menus == old(self).menus,
    {
        let focused = match self.focused_workspace_pane() {
            Some(p) => p,
            None => return false,
        };
        let gi = match pane_group_position(&self.dock_groups, focused) {
            Some(i) => i,
            None => return false,
        };
        let n = self.dock_groups[gi].group.tabs.len();
        if n <= 1 {
            return false;
        }
        let active = self.dock_groups[gi].group.active;
        let ai = match first_tab_position(&self.dock_groups[gi].group.tabs, active) {
            Some(i) => i,
            None => return false,
        };
        let next_index = match direction {
            TabDirection::Previous => if ai == 0 {
                n - 1
            } else {
                ai - 1
            },
            TabDirection::Next => (ai + 1) % n,
        };
        let next_pane = self.dock_groups[gi].group.tabs[next_index];
        let ghost g0 = self.dock_groups@;
        proof {
            assert(g0[gi as int].group.tabs@.contains(next_pane));
            assert(showing_index(g0, next_pane) == gi as int) by {
                let c = showing_index(g0, next_pane);
                assert(0 <= c < g0.len() && g0[c].group.tabs@.contains(next_pane));
                if c != gi {
                    assert(!g0[c].group.tabs@.contains(next_pane));
                }
            }
        }
        self.set_active_workspace_pane(next_pane);
        proof {
            lemma_same_tabs(g0, self.dock_groups@);
        }
        self.set_focused_workspace_pane(next_pane);
        true
    }

    /// Moves the focus to the shown tab of the previous or next group, wrapping around the
    /// focus order. Nothing happens without a shown focused pane or with a single group.
    pub fn cycle_workspace_pane_focus(&mut self, direction: PaneCycleDirection) -> (r: bool)
        requires
            old(self).wf(),
        ensures
            final(self).wf(),
            r == spec_cycle_target(*old(self), direction) is Some,
            match spec_cycle_target(*old(self), direction) {
                Some(target) => final(self).focused_workspace_pane == if old(self).visible(target) {
                    Some(target)
                } else {
                    old(self).focused_workspace_pane
                },
                None => final(self).focused_workspace_pane == old(self).focused_workspace_pane,
            },
            final(self).dock_groups == old(self).dock_groups,
            final(self).dock_layout == old(self).dock_layout,
            final(self).folded_panes == old(self).folded_panes,
            final(self).menus == old(self).menus,
    {
        let focused = match self.focused_workspace_pane() {
            Some(p) => p,
            None => return false,
        };
        let current = match self.group_for_pane(focused) {
            Some(g) => g,
            None => return false,
        };
        let order = self.visible_workspace_group_order();
        proof {
            lemma_focus_cycle_order(*old(self), order@);
        }
        if order.len() <= 1 {
            return false;
        }
        let ci = match position_of_id(&order, current) {
            Some(i) => i,
            None => return false,
        };
        let n = order.len();
        let next_index = match direction {
            PaneCycleDirection::Previous => if ci == 0 {
                n - 1
            } else {
                ci - 1
            },
            PaneCycleDirection::Next => (ci + 1) % n,
        };
        let target_id = order[next_index];
        let ti = match group_index(&self.dock_groups, target_id) {
            Some(i) => i,
            None => return false,
        };
        let target = self.dock_groups[ti].group.active;
        proof {
            assert(spec_next_in_cycle(order@, current, direction) == target_id) by {
                lemma_first_position(order@, current, ci as int);
            }
            assert(order_fits(*old(self), order@));
            lemma_focus_cycle_order(*old(self), order@);
        }
        self.set_focused_workspace_pane(target);
        true
    }
}

/// The order in which the focus moves between groups (see `order_fits`, which fixes it).
pub open spec fn focus_cycle_order(ws: Workspace) -> Seq<u64> {
    choose|order: Seq<u64>| order_fits(ws, order)
}

/// The pane the focus moves to: the shown tab of the group before or after the focused
/// pane's group in the focus order, when a shown pane has the focus, its group is in the
/// order, there are at least two groups, and the group moved to exists.
pub open spec fn spec_cycle_target(ws: Workspace, direction: PaneCycleDirection) -> Option<WorkspacePaneKind> {
    match ws.focused_workspace_pane {
        Some(p) => if !ws.visible(p) {
            None
        } else {
            match spec_group_for_pane(ws.dock_groups@, p) {
                Some(current) => {
                    let order = focus_cycle_order(ws);
                    if order.len() > 1 && order.contains(current) {
                        match spec_group_index(ws.dock_groups@, spec_next_in_cycle(order, current, direction)) {
                            Some(i) => Some(ws.dock_groups@[i].group.active),
                            None => None,
                        }
                    } else {
                        None
                    }
                },
                None => None,
            }
        },
        None => None,
    }
}

/// Two rising lists holding the same ids are the same list.
proof fn lemma_increasing_same_contents(a: Seq<u64>, b: Seq<u64>)
    requires
        increasing(a),
        increasing(b),
        forall|x: u64| a.contains(x) <==> b.contains(x),
    ensures
        a == b,
    decreases a.len(),
{
    if a.len() == 0 {
        if b.len() > 0 {
            assert(b.contains(b[0]));
        }
        assert(a =~= b);
    } else {
        if b.len() == 0 {
            assert(a.contains(a[0]));
        }
        let la = a.last();
        let lb = b.last();
        assert(a.contains(la));
        assert(b.contains(lb));
        let ib = choose|i: int| 0 <= i < b.len() && b[i] == la;
        let ia = choose|i: int| 0 <= i < a.len() && a[i] == lb;
        assert(la <= lb) by {
            if ib < b.len() - 1 {
                assert(b[ib] < b[b.len() - 1]);
            }
        }
        assert(lb <= la) by {
            if ia < a.len() - 1 {
                assert(a[ia] < a[a.len() - 1]);
            }
        }
        let da = a.drop_last();
        let db = b.drop_last();
        assert forall|x: u64| da.contains(x) <==> db.contains(x) by {
            if da.contains(x) {
                let i = choose|i: int| 0 <= i < da.len() && da[i] == x;
                assert(a[i] == x && a[i] < la);
                assert(a.contains(x));
                let j = choose|j: int| 0 <= j < b.len() && b[j] == x;
                if j == b.len() - 1 {
                    assert(false);
                }
                assert(db[j] == x);
            }
            if db.contains(x) {
                let i = choose|i: int| 0 <= i < db.len() && db[i] == x;
                assert(b[i] == x && b[i] < lb);
                assert(b.contains(x));
                let j = choose|j: int| 0 <= j < a.len() && a[j] == x;
                if j == a.len() - 1 {
                    assert(false);
                }
                assert(da[j] == x);
            }
        }
        lemma_increasing_same_contents(da, db);
        assert(a =~= da.push(la));
        assert(b =~= db.push(lb));
    }
}

/// An order that fits is the focus order.
proof fn lemma_focus_cycle_order(ws: Workspace, order: Seq<u64>)
    requires
        order_fits(ws, order),
    ensures
        focus_cycle_order(ws) == order,
{
    let c = focus_cycle_order(ws);
    assert(order_fits(ws, c));
    if ws.dock_layout is None {
        assert forall|x: u64| c.contains(x) <==> order.contains(x) by {
            assert(c.contains(x) <==> spec_group_index(ws.dock_groups@, x) is Some);
            assert(order.contains(x) <==> spec_group_index(ws.dock_groups@, x) is Some);
        }
        lemma_increasing_same_contents(c, order);
    }
}

/// The previous or next id after `current` in `order`, wrapping around.
pub open spec fn spec_next_in_cycle(order: Seq<u64>, current: u64, direction: PaneCycleDirection) -> u64 {
    let ci = first_position(order, current);
    let n = order.len() as int;
    match direction {
        PaneCycleDirection::Previous => if ci == 0 {
            order[n - 1]
        } else {
            order[ci - 1]
        },
        PaneCycleDirection::Next => order[(ci + 1) % n],
    }
}

/// The first place `x` stands in `s`.
pub open spec fn first_position(s: Seq<u64>, x: u64) -> int {
    choose|i: int| 0 <= i < s.len() && s[i] == x && forall|j: int| 0 <= j < i ==> s[j] != x
}

/// A first occurrence found by scanning is the one `first_position` names.
pub proof fn lemma_first_position(s: Seq<u64>, x: u64, i: int)
    requires
        0 <= i < s.len(),
        s[i] == x,
        forall|j: int| 0 <= j < i ==> s[j] != x,
    ensures
        first_position(s, x) == i,
{
    let c = first_position(s, x);
    assert(0 <= c < s.len() && s[c] == x && forall|j: int| 0 <= j < c ==> s[j] != x);
    if c < i {
        assert(s[c] != x);
    }
    if i < c {
        assert(s[i] != x);
    }
}

/// The first place `x` stands in `ids`, if it does.
pub fn position_of_id(ids: &Vec<u64>, x: u64) -> (r: Option<usize>)
    ensures
        match r {
            Some(i) => i < ids@.len() && ids@[i as int] == x && forall|j: int| 0 <= j < i ==> ids@[j] != x,
            None => !ids@.contains(x),
        },
{
    let mut i: usize = 0;
    while i < ids.len()
        invariant
            i <= ids@.len(),
            forall|j: int| 0 <= j < i ==> ids@[j] != x,
        decreases ids.len() - i,
    {
        if ids[i] == x {
            return Some(i);
        }
        i = i + 1;
    }
    None
}

/// The first place `p` stands among the tabs.
pub open spec fn first_tab_index(tabs: Seq<WorkspacePaneKind>, p: WorkspacePaneKind) -> int {
    choose|i: int| 0 <= i < tabs.len() && tabs[i] == p && forall|j: int| 0 <= j < i ==> tabs[j] != p
}

/// The first place `p` stands among the tabs, if it does.
pub fn first_tab_position(tabs: &Vec<WorkspacePaneKind>, p: WorkspacePaneKind) -> (r: Option<usize>)
    ensures
        match r {
            Some(i) => i < tabs@.len() && tabs@[i as int] == p && first_tab_index(tabs@, p) == i as int,
            None => !tabs@.contains(p),
        },
{
    let mut i: usize = 0;
    while i < tabs.len()
        invariant
            i <= tabs@.len(),
            forall|j: int| 0 <= j < i ==> tabs@[j] != p,
        decreases tabs.len() - i,
    {
        if tabs[i] == p {
            proof {
                let c = first_tab_index(tabs@, p);
                assert(0 <= c < tabs@.len() && tabs@[c] == p && forall|j: int| 0 <= j < c ==> tabs@[j] != p);
                if c < i {
                    assert(tabs@[c] != p);
                }
                if i < c {
                    assert(tabs@[i as int] != p);
                }
            }
            return Some(i);
        }
        i = i + 1;
    }
    None
}

/// The tab the focused pane's group switches to, if any.
pub open spec fn spec_switch_target(ws: Workspace, direction: TabDirection) -> Option<WorkspacePaneKind> {
    match ws.focused_workspace_pane {
        Some(f) => if ws.visible(f) {
            let tabs = ws.dock_groups@[showing_index(ws.dock_groups@, f)].group.tabs@;
            let active = ws.dock_groups@[showing_index(ws.dock_groups@, f)].group.active;
            if tabs.len() > 1 && tabs.contains(active) {
                let ai = first_tab_index(tabs, active);
                let n = tabs.len() as int;
                Some(
                    match direction {
                        TabDirection::Previous => if ai == 0 {
                            tabs[n - 1]
                        } else {
                            tabs[ai - 1]
                        },
                        TabDirection::Next => tabs[(ai + 1) % n],
                    },
                )
            } else {
                None
            }
        } else {
            None
        },
        None => None,
    }
}

/// The tabs of the group that shows the focused pane.
pub open spec fn focused_group(ws: Workspace) -> DockGroupEntry {
    ws.dock_groups@[showing_index(ws.dock_groups@, ws.focused_workspace_pane->0)]
}

/// Switching tabs steps once around the focused group, wrapping at the ends: the previous
/// tab is the one just before the shown tab, the next tab the one just after it; so going
/// back and then forward returns to the shown tab, and with three or more tabs (each listed
/// once) going back and going forward reach different tabs.
pub proof fn law_switching_tabs_steps_around_the_group(ws: Workspace)
    requires
        ws.focused_workspace_pane is Some,
        ws.visible(ws.focused_workspace_pane->0),
        focused_group(ws).group.tabs@.no_duplicates(),
        focused_group(ws).group.tabs@.len() > 1,
        focused_group(ws).group.tabs@.contains(focused_group(ws).group.active),
    ensures
        ({
            let tabs = focused_group(ws).group.tabs@;
            let n = tabs.len() as int;
            let a = focused_group(ws).group.active;
            &&& spec_switch_target(ws, TabDirection::Previous) matches Some(p) && exists|j: int|
                0 <= j < n && tabs[j] == p && #[trigger] tabs[(j + 1) % n] == a
            &&& spec_switch_target(ws, TabDirection::Next) matches Some(q) && exists|j: int|
                0 <= j < n && tabs[j] == a && #[trigger] tabs[(j + 1) % n] == q
            &&& n >= 3 ==> spec_switch_target(ws, TabDirection::Previous) != spec_switch_target(
                ws,
                TabDirection::Next,
            )
        }),
{
    let tabs = focused_group(ws).group.tabs@;
    let n = tabs.len() as int;
    let a = focused_group(ws).group.active;
    let ai = first_tab_index(tabs, a);
    assert(0 <= ai < n && tabs[ai] == a);
    let pi: int = if ai == 0 { n - 1 } else { ai - 1 };
    let ni: int = (ai + 1) % n;
    assert((pi + 1) % n == ai) by {
        if ai == 0 {
            assert((n - 1 + 1) % n == 0) by (nonlinear_arith) requires n > 1;
        } else {
            assert((ai - 1 + 1) % n == ai) by (nonlinear_arith) requires 0 < ai < n;
        }
    }
    assert(0 <= ni < n) by (nonlinear_arith) requires n > 1, ni == (ai + 1) % n;
    assert(tabs[(pi + 1) % n] == a);
    assert(tabs[(ai + 1) % n] == tabs[ni]);
    if n >= 3 {
        assert(pi != ni) by {
            if ai == 0 {
                assert(ni == 1) by (nonlinear_arith) requires ai == 0, n >= 3, ni == (ai + 1) % n;
            } else if ai == n - 1 {
                assert(ni == 0) by (nonlinear_arith) requires ai == n - 1, n >= 3, ni == (ai + 1) % n;
            } else {
                assert(ni == ai + 1) by (nonlinear_arith) requires 0 < ai < n - 1, ni == (ai + 1) % n;
            }
        }
        assert(tabs[pi] != tabs[ni]);
    }
}

/// The header menus with every menu of the panes' headers closed.
pub open spec fn headers_closed(m: MenuState) -> MenuState {
    MenuState {
        open_header_overflow_menu: None,
        open_editor_menu_section: None,
        open_editor_file_menu_section: None,
        hovered_editor_file_menu_section: None,
        ..m
    }
}

/// The header menus after a message.
pub open spec fn spec_menus_after(m: MenuState, message: PaneMessage) -> MenuState {
    match message {
        PaneMessage::WorkspaceTabPressed(_) => MenuState {
            open_header_overflow_menu: None,
            open_editor_menu_section: None,
            ..m
        },
        PaneMessage::OpenHeaderOverflowMenu(group_id) => MenuState {
            open_project_menu: false,
            open_project_recent: false,
            open_header_overflow_menu: Some(group_id),
            open_editor_menu_section: None,
            open_editor_file_menu_section: None,
            hovered_editor_file_menu_section: None,
            ..m
        },
        PaneMessage::SetEditorHeaderMenuSection(section) => if section != Some(
            EditorHeaderMenuSection::File,
        ) {
            MenuState {
                open_editor_menu_section: section,
                open_editor_file_menu_section: None,
                hovered_editor_file_menu_section: None,
                ..m
            }
        } else {
            MenuState { open_editor_menu_section: section, ..m }
        },
        PaneMessage::HoverEditorFileMenuSection { section, expanded } => MenuState {
            hovered_editor_file_menu_section: section,
            open_editor_file_menu_section: if expanded {
                section
            } else {
                None
            },
            ..m
        },
        PaneMessage::CloseHeaderOverflowMenu => headers_closed(m),
        PaneMessage::ToggleProjectMenu => if m.open_project_menu {
            MenuState { open_project_menu: false, open_project_recent: false, ..headers_closed(m) }
        } else {
            MenuState {
                open_project_menu: true,
                open_project_menu_section: Some(ProjectMenuSection::Project),
                ..headers_closed(m)
            }
        },
        PaneMessage::CloseProjectMenu => MenuState {
            open_project_menu: false,
            open_project_recent: false,
            ..m
        },
        PaneMessage::SetProjectRecentOpen(open) => MenuState { open_project_recent: open, ..m },
        PaneMessage::SetProjectMenuSection(section) => MenuState {
            open_project_menu_section: section,
            open_project_recent: false,
            ..m
        },
        PaneMessage::ToggleWorkspacePane(_) => MenuState {
            open_project_menu: false,
            open_project_recent: false,
            ..headers_closed(m)
        },
        _ => m,
    }
}

impl MenuState {
    /// Every menu closed.
    pub fn new() -> (m: Self)
        ensures
            m == (MenuState {
                open_project_menu: false,
                open_project_menu_section: None,
                open_project_recent: false,
                open_header_overflow_menu: None,
                open_editor_menu_section: None,
                open_editor_file_menu_section: None,
                hovered_editor_file_menu_section: None,
            }),
    {
        MenuState {
            open_project_menu: false,
            open_project_menu_section: None,
            open_project_recent: false,
            open_header_overflow_menu: None,
            open_editor_menu_section: None,
            open_editor_file_menu_section: None,
            hovered_editor_file_menu_section: None,
        }
    }

    /// Closes every menu of the panes' headers.
    pub fn close_headers(&mut self)
        ensures
            *final(self) == headers_closed(*old(self)),
    {
        self.open_header_overflow_menu = None;
        self.open_editor_menu_section = None;
        self.open_editor_file_menu_section = None;
        self.hovered_editor_file_menu_section = None;
    }
}

/// A copy of an optional text.
pub fn copy_opt_string(s: &Option<String>) -> (r: Option<String>)
    ensures
        opt_view(r) == opt_view(*s),
{
    match s {
        Some(t) => Some(crate::text::owned(t.as_str())),
        None => None,
    }
}

impl Workspace {
    /// The group with id `group_id`, if any.
    pub fn workspace_group(&self, group_id: u64) -> (r: Option<&DockGroup>)
        requires
            ids_distinct(self.dock_groups@),
        ensures
            match spec_group_index(self.dock_groups@, group_id) {
                Some(i) => r == Some(&self.dock_groups@[i].group),
                None => r is None,
            },
    {
        match group_index(&self.dock_groups, group_id) {
            Some(i) => Some(&self.dock_groups[i].group),
            None => None,
        }
    }

    /// Whether the group shows the focused pane as its shown tab.
    pub fn is_workspace_group_focused(&self, group_id: u64) -> (r: bool)
        requires
            ids_distinct(self.dock_groups@),
        ensures
            r == (match self.focused_workspace_pane {
                Some(f) => self.visible(f) && (spec_group_index(self.dock_groups@, group_id) matches Some(i)
                    && self.dock_groups@[i].group.active == f),
                None => false,
            }),
    {
        let focused = match self.focused_workspace_pane() {
            Some(f) => f,
            None => return false,
        };
        match group_index(&self.dock_groups, group_id) {
            Some(i) => self.dock_groups[i].group.active == focused,
            None => false,
        }
    }

    /// The pointer moved far enough from where a tab was pressed: that tab's pane starts
    /// being dragged, aimed at the centre of its own group. Says whether a drag started.
    pub fn start_pane_drag(&mut self) -> (started: bool)
        requires
            panes_unique(old(self).dock_groups@),
        ensures
            started == (old(self).dragged_workspace_pane is None && old(self).pressed_workspace_pane is Some),
            started ==> final(self).dragged_workspace_pane == old(self).pressed_workspace_pane
                && final(self).dock_drop_target == match spec_group_for_pane(old(self).dock_groups@, old(self).pressed_workspace_pane->0) {
                    Some(group_id) => Some(DockDropTarget { group_id, region: DockDropRegion::Center }),
                    None => None,
                },
            !started ==> final(self).dragged_workspace_pane == old(self).dragged_workspace_pane
                && final(self).dock_drop_target == old(self).dock_drop_target,
            final(self).dock_groups == old(self).dock_groups,
            final(self).dock_layout == old(self).dock_layout,
            final(self).folded_panes == old(self).folded_panes,
            final(self).focused_workspace_pane == old(self).focused_workspace_pane,
            final(self).pressed_workspace_pane == old(self).pressed_workspace_pane,
            final(self).menus == old(self).menus,
    {
        if self.dragged_workspace_pane.is_some() {
            return false;
        }
        let pressed = match self.pressed_workspace_pane {
            Some(p) => p,
            None => return false,
        };
        self.dragged_workspace_pane = Some(pressed);
        self.dock_drop_target = match self.group_for_pane(pressed) {
            Some(group_id) => Some(DockDropTarget { group_id, region: DockDropRegion::Center }),
            None => None,
        };
        true
    }

    /// During a drag, aims the drop at `target` (found from the pointer's position).
    pub fn set_dock_drop_target(&mut self, target: Option<DockDropTarget>)
        ensures
            final(self).dock_drop_target == if old(self).dragged_workspace_pane is Some {
                target
            } else {
                old(self).dock_drop_target
            },
            final(self).dragged_workspace_pane == old(self).dragged_workspace_pane,
            final(self).dock_groups == old(self).dock_groups,
            final(self).folded_panes == old(self).folded_panes,
            final(self).menus == old(self).menus,
    {
        if self.dragged_workspace_pane.is_some() {
            self.dock_drop_target = target;
        }
    }

    /// Handles a message from the panes, their tabs and header menus.
    #[verifier::rlimit(80)]
    pub fn handle_pane_message(&mut self, message: PaneMessage) -> (r: PaneOutcome)
        requires
            old(self).wf(),
        ensures
            final(self).wf(),
            !(message is WorkspaceDragReleased) ==> final(self).menus == spec_menus_after(old(self).menus, message),
            match message {
                PaneMessage::WorkspaceTabPressed(kind) => {
                    &&& old(self).visible(kind) ==> final(self).dock_groups@[showing_index(
                        old(self).dock_groups@,
                        kind,
                    )].group.active == kind
                    &&& final(self).dock_groups@.len() == old(self).dock_groups@.len()
                    &&& forall|k: int|
                        0 <= k < old(self).dock_groups@.len() ==> (#[trigger] final(self).dock_groups@[k]).id
                            == old(self).dock_groups@[k].id && final(self).dock_groups@[k].group.tabs@
                            == old(self).dock_groups@[k].group.tabs@ && (!(old(self).visible(kind)
                            && k == showing_index(old(self).dock_groups@, kind))
                            ==> final(self).dock_groups@[k].group.active == old(self).dock_groups@[k].group.active)
                    &&& final(self).dock_layout == old(self).dock_layout
                    &&& final(self).folded_panes == old(self).folded_panes
                    &&& old(self).visible(kind) ==> final(self).focused_workspace_pane == Some(kind)
                    &&& final(self).pressed_workspace_pane == Some(kind)
                    &&& final(self).dock_drop_target is None
                    &&& r == (PaneOutcome { persist_settings: true, restore_view_of: Some(kind), reset_drag_origin: true })
                },
                PaneMessage::FocusWorkspacePane(kind) => {
                    &&& old(self).visible(kind) ==> final(self).focused_workspace_pane == Some(kind)
                    &&& !old(self).visible(kind) ==> final(self).focused_workspace_pane == old(self).focused_workspace_pane
                },
                PaneMessage::WorkspaceTabHovered(kind) => final(self).hovered_workspace_pane == kind,
                PaneMessage::OpenHeaderOverflowMenu(group_id) => spec_group_index(old(self).dock_groups@, group_id) is Some
                    && old(self).visible(old(self).dock_groups@[spec_group_index(old(self).dock_groups@, group_id)->0].group.active)
                    ==> final(self).focused_workspace_pane == Some(old(self).dock_groups@[spec_group_index(old(self).dock_groups@, group_id)->0].group.active),
                PaneMessage::TooltipHovered(key) => opt_view(final(self).hovered_tooltip_key) == opt_view(key)
                    && opt_view(final(self).open_tooltip_key) == opt_view(key),
                PaneMessage::ToggleWorkspacePane(pane) => {
                    &&& spec_is_folded(old(self).folded_panes@, pane) && spec_unfold_guaranteed(*old(self), pane)
                        ==> final(self).visible(pane) && final(self).focused_workspace_pane == Some(pane)
                        && r.restore_view_of == Some(pane) && r.persist_settings
                    &&& spec_is_folded(old(self).folded_panes@, pane) && !spec_saved_restore_applies(*old(self), pane)
                        && spec_fallback_ready(*old(self)) ==> spec_fallback_placement(*old(self), *final(self), pane)
                    &&& !spec_is_folded(old(self).folded_panes@, pane) && spec_can_fold(*old(self), pane)
                        ==> spec_is_folded(final(self).folded_panes@, pane) && !final(self).visible(pane)
                        && r.restore_view_of == Some(pane)
                },
                PaneMessage::WorkspaceDragReleased => {
                    &&& final(self).pressed_workspace_pane is None
                    &&& final(self).dragged_workspace_pane is None
                    &&& final(self).dock_drop_target is None
                    &&& r.reset_drag_origin
                    &&& match (old(self).dragged_workspace_pane, old(self).dock_drop_target) {
                        (Some(d), Some(t)) => {
                            &&& spec_drop_applies(*old(self), d, t) ==> final(self).visible(d)
                                && final(self).focused_workspace_pane == Some(d)
                            &&& r.persist_settings && r.restore_view_of == Some(d)
                            &&& final(self).menus == MenuState {
                                open_editor_menu_section: None,
                                open_editor_file_menu_section: None,
                                hovered_editor_file_menu_section: None,
                                ..old(self).menus
                            }
                        },
                        _ => !r.persist_settings && r.restore_view_of is None && final(self).menus
                            == old(self).menus,
                    }
                },
                PaneMessage::WorkspaceDragExited => final(self).dock_drop_target == if old(self).dragged_workspace_pane is Some {
                    None
                } else {
                    old(self).dock_drop_target
                },
                _ => final(self).focused_workspace_pane == old(self).focused_workspace_pane
                    && final(self).dock_groups == old(self).dock_groups
                    && final(self).folded_panes == old(self).folded_panes,
            },
    {
        let none = PaneOutcome { persist_settings: false, restore_view_of: None, reset_drag_origin: false };
        match message {
            PaneMessage::WorkspaceTabPressed(kind) => {
                self.set_active_workspace_pane(kind);
                self.set_focused_workspace_pane(kind);
                self.menus.open_header_overflow_menu = None;
                self.menus.open_editor_menu_section = None;
                self.pressed_workspace_pane = Some(kind);
                self.dock_drop_target = None;
                PaneOutcome { persist_settings: true, restore_view_of: Some(kind), reset_drag_origin: true }
            },
            PaneMessage::FocusWorkspacePane(kind) => {
                self.set_focused_workspace_pane(kind);
                none
            },
            PaneMessage::WorkspaceTabHovered(kind) => {
                self.hovered_workspace_pane = kind;
                none
            },
            PaneMessage::OpenHeaderOverflowMenu(group_id) => {
                let active = match self.workspace_group(group_id) {
                    Some(group) => Some(group.active),
                    None => None,
                };
                if let Some(active) = active {
                    self.set_focused_workspace_pane(active);
                }
                self.menus.open_project_menu = false;
                self.menus.open_project_recent = false;
                self.menus.open_header_overflow_menu = Some(group_id);
                self.menus.open_editor_menu_section = None;
                self.menus.open_editor_file_menu_section = None;
                self.menus.hovered_editor_file_menu_section = None;
                none
            },
            PaneMessage::SetEditorHeaderMenuSection(section) => {
                self.menus.open_editor_menu_section = section;
                if section != Some(EditorHeaderMenuSection::File) {
                    self.menus.open_editor_file_menu_section = None;
                    self.menus.hovered_editor_file_menu_section = None;
                }
                none
            },
            PaneMessage::HoverEditorFileMenuSection { section, expanded } => {
                self.menus.hovered_editor_file_menu_section = section;
                self.menus.open_editor_file_menu_section = if expanded {
                    section
                } else {
                    None
                };
                none
            },
            PaneMessage::CloseHeaderOverflowMenu => {
                self.menus.close_headers();
                none
            },
            PaneMessage::ToggleProjectMenu => {
                self.menus.close_headers();
                self.menus.open_project_menu = !self.menus.open_project_menu;
                if !self.menus.open_project_menu {
                    self.menus.open_project_recent = false;
                } else {
                    self.menus.open_project_menu_section = Some(ProjectMenuSection::Project);
                }
                none
            },
            PaneMessage::CloseProjectMenu => {
                self.menus.open_project_menu = false;
                self.menus.open_project_recent = false;
                none
            },
            PaneMessage::SetProjectRecentOpen(open) => {
                self.menus.open_project_recent = open;
                none
            },
            PaneMessage::SetProjectMenuSection(section) => {
                self.menus.open_project_menu_section = section;
                self.menus.open_project_recent = false;
                none
            },
            PaneMessage::TooltipHovered(key) => {
                self.hovered_tooltip_key = copy_opt_string(&key);
                self.open_tooltip_key = key;
                none
            },
            PaneMessage::ToggleWorkspacePane(pane) => {
                self.menus.open_project_menu = false;
                self.menus.open_project_recent = false;
                self.menus.close_headers();
                let changed = if self.is_pane_folded(pane) {
                    self.unfold_workspace_pane(pane)
                } else {
                    self.fold_workspace_pane(pane)
                };
                if changed {
                    if pane_group_position(&self.dock_groups, pane).is_some() {
                        self.set_focused_workspace_pane(pane);
                    } else {
                        self.normalize_focused_workspace_pane();
                    }
                    return PaneOutcome { persist_settings: true, restore_view_of: Some(pane), reset_drag_origin: false };
                }
                none
            },
            PaneMessage::WorkspaceDragReleased => {
                self.pressed_workspace_pane = None;
                if let Some(dragged) = self.dragged_workspace_pane {
                    if let Some(target) = self.dock_drop_target {
                        self.apply_dock_drop(dragged, target);
                        self.clear_workspace_drag_state();
                        self.menus.open_editor_menu_section = None;
                        self.menus.open_editor_file_menu_section = None;
                        self.menus.hovered_editor_file_menu_section = None;
                        return PaneOutcome { persist_settings: true, restore_view_of: Some(dragged), reset_drag_origin: true };
                    }
                }
                self.clear_workspace_drag_state();
                PaneOutcome { persist_settings: false, restore_view_of: None, reset_drag_origin: true }
            },
            PaneMessage::WorkspaceDragExited => {
                if self.dragged_workspace_pane.is_some() {
                    self.dock_drop_target = None;
                }
                none
            },
        }
    }
}

/// Whether the groups have distinct ids and show no pane twice.
pub fn groups_well_formed(groups: &Vec<DockGroupEntry>) -> (r: bool)
    ensures
        r == (ids_distinct(groups@) && panes_unique(groups@)),
{
    let n = groups.len();
    let mut a: usize = 0;
    while a < n
        invariant
            n == groups@.len(),
            a <= n,
            forall|x: int, y: int| 0 <= x < y < n && x < a ==> groups@[x].id != groups@[y].id,
            forall|x: int, y: int, p: WorkspacePaneKind|
                0 <= x < n && 0 <= y < n && x != y && (x < a || y < a)
                    && #[trigger] groups@[x].group.tabs@.contains(p) ==> !(
                #[trigger] groups@[y].group.tabs@.contains(p)),
        decreases n - a,
    {
        let mut b: usize = 0;
        while b < n
            invariant
                n == groups@.len(),
                a < n,
                b <= n,
                forall|x: int, y: int| 0 <= x < y < n && x < a ==> groups@[x].id != groups@[y].id,
                forall|y: int| a < y < n && y < b ==> groups@[a as int].id != groups@[y].id,
                forall|x: int, y: int, p: WorkspacePaneKind|
                    0 <= x < n && 0 <= y < n && x != y && (x < a || y < a)
                        && #[trigger] groups@[x].group.tabs@.contains(p) ==> !(
                    #[trigger] groups@[y].group.tabs@.contains(p)),
                forall|y: int, p: WorkspacePaneKind|
                    0 <= y < b && y != a && #[trigger] groups@[a as int].group.tabs@.contains(p) ==> !(
                    #[trigger] groups@[y].group.tabs@.contains(p)),
            decreases n - b,
        {
            if b != a {
                if b > a && groups[a].id == groups[b].id {
                    return false;
                }
                if tabs_overlap(&groups[a].group.tabs, &groups[b].group.tabs) {
                    proof {
                        let p = choose|p: WorkspacePaneKind| groups@[a as int].group.tabs@.contains(p) && groups@[b as int].group.tabs@.contains(p);
                        assert(!panes_unique(groups@));
                    }
                    return false;
                }
            }
            b = b + 1;
        }
        a = a + 1;
    }
    true
}

/// Whether two lists of tabs share a pane.
pub fn tabs_overlap(a: &Vec<WorkspacePaneKind>, b: &Vec<WorkspacePaneKind>) -> (r: bool)
    ensures
        r == exists|p: WorkspacePaneKind| a@.contains(p) && b@.contains(p),
{
    let mut i: usize = 0;
    while i < a.len()
        invariant
            i <= a@.len(),
            forall|j: int| 0 <= j < i ==> !b@.contains(#[trigger] a@[j]),
        decreases a.len() - i,
    {
        if tab_listed(b, a[i]) {
            proof {
                assert(a@.contains(a@[i as int]));
            }
            return true;
        }
        i = i + 1;
    }
    proof {
        if exists|p: WorkspacePaneKind| a@.contains(p) && b@.contains(p) {
            let p = choose|p: WorkspacePaneKind| a@.contains(p) && b@.contains(p);
            let j = choose|j: int| 0 <= j < a@.len() && a@[j] == p;
            assert(!b@.contains(a@[j]));
        }
    }
    false
}

/// Tidies folded panes loaded from settings: a pane that is shown, or already listed, is not
/// kept folded, and the mixer, when neither shown nor folded, is folded to come back on its
/// own.
pub fn normalize_loaded_folded_panes(groups: &Vec<DockGroupEntry>, folded: Vec<FoldedPaneState>) -> (r: Vec<
    FoldedPaneState,
>)
    ensures
        forall|a: int, b: int| 0 <= a < b < r@.len() ==> r@[a].pane != r@[b].pane,
        forall|k: int| 0 <= k < r@.len() ==> !spec_visible(groups@, #[trigger] r@[k].pane),
        forall|k: int| #![trigger r@[k]] 0 <= k < r@.len() && r@[k].pane != WorkspacePaneKind::Mixer ==> exists|j: int|
            0 <= j < folded@.len() && #[trigger] folded@[j].pane == r@[k].pane,
        forall|j: int| 0 <= j < folded@.len() && !spec_visible(groups@, #[trigger] folded@[j].pane)
            ==> spec_is_folded(r@, folded@[j].pane),
        spec_visible(groups@, WorkspacePaneKind::Mixer) || spec_is_folded(r@, WorkspacePaneKind::Mixer),
{
    let mut out: Vec<FoldedPaneState> = Vec::new();
    let mut folded = folded;
    let ghost original = folded@;
    let mut k: usize = 0;
    let n = folded.len();
    let mut rest: Vec<FoldedPaneState> = Vec::new();
    while folded.len() > 0
        invariant
            folded@.len() + k == n,
            n == original.len(),
            folded@ == original.subrange(k as int, n as int),
            forall|a: int, b: int| 0 <= a < b < out@.len() ==> out@[a].pane != out@[b].pane,
            forall|m: int| 0 <= m < out@.len() ==> !spec_visible(groups@, #[trigger] out@[m].pane),
            forall|m: int| #![trigger out@[m]] 0 <= m < out@.len() ==> exists|j: int|
                0 <= j < k && #[trigger] original[j].pane == out@[m].pane,
            forall|j: int| 0 <= j < k && !spec_visible(groups@, #[trigger] original[j].pane)
                ==> spec_is_folded(out@, original[j].pane),
        decreases folded@.len(),
    {
        let entry = folded.remove(0);
        proof {
            assert(entry == original[k as int]);
            assert(folded@ =~= original.subrange(k + 1, n as int));
        }
        let shown = pane_group_position(groups, entry.pane).is_some();
        let seen = folded_position(&out, entry.pane).is_some();
        if !shown && !seen {
            let ghost before = out@;
            out.push(entry);
            proof {
                let m0 = before.len() as int;
                assert(out@[m0] == original[k as int]);
                assert forall|a: int, b: int| 0 <= a < b < out@.len() implies out@[a].pane != out@[b].pane by {
                    if b == m0 {
                        assert(before[a].pane != original[k as int].pane);
                    }
                }
                assert forall|m: int| #![trigger out@[m]] 0 <= m < out@.len() implies exists|j: int|
                    0 <= j < k + 1 && #[trigger] original[j].pane == out@[m].pane by {
                    if m < m0 {
                        let j = choose|j: int| 0 <= j < k && #[trigger] original[j].pane == before[m].pane;
                    } else {
                        assert(original[k as int].pane == out@[m].pane);
                    }
                }
                assert forall|j: int| 0 <= j < k + 1 && !spec_visible(groups@, #[trigger] original[j].pane)
                    implies spec_is_folded(out@, original[j].pane) by {
                    if j < k {
                        let m = choose|m: int| 0 <= m < before.len() && #[trigger] before[m].pane == original[j].pane;
                        assert(out@[m] == before[m]);
                    } else {
                        assert(out@[m0].pane == original[j].pane);
                    }
                }
            }
        } else {
            proof {
                assert forall|m: int| #![trigger out@[m]] 0 <= m < out@.len() implies exists|j: int|
                    0 <= j < k + 1 && #[trigger] original[j].pane == out@[m].pane by {
                    let j = choose|j: int| 0 <= j < k && #[trigger] original[j].pane == out@[m].pane;
                }
            }
        }
        k = k + 1;
    }
    if pane_group_position(groups, WorkspacePaneKind::Mixer).is_none() && folded_position(&out, WorkspacePaneKind::Mixer).is_none() {
        let ghost before = out@;
        out.push(FoldedPaneState { pane: WorkspacePaneKind::Mixer, restore: FoldedPaneRestore::Standalone });
        proof {
            let m0 = before.len() as int;
            assert(out@[m0].pane == WorkspacePaneKind::Mixer);
            assert forall|a: int, b: int| 0 <= a < b < out@.len() implies out@[a].pane != out@[b].pane by {
                if b == m0 {
                    assert(before[a].pane != WorkspacePaneKind::Mixer);
                }
            }
            assert forall|j: int| 0 <= j < folded@.len() + k && !spec_visible(groups@, #[trigger] original[j].pane)
                implies spec_is_folded(out@, original[j].pane) by {
                let m = choose|m: int| 0 <= m < before.len() && #[trigger] before[m].pane == original[j].pane;
                assert(out@[m] == before[m]);
            }
            assert forall|m: int| #![trigger out@[m]] 0 <= m < out@.len() && out@[m].pane != WorkspacePaneKind::Mixer implies exists|j: int|
                0 <= j < original.len() && #[trigger] original[j].pane == out@[m].pane by {
                assert(m < m0);
                let j = choose|j: int| 0 <= j < k && #[trigger] original[j].pane == before[m].pane;
            }
        }
    } else {
        proof {
            assert forall|m: int| #![trigger out@[m]] 0 <= m < out@.len() && out@[m].pane != WorkspacePaneKind::Mixer implies exists|j: int|
                0 <= j < original.len() && #[trigger] original[j].pane == out@[m].pane by {
                let j = choose|j: int| 0 <= j < k && #[trigger] original[j].pane == out@[m].pane;
            }
        }
    }
    out
}

impl Workspace {
    /// A workspace made from loaded parts, with every menu closed and nothing focused,
    /// hovered or dragged; the folded panes are tidied first. There is none when group ids
    /// repeat or a pane is shown twice.
    pub fn from_parts(
        dock_layout: Option<DockNode>,
        dock_groups: Vec<DockGroupEntry>,
        next_dock_group_id: u64,
        folded_panes: Vec<FoldedPaneState>,
    ) -> (r: Option<Workspace>)
        ensures
            r is Some == (ids_distinct(dock_groups@) && panes_unique(dock_groups@)),
            r matches Some(ws) ==> ws.wf() && ws.dock_groups@ == dock_groups@ && ws.dock_layout
                == dock_layout && ws.next_dock_group_id == next_dock_group_id
                && ws.focused_workspace_pane is None && ws.menus == MenuState::new_spec(),
    {
        if !groups_well_formed(&dock_groups) {
            return None;
        }
        let folded = normalize_loaded_folded_panes(&dock_groups, folded_panes);
        Some(
            Workspace {
                dock_layout,
                dock_groups,
                next_dock_group_id,
                folded_panes: folded,
                focused_workspace_pane: None,
                editor_file_browser_focused: false,
                hovered_workspace_pane: None,
                pressed_workspace_pane: None,
                dragged_workspace_pane: None,
                dock_drop_target: None,
                piano_roll_visible: true,
                menus: MenuState::new(),
                hovered_tooltip_key: None,
                open_tooltip_key: None,
            },
        )
    }
}

impl MenuState {
    /// Every menu closed.
    pub open spec fn new_spec() -> MenuState {
        MenuState {
            open_project_menu: false,
            open_project_menu_section: None,
            open_project_recent: false,
            open_header_overflow_menu: None,
            open_editor_menu_section: None,
            open_editor_file_menu_section: None,
            hovered_editor_file_menu_section: None,
        }
    }
}

/// Unfolding a pane whose return is guaranteed shows it again and focuses it: a pane folded
/// from a group it shared, or to come back on its own, is restored; any other folded pane is
/// placed by the fallback whenever there are no groups or the layout's leftmost group exists.
pub proof fn law_unfold_restores_folded_pane(
    before: Workspace,
    after: Workspace,
    pane: WorkspacePaneKind,
    r: bool,
)
    requires
        spec_unfold_guaranteed(before, pane),
        spec_unfold_outcome(before, after, pane, r),
    ensures
        r,
        after.visible(pane),
        !spec_is_folded(after.folded_panes@, pane),
        after.focused_workspace_pane == Some(pane),
{
}

/// Taking `pane` out of group `i` hides it and keeps every other pane as it was.
pub proof fn lemma_fold_tab_groups(g0: Seq<DockGroupEntry>, i: int, e: DockGroupEntry, pane: WorkspacePaneKind)
    requires
        ids_distinct(g0),
        panes_unique(g0),
        0 <= i < g0.len(),
        g0[i].group.tabs@.contains(pane),
        e.id == g0[i].id,
        e.group.tabs@ == spec_without(g0[i].group.tabs@, pane),
    ensures
        ids_distinct(g0.update(i, e)),
        panes_unique(g0.update(i, e)),
        !spec_visible(g0.update(i, e), pane),
        forall|q: WorkspacePaneKind| q != pane ==> (#[trigger] spec_visible(g0.update(i, e), q) == spec_visible(g0, q)),
{
    let g1 = g0.update(i, e);
    lemma_without_contains(g0[i].group.tabs@, pane);
    lemma_update_visible(g0, i, e);
    assert forall|a: int, b: int| 0 <= a < b < g1.len() implies g1[a].id != g1[b].id by {
        assert(g0[a].id != g0[b].id);
    }
    if spec_visible(g1, pane) {
        if !e.group.tabs@.contains(pane) {
            let k = choose|k: int| 0 <= k < g0.len() && k != i && #[trigger] g0[k].group.tabs@.contains(pane);
        }
    }
    assert forall|q: WorkspacePaneKind| q != pane implies (#[trigger] spec_visible(g1, q) == spec_visible(g0, q)) by {
        if spec_visible(g0, q) {
            let k = choose|k: int| 0 <= k < g0.len() && #[trigger] g0[k].group.tabs@.contains(q);
            if k == i {
                assert(e.group.tabs@.contains(q));
            }
        }
        if spec_visible(g1, q) {
            if e.group.tabs@.contains(q) {
                assert(g0[i].group.tabs@.contains(q));
            } else {
                let k = choose|k: int| 0 <= k < g0.len() && k != i && #[trigger] g0[k].group.tabs@.contains(q);
            }
        }
    }
}

/// Removing the group that showed only `pane` hides it and keeps every other pane as it was.
pub proof fn lemma_fold_lone_groups(g0: Seq<DockGroupEntry>, i: int, pane: WorkspacePaneKind)
    requires
        ids_distinct(g0),
        panes_unique(g0),
        0 <= i < g0.len(),
        g0[i].group.tabs@.contains(pane),
        g0[i].group.tabs@.len() <= 1,
    ensures
        ids_distinct(g0.remove(i)),
        panes_unique(g0.remove(i)),
        !spec_visible(g0.remove(i), pane),
        forall|q: WorkspacePaneKind| q != pane ==> (#[trigger] spec_visible(g0.remove(i), q) == spec_visible(g0, q)),
        spec_group_index(g0, g0[i].id) == Some(i),
{
    lemma_remove_visible(g0, i);
    lemma_index_of_id(g0, i, g0[i].id);
    let g1 = g0.remove(i);
    if spec_visible(g1, pane) {
        let k = choose|k: int| 0 <= k < g0.len() && k != i && #[trigger] g0[k].group.tabs@.contains(pane);
    }
    assert forall|q: WorkspacePaneKind| q != pane implies (#[trigger] spec_visible(g1, q) == spec_visible(g0, q)) by {
        if spec_visible(g0, q) {
            let k = choose|k: int| 0 <= k < g0.len() && #[trigger] g0[k].group.tabs@.contains(q);
            if k == i {
                let j = choose|j: int| 0 <= j < g0[i].group.tabs@.len() && g0[i].group.tabs@[j] == q;
                let m = choose|m: int| 0 <= m < g0[i].group.tabs@.len() && g0[i].group.tabs@[m] == pane;
            }
        }
        if spec_visible(g1, q) {
            let k = choose|k: int| 0 <= k < g0.len() && k != i && #[trigger] g0[k].group.tabs@.contains(q);
        }
    }
}

/// Adding the newly folded `pane` keeps the folded panes distinct and hidden.
pub proof fn lemma_push_folded_wf(
    f0: Seq<FoldedPaneState>,
    entry: FoldedPaneState,
    g0: Seq<DockGroupEntry>,
    g1: Seq<DockGroupEntry>,
    pane: WorkspacePaneKind,
)
    requires
        entry.pane == pane,
        !spec_is_folded(f0, pane),
        !spec_visible(g1, pane),
        forall|a: int, b: int| 0 <= a < b < f0.len() ==> f0[a].pane != f0[b].pane,
        forall|k: int| 0 <= k < f0.len() ==> !spec_visible(g0, #[trigger] f0[k].pane),
        forall|q: WorkspacePaneKind| q != pane ==> (#[trigger] spec_visible(g1, q) == spec_visible(g0, q)),
    ensures
        forall|a: int, b: int| 0 <= a < b < f0.push(entry).len() ==> f0.push(entry)[a].pane != f0.push(entry)[b].pane,
        forall|k: int| 0 <= k < f0.push(entry).len() ==> !spec_visible(g1, #[trigger] f0.push(entry)[k].pane),
        spec_is_folded(f0.push(entry), pane),
{
    let f1 = f0.push(entry);
    let n = f0.len() as int;
    assert(f1[n].pane == pane);
    assert forall|a: int, b: int| 0 <= a < b < f1.len() implies f1[a].pane != f1[b].pane by {
        if b < n {
            assert(f0[a].pane != f0[b].pane);
        } else {
            assert(f1[a] == f0[a]);
            if f0[a].pane == pane {
                assert(spec_is_folded(f0, pane));
            }
        }
    }
    assert forall|k: int| 0 <= k < f1.len() implies !spec_visible(g1, #[trigger] f1[k].pane) by {
        if k < n {
            let q = f0[k].pane;
            assert(f1[k] == f0[k]);
            if q == pane {
                assert(spec_is_folded(f0, pane));
            }
            assert(!spec_visible(g0, q));
        }
    }
}

/// The entry at `i` holds id `id`, so it is the one with that id.
pub proof fn lemma_index_of_id(g: Seq<DockGroupEntry>, i: int, id: u64)
    requires
        ids_distinct(g),
        0 <= i < g.len(),
        g[i].id == id,
    ensures
        spec_group_index(g, id) == Some(i),
{
    let c = choose|c: int| 0 <= c < g.len() && g[c].id == id;
    if c != i {
        if c < i {
            assert(g[c].id != g[i].id);
        } else {
            assert(g[i].id != g[c].id);
        }
    }
}

/// Where `pane` stands among the folded panes, if it is folded.
pub fn folded_position(folded: &Vec<FoldedPaneState>, pane: WorkspacePaneKind) -> (r: Option<
    usize,
>)
    ensures
        match r {
            Some(i) => i < folded@.len() && folded@[i as int].pane == pane,
            None => !spec_is_folded(folded@, pane),
        },
{
    let mut i: usize = 0;
    while i < folded.len()
        invariant
            i <= folded@.len(),
            forall|j: int| 0 <= j < i ==> folded@[j].pane != pane,
        decreases folded.len() - i,
    {
        if folded[i].pane == pane {
            return Some(i);
        }
        i = i + 1;
    }
    None
}

/// The groups after group `id` was made to show `pane` alone: the group with that id is
/// replaced, or the new group comes last; every other group stays.
pub open spec fn groups_after_restore(
    g0: Seq<DockGroupEntry>,
    id: u64,
    pane: WorkspacePaneKind,
    g1: Seq<DockGroupEntry>,
) -> bool {
    let i: int = match spec_group_index(g0, id) {
        Some(i) => i,
        None => g0.len() as int,
    };
    &&& g1.len() == if i == g0.len() {
        g0.len() + 1
    } else {
        g0.len() + 0
    }
    &&& forall|k: int| 0 <= k < g0.len() && k != i ==> #[trigger] g1[k] == g0[k]
    &&& g1[i].id == id
    &&& g1[i].group.tabs@ == seq![pane]
    &&& g1[i].group.active == pane
}

/// The groups after group `id` was made to show `pane` alone (see `groups_after_restore`).
pub open spec fn restored_groups(g0: Seq<DockGroupEntry>, id: u64, pane: WorkspacePaneKind) -> Seq<
    DockGroupEntry,
> {
    choose|g1: Seq<DockGroupEntry>| groups_after_restore(g0, id, pane, g1)
}

/// Where a split restore puts group `new_id`: the layout with the leftmost subtree showing
/// exactly `siblings` split, or else with the group showing `anchor` split; nothing when
/// there is no layout or neither is found.
pub open spec fn spec_split_restore(
    layout: Option<DockNode>,
    groups: Seq<DockGroupEntry>,
    new_id: u64,
    anchor: WorkspacePaneKind,
    axis: DockAxis,
    ratio_bits: u32,
    insert_first: bool,
    siblings: Seq<WorkspacePaneKind>,
) -> Option<DockNode> {
    match layout {
        None => None,
        Some(l) => {
            let by_siblings = spec_replace_subtree_with_split(l, axis, ratio_bits, new_id, insert_first, siblings, groups);
            if by_siblings.1 {
                Some(by_siblings.0)
            } else {
                match spec_group_for_pane(groups, anchor) {
                    Some(gid) => {
                        let by_anchor = spec_replace_group_with_split(l, gid, axis, ratio_bits, new_id, insert_first);
                        if by_anchor.1 {
                            Some(by_anchor.0)
                        } else {
                            None
                        }
                    },
                    None => None,
                }
            }
        },
    }
}

/// Two group lists with the same ids and tabs, place by place.
pub open spec fn same_ids_and_tabs(a: Seq<DockGroupEntry>, b: Seq<DockGroupEntry>) -> bool {
    &&& a.len() == b.len()
    &&& forall|k: int| 0 <= k < a.len() ==> (#[trigger] a[k]).id == b[k].id && a[k].group.tabs@ == b[k].group.tabs@
}

proof fn lemma_same_group_index(a: Seq<DockGroupEntry>, b: Seq<DockGroupEntry>, id: u64)
    requires
        same_ids_and_tabs(a, b),
        ids_distinct(a),
    ensures
        spec_group_index(a, id) == spec_group_index(b, id),
        spec_group_tabs(a, id) == spec_group_tabs(b, id),
{
    if exists|i: int| 0 <= i < a.len() && a[i].id == id {
        let i = choose|i: int| 0 <= i < a.len() && a[i].id == id;
        assert(b[i].id == id);
        let ia = spec_group_index(a, id)->0;
        let ib = spec_group_index(b, id)->0;
        assert(a[ia].id == id);
        assert(b[ib].id == id && a[ib].id == id);
        if ia != ib {
            if ia < ib {
                assert(a[ia].id != a[ib].id);
            } else {
                assert(a[ib].id != a[ia].id);
            }
        }
    } else {
        assert(!exists|i: int| 0 <= i < b.len() && b[i].id == id) by {
            if exists|i: int| 0 <= i < b.len() && b[i].id == id {
                let i = choose|i: int| 0 <= i < b.len() && b[i].id == id;
                assert(a[i].id == id);
            }
        }
    }
}

proof fn lemma_same_collected(node: DockNode, a: Seq<DockGroupEntry>, b: Seq<DockGroupEntry>)
    requires
        same_ids_and_tabs(a, b),
        ids_distinct(a),
    ensures
        spec_collected_panes(node, a) == spec_collected_panes(node, b),
        spec_panes_in_node(node, a) == spec_panes_in_node(node, b),
    decreases node,
{
    match node {
        DockNode::Group(id) => {
            lemma_same_group_index(a, b, id);
        },
        DockNode::Split { first, second, .. } => {
            lemma_same_collected(*first, a, b);
            lemma_same_collected(*second, a, b);
        },
    }
    assert(spec_panes_in_node(node, a) =~= spec_panes_in_node(node, b));
}

proof fn lemma_same_subtree_split(
    node: DockNode,
    axis: DockAxis,
    ratio_bits: u32,
    new_id: u64,
    insert_first: bool,
    target: Seq<WorkspacePaneKind>,
    a: Seq<DockGroupEntry>,
    b: Seq<DockGroupEntry>,
)
    requires
        same_ids_and_tabs(a, b),
        ids_distinct(a),
    ensures
        spec_replace_subtree_with_split(node, axis, ratio_bits, new_id, insert_first, target, a)
            == spec_replace_subtree_with_split(node, axis, ratio_bits, new_id, insert_first, target, b),
    decreases node,
{
    lemma_same_collected(node, a, b);
    match node {
        DockNode::Group(_) => {},
        DockNode::Split { first, second, .. } => {
            lemma_same_subtree_split(*first, axis, ratio_bits, new_id, insert_first, target, a, b);
            lemma_same_subtree_split(*second, axis, ratio_bits, new_id, insert_first, target, a, b);
        },
    }
}

proof fn lemma_same_group_for_pane(a: Seq<DockGroupEntry>, b: Seq<DockGroupEntry>, p: WorkspacePaneKind)
    requires
        same_ids_and_tabs(a, b),
        panes_unique(a),
    ensures
        spec_group_for_pane(a, p) == spec_group_for_pane(b, p),
{
    if spec_visible(a, p) {
        let i = showing_index(a, p);
        assert(b[i].group.tabs@.contains(p));
        let j = showing_index(b, p);
        assert(a[j].group.tabs@.contains(p));
        if i != j {
            assert(!a[j].group.tabs@.contains(p));
        }
    } else {
        if spec_visible(b, p) {
            let j = choose|j: int| 0 <= j < b.len() && #[trigger] b[j].group.tabs@.contains(p);
            assert(a[j].group.tabs@.contains(p));
        }
    }
}

/// The groups a restore made are, as far as the layout can tell, the groups that
/// `restored_groups` names.
proof fn lemma_restored_groups(g0: Seq<DockGroupEntry>, id: u64, pane: WorkspacePaneKind, g1: Seq<DockGroupEntry>)
    requires
        groups_after_restore(g0, id, pane, g1),
        ids_distinct(g1),
        panes_unique(g1),
    ensures
        forall|
            layout: Option<DockNode>,
            anchor: WorkspacePaneKind,
            axis: DockAxis,
            ratio_bits: u32,
            insert_first: bool,
            siblings: Seq<WorkspacePaneKind>,
        |
            #[trigger] spec_split_restore(layout, g1, id, anchor, axis, ratio_bits, insert_first, siblings)
                == spec_split_restore(
                layout,
                restored_groups(g0, id, pane),
                id,
                anchor,
                axis,
                ratio_bits,
                insert_first,
                siblings,
            ),
{
    let g2 = restored_groups(g0, id, pane);
    assert(groups_after_restore(g0, id, pane, g2));
    let i: int = match spec_group_index(g0, id) {
        Some(i) => i,
        None => g0.len() as int,
    };
    assert(same_ids_and_tabs(g1, g2)) by {
        assert forall|k: int| 0 <= k < g1.len() implies (#[trigger] g1[k]).id == g2[k].id
            && g1[k].group.tabs@ == g2[k].group.tabs@ by {
            if k != i {
                assert(g1[k] == g0[k] && g2[k] == g0[k]);
            }
        }
    }
    assert forall|
        layout: Option<DockNode>,
        anchor: WorkspacePaneKind,
        axis: DockAxis,
        ratio_bits: u32,
        insert_first: bool,
        siblings: Seq<WorkspacePaneKind>,
    |
        #[trigger] spec_split_restore(layout, g1, id, anchor, axis, ratio_bits, insert_first, siblings)
            == spec_split_restore(layout, g2, id, anchor, axis, ratio_bits, insert_first, siblings) by {
        lemma_same_group_for_pane(g1, g2, anchor);
        if let Some(l) = layout {
            lemma_same_subtree_split(l, axis, ratio_bits, id, insert_first, siblings, g1, g2);
        }
    }
}

/// The shown tab of group `id`, if it exists.
pub open spec fn spec_group_active(groups: Seq<DockGroupEntry>, id: u64) -> Option<WorkspacePaneKind> {
    match spec_group_index(groups, id) {
        Some(i) => Some(groups[i].group.active),
        None => None,
    }
}

/// Group `id` has the same tabs and shown tab in both lists (or is in neither).
pub open spec fn same_group(a: Seq<DockGroupEntry>, b: Seq<DockGroupEntry>, id: u64) -> bool {
    spec_group_tabs(a, id) == spec_group_tabs(b, id) && spec_group_active(a, id) == spec_group_active(b, id)
}

/// Replacing the entry at `si` by one with the same id leaves every other group as it was.
proof fn lemma_groups_after_update(g0: Seq<DockGroupEntry>, g1: Seq<DockGroupEntry>, si: int)
    requires
        ids_distinct(g0),
        0 <= si < g0.len(),
        g1.len() == g0.len(),
        g1[si].id == g0[si].id,
        forall|k: int| 0 <= k < g0.len() && k != si ==> #[trigger] g1[k] == g0[k],
    ensures
        ids_distinct(g1),
        forall|id: u64| id != g0[si].id ==> #[trigger] same_group(g0, g1, id),
{
    assert forall|a: int, b: int| 0 <= a < b < g1.len() implies g1[a].id != g1[b].id by {
        assert(g0[a].id != g0[b].id);
    }
    assert forall|id: u64| id != g0[si].id implies #[trigger] same_group(g0, g1, id) by {
        match spec_group_index(g0, id) {
            Some(t) => {
                assert(g1[t] == g0[t]);
                lemma_index_of_id(g1, t, id);
            },
            None => {
                if exists|k: int| 0 <= k < g1.len() && g1[k].id == id {
                    let k = choose|k: int| 0 <= k < g1.len() && g1[k].id == id;
                    assert(g0[k].id == id);
                }
            },
        }
    }
}

/// Making group `id` show `pane` alone and then dropping it again leaves every other group as
/// it was, and no groups when there were none.
proof fn lemma_split_failed_groups(g0: Seq<DockGroupEntry>, g1: Seq<DockGroupEntry>, id: u64, pane: WorkspacePaneKind)
    requires
        groups_after_restore(g0, id, pane, g1),
        ids_distinct(g0),
        ids_distinct(g1),
    ensures
        spec_group_index(g1, id) is Some,
        forall|x: u64| x != id ==> #[trigger] same_group(g0, g1.remove(spec_group_index(g1, id)->0), x),
        g0.len() == 0 ==> g1.remove(spec_group_index(g1, id)->0).len() == 0,
{
    let i: int = match spec_group_index(g0, id) {
        Some(i) => i,
        None => g0.len() as int,
    };
    lemma_index_of_id(g1, i, id);
    let g2 = g1.remove(i);
    lemma_groups_after_remove(g1, i);
    lemma_groups_after_restore_same(g0, id, pane, g1);
    assert forall|x: u64| x != id implies #[trigger] same_group(g0, g2, x) by {
        assert(same_group(g1, g2, x));
        assert(same_group(g0, g1, x));
    }
}

/// Removing the entry at `si` leaves every other group as it was.
proof fn lemma_groups_after_remove(g1: Seq<DockGroupEntry>, si: int)
    requires
        ids_distinct(g1),
        0 <= si < g1.len(),
    ensures
        forall|id: u64| id != g1[si].id ==> #[trigger] same_group(g1, g1.remove(si), id),
{
    let g2 = g1.remove(si);
    assert forall|id: u64| id != g1[si].id implies #[trigger] same_group(g1, g2, id) by {
        assert forall|a: int, b: int| 0 <= a < b < g2.len() implies g2[a].id != g2[b].id by {
            let a1 = if a < si { a } else { a + 1 };
            let b1 = if b < si { b } else { b + 1 };
            assert(g1[a1].id != g1[b1].id);
        }
        match spec_group_index(g1, id) {
            Some(t) => {
                let t2 = if t < si { t } else { t - 1 };
                assert(g2[t2] == g1[t]);
                lemma_index_of_id(g2, t2, id);
            },
            None => {
                if exists|k: int| 0 <= k < g2.len() && g2[k].id == id {
                    let k = choose|k: int| 0 <= k < g2.len() && g2[k].id == id;
                    let k1 = if k < si { k } else { k + 1 };
                    assert(g1[k1].id == id);
                }
            },
        }
    }
}

/// The shown tab of a group once `pane` left it: unchanged, unless `pane` was shown; then
/// the first remaining tab, or the score when none remains.
pub open spec fn spec_active_after_take(entry: DockGroupEntry, pane: WorkspacePaneKind) -> WorkspacePaneKind {
    if entry.group.active == pane {
        let rest = spec_without(entry.group.tabs@, pane);
        if rest.len() > 0 {
            rest[0]
        } else {
            WorkspacePaneKind::Score
        }
    } else {
        entry.group.active
    }
}

/// Making group `id` show `pane` alone leaves every other group as it was.
proof fn lemma_groups_after_restore_same(g0: Seq<DockGroupEntry>, id: u64, pane: WorkspacePaneKind, g1: Seq<DockGroupEntry>)
    requires
        groups_after_restore(g0, id, pane, g1),
        ids_distinct(g0),
        ids_distinct(g1),
    ensures
        forall|x: u64| x != id ==> #[trigger] same_group(g0, g1, x),
{
    let i: int = match spec_group_index(g0, id) {
        Some(i) => i,
        None => g0.len() as int,
    };
    assert forall|x: u64| x != id implies #[trigger] same_group(g0, g1, x) by {
        match spec_group_index(g0, x) {
            Some(t) => {
                assert(t != i);
                assert(g1[t] == g0[t]);
                lemma_index_of_id(g1, t, x);
            },
            None => {
                if exists|k: int| 0 <= k < g1.len() && g1[k].id == x {
                    let k = choose|k: int| 0 <= k < g1.len() && g1[k].id == x;
                    assert(k != i);
                    assert(g0[k].id == x);
                }
            },
        }
    }
}

/// The group a dragged pane comes from.
pub open spec fn drop_source(ws: Workspace, dragged: WorkspacePaneKind) -> DockGroupEntry {
    ws.dock_groups@[showing_index(ws.dock_groups@, dragged)]
}

/// Whether taking the dragged pane out empties its group.
pub open spec fn source_emptied(ws: Workspace, dragged: WorkspacePaneKind) -> bool {
    spec_without(drop_source(ws, dragged).group.tabs@, dragged).len() == 0
}

/// The layout once the dragged pane left its group: an emptied group other than the target
/// is pruned from it (from a layout of the target alone, when there was none).
pub open spec fn spec_layout_after_take(ws: Workspace, dragged: WorkspacePaneKind, target_id: u64) -> Option<DockNode> {
    let source_id = drop_source(ws, dragged).id;
    if source_emptied(ws, dragged) && source_id != target_id {
        let l = match ws.dock_layout {
            Some(l) => l,
            None => DockNode::Group(target_id),
        };
        Some(
            match spec_prune_inner(l, source_id) {
                Some(n) => n,
                None => DockNode::Group(source_id),
            },
        )
    } else {
        ws.dock_layout
    }
}

/// What a drop does to the groups and the layout. On the centre of its own group the pane
/// becomes the first and shown tab. On the centre of another group it moves there, last,
/// as the shown tab; its old group loses it, and leaves the groups and the layout when
/// emptied. On an edge a new group showing only the pane is split off the target at half
/// the size.
pub open spec fn spec_drop_effect(ws: Workspace, after: Workspace, dragged: WorkspacePaneKind, target: DockDropTarget) -> bool {
    let g0 = ws.dock_groups@;
    let g1 = after.dock_groups@;
    let source = drop_source(ws, dragged);
    let tgt = target.group_id;
    if target.region == DockDropRegion::Center {
        &&& spec_group_active(g1, tgt) == Some(dragged)
        &&& if source.id == tgt {
            &&& spec_group_tabs(g1, tgt) == Some(spec_front(source.group.tabs@, dragged))
            &&& after.dock_layout == ws.dock_layout
            &&& forall|id: u64| id != tgt ==> #[trigger] same_group(g0, g1, id)
        } else {
            &&& spec_group_tabs(g1, tgt) == Some(spec_without(spec_group_tabs(g0, tgt)->0, dragged).push(dragged))
            &&& source_emptied(ws, dragged) ==> spec_group_index(g1, source.id) is None
            &&& !source_emptied(ws, dragged) ==> spec_group_tabs(g1, source.id) == Some(
                spec_without(source.group.tabs@, dragged),
            ) && spec_group_active(g1, source.id) == Some(spec_active_after_take(source, dragged))
            &&& after.dock_layout == spec_layout_after_take(ws, dragged, tgt)
            &&& forall|id: u64| id != tgt && id != source.id ==> #[trigger] same_group(g0, g1, id)
        }
    } else {
        &&& spec_group_tabs(g1, ws.next_dock_group_id) == Some(seq![dragged])
        &&& spec_group_active(g1, ws.next_dock_group_id) == Some(dragged)
        &&& source_emptied(ws, dragged) && source.id != tgt && source.id != ws.next_dock_group_id
            ==> spec_group_index(g1, source.id) is None
        &&& !(source_emptied(ws, dragged) && source.id != tgt) && source.id != ws.next_dock_group_id
            ==> spec_group_tabs(g1, source.id) == Some(spec_without(source.group.tabs@, dragged))
            && spec_group_active(g1, source.id) == Some(spec_active_after_take(source, dragged))
        &&& forall|id: u64| id != source.id && id != ws.next_dock_group_id ==> #[trigger] same_group(g0, g1, id)
        &&& after.dock_layout == spec_edge_layout(ws, dragged, target)
        &&& after.next_dock_group_id == (if ws.next_dock_group_id == u64::MAX {
            u64::MAX
        } else {
            (ws.next_dock_group_id + 1) as u64
        })
    }
}

/// The split a drop on an edge makes: its axis, and whether the dropped pane comes first.
pub open spec fn spec_edge_split(region: DockDropRegion) -> (DockAxis, bool) {
    match region {
        DockDropRegion::Top => (DockAxis::Horizontal, true),
        DockDropRegion::Bottom => (DockAxis::Horizontal, false),
        DockDropRegion::Left => (DockAxis::Vertical, true),
        _ => (DockAxis::Vertical, false),
    }
}

/// The layout after a drop on an edge: the target group split at half the size with the new
/// group, in the layout the dragged pane left.
pub open spec fn spec_edge_layout(ws: Workspace, dragged: WorkspacePaneKind, target: DockDropTarget) -> Option<DockNode> {
    let (axis, insert_first) = spec_edge_split(target.region);
    match spec_layout_after_take(ws, dragged, target.group_id) {
        Some(l) => Some(
            spec_replace_group_with_split(l, target.group_id, axis, HALF_RATIO_BITS, ws.next_dock_group_id, insert_first).0,
        ),
        None => Some(DockNode::Group(ws.next_dock_group_id)),
    }
}

} // verus!
