//! Loading a saved workspace layout: the saved form of the dock tree, the migration that gives
//! layouts saved before the logger existed a logger pane, and the runtime tree built from it.

use vstd::prelude::*;

use crate::dock::{
    first_active_workspace_pane, group_index, pane_listed, spec_group_index, spec_first_active_pane, DockAxis, DockGroup,
    DockGroupEntry, DockNode,
};
use crate::shortcuts::WorkspacePaneKind;
use crate::workspace::{
    copy_tabs, spec_is_folded, FoldedPaneRestore, FoldedPaneState, MenuState, Workspace,
};

verus! {

/// A saved dock group: its tabs and the tab shown.
#[derive(Debug, Clone)]
pub struct DockGroupSettings {
    pub tabs: Vec<WorkspacePaneKind>,
    pub active: WorkspacePaneKind,
}

/// A saved dock tree. A split's ratio is kept as the bits of its `f32`, already clamped to the
/// range that the layout accepts.
#[derive(Debug)]
pub enum DockNodeSettings {
    Group(DockGroupSettings),
    Split {
        axis: DockAxis,
        ratio_bits: u32,
        first: Box<DockNodeSettings>,
        second: Box<DockNodeSettings>,
    },
}

/// The bits of the `f32` 0.74, the share of the area that the rest of the layout keeps above
/// the logger that migration adds.
pub const LOGGER_SPLIT_RATIO_BITS: u32 = 1060991140u32;

/// Whether a saved tree shows `pane` in one of its groups.
pub open spec fn spec_settings_contains_pane(node: DockNodeSettings, pane: WorkspacePaneKind) -> bool
    decreases node,
{
    match node {
        DockNodeSettings::Group(group) => group.tabs@.contains(pane),
        DockNodeSettings::Split { first, second, .. } => spec_settings_contains_pane(*first, pane)
            || spec_settings_contains_pane(*second, pane),
    }
}

/// Whether a saved tree shows `pane` in one of its groups.
pub fn dock_node_settings_contains_pane(node: &DockNodeSettings, pane: WorkspacePaneKind) -> (r:
    bool)
    ensures
        r == spec_settings_contains_pane(*node, pane),
    decreases node,
{
    match node {
        DockNodeSettings::Group(group) => pane_listed(&group.tabs, pane),
        DockNodeSettings::Split { first, second, .. } => {
            dock_node_settings_contains_pane(first, pane) || dock_node_settings_contains_pane(
                second,
                pane,
            )
        },
    }
}

/// Whether a saved layout has a logger, shown or folded.
pub open spec fn spec_layout_has_logger(root: Option<DockNodeSettings>, folded: Seq<FoldedPaneState>) -> bool {
    ||| (root matches Some(node) && spec_settings_contains_pane(node, WorkspacePaneKind::Logger))
    ||| exists|k: int| 0 <= k < folded.len() && #[trigger] folded[k].pane == WorkspacePaneKind::Logger
}

/// The saved tree that stands for "no layout": one group with no tabs, showing the score.
pub open spec fn spec_empty_layout(node: DockNodeSettings) -> bool {
    node matches DockNodeSettings::Group(group) && group.tabs@.len() == 0 && group.active
        == WorkspacePaneKind::Score
}

/// A group of the logger alone.
pub open spec fn spec_logger_group(node: DockNodeSettings) -> bool {
    node matches DockNodeSettings::Group(group) && group.tabs@ == seq![WorkspacePaneKind::Logger]
        && group.active == WorkspacePaneKind::Logger
}

/// Whether any folded pane is the logger.
fn logger_folded(folded: &Vec<FoldedPaneState>) -> (r: bool)
    ensures
        r == exists|k: int| 0 <= k < folded@.len() && #[trigger] folded@[k].pane == WorkspacePaneKind::Logger,
{
    let mut k: usize = 0;
    while k < folded.len()
        invariant
            k <= folded@.len(),
            forall|j: int| 0 <= j < k ==> folded@[j].pane != WorkspacePaneKind::Logger,
        decreases folded.len() - k,
    {
        if folded[k].pane == WorkspacePaneKind::Logger {
            return true;
        }
        k += 1;
    }
    false
}

/// A layout saved before the logger existed has neither a logger tab nor a folded logger: it
/// gets one below the rest, which keeps 0.74 of the height. A layout that has a logger is left
/// as it is, so migrating twice changes nothing more than migrating once.
pub fn migrate_workspace_layout(root: &mut Option<DockNodeSettings>, folded: &Vec<FoldedPaneState>)
    ensures
        spec_layout_has_logger(*old(root), folded@) ==> *final(root) == *old(root),
        !spec_layout_has_logger(*old(root), folded@) ==> (*final(root) matches Some(
            DockNodeSettings::Split { axis, ratio_bits, first, second },
        ) && axis == DockAxis::Horizontal && ratio_bits == LOGGER_SPLIT_RATIO_BITS
            && spec_logger_group(*second) && match *old(root) {
            Some(previous) => *first == previous,
            None => spec_empty_layout(*first),
        }),
        spec_layout_has_logger(*final(root), folded@),
{
    let shown = match root {
        Some(node) => dock_node_settings_contains_pane(node, WorkspacePaneKind::Logger),
        None => false,
    };
    if shown || logger_folded(folded) {
        return ;
    }
    let previous = match root.take() {
        Some(node) => node,
        None => DockNodeSettings::Group(
            DockGroupSettings { tabs: Vec::new(), active: WorkspacePaneKind::Score },
        ),
    };
    let logger = DockNodeSettings::Group(
        DockGroupSettings {
            tabs: vec![WorkspacePaneKind::Logger],
            active: WorkspacePaneKind::Logger,
        },
    );
    proof {
        assert(spec_settings_contains_pane(logger, WorkspacePaneKind::Logger)) by {
            if let DockNodeSettings::Group(g) = logger {
                assert(g.tabs@[0] == WorkspacePaneKind::Logger);
            }
        }
        assert(spec_logger_group(logger)) by {
            if let DockNodeSettings::Group(g) = logger {
                assert(g.tabs@ =~= seq![WorkspacePaneKind::Logger]);
            }
        }
    }
    *root = Some(
        DockNodeSettings::Split {
            axis: DockAxis::Horizontal,
            ratio_bits: LOGGER_SPLIT_RATIO_BITS,
            first: Box::new(previous),
            second: Box::new(logger),
        },
    );
}

/// The groups of a saved tree, left to right.
pub open spec fn spec_settings_groups(node: DockNodeSettings) -> Seq<DockGroupSettings>
    decreases node,
{
    match node {
        DockNodeSettings::Group(group) => seq![group],
        DockNodeSettings::Split { first, second, .. } => spec_settings_groups(*first)
            + spec_settings_groups(*second),
    }
}

/// The tabs a loaded group gets: the saved ones, or the score alone when none were saved.
pub open spec fn spec_loaded_tabs(tabs: Seq<WorkspacePaneKind>) -> Seq<WorkspacePaneKind> {
    if tabs.len() == 0 {
        seq![WorkspacePaneKind::Score]
    } else {
        tabs
    }
}

/// The tab a loaded group shows: the saved one when it is among the tabs, else the first tab.
pub open spec fn spec_loaded_active(tabs: Seq<WorkspacePaneKind>, active: WorkspacePaneKind) -> WorkspacePaneKind {
    if spec_loaded_tabs(tabs).contains(active) {
        active
    } else {
        spec_loaded_tabs(tabs)[0]
    }
}

/// The id `k` steps after `next`, where ids stop at the largest one.
pub open spec fn spec_id_after(next: u64, k: int) -> u64 {
    if next + k <= u64::MAX {
        (next + k) as u64
    } else {
        u64::MAX
    }
}

/// The runtime tree has the saved tree's splits, and its group leaves are numbered left to
/// right from `next`.
pub open spec fn spec_loaded_shape(saved: DockNodeSettings, node: DockNode, next: u64) -> bool
    decreases saved,
{
    match saved {
        DockNodeSettings::Group(_) => node == DockNode::Group(next),
        DockNodeSettings::Split { axis, ratio_bits, first, second } => match node {
            DockNode::Split { axis: a, ratio_bits: r, first: f, second: s } => {
                &&& a == axis
                &&& r == ratio_bits
                &&& spec_loaded_shape(*first, *f, next)
                &&& spec_loaded_shape(
                    *second,
                    *s,
                    spec_id_after(next, spec_settings_groups(*first).len() as int),
                )
            },
            DockNode::Group(_) => false,
        },
    }
}

/// The loaded entry of a saved group: id `id`, and the group's tabs and shown tab as loading
/// gives them.
pub open spec fn spec_loaded_entry(entry: DockGroupEntry, saved: DockGroupSettings, id: u64) -> bool {
    &&& entry.id == id
    &&& entry.group.tabs@ == spec_loaded_tabs(saved.tabs@)
    &&& entry.group.active == spec_loaded_active(saved.tabs@, saved.active)
}

/// Builds the runtime tree of a saved tree, numbering its groups from `next_id` on and adding
/// them to `groups` left to right. A group saved with no tabs shows the score; a group whose
/// shown tab is not among its tabs shows its first tab.
pub fn dock_node_from_settings(
    node: &DockNodeSettings,
    next_id: &mut u64,
    groups: &mut Vec<DockGroupEntry>,
) -> (r: DockNode)
    ensures
        spec_loaded_shape(*node, r, *old(next_id)),
        *final(next_id) == spec_id_after(*old(next_id), spec_settings_groups(*node).len() as int),
        final(groups)@.len() == old(groups)@.len() + spec_settings_groups(*node).len(),
        forall|k: int| 0 <= k < old(groups)@.len() ==> final(groups)@[k] == old(groups)@[k],
        forall|k: int|
            0 <= k < spec_settings_groups(*node).len() ==> spec_loaded_entry(
                #[trigger] final(groups)@[old(groups)@.len() + k],
                spec_settings_groups(*node)[k],
                spec_id_after(*old(next_id), k),
            ),
    decreases node,
{
    match node {
        DockNodeSettings::Group(group) => {
            let group_id = *next_id;
            *next_id = next_id.saturating_add(1);
            let mut tabs = copy_tabs(&group.tabs);
            if tabs.len() == 0 {
                tabs.push(WorkspacePaneKind::Score);
            }
            proof {
                assert(tabs@ == spec_loaded_tabs(group.tabs@));
            }
            let active = if pane_listed(&tabs, group.active) {
                group.active
            } else {
                tabs[0]
            };
            groups.push(DockGroupEntry { id: group_id, group: DockGroup { tabs, active } });
            proof {
                assert(spec_settings_groups(*node) == seq![*group]);
            }
            DockNode::Group(group_id)
        },
        DockNodeSettings::Split { axis, ratio_bits, first, second } => {
            let ghost start = *next_id;
            let ghost before = groups@;
            let a = dock_node_from_settings(first, next_id, groups);
            let ghost middle = groups@;
            let ghost mid_id = *next_id;
            let b = dock_node_from_settings(second, next_id, groups);
            proof {
                let n1 = spec_settings_groups(**first).len() as int;
                let n2 = spec_settings_groups(**second).len() as int;
                let all = spec_settings_groups(*node);
                assert(all == spec_settings_groups(**first) + spec_settings_groups(**second));
                assert(mid_id == spec_id_after(start, n1));
                assert forall|k: int| 0 <= k < before.len() implies groups@[k] == before[k] by {
                    assert(middle[k] == before[k]);
                }
                assert forall|k: int| 0 <= k < all.len() implies spec_loaded_entry(
                    #[trigger] groups@[before.len() + k],
                    all[k],
                    spec_id_after(start, k),
                ) by {
                    if k < n1 {
                        assert(groups@[before.len() + k] == middle[before.len() + k]);
                        assert(all[k] == spec_settings_groups(**first)[k]);
                    } else {
                        let j = k - n1;
                        assert(groups@[middle.len() + j] == groups@[before.len() + k]);
                        assert(all[k] == spec_settings_groups(**second)[j]);
                        assert(spec_id_after(mid_id, j) == spec_id_after(start, k));
                    }
                }
            }
            DockNode::Split {
                axis: *axis,
                ratio_bits: *ratio_bits,
                first: Box::new(a),
                second: Box::new(b),
            }
        },
    }
}

/// `layout`, `groups` and `next` are the runtime form of the saved tree `saved`: the tree has
/// its splits, its groups are numbered from 1 left to right as loading gives them, and `next`
/// is the next free id.
pub open spec fn spec_runtime_of(
    saved: DockNodeSettings,
    layout: DockNode,
    groups: Seq<DockGroupEntry>,
    next: u64,
) -> bool {
    let n = spec_settings_groups(saved).len() as int;
    &&& spec_loaded_shape(saved, layout, 1)
    &&& groups.len() == n
    &&& next == spec_id_after(1, n)
    &&& forall|k: int|
        0 <= k < n ==> spec_loaded_entry(
            #[trigger] groups[k],
            spec_settings_groups(saved)[k],
            spec_id_after(1, k),
        )
}

/// The runtime layout of a saved one: its tree, its groups numbered from 1 left to right, and
/// the next free group id. With no saved tree there is no layout and no group. The ids are
/// distinct.
pub fn build_dock_runtime(root: Option<&DockNodeSettings>) -> (r: (
    Option<DockNode>,
    Vec<DockGroupEntry>,
    u64,
))
    ensures
        match root {
            None => r.0 is None && r.1@.len() == 0 && r.2 == 1,
            Some(saved) => r.0 matches Some(node) && spec_runtime_of(*saved, node, r.1@, r.2),
        },
        crate::dock::ids_distinct(r.1@),
{
    let mut next_id: u64 = 1;
    let mut groups: Vec<DockGroupEntry> = Vec::new();
    let layout = match root {
        Some(saved) => {
            let node = dock_node_from_settings(saved, &mut next_id, &mut groups);
            let count = groups.len();
            proof {
                let n = spec_settings_groups(*saved).len() as int;
                assert forall|k: int| 0 <= k < n implies spec_loaded_entry(
                    #[trigger] groups@[k],
                    spec_settings_groups(*saved)[k],
                    spec_id_after(1, k),
                ) by {
                    assert(groups@[0 + k] == groups@[k]);
                }
                assert(groups@.len() == count);
                assert forall|i: int, j: int| 0 <= i < j < groups@.len() implies groups@[i].id
                    != groups@[j].id by {
                    assert(spec_loaded_entry(groups@[i], spec_settings_groups(*saved)[i], spec_id_after(1, i)));
                    assert(spec_loaded_entry(groups@[j], spec_settings_groups(*saved)[j], spec_id_after(1, j)));
                }
            }
            Some(node)
        },
        None => None,
    };
    (layout, groups, next_id)
}

/// The pane focused after a layout is loaded: the shown tab of the leftmost group, or of the
/// first group when the tree names none that exists.
pub open spec fn spec_loaded_focus(layout: Option<DockNode>, groups: Seq<DockGroupEntry>) -> Option<WorkspacePaneKind> {
    let from_tree = match layout {
        Some(node) => spec_first_active_pane(node, groups),
        None => None,
    };
    match from_tree {
        Some(p) => Some(p),
        None => if groups.len() > 0 {
            Some(groups[0].group.active)
        } else {
            None
        },
    }
}

/// The folded panes a loaded layout gets: the saved ones; with none saved and the piano roll
/// marked hidden, the piano roll folded to come back as a tab beside the score.
pub open spec fn spec_loaded_folded(folded: Seq<FoldedPaneState>, piano_visible: bool) -> Seq<FoldedPaneState> {
    if folded.len() == 0 && !piano_visible {
        seq![
            FoldedPaneState {
                pane: WorkspacePaneKind::PianoRoll,
                restore: FoldedPaneRestore::Tab { anchor: WorkspacePaneKind::Score },
            },
        ]
    } else {
        folded
    }
}

impl Workspace {
    /// Takes on a saved layout: its tree and groups, its folded panes, the piano roll shown
    /// unless folded, the focus on the leftmost group's shown tab, and no hover, press, drag,
    /// drop target or open menu left over.
    pub fn apply_workspace_state(
        &mut self,
        root: Option<DockNodeSettings>,
        folded_panes: Vec<FoldedPaneState>,
        piano_visible: bool,
    )
        ensures
            match root {
                None => final(self).dock_layout is None && final(self).dock_groups@.len() == 0
                    && final(self).next_dock_group_id == 1,
                Some(saved) => final(self).dock_layout matches Some(node) && spec_runtime_of(
                    saved,
                    node,
                    final(self).dock_groups@,
                    final(self).next_dock_group_id,
                ),
            },
            crate::dock::ids_distinct(final(self).dock_groups@),
            final(self).folded_panes@ == spec_loaded_folded(folded_panes@, piano_visible),
            final(self).piano_roll_visible == !spec_is_folded(
                final(self).folded_panes@,
                WorkspacePaneKind::PianoRoll,
            ),
            final(self).focused_workspace_pane == spec_loaded_focus(
                final(self).dock_layout,
                final(self).dock_groups@,
            ),
            final(self).hovered_workspace_pane is None,
            final(self).pressed_workspace_pane is None,
            final(self).dragged_workspace_pane is None,
            final(self).dock_drop_target is None,
            final(self).menus == MenuState::new_spec(),
            final(self).editor_file_browser_focused == old(self).editor_file_browser_focused,
            final(self).hovered_tooltip_key == old(self).hovered_tooltip_key,
            final(self).open_tooltip_key == old(self).open_tooltip_key,
    {
        let (layout, groups, next_id) = build_dock_runtime(root.as_ref());
        let mut folded = folded_panes;
        if folded.len() == 0 && !piano_visible {
            folded.push(
                FoldedPaneState {
                    pane: WorkspacePaneKind::PianoRoll,
                    restore: FoldedPaneRestore::Tab { anchor: WorkspacePaneKind::Score },
                },
            );
            proof {
                assert(folded@ =~= spec_loaded_folded(folded_panes@, piano_visible));
            }
        }
        let from_tree = match &layout {
            Some(node) => first_active_workspace_pane(node, &groups),
            None => None,
        };
        let focus = match from_tree {
            Some(pane) => Some(pane),
            None => if groups.len() > 0 {
                Some(groups[0].group.active)
            } else {
                None
            },
        };
        self.dock_layout = layout;
        self.dock_groups = groups;
        self.next_dock_group_id = next_id;
        self.folded_panes = folded;
        self.piano_roll_visible = !self.is_pane_folded(WorkspacePaneKind::PianoRoll);
        self.focused_workspace_pane = focus;
        self.hovered_workspace_pane = None;
        self.pressed_workspace_pane = None;
        self.dragged_workspace_pane = None;
        self.dock_drop_target = None;
        self.menus = MenuState::new();
    }
}

/// `saved` is what saving the runtime tree `node` gives: the same splits, and for each group
/// leaf its tabs and shown tab, or an empty group showing the score when the group is missing.
pub open spec fn spec_saved_form(node: DockNode, groups: Seq<DockGroupEntry>, saved: DockNodeSettings) -> bool
    decreases node,
{
    match node {
        DockNode::Group(id) => match saved {
            DockNodeSettings::Group(g) => match spec_group_index(groups, id) {
                Some(i) => g.tabs@ == groups[i].group.tabs@ && g.active == groups[i].group.active,
                None => g.tabs@.len() == 0 && g.active == WorkspacePaneKind::Score,
            },
            DockNodeSettings::Split { .. } => false,
        },
        DockNode::Split { axis, ratio_bits, first, second } => match saved {
            DockNodeSettings::Split { axis: a, ratio_bits: r, first: f, second: s } => {
                &&& a == axis
                &&& r == ratio_bits
                &&& spec_saved_form(*first, groups, *f)
                &&& spec_saved_form(*second, groups, *s)
            },
            DockNodeSettings::Group(_) => false,
        },
    }
}

/// The saved form of the runtime tree `node`: its splits, and for each group leaf its tabs
/// and shown tab (an empty group showing the score when the group is missing).
pub fn dock_node_to_settings(node: &DockNode, groups: &Vec<DockGroupEntry>) -> (r: DockNodeSettings)
    requires
        crate::dock::ids_distinct(groups@),
    ensures
        spec_saved_form(*node, groups@, r),
    decreases node,
{
    match node {
        DockNode::Group(group_id) => match group_index(groups, *group_id) {
            Some(i) => DockNodeSettings::Group(
                DockGroupSettings {
                    tabs: copy_tabs(&groups[i].group.tabs),
                    active: groups[i].group.active,
                },
            ),
            None => DockNodeSettings::Group(
                DockGroupSettings { tabs: Vec::new(), active: WorkspacePaneKind::Score },
            ),
        },
        DockNode::Split { axis, ratio_bits, first, second } => DockNodeSettings::Split {
            axis: *axis,
            ratio_bits: *ratio_bits,
            first: Box::new(dock_node_to_settings(first, groups)),
            second: Box::new(dock_node_to_settings(second, groups)),
        },
    }
}

/// Every group of a saved tree lists a tab and shows one of its tabs.
pub open spec fn spec_tidy_settings(node: DockNodeSettings) -> bool
    decreases node,
{
    match node {
        DockNodeSettings::Group(g) => g.tabs@.len() > 0 && g.tabs@.contains(g.active),
        DockNodeSettings::Split { first, second, .. } => spec_tidy_settings(*first)
            && spec_tidy_settings(*second),
    }
}

/// Two saved trees have the same splits and the same groups.
pub open spec fn spec_same_settings(a: DockNodeSettings, b: DockNodeSettings) -> bool
    decreases a,
{
    match a {
        DockNodeSettings::Group(g) => b matches DockNodeSettings::Group(h) && g.tabs@ == h.tabs@
            && g.active == h.active,
        DockNodeSettings::Split { axis, ratio_bits, first, second } => match b {
            DockNodeSettings::Split { axis: x, ratio_bits: y, first: f, second: s } => {
                &&& x == axis
                &&& y == ratio_bits
                &&& spec_same_settings(*first, *f)
                &&& spec_same_settings(*second, *s)
            },
            DockNodeSettings::Group(_) => false,
        },
    }
}

proof fn lemma_id_after_twice(a: int, b: int)
    requires
        0 <= a,
        0 <= b,
    ensures
        spec_id_after(spec_id_after(1, a), b) == spec_id_after(1, a + b),
{
}

proof fn lemma_round_trip_at(
    saved: DockNodeSettings,
    node: DockNode,
    groups: Seq<DockGroupEntry>,
    offset: int,
    resaved: DockNodeSettings,
)
    requires
        spec_tidy_settings(saved),
        0 <= offset,
        offset + spec_settings_groups(saved).len() <= groups.len(),
        crate::dock::ids_distinct(groups),
        spec_loaded_shape(saved, node, spec_id_after(1, offset)),
        forall|k: int|
            0 <= k < spec_settings_groups(saved).len() ==> spec_loaded_entry(
                #[trigger] groups[offset + k],
                spec_settings_groups(saved)[k],
                spec_id_after(1, offset + k),
            ),
        spec_saved_form(node, groups, resaved),
    ensures
        spec_same_settings(saved, resaved),
    decreases saved,
{
    match saved {
        DockNodeSettings::Group(g) => {
            let id = spec_id_after(1, offset);
            assert(spec_loaded_entry(groups[offset + 0], spec_settings_groups(saved)[0], spec_id_after(1, offset + 0)));
            assert(groups[offset].id == id);
            let i = spec_group_index(groups, id).unwrap();
            assert(groups[i].id == id);
            assert(i == offset);
        },
        DockNodeSettings::Split { axis, ratio_bits, first, second } => {
            if let DockNode::Split { axis: a, ratio_bits: r, first: f, second: s } = node {
                if let DockNodeSettings::Split { axis: x, ratio_bits: y, first: rf, second: rs } = resaved {
                    let n1 = spec_settings_groups(*first).len() as int;
                    let all = spec_settings_groups(saved);
                    assert(all == spec_settings_groups(*first) + spec_settings_groups(*second));
                    assert forall|k: int| 0 <= k < n1 implies spec_loaded_entry(
                        #[trigger] groups[offset + k],
                        spec_settings_groups(*first)[k],
                        spec_id_after(1, offset + k),
                    ) by {
                        assert(all[k] == spec_settings_groups(*first)[k]);
                    }
                    lemma_round_trip_at(*first, *f, groups, offset, *rf);
                    lemma_id_after_twice(offset, n1);
                    assert forall|k: int| 0 <= k < spec_settings_groups(*second).len() implies spec_loaded_entry(
                        #[trigger] groups[(offset + n1) + k],
                        spec_settings_groups(*second)[k],
                        spec_id_after(1, (offset + n1) + k),
                    ) by {
                        assert(all[n1 + k] == spec_settings_groups(*second)[k]);
                        assert(spec_loaded_entry(
                            groups[offset + (n1 + k)],
                            all[n1 + k],
                            spec_id_after(1, offset + (n1 + k)),
                        ));
                        assert(offset + (n1 + k) == (offset + n1) + k);
                    }
                    lemma_round_trip_at(*second, *s, groups, offset + n1, *rs);
                }
            }
        },
    }
}

/// Loading a tidy saved layout and saving it again gives the same layout: the same splits,
/// and each group with the same tabs and shown tab.
pub proof fn law_layout_load_save_round_trip(
    saved: DockNodeSettings,
    node: DockNode,
    groups: Seq<DockGroupEntry>,
    next: u64,
    resaved: DockNodeSettings,
)
    requires
        spec_tidy_settings(saved),
        spec_runtime_of(saved, node, groups, next),
        crate::dock::ids_distinct(groups),
        spec_saved_form(node, groups, resaved),
    ensures
        spec_same_settings(saved, resaved),
{
    assert forall|k: int| 0 <= k < spec_settings_groups(saved).len() implies spec_loaded_entry(
        #[trigger] groups[0 + k],
        spec_settings_groups(saved)[k],
        spec_id_after(1, 0 + k),
    ) by {
        assert(groups[0 + k] == groups[k]);
    }
    lemma_round_trip_at(saved, node, groups, 0, resaved);
}

} // verus!
