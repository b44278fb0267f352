//! The dock layout: a binary tree of splits whose leaves are groups of tabbed panes, and the
//! operations that prune, split and search it.

use vstd::prelude::*;

use crate::shortcuts::WorkspacePaneKind;

verus! {

/// The direction in which a split divides its area.
#[derive(Debug, Clone, Copy, PartialEq, Eq, Structural)]
pub enum DockAxis {
    Horizontal,
    Vertical,
}

/// A node of the dock layout. A split's ratio is kept as the bits of the `f32` that gives
/// the share of its first child.
#[derive(Debug)]
pub enum DockNode {
    Group(u64),
    Split { axis: DockAxis, ratio_bits: u32, first: Box<DockNode>, second: Box<DockNode> },
}

/// A group of tabbed panes and the tab shown.
#[derive(Debug, Clone)]
pub struct DockGroup {
    pub tabs: Vec<WorkspacePaneKind>,
    pub active: WorkspacePaneKind,
}

/// A dock group with its id.
#[derive(Debug, Clone)]
pub struct DockGroupEntry {
    pub id: u64,
    pub group: DockGroup,
}

/// The bits of the `f32` one half, the ratio of a split made by dropping a pane.
pub const HALF_RATIO_BITS: u32 = 1056964608u32;

/// Whether the layout has a leaf for group `id`.
pub open spec fn spec_contains_group(node: DockNode, id: u64) -> bool
    decreases node,
{
    match node {
        DockNode::Group(c) => c == id,
        DockNode::Split { first, second, .. } => spec_contains_group(*first, id)
            || spec_contains_group(*second, id),
    }
}

/// Whether the layout has a leaf for group `group_id`.
pub fn contains_group(node: &DockNode, group_id: u64) -> (r: bool)
    ensures
        r == spec_contains_group(*node, group_id),
    decreases node,
{
    match node {
        DockNode::Group(candidate) => *candidate == group_id,
        DockNode::Split { first, second, .. } => {
            contains_group(first, group_id) || contains_group(second, group_id)
        },
    }
}

/// The leftmost group of the layout.
pub open spec fn spec_first_group_id(node: DockNode) -> u64
    decreases node,
{
    match node {
        DockNode::Group(id) => id,
        DockNode::Split { first, .. } => spec_first_group_id(*first),
    }
}

/// The leftmost group of the layout; every layout has one.
pub fn first_group_id_in_layout(node: &DockNode) -> (r: Option<u64>)
    ensures
        r == Some(spec_first_group_id(*node)),
    decreases node,
{
    match node {
        DockNode::Group(group_id) => Some(*group_id),
        DockNode::Split { first, second, .. } => match first_group_id_in_layout(first) {
            Some(id) => Some(id),
            None => first_group_id_in_layout(second),
        },
    }
}

/// The groups of the layout, left to right.
pub open spec fn spec_visible_order(node: DockNode) -> Seq<u64>
    decreases node,
{
    match node {
        DockNode::Group(id) => seq![id],
        DockNode::Split { first, second, .. } => spec_visible_order(*first) + spec_visible_order(
            *second,
        ),
    }
}

/// Appends the groups of the layout, left to right.
pub fn collect_visible_group_order(node: &DockNode, group_ids: &mut Vec<u64>)
    ensures
        final(group_ids)@ == old(group_ids)@ + spec_visible_order(*node),
    decreases node,
{
    match node {
        DockNode::Group(group_id) => {
            group_ids.push(*group_id);
            proof {
                assert(spec_visible_order(*node) == seq![*group_id]);
            }
        },
        DockNode::Split { first, second, .. } => {
            let ghost before = group_ids@;
            collect_visible_group_order(first, group_ids);
            collect_visible_group_order(second, group_ids);
            proof {
                assert(group_ids@ =~= before + spec_visible_order(*node));
            }
        },
    }
}

/// The layout without the leaf of group `id`: a split that loses one side becomes the other
/// side, and nothing is left when every leaf was that group.
pub open spec fn spec_prune_inner(node: DockNode, id: u64) -> Option<DockNode>
    decreases node,
{
    match node {
        DockNode::Group(c) => if c != id {
            Some(DockNode::Group(c))
        } else {
            None
        },
        DockNode::Split { axis, ratio_bits, first, second } => {
            let f = spec_prune_inner(*first, id);
            let s = spec_prune_inner(*second, id);
            match (f, s) {
                (Some(a), Some(b)) => Some(
                    DockNode::Split { axis, ratio_bits, first: Box::new(a), second: Box::new(b) },
                ),
                (Some(a), None) => Some(a),
                (None, Some(b)) => Some(b),
                (None, None) => None,
            }
        },
    }
}

/// The layout without the leaf of group `group_id`, if anything is left.
pub fn prune_group_from_layout_inner(layout: DockNode, group_id: u64) -> (r: Option<DockNode>)
    ensures
        r == spec_prune_inner(layout, group_id),
    decreases layout,
{
    match layout {
        DockNode::Group(candidate) => if candidate != group_id {
            Some(DockNode::Group(candidate))
        } else {
            None
        },
        DockNode::Split { axis, ratio_bits, first, second } => {
            let f = prune_group_from_layout_inner(*first, group_id);
            let s = prune_group_from_layout_inner(*second, group_id);
            match (f, s) {
                (Some(a), Some(b)) => Some(
                    DockNode::Split { axis, ratio_bits, first: Box::new(a), second: Box::new(b) },
                ),
                (Some(a), None) => Some(a),
                (None, Some(b)) => Some(b),
                (None, None) => None,
            }
        },
    }
}

/// The layout without the leaf of group `group_id`; a layout of that group alone is kept.
pub fn prune_group_from_layout(layout: DockNode, group_id: u64) -> (r: DockNode)
    ensures
        r == match spec_prune_inner(layout, group_id) {
            Some(n) => n,
            None => DockNode::Group(group_id),
        },
{
    match prune_group_from_layout_inner(layout, group_id) {
        Some(n) => n,
        None => DockNode::Group(group_id),
    }
}

/// Pruning a group leaves no leaf of it.
pub proof fn lemma_prune_removes_group(node: DockNode, id: u64, other: u64)
    ensures
        spec_prune_inner(node, id) matches Some(n) ==> !spec_contains_group(n, id)
            && (spec_contains_group(n, other) <==> (other != id && spec_contains_group(
            node,
            other,
        ))),
        spec_prune_inner(node, id) is None ==> (spec_contains_group(node, other) ==> other == id),
    decreases node,
{
    match node {
        DockNode::Group(_) => {},
        DockNode::Split { first, second, .. } => {
            lemma_prune_removes_group(*first, id, other);
            lemma_prune_removes_group(*second, id, other);
        },
    }
}

/// A split of group `existing` and group `new_id`, the new one first when `insert_first`.
pub open spec fn spec_split_with(
    existing: DockNode,
    axis: DockAxis,
    ratio_bits: u32,
    new_id: u64,
    insert_first: bool,
) -> DockNode {
    if insert_first {
        DockNode::Split {
            axis,
            ratio_bits,
            first: Box::new(DockNode::Group(new_id)),
            second: Box::new(existing),
        }
    } else {
        DockNode::Split {
            axis,
            ratio_bits,
            first: Box::new(existing),
            second: Box::new(DockNode::Group(new_id)),
        }
    }
}

/// The layout with the leftmost leaf of group `target` split to make room for group
/// `new_id`, and whether that leaf was found.
pub open spec fn spec_replace_group_with_split(
    node: DockNode,
    target: u64,
    axis: DockAxis,
    ratio_bits: u32,
    new_id: u64,
    insert_first: bool,
) -> (DockNode, bool)
    decreases node,
{
    match node {
        DockNode::Group(g) => if g == target {
            (spec_split_with(DockNode::Group(g), axis, ratio_bits, new_id, insert_first), true)
        } else {
            (node, false)
        },
        DockNode::Split { axis: a, ratio_bits: r, first, second } => {
            let (f2, b1) = spec_replace_group_with_split(
                *first,
                target,
                axis,
                ratio_bits,
                new_id,
                insert_first,
            );
            if b1 {
                (DockNode::Split { axis: a, ratio_bits: r, first: Box::new(f2), second }, true)
            } else {
                let (s2, b2) = spec_replace_group_with_split(
                    *second,
                    target,
                    axis,
                    ratio_bits,
                    new_id,
                    insert_first,
                );
                (DockNode::Split { axis: a, ratio_bits: r, first, second: Box::new(s2) }, b2)
            }
        },
    }
}

/// Splits the leftmost leaf of group `target_group_id` to make room for group `new_group_id`;
/// says whether the leaf was found (the layout is unchanged when not).
pub fn replace_group_with_split(
    node: DockNode,
    target_group_id: u64,
    axis: DockAxis,
    ratio_bits: u32,
    new_group_id: u64,
    insert_first: bool,
) -> (r: (DockNode, bool))
    ensures
        r == spec_replace_group_with_split(
            node,
            target_group_id,
            axis,
            ratio_bits,
            new_group_id,
            insert_first,
        ),
        !r.1 ==> r.0 == node,
    decreases node,
{
    match node {
        DockNode::Group(group_id) => {
            if group_id == target_group_id {
                (split_with(DockNode::Group(group_id), axis, ratio_bits, new_group_id, insert_first), true)
            } else {
                (DockNode::Group(group_id), false)
            }
        },
        DockNode::Split { axis: a, ratio_bits: r, first, second } => {
            let (f2, b1) = replace_group_with_split(
                *first,
                target_group_id,
                axis,
                ratio_bits,
                new_group_id,
                insert_first,
            );
            if b1 {
                (DockNode::Split { axis: a, ratio_bits: r, first: Box::new(f2), second }, true)
            } else {
                let (s2, b2) = replace_group_with_split(
                    *second,
                    target_group_id,
                    axis,
                    ratio_bits,
                    new_group_id,
                    insert_first,
                );
                (DockNode::Split { axis: a, ratio_bits: r, first: Box::new(f2), second: Box::new(s2) }, b2)
            }
        },
    }
}

/// A split of `existing` and the group `new_id`.
pub fn split_with(
    existing: DockNode,
    axis: DockAxis,
    ratio_bits: u32,
    new_id: u64,
    insert_first: bool,
) -> (r: DockNode)
    ensures
        r == spec_split_with(existing, axis, ratio_bits, new_id, insert_first),
{
    if insert_first {
        DockNode::Split {
            axis,
            ratio_bits,
            first: Box::new(DockNode::Group(new_id)),
            second: Box::new(existing),
        }
    } else {
        DockNode::Split {
            axis,
            ratio_bits,
            first: Box::new(existing),
            second: Box::new(DockNode::Group(new_id)),
        }
    }
}

/// The position of the group with id `id` among the entries, if any.
pub open spec fn spec_group_index(groups: Seq<DockGroupEntry>, id: u64) -> Option<int> {
    if exists|i: int| 0 <= i < groups.len() && groups[i].id == id {
        Some(choose|i: int| 0 <= i < groups.len() && groups[i].id == id)
    } else {
        None
    }
}

/// No two entries have the same id.
pub open spec fn ids_distinct(groups: Seq<DockGroupEntry>) -> bool {
    forall|i: int, j: int| 0 <= i < j < groups.len() ==> groups[i].id != groups[j].id
}

/// The tabs of group `id`, if it exists.
pub open spec fn spec_group_tabs(groups: Seq<DockGroupEntry>, id: u64) -> Option<
    Seq<WorkspacePaneKind>,
> {
    match spec_group_index(groups, id) {
        Some(i) => Some(groups[i].group.tabs@),
        None => None,
    }
}

/// The position of the group with id `id`, if any.
pub fn group_index(groups: &Vec<DockGroupEntry>, id: u64) -> (r: Option<usize>)
    requires
        ids_distinct(groups@),
    ensures
        match r {
            Some(i) => spec_group_index(groups@, id) == Some(i as int) && i < groups@.len(),
            None => spec_group_index(groups@, id) is None,
        },
{
    let mut i: usize = 0;
    while i < groups.len()
        invariant
            i <= groups@.len(),
            ids_distinct(groups@),
            forall|j: int| 0 <= j < i ==> groups@[j].id != id,
        decreases groups.len() - i,
    {
        if groups[i].id == id {
            proof {
                let c = choose|c: int| 0 <= c < groups@.len() && groups@[c].id == id;
                assert(c == i as int) by {
                    if c < i {
                    } else if c > i {
                    }
                }
            }
            return Some(i);
        }
        i = i + 1;
    }
    None
}

/// The first pane of the layout: the first tab of its leftmost group that has tabs.
pub open spec fn spec_first_pane_in_node(node: DockNode, groups: Seq<DockGroupEntry>) -> Option<
    WorkspacePaneKind,
>
    decreases node,
{
    match node {
        DockNode::Group(id) => match spec_group_tabs(groups, id) {
            Some(tabs) => if tabs.len() > 0 {
                Some(tabs[0])
            } else {
                None
            },
            None => None,
        },
        DockNode::Split { first, second, .. } => match spec_first_pane_in_node(*first, groups) {
            Some(p) => Some(p),
            None => spec_first_pane_in_node(*second, groups),
        },
    }
}

/// The first pane of the layout.
pub fn first_pane_in_node(node: &DockNode, groups: &Vec<DockGroupEntry>) -> (r: Option<
    WorkspacePaneKind,
>)
    requires
        ids_distinct(groups@),
    ensures
        r == spec_first_pane_in_node(*node, groups@),
    decreases node,
{
    match node {
        DockNode::Group(group_id) => match group_index(groups, *group_id) {
            Some(i) => {
                if groups[i].group.tabs.len() > 0 {
                    Some(groups[i].group.tabs[0])
                } else {
                    None
                }
            },
            None => None,
        },
        DockNode::Split { first, second, .. } => match first_pane_in_node(first, groups) {
            Some(p) => Some(p),
            None => first_pane_in_node(second, groups),
        },
    }
}

/// Every tab of every group of the layout, left to right.
pub open spec fn spec_collected_panes(node: DockNode, groups: Seq<DockGroupEntry>) -> Seq<
    WorkspacePaneKind,
>
    decreases node,
{
    match node {
        DockNode::Group(id) => match spec_group_tabs(groups, id) {
            Some(tabs) => tabs,
            None => Seq::empty(),
        },
        DockNode::Split { first, second, .. } => spec_collected_panes(*first, groups)
            + spec_collected_panes(*second, groups),
    }
}

/// Appends every tab of every group of the layout, left to right.
pub fn collect_panes_in_node(
    node: &DockNode,
    groups: &Vec<DockGroupEntry>,
    panes: &mut Vec<WorkspacePaneKind>,
)
    requires
        ids_distinct(groups@),
    ensures
        final(panes)@ == old(panes)@ + spec_collected_panes(*node, groups@),
    decreases node,
{
    match node {
        DockNode::Group(group_id) => {
            if let Some(i) = group_index(groups, *group_id) {
                let mut k: usize = 0;
                let ghost before = panes@;
                while k < groups[i].group.tabs.len()
                    invariant
                        i < groups@.len(),
                        k <= groups@[i as int].group.tabs@.len(),
                        panes@ == before + groups@[i as int].group.tabs@.subrange(0, k as int),
                    decreases groups@[i as int].group.tabs@.len() - k,
                {
                    panes.push(groups[i].group.tabs[k]);
                    k = k + 1;
                    proof {
                        assert(panes@ =~= before + groups@[i as int].group.tabs@.subrange(0, k as int));
                    }
                }
                proof {
                    assert(groups@[i as int].group.tabs@.subrange(0, k as int) =~= groups@[i as int].group.tabs@);
                }
            } else {
                proof {
                    assert(panes@ =~= old(panes)@ + Seq::<WorkspacePaneKind>::empty());
                }
            }
        },
        DockNode::Split { first, second, .. } => {
            let ghost before = panes@;
            collect_panes_in_node(first, groups, panes);
            collect_panes_in_node(second, groups, panes);
            proof {
                assert(panes@ =~= before + spec_collected_panes(*node, groups@));
            }
        },
    }
}

/// Where each pane sorts in a list of panes.
pub open spec fn spec_pane_sort_key(pane: WorkspacePaneKind) -> u8 {
    match pane {
        WorkspacePaneKind::Score => 0,
        WorkspacePaneKind::PianoRoll => 1,
        WorkspacePaneKind::Editor => 2,
        WorkspacePaneKind::Logger => 3,
        WorkspacePaneKind::Mixer => 4,
    }
}

/// Where each pane sorts in a list of panes.
pub fn pane_sort_key(pane: WorkspacePaneKind) -> (k: u8)
    ensures
        k == spec_pane_sort_key(pane),
{
    match pane {
        WorkspacePaneKind::Score => 0,
        WorkspacePaneKind::PianoRoll => 1,
        WorkspacePaneKind::Editor => 2,
        WorkspacePaneKind::Logger => 3,
        WorkspacePaneKind::Mixer => 4,
    }
}

/// Every pane, in sort order.
pub open spec fn all_panes() -> Seq<WorkspacePaneKind> {
    seq![
        WorkspacePaneKind::Score,
        WorkspacePaneKind::PianoRoll,
        WorkspacePaneKind::Editor,
        WorkspacePaneKind::Logger,
        WorkspacePaneKind::Mixer,
    ]
}

/// The panes of the layout, each once, in sort order.
pub open spec fn spec_panes_in_node(node: DockNode, groups: Seq<DockGroupEntry>) -> Seq<
    WorkspacePaneKind,
> {
    all_panes().filter(|p: WorkspacePaneKind| spec_collected_panes(node, groups).contains(p))
}

/// The panes of the layout, each once, in sort order.
pub fn panes_in_node(node: &DockNode, groups: &Vec<DockGroupEntry>) -> (r: Vec<WorkspacePaneKind>)
    requires
        ids_distinct(groups@),
    ensures
        r@ == spec_panes_in_node(*node, groups@),
{
    let mut collected: Vec<WorkspacePaneKind> = Vec::new();
    collect_panes_in_node(node, groups, &mut collected);
    proof {
        assert(collected@ =~= spec_collected_panes(*node, groups@));
    }
    let order = vec![
        WorkspacePaneKind::Score,
        WorkspacePaneKind::PianoRoll,
        WorkspacePaneKind::Editor,
        WorkspacePaneKind::Logger,
        WorkspacePaneKind::Mixer,
    ];
    let mut out: Vec<WorkspacePaneKind> = Vec::new();
    let mut k: usize = 0;
    while k < order.len()
        invariant
            order@ == all_panes(),
            collected@ == spec_collected_panes(*node, groups@),
            k <= order@.len(),
            out@ == order@.subrange(0, k as int).filter(
                |p: WorkspacePaneKind| spec_collected_panes(*node, groups@).contains(p),
            ),
        decreases order.len() - k,
    {
        let pane = order[k];
        let present = pane_listed(&collected, pane);
        proof {
            let f = |p: WorkspacePaneKind| spec_collected_panes(*node, groups@).contains(p);
            assert(order@.subrange(0, k + 1) =~= order@.subrange(0, k as int).push(pane));
            order@.subrange(0, k as int).lemma_filter_push(pane, f);
        }
        if present {
            out.push(pane);
        }
        k = k + 1;
    }
    proof {
        assert(order@.subrange(0, k as int) =~= all_panes());
    }
    out
}

/// Whether `pane` is listed.
pub fn pane_listed(panes: &Vec<WorkspacePaneKind>, pane: WorkspacePaneKind) -> (r: bool)
    ensures
        r == panes@.contains(pane),
{
    let mut i: usize = 0;
    while i < panes.len()
        invariant
            i <= panes@.len(),
            forall|j: int| 0 <= j < i ==> panes@[j] != pane,
        decreases panes.len() - i,
    {
        if panes[i] == pane {
            return true;
        }
        i = i + 1;
    }
    false
}

/// Whether two lists of panes are the same.
pub fn same_panes(a: &Vec<WorkspacePaneKind>, b: &Vec<WorkspacePaneKind>) -> (r: bool)
    ensures
        r == (a@ == b@),
{
    if a.len() != b.len() {
        return false;
    }
    let mut i: usize = 0;
    while i < a.len()
        invariant
            a@.len() == b@.len(),
            i <= a@.len(),
            forall|j: int| 0 <= j < i ==> a@[j] == b@[j],
        decreases a.len() - i,
    {
        if a[i] != b[i] {
            return false;
        }
        i = i + 1;
    }
    proof {
        assert(a@ =~= b@);
    }
    true
}

/// Where to put a group back when it is unfolded: beside the sibling of the innermost split
/// that holds it, with that split's axis and ratio, first when it was the first child, next
/// to the sibling's first pane, and with the sibling's panes to find the sibling by.
pub open spec fn spec_split_restore_target(
    node: DockNode,
    group_id: u64,
    groups: Seq<DockGroupEntry>,
) -> Option<(DockAxis, u32, bool, WorkspacePaneKind, Seq<WorkspacePaneKind>)>
    decreases node,
{
    match node {
        DockNode::Group(_) => None,
        DockNode::Split { axis, ratio_bits, first, second } => {
            if spec_contains_group(*first, group_id) {
                match spec_split_restore_target(*first, group_id, groups) {
                    Some(t) => Some(t),
                    None => match spec_first_pane_in_node(*second, groups) {
                        Some(anchor) => Some(
                            (axis, ratio_bits, true, anchor, spec_panes_in_node(*second, groups)),
                        ),
                        None => None,
                    },
                }
            } else if spec_contains_group(*second, group_id) {
                match spec_split_restore_target(*second, group_id, groups) {
                    Some(t) => Some(t),
                    None => match spec_first_pane_in_node(*first, groups) {
                        Some(anchor) => Some(
                            (axis, ratio_bits, false, anchor, spec_panes_in_node(*first, groups)),
                        ),
                        None => None,
                    },
                }
            } else {
                None
            }
        },
    }
}

/// Where to put group `group_id` back when it is unfolded.
pub fn split_restore_target_for_group(
    node: &DockNode,
    group_id: u64,
    groups: &Vec<DockGroupEntry>,
) -> (r: Option<(DockAxis, u32, bool, WorkspacePaneKind, Vec<WorkspacePaneKind>)>)
    requires
        ids_distinct(groups@),
    ensures
        match r {
            Some((axis, ratio, first, anchor, panes)) => spec_split_restore_target(
                *node,
                group_id,
                groups@,
            ) == Some((axis, ratio, first, anchor, panes@)),
            None => spec_split_restore_target(*node, group_id, groups@) is None,
        },
    decreases node,
{
    match node {
        DockNode::Group(_) => None,
        DockNode::Split { axis, ratio_bits, first, second } => {
            if contains_group(first, group_id) {
                if let Some(target) = split_restore_target_for_group(first, group_id, groups) {
                    return Some(target);
                }
                let sibling_panes = panes_in_node(second, groups);
                match first_pane_in_node(second, groups) {
                    Some(anchor) => Some((*axis, *ratio_bits, true, anchor, sibling_panes)),
                    None => None,
                }
            } else if contains_group(second, group_id) {
                if let Some(target) = split_restore_target_for_group(second, group_id, groups) {
                    return Some(target);
                }
                let sibling_panes = panes_in_node(first, groups);
                match first_pane_in_node(first, groups) {
                    Some(anchor) => Some((*axis, *ratio_bits, false, anchor, sibling_panes)),
                    None => None,
                }
            } else {
                None
            }
        },
    }
}

/// The layout with the leftmost subtree holding exactly the panes `target` split to make
/// room for group `new_id`, and whether such a subtree was found.
pub open spec fn spec_replace_subtree_with_split(
    node: DockNode,
    axis: DockAxis,
    ratio_bits: u32,
    new_id: u64,
    insert_first: bool,
    target: Seq<WorkspacePaneKind>,
    groups: Seq<DockGroupEntry>,
) -> (DockNode, bool)
    decreases node,
{
    if spec_panes_in_node(node, groups) == target {
        (spec_split_with(node, axis, ratio_bits, new_id, insert_first), true)
    } else {
        match node {
            DockNode::Group(_) => (node, false),
            DockNode::Split { axis: a, ratio_bits: r, first, second } => {
                let (f2, b1) = spec_replace_subtree_with_split(
                    *first,
                    axis,
                    ratio_bits,
                    new_id,
                    insert_first,
                    target,
                    groups,
                );
                if b1 {
                    (DockNode::Split { axis: a, ratio_bits: r, first: Box::new(f2), second }, true)
                } else {
                    let (s2, b2) = spec_replace_subtree_with_split(
                        *second,
                        axis,
                        ratio_bits,
                        new_id,
                        insert_first,
                        target,
                        groups,
                    );
                    (DockNode::Split { axis: a, ratio_bits: r, first, second: Box::new(s2) }, b2)
                }
            },
        }
    }
}

/// Splits the leftmost subtree whose panes are exactly `target_panes` to make room for group
/// `new_group_id`; says whether one was found (the layout is unchanged when not).
pub fn replace_subtree_with_split(
    node: DockNode,
    axis: DockAxis,
    ratio_bits: u32,
    new_group_id: u64,
    insert_first: bool,
    target_panes: &Vec<WorkspacePaneKind>,
    groups: &Vec<DockGroupEntry>,
) -> (r: (DockNode, bool))
    requires
        ids_distinct(groups@),
    ensures
        r == spec_replace_subtree_with_split(
            node,
            axis,
            ratio_bits,
            new_group_id,
            insert_first,
            target_panes@,
            groups@,
        ),
        !r.1 ==> r.0 == node,
    decreases node,
{
    let panes = panes_in_node(&node, groups);
    if same_panes(&panes, target_panes) {
        return (split_with(node, axis, ratio_bits, new_group_id, insert_first), true);
    }
    match node {
        DockNode::Group(id) => (DockNode::Group(id), false),
        DockNode::Split { axis: a, ratio_bits: r, first, second } => {
            let (f2, b1) = replace_subtree_with_split(
                *first,
                axis,
                ratio_bits,
                new_group_id,
                insert_first,
                target_panes,
                groups,
            );
            if b1 {
                (DockNode::Split { axis: a, ratio_bits: r, first: Box::new(f2), second }, true)
            } else {
                let (s2, b2) = replace_subtree_with_split(
                    *second,
                    axis,
                    ratio_bits,
                    new_group_id,
                    insert_first,
                    target_panes,
                    groups,
                );
                (DockNode::Split { axis: a, ratio_bits: r, first: Box::new(f2), second: Box::new(s2) }, b2)
            }
        },
    }
}

/// The active pane of the leftmost group of the layout that exists.
pub open spec fn spec_first_active_pane(node: DockNode, groups: Seq<DockGroupEntry>) -> Option<
    WorkspacePaneKind,
>
    decreases node,
{
    match node {
        DockNode::Group(id) => match spec_group_index(groups, id) {
            Some(i) => Some(groups[i].group.active),
            None => None,
        },
        DockNode::Split { first, second, .. } => match spec_first_active_pane(*first, groups) {
            Some(p) => Some(p),
            None => spec_first_active_pane(*second, groups),
        },
    }
}

/// The active pane of the leftmost group of the layout that exists.
pub fn first_active_workspace_pane(node: &DockNode, groups: &Vec<DockGroupEntry>) -> (r: Option<
    WorkspacePaneKind,
>)
    requires
        ids_distinct(groups@),
    ensures
        r == spec_first_active_pane(*node, groups@),
    decreases node,
{
    match node {
        DockNode::Group(group_id) => match group_index(groups, *group_id) {
            Some(i) => Some(groups[i].group.active),
            None => None,
        },
        DockNode::Split { first, second, .. } => match first_active_workspace_pane(first, groups) {
            Some(p) => Some(p),
            None => first_active_workspace_pane(second, groups),
        },
    }
}

/// Moves `pane` to the front of the tabs, when it is among them.
/// The tabs with the first `pane` among them moved to the front (unchanged without one).
pub open spec fn spec_front(tabs: Seq<WorkspacePaneKind>, pane: WorkspacePaneKind) -> Seq<WorkspacePaneKind> {
    if tabs.contains(pane) {
        let i = choose|i: int|
            0 <= i < tabs.len() && tabs[i] == pane && forall|j: int| 0 <= j < i ==> tabs[j] != pane;
        seq![pane] + tabs.remove(i)
    } else {
        tabs
    }
}

pub fn move_tab_to_front(tabs: &mut Vec<WorkspacePaneKind>, pane: WorkspacePaneKind)
    ensures
        final(tabs)@ == spec_front(old(tabs)@, pane),
        old(tabs)@.contains(pane) ==> ({
            let i = choose|i: int|
                0 <= i < old(tabs)@.len() && old(tabs)@[i] == pane && forall|j: int|
                    0 <= j < i ==> old(tabs)@[j] != pane;
            final(tabs)@ == seq![pane] + old(tabs)@.remove(i)
        }),
        !old(tabs)@.contains(pane) ==> final(tabs)@ == old(tabs)@,
        forall|p: WorkspacePaneKind| #[trigger] final(tabs)@.contains(p) <==> old(tabs)@.contains(p),
        final(tabs)@.len() == old(tabs)@.len(),
        old(tabs)@.contains(pane) ==> final(tabs)@[0] == pane,
{
    let mut i: usize = 0;
    while i < tabs.len()
        invariant
            tabs@ == old(tabs)@,
            i <= tabs@.len(),
            forall|j: int| 0 <= j < i ==> tabs@[j] != pane,
        decreases tabs.len() - i,
    {
        if tabs[i] == pane {
            proof {
                let c = choose|c: int|
                    0 <= c < old(tabs)@.len() && old(tabs)@[c] == pane && forall|j: int|
                        0 <= j < c ==> old(tabs)@[j] != pane;
                assert(0 <= c < old(tabs)@.len() && old(tabs)@[c] == pane && forall|j: int|
                    0 <= j < c ==> old(tabs)@[j] != pane);
                assert(c == i as int) by {
                    if c < i {
                    } else if c > i {
                        assert(old(tabs)@[i as int] != pane);
                    }
                }
            }
            let moved = tabs.remove(i);
            tabs.insert(0, moved);
            proof {
                let before = old(tabs)@;
                assert(tabs@ =~= seq![pane] + before.remove(i as int));
                assert forall|p: WorkspacePaneKind| #[trigger] tabs@.contains(p) <==> before.contains(p) by {
                    if tabs@.contains(p) {
                        let k = choose|k: int| 0 <= k < tabs@.len() && tabs@[k] == p;
                        if k == 0 {
                            assert(before[i as int] == p);
                        } else if k - 1 < i {
                            assert(before[k - 1] == p);
                        } else {
                            assert(before[k] == p);
                        }
                    }
                    if before.contains(p) {
                        let k = choose|k: int| 0 <= k < before.len() && before[k] == p;
                        if k == i {
                            assert(tabs@[0] == p);
                        } else if k < i {
                            assert(tabs@[k + 1] == p);
                        } else {
                            assert(tabs@[k] == p);
                        }
                    }
                }
            }
            return ;
        }
        i = i + 1;
    }
}

} // verus!
