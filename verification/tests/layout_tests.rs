use lilypalooza::dock::{DockAxis, DockGroup, DockGroupEntry, DockNode};
use lilypalooza::layout::{
    DockGroupSettings, DockNodeSettings, LOGGER_SPLIT_RATIO_BITS, build_dock_runtime,
    dock_node_from_settings, dock_node_settings_contains_pane, dock_node_to_settings,
    migrate_workspace_layout,
};
use lilypalooza::shortcuts::WorkspacePaneKind;
use lilypalooza::workspace::{FoldedPaneRestore, FoldedPaneState, MenuState, Workspace};

fn saved_group(tabs: Vec<WorkspacePaneKind>, active: WorkspacePaneKind) -> DockNodeSettings {
    DockNodeSettings::Group(DockGroupSettings { tabs, active })
}

fn saved_split(first: DockNodeSettings, second: DockNodeSettings) -> DockNodeSettings {
    DockNodeSettings::Split {
        axis: DockAxis::Vertical,
        ratio_bits: 0.5f32.to_bits(),
        first: Box::new(first),
        second: Box::new(second),
    }
}

fn same_saved(a: &DockNodeSettings, b: &DockNodeSettings) -> bool {
    match (a, b) {
        (DockNodeSettings::Group(x), DockNodeSettings::Group(y)) => {
            x.tabs == y.tabs && x.active == y.active
        }
        (
            DockNodeSettings::Split {
                axis: a1,
                ratio_bits: r1,
                first: f1,
                second: s1,
            },
            DockNodeSettings::Split {
                axis: a2,
                ratio_bits: r2,
                first: f2,
                second: s2,
            },
        ) => a1 == a2 && r1 == r2 && same_saved(f1, f2) && same_saved(s1, s2),
        _ => false,
    }
}

#[test]
fn migration_adds_a_logger_below_an_old_layout() {
    let mut root = Some(saved_group(
        vec![WorkspacePaneKind::Score],
        WorkspacePaneKind::Score,
    ));
    migrate_workspace_layout(&mut root, &Vec::new());
    let Some(DockNodeSettings::Split {
        axis,
        ratio_bits,
        first,
        second,
    }) = &root
    else {
        panic!("migration should split the layout");
    };
    assert_eq!(*axis, DockAxis::Horizontal);
    assert_eq!(*ratio_bits, 0.74f32.to_bits());
    assert_eq!(*ratio_bits, LOGGER_SPLIT_RATIO_BITS);
    assert!(same_saved(
        first,
        &saved_group(vec![WorkspacePaneKind::Score], WorkspacePaneKind::Score)
    ));
    assert!(same_saved(
        second,
        &saved_group(vec![WorkspacePaneKind::Logger], WorkspacePaneKind::Logger)
    ));
    assert!(dock_node_settings_contains_pane(
        root.as_ref().unwrap(),
        WorkspacePaneKind::Logger
    ));
}

#[test]
fn migration_is_done_once() {
    let mut root = Some(saved_group(
        vec![WorkspacePaneKind::Score],
        WorkspacePaneKind::Score,
    ));
    migrate_workspace_layout(&mut root, &Vec::new());
    let once = dock_node_to_settings_copy(root.as_ref().unwrap());
    migrate_workspace_layout(&mut root, &Vec::new());
    assert!(same_saved(root.as_ref().unwrap(), &once));
}

fn dock_node_to_settings_copy(node: &DockNodeSettings) -> DockNodeSettings {
    match node {
        DockNodeSettings::Group(g) => saved_group(g.tabs.clone(), g.active),
        DockNodeSettings::Split {
            axis,
            ratio_bits,
            first,
            second,
        } => DockNodeSettings::Split {
            axis: *axis,
            ratio_bits: *ratio_bits,
            first: Box::new(dock_node_to_settings_copy(first)),
            second: Box::new(dock_node_to_settings_copy(second)),
        },
    }
}

#[test]
fn migration_keeps_layouts_with_a_folded_logger() {
    let mut root = Some(saved_group(
        vec![WorkspacePaneKind::Score],
        WorkspacePaneKind::Score,
    ));
    let folded = vec![FoldedPaneState {
        pane: WorkspacePaneKind::Logger,
        restore: FoldedPaneRestore::Standalone,
    }];
    migrate_workspace_layout(&mut root, &folded);
    assert!(matches!(root, Some(DockNodeSettings::Group(_))));
}

#[test]
fn migration_of_no_layout_gives_an_empty_group_and_the_logger() {
    let mut root = None;
    migrate_workspace_layout(&mut root, &Vec::new());
    let Some(DockNodeSettings::Split { first, .. }) = &root else {
        panic!("migration should add a split");
    };
    assert!(same_saved(
        first,
        &saved_group(Vec::new(), WorkspacePaneKind::Score)
    ));
}

#[test]
fn loading_numbers_groups_and_repairs_empty_or_stray_tabs() {
    let saved = saved_split(
        saved_group(Vec::new(), WorkspacePaneKind::Editor),
        saved_group(
            vec![WorkspacePaneKind::Editor, WorkspacePaneKind::Mixer],
            WorkspacePaneKind::Logger,
        ),
    );
    let mut next_id = 5;
    let mut groups = Vec::new();
    let node = dock_node_from_settings(&saved, &mut next_id, &mut groups);
    assert_eq!(next_id, 7);
    assert_eq!(groups.len(), 2);
    assert_eq!(groups[0].id, 5);
    assert_eq!(groups[0].group.tabs, vec![WorkspacePaneKind::Score]);
    assert_eq!(groups[0].group.active, WorkspacePaneKind::Score);
    assert_eq!(groups[1].id, 6);
    assert_eq!(groups[1].group.active, WorkspacePaneKind::Editor);
    let DockNode::Split { first, second, .. } = node else {
        panic!("split expected");
    };
    assert!(matches!(*first, DockNode::Group(5)));
    assert!(matches!(*second, DockNode::Group(6)));
}

#[test]
fn building_without_a_saved_layout_gives_nothing() {
    let (layout, groups, next_id) = build_dock_runtime(None);
    assert!(layout.is_none());
    assert!(groups.is_empty());
    assert_eq!(next_id, 1);
}

#[test]
fn loading_then_saving_a_tidy_layout_gives_it_back() {
    let saved = saved_split(
        saved_group(
            vec![WorkspacePaneKind::Score, WorkspacePaneKind::PianoRoll],
            WorkspacePaneKind::PianoRoll,
        ),
        saved_split(
            saved_group(vec![WorkspacePaneKind::Editor], WorkspacePaneKind::Editor),
            saved_group(vec![WorkspacePaneKind::Logger], WorkspacePaneKind::Logger),
        ),
    );
    let (layout, groups, next_id) = build_dock_runtime(Some(&saved));
    assert_eq!(next_id, 4);
    let resaved = dock_node_to_settings(layout.as_ref().unwrap(), &groups);
    assert!(same_saved(&saved, &resaved));
}

#[test]
fn saving_a_missing_group_gives_an_empty_score_group() {
    let groups: Vec<DockGroupEntry> = vec![DockGroupEntry {
        id: 1,
        group: DockGroup {
            tabs: vec![WorkspacePaneKind::Mixer],
            active: WorkspacePaneKind::Mixer,
        },
    }];
    let saved = dock_node_to_settings(&DockNode::Group(9), &groups);
    assert!(same_saved(
        &saved,
        &saved_group(Vec::new(), WorkspacePaneKind::Score)
    ));
}

fn empty_workspace() -> Workspace {
    Workspace::from_parts(None, Vec::new(), 1, Vec::new()).expect("well formed")
}

#[test]
fn applying_a_layout_focuses_the_leftmost_group_and_clears_transient_state() {
    let mut workspace = empty_workspace();
    workspace.hovered_workspace_pane = Some(WorkspacePaneKind::Score);
    workspace.menus.open_project_menu = true;
    let saved = saved_split(
        saved_group(vec![WorkspacePaneKind::Editor], WorkspacePaneKind::Editor),
        saved_group(vec![WorkspacePaneKind::Score], WorkspacePaneKind::Score),
    );
    workspace.apply_workspace_state(Some(saved), Vec::new(), true);
    assert_eq!(workspace.focused_workspace_pane, Some(WorkspacePaneKind::Editor));
    assert_eq!(workspace.dock_groups.len(), 2);
    assert_eq!(workspace.next_dock_group_id, 3);
    assert!(workspace.hovered_workspace_pane.is_none());
    assert_eq!(workspace.menus, MenuState::new());
    assert!(workspace.folded_panes.is_empty());
    assert!(workspace.piano_roll_visible);
}

#[test]
fn applying_a_layout_with_hidden_piano_roll_folds_it_beside_the_score() {
    let mut workspace = empty_workspace();
    workspace.apply_workspace_state(
        Some(saved_group(vec![WorkspacePaneKind::Score], WorkspacePaneKind::Score)),
        Vec::new(),
        false,
    );
    assert_eq!(workspace.folded_panes.len(), 1);
    assert_eq!(workspace.folded_panes[0].pane, WorkspacePaneKind::PianoRoll);
    assert!(matches!(
        workspace.folded_panes[0].restore,
        FoldedPaneRestore::Tab {
            anchor: WorkspacePaneKind::Score
        }
    ));
    assert!(!workspace.piano_roll_visible);
}

#[test]
fn applying_no_layout_leaves_no_focus() {
    let mut workspace = empty_workspace();
    workspace.apply_workspace_state(None, Vec::new(), true);
    assert!(workspace.dock_layout.is_none());
    assert_eq!(workspace.focused_workspace_pane, None);
}
