use lilypalooza::dock::{
    DockAxis, DockGroup, DockGroupEntry, DockNode, contains_group, first_group_id_in_layout,
    pane_sort_key, panes_in_node, prune_group_from_layout, replace_group_with_split,
    split_restore_target_for_group,
};
use lilypalooza::shortcuts::{PaneCycleDirection, TabDirection, WorkspacePaneKind};
use lilypalooza::workspace::{
    DockDropRegion, DockDropTarget, EditorFileMenuSection, EditorHeaderMenuSection,
    FoldedPaneRestore, FoldedPaneState, PaneMessage, ProjectMenuSection, Workspace,
};

fn group(id: u64, tabs: Vec<WorkspacePaneKind>, active: WorkspacePaneKind) -> DockGroupEntry {
    DockGroupEntry {
        id,
        group: DockGroup { tabs, active },
    }
}

fn split(axis: DockAxis, first: DockNode, second: DockNode) -> DockNode {
    DockNode::Split {
        axis,
        ratio_bits: 0.5f32.to_bits(),
        first: Box::new(first),
        second: Box::new(second),
    }
}

fn default_workspace() -> Workspace {
    let groups = vec![
        group(
            1,
            vec![WorkspacePaneKind::Score, WorkspacePaneKind::PianoRoll],
            WorkspacePaneKind::Score,
        ),
        group(2, vec![WorkspacePaneKind::Editor], WorkspacePaneKind::Editor),
        group(3, vec![WorkspacePaneKind::Logger], WorkspacePaneKind::Logger),
    ];
    let layout = split(
        DockAxis::Horizontal,
        split(DockAxis::Vertical, DockNode::Group(1), DockNode::Group(2)),
        DockNode::Group(3),
    );
    Workspace::from_parts(Some(layout), groups, 4, Vec::new()).expect("well formed")
}

fn app_with_editor_and_mixer_tabs() -> Workspace {
    let groups = vec![group(
        1,
        vec![WorkspacePaneKind::Editor, WorkspacePaneKind::Mixer],
        WorkspacePaneKind::Editor,
    )];
    Workspace::from_parts(Some(DockNode::Group(1)), groups, 2, Vec::new()).expect("well formed")
}

#[test]
fn pane_messages_drive_project_and_header_menus() {
    let mut app = default_workspace();
    let group_id = app.dock_groups.first().expect("dock group").id;

    let _outcome = app.handle_pane_message(PaneMessage::ToggleProjectMenu);
    assert!(app.menus.open_project_menu);
    assert_eq!(
        app.menus.open_project_menu_section,
        Some(ProjectMenuSection::Project)
    );

    let _outcome = app.handle_pane_message(PaneMessage::SetProjectRecentOpen(true));
    assert!(app.menus.open_project_recent);

    let _outcome = app.handle_pane_message(PaneMessage::SetProjectMenuSection(Some(
        ProjectMenuSection::View,
    )));
    assert_eq!(
        app.menus.open_project_menu_section,
        Some(ProjectMenuSection::View)
    );
    assert!(!app.menus.open_project_recent);

    let _outcome = app.handle_pane_message(PaneMessage::OpenHeaderOverflowMenu(group_id));
    assert!(!app.menus.open_project_menu);
    assert_eq!(app.menus.open_header_overflow_menu, Some(group_id));

    let _outcome = app.handle_pane_message(PaneMessage::SetEditorHeaderMenuSection(Some(
        EditorHeaderMenuSection::File,
    )));
    assert_eq!(
        app.menus.open_editor_menu_section,
        Some(EditorHeaderMenuSection::File)
    );

    let _outcome = app.handle_pane_message(PaneMessage::HoverEditorFileMenuSection {
        section: Some(EditorFileMenuSection::OpenRecent),
        expanded: true,
    });
    assert_eq!(
        app.menus.open_editor_file_menu_section,
        Some(EditorFileMenuSection::OpenRecent)
    );

    let _outcome = app.handle_pane_message(PaneMessage::CloseHeaderOverflowMenu);
    assert_eq!(app.menus.open_header_overflow_menu, None);
    assert_eq!(app.menus.open_editor_menu_section, None);
    assert_eq!(app.menus.open_editor_file_menu_section, None);

    let _outcome = app.handle_pane_message(PaneMessage::CloseProjectMenu);
    assert!(!app.menus.open_project_menu);
}

#[test]
fn pane_messages_update_focus_hover_and_tooltips() {
    let mut app = app_with_editor_and_mixer_tabs();

    let _outcome =
        app.handle_pane_message(PaneMessage::FocusWorkspacePane(WorkspacePaneKind::Mixer));
    assert_eq!(app.focused_workspace_pane, Some(WorkspacePaneKind::Mixer));

    let _outcome = app.handle_pane_message(PaneMessage::WorkspaceTabHovered(Some(
        WorkspacePaneKind::Score,
    )));
    assert_eq!(app.hovered_workspace_pane, Some(WorkspacePaneKind::Score));

    let _outcome = app.handle_pane_message(PaneMessage::TooltipHovered(Some("score".into())));
    assert_eq!(app.hovered_tooltip_key.as_deref(), Some("score"));
    assert_eq!(app.open_tooltip_key.as_deref(), Some("score"));

    let _outcome =
        app.handle_pane_message(PaneMessage::WorkspaceTabPressed(WorkspacePaneKind::Editor));
    assert_eq!(app.focused_workspace_pane, Some(WorkspacePaneKind::Editor));
    assert_eq!(app.pressed_workspace_pane, Some(WorkspacePaneKind::Editor));
}

#[test]
fn pane_drag_messages_start_and_clear_drag_state() {
    let mut app = app_with_editor_and_mixer_tabs();

    app.pressed_workspace_pane = Some(WorkspacePaneKind::Mixer);
    assert_eq!(app.dragged_workspace_pane, None);

    // The pointer moved past the drag threshold from where the tab was pressed.
    assert!(app.start_pane_drag());
    assert_eq!(app.dragged_workspace_pane, Some(WorkspacePaneKind::Mixer));

    let _outcome = app.handle_pane_message(PaneMessage::WorkspaceDragExited);
    assert_eq!(app.dock_drop_target, None);

    let outcome = app.handle_pane_message(PaneMessage::WorkspaceDragReleased);
    assert_eq!(app.pressed_workspace_pane, None);
    assert_eq!(app.dragged_workspace_pane, None);
    assert!(outcome.reset_drag_origin);
}

#[test]
fn pane_toggle_message_folds_and_restores_workspace_pane() {
    let mut app = app_with_editor_and_mixer_tabs();

    let _outcome =
        app.handle_pane_message(PaneMessage::ToggleWorkspacePane(WorkspacePaneKind::Mixer));
    assert!(app.is_pane_folded(WorkspacePaneKind::Mixer));

    let _outcome =
        app.handle_pane_message(PaneMessage::ToggleWorkspacePane(WorkspacePaneKind::Mixer));
    assert!(!app.is_pane_folded(WorkspacePaneKind::Mixer));
    assert_eq!(app.focused_workspace_pane, Some(WorkspacePaneKind::Mixer));
}

#[test]
fn pane_toggle_restores_missing_unfolded_pane_after_state_restore() {
    let groups = vec![group(1, vec![WorkspacePaneKind::Score], WorkspacePaneKind::Score)];
    let mut app =
        Workspace::from_parts(Some(DockNode::Group(1)), groups, 2, Vec::new()).expect("ok");
    assert!(app.is_pane_folded(WorkspacePaneKind::Mixer));

    let outcome =
        app.handle_pane_message(PaneMessage::ToggleWorkspacePane(WorkspacePaneKind::Mixer));

    assert!(outcome.persist_settings);
    assert!(app.group_for_pane(WorkspacePaneKind::Mixer).is_some());
    assert_eq!(app.focused_workspace_pane, Some(WorkspacePaneKind::Mixer));
}

#[test]
fn folding_a_lone_pane_prunes_its_group_and_unfolds_beside_its_sibling() {
    let mut app = default_workspace();
    assert!(app.fold_workspace_pane(WorkspacePaneKind::Editor));
    assert!(app.group_for_pane(WorkspacePaneKind::Editor).is_none());
    let layout = app.dock_layout.as_ref().expect("layout");
    assert!(!contains_group(layout, 2));
    assert!(matches!(
        app.folded_panes.last().map(|folded| &folded.restore),
        Some(FoldedPaneRestore::Split { insert_first: false, .. })
    ));

    assert!(app.unfold_workspace_pane(WorkspacePaneKind::Editor));
    assert!(app.group_for_pane(WorkspacePaneKind::Editor).is_some());
    assert_eq!(app.focused_workspace_pane, Some(WorkspacePaneKind::Editor));
}

#[test]
fn pane_drag_release_moves_tab_into_other_group() {
    let mut app = default_workspace();
    app.pressed_workspace_pane = Some(WorkspacePaneKind::PianoRoll);
    assert!(app.start_pane_drag());
    assert_eq!(
        app.dock_drop_target,
        Some(DockDropTarget {
            group_id: 1,
            region: DockDropRegion::Center,
        })
    );
    app.set_dock_drop_target(Some(DockDropTarget {
        group_id: 2,
        region: DockDropRegion::Center,
    }));
    let outcome = app.handle_pane_message(PaneMessage::WorkspaceDragReleased);
    assert!(outcome.persist_settings);
    assert_eq!(app.group_for_pane(WorkspacePaneKind::PianoRoll), Some(2));
    assert_eq!(app.dragged_workspace_pane, None);
    assert_eq!(app.focused_workspace_pane, Some(WorkspacePaneKind::PianoRoll));
}

#[test]
fn dropping_on_an_edge_splits_the_target_group() {
    let mut app = default_workspace();
    app.apply_dock_drop(
        WorkspacePaneKind::PianoRoll,
        DockDropTarget {
            group_id: 3,
            region: DockDropRegion::Top,
        },
    );
    let new_group = app
        .group_for_pane(WorkspacePaneKind::PianoRoll)
        .expect("dropped pane shown");
    assert_eq!(new_group, 4);
    assert_eq!(app.next_dock_group_id, 5);
    let layout = app.dock_layout.as_ref().expect("layout");
    assert!(contains_group(layout, 4));
}

#[test]
fn switching_tabs_wraps_within_group() {
    let mut app = default_workspace();
    app.set_focused_workspace_pane(WorkspacePaneKind::Score);
    assert!(app.switch_focused_workspace_tab(TabDirection::Next));
    assert_eq!(app.focused_workspace_pane, Some(WorkspacePaneKind::PianoRoll));
    assert!(app.switch_focused_workspace_tab(TabDirection::Next));
    assert_eq!(app.focused_workspace_pane, Some(WorkspacePaneKind::Score));
    app.set_focused_workspace_pane(WorkspacePaneKind::Logger);
    assert!(!app.switch_focused_workspace_tab(TabDirection::Previous));
}

#[test]
fn cycling_focus_follows_layout_order() {
    let mut app = default_workspace();
    app.set_focused_workspace_pane(WorkspacePaneKind::Score);
    assert_eq!(app.visible_workspace_group_order(), vec![1, 2, 3]);
    assert!(app.cycle_workspace_pane_focus(PaneCycleDirection::Next));
    assert_eq!(app.focused_workspace_pane, Some(WorkspacePaneKind::Editor));
    assert!(app.cycle_workspace_pane_focus(PaneCycleDirection::Previous));
    assert!(app.cycle_workspace_pane_focus(PaneCycleDirection::Previous));
    assert_eq!(app.focused_workspace_pane, Some(WorkspacePaneKind::Logger));
}

#[test]
fn malformed_groups_are_refused() {
    let groups = vec![
        group(1, vec![WorkspacePaneKind::Score], WorkspacePaneKind::Score),
        group(2, vec![WorkspacePaneKind::Score], WorkspacePaneKind::Score),
    ];
    assert!(Workspace::from_parts(None, groups, 3, Vec::new()).is_none());
    let same_ids = vec![
        group(1, vec![WorkspacePaneKind::Score], WorkspacePaneKind::Score),
        group(1, vec![WorkspacePaneKind::Editor], WorkspacePaneKind::Editor),
    ];
    assert!(Workspace::from_parts(None, same_ids, 3, Vec::new()).is_none());
}

#[test]
fn loaded_folded_panes_are_tidied() {
    let groups = vec![group(1, vec![WorkspacePaneKind::Score], WorkspacePaneKind::Score)];
    let folded = vec![
        FoldedPaneState {
            pane: WorkspacePaneKind::Score,
            restore: FoldedPaneRestore::Standalone,
        },
        FoldedPaneState {
            pane: WorkspacePaneKind::Editor,
            restore: FoldedPaneRestore::Standalone,
        },
        FoldedPaneState {
            pane: WorkspacePaneKind::Editor,
            restore: FoldedPaneRestore::Standalone,
        },
    ];
    let app = Workspace::from_parts(Some(DockNode::Group(1)), groups, 2, folded).expect("ok");
    let panes: Vec<WorkspacePaneKind> = app.folded_panes.iter().map(|f| f.pane).collect();
    assert_eq!(panes, vec![WorkspacePaneKind::Editor, WorkspacePaneKind::Mixer]);
}

#[test]
fn layout_helpers_prune_and_split() {
    let layout = split(DockAxis::Vertical, DockNode::Group(1), DockNode::Group(2));
    let pruned = prune_group_from_layout(layout, 1);
    assert!(matches!(pruned, DockNode::Group(2)));
    let (with_split, found) =
        replace_group_with_split(DockNode::Group(2), 2, DockAxis::Horizontal, 7, 9, true);
    assert!(found);
    assert_eq!(first_group_id_in_layout(&with_split), Some(9));
    let (_, missing) =
        replace_group_with_split(DockNode::Group(2), 5, DockAxis::Horizontal, 7, 9, true);
    assert!(!missing);
}

#[test]
fn split_restore_target_remembers_sibling() {
    let groups = vec![
        group(1, vec![WorkspacePaneKind::Score], WorkspacePaneKind::Score),
        group(
            2,
            vec![WorkspacePaneKind::Mixer, WorkspacePaneKind::Editor],
            WorkspacePaneKind::Mixer,
        ),
    ];
    let layout = split(DockAxis::Vertical, DockNode::Group(1), DockNode::Group(2));
    let (axis, _, insert_first, anchor, panes) =
        split_restore_target_for_group(&layout, 1, &groups).expect("target");
    assert_eq!(axis, DockAxis::Vertical);
    assert!(insert_first);
    assert_eq!(anchor, WorkspacePaneKind::Mixer);
    assert_eq!(panes, vec![WorkspacePaneKind::Editor, WorkspacePaneKind::Mixer]);
    assert_eq!(
        panes_in_node(&layout, &groups),
        vec![
            WorkspacePaneKind::Score,
            WorkspacePaneKind::Editor,
            WorkspacePaneKind::Mixer
        ]
    );
}

#[test]
fn panes_sort_score_first_and_mixer_last() {
    let keys: Vec<u8> = [
        WorkspacePaneKind::Score,
        WorkspacePaneKind::PianoRoll,
        WorkspacePaneKind::Editor,
        WorkspacePaneKind::Logger,
        WorkspacePaneKind::Mixer,
    ]
    .iter()
    .map(|pane| pane_sort_key(*pane))
    .collect();
    assert_eq!(keys, vec![0, 1, 2, 3, 4]);
}

#[test]
fn editor_focus_moves_between_browser_and_text() {
    let mut app = app_with_editor_and_mixer_tabs();
    app.focus_editor_file_browser();
    assert_eq!(app.focused_workspace_pane, Some(WorkspacePaneKind::Editor));
    assert!(!app.editor_widget_should_focus());
    app.focus_editor_text_area();
    assert!(app.editor_widget_should_focus());
    assert!(app.is_workspace_group_focused(1));
    assert!(!app.is_workspace_group_focused(7));
}

#[test]
fn dropping_on_another_groups_centre_moves_the_pane_there() {
    let mut app = default_workspace();
    app.apply_dock_drop(
        WorkspacePaneKind::Editor,
        DockDropTarget {
            group_id: 3,
            region: DockDropRegion::Center,
        },
    );
    let target = app.dock_groups.iter().find(|e| e.id == 3).expect("target group");
    assert_eq!(
        target.group.tabs,
        vec![WorkspacePaneKind::Logger, WorkspacePaneKind::Editor]
    );
    assert_eq!(target.group.active, WorkspacePaneKind::Editor);
    assert!(app.dock_groups.iter().all(|e| e.id != 2));
    let layout = app.dock_layout.as_ref().expect("layout");
    assert!(!contains_group(layout, 2));
    assert_eq!(app.focused_workspace_pane, Some(WorkspacePaneKind::Editor));
}

#[test]
fn dropping_on_its_own_groups_centre_brings_the_pane_first() {
    let mut app = default_workspace();
    app.apply_dock_drop(
        WorkspacePaneKind::PianoRoll,
        DockDropTarget {
            group_id: 1,
            region: DockDropRegion::Center,
        },
    );
    let own = app.dock_groups.iter().find(|e| e.id == 1).expect("own group");
    assert_eq!(
        own.group.tabs,
        vec![WorkspacePaneKind::PianoRoll, WorkspacePaneKind::Score]
    );
    assert_eq!(own.group.active, WorkspacePaneKind::PianoRoll);
}

#[test]
fn a_pane_whose_split_is_gone_comes_back_in_the_leftmost_group() {
    let groups = vec![group(1, vec![WorkspacePaneKind::Score], WorkspacePaneKind::Score)];
    let folded = vec![FoldedPaneState {
        pane: WorkspacePaneKind::Mixer,
        restore: FoldedPaneRestore::Split {
            anchor: WorkspacePaneKind::Logger,
            axis: DockAxis::Vertical,
            ratio_bits: 0.5f32.to_bits(),
            insert_first: false,
            sibling_panes: vec![WorkspacePaneKind::Logger],
        },
    }];
    let mut app = Workspace::from_parts(Some(DockNode::Group(1)), groups, 2, folded).expect("well formed");
    assert!(app.unfold_workspace_pane(WorkspacePaneKind::Mixer));
    assert_eq!(app.dock_groups.len(), 1);
    assert_eq!(
        app.dock_groups[0].group.tabs,
        vec![WorkspacePaneKind::Score, WorkspacePaneKind::Mixer]
    );
    assert_eq!(app.dock_groups[0].group.active, WorkspacePaneKind::Mixer);
    assert!(app.folded_panes.is_empty());
    assert_eq!(app.focused_workspace_pane, Some(WorkspacePaneKind::Mixer));
}

#[test]
fn a_pane_whose_anchor_is_hidden_comes_back_alone_when_nothing_is_shown() {
    let folded = vec![FoldedPaneState {
        pane: WorkspacePaneKind::Mixer,
        restore: FoldedPaneRestore::Tab { anchor: WorkspacePaneKind::Logger },
    }];
    let mut app = Workspace::from_parts(None, Vec::new(), 5, folded).expect("well formed");
    assert!(app.unfold_workspace_pane(WorkspacePaneKind::Mixer));
    assert_eq!(app.dock_groups.len(), 1);
    assert_eq!(app.dock_groups[0].group.tabs, vec![WorkspacePaneKind::Mixer]);
    let id = app.dock_groups[0].id;
    assert!(matches!(app.dock_layout, Some(DockNode::Group(g)) if g == id));
}

#[test]
fn an_edge_drop_leaves_the_rest_of_the_source_group_and_the_other_groups() {
    let mut app = default_workspace();
    app.apply_dock_drop(
        WorkspacePaneKind::Score,
        DockDropTarget {
            group_id: 3,
            region: DockDropRegion::Left,
        },
    );
    let source = app.dock_groups.iter().find(|e| e.id == 1).expect("source group");
    assert_eq!(source.group.tabs, vec![WorkspacePaneKind::PianoRoll]);
    assert_eq!(source.group.active, WorkspacePaneKind::PianoRoll);
    let editor = app.dock_groups.iter().find(|e| e.id == 2).expect("editor group");
    assert_eq!(editor.group.tabs, vec![WorkspacePaneKind::Editor]);
    let logger = app.dock_groups.iter().find(|e| e.id == 3).expect("logger group");
    assert_eq!(logger.group.tabs, vec![WorkspacePaneKind::Logger]);
    let new_group = app.dock_groups.iter().find(|e| e.id == 4).expect("new group");
    assert_eq!(new_group.group.tabs, vec![WorkspacePaneKind::Score]);
}
