use squalr_tui::pane_entry_row::PaneEntryRowTone;
use squalr_tui::paths::ProjectInfo;
use squalr_tui::project_explorer::{
    build_project_explorer_summary_lines, build_visible_project_entry_rows, build_visible_project_item_entry_rows,
    ProjectExplorerFocusTarget, ProjectExplorerPaneState, ProjectHierarchyEntry, ProjectSelectorInputMode,
};

fn two_projects() -> Vec<ProjectInfo> {
    vec![
        ProjectInfo::new("C:/Projects/Alpha/project/squalr-project.json"),
        ProjectInfo::new("C:/Projects/Beta/project/squalr-project.json"),
    ]
}

#[test]
fn apply_project_list_selects_first_project() {
    let mut project_explorer_pane_state = ProjectExplorerPaneState::default();
    project_explorer_pane_state.apply_project_list(two_projects());

    assert_eq!(project_explorer_pane_state.selected_project_list_index, Some(0));
    assert_eq!(project_explorer_pane_state.selected_project_name, Some("project".to_string()));
    assert_eq!(
        project_explorer_pane_state.selected_project_directory_path,
        Some("C:/Projects/Alpha/project".to_string())
    );
}

#[test]
fn project_selection_wraps_forward_and_backward() {
    let mut project_explorer_pane_state = ProjectExplorerPaneState::default();
    project_explorer_pane_state.apply_project_list(two_projects());

    project_explorer_pane_state.select_next_project();
    assert_eq!(project_explorer_pane_state.selected_project_list_index, Some(1));

    project_explorer_pane_state.select_next_project();
    assert_eq!(project_explorer_pane_state.selected_project_list_index, Some(0));

    project_explorer_pane_state.select_previous_project();
    assert_eq!(project_explorer_pane_state.selected_project_list_index, Some(1));
}

#[test]
fn rename_input_requires_selected_project() {
    let mut project_explorer_pane_state = ProjectExplorerPaneState::default();

    assert!(!project_explorer_pane_state.begin_rename_selected_project_input());
    assert_eq!(project_explorer_pane_state.input_mode, ProjectSelectorInputMode::NoInput);
}

#[test]
fn rename_input_prefills_selected_project_name() {
    let mut project_explorer_pane_state = ProjectExplorerPaneState::default();
    project_explorer_pane_state.apply_project_list(two_projects());

    assert!(project_explorer_pane_state.begin_rename_selected_project_input());
    assert_eq!(project_explorer_pane_state.input_mode, ProjectSelectorInputMode::RenamingProject);
    assert_eq!(project_explorer_pane_state.pending_project_name_input, "project");
    project_explorer_pane_state.cancel_project_name_input();
    assert_eq!(project_explorer_pane_state.input_mode, ProjectSelectorInputMode::NoInput);
    assert!(project_explorer_pane_state.pending_project_name_input.is_empty());
}

#[test]
fn project_name_input_accepts_only_supported_characters() {
    let mut project_explorer_pane_state = ProjectExplorerPaneState::default();
    project_explorer_pane_state.begin_create_project_input();
    assert_eq!(project_explorer_pane_state.input_mode, ProjectSelectorInputMode::CreatingProject);
    assert_eq!(project_explorer_pane_state.pending_project_name_input, "NewProject");

    project_explorer_pane_state.clear_pending_project_name();
    for character in [' ', 'A', '/', 'b', '_', '-', '.', '9', '!', ' '] {
        project_explorer_pane_state.append_pending_project_name_character(character);
    }
    assert_eq!(project_explorer_pane_state.pending_project_name_input, " Ab_-.9 ");
    assert_eq!(project_explorer_pane_state.pending_project_name_trimmed(), Some("Ab_-.9".to_string()));
    project_explorer_pane_state.backspace_pending_project_name();
    project_explorer_pane_state.backspace_pending_project_name();
    assert_eq!(project_explorer_pane_state.pending_project_name_input, " Ab_-.");

    project_explorer_pane_state.clear_pending_project_name();
    project_explorer_pane_state.append_pending_project_name_character(' ');
    assert_eq!(project_explorer_pane_state.pending_project_name_trimmed(), None);
}

#[test]
fn select_project_by_directory_path_finds_listed_directory() {
    let mut project_explorer_pane_state = ProjectExplorerPaneState::default();
    project_explorer_pane_state.apply_project_list(two_projects());

    assert!(project_explorer_pane_state.select_project_by_directory_path("C:/Projects/Beta/project"));
    assert_eq!(project_explorer_pane_state.selected_project_list_index, Some(1));
    assert_eq!(
        project_explorer_pane_state.selected_project_directory_path(),
        Some("C:/Projects/Beta/project".to_string())
    );

    assert!(!project_explorer_pane_state.select_project_by_directory_path("C:/Projects/Gamma/project"));
    assert_eq!(project_explorer_pane_state.selected_project_list_index, Some(1));
    assert_eq!(project_explorer_pane_state.selected_project_name(), Some("project".to_string()));
}

#[test]
fn project_rows_window_tracks_selected_project_position() {
    let mut project_explorer_pane_state = ProjectExplorerPaneState::default();
    project_explorer_pane_state.project_entries = (0..10)
        .map(|project_position| ProjectInfo::new(&format!("C:/Projects/Project{project_position}/project/squalr-project.json")))
        .collect();
    project_explorer_pane_state.selected_project_list_index = Some(7);
    project_explorer_pane_state.focus_target = ProjectExplorerFocusTarget::ProjectList;

    let entry_rows = build_visible_project_entry_rows(&project_explorer_pane_state, 5);
    let entry_directories: Vec<String> = entry_rows
        .iter()
        .map(|entry_row| entry_row.secondary_text.clone().unwrap_or_default())
        .collect();

    assert_eq!(
        entry_directories,
        vec![
            "C:/Projects/Project5/project",
            "C:/Projects/Project6/project",
            "C:/Projects/Project7/project",
            "C:/Projects/Project8/project",
            "C:/Projects/Project9/project",
        ]
    );
}

#[test]
fn project_item_rows_window_tracks_selected_item_position() {
    let mut project_explorer_pane_state = ProjectExplorerPaneState::default();
    project_explorer_pane_state.project_item_visible_entries = (0..16)
        .map(|item_position| ProjectHierarchyEntry {
            project_item_path: format!("root/item-{item_position}.json"),
            display_name: format!("item-{item_position}"),
            depth: 0,
            is_directory: false,
            is_expanded: false,
            is_activated: false,
        })
        .collect();
    project_explorer_pane_state.selected_project_item_visible_index = Some(12);
    project_explorer_pane_state.focus_target = ProjectExplorerFocusTarget::ProjectHierarchy;

    let entry_rows = build_visible_project_item_entry_rows(&project_explorer_pane_state, 10);
    let entry_names: Vec<&str> = entry_rows.iter().map(|entry_row| entry_row.primary_text.trim()).collect();

    assert_eq!(
        entry_names,
        vec!["item-6", "item-7", "item-8", "item-9", "item-10", "item-11", "item-12", "item-13", "item-14", "item-15"]
    );
}

#[test]
fn project_rows_mark_active_project_and_follow_focus() {
    let mut project_explorer_pane_state = ProjectExplorerPaneState::default();
    project_explorer_pane_state.apply_project_list(two_projects());
    project_explorer_pane_state.set_active_project(Some("project".to_string()), Some("C:/Projects/Beta/project".to_string()));

    let entry_rows = build_visible_project_entry_rows(&project_explorer_pane_state, 5);
    assert_eq!(entry_rows[0].tone, PaneEntryRowTone::Selected);
    assert_eq!(entry_rows[0].marker_text, "");
    assert_eq!(entry_rows[1].tone, PaneEntryRowTone::Normal);
    assert_eq!(entry_rows[1].marker_text, "*");
    assert_eq!(entry_rows[1].primary_text, "project");

    project_explorer_pane_state.focus_target = ProjectExplorerFocusTarget::ProjectHierarchy;
    let entry_rows = build_visible_project_entry_rows(&project_explorer_pane_state, 5);
    assert!(entry_rows.iter().all(|entry_row| entry_row.tone == PaneEntryRowTone::Disabled));
}

#[test]
fn project_item_rows_show_markers_and_indentation() {
    let mut project_explorer_pane_state = ProjectExplorerPaneState::default();
    project_explorer_pane_state.focus_target = ProjectExplorerFocusTarget::ProjectHierarchy;
    project_explorer_pane_state.project_item_visible_entries = vec![
        ProjectHierarchyEntry {
            project_item_path: "root/folder".to_string(),
            display_name: "folder".to_string(),
            depth: 0,
            is_directory: true,
            is_expanded: true,
            is_activated: false,
        },
        ProjectHierarchyEntry {
            project_item_path: "root/folder/health.json".to_string(),
            display_name: "health.json".to_string(),
            depth: 1,
            is_directory: false,
            is_expanded: false,
            is_activated: true,
        },
        ProjectHierarchyEntry {
            project_item_path: "root/closed".to_string(),
            display_name: "closed".to_string(),
            depth: 2,
            is_directory: true,
            is_expanded: false,
            is_activated: false,
        },
    ];
    project_explorer_pane_state.selected_project_item_visible_index = Some(1);

    let entry_rows = project_explorer_pane_state.visible_project_item_entry_rows();

    assert_eq!(entry_rows[0].marker_text, " -");
    assert_eq!(entry_rows[0].primary_text, "folder");
    assert_eq!(entry_rows[1].marker_text, "* ");
    assert_eq!(entry_rows[1].primary_text, "  health.json");
    assert_eq!(entry_rows[1].secondary_text, Some("root/folder/health.json".to_string()));
    assert_eq!(entry_rows[1].tone, PaneEntryRowTone::Selected);
    assert_eq!(entry_rows[2].marker_text, " +");
    assert_eq!(entry_rows[2].primary_text, "    closed");
}

#[test]
fn summary_summary_uses_condensed_marker_group_lead_lines() {
    let project_explorer_pane_state = ProjectExplorerPaneState::default();
    let summary_lines = build_project_explorer_summary_lines(&project_explorer_pane_state);

    assert!(summary_lines[0].starts_with("[MODE]"));
    assert!(summary_lines[1].starts_with("[LIST]"));
    assert!(summary_lines[2].starts_with("[TREE]"));
    assert!(summary_lines[3].starts_with("[MOVE]"));
    assert!(summary_lines[4].starts_with("[INPUT]"));
}

#[test]
fn project_summary_shows_fields_in_debug_form() {
    let mut project_explorer_pane_state = ProjectExplorerPaneState::default();
    project_explorer_pane_state.apply_project_list(two_projects());
    project_explorer_pane_state.set_active_project(Some("say \"hi\"".to_string()), None);

    let summary_lines = project_explorer_pane_state.summary_lines();

    assert_eq!(summary_lines.len(), 31);
    assert_eq!(summary_lines[5], "focus_target=ProjectList");
    assert_eq!(summary_lines[6], "list_count=2");
    assert_eq!(summary_lines[7], "selected_name=Some(\"project\")");
    assert_eq!(summary_lines[8], "active_project=Some(\"say \\\"hi\\\"\")");
    assert_eq!(summary_lines[9], "active_directory=None");
    assert_eq!(summary_lines[13], "input_mode=None");
    assert_eq!(summary_lines[29], "status=Ready.");
    assert_eq!(summary_lines[30], "[ROWS] projects=5 | hierarchy=10.");
}

#[test]
fn project_info_takes_name_from_project_directory() {
    let project_info = ProjectInfo::new("/home/user/games/Cheats/project.json");
    assert_eq!(project_info.get_name(), "Cheats");
    assert_eq!(project_info.get_project_directory(), Some("/home/user/games/Cheats".to_string()));

    let bare_project_info = ProjectInfo::new("project.json");
    assert_eq!(bare_project_info.get_project_directory(), Some(String::new()));
    assert_eq!(bare_project_info.get_name(), "");
}

#[test]
fn selected_item_activation_and_clearing_staged_move() {
    let mut project_explorer_pane_state = ProjectExplorerPaneState::default();
    assert!(!project_explorer_pane_state.selected_project_item_is_activated());
    project_explorer_pane_state.project_item_visible_entries = vec![
        ProjectHierarchyEntry {
            project_item_path: "/p/a".to_string(),
            display_name: "a".to_string(),
            depth: 0,
            is_directory: false,
            is_expanded: false,
            is_activated: false,
        },
        ProjectHierarchyEntry {
            project_item_path: "/p/b".to_string(),
            display_name: "b".to_string(),
            depth: 0,
            is_directory: false,
            is_expanded: false,
            is_activated: true,
        },
    ];
    project_explorer_pane_state.selected_project_item_visible_index = Some(1);
    assert!(project_explorer_pane_state.selected_project_item_is_activated());
    project_explorer_pane_state.selected_project_item_visible_index = Some(0);
    assert!(!project_explorer_pane_state.selected_project_item_is_activated());

    project_explorer_pane_state.pending_move_source_paths = vec!["/p/a".to_string()];
    project_explorer_pane_state.clear_pending_move_source_paths();
    assert!(project_explorer_pane_state.pending_move_source_paths.is_empty());
    assert_eq!(project_explorer_pane_state.status_message, "Cleared staged project item move.");
}
