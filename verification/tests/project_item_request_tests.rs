use squalr_tui::project_explorer::{ProjectExplorerPaneState, ProjectSelectorInputMode};
use squalr_tui::project_item_requests::{
    begin_project_directory_create, begin_project_item_activation_toggle, begin_project_item_delete, begin_project_item_reorder,
    begin_project_items_move, begin_project_items_refresh, finish_project_directory_create, finish_project_item_activation_toggle,
    finish_project_item_delete, finish_project_item_reorder, finish_project_items_move, finish_project_items_refresh, ProjectItemsOutcome,
};
use squalr_tui::project_requests::EngineAnswer;

#[test]
fn project_items_refresh_round_trip_reports_count() {
    let mut project_explorer_pane_state = ProjectExplorerPaneState::default();

    assert!(begin_project_items_refresh(&mut project_explorer_pane_state, true, true));
    assert!(project_explorer_pane_state.is_awaiting_project_item_list_response);
    assert_eq!(project_explorer_pane_state.status_message, "Refreshing project item hierarchy.");

    finish_project_items_refresh(&mut project_explorer_pane_state, EngineAnswer::Answered(4), true);
    assert!(!project_explorer_pane_state.is_awaiting_project_item_list_response);
    assert_eq!(project_explorer_pane_state.status_message, "Loaded 4 project items.");
}

#[test]
fn project_items_refresh_is_refused_while_awaiting() {
    let mut project_explorer_pane_state = ProjectExplorerPaneState::default();
    project_explorer_pane_state.is_awaiting_project_item_list_response = true;

    assert!(!begin_project_items_refresh(&mut project_explorer_pane_state, true, true));
    assert_eq!(project_explorer_pane_state.status_message, "Project item list request already in progress.");
}

#[test]
fn directory_create_requires_target_and_name() {
    let mut project_explorer_pane_state = ProjectExplorerPaneState::default();

    assert!(begin_project_directory_create(&mut project_explorer_pane_state, None, true).is_none());
    assert_eq!(project_explorer_pane_state.status_message, "No directory target is selected for project item create.");

    project_explorer_pane_state.pending_project_name_input = "  ".to_string();
    assert!(begin_project_directory_create(&mut project_explorer_pane_state, Some("/p".to_string()), true).is_none());
    assert_eq!(project_explorer_pane_state.status_message, "Project item name is empty.");
}

#[test]
fn directory_create_round_trip_ends_name_input() {
    let mut project_explorer_pane_state = ProjectExplorerPaneState::default();
    project_explorer_pane_state.begin_create_project_input();
    project_explorer_pane_state.pending_project_name_input = " Pointers ".to_string();

    let request = begin_project_directory_create(&mut project_explorer_pane_state, Some("/proj/items".to_string()), true)
        .expect("create is sent");
    assert_eq!(request.parent_directory_path, "/proj/items");
    assert_eq!(request.project_item_name, "Pointers");
    assert_eq!(request.project_item_type, "directory");
    assert_eq!(project_explorer_pane_state.status_message, "Creating directory 'Pointers' under /proj/items.");

    let did_create = finish_project_directory_create(&mut project_explorer_pane_state, request.project_item_name, EngineAnswer::Answered(true));
    assert!(did_create);
    assert_eq!(project_explorer_pane_state.input_mode, ProjectSelectorInputMode::NoInput);
    assert!(project_explorer_pane_state.pending_project_name_input.is_empty());
    assert!(!project_explorer_pane_state.is_creating_project_item);
    assert_eq!(project_explorer_pane_state.status_message, "Created project directory 'Pointers'.");
}

#[test]
fn activation_toggle_flips_selected_activation() {
    let mut project_explorer_pane_state = ProjectExplorerPaneState::default();

    let request = begin_project_item_activation_toggle(&mut project_explorer_pane_state, Some("/p/a.json".to_string()), true, true)
        .expect("toggle is sent");
    assert_eq!(request.project_item_paths, vec!["/p/a.json".to_string()]);
    assert!(!request.is_activated);
    assert_eq!(project_explorer_pane_state.status_message, "Setting activation=false for /p/a.json.");

    assert!(finish_project_item_activation_toggle(&mut project_explorer_pane_state, EngineAnswer::Answered(())));
    assert_eq!(project_explorer_pane_state.status_message, "Updated selected project item activation.");
}

#[test]
fn move_requires_staged_items() {
    let mut project_explorer_pane_state = ProjectExplorerPaneState::default();

    assert!(begin_project_items_move(&mut project_explorer_pane_state, Some("/p/dir".to_string()), true).is_none());
    assert_eq!(project_explorer_pane_state.status_message, "No staged project items to move.");
}

#[test]
fn move_round_trip_clears_staged_items() {
    let mut project_explorer_pane_state = ProjectExplorerPaneState::default();
    project_explorer_pane_state.pending_move_source_paths = vec!["/p/a.json".to_string(), "/p/b.json".to_string()];

    let request = begin_project_items_move(&mut project_explorer_pane_state, Some("/p/dir".to_string()), true).expect("move is sent");
    assert_eq!(request.project_item_paths.len(), 2);
    assert_eq!(request.target_directory_path, "/p/dir");
    assert_eq!(project_explorer_pane_state.status_message, "Moving 2 project items to /p/dir.");

    let did_move = finish_project_items_move(
        &mut project_explorer_pane_state,
        EngineAnswer::Answered(ProjectItemsOutcome { success: true, changed_project_item_count: 2 }),
    );
    assert!(did_move);
    assert!(project_explorer_pane_state.pending_move_source_paths.is_empty());
    assert_eq!(project_explorer_pane_state.status_message, "Moved 2 project items.");
}

#[test]
fn reorder_without_order_is_refused() {
    let mut project_explorer_pane_state = ProjectExplorerPaneState::default();

    assert!(begin_project_item_reorder(&mut project_explorer_pane_state, None, true).is_none());
    assert_eq!(project_explorer_pane_state.status_message, "Selected project item cannot be reordered in that direction.");
}

#[test]
fn reorder_failure_is_reported() {
    let mut project_explorer_pane_state = ProjectExplorerPaneState::default();

    let request = begin_project_item_reorder(&mut project_explorer_pane_state, Some(vec!["/p/b".to_string(), "/p/a".to_string()]), true);
    assert!(request.is_some());
    assert_eq!(project_explorer_pane_state.status_message, "Reordering project items.");

    let did_reorder = finish_project_item_reorder(
        &mut project_explorer_pane_state,
        EngineAnswer::Answered(ProjectItemsOutcome { success: false, changed_project_item_count: 0 }),
    );
    assert!(!did_reorder);
    assert_eq!(project_explorer_pane_state.status_message, "Project item reorder request failed.");
}

#[test]
fn delete_needs_confirmation_press() {
    let mut project_explorer_pane_state = ProjectExplorerPaneState::default();
    project_explorer_pane_state.selected_item_path = Some("/p/a.json".to_string());

    assert!(begin_project_item_delete(&mut project_explorer_pane_state, true).is_none());
    assert_eq!(project_explorer_pane_state.status_message, "Press x again to confirm deleting selected project item.");
    assert_eq!(project_explorer_pane_state.pending_delete_confirmation_paths, vec!["/p/a.json".to_string()]);

    let request = begin_project_item_delete(&mut project_explorer_pane_state, true).expect("delete is sent");
    assert_eq!(request.project_item_paths, vec!["/p/a.json".to_string()]);
    assert!(project_explorer_pane_state.pending_delete_confirmation_paths.is_empty());
    assert_eq!(project_explorer_pane_state.status_message, "Deleting 1 project items.");

    let did_delete = finish_project_item_delete(
        &mut project_explorer_pane_state,
        EngineAnswer::Answered(ProjectItemsOutcome { success: true, changed_project_item_count: 1 }),
    );
    assert!(did_delete);
    assert!(!project_explorer_pane_state.is_deleting_project_item);
    assert_eq!(project_explorer_pane_state.status_message, "Deleted 1 project items.");
}

#[test]
fn delete_without_selection_is_reported() {
    let mut project_explorer_pane_state = ProjectExplorerPaneState::default();

    assert!(begin_project_item_delete(&mut project_explorer_pane_state, true).is_none());
    assert_eq!(project_explorer_pane_state.status_message, "No project item is selected for delete.");
}
