use squalr_tui::paths::ProjectInfo;
use squalr_tui::project_explorer::{ProjectExplorerPaneState, ProjectSelectorInputMode};
use squalr_tui::project_requests::{
    begin_project_close, begin_project_create, begin_project_delete, begin_project_list_refresh, begin_project_open, begin_project_rename,
    finish_project_close, finish_project_create, finish_project_delete, finish_project_list_refresh, finish_project_open,
    finish_project_rename, EngineAnswer, ProjectPathResponse,
};

fn state_with_projects() -> ProjectExplorerPaneState {
    let mut project_explorer_pane_state = ProjectExplorerPaneState::default();
    project_explorer_pane_state.apply_project_list(vec![
        ProjectInfo::new("/projects/alpha/project.json"),
        ProjectInfo::new("/projects/beta/project.json"),
    ]);
    project_explorer_pane_state
}

#[test]
fn project_list_refresh_selects_first_project() {
    let mut project_explorer_pane_state = ProjectExplorerPaneState::default();

    assert!(begin_project_list_refresh(&mut project_explorer_pane_state, true, true));
    assert_eq!(project_explorer_pane_state.status_message, "Refreshing project list.");
    finish_project_list_refresh(
        &mut project_explorer_pane_state,
        EngineAnswer::Answered(vec![ProjectInfo::new("/projects/alpha/project.json")]),
        true,
    );

    assert!(!project_explorer_pane_state.is_awaiting_project_list_response);
    assert!(project_explorer_pane_state.has_loaded_project_list_once);
    assert_eq!(project_explorer_pane_state.selected_project_list_index, Some(0));
    assert_eq!(project_explorer_pane_state.selected_project_name.as_deref(), Some("alpha"));
    assert_eq!(project_explorer_pane_state.status_message, "Loaded 1 projects.");
}

#[test]
fn project_list_refresh_without_engine_reports_it() {
    let mut project_explorer_pane_state = ProjectExplorerPaneState::default();

    assert!(!begin_project_list_refresh(&mut project_explorer_pane_state, false, true));
    assert!(!project_explorer_pane_state.is_awaiting_project_list_response);
}

#[test]
fn project_open_makes_project_active() {
    let mut project_explorer_pane_state = state_with_projects();

    let (request, project_name) = begin_project_open(&mut project_explorer_pane_state, true).expect("open is sent");
    assert_eq!(request.project_directory_path.as_deref(), Some("/projects/alpha"));
    assert_eq!(project_name, "alpha");
    assert_eq!(project_explorer_pane_state.status_message, "Opening project 'alpha'.");

    let did_open = finish_project_open(&mut project_explorer_pane_state, project_name, "/projects/alpha".to_string(), EngineAnswer::Answered(true));
    assert!(did_open);
    assert_eq!(project_explorer_pane_state.active_project_name.as_deref(), Some("alpha"));
    assert_eq!(project_explorer_pane_state.active_project_directory_path.as_deref(), Some("/projects/alpha"));
    assert_eq!(project_explorer_pane_state.status_message, "Opened project 'alpha'.");
}

#[test]
fn project_create_requires_name() {
    let mut project_explorer_pane_state = ProjectExplorerPaneState::default();
    project_explorer_pane_state.begin_create_project_input();
    project_explorer_pane_state.clear_pending_project_name();

    assert!(begin_project_create(&mut project_explorer_pane_state, true).is_none());
    assert_eq!(project_explorer_pane_state.status_message, "Project name is empty.");
}

#[test]
fn project_create_round_trip_ends_input() {
    let mut project_explorer_pane_state = ProjectExplorerPaneState::default();
    project_explorer_pane_state.begin_create_project_input();

    let request = begin_project_create(&mut project_explorer_pane_state, true).expect("create is sent");
    assert_eq!(request.project_name.as_deref(), Some("NewProject"));
    assert_eq!(project_explorer_pane_state.status_message, "Creating project 'NewProject'.");

    let created_path = finish_project_create(
        &mut project_explorer_pane_state,
        "NewProject",
        EngineAnswer::Answered(ProjectPathResponse { success: true, new_project_path: "/projects/NewProject".to_string() }),
    );
    assert_eq!(created_path.as_deref(), Some("/projects/NewProject"));
    assert_eq!(project_explorer_pane_state.input_mode, ProjectSelectorInputMode::NoInput);
    assert!(!project_explorer_pane_state.is_creating_project);
    assert_eq!(project_explorer_pane_state.status_message, "Created project 'NewProject' at /projects/NewProject.");
}

#[test]
fn project_close_clears_active_project() {
    let mut project_explorer_pane_state = state_with_projects();
    project_explorer_pane_state.set_active_project(Some("alpha".to_string()), Some("/projects/alpha".to_string()));

    assert!(begin_project_close(&mut project_explorer_pane_state, true));
    assert_eq!(project_explorer_pane_state.status_message, "Closing active project.");
    assert!(finish_project_close(&mut project_explorer_pane_state, EngineAnswer::Answered(true)));
    assert!(project_explorer_pane_state.active_project_name.is_none());
    assert_eq!(project_explorer_pane_state.status_message, "Closed active project.");
}

#[test]
fn renaming_active_project_keeps_it_active() {
    let mut project_explorer_pane_state = state_with_projects();
    project_explorer_pane_state.set_active_project(Some("alpha".to_string()), Some("/projects/alpha".to_string()));
    assert!(project_explorer_pane_state.begin_rename_selected_project_input());
    project_explorer_pane_state.pending_project_name_input = " gamma ".to_string();

    let request = begin_project_rename(&mut project_explorer_pane_state, true).expect("rename is sent");
    assert_eq!(request.project_directory_path, "/projects/alpha");
    assert_eq!(request.new_project_name, "gamma");
    assert_eq!(project_explorer_pane_state.status_message, "Renaming project to 'gamma'.");

    let renamed_path = finish_project_rename(
        &mut project_explorer_pane_state,
        &request,
        EngineAnswer::Answered(ProjectPathResponse { success: true, new_project_path: "/projects/gamma".to_string() }),
    );
    assert_eq!(renamed_path.as_deref(), Some("/projects/gamma"));
    assert_eq!(project_explorer_pane_state.active_project_name.as_deref(), Some("gamma"));
    assert_eq!(project_explorer_pane_state.active_project_directory_path.as_deref(), Some("/projects/gamma"));
    assert_eq!(project_explorer_pane_state.input_mode, ProjectSelectorInputMode::NoInput);
    assert_eq!(project_explorer_pane_state.status_message, "Renamed project to 'gamma'.");
}

#[test]
fn rename_failure_keeps_input() {
    let mut project_explorer_pane_state = state_with_projects();
    assert!(project_explorer_pane_state.begin_rename_selected_project_input());
    let request = begin_project_rename(&mut project_explorer_pane_state, true).expect("rename is sent");

    let renamed_path = finish_project_rename(&mut project_explorer_pane_state, &request, EngineAnswer::TimedOut("late".to_string()));

    assert!(renamed_path.is_none());
    assert_eq!(project_explorer_pane_state.input_mode, ProjectSelectorInputMode::RenamingProject);
    assert_eq!(project_explorer_pane_state.status_message, "Timed out waiting for project rename response: late");
}

#[test]
fn deleting_active_project_clears_it() {
    let mut project_explorer_pane_state = state_with_projects();
    project_explorer_pane_state.set_active_project(Some("alpha".to_string()), Some("/projects/alpha".to_string()));

    let (request, project_name) = begin_project_delete(&mut project_explorer_pane_state, true).expect("delete is sent");
    let project_directory_path = request.project_directory_path.expect("directory is named");
    assert_eq!(project_explorer_pane_state.status_message, "Deleting project 'alpha'.");

    let outcome = finish_project_delete(&mut project_explorer_pane_state, &project_directory_path, &project_name, EngineAnswer::Answered(true));
    assert!(outcome.did_delete);
    assert!(outcome.did_clear_active_project);
    assert!(project_explorer_pane_state.active_project_name.is_none());
    assert_eq!(project_explorer_pane_state.status_message, "Deleted project 'alpha'.");
}

#[test]
fn project_delete_without_selection_is_reported() {
    let mut project_explorer_pane_state = ProjectExplorerPaneState::default();

    assert!(begin_project_delete(&mut project_explorer_pane_state, true).is_none());
    assert_eq!(project_explorer_pane_state.status_message, "No project is selected for delete.");
}
