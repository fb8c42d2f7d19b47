use squalr_tui::engine_requests::EngineReply;
use squalr_tui::project_requests::EngineAnswer;
use squalr_tui::scan_result_requests::{
    begin_add_to_project, begin_delete_scan_results, begin_freeze_toggle, begin_value_edit_commit, finish_add_to_project,
    finish_delete_scan_results, finish_freeze_toggle, finish_value_edit_commit, ProjectItemsAddOutcome,
};
use squalr_tui::scan_results::{AnonymousValueStringFormat, ContainerType, ScanResult, ScanResultRef, ScanResultsPaneState};

fn create_scan_result(scan_result_global_index: u64, is_frozen: bool) -> ScanResult {
    ScanResult::new(ScanResultRef::new(scan_result_global_index), 0x3000 + scan_result_global_index, "i32".to_string(), is_frozen, Vec::new(), Vec::new())
}

fn selected_state(frozen_flags: &[bool], anchor: usize, range_end: usize) -> ScanResultsPaneState {
    let mut scan_results_pane_state = ScanResultsPaneState::default();
    scan_results_pane_state.scan_results = frozen_flags
        .iter()
        .enumerate()
        .map(|(position, is_frozen)| create_scan_result(100 + position as u64, *is_frozen))
        .collect();
    scan_results_pane_state.selected_result_index = Some(anchor);
    scan_results_pane_state.selected_range_end_index = Some(range_end);
    scan_results_pane_state
}

fn global_indices(refs: &[ScanResultRef]) -> Vec<u64> {
    refs.iter().map(|scan_result_ref| scan_result_ref.scan_result_global_index).collect()
}

#[test]
fn freeze_toggle_freezes_when_nothing_selected_is_frozen() {
    let mut scan_results_pane_state = selected_state(&[false, false, false], 0, 1);

    let request = begin_freeze_toggle(&mut scan_results_pane_state, true).expect("freeze is sent");

    assert!(request.is_frozen);
    assert_eq!(global_indices(&request.scan_result_refs), vec![100, 101]);
    assert_eq!(scan_results_pane_state.status_message, "Freezing selected scan results.");

    let should_refresh = finish_freeze_toggle(&mut scan_results_pane_state, true, EngineReply::Answered(Vec::new()));
    assert!(should_refresh);
    assert!(!scan_results_pane_state.is_freezing_scan_results);
    assert_eq!(scan_results_pane_state.status_message, "Selected scan results frozen.");
}

#[test]
fn freeze_toggle_unfreezes_when_any_selected_is_frozen() {
    let mut scan_results_pane_state = selected_state(&[false, true, false], 2, 0);

    let request = begin_freeze_toggle(&mut scan_results_pane_state, true).expect("freeze is sent");

    assert!(!request.is_frozen);
    assert_eq!(global_indices(&request.scan_result_refs), vec![100, 101, 102]);
    assert_eq!(scan_results_pane_state.status_message, "Unfreezing selected scan results.");
}

#[test]
fn freeze_toggle_reports_partial_failure() {
    let mut scan_results_pane_state = selected_state(&[false], 0, 0);
    begin_freeze_toggle(&mut scan_results_pane_state, true);

    finish_freeze_toggle(&mut scan_results_pane_state, true, EngineReply::Answered(vec![ScanResultRef::new(100)]));

    assert_eq!(scan_results_pane_state.status_message, "Freeze toggle partially failed for 1 entries.");
}

#[test]
fn freeze_toggle_requires_selection() {
    let mut scan_results_pane_state = ScanResultsPaneState::default();

    assert!(begin_freeze_toggle(&mut scan_results_pane_state, true).is_none());
    assert_eq!(scan_results_pane_state.status_message, "No scan results are selected to freeze/unfreeze.");
}

#[test]
fn add_to_project_reports_added_count() {
    let mut scan_results_pane_state = selected_state(&[false, false], 0, 1);

    let request = begin_add_to_project(&mut scan_results_pane_state, true).expect("add is sent");
    assert!(request.target_directory_path.is_none());
    assert_eq!(scan_results_pane_state.status_message, "Adding 2 scan results to project.");

    finish_add_to_project(
        &mut scan_results_pane_state,
        EngineAnswer::Answered(ProjectItemsAddOutcome { success: true, added_project_item_count: 2 }),
    );
    assert!(!scan_results_pane_state.is_adding_scan_results_to_project);
    assert_eq!(scan_results_pane_state.status_message, "Added 2 project items from selected scan results.");
}

#[test]
fn add_to_project_failure_is_reported() {
    let mut scan_results_pane_state = selected_state(&[false], 0, 0);
    begin_add_to_project(&mut scan_results_pane_state, true);

    finish_add_to_project(
        &mut scan_results_pane_state,
        EngineAnswer::Answered(ProjectItemsAddOutcome { success: false, added_project_item_count: 0 }),
    );

    assert_eq!(scan_results_pane_state.status_message, "Add-to-project request failed.");
}

#[test]
fn delete_without_engine_reports_it() {
    let mut scan_results_pane_state = selected_state(&[false], 0, 0);

    assert!(begin_delete_scan_results(&mut scan_results_pane_state, false).is_none());
    assert!(!scan_results_pane_state.is_deleting_scan_results);
    assert_eq!(scan_results_pane_state.status_message, "No unprivileged engine state is available for deletion.");
}

#[test]
fn delete_round_trip_asks_for_page_query() {
    let mut scan_results_pane_state = selected_state(&[false, false, false], 1, 2);

    let request = begin_delete_scan_results(&mut scan_results_pane_state, true).expect("delete is sent");
    assert_eq!(global_indices(&request.scan_result_refs), vec![101, 102]);
    assert_eq!(scan_results_pane_state.status_message, "Deleting 2 selected scan results.");

    assert!(finish_delete_scan_results(&mut scan_results_pane_state, EngineReply::Answered(())));
    assert!(!scan_results_pane_state.is_deleting_scan_results);
    assert_eq!(scan_results_pane_state.status_message, "Deleted selected scan results.");
}

#[test]
fn value_commit_rejects_blank_edit() {
    let mut scan_results_pane_state = selected_state(&[false], 0, 0);
    scan_results_pane_state.pending_value_edit_text = "   ".to_string();

    assert!(begin_value_edit_commit(&mut scan_results_pane_state, true).is_none());
    assert_eq!(scan_results_pane_state.status_message, "Edit value is empty.");
}

#[test]
fn value_commit_sends_trimmed_decimal_value() {
    let mut scan_results_pane_state = selected_state(&[false, false], 0, 1);
    scan_results_pane_state.pending_value_edit_text = " 42 ".to_string();

    let request = begin_value_edit_commit(&mut scan_results_pane_state, true).expect("commit is sent");

    assert_eq!(request.anonymous_value_string.anonymous_value_string, "42");
    assert_eq!(request.anonymous_value_string.anonymous_value_string_format, AnonymousValueStringFormat::Decimal);
    assert_eq!(request.anonymous_value_string.container_type, ContainerType::Scalar);
    assert_eq!(scan_results_pane_state.status_message, "Committing value edit '42' for 2 selected results.");

    let should_refresh = finish_value_edit_commit(&mut scan_results_pane_state, EngineReply::TimedOut("gone".to_string()));
    assert!(!should_refresh);
    assert!(!scan_results_pane_state.is_committing_value_edit);
    assert_eq!(scan_results_pane_state.status_message, "Timed out waiting for scan results set property response: gone");
}
