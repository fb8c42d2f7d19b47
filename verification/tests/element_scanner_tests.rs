use squalr_tui::element_scanner::{
    build_element_scanner_summary_lines_with_capacity, ElementScannerPaneState, ScanCompareType, ScanCompareTypeImmediate,
    ScanCompareTypeRelative,
};

#[test]
fn add_constraint_caps_at_five() {
    let mut element_scanner_pane_state = ElementScannerPaneState::default();

    assert!(element_scanner_pane_state.add_constraint());
    assert!(element_scanner_pane_state.add_constraint());
    assert!(element_scanner_pane_state.add_constraint());
    assert!(element_scanner_pane_state.add_constraint());
    assert!(!element_scanner_pane_state.add_constraint());
    assert_eq!(element_scanner_pane_state.active_constraint_count(), 5);
}

#[test]
fn remove_constraint_retains_at_least_one_row() {
    let mut element_scanner_pane_state = ElementScannerPaneState::default();

    assert!(!element_scanner_pane_state.remove_selected_constraint());
    assert_eq!(element_scanner_pane_state.active_constraint_count(), 1);
}

#[test]
fn data_type_cycle_wraps() {
    let mut element_scanner_pane_state = ElementScannerPaneState::default();
    element_scanner_pane_state.selected_data_type_index = 0;

    element_scanner_pane_state.cycle_data_type_backward();
    assert_eq!(element_scanner_pane_state.selected_data_type_name(), "f64");

    element_scanner_pane_state.cycle_data_type_forward();
    assert_eq!(element_scanner_pane_state.selected_data_type_name(), "i8");
}

#[test]
fn relative_constraint_serializes_without_value() {
    let mut element_scanner_pane_state = ElementScannerPaneState::default();
    element_scanner_pane_state.constraint_rows[0].scan_compare_type = ScanCompareType::Relative(ScanCompareTypeRelative::Changed);

    let anonymous_scan_constraints = element_scanner_pane_state.build_anonymous_scan_constraints();

    assert_eq!(anonymous_scan_constraints.len(), 1);
    assert!(anonymous_scan_constraints[0].get_anonymous_value_string().is_none());
}

#[test]
fn immediate_constraint_serializes_with_value() {
    let mut element_scanner_pane_state = ElementScannerPaneState::default();
    element_scanner_pane_state.append_selected_constraint_value_character('4');
    element_scanner_pane_state.append_selected_constraint_value_character('x');

    let anonymous_scan_constraints = element_scanner_pane_state.build_anonymous_scan_constraints();

    assert_eq!(anonymous_scan_constraints.len(), 1);
    assert_eq!(
        anonymous_scan_constraints[0].scan_compare_type,
        ScanCompareType::Immediate(ScanCompareTypeImmediate::Equal)
    );
    let value = anonymous_scan_constraints[0].get_anonymous_value_string().as_ref().unwrap();
    assert_eq!(value.anonymous_value_string, "04");
}

#[test]
fn constraint_rows_keep_selection_in_range() {
    let mut element_scanner_pane_state = ElementScannerPaneState::default();
    assert!(element_scanner_pane_state.add_constraint());
    assert_eq!(element_scanner_pane_state.selected_constraint_row_index, 1);
    element_scanner_pane_state.select_next_constraint();
    assert_eq!(element_scanner_pane_state.selected_constraint_row_index, 0);
    element_scanner_pane_state.select_previous_constraint();
    assert_eq!(element_scanner_pane_state.selected_constraint_row_index, 1);
    assert!(element_scanner_pane_state.remove_selected_constraint());
    assert_eq!(element_scanner_pane_state.active_constraint_count(), 1);
    assert_eq!(element_scanner_pane_state.selected_constraint_row_index, 0);
}

#[test]
fn element_scanner_summary_respects_line_capacity() {
    let element_scanner_pane_state = ElementScannerPaneState::default();

    assert!(build_element_scanner_summary_lines_with_capacity(&element_scanner_pane_state, 0).is_empty());
    let two_lines = build_element_scanner_summary_lines_with_capacity(&element_scanner_pane_state, 2);
    assert_eq!(two_lines.len(), 2);
    let all_lines = element_scanner_pane_state.summary_lines_with_capacity(20);
    assert_eq!(all_lines[2], "[DATA] type=i32.");
    assert_eq!(all_lines[3], "> [ROW] == 0.");
    assert_eq!(all_lines[4], "[SCAN] constraints=1 | selected_row=1 | pending=false | has_results=false.");
    assert_eq!(all_lines.len(), 7);
}
