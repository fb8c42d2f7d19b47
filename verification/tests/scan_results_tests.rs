use squalr_tui::scan_results::{
    build_scan_results_summary_lines, build_visible_scan_result_rows, AnonymousValueString, AnonymousValueStringFormat, ContainerType,
    ScanResult, ScanResultRef, ScanResultsPaneState, ScanResultsQueryResponse,
};

fn create_scan_result(scan_result_global_index: u64) -> ScanResult {
    ScanResult::new(ScanResultRef::new(scan_result_global_index), 0x1000 + scan_result_global_index, "u8".to_string(), false, Vec::new(), Vec::new())
}

fn create_query_response(page_index: u64, scan_result_global_indices: &[u64]) -> ScanResultsQueryResponse {
    ScanResultsQueryResponse {
        page_index,
        last_page_index: page_index,
        page_size: scan_result_global_indices.len() as u64,
        result_count: scan_result_global_indices.len() as u64,
        total_size_in_bytes: 0,
        scan_results: scan_result_global_indices
            .iter()
            .map(|scan_result_global_index| create_scan_result(*scan_result_global_index))
            .collect(),
    }
}

#[test]
fn selected_scan_result_refs_uses_range_bounds() {
    let mut scan_results_pane_state = ScanResultsPaneState::default();
    scan_results_pane_state.scan_results = [10, 11, 12, 13]
        .iter()
        .map(|scan_result_global_index| create_scan_result(*scan_result_global_index))
        .collect();
    scan_results_pane_state.selected_result_index = Some(1);
    scan_results_pane_state.selected_range_end_index = Some(2);

    let selected_scan_result_global_indices = scan_results_pane_state
        .selected_scan_result_refs()
        .iter()
        .map(|scan_result_ref| scan_result_ref.scan_result_global_index)
        .collect::<Vec<_>>();

    assert_eq!(selected_scan_result_global_indices, vec![11, 12]);
}

#[test]
fn set_current_page_index_clears_selection_when_page_changes() {
    let mut scan_results_pane_state = ScanResultsPaneState::default();
    scan_results_pane_state.cached_last_page_index = 9;
    scan_results_pane_state.selected_result_index = Some(3);
    scan_results_pane_state.selected_range_end_index = Some(4);

    let did_change_page = scan_results_pane_state.set_current_page_index(5);

    assert!(did_change_page);
    assert_eq!(scan_results_pane_state.current_page_index, 5);
    assert!(scan_results_pane_state.selected_result_index.is_none());
    assert!(scan_results_pane_state.selected_range_end_index.is_none());
}

#[test]
fn set_current_page_index_returns_false_when_index_unchanged() {
    let mut scan_results_pane_state = ScanResultsPaneState::default();
    scan_results_pane_state.current_page_index = 2;
    scan_results_pane_state.cached_last_page_index = 9;

    let did_change_page = scan_results_pane_state.set_current_page_index(2);

    assert!(!did_change_page);
}

#[test]
fn apply_query_response_restores_selected_result_by_scan_result_ref() {
    let mut scan_results_pane_state = ScanResultsPaneState::default();
    scan_results_pane_state.scan_results = [10, 11, 12]
        .iter()
        .map(|scan_result_global_index| create_scan_result(*scan_result_global_index))
        .collect();
    scan_results_pane_state.selected_result_index = Some(1);
    scan_results_pane_state.selected_range_end_index = Some(2);

    scan_results_pane_state.apply_query_response(create_query_response(0, &[12, 10, 11]));

    assert_eq!(scan_results_pane_state.selected_result_index, Some(2));
    assert_eq!(scan_results_pane_state.selected_range_end_index, Some(0));
}

#[test]
fn apply_query_response_defaults_to_first_result_when_previous_selection_missing() {
    let mut scan_results_pane_state = ScanResultsPaneState::default();
    scan_results_pane_state.scan_results = [10, 11]
        .iter()
        .map(|scan_result_global_index| create_scan_result(*scan_result_global_index))
        .collect();
    scan_results_pane_state.selected_result_index = Some(1);
    scan_results_pane_state.selected_range_end_index = Some(1);

    scan_results_pane_state.apply_query_response(create_query_response(0, &[99]));

    assert_eq!(scan_results_pane_state.selected_result_index, Some(0));
    assert_eq!(scan_results_pane_state.selected_range_end_index, None);
}

#[test]
fn scan_result_rows_window_tracks_selected_result_position() {
    let mut scan_results_pane_state = ScanResultsPaneState::default();
    scan_results_pane_state.scan_results = (0..10).map(|scan_result_position| create_scan_result(scan_result_position as u64)).collect();
    scan_results_pane_state.selected_result_index = Some(7);
    scan_results_pane_state.selected_range_end_index = Some(7);

    let entry_rows = build_visible_scan_result_rows(&scan_results_pane_state, 5);
    let entry_primary_text: Vec<&str> = entry_rows.iter().map(|entry_row| entry_row.primary_text.as_str()).collect();

    assert_eq!(
        entry_primary_text,
        vec![
            "idx=5 global=5 addr=0x1005",
            "idx=6 global=6 addr=0x1006",
            "idx=7 global=7 addr=0x1007",
            "idx=8 global=8 addr=0x1008",
            "idx=9 global=9 addr=0x1009",
        ]
    );
}

#[test]
fn range_selection_extends_and_counts() {
    let mut scan_results_pane_state = ScanResultsPaneState::default();
    scan_results_pane_state.scan_results = (0..6).map(create_scan_result).collect();
    scan_results_pane_state.select_first_result(false);
    assert_eq!(scan_results_pane_state.selected_result_index, Some(0));
    scan_results_pane_state.set_selected_range_end_to_current();
    scan_results_pane_state.select_next_result(true);
    scan_results_pane_state.select_next_result(true);
    assert_eq!(scan_results_pane_state.selected_result_count(), 3);
    assert_eq!(scan_results_pane_state.selected_result_range(), Some((0, 2)));
    scan_results_pane_state.select_last_result(false);
    assert_eq!(scan_results_pane_state.selected_result_index, Some(5));
    assert_eq!(scan_results_pane_state.selected_result_count(), 1);
}

#[test]
fn value_edit_text_accepts_digits_and_pulls_selection_value() {
    let mut scan_results_pane_state = ScanResultsPaneState::default();
    let mut scan_result = create_scan_result(3);
    scan_result.current_display_values =
        vec![AnonymousValueString::new("42".to_string(), AnonymousValueStringFormat::Decimal, ContainerType::Scalar)];
    scan_results_pane_state.scan_results = vec![scan_result];
    scan_results_pane_state.selected_result_index = Some(0);

    scan_results_pane_state.sync_pending_value_edit_from_selection();
    assert_eq!(scan_results_pane_state.pending_value_edit_text, "42");
    scan_results_pane_state.backspace_pending_value_edit();
    assert_eq!(scan_results_pane_state.pending_value_edit_text, "4");
    scan_results_pane_state.backspace_pending_value_edit();
    assert_eq!(scan_results_pane_state.pending_value_edit_text, "0");
    scan_results_pane_state.append_pending_value_edit_character('7');
    assert_eq!(scan_results_pane_state.pending_value_edit_text, "7");
    scan_results_pane_state.clear_pending_value_edit();
    assert_eq!(scan_results_pane_state.pending_value_edit_text, "0");

    let summary_lines = build_scan_results_summary_lines(&scan_results_pane_state);
    assert_eq!(summary_lines.len(), 8);
    assert_eq!(summary_lines[4], "[SEL] index=0 | selected=1 | bytes=0.");
    assert_eq!(summary_lines[5], "[VAL] 0.");
}
