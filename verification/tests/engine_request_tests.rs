use squalr_tui::element_scanner::{
    ElementScannerConstraintState, ElementScannerPaneState, ScanCompareType, ScanCompareTypeImmediate, ScanCompareTypeRelative,
};
use squalr_tui::engine_requests::{
    begin_collect_scan_values, begin_element_scan, begin_process_list_refresh, begin_process_open, begin_scan_reset,
    begin_scan_results_query, begin_scan_results_refresh, build_element_scan_request, current_page_scan_result_refs,
    finish_collect_scan_values, finish_element_scan, finish_new_scan, finish_process_list_refresh, finish_process_open,
    finish_scan_reset, finish_scan_results_query, finish_scan_results_refresh, EngineReply, ScanResultsMetadata,
};
use squalr_tui::process_selector::{OpenedProcessInfo, ProcessInfo, ProcessSelectorPaneState};
use squalr_tui::scan_results::{
    AnonymousValueStringFormat, ContainerType, ScanResult, ScanResultRef, ScanResultsPaneState, ScanResultsQueryResponse,
};

fn create_scan_result(scan_result_global_index: u64) -> ScanResult {
    ScanResult::new(ScanResultRef::new(scan_result_global_index), 0x2000 + scan_result_global_index, "u32".to_string(), false, Vec::new(), Vec::new())
}

#[test]
fn process_list_refresh_is_refused_while_awaiting() {
    let mut process_selector_pane_state = ProcessSelectorPaneState::default();
    process_selector_pane_state.is_awaiting_process_list_response = true;

    let request = begin_process_list_refresh(&mut process_selector_pane_state, true, true);

    assert!(request.is_none());
    assert_eq!(process_selector_pane_state.status_message, "Process list request already in progress.");
}

#[test]
fn process_list_refresh_without_engine_reports_it() {
    let mut process_selector_pane_state = ProcessSelectorPaneState::default();

    let request = begin_process_list_refresh(&mut process_selector_pane_state, false, true);

    assert!(request.is_none());
    assert!(!process_selector_pane_state.is_awaiting_process_list_response);
    assert_eq!(process_selector_pane_state.status_message, "No unprivileged engine state is available for process queries.");
}

#[test]
fn process_list_refresh_round_trip_keeps_selected_process() {
    let mut process_selector_pane_state = ProcessSelectorPaneState::default();
    process_selector_pane_state.apply_process_list(vec![
        ProcessInfo::new(5, "five".to_string(), true),
        ProcessInfo::new(9, "nine".to_string(), true),
    ]);
    process_selector_pane_state.select_next_process();
    process_selector_pane_state.show_windowed_processes_only = true;

    let request = begin_process_list_refresh(&mut process_selector_pane_state, true, true).expect("request is sent");
    assert!(request.require_windowed);
    assert!(process_selector_pane_state.is_awaiting_process_list_response);
    assert_eq!(process_selector_pane_state.status_message, "Refreshing process list.");

    finish_process_list_refresh(
        &mut process_selector_pane_state,
        EngineReply::Answered(vec![
            ProcessInfo::new(1, "one".to_string(), true),
            ProcessInfo::new(9, "nine".to_string(), true),
            ProcessInfo::new(12, "twelve".to_string(), false),
        ]),
        true,
    );

    assert!(!process_selector_pane_state.is_awaiting_process_list_response);
    assert!(process_selector_pane_state.has_loaded_process_list_once);
    assert_eq!(process_selector_pane_state.selected_process_list_index, Some(1));
    assert_eq!(process_selector_pane_state.selected_process_identifier, Some(9));
    assert_eq!(process_selector_pane_state.status_message, "Loaded 3 processes.");
}

#[test]
fn process_list_timeout_keeps_list_and_reports_reason() {
    let mut process_selector_pane_state = ProcessSelectorPaneState::default();
    process_selector_pane_state.is_awaiting_process_list_response = true;

    finish_process_list_refresh(&mut process_selector_pane_state, EngineReply::TimedOut("timed out".to_string()), true);

    assert!(!process_selector_pane_state.is_awaiting_process_list_response);
    assert!(process_selector_pane_state.process_list_entries.is_empty());
    assert_eq!(process_selector_pane_state.status_message, "Timed out waiting for process list response: timed out");
}

#[test]
fn process_list_refresh_without_feedback_keeps_status() {
    let mut process_selector_pane_state = ProcessSelectorPaneState::default();
    process_selector_pane_state.status_message = "unchanged".to_string();

    let request = begin_process_list_refresh(&mut process_selector_pane_state, true, false);
    finish_process_list_refresh(&mut process_selector_pane_state, EngineReply::NotDispatched, false);

    assert!(request.is_some());
    assert_eq!(process_selector_pane_state.status_message, "unchanged");
}

#[test]
fn process_open_requires_selection() {
    let mut process_selector_pane_state = ProcessSelectorPaneState::default();

    let request = begin_process_open(&mut process_selector_pane_state, true);

    assert!(request.is_none());
    assert_eq!(process_selector_pane_state.status_message, "No process is selected.");
}

#[test]
fn process_open_round_trip_records_opened_process() {
    let mut process_selector_pane_state = ProcessSelectorPaneState::default();
    process_selector_pane_state.apply_process_list(vec![ProcessInfo::new(42, "game".to_string(), true)]);

    let request = begin_process_open(&mut process_selector_pane_state, true).expect("request is sent");
    assert_eq!(request.process_id, Some(42));
    assert_eq!(process_selector_pane_state.status_message, "Opening process 42.");

    finish_process_open(
        &mut process_selector_pane_state,
        EngineReply::Answered(Some(OpenedProcessInfo { process_id: 42, name: "game".to_string() })),
    );

    assert!(!process_selector_pane_state.is_opening_process);
    assert_eq!(process_selector_pane_state.opened_process_identifier, Some(42));
    assert_eq!(process_selector_pane_state.opened_process_name.as_deref(), Some("game"));
    assert_eq!(process_selector_pane_state.status_message, "Opened process game (42).");
}

#[test]
fn scan_reset_clears_results_on_success() {
    let mut element_scanner_pane_state = ElementScannerPaneState::default();
    let mut scan_results_pane_state = ScanResultsPaneState::default();
    element_scanner_pane_state.has_scan_results = true;
    element_scanner_pane_state.last_result_count = 7;
    scan_results_pane_state.scan_results = vec![create_scan_result(1)];

    assert!(begin_scan_reset(&mut element_scanner_pane_state, true));
    assert_eq!(element_scanner_pane_state.status_message, "Resetting active scan.");
    finish_scan_reset(&mut element_scanner_pane_state, &mut scan_results_pane_state, EngineReply::Answered(true));

    assert!(!element_scanner_pane_state.has_pending_scan_request);
    assert!(!element_scanner_pane_state.has_scan_results);
    assert_eq!(element_scanner_pane_state.last_result_count, 0);
    assert_eq!(element_scanner_pane_state.status_message, "Scan state reset.");
    assert!(scan_results_pane_state.scan_results.is_empty());
    assert_eq!(scan_results_pane_state.status_message, "Scan results cleared.");
}

#[test]
fn scan_reset_failure_keeps_results() {
    let mut element_scanner_pane_state = ElementScannerPaneState::default();
    let mut scan_results_pane_state = ScanResultsPaneState::default();
    element_scanner_pane_state.has_scan_results = true;

    begin_scan_reset(&mut element_scanner_pane_state, true);
    finish_scan_reset(&mut element_scanner_pane_state, &mut scan_results_pane_state, EngineReply::Answered(false));

    assert!(element_scanner_pane_state.has_scan_results);
    assert_eq!(element_scanner_pane_state.status_message, "Scan reset request failed.");
}

#[test]
fn scan_request_in_progress_blocks_other_scan_requests() {
    let mut element_scanner_pane_state = ElementScannerPaneState::default();
    element_scanner_pane_state.has_pending_scan_request = true;

    assert!(!begin_collect_scan_values(&mut element_scanner_pane_state, true));
    assert_eq!(element_scanner_pane_state.status_message, "Scan request already in progress.");
    assert!(begin_element_scan(&mut element_scanner_pane_state, true).is_none());
    assert!(!begin_scan_reset(&mut element_scanner_pane_state, true));
}

#[test]
fn collect_scan_values_records_totals() {
    let mut element_scanner_pane_state = ElementScannerPaneState::default();

    assert!(begin_collect_scan_values(&mut element_scanner_pane_state, true));
    finish_collect_scan_values(
        &mut element_scanner_pane_state,
        EngineReply::Answered(ScanResultsMetadata { result_count: 128, total_size_in_bytes: 512 }),
    );

    assert!(!element_scanner_pane_state.has_pending_scan_request);
    assert_eq!(element_scanner_pane_state.last_result_count, 128);
    assert_eq!(element_scanner_pane_state.last_total_size_in_bytes, 512);
    assert_eq!(element_scanner_pane_state.status_message, "Collected values for 128 results.");
}

#[test]
fn first_scan_starts_new_scan_then_completes() {
    let mut element_scanner_pane_state = ElementScannerPaneState::default();

    let needs_new_scan = begin_element_scan(&mut element_scanner_pane_state, true);
    assert_eq!(needs_new_scan, Some(true));
    assert_eq!(element_scanner_pane_state.status_message, "Starting scan.");
    assert!(finish_new_scan(&mut element_scanner_pane_state, EngineReply::Answered(())));

    let request = build_element_scan_request(&element_scanner_pane_state);
    assert_eq!(request.scan_constraints.len(), element_scanner_pane_state.constraint_rows.len());
    assert_eq!(request.data_type_refs.len(), 1);

    let should_query_page = finish_element_scan(
        &mut element_scanner_pane_state,
        EngineReply::Answered(ScanResultsMetadata { result_count: 3, total_size_in_bytes: 12 }),
    );
    assert!(should_query_page);
    assert!(element_scanner_pane_state.has_scan_results);
    assert!(!element_scanner_pane_state.has_pending_scan_request);
    assert_eq!(element_scanner_pane_state.status_message, "Scan complete with 3 results.");
}

#[test]
fn new_scan_timeout_ends_scan_request() {
    let mut element_scanner_pane_state = ElementScannerPaneState::default();
    begin_element_scan(&mut element_scanner_pane_state, true);

    let should_continue = finish_new_scan(&mut element_scanner_pane_state, EngineReply::TimedOut("late".to_string()));

    assert!(!should_continue);
    assert!(!element_scanner_pane_state.has_pending_scan_request);
    assert_eq!(element_scanner_pane_state.status_message, "Timed out waiting for new scan response: late");
}

#[test]
fn scan_results_query_round_trip_loads_page() {
    let mut scan_results_pane_state = ScanResultsPaneState::default();
    scan_results_pane_state.current_page_index = 2;

    let page_index = begin_scan_results_query(&mut scan_results_pane_state, true, true);
    assert_eq!(page_index, Some(2));
    assert!(scan_results_pane_state.is_querying_scan_results);
    assert_eq!(scan_results_pane_state.status_message, "Querying scan results page 2.");

    finish_scan_results_query(
        &mut scan_results_pane_state,
        EngineReply::Answered(ScanResultsQueryResponse {
            page_index: 2,
            last_page_index: 4,
            page_size: 2,
            result_count: 9,
            total_size_in_bytes: 36,
            scan_results: vec![create_scan_result(4), create_scan_result(5)],
        }),
        true,
    );

    assert!(!scan_results_pane_state.is_querying_scan_results);
    assert_eq!(scan_results_pane_state.total_result_count, 9);
    assert_eq!(scan_results_pane_state.scan_results.len(), 2);
    assert_eq!(scan_results_pane_state.selected_result_index, Some(0));
    assert_eq!(scan_results_pane_state.status_message, "Loaded page 2 (9 total results).");
}

#[test]
fn scan_results_query_dispatch_failure_reports_it() {
    let mut scan_results_pane_state = ScanResultsPaneState::default();

    begin_scan_results_query(&mut scan_results_pane_state, true, true);
    finish_scan_results_query(&mut scan_results_pane_state, EngineReply::NotDispatched, true);

    assert!(!scan_results_pane_state.is_querying_scan_results);
    assert_eq!(scan_results_pane_state.status_message, "Failed to dispatch scan results query request.");
}

#[test]
fn scan_results_refresh_requires_results() {
    let mut scan_results_pane_state = ScanResultsPaneState::default();

    let refs = begin_scan_results_refresh(&mut scan_results_pane_state, true, true);

    assert!(refs.is_none());
    assert_eq!(scan_results_pane_state.status_message, "No scan results are available to refresh.");
}

#[test]
fn scan_results_refresh_round_trip_replaces_values() {
    let mut scan_results_pane_state = ScanResultsPaneState::default();
    scan_results_pane_state.scan_results = vec![create_scan_result(7), create_scan_result(8), create_scan_result(9)];
    scan_results_pane_state.selected_result_index = Some(2);

    let refs = begin_scan_results_refresh(&mut scan_results_pane_state, true, true).expect("refresh is sent");
    assert_eq!(refs.iter().map(|scan_result_ref| scan_result_ref.scan_result_global_index).collect::<Vec<_>>(), vec![7, 8, 9]);
    assert_eq!(scan_results_pane_state.status_message, "Refreshing 3 scan results on the current page.");

    let was_refreshed = finish_scan_results_refresh(
        &mut scan_results_pane_state,
        EngineReply::Answered(vec![create_scan_result(7), create_scan_result(8)]),
        true,
    );

    assert!(was_refreshed);
    assert!(!scan_results_pane_state.is_refreshing_scan_results);
    assert_eq!(scan_results_pane_state.selected_result_index, Some(1));
    assert_eq!(scan_results_pane_state.status_message, "Refreshed 2 scan results.");
}

#[test]
fn current_page_refs_follow_result_order() {
    let mut scan_results_pane_state = ScanResultsPaneState::default();
    scan_results_pane_state.scan_results = vec![create_scan_result(3), create_scan_result(1)];

    let refs = current_page_scan_result_refs(&scan_results_pane_state);

    assert_eq!(refs, vec![ScanResultRef::new(3), ScanResultRef::new(1)]);
}

#[test]
fn output_refresh_without_engine_reports_it() {
    let mut output_pane_state = squalr_tui::output::OutputPaneState::default();

    squalr_tui::engine_requests::refresh_output_log_history(&mut output_pane_state, None, true);

    assert_eq!(output_pane_state.status_message, "No unprivileged engine state is available for output logs.");
}

#[test]
fn output_refresh_reports_lock_failure() {
    let mut output_pane_state = squalr_tui::output::OutputPaneState::default();

    squalr_tui::engine_requests::refresh_output_log_history(&mut output_pane_state, Some(Err("poisoned".to_string())), true);

    assert_eq!(output_pane_state.status_message, "Failed to lock output log history: poisoned");
}

#[test]
fn output_refresh_loads_history() {
    let mut output_pane_state = squalr_tui::output::OutputPaneState::default();
    let history = vec![squalr_tui::output::LogEvent { level: squalr_tui::output::LogLevel::Info, message: "ready".to_string() }];

    squalr_tui::engine_requests::refresh_output_log_history(&mut output_pane_state, Some(Ok(history)), true);

    assert_eq!(output_pane_state.log_lines, vec!["[INFO] ready".to_string()]);
    assert_eq!(output_pane_state.status_message, "Loaded 1 log lines.");
}

#[test]
fn selected_results_refresh_names_selection() {
    let mut scan_results_pane_state = ScanResultsPaneState::default();
    scan_results_pane_state.scan_results = vec![create_scan_result(1), create_scan_result(2), create_scan_result(3)];
    scan_results_pane_state.selected_result_index = Some(2);
    scan_results_pane_state.selected_range_end_index = Some(1);

    let refs = squalr_tui::engine_requests::begin_selected_scan_results_refresh(&mut scan_results_pane_state, true).expect("refresh is sent");

    assert_eq!(refs, vec![ScanResultRef::new(2), ScanResultRef::new(3)]);
    assert!(scan_results_pane_state.is_refreshing_scan_results);
    assert_eq!(scan_results_pane_state.status_message, "Refreshing 2 selected scan results.");
}

#[test]
fn selected_results_refresh_requires_selection() {
    let mut scan_results_pane_state = ScanResultsPaneState::default();
    scan_results_pane_state.scan_results = vec![create_scan_result(1)];

    assert!(squalr_tui::engine_requests::begin_selected_scan_results_refresh(&mut scan_results_pane_state, true).is_none());
    assert_eq!(scan_results_pane_state.status_message, "No scan results are selected to refresh.");
}

#[test]
fn scan_request_carries_each_row_value() {
    let mut element_scanner_pane_state = ElementScannerPaneState::default();
    element_scanner_pane_state.constraint_rows = vec![
        ElementScannerConstraintState {
            scan_compare_type: ScanCompareType::Immediate(ScanCompareTypeImmediate::Equal),
            scan_value_text: "42".to_string(),
        },
        ElementScannerConstraintState {
            scan_compare_type: ScanCompareType::Relative(ScanCompareTypeRelative::Increased),
            scan_value_text: "7".to_string(),
        },
    ];

    let request = build_element_scan_request(&element_scanner_pane_state);

    assert_eq!(request.scan_constraints.len(), 2);
    assert_eq!(request.scan_constraints[0].scan_compare_type, ScanCompareType::Immediate(ScanCompareTypeImmediate::Equal));
    let value = request.scan_constraints[0].anonymous_value_string.as_ref().expect("an immediate comparison carries its value");
    assert_eq!(value.anonymous_value_string, "42");
    assert_eq!(value.anonymous_value_string_format, AnonymousValueStringFormat::Decimal);
    assert_eq!(value.container_type, ContainerType::Scalar);
    assert_eq!(request.scan_constraints[1].scan_compare_type, ScanCompareType::Relative(ScanCompareTypeRelative::Increased));
    assert!(request.scan_constraints[1].anonymous_value_string.is_none());
}
