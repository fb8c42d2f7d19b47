use vstd::prelude::*;
use crate::output::{LogEvent, OutputPaneState, spec_keep_latest, spec_log_line};
use crate::element_scanner::{AnonymousScanConstraint, DataTypeRef, ElementScannerPaneState, SUPPORTED_DATA_TYPE_COUNT, spec_constraint_for_row};
use crate::process_selector::{OpenedProcessInfo, ProcessInfo, ProcessSelectorPaneState, spec_process_position};
use crate::scan_results::{ScanResult, ScanResultRef, ScanResultsPaneState, ScanResultsQueryResponse, spec_query_response_applied, spec_refreshed_results_applied};
use crate::text::{spec_decimal, push_decimal, push_decimal_usize, owned, joined};

verus! {

/// How an engine request ended.
pub enum EngineReply<T> {
    /// The request could not be sent.
    NotDispatched,
    /// No answer came in time; the text says why.
    TimedOut(String),
    /// The engine answered.
    Answered(T),
}

/// A request for the list of running processes.
pub struct ProcessListRequest {
    pub require_windowed: bool,
    pub search_name: Option<String>,
    pub match_case: bool,
    pub limit: Option<u64>,
    pub fetch_icons: bool,
}

/// A request to open a process.
pub struct ProcessOpenRequest {
    pub process_id: Option<u32>,
    pub search_name: Option<String>,
    pub match_case: bool,
}

/// The totals of a scan as the engine reports them.
#[derive(Clone, Copy, Debug, PartialEq, Eq, Structural)]
pub struct ScanResultsMetadata {
    pub result_count: u64,
    pub total_size_in_bytes: u64,
}

/// A request to scan the opened process with the scanner's constraints.
pub struct ElementScanRequest {
    pub scan_constraints: Vec<AnonymousScanConstraint>,
    pub data_type_refs: Vec<DataTypeRef>,
}

/// The selected process after a process list arrives: the one with the identifier selected
/// before, while it is listed, else the first, or none in an empty list.
pub open spec fn spec_selection_after_process_list(previous_identifier: Option<u32>, entries: Seq<ProcessInfo>) -> Option<usize> {
    match previous_identifier {
        Some(process_id) if spec_process_position(entries, process_id) is Some => Some(
            spec_process_position(entries, process_id).unwrap() as usize,
        ),
        _ => if entries.len() == 0 {
            None
        } else {
            Some(0usize)
        },
    }
}

/// The status message after `text` when status messages are wanted, else the old one.
pub open spec fn spec_status_if(should_update_status_message: bool, text: Seq<char>, previous: String) -> Seq<char> {
    if should_update_status_message {
        text
    } else {
        previous@
    }
}

/// Starts a process list refresh. Nothing is sent while one is awaited or without an
/// engine; otherwise the request asks for windowed processes only when the filter is on.
pub fn begin_process_list_refresh(
    process_selector_pane_state: &mut ProcessSelectorPaneState,
    is_engine_available: bool,
    should_update_status_message: bool,
) -> (request: Option<ProcessListRequest>)
    ensures
        request is Some <==> !old(process_selector_pane_state).is_awaiting_process_list_response && is_engine_available,
        request matches Some(sent) ==> sent.require_windowed == old(process_selector_pane_state).show_windowed_processes_only
            && sent.search_name is None && !sent.match_case && sent.limit is None && !sent.fetch_icons,
        *final(process_selector_pane_state) == (ProcessSelectorPaneState {
            is_awaiting_process_list_response: request is Some || old(process_selector_pane_state).is_awaiting_process_list_response,
            status_message: final(process_selector_pane_state).status_message,
            ..*old(process_selector_pane_state)
        }),
        final(process_selector_pane_state).status_message@ == spec_status_if(
            should_update_status_message,
            if old(process_selector_pane_state).is_awaiting_process_list_response {
                "Process list request already in progress."@
            } else if !is_engine_available {
                "No unprivileged engine state is available for process queries."@
            } else {
                "Refreshing process list."@
            },
            old(process_selector_pane_state).status_message,
        ),
{
    let state = process_selector_pane_state;
    if state.is_awaiting_process_list_response {
        if should_update_status_message {
            state.status_message = owned("Process list request already in progress.");
        }
        return None;
    }
    if !is_engine_available {
        if should_update_status_message {
            state.status_message = owned("No unprivileged engine state is available for process queries.");
        }
        return None;
    }
    state.is_awaiting_process_list_response = true;
    if should_update_status_message {
        state.status_message = owned("Refreshing process list.");
    }
    Some(ProcessListRequest {
        require_windowed: state.show_windowed_processes_only,
        search_name: None,
        match_case: false,
        limit: None,
        fetch_icons: false,
    })
}

/// Takes the outcome of a process list request: an answer replaces the list (keeping the
/// selected process while it is listed) and marks the list as loaded; the request is no
/// longer awaited in any case.
pub fn finish_process_list_refresh(
    process_selector_pane_state: &mut ProcessSelectorPaneState,
    reply: EngineReply<Vec<ProcessInfo>>,
    should_update_status_message: bool,
)
    ensures
        !final(process_selector_pane_state).is_awaiting_process_list_response,
        match reply {
            EngineReply::Answered(processes) => {
                &&& final(process_selector_pane_state).process_list_entries@ == processes@
                &&& final(process_selector_pane_state).selected_process_list_index == spec_selection_after_process_list(
                    old(process_selector_pane_state).selected_process_identifier,
                    processes@,
                )
                &&& final(process_selector_pane_state).spec_selection_fields_follow_index()
                &&& final(process_selector_pane_state).has_loaded_process_list_once
                &&& final(process_selector_pane_state).status_message@ == spec_status_if(
                    should_update_status_message,
                    "Loaded "@ + spec_decimal(processes@.len()) + " processes."@,
                    old(process_selector_pane_state).status_message,
                )
                &&& *final(process_selector_pane_state) == (ProcessSelectorPaneState {
                    process_list_entries: final(process_selector_pane_state).process_list_entries,
                    selected_process_list_index: final(process_selector_pane_state).selected_process_list_index,
                    selected_process_identifier: final(process_selector_pane_state).selected_process_identifier,
                    selected_process_name: final(process_selector_pane_state).selected_process_name,
                    has_loaded_process_list_once: true,
                    is_awaiting_process_list_response: false,
                    status_message: final(process_selector_pane_state).status_message,
                    ..*old(process_selector_pane_state)
                })
            },
            EngineReply::NotDispatched => {
                &&& *final(process_selector_pane_state) == (ProcessSelectorPaneState {
                    is_awaiting_process_list_response: false,
                    status_message: final(process_selector_pane_state).status_message,
                    ..*old(process_selector_pane_state)
                })
                &&& final(process_selector_pane_state).status_message@ == spec_status_if(
                    should_update_status_message,
                    "Failed to dispatch process list request."@,
                    old(process_selector_pane_state).status_message,
                )
            },
            EngineReply::TimedOut(reason) => {
                &&& *final(process_selector_pane_state) == (ProcessSelectorPaneState {
                    is_awaiting_process_list_response: false,
                    status_message: final(process_selector_pane_state).status_message,
                    ..*old(process_selector_pane_state)
                })
                &&& final(process_selector_pane_state).status_message@ == spec_status_if(
                    should_update_status_message,
                    "Timed out waiting for process list response: "@ + reason@,
                    old(process_selector_pane_state).status_message,
                )
            },
        },
{
    let state = process_selector_pane_state;
    match reply {
        EngineReply::NotDispatched => {
            state.is_awaiting_process_list_response = false;
            if should_update_status_message {
                state.status_message = owned("Failed to dispatch process list request.");
            }
        },
        EngineReply::Answered(processes) => {
            let process_count = processes.len();
            state.apply_process_list(processes);
            state.has_loaded_process_list_once = true;
            if should_update_status_message {
                let mut status = owned("Loaded ");
                push_decimal_usize(&mut status, process_count);
                status.append(" processes.");
                state.status_message = status;
            }
            state.is_awaiting_process_list_response = false;
        },
        EngineReply::TimedOut(reason) => {
            if should_update_status_message {
                state.status_message = joined("Timed out waiting for process list response: ", reason.as_str());
            }
            state.is_awaiting_process_list_response = false;
        },
    }
}

/// The identifier of the selected process, when the selection is in range.
pub open spec fn spec_selected_process_id(state: ProcessSelectorPaneState) -> Option<u32> {
    match state.selected_process_list_index {
        Some(index) if index < state.process_list_entries@.len() => Some(state.process_list_entries@[index as int].process_id),
        _ => None,
    }
}

/// Starts opening the selected process. Nothing is sent while an open is in progress,
/// without a selected process, or without an engine.
pub fn begin_process_open(process_selector_pane_state: &mut ProcessSelectorPaneState, is_engine_available: bool) -> (request: Option<ProcessOpenRequest>)
    ensures
        request is Some <==> !old(process_selector_pane_state).is_opening_process && spec_selected_process_id(
            *old(process_selector_pane_state),
        ) is Some && is_engine_available,
        request matches Some(sent) ==> sent.process_id == spec_selected_process_id(*old(process_selector_pane_state))
            && sent.search_name is None && !sent.match_case,
        *final(process_selector_pane_state) == (ProcessSelectorPaneState {
            is_opening_process: request is Some || old(process_selector_pane_state).is_opening_process,
            status_message: final(process_selector_pane_state).status_message,
            ..*old(process_selector_pane_state)
        }),
        final(process_selector_pane_state).status_message@ == if old(process_selector_pane_state).is_opening_process {
            "Process open request already in progress."@
        } else if spec_selected_process_id(*old(process_selector_pane_state)) is None {
            "No process is selected."@
        } else if !is_engine_available {
            "No unprivileged engine state is available for process opening."@
        } else {
            "Opening process "@ + spec_decimal(spec_selected_process_id(*old(process_selector_pane_state)).unwrap() as nat) + "."@
        },
{
    let state = process_selector_pane_state;
    if state.is_opening_process {
        state.status_message = owned("Process open request already in progress.");
        return None;
    }
    let selected_process_identifier = match state.selected_process_id() {
        Some(process_id) => process_id,
        None => {
            state.status_message = owned("No process is selected.");
            return None;
        },
    };
    if !is_engine_available {
        state.status_message = owned("No unprivileged engine state is available for process opening.");
        return None;
    }
    state.is_opening_process = true;
    let mut status = owned("Opening process ");
    push_decimal(&mut status, selected_process_identifier as u64);
    status.append(".");
    state.status_message = status;
    Some(ProcessOpenRequest { process_id: Some(selected_process_identifier), search_name: None, match_case: false })
}

/// Takes the outcome of an open request: an answer records the opened process, if any;
/// the open is no longer in progress in any case.
pub fn finish_process_open(process_selector_pane_state: &mut ProcessSelectorPaneState, reply: EngineReply<Option<OpenedProcessInfo>>)
    ensures
        !final(process_selector_pane_state).is_opening_process,
        match reply {
            EngineReply::Answered(opened_process) => {
                &&& final(process_selector_pane_state).opened_process_identifier == match opened_process {
                    Some(info) => Some(info.process_id),
                    None => None,
                }
                &&& final(process_selector_pane_state).opened_process_name == match opened_process {
                    Some(info) => Some(info.name),
                    None => None,
                }
                &&& final(process_selector_pane_state).is_process_selector_view_active == opened_process is None
                &&& final(process_selector_pane_state).status_message@ == match opened_process {
                    Some(info) => "Opened process "@ + info.name@ + " ("@ + spec_decimal(info.process_id as nat) + ")."@,
                    None => "Open process request completed with no process."@,
                }
                &&& *final(process_selector_pane_state) == (ProcessSelectorPaneState {
                    opened_process_identifier: final(process_selector_pane_state).opened_process_identifier,
                    opened_process_name: final(process_selector_pane_state).opened_process_name,
                    is_process_selector_view_active: final(process_selector_pane_state).is_process_selector_view_active,
                    is_opening_process: false,
                    status_message: final(process_selector_pane_state).status_message,
                    ..*old(process_selector_pane_state)
                })
            },
            EngineReply::NotDispatched => {
                &&& *final(process_selector_pane_state) == (ProcessSelectorPaneState {
                    is_opening_process: false,
                    status_message: final(process_selector_pane_state).status_message,
                    ..*old(process_selector_pane_state)
                })
                &&& final(process_selector_pane_state).status_message@ == "Failed to dispatch process open request."@
            },
            EngineReply::TimedOut(reason) => {
                &&& *final(process_selector_pane_state) == (ProcessSelectorPaneState {
                    is_opening_process: false,
                    status_message: final(process_selector_pane_state).status_message,
                    ..*old(process_selector_pane_state)
                })
                &&& final(process_selector_pane_state).status_message@ == "Timed out waiting for process open response: "@
                    + reason@
            },
        },
{
    let state = process_selector_pane_state;
    match reply {
        EngineReply::NotDispatched => {
            state.is_opening_process = false;
            state.status_message = owned("Failed to dispatch process open request.");
        },
        EngineReply::Answered(opened_process) => {
            let status = match &opened_process {
                Some(info) => {
                    let mut status = owned("Opened process ");
                    status.append(info.name.as_str());
                    status.append(" (");
                    push_decimal(&mut status, info.process_id as u64);
                    status.append(").");
                    status
                },
                None => owned("Open process request completed with no process."),
            };
            state.set_opened_process(opened_process);
            state.status_message = status;
            state.is_opening_process = false;
        },
        EngineReply::TimedOut(reason) => {
            state.status_message = joined("Timed out waiting for process open response: ", reason.as_str());
            state.is_opening_process = false;
        },
    }
}


/// Starts resetting the scan. Nothing is sent while a scan request is pending or without
/// an engine.
pub fn begin_scan_reset(element_scanner_pane_state: &mut ElementScannerPaneState, is_engine_available: bool) -> (should_send: bool)
    ensures
        should_send == (!old(element_scanner_pane_state).has_pending_scan_request && is_engine_available),
        *final(element_scanner_pane_state) == (ElementScannerPaneState {
            has_pending_scan_request: should_send || old(element_scanner_pane_state).has_pending_scan_request,
            status_message: final(element_scanner_pane_state).status_message,
            ..*old(element_scanner_pane_state)
        }),
        final(element_scanner_pane_state).status_message@ == if old(element_scanner_pane_state).has_pending_scan_request {
            "Scan request already in progress."@
        } else if !is_engine_available {
            "No unprivileged engine state is available for scan reset."@
        } else {
            "Resetting active scan."@
        },
{
    let state = element_scanner_pane_state;
    if state.has_pending_scan_request {
        state.status_message = owned("Scan request already in progress.");
        return false;
    }
    if !is_engine_available {
        state.status_message = owned("No unprivileged engine state is available for scan reset.");
        return false;
    }
    state.has_pending_scan_request = true;
    state.status_message = owned("Resetting active scan.");
    true
}

/// Takes the outcome of a reset request: a successful reset forgets the scan's results and
/// clears the results pane; the scan request is no longer pending in any case.
pub fn finish_scan_reset(
    element_scanner_pane_state: &mut ElementScannerPaneState,
    scan_results_pane_state: &mut ScanResultsPaneState,
    reply: EngineReply<bool>,
)
    ensures
        *final(element_scanner_pane_state) == (ElementScannerPaneState {
            has_pending_scan_request: false,
            has_scan_results: final(element_scanner_pane_state).has_scan_results,
            last_result_count: final(element_scanner_pane_state).last_result_count,
            last_total_size_in_bytes: final(element_scanner_pane_state).last_total_size_in_bytes,
            status_message: final(element_scanner_pane_state).status_message,
            ..*old(element_scanner_pane_state)
        }),
        reply matches EngineReply::Answered(true) ==> {
            &&& !final(element_scanner_pane_state).has_scan_results
            &&& final(element_scanner_pane_state).last_result_count == 0
            &&& final(element_scanner_pane_state).last_total_size_in_bytes == 0
            &&& final(element_scanner_pane_state).status_message@ == "Scan state reset."@
            &&& final(scan_results_pane_state).scan_results@.len() == 0
            &&& final(scan_results_pane_state).current_page_index == 0
            &&& final(scan_results_pane_state).selected_result_index is None
            &&& final(scan_results_pane_state).status_message@ == "Scan results cleared."@
        },
        !(reply matches EngineReply::Answered(true)) ==> {
            &&& final(element_scanner_pane_state).has_scan_results == old(element_scanner_pane_state).has_scan_results
            &&& final(element_scanner_pane_state).last_result_count == old(element_scanner_pane_state).last_result_count
            &&& final(element_scanner_pane_state).last_total_size_in_bytes == old(element_scanner_pane_state).last_total_size_in_bytes
            &&& *final(scan_results_pane_state) == *old(scan_results_pane_state)
            &&& final(element_scanner_pane_state).status_message@ == match reply {
                EngineReply::NotDispatched => "Failed to dispatch scan reset request."@,
                EngineReply::TimedOut(reason) => "Timed out waiting for scan reset response: "@ + reason@,
                EngineReply::Answered(_) => "Scan reset request failed."@,
            }
        },
{
    let state = element_scanner_pane_state;
    match reply {
        EngineReply::NotDispatched => {
            state.status_message = owned("Failed to dispatch scan reset request.");
        },
        EngineReply::Answered(success) => {
            if success {
                state.has_scan_results = false;
                state.last_result_count = 0;
                state.last_total_size_in_bytes = 0;
                scan_results_pane_state.clear_results();
                state.status_message = owned("Scan state reset.");
            } else {
                state.status_message = owned("Scan reset request failed.");
            }
        },
        EngineReply::TimedOut(reason) => {
            state.status_message = joined("Timed out waiting for scan reset response: ", reason.as_str());
        },
    }
    state.has_pending_scan_request = false;
}

/// Starts collecting the values of the scan's results. Nothing is sent while a scan request
/// is pending or without an engine.
pub fn begin_collect_scan_values(element_scanner_pane_state: &mut ElementScannerPaneState, is_engine_available: bool) -> (should_send: bool)
    ensures
        should_send == (!old(element_scanner_pane_state).has_pending_scan_request && is_engine_available),
        *final(element_scanner_pane_state) == (ElementScannerPaneState {
            has_pending_scan_request: should_send || old(element_scanner_pane_state).has_pending_scan_request,
            status_message: final(element_scanner_pane_state).status_message,
            ..*old(element_scanner_pane_state)
        }),
        final(element_scanner_pane_state).status_message@ == if old(element_scanner_pane_state).has_pending_scan_request {
            "Scan request already in progress."@
        } else if !is_engine_available {
            "No unprivileged engine state is available for value collection."@
        } else {
            "Collecting scan values."@
        },
{
    let state = element_scanner_pane_state;
    if state.has_pending_scan_request {
        state.status_message = owned("Scan request already in progress.");
        return false;
    }
    if !is_engine_available {
        state.status_message = owned("No unprivileged engine state is available for value collection.");
        return false;
    }
    state.has_pending_scan_request = true;
    state.status_message = owned("Collecting scan values.");
    true
}

/// Takes the outcome of a collect request: an answer records the reported totals; the scan
/// request is no longer pending in any case.
pub fn finish_collect_scan_values(element_scanner_pane_state: &mut ElementScannerPaneState, reply: EngineReply<ScanResultsMetadata>)
    ensures
        *final(element_scanner_pane_state) == (ElementScannerPaneState {
            has_pending_scan_request: false,
            last_result_count: final(element_scanner_pane_state).last_result_count,
            last_total_size_in_bytes: final(element_scanner_pane_state).last_total_size_in_bytes,
            status_message: final(element_scanner_pane_state).status_message,
            ..*old(element_scanner_pane_state)
        }),
        match reply {
            EngineReply::Answered(metadata) => {
                &&& final(element_scanner_pane_state).last_result_count == metadata.result_count
                &&& final(element_scanner_pane_state).last_total_size_in_bytes == metadata.total_size_in_bytes
                &&& final(element_scanner_pane_state).status_message@ == "Collected values for "@ + spec_decimal(
                    metadata.result_count as nat,
                ) + " results."@
            },
            EngineReply::NotDispatched => {
                &&& final(element_scanner_pane_state).last_result_count == old(element_scanner_pane_state).last_result_count
                &&& final(element_scanner_pane_state).last_total_size_in_bytes == old(element_scanner_pane_state).last_total_size_in_bytes
                &&& final(element_scanner_pane_state).status_message@ == "Failed to dispatch scan collect values request."@
            },
            EngineReply::TimedOut(reason) => {
                &&& final(element_scanner_pane_state).last_result_count == old(element_scanner_pane_state).last_result_count
                &&& final(element_scanner_pane_state).last_total_size_in_bytes == old(element_scanner_pane_state).last_total_size_in_bytes
                &&& final(element_scanner_pane_state).status_message@ == "Timed out waiting for collect values response: "@
                    + reason@
            },
        },
{
    let state = element_scanner_pane_state;
    match reply {
        EngineReply::NotDispatched => {
            state.status_message = owned("Failed to dispatch scan collect values request.");
        },
        EngineReply::Answered(metadata) => {
            state.last_result_count = metadata.result_count;
            state.last_total_size_in_bytes = metadata.total_size_in_bytes;
            let mut status = owned("Collected values for ");
            push_decimal(&mut status, metadata.result_count);
            status.append(" results.");
            state.status_message = status;
        },
        EngineReply::TimedOut(reason) => {
            state.status_message = joined("Timed out waiting for collect values response: ", reason.as_str());
        },
    }
    state.has_pending_scan_request = false;
}

/// Starts a scan. Nothing is sent while a scan request is pending or without an engine;
/// otherwise the result says whether a new scan must be started first, which is when the
/// scanner has no results yet.
pub fn begin_element_scan(element_scanner_pane_state: &mut ElementScannerPaneState, is_engine_available: bool) -> (needs_new_scan: Option<bool>)
    ensures
        needs_new_scan is Some <==> !old(element_scanner_pane_state).has_pending_scan_request && is_engine_available,
        needs_new_scan matches Some(needed) ==> needed == !old(element_scanner_pane_state).has_scan_results,
        *final(element_scanner_pane_state) == (ElementScannerPaneState {
            has_pending_scan_request: needs_new_scan is Some || old(element_scanner_pane_state).has_pending_scan_request,
            status_message: final(element_scanner_pane_state).status_message,
            ..*old(element_scanner_pane_state)
        }),
        final(element_scanner_pane_state).status_message@ == if old(element_scanner_pane_state).has_pending_scan_request {
            "Scan request already in progress."@
        } else if !is_engine_available {
            "No unprivileged engine state is available for element scanning."@
        } else {
            "Starting scan."@
        },
{
    let state = element_scanner_pane_state;
    if state.has_pending_scan_request {
        state.status_message = owned("Scan request already in progress.");
        return None;
    }
    if !is_engine_available {
        state.status_message = owned("No unprivileged engine state is available for element scanning.");
        return None;
    }
    state.has_pending_scan_request = true;
    state.status_message = owned("Starting scan.");
    Some(!state.has_scan_results)
}

/// Takes the outcome of the new-scan request that precedes a first scan; returns whether
/// the scan goes on. When it does not, the scan request is no longer pending.
pub fn finish_new_scan(element_scanner_pane_state: &mut ElementScannerPaneState, reply: EngineReply<()>) -> (should_continue: bool)
    ensures
        should_continue == (reply is Answered),
        should_continue ==> *final(element_scanner_pane_state) == *old(element_scanner_pane_state),
        !should_continue ==> *final(element_scanner_pane_state) == (ElementScannerPaneState {
            has_pending_scan_request: false,
            status_message: final(element_scanner_pane_state).status_message,
            ..*old(element_scanner_pane_state)
        }),
        reply is NotDispatched ==> final(element_scanner_pane_state).status_message@ == "Failed to dispatch new scan request."@,
        reply matches EngineReply::TimedOut(reason) ==> final(element_scanner_pane_state).status_message@
            == "Timed out waiting for new scan response: "@ + reason@,
{
    let state = element_scanner_pane_state;
    match reply {
        EngineReply::NotDispatched => {
            state.has_pending_scan_request = false;
            state.status_message = owned("Failed to dispatch new scan request.");
            false
        },
        EngineReply::TimedOut(reason) => {
            state.has_pending_scan_request = false;
            state.status_message = joined("Timed out waiting for new scan response: ", reason.as_str());
            false
        },
        EngineReply::Answered(_) => true,
    }
}

/// The scan request: one constraint per row, in order, carrying the row's comparison and,
/// unless it is relative, the row's text as a decimal scalar; and the selected data type.
pub fn build_element_scan_request(element_scanner_pane_state: &ElementScannerPaneState) -> (request: ElementScanRequest)
    requires
        element_scanner_pane_state.selected_data_type_index < SUPPORTED_DATA_TYPE_COUNT,
    ensures
        request.scan_constraints@.len() == element_scanner_pane_state.constraint_rows@.len(),
        forall|k: int|
            0 <= k < request.scan_constraints@.len() ==> spec_constraint_for_row(
                #[trigger] request.scan_constraints@[k],
                element_scanner_pane_state.constraint_rows@[k],
            ),
        forall|k: int|
            0 <= k < request.scan_constraints@.len() && !(element_scanner_pane_state.constraint_rows@[k].scan_compare_type is Relative)
                ==> ((#[trigger] request.scan_constraints@[k]).anonymous_value_string matches Some(value)
                && value.anonymous_value_string@ == element_scanner_pane_state.constraint_rows@[k].scan_value_text@),
        request.data_type_refs@.len() == 1,
        request.data_type_refs@[0].data_type_id@ == crate::element_scanner::spec_data_type_name(
            element_scanner_pane_state.selected_data_type_index as nat,
        ),
{
    let scan_constraints = element_scanner_pane_state.build_anonymous_scan_constraints();
    let mut data_type_refs: Vec<DataTypeRef> = Vec::new();
    data_type_refs.push(element_scanner_pane_state.selected_data_type_ref());
    ElementScanRequest { scan_constraints, data_type_refs }
}

/// Takes the outcome of a scan request; returns whether the current results page should be
/// queried next, which is when the scan completed. The scan request is no longer pending in
/// any case.
pub fn finish_element_scan(element_scanner_pane_state: &mut ElementScannerPaneState, reply: EngineReply<ScanResultsMetadata>) -> (should_query_page: bool)
    ensures
        should_query_page == (reply is Answered),
        *final(element_scanner_pane_state) == (ElementScannerPaneState {
            has_pending_scan_request: false,
            has_scan_results: final(element_scanner_pane_state).has_scan_results,
            last_result_count: final(element_scanner_pane_state).last_result_count,
            last_total_size_in_bytes: final(element_scanner_pane_state).last_total_size_in_bytes,
            status_message: final(element_scanner_pane_state).status_message,
            ..*old(element_scanner_pane_state)
        }),
        match reply {
            EngineReply::Answered(metadata) => {
                &&& final(element_scanner_pane_state).has_scan_results
                &&& final(element_scanner_pane_state).last_result_count == metadata.result_count
                &&& final(element_scanner_pane_state).last_total_size_in_bytes == metadata.total_size_in_bytes
                &&& final(element_scanner_pane_state).status_message@ == "Scan complete with "@ + spec_decimal(
                    metadata.result_count as nat,
                ) + " results."@
            },
            EngineReply::NotDispatched => {
                &&& final(element_scanner_pane_state).has_scan_results == old(element_scanner_pane_state).has_scan_results
                &&& final(element_scanner_pane_state).last_result_count == old(element_scanner_pane_state).last_result_count
                &&& final(element_scanner_pane_state).last_total_size_in_bytes == old(element_scanner_pane_state).last_total_size_in_bytes
                &&& final(element_scanner_pane_state).status_message@ == "Failed to dispatch element scan request."@
            },
            EngineReply::TimedOut(reason) => {
                &&& final(element_scanner_pane_state).has_scan_results == old(element_scanner_pane_state).has_scan_results
                &&& final(element_scanner_pane_state).last_result_count == old(element_scanner_pane_state).last_result_count
                &&& final(element_scanner_pane_state).last_total_size_in_bytes == old(element_scanner_pane_state).last_total_size_in_bytes
                &&& final(element_scanner_pane_state).status_message@ == "Timed out waiting for element scan response: "@
                    + reason@
            },
        },
{
    let state = element_scanner_pane_state;
    let should_query_page = match reply {
        EngineReply::NotDispatched => {
            state.status_message = owned("Failed to dispatch element scan request.");
            false
        },
        EngineReply::Answered(metadata) => {
            state.has_scan_results = true;
            state.last_result_count = metadata.result_count;
            state.last_total_size_in_bytes = metadata.total_size_in_bytes;
            let mut status = owned("Scan complete with ");
            push_decimal(&mut status, metadata.result_count);
            status.append(" results.");
            state.status_message = status;
            true
        },
        EngineReply::TimedOut(reason) => {
            state.status_message = joined("Timed out waiting for element scan response: ", reason.as_str());
            false
        },
    };
    state.has_pending_scan_request = false;
    should_query_page
}

/// Starts querying the current page of scan results. Nothing is sent while a query is
/// awaited or without an engine; otherwise the request names the current page.
pub fn begin_scan_results_query(
    scan_results_pane_state: &mut ScanResultsPaneState,
    is_engine_available: bool,
    should_update_status_message: bool,
) -> (page_index: Option<u64>)
    ensures
        page_index is Some <==> !old(scan_results_pane_state).is_querying_scan_results && is_engine_available,
        page_index matches Some(requested) ==> requested == old(scan_results_pane_state).current_page_index,
        *final(scan_results_pane_state) == (ScanResultsPaneState {
            is_querying_scan_results: page_index is Some || old(scan_results_pane_state).is_querying_scan_results,
            status_message: final(scan_results_pane_state).status_message,
            ..*old(scan_results_pane_state)
        }),
        final(scan_results_pane_state).status_message@ == spec_status_if(
            should_update_status_message,
            if old(scan_results_pane_state).is_querying_scan_results {
                "Scan results query already in progress."@
            } else if !is_engine_available {
                "No unprivileged engine state is available for scan results query."@
            } else {
                "Querying scan results page "@ + spec_decimal(old(scan_results_pane_state).current_page_index as nat) + "."@
            },
            old(scan_results_pane_state).status_message,
        ),
{
    let state = scan_results_pane_state;
    if state.is_querying_scan_results {
        if should_update_status_message {
            state.status_message = owned("Scan results query already in progress.");
        }
        return None;
    }
    if !is_engine_available {
        if should_update_status_message {
            state.status_message = owned("No unprivileged engine state is available for scan results query.");
        }
        return None;
    }
    state.is_querying_scan_results = true;
    if should_update_status_message {
        let mut status = owned("Querying scan results page ");
        push_decimal(&mut status, state.current_page_index);
        status.append(".");
        state.status_message = status;
    }
    Some(state.current_page_index)
}

/// Takes the outcome of a scan results query: an answered page replaces the results (see
/// `apply_query_response`); the query is no longer awaited in any case.
pub fn finish_scan_results_query(
    scan_results_pane_state: &mut ScanResultsPaneState,
    reply: EngineReply<ScanResultsQueryResponse>,
    should_update_status_message: bool,
)
    ensures
        match reply {
            EngineReply::Answered(response) => {
                &&& spec_query_response_applied(*old(scan_results_pane_state), *final(scan_results_pane_state), response)
                &&& final(scan_results_pane_state).spec_same_flags(
                    &(ScanResultsPaneState {
                        is_querying_scan_results: false,
                        status_message: final(scan_results_pane_state).status_message,
                        ..*old(scan_results_pane_state)
                    }),
                )
                &&& final(scan_results_pane_state).status_message@ == spec_status_if(
                    should_update_status_message,
                    "Loaded page "@ + spec_decimal(response.page_index as nat) + " ("@ + spec_decimal(
                        response.result_count as nat,
                    ) + " total results)."@,
                    old(scan_results_pane_state).status_message,
                )
            },
            EngineReply::NotDispatched => {
                &&& *final(scan_results_pane_state) == (ScanResultsPaneState {
                    is_querying_scan_results: false,
                    status_message: final(scan_results_pane_state).status_message,
                    ..*old(scan_results_pane_state)
                })
                &&& final(scan_results_pane_state).status_message@ == spec_status_if(
                    should_update_status_message,
                    "Failed to dispatch scan results query request."@,
                    old(scan_results_pane_state).status_message,
                )
            },
            EngineReply::TimedOut(reason) => {
                &&& *final(scan_results_pane_state) == (ScanResultsPaneState {
                    is_querying_scan_results: false,
                    status_message: final(scan_results_pane_state).status_message,
                    ..*old(scan_results_pane_state)
                })
                &&& final(scan_results_pane_state).status_message@ == spec_status_if(
                    should_update_status_message,
                    "Timed out waiting for scan results query response: "@ + reason@,
                    old(scan_results_pane_state).status_message,
                )
            },
        },
{
    let state = scan_results_pane_state;
    match reply {
        EngineReply::NotDispatched => {
            if should_update_status_message {
                state.status_message = owned("Failed to dispatch scan results query request.");
            }
        },
        EngineReply::Answered(response) => {
            let page_index = response.page_index;
            let result_count = response.result_count;
            state.apply_query_response(response);
            if should_update_status_message {
                let mut status = owned("Loaded page ");
                push_decimal(&mut status, page_index);
                status.append(" (");
                push_decimal(&mut status, result_count);
                status.append(" total results).");
                state.status_message = status;
            }
        },
        EngineReply::TimedOut(reason) => {
            if should_update_status_message {
                state.status_message = joined("Timed out waiting for scan results query response: ", reason.as_str());
            }
        },
    }
    state.is_querying_scan_results = false;
}

/// The references of every result on the current page, in order.
pub fn current_page_scan_result_refs(scan_results_pane_state: &ScanResultsPaneState) -> (refs: Vec<ScanResultRef>)
    ensures
        refs@.len() == scan_results_pane_state.scan_results@.len(),
        forall|k: int| 0 <= k < refs@.len() ==> #[trigger] refs@[k] == scan_results_pane_state.scan_results@[k].scan_result_ref,
{
    let mut refs: Vec<ScanResultRef> = Vec::new();
    let mut position: usize = 0;
    while position < scan_results_pane_state.scan_results.len()
        invariant
            position <= scan_results_pane_state.scan_results@.len(),
            refs@.len() == position,
            forall|k: int| 0 <= k < position ==> #[trigger] refs@[k] == scan_results_pane_state.scan_results@[k].scan_result_ref,
        decreases scan_results_pane_state.scan_results@.len() - position,
    {
        refs.push(scan_results_pane_state.scan_results[position].scan_result_ref);
        position = position + 1;
    }
    refs
}

/// Starts refreshing the values of the current page. Nothing is sent while a refresh is
/// awaited, when the page is empty, or without an engine; otherwise the request names every
/// result of the page.
pub fn begin_scan_results_refresh(
    scan_results_pane_state: &mut ScanResultsPaneState,
    is_engine_available: bool,
    should_update_status_message: bool,
) -> (scan_result_refs: Option<Vec<ScanResultRef>>)
    ensures
        scan_result_refs is Some <==> !old(scan_results_pane_state).is_refreshing_scan_results
            && old(scan_results_pane_state).scan_results@.len() > 0 && is_engine_available,
        scan_result_refs matches Some(refs) ==> {
            &&& refs@.len() == old(scan_results_pane_state).scan_results@.len()
            &&& forall|k: int| 0 <= k < refs@.len() ==> #[trigger] refs@[k] == old(scan_results_pane_state).scan_results@[k].scan_result_ref
        },
        *final(scan_results_pane_state) == (ScanResultsPaneState {
            is_refreshing_scan_results: scan_result_refs is Some || old(scan_results_pane_state).is_refreshing_scan_results,
            status_message: final(scan_results_pane_state).status_message,
            ..*old(scan_results_pane_state)
        }),
        final(scan_results_pane_state).status_message@ == spec_status_if(
            should_update_status_message,
            if old(scan_results_pane_state).is_refreshing_scan_results {
                "Scan results refresh already in progress."@
            } else if old(scan_results_pane_state).scan_results@.len() == 0 {
                "No scan results are available to refresh."@
            } else if !is_engine_available {
                "No unprivileged engine state is available for scan results refresh."@
            } else {
                "Refreshing "@ + spec_decimal(old(scan_results_pane_state).scan_results@.len()) + " scan results on the current page."@
            },
            old(scan_results_pane_state).status_message,
        ),
{
    let state = scan_results_pane_state;
    if state.is_refreshing_scan_results {
        if should_update_status_message {
            state.status_message = owned("Scan results refresh already in progress.");
        }
        return None;
    }
    let refs = current_page_scan_result_refs(state);
    if refs.len() == 0 {
        if should_update_status_message {
            state.status_message = owned("No scan results are available to refresh.");
        }
        return None;
    }
    if !is_engine_available {
        if should_update_status_message {
            state.status_message = owned("No unprivileged engine state is available for scan results refresh.");
        }
        return None;
    }
    state.is_refreshing_scan_results = true;
    if should_update_status_message {
        let mut status = owned("Refreshing ");
        push_decimal_usize(&mut status, refs.len());
        status.append(" scan results on the current page.");
        state.status_message = status;
    }
    Some(refs)
}

/// Takes the outcome of a refresh request; returns whether refreshed values arrived. They
/// replace the page's results (see `apply_refreshed_results`); the refresh is no longer
/// awaited in any case.
pub fn finish_scan_results_refresh(
    scan_results_pane_state: &mut ScanResultsPaneState,
    reply: EngineReply<Vec<ScanResult>>,
    should_update_status_message: bool,
) -> (was_refreshed: bool)
    ensures
        was_refreshed == (reply is Answered),
        match reply {
            EngineReply::Answered(refreshed) => {
                &&& spec_refreshed_results_applied(*old(scan_results_pane_state), *final(scan_results_pane_state), refreshed@)
                &&& final(scan_results_pane_state).spec_same_flags(
                    &(ScanResultsPaneState {
                        is_refreshing_scan_results: false,
                        status_message: final(scan_results_pane_state).status_message,
                        ..*old(scan_results_pane_state)
                    }),
                )
                &&& final(scan_results_pane_state).status_message@ == spec_status_if(
                    should_update_status_message,
                    "Refreshed "@ + spec_decimal(refreshed@.len()) + " scan results."@,
                    old(scan_results_pane_state).status_message,
                )
            },
            EngineReply::NotDispatched => {
                &&& *final(scan_results_pane_state) == (ScanResultsPaneState {
                    is_refreshing_scan_results: false,
                    status_message: final(scan_results_pane_state).status_message,
                    ..*old(scan_results_pane_state)
                })
                &&& final(scan_results_pane_state).status_message@ == spec_status_if(
                    should_update_status_message,
                    "Failed to dispatch scan results refresh request."@,
                    old(scan_results_pane_state).status_message,
                )
            },
            EngineReply::TimedOut(reason) => {
                &&& *final(scan_results_pane_state) == (ScanResultsPaneState {
                    is_refreshing_scan_results: false,
                    status_message: final(scan_results_pane_state).status_message,
                    ..*old(scan_results_pane_state)
                })
                &&& final(scan_results_pane_state).status_message@ == spec_status_if(
                    should_update_status_message,
                    "Timed out waiting for scan results refresh response: "@ + reason@,
                    old(scan_results_pane_state).status_message,
                )
            },
        },
{
    let state = scan_results_pane_state;
    let was_refreshed = match reply {
        EngineReply::NotDispatched => {
            if should_update_status_message {
                state.status_message = owned("Failed to dispatch scan results refresh request.");
            }
            false
        },
        EngineReply::Answered(refreshed) => {
            let refreshed_count = refreshed.len();
            state.apply_refreshed_results(refreshed);
            if should_update_status_message {
                let mut status = owned("Refreshed ");
                push_decimal_usize(&mut status, refreshed_count);
                status.append(" scan results.");
                state.status_message = status;
            }
            true
        },
        EngineReply::TimedOut(reason) => {
            if should_update_status_message {
                state.status_message = joined("Timed out waiting for scan results refresh response: ", reason.as_str());
            }
            false
        },
    };
    state.is_refreshing_scan_results = false;
    was_refreshed
}

/// Reloads the output pane from the engine's log history: `None` when there is no engine,
/// `Err` with the reason when the history could not be read. Without a history the status
/// says why and nothing else changes; with one, the pane takes it (see
/// `apply_log_history_with_feedback`).
pub fn refresh_output_log_history(
    output_pane_state: &mut OutputPaneState,
    log_history: Option<Result<Vec<LogEvent>, String>>,
    should_update_status_message: bool,
)
    ensures
        match log_history {
            None => {
                &&& final(output_pane_state).status_message@ == "No unprivileged engine state is available for output logs."@
                &&& final(output_pane_state).log_lines == old(output_pane_state).log_lines
                &&& final(output_pane_state).max_log_line_count == old(output_pane_state).max_log_line_count
                &&& final(output_pane_state).did_auto_scroll_to_latest == old(output_pane_state).did_auto_scroll_to_latest
            },
            Some(Err(error)) => {
                &&& final(output_pane_state).status_message@ == "Failed to lock output log history: "@ + error@
                &&& final(output_pane_state).log_lines == old(output_pane_state).log_lines
                &&& final(output_pane_state).max_log_line_count == old(output_pane_state).max_log_line_count
                &&& final(output_pane_state).did_auto_scroll_to_latest == old(output_pane_state).did_auto_scroll_to_latest
            },
            Some(Ok(history)) => {
                &&& final(output_pane_state).spec_lines() == spec_keep_latest(
                    history@.map_values(|event: LogEvent| spec_log_line(event)),
                    old(output_pane_state).max_log_line_count as nat,
                )
                &&& final(output_pane_state).max_log_line_count == old(output_pane_state).max_log_line_count
                &&& final(output_pane_state).did_auto_scroll_to_latest
                &&& final(output_pane_state).status_message@ == spec_status_if(
                    should_update_status_message,
                    "Loaded "@ + spec_decimal(final(output_pane_state).log_lines@.len()) + " log lines."@,
                    old(output_pane_state).status_message,
                )
            },
        },
{
    match log_history {
        None => {
            output_pane_state.status_message = owned("No unprivileged engine state is available for output logs.");
        },
        Some(Err(error)) => {
            output_pane_state.status_message = joined("Failed to lock output log history: ", error.as_str());
        },
        Some(Ok(history)) => {
            output_pane_state.apply_log_history_with_feedback(history, should_update_status_message);
        },
    }
}

/// Starts refreshing the values of the selected results. Nothing is sent while a refresh is
/// awaited, without a selection, or without an engine; otherwise the request names the
/// selected results that are in the list. `finish_scan_results_refresh` takes the outcome.
pub fn begin_selected_scan_results_refresh(scan_results_pane_state: &mut ScanResultsPaneState, is_engine_available: bool) -> (scan_result_refs: Option<Vec<ScanResultRef>>)
    ensures
        scan_result_refs is Some <==> !old(scan_results_pane_state).is_refreshing_scan_results
            && old(scan_results_pane_state).spec_selected_positions().1 > 0 && is_engine_available,
        scan_result_refs matches Some(refs) ==> {
            &&& refs@.len() == old(scan_results_pane_state).spec_selected_positions().1
            &&& forall|k: int| 0 <= k < refs@.len() ==> #[trigger] refs@[k] == old(scan_results_pane_state).scan_results@[old(
                scan_results_pane_state,
            ).spec_selected_positions().0 + k].scan_result_ref
        },
        *final(scan_results_pane_state) == (ScanResultsPaneState {
            is_refreshing_scan_results: scan_result_refs is Some || old(scan_results_pane_state).is_refreshing_scan_results,
            status_message: final(scan_results_pane_state).status_message,
            ..*old(scan_results_pane_state)
        }),
        final(scan_results_pane_state).status_message@ == if old(scan_results_pane_state).is_refreshing_scan_results {
            "Scan results refresh already in progress."@
        } else if old(scan_results_pane_state).spec_selected_positions().1 == 0 {
            "No scan results are selected to refresh."@
        } else if !is_engine_available {
            "No unprivileged engine state is available for scan results refresh."@
        } else {
            "Refreshing "@ + spec_decimal(old(scan_results_pane_state).spec_selected_positions().1 as nat)
                + " selected scan results."@
        },
{
    let state = scan_results_pane_state;
    if state.is_refreshing_scan_results {
        state.status_message = owned("Scan results refresh already in progress.");
        return None;
    }
    let refs = state.selected_scan_result_refs();
    if refs.len() == 0 {
        state.status_message = owned("No scan results are selected to refresh.");
        return None;
    }
    if !is_engine_available {
        state.status_message = owned("No unprivileged engine state is available for scan results refresh.");
        return None;
    }
    state.is_refreshing_scan_results = true;
    let mut status = owned("Refreshing ");
    push_decimal_usize(&mut status, refs.len());
    status.append(" selected scan results.");
    state.status_message = status;
    Some(refs)
}

} // verus!
