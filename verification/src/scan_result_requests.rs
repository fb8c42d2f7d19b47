use vstd::prelude::*;
use crate::engine_requests::EngineReply;
use crate::project_requests::EngineAnswer;
use crate::scan_results::{
    AnonymousValueString, AnonymousValueStringFormat, ContainerType, ScanResultRef, ScanResultsPaneState,
};
use crate::text::{spec_decimal, spec_trim, push_decimal, push_decimal_usize, owned, joined, trimmed};

verus! {

/// A request to freeze or unfreeze scan results.
pub struct ScanResultsFreezeRequest {
    pub scan_result_refs: Vec<ScanResultRef>,
    pub is_frozen: bool,
}

/// A request to add scan results to the opened project, in the given directory or at the
/// project's root.
pub struct ProjectItemsAddRequest {
    pub scan_result_refs: Vec<ScanResultRef>,
    pub target_directory_path: Option<String>,
}

/// A request to delete scan results.
pub struct ScanResultsDeleteRequest {
    pub scan_result_refs: Vec<ScanResultRef>,
}

/// A request to write a value, given as text, into scan results.
pub struct ScanResultsValueEditRequest {
    pub scan_result_refs: Vec<ScanResultRef>,
    pub anonymous_value_string: AnonymousValueString,
}

/// What the engine answers to an add-to-project request.
#[derive(Clone, Copy, Debug, PartialEq, Eq, Structural)]
pub struct ProjectItemsAddOutcome {
    pub success: bool,
    pub added_project_item_count: u64,
}

/// The references of the selected results that are in the list, in list order.
pub open spec fn spec_selected_refs(state: ScanResultsPaneState) -> Seq<ScanResultRef> {
    Seq::new(
        state.spec_selected_positions().1 as nat,
        |k: int| state.scan_results@[state.spec_selected_positions().0 + k].scan_result_ref,
    )
}

/// Whether a selected result in the list is frozen.
pub open spec fn spec_any_selected_frozen(state: ScanResultsPaneState) -> bool {
    exists|k: int| 0 <= k < state.spec_selected_positions().1 && #[trigger] state.scan_results@[state.spec_selected_positions().0
        + k].is_frozen
}

/// The references of the selected results, as a vector.
fn selected_refs(scan_results_pane_state: &ScanResultsPaneState) -> (refs: Vec<ScanResultRef>)
    ensures
        refs@ == spec_selected_refs(*scan_results_pane_state),
{
    let refs = scan_results_pane_state.selected_scan_result_refs();
    assert(refs@ =~= spec_selected_refs(*scan_results_pane_state));
    refs
}

/// Starts freezing the selected results, or unfreezing them when one of them is frozen.
/// Nothing is sent while a freeze is awaited, without a selection, or without an engine.
pub fn begin_freeze_toggle(scan_results_pane_state: &mut ScanResultsPaneState, is_engine_available: bool) -> (request: Option<ScanResultsFreezeRequest>)
    ensures
        request is Some <==> !old(scan_results_pane_state).is_freezing_scan_results && spec_selected_refs(
            *old(scan_results_pane_state),
        ).len() > 0 && is_engine_available,
        request matches Some(sent) ==> sent.scan_result_refs@ == spec_selected_refs(*old(scan_results_pane_state))
            && sent.is_frozen == !spec_any_selected_frozen(*old(scan_results_pane_state)),
        *final(scan_results_pane_state) == (ScanResultsPaneState {
            is_freezing_scan_results: request is Some || old(scan_results_pane_state).is_freezing_scan_results,
            status_message: final(scan_results_pane_state).status_message,
            ..*old(scan_results_pane_state)
        }),
        final(scan_results_pane_state).status_message@ == if old(scan_results_pane_state).is_freezing_scan_results {
            "Scan results freeze request already in progress."@
        } else if spec_selected_refs(*old(scan_results_pane_state)).len() == 0 {
            "No scan results are selected to freeze/unfreeze."@
        } else if !is_engine_available {
            "No unprivileged engine state is available for freeze toggles."@
        } else if !spec_any_selected_frozen(*old(scan_results_pane_state)) {
            "Freezing selected scan results."@
        } else {
            "Unfreezing selected scan results."@
        },
{
    let state = scan_results_pane_state;
    if state.is_freezing_scan_results {
        state.status_message = owned("Scan results freeze request already in progress.");
        return None;
    }
    let refs = selected_refs(state);
    if refs.len() == 0 {
        state.status_message = owned("No scan results are selected to freeze/unfreeze.");
        return None;
    }
    let target_frozen_state = !state.any_selected_result_frozen();
    if !is_engine_available {
        state.status_message = owned("No unprivileged engine state is available for freeze toggles.");
        return None;
    }
    state.is_freezing_scan_results = true;
    state.status_message = if target_frozen_state {
        owned("Freezing selected scan results.")
    } else {
        owned("Unfreezing selected scan results.")
    };
    Some(ScanResultsFreezeRequest { scan_result_refs: refs, is_frozen: target_frozen_state })
}

/// The status after a freeze answer that names the results it could not toggle.
pub open spec fn spec_freeze_answer_text(failed_count: nat, is_frozen: bool) -> Seq<char> {
    if failed_count == 0 {
        if is_frozen {
            "Selected scan results frozen."@
        } else {
            "Selected scan results unfrozen."@
        }
    } else {
        "Freeze toggle partially failed for "@ + spec_decimal(failed_count) + " entries."@
    }
}

/// Takes the outcome of a freeze request sent with the given target state; returns whether
/// the page should be refreshed next, which is when the engine answered. The freeze is no
/// longer awaited in any case.
pub fn finish_freeze_toggle(
    scan_results_pane_state: &mut ScanResultsPaneState,
    is_frozen: bool,
    reply: EngineReply<Vec<ScanResultRef>>,
) -> (should_refresh_page: bool)
    ensures
        should_refresh_page == (reply is Answered),
        *final(scan_results_pane_state) == (ScanResultsPaneState {
            is_freezing_scan_results: false,
            status_message: final(scan_results_pane_state).status_message,
            ..*old(scan_results_pane_state)
        }),
        final(scan_results_pane_state).status_message@ == match reply {
            EngineReply::NotDispatched => "Failed to dispatch scan results freeze request."@,
            EngineReply::Answered(failed_refs) => spec_freeze_answer_text(failed_refs@.len(), is_frozen),
            EngineReply::TimedOut(reason) => "Timed out waiting for scan results freeze response: "@ + reason@,
        },
{
    let state = scan_results_pane_state;
    let should_refresh_page = match reply {
        EngineReply::NotDispatched => {
            state.status_message = owned("Failed to dispatch scan results freeze request.");
            false
        },
        EngineReply::Answered(failed_refs) => {
            let failed_toggle_count = failed_refs.len();
            state.status_message = if failed_toggle_count == 0 {
                if is_frozen {
                    owned("Selected scan results frozen.")
                } else {
                    owned("Selected scan results unfrozen.")
                }
            } else {
                let mut status = owned("Freeze toggle partially failed for ");
                push_decimal_usize(&mut status, failed_toggle_count);
                status.append(" entries.");
                status
            };
            true
        },
        EngineReply::TimedOut(reason) => {
            state.status_message = joined("Timed out waiting for scan results freeze response: ", reason.as_str());
            false
        },
    };
    state.is_freezing_scan_results = false;
    should_refresh_page
}

/// Starts adding the selected results to the opened project, at its root. Nothing is sent
/// while an add is awaited, without a selection, or without an engine.
pub fn begin_add_to_project(scan_results_pane_state: &mut ScanResultsPaneState, is_engine_available: bool) -> (request: Option<ProjectItemsAddRequest>)
    ensures
        request is Some <==> !old(scan_results_pane_state).is_adding_scan_results_to_project && spec_selected_refs(
            *old(scan_results_pane_state),
        ).len() > 0 && is_engine_available,
        request matches Some(sent) ==> sent.scan_result_refs@ == spec_selected_refs(*old(scan_results_pane_state))
            && sent.target_directory_path is None,
        *final(scan_results_pane_state) == (ScanResultsPaneState {
            is_adding_scan_results_to_project: request is Some || old(scan_results_pane_state).is_adding_scan_results_to_project,
            status_message: final(scan_results_pane_state).status_message,
            ..*old(scan_results_pane_state)
        }),
        final(scan_results_pane_state).status_message@ == if old(scan_results_pane_state).is_adding_scan_results_to_project {
            "Add to project request already in progress."@
        } else if spec_selected_refs(*old(scan_results_pane_state)).len() == 0 {
            "No scan results are selected to add to project."@
        } else if !is_engine_available {
            "No unprivileged engine state is available for project item creation."@
        } else {
            "Adding "@ + spec_decimal(spec_selected_refs(*old(scan_results_pane_state)).len()) + " scan results to project."@
        },
{
    let state = scan_results_pane_state;
    if state.is_adding_scan_results_to_project {
        state.status_message = owned("Add to project request already in progress.");
        return None;
    }
    let refs = selected_refs(state);
    if refs.len() == 0 {
        state.status_message = owned("No scan results are selected to add to project.");
        return None;
    }
    if !is_engine_available {
        state.status_message = owned("No unprivileged engine state is available for project item creation.");
        return None;
    }
    state.is_adding_scan_results_to_project = true;
    let mut status = owned("Adding ");
    push_decimal_usize(&mut status, refs.len());
    status.append(" scan results to project.");
    state.status_message = status;
    Some(ProjectItemsAddRequest { scan_result_refs: refs, target_directory_path: None })
}

/// Takes the answer to an add-to-project request; the add is no longer awaited.
pub fn finish_add_to_project(scan_results_pane_state: &mut ScanResultsPaneState, answer: EngineAnswer<ProjectItemsAddOutcome>)
    ensures
        *final(scan_results_pane_state) == (ScanResultsPaneState {
            is_adding_scan_results_to_project: false,
            status_message: final(scan_results_pane_state).status_message,
            ..*old(scan_results_pane_state)
        }),
        final(scan_results_pane_state).status_message@ == match answer {
            EngineAnswer::Answered(outcome) => if outcome.success {
                "Added "@ + spec_decimal(outcome.added_project_item_count as nat) + " project items from selected scan results."@
            } else {
                "Add-to-project request failed."@
            },
            EngineAnswer::TimedOut(reason) => "Timed out waiting for add-to-project response: "@ + reason@,
        },
{
    let state = scan_results_pane_state;
    match answer {
        EngineAnswer::Answered(outcome) => {
            state.status_message = if outcome.success {
                let mut status = owned("Added ");
                push_decimal(&mut status, outcome.added_project_item_count);
                status.append(" project items from selected scan results.");
                status
            } else {
                owned("Add-to-project request failed.")
            };
        },
        EngineAnswer::TimedOut(reason) => {
            state.status_message = joined("Timed out waiting for add-to-project response: ", reason.as_str());
        },
    }
    state.is_adding_scan_results_to_project = false;
}

/// Starts deleting the selected results. Nothing is sent while a delete is awaited, without
/// a selection, or without an engine.
pub fn begin_delete_scan_results(scan_results_pane_state: &mut ScanResultsPaneState, is_engine_available: bool) -> (request: Option<ScanResultsDeleteRequest>)
    ensures
        request is Some <==> !old(scan_results_pane_state).is_deleting_scan_results && spec_selected_refs(
            *old(scan_results_pane_state),
        ).len() > 0 && is_engine_available,
        request matches Some(sent) ==> sent.scan_result_refs@ == spec_selected_refs(*old(scan_results_pane_state)),
        *final(scan_results_pane_state) == (ScanResultsPaneState {
            is_deleting_scan_results: request is Some || old(scan_results_pane_state).is_deleting_scan_results,
            status_message: final(scan_results_pane_state).status_message,
            ..*old(scan_results_pane_state)
        }),
        final(scan_results_pane_state).status_message@ == if old(scan_results_pane_state).is_deleting_scan_results {
            "Delete request already in progress."@
        } else if spec_selected_refs(*old(scan_results_pane_state)).len() == 0 {
            "No scan results are selected to delete."@
        } else if !is_engine_available {
            "No unprivileged engine state is available for deletion."@
        } else {
            "Deleting "@ + spec_decimal(spec_selected_refs(*old(scan_results_pane_state)).len()) + " selected scan results."@
        },
{
    let state = scan_results_pane_state;
    if state.is_deleting_scan_results {
        state.status_message = owned("Delete request already in progress.");
        return None;
    }
    let refs = selected_refs(state);
    if refs.len() == 0 {
        state.status_message = owned("No scan results are selected to delete.");
        return None;
    }
    if !is_engine_available {
        state.status_message = owned("No unprivileged engine state is available for deletion.");
        return None;
    }
    state.is_deleting_scan_results = true;
    let mut status = owned("Deleting ");
    push_decimal_usize(&mut status, refs.len());
    status.append(" selected scan results.");
    state.status_message = status;
    Some(ScanResultsDeleteRequest { scan_result_refs: refs })
}

/// Takes the outcome of a delete request; returns whether the current page should be
/// queried again, which is when the engine answered. The delete is no longer awaited.
pub fn finish_delete_scan_results(scan_results_pane_state: &mut ScanResultsPaneState, reply: EngineReply<()>) -> (should_query_page: bool)
    ensures
        should_query_page == (reply is Answered),
        *final(scan_results_pane_state) == (ScanResultsPaneState {
            is_deleting_scan_results: false,
            status_message: final(scan_results_pane_state).status_message,
            ..*old(scan_results_pane_state)
        }),
        final(scan_results_pane_state).status_message@ == match reply {
            EngineReply::NotDispatched => "Failed to dispatch scan results delete request."@,
            EngineReply::Answered(_) => "Deleted selected scan results."@,
            EngineReply::TimedOut(reason) => "Timed out waiting for scan results delete response: "@ + reason@,
        },
{
    let state = scan_results_pane_state;
    let should_query_page = match reply {
        EngineReply::NotDispatched => {
            state.status_message = owned("Failed to dispatch scan results delete request.");
            false
        },
        EngineReply::Answered(_) => {
            state.status_message = owned("Deleted selected scan results.");
            true
        },
        EngineReply::TimedOut(reason) => {
            state.status_message = joined("Timed out waiting for scan results delete response: ", reason.as_str());
            false
        },
    };
    state.is_deleting_scan_results = false;
    should_query_page
}

/// Starts writing the edit text, trimmed, as a decimal value into the selected results.
/// Nothing is sent while a commit is awaited, without a selection, with a blank edit text,
/// or without an engine.
pub fn begin_value_edit_commit(scan_results_pane_state: &mut ScanResultsPaneState, is_engine_available: bool) -> (request: Option<ScanResultsValueEditRequest>)
    ensures
        request is Some <==> !old(scan_results_pane_state).is_committing_value_edit && spec_selected_refs(
            *old(scan_results_pane_state),
        ).len() > 0 && spec_trim(old(scan_results_pane_state).pending_value_edit_text@).len() > 0 && is_engine_available,
        request matches Some(sent) ==> {
            &&& sent.scan_result_refs@ == spec_selected_refs(*old(scan_results_pane_state))
            &&& sent.anonymous_value_string.anonymous_value_string@ == spec_trim(old(scan_results_pane_state).pending_value_edit_text@)
            &&& sent.anonymous_value_string.anonymous_value_string_format == AnonymousValueStringFormat::Decimal
            &&& sent.anonymous_value_string.container_type == ContainerType::Scalar
        },
        *final(scan_results_pane_state) == (ScanResultsPaneState {
            is_committing_value_edit: request is Some || old(scan_results_pane_state).is_committing_value_edit,
            status_message: final(scan_results_pane_state).status_message,
            ..*old(scan_results_pane_state)
        }),
        final(scan_results_pane_state).status_message@ == if old(scan_results_pane_state).is_committing_value_edit {
            "Value commit request already in progress."@
        } else if spec_selected_refs(*old(scan_results_pane_state)).len() == 0 {
            "No scan results are selected to commit value edits."@
        } else if spec_trim(old(scan_results_pane_state).pending_value_edit_text@).len() == 0 {
            "Edit value is empty."@
        } else if !is_engine_available {
            "No unprivileged engine state is available for value commits."@
        } else {
            "Committing value edit '"@ + spec_trim(old(scan_results_pane_state).pending_value_edit_text@) + "' for "@
                + spec_decimal(spec_selected_refs(*old(scan_results_pane_state)).len()) + " selected results."@
        },
{
    let state = scan_results_pane_state;
    if state.is_committing_value_edit {
        state.status_message = owned("Value commit request already in progress.");
        return None;
    }
    let refs = selected_refs(state);
    if refs.len() == 0 {
        state.status_message = owned("No scan results are selected to commit value edits.");
        return None;
    }
    let edit_text = trimmed(state.pending_value_edit_text.as_str());
    if edit_text.as_str().unicode_len() == 0 {
        state.status_message = owned("Edit value is empty.");
        return None;
    }
    if !is_engine_available {
        state.status_message = owned("No unprivileged engine state is available for value commits.");
        return None;
    }
    state.is_committing_value_edit = true;
    let mut status = owned("Committing value edit '");
    status.append(edit_text.as_str());
    status.append("' for ");
    push_decimal_usize(&mut status, refs.len());
    status.append(" selected results.");
    state.status_message = status;
    let anonymous_value_string = AnonymousValueString::new(edit_text, AnonymousValueStringFormat::Decimal, ContainerType::Scalar);
    Some(ScanResultsValueEditRequest { scan_result_refs: refs, anonymous_value_string })
}

/// Takes the outcome of a value commit; returns whether the page should be refreshed next,
/// which is when the engine answered. The commit is no longer awaited.
pub fn finish_value_edit_commit(scan_results_pane_state: &mut ScanResultsPaneState, reply: EngineReply<()>) -> (should_refresh_page: bool)
    ensures
        should_refresh_page == (reply is Answered),
        *final(scan_results_pane_state) == (ScanResultsPaneState {
            is_committing_value_edit: false,
            status_message: final(scan_results_pane_state).status_message,
            ..*old(scan_results_pane_state)
        }),
        final(scan_results_pane_state).status_message@ == match reply {
            EngineReply::NotDispatched => "Failed to dispatch scan results set property request."@,
            EngineReply::Answered(_) => "Committed selected scan result values."@,
            EngineReply::TimedOut(reason) => "Timed out waiting for scan results set property response: "@ + reason@,
        },
{
    let state = scan_results_pane_state;
    let should_refresh_page = match reply {
        EngineReply::NotDispatched => {
            state.status_message = owned("Failed to dispatch scan results set property request.");
            false
        },
        EngineReply::Answered(_) => {
            state.status_message = owned("Committed selected scan result values.");
            true
        },
        EngineReply::TimedOut(reason) => {
            state.status_message = joined("Timed out waiting for scan results set property response: ", reason.as_str());
            false
        },
    };
    state.is_committing_value_edit = false;
    should_refresh_page
}

} // verus!
