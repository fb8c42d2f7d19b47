use vstd::prelude::*;
use crate::project_explorer::{ProjectExplorerPaneState, ProjectSelectorInputMode};
use crate::project_requests::EngineAnswer;
use crate::engine_requests::spec_status_if;
use crate::text::{spec_decimal, spec_option_text, spec_non_blank_trimmed, spec_bool_text, push_decimal, push_decimal_usize, push_bool, owned, joined, same_text};

verus! {

/// A request to create a project item of the given type under a directory.
pub struct ProjectItemsCreateRequest {
    pub parent_directory_path: String,
    pub project_item_name: String,
    pub project_item_type: String,
}

/// A request to activate or deactivate project items.
pub struct ProjectItemsActivateRequest {
    pub project_item_paths: Vec<String>,
    pub is_activated: bool,
}

/// A request to move project items into a directory.
pub struct ProjectItemsMoveRequest {
    pub project_item_paths: Vec<String>,
    pub target_directory_path: String,
}

/// A request to put project items into the given order.
pub struct ProjectItemsReorderRequest {
    pub project_item_paths: Vec<String>,
}

/// A request to delete project items.
pub struct ProjectItemsDeleteRequest {
    pub project_item_paths: Vec<String>,
}

/// What the engine answers to a request on several project items: whether it succeeded,
/// and how many items it changed.
#[derive(Clone, Copy, Debug, PartialEq, Eq, Structural)]
pub struct ProjectItemsOutcome {
    pub success: bool,
    pub changed_project_item_count: u64,
}

/// Starts reloading the opened project's items. Nothing is sent while a reload is awaited
/// or without an engine.
#[verifier::rlimit(40)]
pub fn begin_project_items_refresh(
    project_explorer_pane_state: &mut ProjectExplorerPaneState,
    is_engine_available: bool,
    should_update_status_message: bool,
) -> (should_send: bool)
    ensures
        should_send == (!old(project_explorer_pane_state).is_awaiting_project_item_list_response && is_engine_available),
        *final(project_explorer_pane_state) == (ProjectExplorerPaneState {
            is_awaiting_project_item_list_response: should_send || old(project_explorer_pane_state).is_awaiting_project_item_list_response,
            status_message: final(project_explorer_pane_state).status_message,
            ..*old(project_explorer_pane_state)
        }),
        final(project_explorer_pane_state).status_message@ == spec_status_if(
            should_update_status_message,
            if old(project_explorer_pane_state).is_awaiting_project_item_list_response {
                "Project item list request already in progress."@
            } else if !is_engine_available {
                "No unprivileged engine state is available for project item listing."@
            } else {
                "Refreshing project item hierarchy."@
            },
            old(project_explorer_pane_state).status_message,
        ),
{
    let state = project_explorer_pane_state;
    let is_awaiting = state.is_awaiting_project_item_list_response;
    let should_send = !is_awaiting && is_engine_available;
    if should_update_status_message {
        let status = if is_awaiting {
            owned("Project item list request already in progress.")
        } else if !is_engine_available {
            owned("No unprivileged engine state is available for project item listing.")
        } else {
            owned("Refreshing project item hierarchy.")
        };
        state.status_message = status;
    }
    state.is_awaiting_project_item_list_response = should_send || is_awaiting;
    should_send
}

/// Takes the outcome of an item reload that listed `project_item_count` items; the reload
/// is no longer awaited.
#[verifier::rlimit(40)]
pub fn finish_project_items_refresh(
    project_explorer_pane_state: &mut ProjectExplorerPaneState,
    answer: EngineAnswer<usize>,
    should_update_status_message: bool,
)
    ensures
        *final(project_explorer_pane_state) == (ProjectExplorerPaneState {
            is_awaiting_project_item_list_response: false,
            status_message: final(project_explorer_pane_state).status_message,
            ..*old(project_explorer_pane_state)
        }),
        final(project_explorer_pane_state).status_message@ == spec_status_if(
            should_update_status_message,
            match answer {
                EngineAnswer::Answered(project_item_count) => "Loaded "@ + spec_decimal(project_item_count as nat)
                    + " project items."@,
                EngineAnswer::TimedOut(reason) => "Timed out waiting for project item list response: "@ + reason@,
            },
            old(project_explorer_pane_state).status_message,
        ),
{
    let state = project_explorer_pane_state;
    if should_update_status_message {
        let status = match answer {
            EngineAnswer::Answered(project_item_count) => {
                let mut status = owned("Loaded ");
                push_decimal_usize(&mut status, project_item_count);
                status.append(" project items.");
                status
            },
            EngineAnswer::TimedOut(reason) => joined("Timed out waiting for project item list response: ", reason.as_str()),
        };
        state.status_message = status;
    }
    state.is_awaiting_project_item_list_response = false;
}

/// Starts creating a directory, named by the typed name, under `parent_directory_path`, the
/// directory that the item selection designates. Nothing is sent while a create is awaited,
/// without such a directory, with a blank name, or without an engine.
#[verifier::rlimit(40)]
pub fn begin_project_directory_create(
    project_explorer_pane_state: &mut ProjectExplorerPaneState,
    parent_directory_path: Option<String>,
    is_engine_available: bool,
) -> (request: Option<ProjectItemsCreateRequest>)
    ensures
        request is Some <==> !old(project_explorer_pane_state).is_creating_project_item && parent_directory_path is Some
            && spec_non_blank_trimmed(old(project_explorer_pane_state).pending_project_name_input@) is Some && is_engine_available,
        request matches Some(sent) ==> {
            &&& Some(sent.parent_directory_path) == parent_directory_path
            &&& Some(sent.project_item_name@) == spec_non_blank_trimmed(old(project_explorer_pane_state).pending_project_name_input@)
            &&& sent.project_item_type@ == "directory"@
        },
        *final(project_explorer_pane_state) == (ProjectExplorerPaneState {
            is_creating_project_item: request is Some || old(project_explorer_pane_state).is_creating_project_item,
            status_message: final(project_explorer_pane_state).status_message,
            ..*old(project_explorer_pane_state)
        }),
        final(project_explorer_pane_state).status_message@ == if old(project_explorer_pane_state).is_creating_project_item {
            "Project item create request already in progress."@
        } else if parent_directory_path is None {
            "No directory target is selected for project item create."@
        } else if spec_non_blank_trimmed(old(project_explorer_pane_state).pending_project_name_input@) is None {
            "Project item name is empty."@
        } else if !is_engine_available {
            "No unprivileged engine state is available for project item create."@
        } else {
            "Creating directory '"@ + spec_non_blank_trimmed(old(project_explorer_pane_state).pending_project_name_input@).unwrap()
                + "' under "@ + parent_directory_path.unwrap()@ + "."@
        },
{
    let state = project_explorer_pane_state;
    let is_creating = state.is_creating_project_item;
    let project_item_name = state.pending_project_name_trimmed();
    let should_send = !is_creating && parent_directory_path.is_some() && project_item_name.is_some() && is_engine_available;
    let status = if is_creating {
        owned("Project item create request already in progress.")
    } else if parent_directory_path.is_none() {
        owned("No directory target is selected for project item create.")
    } else if project_item_name.is_none() {
        owned("Project item name is empty.")
    } else if !is_engine_available {
        owned("No unprivileged engine state is available for project item create.")
    } else {
        let mut status = owned("Creating directory '");
        match &project_item_name {
            Some(name) => status.append(name.as_str()),
            None => {},
        }
        status.append("' under ");
        match &parent_directory_path {
            Some(parent) => status.append(parent.as_str()),
            None => {},
        }
        status.append(".");
        status
    };
    state.status_message = status;
    state.is_creating_project_item = should_send || is_creating;
    if should_send {
        match (parent_directory_path, project_item_name) {
            (Some(parent), Some(name)) => Some(
                ProjectItemsCreateRequest { parent_directory_path: parent, project_item_name: name, project_item_type: owned("directory") },
            ),
            _ => None,
        }
    } else {
        None
    }
}

/// Takes the answer to the creation of the directory `project_item_name`; returns whether
/// it was created, after which the items are reloaded. A created directory ends the name
/// input. The create is no longer awaited.
#[verifier::rlimit(60)]
pub fn finish_project_directory_create(
    project_explorer_pane_state: &mut ProjectExplorerPaneState,
    project_item_name: String,
    answer: EngineAnswer<bool>,
) -> (did_create: bool)
    ensures
        did_create == (answer matches EngineAnswer::Answered(true)),
        *final(project_explorer_pane_state) == (ProjectExplorerPaneState {
            input_mode: if did_create {
                ProjectSelectorInputMode::NoInput
            } else {
                old(project_explorer_pane_state).input_mode
            },
            pending_project_name_input: final(project_explorer_pane_state).pending_project_name_input,
            is_creating_project_item: false,
            status_message: final(project_explorer_pane_state).status_message,
            ..*old(project_explorer_pane_state)
        }),
        did_create ==> final(project_explorer_pane_state).pending_project_name_input@.len() == 0,
        !did_create ==> final(project_explorer_pane_state).pending_project_name_input == old(
            project_explorer_pane_state,
        ).pending_project_name_input,
        final(project_explorer_pane_state).status_message@ == match answer {
            EngineAnswer::Answered(success) => if success {
                "Created project directory '"@ + project_item_name@ + "'."@
            } else {
                "Project item create request failed."@
            },
            EngineAnswer::TimedOut(reason) => "Timed out waiting for project item create response: "@ + reason@,
        },
{
    let state = project_explorer_pane_state;
    let did_create = match &answer {
        EngineAnswer::Answered(success) => *success,
        EngineAnswer::TimedOut(_) => false,
    };
    let status = match &answer {
        EngineAnswer::Answered(success) => if *success {
            let mut status = owned("Created project directory '");
            status.append(project_item_name.as_str());
            status.append("'.");
            status
        } else {
            owned("Project item create request failed.")
        },
        EngineAnswer::TimedOut(reason) => joined("Timed out waiting for project item create response: ", reason.as_str()),
    };
    if did_create {
        state.cancel_project_name_input();
    }
    state.status_message = status;
    state.is_creating_project_item = false;
    did_create
}

/// Starts flipping the activation of the selected item, whose path and activation the
/// item selection gives. Nothing is sent while a toggle is awaited, without a selected
/// item, or without an engine.
#[verifier::rlimit(40)]
pub fn begin_project_item_activation_toggle(
    project_explorer_pane_state: &mut ProjectExplorerPaneState,
    selected_project_item_path: Option<String>,
    selected_project_item_is_activated: bool,
    is_engine_available: bool,
) -> (request: Option<ProjectItemsActivateRequest>)
    ensures
        request is Some <==> !old(project_explorer_pane_state).is_toggling_project_item_activation
            && selected_project_item_path is Some && is_engine_available,
        request matches Some(sent) ==> sent.project_item_paths@.len() == 1 && Some(sent.project_item_paths@[0])
            == selected_project_item_path && sent.is_activated == !selected_project_item_is_activated,
        *final(project_explorer_pane_state) == (ProjectExplorerPaneState {
            is_toggling_project_item_activation: request is Some || old(project_explorer_pane_state).is_toggling_project_item_activation,
            status_message: final(project_explorer_pane_state).status_message,
            ..*old(project_explorer_pane_state)
        }),
        final(project_explorer_pane_state).status_message@ == if old(project_explorer_pane_state).is_toggling_project_item_activation {
            "Project item activation request already in progress."@
        } else if selected_project_item_path is None {
            "No project item is selected for activation."@
        } else if !is_engine_available {
            "No unprivileged engine state is available for project item activation."@
        } else {
            "Setting activation="@ + spec_bool_text(!selected_project_item_is_activated) + " for "@
                + selected_project_item_path.unwrap()@ + "."@
        },
{
    let state = project_explorer_pane_state;
    let is_toggling = state.is_toggling_project_item_activation;
    let is_target_activated = !selected_project_item_is_activated;
    let should_send = !is_toggling && selected_project_item_path.is_some() && is_engine_available;
    let status = if is_toggling {
        owned("Project item activation request already in progress.")
    } else if selected_project_item_path.is_none() {
        owned("No project item is selected for activation.")
    } else if !is_engine_available {
        owned("No unprivileged engine state is available for project item activation.")
    } else {
        let mut status = owned("Setting activation=");
        push_bool(&mut status, is_target_activated);
        status.append(" for ");
        match &selected_project_item_path {
            Some(path) => status.append(path.as_str()),
            None => {},
        }
        status.append(".");
        status
    };
    state.status_message = status;
    state.is_toggling_project_item_activation = should_send || is_toggling;
    if should_send {
        match selected_project_item_path {
            Some(path) => {
                let mut project_item_paths: Vec<String> = Vec::new();
                project_item_paths.push(path);
                Some(ProjectItemsActivateRequest { project_item_paths, is_activated: is_target_activated })
            },
            None => None,
        }
    } else {
        None
    }
}

/// Takes the outcome of an activation toggle; returns whether the engine answered, after
/// which the items are reloaded. The toggle is no longer awaited.
#[verifier::rlimit(40)]
pub fn finish_project_item_activation_toggle(project_explorer_pane_state: &mut ProjectExplorerPaneState, answer: EngineAnswer<()>) -> (should_reload_items: bool)
    ensures
        should_reload_items == (answer is Answered),
        *final(project_explorer_pane_state) == (ProjectExplorerPaneState {
            is_toggling_project_item_activation: false,
            status_message: final(project_explorer_pane_state).status_message,
            ..*old(project_explorer_pane_state)
        }),
        final(project_explorer_pane_state).status_message@ == match answer {
            EngineAnswer::Answered(_) => "Updated selected project item activation."@,
            EngineAnswer::TimedOut(reason) => "Timed out waiting for project item activation response: "@ + reason@,
        },
{
    let state = project_explorer_pane_state;
    let should_reload_items = match &answer {
        EngineAnswer::Answered(_) => true,
        EngineAnswer::TimedOut(_) => false,
    };
    let status = match answer {
        EngineAnswer::Answered(_) => owned("Updated selected project item activation."),
        EngineAnswer::TimedOut(reason) => joined("Timed out waiting for project item activation response: ", reason.as_str()),
    };
    state.status_message = status;
    state.is_toggling_project_item_activation = false;
    should_reload_items
}

/// Starts moving the staged items into `target_directory_path`, the directory that the item
/// selection designates. Nothing is sent while a move is awaited, with nothing staged,
/// without such a directory, or without an engine.
#[verifier::rlimit(40)]
pub fn begin_project_items_move(
    project_explorer_pane_state: &mut ProjectExplorerPaneState,
    target_directory_path: Option<String>,
    is_engine_available: bool,
) -> (request: Option<ProjectItemsMoveRequest>)
    ensures
        request is Some <==> !old(project_explorer_pane_state).is_moving_project_item
            && old(project_explorer_pane_state).pending_move_source_paths@.len() > 0 && target_directory_path is Some
            && is_engine_available,
        request matches Some(sent) ==> sent.project_item_paths@ == old(project_explorer_pane_state).pending_move_source_paths@
            && Some(sent.target_directory_path) == target_directory_path,
        *final(project_explorer_pane_state) == (ProjectExplorerPaneState {
            is_moving_project_item: request is Some || old(project_explorer_pane_state).is_moving_project_item,
            status_message: final(project_explorer_pane_state).status_message,
            ..*old(project_explorer_pane_state)
        }),
        final(project_explorer_pane_state).status_message@ == if old(project_explorer_pane_state).is_moving_project_item {
            "Project item move request already in progress."@
        } else if old(project_explorer_pane_state).pending_move_source_paths@.len() == 0 {
            "No staged project items to move."@
        } else if target_directory_path is None {
            "No target directory is selected for move."@
        } else if !is_engine_available {
            "No unprivileged engine state is available for move."@
        } else {
            "Moving "@ + spec_decimal(old(project_explorer_pane_state).pending_move_source_paths@.len()) + " project items to "@
                + target_directory_path.unwrap()@ + "."@
        },
{
    let state = project_explorer_pane_state;
    let is_moving = state.is_moving_project_item;
    let staged_count = state.pending_move_source_paths.len();
    let should_send = !is_moving && staged_count > 0 && target_directory_path.is_some() && is_engine_available;
    let status = if is_moving {
        owned("Project item move request already in progress.")
    } else if staged_count == 0 {
        owned("No staged project items to move.")
    } else if target_directory_path.is_none() {
        owned("No target directory is selected for move.")
    } else if !is_engine_available {
        owned("No unprivileged engine state is available for move.")
    } else {
        let mut status = owned("Moving ");
        push_decimal_usize(&mut status, staged_count);
        status.append(" project items to ");
        match &target_directory_path {
            Some(path) => status.append(path.as_str()),
            None => {},
        }
        status.append(".");
        status
    };
    let project_item_paths = state.pending_move_source_paths.clone();
    state.status_message = status;
    state.is_moving_project_item = should_send || is_moving;
    if should_send {
        match target_directory_path {
            Some(target) => Some(ProjectItemsMoveRequest { project_item_paths, target_directory_path: target }),
            None => None,
        }
    } else {
        None
    }
}

/// Takes the answer to a move; returns whether it succeeded, after which nothing is staged
/// any more and the items are reloaded. The move is no longer awaited.
#[verifier::rlimit(60)]
pub fn finish_project_items_move(project_explorer_pane_state: &mut ProjectExplorerPaneState, answer: EngineAnswer<ProjectItemsOutcome>) -> (did_move: bool)
    ensures
        did_move == (answer matches EngineAnswer::Answered(outcome) && outcome.success),
        *final(project_explorer_pane_state) == (ProjectExplorerPaneState {
            pending_move_source_paths: final(project_explorer_pane_state).pending_move_source_paths,
            is_moving_project_item: false,
            status_message: final(project_explorer_pane_state).status_message,
            ..*old(project_explorer_pane_state)
        }),
        did_move ==> final(project_explorer_pane_state).pending_move_source_paths@.len() == 0,
        !did_move ==> final(project_explorer_pane_state).pending_move_source_paths == old(
            project_explorer_pane_state,
        ).pending_move_source_paths,
        final(project_explorer_pane_state).status_message@ == match answer {
            EngineAnswer::Answered(outcome) => if outcome.success {
                "Moved "@ + spec_decimal(outcome.changed_project_item_count as nat) + " project items."@
            } else {
                "Project item move request failed."@
            },
            EngineAnswer::TimedOut(reason) => "Timed out waiting for project item move response: "@ + reason@,
        },
{
    let state = project_explorer_pane_state;
    let did_move = match &answer {
        EngineAnswer::Answered(outcome) => outcome.success,
        EngineAnswer::TimedOut(_) => false,
    };
    let status = match &answer {
        EngineAnswer::Answered(outcome) => if outcome.success {
            let mut status = owned("Moved ");
            push_decimal(&mut status, outcome.changed_project_item_count);
            status.append(" project items.");
            status
        } else {
            owned("Project item move request failed.")
        },
        EngineAnswer::TimedOut(reason) => joined("Timed out waiting for project item move response: ", reason.as_str()),
    };
    if did_move {
        state.pending_move_source_paths = Vec::new();
    }
    state.status_message = status;
    state.is_moving_project_item = false;
    did_move
}

/// Starts reordering with `project_item_paths`, the order that moving the selected item one
/// place gives, or `None` when it cannot move that way. Nothing is sent while a reorder is
/// awaited, without such an order, or without an engine.
#[verifier::rlimit(40)]
pub fn begin_project_item_reorder(
    project_explorer_pane_state: &mut ProjectExplorerPaneState,
    project_item_paths: Option<Vec<String>>,
    is_engine_available: bool,
) -> (request: Option<ProjectItemsReorderRequest>)
    ensures
        request is Some <==> !old(project_explorer_pane_state).is_reordering_project_item && project_item_paths is Some
            && is_engine_available,
        request matches Some(sent) ==> Some(sent.project_item_paths) == project_item_paths,
        *final(project_explorer_pane_state) == (ProjectExplorerPaneState {
            is_reordering_project_item: request is Some || old(project_explorer_pane_state).is_reordering_project_item,
            status_message: final(project_explorer_pane_state).status_message,
            ..*old(project_explorer_pane_state)
        }),
        final(project_explorer_pane_state).status_message@ == if old(project_explorer_pane_state).is_reordering_project_item {
            "Project item reorder request already in progress."@
        } else if project_item_paths is None {
            "Selected project item cannot be reordered in that direction."@
        } else if !is_engine_available {
            "No unprivileged engine state is available for reorder."@
        } else {
            "Reordering project items."@
        },
{
    let state = project_explorer_pane_state;
    let is_reordering = state.is_reordering_project_item;
    let should_send = !is_reordering && project_item_paths.is_some() && is_engine_available;
    let status = if is_reordering {
        owned("Project item reorder request already in progress.")
    } else if project_item_paths.is_none() {
        owned("Selected project item cannot be reordered in that direction.")
    } else if !is_engine_available {
        owned("No unprivileged engine state is available for reorder.")
    } else {
        owned("Reordering project items.")
    };
    state.status_message = status;
    state.is_reordering_project_item = should_send || is_reordering;
    if should_send {
        match project_item_paths {
            Some(paths) => Some(ProjectItemsReorderRequest { project_item_paths: paths }),
            None => None,
        }
    } else {
        None
    }
}

/// Takes the answer to a reorder; returns whether it succeeded, after which the items are
/// reloaded. The reorder is no longer awaited.
#[verifier::rlimit(40)]
pub fn finish_project_item_reorder(project_explorer_pane_state: &mut ProjectExplorerPaneState, answer: EngineAnswer<ProjectItemsOutcome>) -> (did_reorder: bool)
    ensures
        did_reorder == (answer matches EngineAnswer::Answered(outcome) && outcome.success),
        *final(project_explorer_pane_state) == (ProjectExplorerPaneState {
            is_reordering_project_item: false,
            status_message: final(project_explorer_pane_state).status_message,
            ..*old(project_explorer_pane_state)
        }),
        final(project_explorer_pane_state).status_message@ == match answer {
            EngineAnswer::Answered(outcome) => if outcome.success {
                "Reordered "@ + spec_decimal(outcome.changed_project_item_count as nat) + " project items."@
            } else {
                "Project item reorder request failed."@
            },
            EngineAnswer::TimedOut(reason) => "Timed out waiting for project item reorder response: "@ + reason@,
        },
{
    let state = project_explorer_pane_state;
    let did_reorder = match &answer {
        EngineAnswer::Answered(outcome) => outcome.success,
        EngineAnswer::TimedOut(_) => false,
    };
    let status = match &answer {
        EngineAnswer::Answered(outcome) => if outcome.success {
            let mut status = owned("Reordered ");
            push_decimal(&mut status, outcome.changed_project_item_count);
            status.append(" project items.");
            status
        } else {
            owned("Project item reorder request failed.")
        },
        EngineAnswer::TimedOut(reason) => joined("Timed out waiting for project item reorder response: ", reason.as_str()),
    };
    state.status_message = status;
    state.is_reordering_project_item = false;
    did_reorder
}

/// Whether the delete confirmation is armed for exactly the selected item.
pub open spec fn spec_delete_confirmed_for_selection(state: ProjectExplorerPaneState) -> bool {
    &&& state.selected_item_path is Some
    &&& state.pending_delete_confirmation_paths@.len() == 1
    &&& state.pending_delete_confirmation_paths@[0]@ == state.selected_item_path.unwrap()@
}

/// Deletes in two steps: the first press arms the confirmation for the selected item, the
/// second, with the confirmation armed for that item, takes the confirmed paths and sends
/// them. Nothing is sent while a delete is awaited or without an engine (the confirmation
/// is then used up).
#[verifier::rlimit(60)]
pub fn begin_project_item_delete(project_explorer_pane_state: &mut ProjectExplorerPaneState, is_engine_available: bool) -> (request: Option<ProjectItemsDeleteRequest>)
    ensures
        request is Some <==> !old(project_explorer_pane_state).is_deleting_project_item && spec_delete_confirmed_for_selection(
            *old(project_explorer_pane_state),
        ) && is_engine_available,
        request matches Some(sent) ==> sent.project_item_paths@ == old(project_explorer_pane_state).pending_delete_confirmation_paths@,
        *final(project_explorer_pane_state) == (ProjectExplorerPaneState {
            pending_delete_confirmation_paths: final(project_explorer_pane_state).pending_delete_confirmation_paths,
            is_deleting_project_item: request is Some || old(project_explorer_pane_state).is_deleting_project_item,
            status_message: final(project_explorer_pane_state).status_message,
            ..*old(project_explorer_pane_state)
        }),
        old(project_explorer_pane_state).is_deleting_project_item || (!spec_delete_confirmed_for_selection(
            *old(project_explorer_pane_state),
        ) && old(project_explorer_pane_state).selected_item_path is None)
            ==> final(project_explorer_pane_state).pending_delete_confirmation_paths
            == old(project_explorer_pane_state).pending_delete_confirmation_paths,
        !old(project_explorer_pane_state).is_deleting_project_item && spec_delete_confirmed_for_selection(
            *old(project_explorer_pane_state),
        ) ==> final(project_explorer_pane_state).pending_delete_confirmation_paths@.len() == 0,
        !old(project_explorer_pane_state).is_deleting_project_item && !spec_delete_confirmed_for_selection(
            *old(project_explorer_pane_state),
        ) && old(project_explorer_pane_state).selected_item_path is Some
            ==> spec_delete_confirmed_for_selection(*final(project_explorer_pane_state)),
        final(project_explorer_pane_state).status_message@ == if old(project_explorer_pane_state).is_deleting_project_item {
            "Project item delete request already in progress."@
        } else if !spec_delete_confirmed_for_selection(*old(project_explorer_pane_state)) {
            if old(project_explorer_pane_state).selected_item_path is Some {
                "Press x again to confirm deleting selected project item."@
            } else {
                "No project item is selected for delete."@
            }
        } else if !is_engine_available {
            "No unprivileged engine state is available for delete."@
        } else {
            "Deleting "@ + spec_decimal(old(project_explorer_pane_state).pending_delete_confirmation_paths@.len())
                + " project items."@
        },
{
    let state = project_explorer_pane_state;
    let is_deleting = state.is_deleting_project_item;
    let is_confirmed = is_delete_confirmed_for_selection(state);
    let pending_paths = state.pending_delete_confirmation_paths.clone();
    let should_send = !is_deleting && is_confirmed && is_engine_available;
    let status = delete_status(is_deleting, is_confirmed, state.selected_item_path.is_some(), is_engine_available, pending_paths.len());
    match next_delete_confirmation(state, is_deleting, is_confirmed) {
        Some(next_pending) => state.pending_delete_confirmation_paths = next_pending,
        None => {},
    }
    state.status_message = status;
    state.is_deleting_project_item = should_send || is_deleting;
    if should_send {
        Some(ProjectItemsDeleteRequest { project_item_paths: pending_paths })
    } else {
        None
    }
}

fn is_delete_confirmed_for_selection(state: &ProjectExplorerPaneState) -> (is_confirmed: bool)
    ensures
        is_confirmed == spec_delete_confirmed_for_selection(*state),
{
    match &state.selected_item_path {
        Some(path) => state.pending_delete_confirmation_paths.len() == 1 && same_text(
            state.pending_delete_confirmation_paths[0].as_str(),
            path.as_str(),
        ),
        None => false,
    }
}

fn delete_status(is_deleting: bool, is_confirmed: bool, has_selection: bool, is_engine_available: bool, pending_count: usize) -> (status: String)
    ensures
        status@ == if is_deleting {
            "Project item delete request already in progress."@
        } else if !is_confirmed {
            if has_selection {
                "Press x again to confirm deleting selected project item."@
            } else {
                "No project item is selected for delete."@
            }
        } else if !is_engine_available {
            "No unprivileged engine state is available for delete."@
        } else {
            "Deleting "@ + spec_decimal(pending_count as nat) + " project items."@
        },
{
    if is_deleting {
        owned("Project item delete request already in progress.")
    } else if !is_confirmed {
        if has_selection {
            owned("Press x again to confirm deleting selected project item.")
        } else {
            owned("No project item is selected for delete.")
        }
    } else if !is_engine_available {
        owned("No unprivileged engine state is available for delete.")
    } else {
        let mut status = owned("Deleting ");
        push_decimal_usize(&mut status, pending_count);
        status.append(" project items.");
        status
    }
}

/// The armed paths after a delete press, or `None` when they stay as they are: they stay
/// while a delete is awaited, are used up once confirmed, and are otherwise armed for the
/// selected item when there is one.
fn next_delete_confirmation(state: &ProjectExplorerPaneState, is_deleting: bool, is_confirmed: bool) -> (paths: Option<Vec<String>>)
    requires
        is_confirmed == spec_delete_confirmed_for_selection(*state),
    ensures
        paths is None <==> is_deleting || (!is_confirmed && state.selected_item_path is None),
        paths is Some && is_confirmed ==> paths.unwrap()@.len() == 0,
        paths is Some && !is_confirmed ==> paths.unwrap()@.len() == 1 && paths.unwrap()@[0]@ == state.selected_item_path.unwrap()@,
{
    if is_deleting {
        return None;
    }
    if is_confirmed {
        return Some(Vec::new());
    }
    match &state.selected_item_path {
        Some(path) => {
            let mut armed: Vec<String> = Vec::new();
            armed.push(path.clone());
            Some(armed)
        },
        None => None,
    }
}

/// Takes the answer to a delete; returns whether it succeeded, after which the items are
/// reloaded. The delete is no longer awaited.
#[verifier::rlimit(40)]
pub fn finish_project_item_delete(project_explorer_pane_state: &mut ProjectExplorerPaneState, answer: EngineAnswer<ProjectItemsOutcome>) -> (did_delete: bool)
    ensures
        did_delete == (answer matches EngineAnswer::Answered(outcome) && outcome.success),
        *final(project_explorer_pane_state) == (ProjectExplorerPaneState {
            is_deleting_project_item: false,
            status_message: final(project_explorer_pane_state).status_message,
            ..*old(project_explorer_pane_state)
        }),
        final(project_explorer_pane_state).status_message@ == match answer {
            EngineAnswer::Answered(outcome) => if outcome.success {
                "Deleted "@ + spec_decimal(outcome.changed_project_item_count as nat) + " project items."@
            } else {
                "Project item delete request failed."@
            },
            EngineAnswer::TimedOut(reason) => "Timed out waiting for project item delete response: "@ + reason@,
        },
{
    let state = project_explorer_pane_state;
    let did_delete = match &answer {
        EngineAnswer::Answered(outcome) => outcome.success,
        EngineAnswer::TimedOut(_) => false,
    };
    let status = match &answer {
        EngineAnswer::Answered(outcome) => if outcome.success {
            let mut status = owned("Deleted ");
            push_decimal(&mut status, outcome.changed_project_item_count);
            status.append(" project items.");
            status
        } else {
            owned("Project item delete request failed.")
        },
        EngineAnswer::TimedOut(reason) => joined("Timed out waiting for project item delete response: ", reason.as_str()),
    };
    state.status_message = status;
    state.is_deleting_project_item = false;
    did_delete
}

} // verus!
