use vstd::prelude::*;
use crate::paths::ProjectInfo;
use crate::project_explorer::{ProjectExplorerPaneState, ProjectSelectorInputMode};
use crate::text::{spec_decimal, spec_option_text, spec_non_blank_trimmed, push_decimal_usize, owned, joined};
use crate::engine_requests::spec_status_if;

verus! {

/// How a request that is always sent ended: no answer in time (the text says why), or an
/// answer.
pub enum EngineAnswer<T> {
    TimedOut(String),
    Answered(T),
}

/// A request to open a project.
pub struct ProjectOpenRequest {
    pub open_file_browser: bool,
    pub project_directory_path: Option<String>,
    pub project_name: Option<String>,
}

/// A request to create a project.
pub struct ProjectCreateRequest {
    pub project_directory_path: Option<String>,
    pub project_name: Option<String>,
}

/// A request to rename a project.
pub struct ProjectRenameRequest {
    pub project_directory_path: String,
    pub new_project_name: String,
}

/// A request to delete a project.
pub struct ProjectDeleteRequest {
    pub project_directory_path: Option<String>,
    pub project_name: Option<String>,
}

/// The engine's answer to a create or rename request.
pub struct ProjectPathResponse {
    pub success: bool,
    pub new_project_path: String,
}

/// The name to show for the selected project: its name, or `<unknown>`.
pub open spec fn spec_display_name(state: ProjectExplorerPaneState) -> Seq<char> {
    match state.selected_project_name {
        Some(name) => name@,
        None => "<unknown>"@,
    }
}

fn display_name(state: &ProjectExplorerPaneState) -> (name: String)
    ensures
        name@ == spec_display_name(*state),
{
    match &state.selected_project_name {
        Some(name) => name.clone(),
        None => owned("<unknown>"),
    }
}

fn quoted_status(prefix: &str, name: &str, suffix: &str) -> (status: String)
    ensures
        status@ == prefix@ + name@ + suffix@,
{
    let mut status = owned(prefix);
    status.append(name);
    status.append(suffix);
    status
}

/// Starts a project list refresh. Nothing is sent while one is awaited or without an engine.
#[verifier::rlimit(40)]
pub fn begin_project_list_refresh(
    project_explorer_pane_state: &mut ProjectExplorerPaneState,
    is_engine_available: bool,
    should_update_status_message: bool,
) -> (should_send: bool)
    ensures
        should_send == (!old(project_explorer_pane_state).is_awaiting_project_list_response && is_engine_available),
        *final(project_explorer_pane_state) == (ProjectExplorerPaneState {
            is_awaiting_project_list_response: should_send || old(project_explorer_pane_state).is_awaiting_project_list_response,
            status_message: final(project_explorer_pane_state).status_message,
            ..*old(project_explorer_pane_state)
        }),
        final(project_explorer_pane_state).status_message@ == spec_status_if(
            should_update_status_message,
            if old(project_explorer_pane_state).is_awaiting_project_list_response {
                "Project list request already in progress."@
            } else if !is_engine_available {
                "No unprivileged engine state is available for project queries."@
            } else {
                "Refreshing project list."@
            },
            old(project_explorer_pane_state).status_message,
        ),
{
    let should_send = !project_explorer_pane_state.is_awaiting_project_list_response && is_engine_available;
    let status = if !should_update_status_message {
        project_explorer_pane_state.status_message.clone()
    } else if project_explorer_pane_state.is_awaiting_project_list_response {
        owned("Project list request already in progress.")
    } else if !is_engine_available {
        owned("No unprivileged engine state is available for project queries.")
    } else {
        owned("Refreshing project list.")
    };
    project_explorer_pane_state.is_awaiting_project_list_response = should_send
        || project_explorer_pane_state.is_awaiting_project_list_response;
    project_explorer_pane_state.status_message = status;
    should_send
}

/// Takes the outcome of a project list request: an answer replaces the list, selecting its
/// first project, and marks the list as loaded; the list is no longer awaited in any case.
pub fn finish_project_list_refresh(
    project_explorer_pane_state: &mut ProjectExplorerPaneState,
    reply: EngineAnswer<Vec<ProjectInfo>>,
    should_update_status_message: bool,
)
    ensures
        !final(project_explorer_pane_state).is_awaiting_project_list_response,
        match reply {
            EngineAnswer::Answered(projects) => {
                &&& final(project_explorer_pane_state).project_entries@ == projects@
                &&& final(project_explorer_pane_state).selected_project_list_index == if projects@.len() == 0 {
                    None
                } else {
                    Some(0usize)
                }
                &&& final(project_explorer_pane_state).spec_selection_fields_follow_index()
                &&& final(project_explorer_pane_state).has_loaded_project_list_once
                &&& final(project_explorer_pane_state).status_message@ == spec_status_if(
                    should_update_status_message,
                    "Loaded "@ + spec_decimal(projects@.len()) + " projects."@,
                    old(project_explorer_pane_state).status_message,
                )
                &&& *final(project_explorer_pane_state) == (ProjectExplorerPaneState {
                    project_entries: final(project_explorer_pane_state).project_entries,
                    selected_project_list_index: final(project_explorer_pane_state).selected_project_list_index,
                    selected_project_name: final(project_explorer_pane_state).selected_project_name,
                    selected_project_directory_path: final(project_explorer_pane_state).selected_project_directory_path,
                    has_loaded_project_list_once: true,
                    is_awaiting_project_list_response: false,
                    status_message: final(project_explorer_pane_state).status_message,
                    ..*old(project_explorer_pane_state)
                })
            },
            EngineAnswer::TimedOut(reason) => {
                &&& *final(project_explorer_pane_state) == (ProjectExplorerPaneState {
                    is_awaiting_project_list_response: false,
                    status_message: final(project_explorer_pane_state).status_message,
                    ..*old(project_explorer_pane_state)
                })
                &&& final(project_explorer_pane_state).status_message@ == spec_status_if(
                    should_update_status_message,
                    "Timed out waiting for project list response: "@ + reason@,
                    old(project_explorer_pane_state).status_message,
                )
            },
        },
{
    let state = project_explorer_pane_state;
    let status = if !should_update_status_message {
        state.status_message.clone()
    } else {
        match &reply {
            EngineAnswer::Answered(projects) => {
                let mut status = owned("Loaded ");
                push_decimal_usize(&mut status, projects.len());
                status.append(" projects.");
                status
            },
            EngineAnswer::TimedOut(reason) => joined("Timed out waiting for project list response: ", reason.as_str()),
        }
    };
    match reply {
        EngineAnswer::Answered(projects) => {
            state.apply_project_list(projects);
            state.has_loaded_project_list_once = true;
        },
        EngineAnswer::TimedOut(_) => {},
    }
    state.status_message = status;
    state.is_awaiting_project_list_response = false;
}

/// Starts opening the selected project. Nothing is sent while an open is in progress,
/// without a selected project, or without an engine; otherwise the result holds the
/// request and the name shown for the project.
pub fn begin_project_open(project_explorer_pane_state: &mut ProjectExplorerPaneState, is_engine_available: bool) -> (request: Option<(ProjectOpenRequest, String)>)
    ensures
        request is Some <==> !old(project_explorer_pane_state).is_opening_project && old(
            project_explorer_pane_state,
        ).selected_project_directory_path is Some && is_engine_available,
        request matches Some((sent, name)) ==> {
            &&& !sent.open_file_browser
            &&& sent.project_directory_path == old(project_explorer_pane_state).selected_project_directory_path
            &&& sent.project_name is None
            &&& name@ == spec_display_name(*old(project_explorer_pane_state))
        },
        *final(project_explorer_pane_state) == (ProjectExplorerPaneState {
            is_opening_project: request is Some || old(project_explorer_pane_state).is_opening_project,
            status_message: final(project_explorer_pane_state).status_message,
            ..*old(project_explorer_pane_state)
        }),
        final(project_explorer_pane_state).status_message@ == if old(project_explorer_pane_state).is_opening_project {
            "Project open request already in progress."@
        } else if old(project_explorer_pane_state).selected_project_directory_path is None {
            "No project is selected."@
        } else if !is_engine_available {
            "No unprivileged engine state is available for project opening."@
        } else {
            "Opening project '"@ + spec_display_name(*old(project_explorer_pane_state)) + "'."@
        },
{
    let state = project_explorer_pane_state;
    let is_opening_project = state.is_opening_project;
    let selected_project_directory_path = state.selected_project_directory_path();
    let selected_project_name = display_name(state);
    let should_send = !is_opening_project && selected_project_directory_path.is_some() && is_engine_available;
    let status = if is_opening_project {
        owned("Project open request already in progress.")
    } else if selected_project_directory_path.is_none() {
        owned("No project is selected.")
    } else if !is_engine_available {
        owned("No unprivileged engine state is available for project opening.")
    } else {
        quoted_status("Opening project '", selected_project_name.as_str(), "'.")
    };
    state.is_opening_project = should_send || is_opening_project;
    state.status_message = status;
    if should_send {
        Some((
            ProjectOpenRequest { open_file_browser: false, project_directory_path: selected_project_directory_path, project_name: None },
            selected_project_name,
        ))
    } else {
        None
    }
}

/// Takes the outcome of an open request for the project `project_name` in
/// `project_directory_path`; returns whether the project opened, after which its items are
/// reloaded. An opened project becomes the active one.
pub fn finish_project_open(
    project_explorer_pane_state: &mut ProjectExplorerPaneState,
    project_name: String,
    project_directory_path: String,
    reply: EngineAnswer<bool>,
) -> (did_open: bool)
    ensures
        did_open == (reply matches EngineAnswer::Answered(true)),
        *final(project_explorer_pane_state) == (ProjectExplorerPaneState {
            active_project_name: final(project_explorer_pane_state).active_project_name,
            active_project_directory_path: final(project_explorer_pane_state).active_project_directory_path,
            is_opening_project: false,
            status_message: final(project_explorer_pane_state).status_message,
            ..*old(project_explorer_pane_state)
        }),
        did_open ==> final(project_explorer_pane_state).active_project_name == Some(project_name)
            && final(project_explorer_pane_state).active_project_directory_path == Some(project_directory_path)
            && final(project_explorer_pane_state).status_message@ == "Opened project '"@ + project_name@ + "'."@,
        !did_open ==> final(project_explorer_pane_state).active_project_name == old(project_explorer_pane_state).active_project_name
            && final(project_explorer_pane_state).active_project_directory_path == old(
            project_explorer_pane_state,
        ).active_project_directory_path && final(project_explorer_pane_state).status_message@ == match reply {
            EngineAnswer::TimedOut(reason) => "Timed out waiting for project open response: "@ + reason@,
            EngineAnswer::Answered(_) => "Project open request failed."@,
        },
{
    let state = project_explorer_pane_state;
    let did_open = match &reply {
        EngineAnswer::Answered(success) => *success,
        EngineAnswer::TimedOut(_) => false,
    };
    let status = match &reply {
        EngineAnswer::Answered(success) => if *success {
            quoted_status("Opened project '", project_name.as_str(), "'.")
        } else {
            owned("Project open request failed.")
        },
        EngineAnswer::TimedOut(reason) => joined("Timed out waiting for project open response: ", reason.as_str()),
    };
    if did_open {
        state.set_active_project(Some(project_name), Some(project_directory_path));
    }
    state.status_message = status;
    state.is_opening_project = false;
    did_open
}

/// Starts creating a project with the typed name. Nothing is sent while a create is in
/// progress, with a blank name, or without an engine.
pub fn begin_project_create(project_explorer_pane_state: &mut ProjectExplorerPaneState, is_engine_available: bool) -> (request: Option<ProjectCreateRequest>)
    ensures
        request is Some <==> !old(project_explorer_pane_state).is_creating_project && spec_non_blank_trimmed(
            old(project_explorer_pane_state).pending_project_name_input@,
        ) is Some && is_engine_available,
        request matches Some(sent) ==> sent.project_directory_path is None && spec_option_text(sent.project_name)
            == spec_non_blank_trimmed(old(project_explorer_pane_state).pending_project_name_input@),
        *final(project_explorer_pane_state) == (ProjectExplorerPaneState {
            is_creating_project: request is Some || old(project_explorer_pane_state).is_creating_project,
            status_message: final(project_explorer_pane_state).status_message,
            ..*old(project_explorer_pane_state)
        }),
        final(project_explorer_pane_state).status_message@ == if old(project_explorer_pane_state).is_creating_project {
            "Project create request already in progress."@
        } else if spec_non_blank_trimmed(old(project_explorer_pane_state).pending_project_name_input@) is None {
            "Project name is empty."@
        } else if !is_engine_available {
            "No unprivileged engine state is available for project creation."@
        } else {
            "Creating project '"@ + spec_non_blank_trimmed(old(project_explorer_pane_state).pending_project_name_input@).unwrap()
                + "'."@
        },
{
    let state = project_explorer_pane_state;
    let is_creating_project = state.is_creating_project;
    let new_project_name = state.pending_project_name_trimmed();
    let should_send = !is_creating_project && new_project_name.is_some() && is_engine_available;
    let status = if is_creating_project {
        owned("Project create request already in progress.")
    } else {
        match &new_project_name {
            None => owned("Project name is empty."),
            Some(name) => if !is_engine_available {
                owned("No unprivileged engine state is available for project creation.")
            } else {
                quoted_status("Creating project '", name.as_str(), "'.")
            },
        }
    };
    state.is_creating_project = should_send || is_creating_project;
    state.status_message = status;
    if should_send {
        Some(ProjectCreateRequest { project_directory_path: None, project_name: new_project_name })
    } else {
        None
    }
}

/// Takes the outcome of a create request for `project_name`; returns the new project's
/// directory when it was created, after which the list is reloaded and that project
/// selected. A created project ends the name input.
pub fn finish_project_create(
    project_explorer_pane_state: &mut ProjectExplorerPaneState,
    project_name: &str,
    reply: EngineAnswer<ProjectPathResponse>,
) -> (created_path: Option<String>)
    ensures
        !final(project_explorer_pane_state).is_creating_project,
        match reply {
            EngineAnswer::Answered(response) => if response.success {
                &&& created_path == Some(response.new_project_path)
                &&& final(project_explorer_pane_state).input_mode == ProjectSelectorInputMode::NoInput
                &&& final(project_explorer_pane_state).pending_project_name_input@.len() == 0
                &&& final(project_explorer_pane_state).status_message@ == "Created project '"@ + project_name@ + "' at "@
                    + response.new_project_path@ + "."@
                &&& *final(project_explorer_pane_state) == (ProjectExplorerPaneState {
                    input_mode: ProjectSelectorInputMode::NoInput,
                    pending_project_name_input: final(project_explorer_pane_state).pending_project_name_input,
                    is_creating_project: false,
                    status_message: final(project_explorer_pane_state).status_message,
                    ..*old(project_explorer_pane_state)
                })
            } else {
                &&& created_path is None
                &&& final(project_explorer_pane_state).status_message@ == "Project create request failed."@
                &&& *final(project_explorer_pane_state) == (ProjectExplorerPaneState {
                    is_creating_project: false,
                    status_message: final(project_explorer_pane_state).status_message,
                    ..*old(project_explorer_pane_state)
                })
            },
            EngineAnswer::TimedOut(reason) => {
                &&& created_path is None
                &&& final(project_explorer_pane_state).status_message@ == "Timed out waiting for project create response: "@ + reason@
                &&& *final(project_explorer_pane_state) == (ProjectExplorerPaneState {
                    is_creating_project: false,
                    status_message: final(project_explorer_pane_state).status_message,
                    ..*old(project_explorer_pane_state)
                })
            },
        },
{
    let state = project_explorer_pane_state;
    let (status, created_path) = match reply {
        EngineAnswer::Answered(response) => if response.success {
            let mut status = quoted_status("Created project '", project_name, "' at ");
            status.append(response.new_project_path.as_str());
            status.append(".");
            (status, Some(response.new_project_path))
        } else {
            (owned("Project create request failed."), None)
        },
        EngineAnswer::TimedOut(reason) => (joined("Timed out waiting for project create response: ", reason.as_str()), None),
    };
    if created_path.is_some() {
        state.cancel_project_name_input();
    }
    state.status_message = status;
    state.is_creating_project = false;
    created_path
}

/// Starts closing the active project. Nothing is sent while a close is in progress or
/// without an engine.
pub fn begin_project_close(project_explorer_pane_state: &mut ProjectExplorerPaneState, is_engine_available: bool) -> (should_send: bool)
    ensures
        should_send == (!old(project_explorer_pane_state).is_closing_project && is_engine_available),
        *final(project_explorer_pane_state) == (ProjectExplorerPaneState {
            is_closing_project: should_send || old(project_explorer_pane_state).is_closing_project,
            status_message: final(project_explorer_pane_state).status_message,
            ..*old(project_explorer_pane_state)
        }),
        final(project_explorer_pane_state).status_message@ == if old(project_explorer_pane_state).is_closing_project {
            "Project close request already in progress."@
        } else if !is_engine_available {
            "No unprivileged engine state is available for project close."@
        } else {
            "Closing active project."@
        },
{
    let should_send = !project_explorer_pane_state.is_closing_project && is_engine_available;
    let status = if project_explorer_pane_state.is_closing_project {
        owned("Project close request already in progress.")
    } else if !is_engine_available {
        owned("No unprivileged engine state is available for project close.")
    } else {
        owned("Closing active project.")
    };
    project_explorer_pane_state.is_closing_project = should_send || project_explorer_pane_state.is_closing_project;
    project_explorer_pane_state.status_message = status;
    should_send
}

/// Takes the outcome of a close request; returns whether the project closed, after which
/// its items and the struct viewer's focus are cleared. A closed project is no longer
/// active.
pub fn finish_project_close(project_explorer_pane_state: &mut ProjectExplorerPaneState, reply: EngineAnswer<bool>) -> (did_close: bool)
    ensures
        did_close == (reply matches EngineAnswer::Answered(true)),
        *final(project_explorer_pane_state) == (ProjectExplorerPaneState {
            active_project_name: final(project_explorer_pane_state).active_project_name,
            active_project_directory_path: final(project_explorer_pane_state).active_project_directory_path,
            is_closing_project: false,
            status_message: final(project_explorer_pane_state).status_message,
            ..*old(project_explorer_pane_state)
        }),
        did_close ==> final(project_explorer_pane_state).active_project_name is None
            && final(project_explorer_pane_state).active_project_directory_path is None
            && final(project_explorer_pane_state).status_message@ == "Closed active project."@,
        !did_close ==> final(project_explorer_pane_state).active_project_name == old(project_explorer_pane_state).active_project_name
            && final(project_explorer_pane_state).active_project_directory_path == old(
            project_explorer_pane_state,
        ).active_project_directory_path && final(project_explorer_pane_state).status_message@ == match reply {
            EngineAnswer::TimedOut(reason) => "Timed out waiting for project close response: "@ + reason@,
            EngineAnswer::Answered(_) => "Project close request failed."@,
        },
{
    let state = project_explorer_pane_state;
    let did_close = match &reply {
        EngineAnswer::Answered(success) => *success,
        EngineAnswer::TimedOut(_) => false,
    };
    let status = match &reply {
        EngineAnswer::Answered(success) => if *success {
            owned("Closed active project.")
        } else {
            owned("Project close request failed.")
        },
        EngineAnswer::TimedOut(reason) => joined("Timed out waiting for project close response: ", reason.as_str()),
    };
    if did_close {
        state.set_active_project(None, None);
    }
    state.status_message = status;
    state.is_closing_project = false;
    did_close
}


/// Starts renaming the selected project to the typed name. Nothing is sent while a rename
/// is in progress, without a selected project, with a blank name, or without an engine.
pub fn begin_project_rename(project_explorer_pane_state: &mut ProjectExplorerPaneState, is_engine_available: bool) -> (request: Option<ProjectRenameRequest>)
    ensures
        request is Some <==> !old(project_explorer_pane_state).is_renaming_project && old(
            project_explorer_pane_state,
        ).selected_project_directory_path is Some && spec_non_blank_trimmed(
            old(project_explorer_pane_state).pending_project_name_input@,
        ) is Some && is_engine_available,
        request matches Some(sent) ==> Some(sent.project_directory_path) == old(project_explorer_pane_state).selected_project_directory_path
            && Some(sent.new_project_name@) == spec_non_blank_trimmed(old(project_explorer_pane_state).pending_project_name_input@),
        *final(project_explorer_pane_state) == (ProjectExplorerPaneState {
            is_renaming_project: request is Some || old(project_explorer_pane_state).is_renaming_project,
            status_message: final(project_explorer_pane_state).status_message,
            ..*old(project_explorer_pane_state)
        }),
        final(project_explorer_pane_state).status_message@ == if old(project_explorer_pane_state).is_renaming_project {
            "Project rename request already in progress."@
        } else if old(project_explorer_pane_state).selected_project_directory_path is None {
            "No project is selected for rename."@
        } else if spec_non_blank_trimmed(old(project_explorer_pane_state).pending_project_name_input@) is None {
            "Project name is empty."@
        } else if !is_engine_available {
            "No unprivileged engine state is available for project renaming."@
        } else {
            "Renaming project to '"@ + spec_non_blank_trimmed(old(project_explorer_pane_state).pending_project_name_input@).unwrap()
                + "'."@
        },
{
    let state = project_explorer_pane_state;
    let is_renaming_project = state.is_renaming_project;
    let selected_project_directory_path = state.selected_project_directory_path();
    let new_project_name = state.pending_project_name_trimmed();
    let should_send = !is_renaming_project && selected_project_directory_path.is_some() && new_project_name.is_some()
        && is_engine_available;
    let status = if is_renaming_project {
        owned("Project rename request already in progress.")
    } else if selected_project_directory_path.is_none() {
        owned("No project is selected for rename.")
    } else {
        match &new_project_name {
            None => owned("Project name is empty."),
            Some(name) => if !is_engine_available {
                owned("No unprivileged engine state is available for project renaming.")
            } else {
                quoted_status("Renaming project to '", name.as_str(), "'.")
            },
        }
    };
    state.is_renaming_project = should_send || is_renaming_project;
    state.status_message = status;
    match (selected_project_directory_path, new_project_name) {
        (Some(project_directory_path), Some(new_project_name)) => if should_send {
            Some(ProjectRenameRequest { project_directory_path, new_project_name })
        } else {
            None
        },
        _ => None,
    }
}

/// Whether the active project lies in `project_directory_path`.
pub open spec fn spec_is_active_directory(state: ProjectExplorerPaneState, project_directory_path: Seq<char>) -> bool {
    match state.active_project_directory_path {
        Some(active_directory) => active_directory@ == project_directory_path,
        None => false,
    }
}

fn is_active_directory(state: &ProjectExplorerPaneState, project_directory_path: &String) -> (is_active: bool)
    ensures
        is_active == spec_is_active_directory(*state, project_directory_path@),
{
    match &state.active_project_directory_path {
        Some(active_directory) => *active_directory == *project_directory_path,
        None => false,
    }
}

fn apply_successful_rename(state: &mut ProjectExplorerPaneState, new_project_name: &String, new_project_path: &String, was_active: bool)
    ensures
        final(state).pending_project_name_input@.len() == 0,
        *final(state) == (ProjectExplorerPaneState {
            input_mode: ProjectSelectorInputMode::NoInput,
            pending_project_name_input: final(state).pending_project_name_input,
            active_project_name: if was_active {
                Some(*new_project_name)
            } else {
                old(state).active_project_name
            },
            active_project_directory_path: if was_active {
                Some(*new_project_path)
            } else {
                old(state).active_project_directory_path
            },
            ..*old(state)
        }),
{
    state.cancel_project_name_input();
    if was_active {
        state.set_active_project(Some(new_project_name.clone()), Some(new_project_path.clone()));
    }
}

/// Takes the outcome of a rename request; returns the renamed project's new directory when
/// it was renamed, after which the list is reloaded and that project selected. A renamed
/// project ends the name input, and when it was the active project it stays active under
/// its new name and directory.
#[verifier::rlimit(80)]
pub fn finish_project_rename(
    project_explorer_pane_state: &mut ProjectExplorerPaneState,
    request: &ProjectRenameRequest,
    reply: EngineAnswer<ProjectPathResponse>,
) -> (renamed_path: Option<String>)
    ensures
        renamed_path == match reply {
            EngineAnswer::Answered(response) => if response.success {
                Some(response.new_project_path)
            } else {
                None
            },
            EngineAnswer::TimedOut(_) => None,
        },
        final(project_explorer_pane_state).status_message@ == match reply {
            EngineAnswer::Answered(response) => if response.success {
                "Renamed project to '"@ + request.new_project_name@ + "'."@
            } else {
                "Project rename request failed."@
            },
            EngineAnswer::TimedOut(reason) => "Timed out waiting for project rename response: "@ + reason@,
        },
        renamed_path is Some ==> final(project_explorer_pane_state).pending_project_name_input@.len() == 0,
        *final(project_explorer_pane_state) == (ProjectExplorerPaneState {
            input_mode: if renamed_path is Some {
                ProjectSelectorInputMode::NoInput
            } else {
                old(project_explorer_pane_state).input_mode
            },
            pending_project_name_input: final(project_explorer_pane_state).pending_project_name_input,
            active_project_name: if renamed_path is Some && spec_is_active_directory(
                *old(project_explorer_pane_state),
                request.project_directory_path@,
            ) {
                Some(request.new_project_name)
            } else {
                old(project_explorer_pane_state).active_project_name
            },
            active_project_directory_path: if renamed_path is Some && spec_is_active_directory(
                *old(project_explorer_pane_state),
                request.project_directory_path@,
            ) {
                renamed_path
            } else {
                old(project_explorer_pane_state).active_project_directory_path
            },
            is_renaming_project: false,
            status_message: final(project_explorer_pane_state).status_message,
            ..*old(project_explorer_pane_state)
        }),
        renamed_path is None ==> final(project_explorer_pane_state).pending_project_name_input
            == old(project_explorer_pane_state).pending_project_name_input,
{
    let was_active = is_active_directory(project_explorer_pane_state, &request.project_directory_path);
    let (status, renamed_path) = rename_outcome(request, reply);
    match &renamed_path {
        Some(new_project_path) => apply_successful_rename(
            project_explorer_pane_state,
            &request.new_project_name,
            new_project_path,
            was_active,
        ),
        None => {},
    }
    project_explorer_pane_state.status_message = status;
    project_explorer_pane_state.is_renaming_project = false;
    renamed_path
}

fn rename_outcome(request: &ProjectRenameRequest, reply: EngineAnswer<ProjectPathResponse>) -> (outcome: (String, Option<String>))
    ensures
        outcome.1 == match reply {
            EngineAnswer::Answered(response) => if response.success {
                Some(response.new_project_path)
            } else {
                None
            },
            EngineAnswer::TimedOut(_) => None,
        },
        outcome.0@ == match reply {
            EngineAnswer::Answered(response) => if response.success {
                "Renamed project to '"@ + request.new_project_name@ + "'."@
            } else {
                "Project rename request failed."@
            },
            EngineAnswer::TimedOut(reason) => "Timed out waiting for project rename response: "@ + reason@,
        },
{
    match reply {
        EngineAnswer::Answered(response) => if response.success {
            (quoted_status("Renamed project to '", request.new_project_name.as_str(), "'."), Some(response.new_project_path))
        } else {
            (owned("Project rename request failed."), None)
        },
        EngineAnswer::TimedOut(reason) => (joined("Timed out waiting for project rename response: ", reason.as_str()), None),
    }
}

/// Starts deleting the selected project. Nothing is sent while a delete is in progress,
/// without a selected project, or without an engine; otherwise the result holds the
/// request and the name shown for the project.
pub fn begin_project_delete(project_explorer_pane_state: &mut ProjectExplorerPaneState, is_engine_available: bool) -> (request: Option<(ProjectDeleteRequest, String)>)
    ensures
        request is Some <==> !old(project_explorer_pane_state).is_deleting_project && old(
            project_explorer_pane_state,
        ).selected_project_directory_path is Some && is_engine_available,
        request matches Some((sent, name)) ==> sent.project_directory_path == old(project_explorer_pane_state).selected_project_directory_path
            && sent.project_name is None && name@ == spec_display_name(*old(project_explorer_pane_state)),
        *final(project_explorer_pane_state) == (ProjectExplorerPaneState {
            is_deleting_project: request is Some || old(project_explorer_pane_state).is_deleting_project,
            status_message: final(project_explorer_pane_state).status_message,
            ..*old(project_explorer_pane_state)
        }),
        final(project_explorer_pane_state).status_message@ == if old(project_explorer_pane_state).is_deleting_project {
            "Project delete request already in progress."@
        } else if old(project_explorer_pane_state).selected_project_directory_path is None {
            "No project is selected for delete."@
        } else if !is_engine_available {
            "No unprivileged engine state is available for project deletion."@
        } else {
            "Deleting project '"@ + spec_display_name(*old(project_explorer_pane_state)) + "'."@
        },
{
    let state = project_explorer_pane_state;
    let is_deleting_project = state.is_deleting_project;
    let selected_project_directory_path = state.selected_project_directory_path();
    let selected_project_name = display_name(state);
    let should_send = !is_deleting_project && selected_project_directory_path.is_some() && is_engine_available;
    let status = if is_deleting_project {
        owned("Project delete request already in progress.")
    } else if selected_project_directory_path.is_none() {
        owned("No project is selected for delete.")
    } else if !is_engine_available {
        owned("No unprivileged engine state is available for project deletion.")
    } else {
        quoted_status("Deleting project '", selected_project_name.as_str(), "'.")
    };
    state.is_deleting_project = should_send || is_deleting_project;
    state.status_message = status;
    if should_send {
        Some((ProjectDeleteRequest { project_directory_path: selected_project_directory_path, project_name: None }, selected_project_name))
    } else {
        None
    }
}

/// What a finished delete asks for next.
#[derive(Clone, Copy, Debug, PartialEq, Eq, Structural)]
pub struct ProjectDeleteOutcome {
    /// The project was deleted: the project list is reloaded.
    pub did_delete: bool,
    /// The deleted project was the active one: its items and the struct viewer's focus
    /// are cleared.
    pub did_clear_active_project: bool,
}

/// Takes the outcome of a delete request for the project `project_name` in
/// `project_directory_path`. A deleted active project is no longer active.
#[verifier::rlimit(80)]
pub fn finish_project_delete(
    project_explorer_pane_state: &mut ProjectExplorerPaneState,
    project_directory_path: &String,
    project_name: &str,
    reply: EngineAnswer<bool>,
) -> (outcome: ProjectDeleteOutcome)
    ensures
        outcome.did_delete == (reply matches EngineAnswer::Answered(true)),
        outcome.did_clear_active_project == (outcome.did_delete && spec_is_active_directory(
            *old(project_explorer_pane_state),
            project_directory_path@,
        )),
        *final(project_explorer_pane_state) == (ProjectExplorerPaneState {
            active_project_name: if outcome.did_clear_active_project {
                None
            } else {
                old(project_explorer_pane_state).active_project_name
            },
            active_project_directory_path: if outcome.did_clear_active_project {
                None
            } else {
                old(project_explorer_pane_state).active_project_directory_path
            },
            is_deleting_project: false,
            status_message: final(project_explorer_pane_state).status_message,
            ..*old(project_explorer_pane_state)
        }),
        final(project_explorer_pane_state).status_message@ == match reply {
            EngineAnswer::Answered(success) => if success {
                "Deleted project '"@ + project_name@ + "'."@
            } else {
                "Project delete request failed."@
            },
            EngineAnswer::TimedOut(reason) => "Timed out waiting for project delete response: "@ + reason@,
        },
{
    let state = project_explorer_pane_state;
    let did_delete = match &reply {
        EngineAnswer::Answered(success) => *success,
        EngineAnswer::TimedOut(_) => false,
    };
    let status = match &reply {
        EngineAnswer::Answered(success) => if *success {
            quoted_status("Deleted project '", project_name, "'.")
        } else {
            owned("Project delete request failed.")
        },
        EngineAnswer::TimedOut(reason) => joined("Timed out waiting for project delete response: ", reason.as_str()),
    };
    let did_clear_active_project = did_delete && is_active_directory(state, project_directory_path);
    if did_clear_active_project {
        state.set_active_project(None, None);
    }
    state.status_message = status;
    state.is_deleting_project = false;
    ProjectDeleteOutcome { did_delete, did_clear_active_project }
}

} // verus!
