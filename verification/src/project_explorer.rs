use vstd::prelude::*;
use crate::pane_entry_row::{PaneEntryRow, PaneEntryRowTone, PaneEntryRowView};
use crate::paths::ProjectInfo;
use crate::selection::{
    spec_next_wrapping, spec_previous_wrapping, next_wrapping, previous_wrapping, spec_first_index,
    lemma_first_index_step, lemma_first_index_extends,
};
use crate::text::{
    spec_decimal, spec_bool_text, spec_texts, spec_option_text, spec_debug_option_text, push_decimal_usize,
    push_bool, push_char, pop_char, owned, debug_option_text, spec_non_blank_trimmed, non_blank_trimmed, same_text,
};
use crate::viewport::{build_selection_relative_viewport_range, spec_viewport_start, spec_viewport_len};

verus! {

/// Stores text input mode for project selector operations.
#[derive(Clone, Copy, Debug, PartialEq, Eq, Structural)]
pub enum ProjectSelectorInputMode {
    NoInput,
    CreatingProject,
    RenamingProject,
}

/// Which of the pane's two lists receives navigation keys.
#[derive(Clone, Copy, Debug, PartialEq, Eq, Structural)]
pub enum ProjectExplorerFocusTarget {
    ProjectList,
    ProjectHierarchy,
}

/// One visible row of the opened project's item tree.
pub struct ProjectHierarchyEntry {
    pub project_item_path: String,
    pub display_name: String,
    pub depth: usize,
    pub is_directory: bool,
    pub is_expanded: bool,
    pub is_activated: bool,
}

/// Stores state for browsing projects and project items.
pub struct ProjectExplorerPaneState {
    pub focus_target: ProjectExplorerFocusTarget,
    pub project_entries: Vec<ProjectInfo>,
    pub selected_project_list_index: Option<usize>,
    pub selected_project_name: Option<String>,
    pub selected_project_directory_path: Option<String>,
    pub active_project_name: Option<String>,
    pub active_project_directory_path: Option<String>,
    pub selected_item_path: Option<String>,
    pub project_item_visible_entries: Vec<ProjectHierarchyEntry>,
    pub selected_project_item_visible_index: Option<usize>,
    pub is_hierarchy_expanded: bool,
    pub input_mode: ProjectSelectorInputMode,
    pub pending_project_name_input: String,
    pub pending_move_source_paths: Vec<String>,
    pub pending_delete_confirmation_paths: Vec<String>,
    pub has_loaded_project_list_once: bool,
    pub is_awaiting_project_list_response: bool,
    pub is_awaiting_project_item_list_response: bool,
    pub is_creating_project: bool,
    pub is_opening_project: bool,
    pub is_renaming_project: bool,
    pub is_deleting_project: bool,
    pub is_closing_project: bool,
    pub is_creating_project_item: bool,
    pub is_deleting_project_item: bool,
    pub is_moving_project_item: bool,
    pub is_reordering_project_item: bool,
    pub is_toggling_project_item_activation: bool,
    pub status_message: String,
}

/// The position of the first project whose directory is `directory`.
pub open spec fn spec_project_position(entries: Seq<ProjectInfo>, directory: Seq<char>) -> Option<int> {
    spec_first_index(entries, |entry: ProjectInfo| spec_option_text(entry.project_directory) == Some(directory))
}

/// Characters a project name may hold: ASCII letters and digits, space, `_`, `-` and `.`.
pub open spec fn spec_is_supported_project_name_character(character: char) -> bool {
    let code = character as u32;
    ||| 0x30 <= code <= 0x39
    ||| 0x41 <= code <= 0x5A
    ||| 0x61 <= code <= 0x7A
    ||| character == ' '
    ||| character == '_'
    ||| character == '-'
    ||| character == '.'
}

impl ProjectExplorerPaneState {
    /// The selected-project fields follow the selected index: the entry's name and
    /// directory, or nothing when the index is missing or out of range.
    pub open spec fn spec_selection_fields_follow_index(&self) -> bool {
        match self.selected_project_list_index {
            Some(index) if index < self.project_entries@.len() => {
                &&& spec_option_text(self.selected_project_name) == Some(self.project_entries@[index as int].name@)
                &&& self.selected_project_directory_path == self.project_entries@[index as int].project_directory
            },
            _ => self.selected_project_name is None && self.selected_project_directory_path is None,
        }
    }

    /// Everything but the project list and its selection is as in `other`.
    pub open spec fn spec_same_except_selection(&self, other: &Self) -> bool {
        &&& self.focus_target == other.focus_target
        &&& self.active_project_name == other.active_project_name
        &&& self.active_project_directory_path == other.active_project_directory_path
        &&& self.selected_item_path == other.selected_item_path
        &&& self.project_item_visible_entries == other.project_item_visible_entries
        &&& self.selected_project_item_visible_index == other.selected_project_item_visible_index
        &&& self.is_hierarchy_expanded == other.is_hierarchy_expanded
        &&& self.input_mode == other.input_mode
        &&& self.pending_project_name_input == other.pending_project_name_input
        &&& self.pending_move_source_paths == other.pending_move_source_paths
        &&& self.pending_delete_confirmation_paths == other.pending_delete_confirmation_paths
        &&& self.spec_same_flags(other)
        &&& self.status_message == other.status_message
    }

    /// The request flags are as in `other`.
    pub open spec fn spec_same_flags(&self, other: &Self) -> bool {
        &&& self.has_loaded_project_list_once == other.has_loaded_project_list_once
        &&& self.is_awaiting_project_list_response == other.is_awaiting_project_list_response
        &&& self.is_awaiting_project_item_list_response == other.is_awaiting_project_item_list_response
        &&& self.is_creating_project == other.is_creating_project
        &&& self.is_opening_project == other.is_opening_project
        &&& self.is_renaming_project == other.is_renaming_project
        &&& self.is_deleting_project == other.is_deleting_project
        &&& self.is_closing_project == other.is_closing_project
        &&& self.is_creating_project_item == other.is_creating_project_item
        &&& self.is_deleting_project_item == other.is_deleting_project_item
        &&& self.is_moving_project_item == other.is_moving_project_item
        &&& self.is_reordering_project_item == other.is_reordering_project_item
        &&& self.is_toggling_project_item_activation == other.is_toggling_project_item_activation
    }

    /// Everything but the name input and the input mode is as in `other`.
    pub open spec fn spec_same_except_input(&self, other: &Self) -> bool {
        &&& self.focus_target == other.focus_target
        &&& self.project_entries == other.project_entries
        &&& self.selected_project_list_index == other.selected_project_list_index
        &&& self.selected_project_name == other.selected_project_name
        &&& self.selected_project_directory_path == other.selected_project_directory_path
        &&& self.active_project_name == other.active_project_name
        &&& self.active_project_directory_path == other.active_project_directory_path
        &&& self.selected_item_path == other.selected_item_path
        &&& self.project_item_visible_entries == other.project_item_visible_entries
        &&& self.selected_project_item_visible_index == other.selected_project_item_visible_index
        &&& self.is_hierarchy_expanded == other.is_hierarchy_expanded
        &&& self.pending_move_source_paths == other.pending_move_source_paths
        &&& self.pending_delete_confirmation_paths == other.pending_delete_confirmation_paths
        &&& self.spec_same_flags(other)
        &&& self.status_message == other.status_message
    }

    /// Replaces the project list and selects its first project, or none in an empty list.
    pub fn apply_project_list(&mut self, project_entries: Vec<ProjectInfo>)
        ensures
            final(self).project_entries@ == project_entries@,
            final(self).selected_project_list_index == if project_entries@.len() == 0 {
                None
            } else {
                Some(0usize)
            },
            final(self).spec_selection_fields_follow_index(),
            final(self).spec_same_except_selection(&*old(self)),
    {
        self.project_entries = project_entries;
        self.selected_project_list_index = if self.project_entries.len() == 0 {
            None
        } else {
            Some(0)
        };
        self.update_selected_project_fields();
    }

    pub fn select_next_project(&mut self)
        ensures
            final(self).project_entries == old(self).project_entries,
            final(self).selected_project_list_index == spec_next_wrapping(
                old(self).selected_project_list_index,
                old(self).project_entries@.len(),
            ),
            final(self).spec_selection_fields_follow_index(),
            final(self).spec_same_except_selection(&*old(self)),
    {
        self.selected_project_list_index = next_wrapping(self.selected_project_list_index, self.project_entries.len());
        self.update_selected_project_fields();
    }

    pub fn select_previous_project(&mut self)
        ensures
            final(self).project_entries == old(self).project_entries,
            final(self).selected_project_list_index == spec_previous_wrapping(
                old(self).selected_project_list_index,
                old(self).project_entries@.len(),
            ),
            final(self).spec_selection_fields_follow_index(),
            final(self).spec_same_except_selection(&*old(self)),
    {
        self.selected_project_list_index = previous_wrapping(self.selected_project_list_index, self.project_entries.len());
        self.update_selected_project_fields();
    }

    /// Selects the first project in `project_directory_path`; returns whether one is listed.
    /// Nothing changes when none is.
    pub fn select_project_by_directory_path(&mut self, project_directory_path: &str) -> (did_select: bool)
        ensures
            did_select == spec_project_position(old(self).project_entries@, project_directory_path@) is Some,
            final(self).project_entries == old(self).project_entries,
            did_select ==> final(self).selected_project_list_index == Some(
                spec_project_position(old(self).project_entries@, project_directory_path@).unwrap() as usize,
            ) && final(self).spec_selection_fields_follow_index(),
            !did_select ==> final(self).selected_project_list_index == old(self).selected_project_list_index
                && final(self).selected_project_name == old(self).selected_project_name
                && final(self).selected_project_directory_path == old(self).selected_project_directory_path,
            final(self).spec_same_except_selection(&*old(self)),
    {
        let ghost matches = |entry: ProjectInfo| spec_option_text(entry.project_directory) == Some(project_directory_path@);
        let mut position: usize = 0;
        let mut matching_index: Option<usize> = None;
        while position < self.project_entries.len()
            invariant_except_break
                matching_index is None,
            invariant
                position <= self.project_entries@.len(),
                spec_first_index(self.project_entries@.subrange(0, position as int), matches) is None,
                matches == (|entry: ProjectInfo| spec_option_text(entry.project_directory) == Some(project_directory_path@)),
            ensures
                matching_index is None ==> position == self.project_entries@.len(),
                matching_index matches Some(index) ==> index == position && position < self.project_entries@.len()
                    && matches(self.project_entries@[index as int]),
            decreases self.project_entries@.len() - position,
        {
            proof {
                lemma_first_index_step(self.project_entries@, matches, position as int);
            }
            let is_match = match &self.project_entries[position].project_directory {
                Some(entry_directory) => entry_directory.as_str().unicode_len() == project_directory_path.unicode_len()
                    && same_text(entry_directory.as_str(), project_directory_path),
                None => false,
            };
            if is_match {
                matching_index = Some(position);
                break;
            }
            position = position + 1;
        }
        proof {
            if matching_index is None {
                assert(self.project_entries@.subrange(0, self.project_entries@.len() as int) =~= self.project_entries@);
            } else {
                lemma_first_index_step(self.project_entries@, matches, position as int);
                lemma_first_index_extends(self.project_entries@, matches, position + 1);
            }
        }
        match matching_index {
            Some(index) => {
                self.selected_project_list_index = Some(index);
                self.update_selected_project_fields();
                true
            },
            None => false,
        }
    }

    pub fn selected_project_directory_path(&self) -> (directory: Option<String>)
        ensures
            directory == self.selected_project_directory_path,
    {
        match &self.selected_project_directory_path {
            Some(directory) => Some(directory.clone()),
            None => None,
        }
    }

    pub fn selected_project_name(&self) -> (name: Option<String>)
        ensures
            name == self.selected_project_name,
    {
        match &self.selected_project_name {
            Some(name) => Some(name.clone()),
            None => None,
        }
    }

    /// Starts typing a new project's name, prefilled with `NewProject`.
    pub fn begin_create_project_input(&mut self)
        ensures
            final(self).input_mode == ProjectSelectorInputMode::CreatingProject,
            final(self).pending_project_name_input@ == "NewProject"@,
            final(self).spec_same_except_input(&*old(self)),
    {
        self.input_mode = ProjectSelectorInputMode::CreatingProject;
        self.pending_project_name_input = owned("NewProject");
    }

    /// Starts renaming the selected project, prefilled with its name; returns `false`, and
    /// changes nothing, when no project is selected.
    pub fn begin_rename_selected_project_input(&mut self) -> (did_begin: bool)
        ensures
            did_begin == old(self).selected_project_name is Some,
            did_begin ==> final(self).input_mode == ProjectSelectorInputMode::RenamingProject
                && final(self).pending_project_name_input == old(self).selected_project_name.unwrap(),
            !did_begin ==> final(self).input_mode == old(self).input_mode
                && final(self).pending_project_name_input == old(self).pending_project_name_input,
            final(self).spec_same_except_input(&*old(self)),
    {
        let selected_project_name = match &self.selected_project_name {
            Some(name) => name.clone(),
            None => return false,
        };
        self.input_mode = ProjectSelectorInputMode::RenamingProject;
        self.pending_project_name_input = selected_project_name;
        true
    }

    /// Leaves name input and discards the typed name.
    pub fn cancel_project_name_input(&mut self)
        ensures
            final(self).input_mode == ProjectSelectorInputMode::NoInput,
            final(self).pending_project_name_input@.len() == 0,
            final(self).spec_same_except_input(&*old(self)),
    {
        self.input_mode = ProjectSelectorInputMode::NoInput;
        self.pending_project_name_input = String::new();
    }

    /// The typed name without surrounding white space, or `None` when it is blank.
    pub fn pending_project_name_trimmed(&self) -> (project_name: Option<String>)
        ensures
            spec_option_text(project_name) == spec_non_blank_trimmed(self.pending_project_name_input@),
    {
        let trimmed = non_blank_trimmed(self.pending_project_name_input.as_str());
        trimmed
    }

    /// Types one character into the name; unsupported characters are ignored.
    pub fn append_pending_project_name_character(&mut self, pending_character: char)
        ensures
            final(self).pending_project_name_input@ == if spec_is_supported_project_name_character(pending_character) {
                old(self).pending_project_name_input@.push(pending_character)
            } else {
                old(self).pending_project_name_input@
            },
            final(self).input_mode == old(self).input_mode,
            final(self).spec_same_except_input(&*old(self)),
    {
        if !Self::is_supported_project_name_character(pending_character) {
            return;
        }
        push_char(&mut self.pending_project_name_input, pending_character);
    }

    /// Deletes the last character of the typed name, if any.
    pub fn backspace_pending_project_name(&mut self)
        ensures
            final(self).pending_project_name_input@ == if old(self).pending_project_name_input@.len() == 0 {
                old(self).pending_project_name_input@
            } else {
                old(self).pending_project_name_input@.drop_last()
            },
            final(self).input_mode == old(self).input_mode,
            final(self).spec_same_except_input(&*old(self)),
    {
        let _ = pop_char(&mut self.pending_project_name_input);
    }

    pub fn clear_pending_project_name(&mut self)
        ensures
            final(self).pending_project_name_input@.len() == 0,
            final(self).input_mode == old(self).input_mode,
            final(self).spec_same_except_input(&*old(self)),
    {
        self.pending_project_name_input = String::new();
    }

    /// Records which project the engine has open.
    pub fn set_active_project(&mut self, active_project_name: Option<String>, active_project_directory_path: Option<String>)
        ensures
            *final(self) == (ProjectExplorerPaneState { active_project_name, active_project_directory_path, ..*old(self) }),
    {
        self.active_project_name = active_project_name;
        self.active_project_directory_path = active_project_directory_path;
    }

    /// Whether the selected visible project item is activated; false without one.
    pub fn selected_project_item_is_activated(&self) -> (is_activated: bool)
        ensures
            is_activated == match self.selected_project_item_visible_index {
                Some(index) => index < self.project_item_visible_entries@.len()
                    && self.project_item_visible_entries@[index as int].is_activated,
                None => false,
            },
    {
        match self.selected_project_item_visible_index {
            Some(index) => index < self.project_item_visible_entries.len() && self.project_item_visible_entries[index].is_activated,
            None => false,
        }
    }

    /// Forgets the project items staged for a move, and says so.
    pub fn clear_pending_move_source_paths(&mut self)
        ensures
            *final(self) == (ProjectExplorerPaneState {
                pending_move_source_paths: final(self).pending_move_source_paths,
                status_message: final(self).status_message,
                ..*old(self)
            }),
            final(self).pending_move_source_paths@.len() == 0,
            final(self).status_message@ == "Cleared staged project item move."@,
    {
        self.pending_move_source_paths = Vec::new();
        self.status_message = owned("Cleared staged project item move.");
    }

    pub fn summary_lines(&self) -> (summary_lines: Vec<String>)
        ensures
            spec_texts(summary_lines@) == spec_project_explorer_summary_lines(*self),
    {
        build_project_explorer_summary_lines(self)
    }

    /// The project rows shown under the summary.
    pub fn visible_project_entry_rows(&self) -> (entry_rows: Vec<PaneEntryRow>)
        ensures
            entry_rows@.map_values(|row: PaneEntryRow| row@) == spec_visible_project_entry_rows(*self, 5),
    {
        build_visible_project_entry_rows(self, 5)
    }

    /// The project item rows shown under the project rows.
    pub fn visible_project_item_entry_rows(&self) -> (entry_rows: Vec<PaneEntryRow>)
        ensures
            entry_rows@.map_values(|row: PaneEntryRow| row@) == spec_visible_project_item_entry_rows(*self, 10),
    {
        build_visible_project_item_entry_rows(self, 10)
    }

    fn update_selected_project_fields(&mut self)
        ensures
            final(self).project_entries == old(self).project_entries,
            final(self).selected_project_list_index == old(self).selected_project_list_index,
            final(self).spec_selection_fields_follow_index(),
            final(self).spec_same_except_selection(&*old(self)),
    {
        let (selected_name, selected_directory) = Self::selection_fields(&self.project_entries, self.selected_project_list_index);
        self.selected_project_name = selected_name;
        self.selected_project_directory_path = selected_directory;
    }

    fn selection_fields(project_entries: &Vec<ProjectInfo>, selected_index: Option<usize>) -> (fields: (Option<String>, Option<String>))
        ensures
            match selected_index {
                Some(index) if index < project_entries@.len() => {
                    &&& spec_option_text(fields.0) == Some(project_entries@[index as int].name@)
                    &&& fields.1 == project_entries@[index as int].project_directory
                },
                _ => fields.0 is None && fields.1 is None,
            },
    {
        if let Some(selected_project_index) = selected_index {
            if selected_project_index < project_entries.len() {
                let selected_project_entry = &project_entries[selected_project_index];
                return (Some(owned(selected_project_entry.get_name())), selected_project_entry.get_project_directory());
            }
        }
        (None, None)
    }

    fn is_supported_project_name_character(pending_character: char) -> (is_supported: bool)
        ensures
            is_supported == spec_is_supported_project_name_character(pending_character),
    {
        let code = pending_character as u32;
        (0x30 <= code && code <= 0x39) || (0x41 <= code && code <= 0x5A) || (0x61 <= code && code <= 0x7A)
            || pending_character == ' ' || pending_character == '_' || pending_character == '-'
            || pending_character == '.'
    }
}

impl Default for ProjectExplorerPaneState {
    fn default() -> (state: ProjectExplorerPaneState)
        ensures
            state.focus_target == ProjectExplorerFocusTarget::ProjectList,
            state.project_entries@.len() == 0,
            state.selected_project_list_index is None,
            state.selected_project_name is None,
            state.selected_project_directory_path is None,
            state.active_project_name is None,
            state.active_project_directory_path is None,
            state.selected_item_path is None,
            state.project_item_visible_entries@.len() == 0,
            state.selected_project_item_visible_index is None,
            state.is_hierarchy_expanded,
            state.input_mode == ProjectSelectorInputMode::NoInput,
            state.pending_project_name_input@.len() == 0,
            state.pending_move_source_paths@.len() == 0,
            state.pending_delete_confirmation_paths@.len() == 0,
            !state.has_loaded_project_list_once,
            !state.is_awaiting_project_list_response,
            !state.is_awaiting_project_item_list_response,
            !state.is_creating_project,
            !state.is_opening_project,
            !state.is_renaming_project,
            !state.is_deleting_project,
            !state.is_closing_project,
            !state.is_creating_project_item,
            !state.is_deleting_project_item,
            !state.is_moving_project_item,
            !state.is_reordering_project_item,
            !state.is_toggling_project_item_activation,
            state.status_message@ == "Ready."@,
    {
        ProjectExplorerPaneState {
            focus_target: ProjectExplorerFocusTarget::ProjectList,
            project_entries: Vec::new(),
            selected_project_list_index: None,
            selected_project_name: None,
            selected_project_directory_path: None,
            active_project_name: None,
            active_project_directory_path: None,
            selected_item_path: None,
            project_item_visible_entries: Vec::new(),
            selected_project_item_visible_index: None,
            is_hierarchy_expanded: true,
            input_mode: ProjectSelectorInputMode::NoInput,
            pending_project_name_input: String::new(),
            pending_move_source_paths: Vec::new(),
            pending_delete_confirmation_paths: Vec::new(),
            has_loaded_project_list_once: false,
            is_awaiting_project_list_response: false,
            is_awaiting_project_item_list_response: false,
            is_creating_project: false,
            is_opening_project: false,
            is_renaming_project: false,
            is_deleting_project: false,
            is_closing_project: false,
            is_creating_project_item: false,
            is_deleting_project_item: false,
            is_moving_project_item: false,
            is_reordering_project_item: false,
            is_toggling_project_item_activation: false,
            status_message: owned("Ready."),
        }
    }
}

} // verus!

verus! {

pub open spec fn spec_focus_target_label(focus_target: ProjectExplorerFocusTarget) -> Seq<char> {
    match focus_target {
        ProjectExplorerFocusTarget::ProjectList => "ProjectList"@,
        ProjectExplorerFocusTarget::ProjectHierarchy => "ProjectHierarchy"@,
    }
}

/// The `Debug` name of an input mode; having no input shows as `None`.
pub open spec fn spec_input_mode_label(input_mode: ProjectSelectorInputMode) -> Seq<char> {
    match input_mode {
        ProjectSelectorInputMode::NoInput => "None"@,
        ProjectSelectorInputMode::CreatingProject => "CreatingProject"@,
        ProjectSelectorInputMode::RenamingProject => "RenamingProject"@,
    }
}

/// The project explorer summary: five key-help lines, one line per field, and the row
/// capacities.
pub open spec fn spec_project_explorer_summary_lines(state: ProjectExplorerPaneState) -> Seq<Seq<char>> {
    seq![
        "[MODE] p project-list | i hierarchy."@,
        "[LIST] r refresh | n create | Enter/o open | e rename | x delete | c close."@,
        "[TREE] h refresh | j/k select | l/Right expand | Left collapse | Space activate."@,
        "[MOVE] n folder | x delete(confirm) | m stage | b move | [/] reorder | u clear-stage."@,
        "[INPUT] type | Backspace | Ctrl+u clear | Enter commit | Esc cancel."@,
        "focus_target="@ + spec_focus_target_label(state.focus_target),
        "list_count="@ + spec_decimal(state.project_entries@.len()),
        "selected_name="@ + spec_debug_option_text(spec_option_text(state.selected_project_name)),
        "active_project="@ + spec_debug_option_text(spec_option_text(state.active_project_name)),
        "active_directory="@ + spec_debug_option_text(spec_option_text(state.active_project_directory_path)),
        "selected_item="@ + spec_debug_option_text(spec_option_text(state.selected_item_path)),
        "visible_item_count="@ + spec_decimal(state.project_item_visible_entries@.len()),
        "expanded="@ + spec_bool_text(state.is_hierarchy_expanded),
        "input_mode="@ + spec_input_mode_label(state.input_mode),
        "pending_name="@ + state.pending_project_name_input@,
        "pending_move_count="@ + spec_decimal(state.pending_move_source_paths@.len()),
        "pending_delete_count="@ + spec_decimal(state.pending_delete_confirmation_paths@.len()),
        "awaiting_list="@ + spec_bool_text(state.is_awaiting_project_list_response),
        "awaiting_item_list="@ + spec_bool_text(state.is_awaiting_project_item_list_response),
        "creating="@ + spec_bool_text(state.is_creating_project),
        "opening="@ + spec_bool_text(state.is_opening_project),
        "renaming="@ + spec_bool_text(state.is_renaming_project),
        "deleting="@ + spec_bool_text(state.is_deleting_project),
        "closing="@ + spec_bool_text(state.is_closing_project),
        "creating_item="@ + spec_bool_text(state.is_creating_project_item),
        "deleting_item="@ + spec_bool_text(state.is_deleting_project_item),
        "moving_item="@ + spec_bool_text(state.is_moving_project_item),
        "reordering_item="@ + spec_bool_text(state.is_reordering_project_item),
        "activating_item="@ + spec_bool_text(state.is_toggling_project_item_activation),
        "status="@ + state.status_message@,
        "[ROWS] projects=5 | hierarchy=10."@,
    ]
}

fn labeled_bool(label: &str, value: bool) -> (line: String)
    ensures
        line@ == label@ + spec_bool_text(value),
{
    let mut line = owned(label);
    push_bool(&mut line, value);
    line
}

fn labeled_count(label: &str, value: usize) -> (line: String)
    ensures
        line@ == label@ + spec_decimal(value as nat),
{
    let mut line = owned(label);
    push_decimal_usize(&mut line, value);
    line
}

fn labeled_text(label: &str, value: &str) -> (line: String)
    ensures
        line@ == label@ + value@,
{
    let mut line = owned(label);
    line.append(value);
    line
}

fn focus_target_label(focus_target: ProjectExplorerFocusTarget) -> (label: &'static str)
    ensures
        label@ == spec_focus_target_label(focus_target),
{
    match focus_target {
        ProjectExplorerFocusTarget::ProjectList => "ProjectList",
        ProjectExplorerFocusTarget::ProjectHierarchy => "ProjectHierarchy",
    }
}

fn input_mode_label(input_mode: ProjectSelectorInputMode) -> (label: &'static str)
    ensures
        label@ == spec_input_mode_label(input_mode),
{
    match input_mode {
        ProjectSelectorInputMode::NoInput => "None",
        ProjectSelectorInputMode::CreatingProject => "CreatingProject",
        ProjectSelectorInputMode::RenamingProject => "RenamingProject",
    }
}

/// Builds the project explorer summary lines.
#[verifier::rlimit(30)]
pub fn build_project_explorer_summary_lines(project_explorer_pane_state: &ProjectExplorerPaneState) -> (summary_lines: Vec<String>)
    ensures
        spec_texts(summary_lines@) == spec_project_explorer_summary_lines(*project_explorer_pane_state),
{
    let state = project_explorer_pane_state;
    let mut lines: Vec<String> = Vec::new();
    lines.push(owned("[MODE] p project-list | i hierarchy."));
    lines.push(owned("[LIST] r refresh | n create | Enter/o open | e rename | x delete | c close."));
    lines.push(owned("[TREE] h refresh | j/k select | l/Right expand | Left collapse | Space activate."));
    lines.push(owned("[MOVE] n folder | x delete(confirm) | m stage | b move | [/] reorder | u clear-stage."));
    lines.push(owned("[INPUT] type | Backspace | Ctrl+u clear | Enter commit | Esc cancel."));
    lines.push(labeled_text("focus_target=", focus_target_label(state.focus_target)));
    lines.push(labeled_count("list_count=", state.project_entries.len()));
    lines.push(labeled_text("selected_name=", debug_option_text(&state.selected_project_name).as_str()));
    lines.push(labeled_text("active_project=", debug_option_text(&state.active_project_name).as_str()));
    lines.push(labeled_text("active_directory=", debug_option_text(&state.active_project_directory_path).as_str()));
    lines.push(labeled_text("selected_item=", debug_option_text(&state.selected_item_path).as_str()));
    lines.push(labeled_count("visible_item_count=", state.project_item_visible_entries.len()));
    lines.push(labeled_bool("expanded=", state.is_hierarchy_expanded));
    lines.push(labeled_text("input_mode=", input_mode_label(state.input_mode)));
    lines.push(labeled_text("pending_name=", state.pending_project_name_input.as_str()));
    lines.push(labeled_count("pending_move_count=", state.pending_move_source_paths.len()));
    lines.push(labeled_count("pending_delete_count=", state.pending_delete_confirmation_paths.len()));
    lines.push(labeled_bool("awaiting_list=", state.is_awaiting_project_list_response));
    lines.push(labeled_bool("awaiting_item_list=", state.is_awaiting_project_item_list_response));
    lines.push(labeled_bool("creating=", state.is_creating_project));
    lines.push(labeled_bool("opening=", state.is_opening_project));
    lines.push(labeled_bool("renaming=", state.is_renaming_project));
    lines.push(labeled_bool("deleting=", state.is_deleting_project));
    lines.push(labeled_bool("closing=", state.is_closing_project));
    lines.push(labeled_bool("creating_item=", state.is_creating_project_item));
    lines.push(labeled_bool("deleting_item=", state.is_deleting_project_item));
    lines.push(labeled_bool("moving_item=", state.is_moving_project_item));
    lines.push(labeled_bool("reordering_item=", state.is_reordering_project_item));
    lines.push(labeled_bool("activating_item=", state.is_toggling_project_item_activation));
    lines.push(labeled_text("status=", state.status_message.as_str()));
    lines.push(owned("[ROWS] projects=5 | hierarchy=10."));
    assert(spec_texts(lines@) =~= spec_project_explorer_summary_lines(*state));
    lines
}

/// Whether a project lies in the active project's directory.
pub open spec fn spec_is_active_project(state: ProjectExplorerPaneState, entry: ProjectInfo) -> bool {
    match (state.active_project_directory_path, entry.project_directory) {
        (Some(active_directory), Some(entry_directory)) => active_directory@ == entry_directory@,
        _ => false,
    }
}

/// The row of the project at `position`: marked `*` when it is the active project, its
/// name, its directory (or `<unknown>`), and drawn disabled unless the project list has
/// focus.
pub open spec fn spec_project_entry_row(state: ProjectExplorerPaneState, position: int) -> PaneEntryRowView {
    let entry = state.project_entries@[position];
    PaneEntryRowView {
        tone: if state.focus_target != ProjectExplorerFocusTarget::ProjectList {
            PaneEntryRowTone::Disabled
        } else if state.selected_project_list_index == Some(position as usize) {
            PaneEntryRowTone::Selected
        } else {
            PaneEntryRowTone::Normal
        },
        marker_text: if spec_is_active_project(state, entry) {
            "*"@
        } else {
            Seq::empty()
        },
        primary_text: entry.name@,
        secondary_text: Some(
            match entry.project_directory {
                Some(directory) => directory@,
                None => "<unknown>"@,
            },
        ),
    }
}

/// The rows of the projects inside the selection-relative window.
pub open spec fn spec_visible_project_entry_rows(state: ProjectExplorerPaneState, viewport_capacity: nat) -> Seq<PaneEntryRowView> {
    let count = state.project_entries@.len();
    let start = spec_viewport_start(count, state.selected_project_list_index, viewport_capacity);
    Seq::new(spec_viewport_len(count, viewport_capacity), |offset: int| spec_project_entry_row(state, start + offset))
}

/// Builds the project rows inside the selection-relative window.
pub fn build_visible_project_entry_rows(project_explorer_pane_state: &ProjectExplorerPaneState, viewport_capacity: usize) -> (entry_rows: Vec<PaneEntryRow>)
    ensures
        entry_rows@.map_values(|row: PaneEntryRow| row@) == spec_visible_project_entry_rows(
            *project_explorer_pane_state,
            viewport_capacity as nat,
        ),
{
    let state = project_explorer_pane_state;
    let visible_range = build_selection_relative_viewport_range(
        state.project_entries.len(),
        state.selected_project_list_index,
        viewport_capacity,
    );
    let ghost expected = spec_visible_project_entry_rows(*state, viewport_capacity as nat);
    let mut entry_rows: Vec<PaneEntryRow> = Vec::new();
    let mut position: usize = visible_range.start;
    while position < visible_range.end
        invariant
            visible_range.start <= position <= visible_range.end,
            visible_range.end <= state.project_entries@.len(),
            expected.len() == visible_range.end - visible_range.start,
            forall|k: int| 0 <= k < expected.len() ==> #[trigger] expected[k] == spec_project_entry_row(*state, visible_range.start + k),
            entry_rows@.len() == position - visible_range.start,
            forall|k: int| 0 <= k < entry_rows@.len() ==> #[trigger] entry_rows@[k]@ == expected[k],
        decreases visible_range.end - position,
    {
        let project_entry = &state.project_entries[position];
        let is_selected_project = match state.selected_project_list_index {
            Some(index) => index == position,
            None => false,
        };
        let is_active_project = match (&state.active_project_directory_path, &project_entry.project_directory) {
            (Some(active_directory), Some(entry_directory)) => active_directory.as_str().unicode_len()
                == entry_directory.as_str().unicode_len() && same_text(
                active_directory.as_str(),
                entry_directory.as_str(),
            ),
            _ => false,
        };
        let marker_text = if is_active_project {
            owned("*")
        } else {
            String::new()
        };
        let primary_text = owned(project_entry.get_name());
        let secondary_text = match &project_entry.project_directory {
            Some(directory) => directory.clone(),
            None => owned("<unknown>"),
        };
        let row = if state.focus_target != ProjectExplorerFocusTarget::ProjectList {
            PaneEntryRow::disabled(marker_text, primary_text, Some(secondary_text))
        } else if is_selected_project {
            PaneEntryRow::selected(marker_text, primary_text, Some(secondary_text))
        } else {
            PaneEntryRow::normal(marker_text, primary_text, Some(secondary_text))
        };
        proof {
            let k = position - visible_range.start;
            assert(expected[k] == spec_project_entry_row(*state, visible_range.start + k));
            assert(row@.marker_text =~= expected[k].marker_text);
            assert(row@ == expected[k]);
        }
        entry_rows.push(row);
        position = position + 1;
    }
    assert(entry_rows@.map_values(|row: PaneEntryRow| row@) =~= expected);
    entry_rows
}

/// Two spaces per level of depth, as many as fit in a `usize`.
pub open spec fn spec_indentation(depth: usize) -> Seq<char> {
    let width: nat = if depth * 2 <= usize::MAX {
        (depth * 2) as nat
    } else {
        usize::MAX as nat
    };
    Seq::new(width, |position: int| ' ')
}

/// The marker of an item row: `*` for an activated item, then `-` for an expanded
/// directory, `+` for a collapsed one, and a space for a file.
pub open spec fn spec_project_item_marker(entry: ProjectHierarchyEntry) -> Seq<char> {
    (if entry.is_activated {
        "*"@
    } else {
        " "@
    }) + (if entry.is_directory {
        if entry.is_expanded {
            "-"@
        } else {
            "+"@
        }
    } else {
        " "@
    })
}

/// The row of the project item at `position`: its marker, its indented name and its path,
/// drawn disabled unless the hierarchy has focus.
pub open spec fn spec_project_item_entry_row(state: ProjectExplorerPaneState, position: int) -> PaneEntryRowView {
    let entry = state.project_item_visible_entries@[position];
    PaneEntryRowView {
        tone: if state.focus_target != ProjectExplorerFocusTarget::ProjectHierarchy {
            PaneEntryRowTone::Disabled
        } else if state.selected_project_item_visible_index == Some(position as usize) {
            PaneEntryRowTone::Selected
        } else {
            PaneEntryRowTone::Normal
        },
        marker_text: spec_project_item_marker(entry),
        primary_text: spec_indentation(entry.depth) + entry.display_name@,
        secondary_text: Some(entry.project_item_path@),
    }
}

/// The rows of the project items inside the selection-relative window.
pub open spec fn spec_visible_project_item_entry_rows(state: ProjectExplorerPaneState, viewport_capacity: nat) -> Seq<PaneEntryRowView> {
    let count = state.project_item_visible_entries@.len();
    let start = spec_viewport_start(count, state.selected_project_item_visible_index, viewport_capacity);
    Seq::new(spec_viewport_len(count, viewport_capacity), |offset: int| spec_project_item_entry_row(state, start + offset))
}

fn indentation(depth: usize) -> (text: String)
    ensures
        text@ == spec_indentation(depth),
{
    let width: usize = if depth <= usize::MAX / 2 {
        depth * 2
    } else {
        usize::MAX
    };
    let mut text = String::new();
    let mut count: usize = 0;
    while count < width
        invariant
            count <= width,
            text@ == Seq::new(count as nat, |position: int| ' '),
        decreases width - count,
    {
        push_char(&mut text, ' ');
        count = count + 1;
        assert(text@ =~= Seq::new(count as nat, |position: int| ' '));
    }
    assert(text@ =~= spec_indentation(depth));
    text
}

fn project_item_marker(entry: &ProjectHierarchyEntry) -> (marker: String)
    ensures
        marker@ == spec_project_item_marker(*entry),
{
    let mut marker = if entry.is_activated {
        owned("*")
    } else {
        owned(" ")
    };
    if entry.is_directory {
        if entry.is_expanded {
            marker.append("-");
        } else {
            marker.append("+");
        }
    } else {
        marker.append(" ");
    }
    marker
}

/// Builds the project item rows inside the selection-relative window.
pub fn build_visible_project_item_entry_rows(project_explorer_pane_state: &ProjectExplorerPaneState, viewport_capacity: usize) -> (entry_rows: Vec<PaneEntryRow>)
    ensures
        entry_rows@.map_values(|row: PaneEntryRow| row@) == spec_visible_project_item_entry_rows(
            *project_explorer_pane_state,
            viewport_capacity as nat,
        ),
{
    let state = project_explorer_pane_state;
    let visible_range = build_selection_relative_viewport_range(
        state.project_item_visible_entries.len(),
        state.selected_project_item_visible_index,
        viewport_capacity,
    );
    let ghost expected = spec_visible_project_item_entry_rows(*state, viewport_capacity as nat);
    let mut entry_rows: Vec<PaneEntryRow> = Vec::new();
    let mut position: usize = visible_range.start;
    while position < visible_range.end
        invariant
            visible_range.start <= position <= visible_range.end,
            visible_range.end <= state.project_item_visible_entries@.len(),
            expected.len() == visible_range.end - visible_range.start,
            forall|k: int| 0 <= k < expected.len() ==> #[trigger] expected[k] == spec_project_item_entry_row(*state, visible_range.start + k),
            entry_rows@.len() == position - visible_range.start,
            forall|k: int| 0 <= k < entry_rows@.len() ==> #[trigger] entry_rows@[k]@ == expected[k],
        decreases visible_range.end - position,
    {
        let item_entry = &state.project_item_visible_entries[position];
        let is_selected_item = match state.selected_project_item_visible_index {
            Some(index) => index == position,
            None => false,
        };
        let marker_text = project_item_marker(item_entry);
        let mut primary_text = indentation(item_entry.depth);
        primary_text.append(item_entry.display_name.as_str());
        let secondary_text = item_entry.project_item_path.clone();
        let row = if state.focus_target != ProjectExplorerFocusTarget::ProjectHierarchy {
            PaneEntryRow::disabled(marker_text, primary_text, Some(secondary_text))
        } else if is_selected_item {
            PaneEntryRow::selected(marker_text, primary_text, Some(secondary_text))
        } else {
            PaneEntryRow::normal(marker_text, primary_text, Some(secondary_text))
        };
        proof {
            let k = position - visible_range.start;
            assert(expected[k] == spec_project_item_entry_row(*state, visible_range.start + k));
            assert(row@ == expected[k]);
        }
        entry_rows.push(row);
        position = position + 1;
    }
    assert(entry_rows@.map_values(|row: PaneEntryRow| row@) =~= expected);
    entry_rows
}

} // verus!
