use vstd::prelude::*;
use crate::pane_entry_row::{PaneEntryRow, PaneEntryRowTone, PaneEntryRowView};
use crate::selection::{
    spec_next_wrapping, spec_previous_wrapping, next_wrapping, previous_wrapping, spec_first_index,
    lemma_first_index_step,
};
use crate::text::{
    spec_decimal, spec_bool_text, spec_texts, push_decimal, push_decimal_usize, push_bool, push_char,
    pop_char, owned, spec_non_blank_trimmed, non_blank_trimmed,
};
use crate::viewport::{build_selection_relative_viewport_range, spec_viewport_start, spec_viewport_len};

verus! {

/// A process that can be opened: its identifier, its name, and whether it owns a window.
pub struct ProcessInfo {
    pub process_id: u32,
    pub name: String,
    pub is_windowed: bool,
}

impl ProcessInfo {
    pub fn new(process_id: u32, name: String, is_windowed: bool) -> (process_info: ProcessInfo)
        ensures
            process_info.process_id == process_id,
            process_info.name == name,
            process_info.is_windowed == is_windowed,
    {
        ProcessInfo { process_id, name, is_windowed }
    }
}

/// The process the engine has opened.
pub struct OpenedProcessInfo {
    pub process_id: u32,
    pub name: String,
}

/// Text input mode for process selector search workflows.
#[derive(Clone, Copy, Debug, PartialEq, Eq, Structural)]
pub enum ProcessSelectorInputMode {
    NoInput,
    Search,
}

/// Stores UI state for process selection workflows.
pub struct ProcessSelectorPaneState {
    pub selected_process_identifier: Option<u32>,
    pub selected_process_name: Option<String>,
    pub show_windowed_processes_only: bool,
    pub process_list_entries: Vec<ProcessInfo>,
    pub selected_process_list_index: Option<usize>,
    pub opened_process_identifier: Option<u32>,
    pub opened_process_name: Option<String>,
    pub has_loaded_process_list_once: bool,
    pub is_awaiting_process_list_response: bool,
    pub is_opening_process: bool,
    pub is_process_selector_view_active: bool,
    pub input_mode: ProcessSelectorInputMode,
    pub pending_search_name_input: String,
    pub status_message: String,
}

/// The position of the first process with the given identifier.
pub open spec fn spec_process_position(entries: Seq<ProcessInfo>, process_id: u32) -> Option<int> {
    spec_first_index(entries, |entry: ProcessInfo| entry.process_id == process_id)
}

/// Whether a character may be typed into the process search box: printable ASCII or space.
pub open spec fn spec_is_supported_search_character(character: char) -> bool {
    0x20 <= character as u32 <= 0x7E
}

impl ProcessSelectorPaneState {
    /// The selected-process fields follow the selected index: the entry's identifier and
    /// name, or nothing when the index is missing or out of range.
    pub open spec fn spec_selection_fields_follow_index(&self) -> bool {
        match self.selected_process_list_index {
            Some(index) if index < self.process_list_entries@.len() => {
                &&& self.selected_process_identifier == Some(self.process_list_entries@[index as int].process_id)
                &&& self.selected_process_name matches Some(name) && name@ == self.process_list_entries@[index as int].name@
            },
            _ => self.selected_process_identifier is None && self.selected_process_name is None,
        }
    }

    /// Everything but the selection and the list is as in `other`.
    pub open spec fn spec_same_except_selection(&self, other: &Self) -> bool {
        &&& self.show_windowed_processes_only == other.show_windowed_processes_only
        &&& self.opened_process_identifier == other.opened_process_identifier
        &&& self.opened_process_name == other.opened_process_name
        &&& self.has_loaded_process_list_once == other.has_loaded_process_list_once
        &&& self.is_awaiting_process_list_response == other.is_awaiting_process_list_response
        &&& self.is_opening_process == other.is_opening_process
        &&& self.is_process_selector_view_active == other.is_process_selector_view_active
        &&& self.input_mode == other.input_mode
        &&& self.pending_search_name_input == other.pending_search_name_input
        &&& self.status_message == other.status_message
    }

    pub fn set_windowed_filter(&mut self, show_windowed_processes_only: bool)
        ensures
            *final(self) == (ProcessSelectorPaneState { show_windowed_processes_only, ..*old(self) }),
    {
        self.show_windowed_processes_only = show_windowed_processes_only;
    }

    /// Replaces the process list. The process selected before keeps its selection when it is
    /// still listed; otherwise the first process is selected, or none in an empty list.
    pub fn apply_process_list(&mut self, process_entries: Vec<ProcessInfo>)
        ensures
            final(self).process_list_entries@ == process_entries@,
            final(self).selected_process_list_index == match old(self).selected_process_identifier {
                Some(process_id) if spec_process_position(process_entries@, process_id) is Some =>
                    Some(spec_process_position(process_entries@, process_id).unwrap() as usize),
                _ => if process_entries@.len() == 0 {
                    None
                } else {
                    Some(0usize)
                },
            },
            final(self).spec_selection_fields_follow_index(),
            final(self).spec_same_except_selection(&*old(self)),
    {
        let selected_process_identifier_before_refresh = self.selected_process_identifier;
        self.process_list_entries = process_entries;
        let mut restored_index: Option<usize> = None;
        if let Some(selected_process_identifier) = selected_process_identifier_before_refresh {
            let mut position: usize = 0;
            while position < self.process_list_entries.len()
                invariant_except_break
                    restored_index is None,
                invariant
                    position <= self.process_list_entries@.len(),
                    spec_process_position(self.process_list_entries@.subrange(0, position as int), selected_process_identifier) is None,
                ensures
                    restored_index is None ==> position == self.process_list_entries@.len(),
                    restored_index matches Some(index) ==> index == position && position
                        < self.process_list_entries@.len() && self.process_list_entries@[index as int].process_id
                        == selected_process_identifier,
                decreases self.process_list_entries@.len() - position,
            {
                proof {
                    lemma_first_index_step(
                        self.process_list_entries@,
                        |entry: ProcessInfo| entry.process_id == selected_process_identifier,
                        position as int,
                    );
                }
                if self.process_list_entries[position].process_id == selected_process_identifier {
                    restored_index = Some(position);
                    break;
                }
                position = position + 1;
            }
            proof {
                if restored_index is None {
                    assert(self.process_list_entries@.subrange(0, self.process_list_entries@.len() as int) =~= self.process_list_entries@);
                } else {
                    lemma_first_prefix_extends(self.process_list_entries@, selected_process_identifier, position as int);
                }
            }
        }
        self.selected_process_list_index = match restored_index {
            Some(index) => Some(index),
            None => if self.process_list_entries.len() == 0 {
                None
            } else {
                Some(0)
            },
        };
        self.update_selected_process_fields();
    }

    pub fn select_next_process(&mut self)
        ensures
            final(self).process_list_entries == old(self).process_list_entries,
            final(self).selected_process_list_index == spec_next_wrapping(
                old(self).selected_process_list_index,
                old(self).process_list_entries@.len(),
            ),
            final(self).spec_selection_fields_follow_index(),
            final(self).spec_same_except_selection(&*old(self)),
    {
        self.selected_process_list_index = next_wrapping(self.selected_process_list_index, self.process_list_entries.len());
        self.update_selected_process_fields();
    }

    pub fn select_previous_process(&mut self)
        ensures
            final(self).process_list_entries == old(self).process_list_entries,
            final(self).selected_process_list_index == spec_previous_wrapping(
                old(self).selected_process_list_index,
                old(self).process_list_entries@.len(),
            ),
            final(self).spec_selection_fields_follow_index(),
            final(self).spec_same_except_selection(&*old(self)),
    {
        self.selected_process_list_index = previous_wrapping(self.selected_process_list_index, self.process_list_entries.len());
        self.update_selected_process_fields();
    }

    /// The identifier of the process at the selected index, if the index is in range.
    pub fn selected_process_id(&self) -> (process_id: Option<u32>)
        ensures
            process_id == match self.selected_process_list_index {
                Some(index) if index < self.process_list_entries@.len() => Some(
                    self.process_list_entries@[index as int].process_id,
                ),
                _ => None,
            },
    {
        match self.selected_process_list_index {
            Some(index) => if index < self.process_list_entries.len() {
                Some(self.process_list_entries[index].process_id)
            } else {
                None
            },
            None => None,
        }
    }

    /// Records the opened process; with one the selector view closes, without one it opens.
    pub fn set_opened_process(&mut self, opened_process: Option<OpenedProcessInfo>)
        ensures
            match opened_process {
                Some(info) => {
                    &&& final(self).opened_process_identifier == Some(info.process_id)
                    &&& final(self).opened_process_name == Some(info.name)
                    &&& !final(self).is_process_selector_view_active
                },
                None => {
                    &&& final(self).opened_process_identifier is None
                    &&& final(self).opened_process_name is None
                    &&& final(self).is_process_selector_view_active
                },
            },
            *final(self) == (ProcessSelectorPaneState {
                opened_process_identifier: final(self).opened_process_identifier,
                opened_process_name: final(self).opened_process_name,
                is_process_selector_view_active: final(self).is_process_selector_view_active,
                ..*old(self)
            }),
    {
        match opened_process {
            Some(opened_process_info) => {
                self.opened_process_identifier = Some(opened_process_info.process_id);
                self.opened_process_name = Some(opened_process_info.name);
                self.is_process_selector_view_active = false;
            },
            None => {
                self.opened_process_identifier = None;
                self.opened_process_name = None;
                self.is_process_selector_view_active = true;
            },
        }
    }

    pub fn activate_process_selector_view(&mut self)
        ensures
            final(self).is_process_selector_view_active,
            final(self).input_mode == old(self).input_mode,
            final(self).process_list_entries == old(self).process_list_entries,
            final(self).selected_process_list_index == old(self).selected_process_list_index,
            final(self).opened_process_identifier == old(self).opened_process_identifier,
    {
        self.is_process_selector_view_active = true;
    }

    pub fn begin_search_input(&mut self)
        ensures
            final(self).input_mode == ProcessSelectorInputMode::Search,
            final(self).pending_search_name_input == old(self).pending_search_name_input,
            final(self).process_list_entries == old(self).process_list_entries,
            final(self).selected_process_list_index == old(self).selected_process_list_index,
    {
        self.input_mode = ProcessSelectorInputMode::Search;
    }

    /// Leaves search input, keeping the typed search text.
    pub fn commit_search_input(&mut self)
        ensures
            final(self).input_mode == ProcessSelectorInputMode::NoInput,
            final(self).pending_search_name_input == old(self).pending_search_name_input,
            final(self).process_list_entries == old(self).process_list_entries,
            final(self).selected_process_list_index == old(self).selected_process_list_index,
    {
        self.input_mode = ProcessSelectorInputMode::NoInput;
    }

    /// Leaves search input and discards the typed search text.
    pub fn cancel_search_input(&mut self)
        ensures
            final(self).input_mode == ProcessSelectorInputMode::NoInput,
            final(self).pending_search_name_input@.len() == 0,
            final(self).process_list_entries == old(self).process_list_entries,
            final(self).selected_process_list_index == old(self).selected_process_list_index,
    {
        self.input_mode = ProcessSelectorInputMode::NoInput;
        self.pending_search_name_input = String::new();
    }

    /// Types one character into the search text; unsupported characters are ignored.
    pub fn append_pending_search_character(&mut self, pending_character: char)
        ensures
            final(self).pending_search_name_input@ == if spec_is_supported_search_character(pending_character) {
                old(self).pending_search_name_input@.push(pending_character)
            } else {
                old(self).pending_search_name_input@
            },
            final(self).input_mode == old(self).input_mode,
            final(self).process_list_entries == old(self).process_list_entries,
            final(self).selected_process_list_index == old(self).selected_process_list_index,
    {
        if !Self::is_supported_search_character(pending_character) {
            return;
        }
        push_char(&mut self.pending_search_name_input, pending_character);
    }

    /// Deletes the last character of the search text, if any.
    pub fn backspace_pending_search_name(&mut self)
        ensures
            final(self).pending_search_name_input@ == if old(self).pending_search_name_input@.len() == 0 {
                old(self).pending_search_name_input@
            } else {
                old(self).pending_search_name_input@.drop_last()
            },
            final(self).input_mode == old(self).input_mode,
            final(self).process_list_entries == old(self).process_list_entries,
            final(self).selected_process_list_index == old(self).selected_process_list_index,
    {
        let _ = pop_char(&mut self.pending_search_name_input);
    }

    pub fn clear_pending_search_name(&mut self)
        ensures
            final(self).pending_search_name_input@.len() == 0,
            final(self).input_mode == old(self).input_mode,
            final(self).process_list_entries == old(self).process_list_entries,
            final(self).selected_process_list_index == old(self).selected_process_list_index,
    {
        self.pending_search_name_input = String::new();
    }

    /// The search text without surrounding white space, or `None` when it is blank.
    pub fn pending_search_name_trimmed(&self) -> (search_name: Option<String>)
        ensures
            search_name is None <==> spec_non_blank_trimmed(self.pending_search_name_input@) is None,
            search_name matches Some(name) ==> spec_non_blank_trimmed(self.pending_search_name_input@)
                == Some(name@),
    {
        non_blank_trimmed(self.pending_search_name_input.as_str())
    }

    pub fn summary_lines(&self) -> (summary_lines: Vec<String>)
        ensures
            spec_texts(summary_lines@) == spec_process_selector_summary_lines(*self),
    {
        build_process_selector_summary_lines(self)
    }

    pub fn visible_process_entry_rows(&self, viewport_capacity: usize) -> (entry_rows: Vec<PaneEntryRow>)
        ensures
            entry_rows@.map_values(|row: PaneEntryRow| row@) == spec_visible_process_entry_rows(
                *self,
                viewport_capacity as nat,
            ),
    {
        build_visible_process_entry_rows(self, viewport_capacity)
    }

    fn update_selected_process_fields(&mut self)
        ensures
            final(self).process_list_entries == old(self).process_list_entries,
            final(self).selected_process_list_index == old(self).selected_process_list_index,
            final(self).spec_selection_fields_follow_index(),
            final(self).spec_same_except_selection(&*old(self)),
    {
        if let Some(selected_process_index) = self.selected_process_list_index {
            if selected_process_index < self.process_list_entries.len() {
                let selected_process_entry = &self.process_list_entries[selected_process_index];
                self.selected_process_identifier = Some(selected_process_entry.process_id);
                self.selected_process_name = Some(selected_process_entry.name.clone());
                return;
            }
        }
        self.selected_process_identifier = None;
        self.selected_process_name = None;
    }

    fn is_supported_search_character(pending_character: char) -> (is_supported: bool)
        ensures
            is_supported == spec_is_supported_search_character(pending_character),
    {
        let code = pending_character as u32;
        0x20 <= code && code <= 0x7E
    }
}

/// The first match found at `position` is the first match of the whole list.
proof fn lemma_first_prefix_extends(entries: Seq<ProcessInfo>, process_id: u32, position: int)
    requires
        0 <= position < entries.len(),
        entries[position].process_id == process_id,
        spec_process_position(entries.subrange(0, position), process_id) is None,
    ensures
        spec_process_position(entries, process_id) == Some(position),
{
    let matches = |entry: ProcessInfo| entry.process_id == process_id;
    lemma_first_index_step(entries, matches, position);
    crate::selection::lemma_first_index_extends(entries, matches, position + 1);
}

impl Default for ProcessSelectorPaneState {
    fn default() -> (state: ProcessSelectorPaneState)
        ensures
            state.selected_process_identifier is None,
            state.selected_process_name is None,
            !state.show_windowed_processes_only,
            state.process_list_entries@.len() == 0,
            state.selected_process_list_index is None,
            state.opened_process_identifier is None,
            state.opened_process_name is None,
            !state.has_loaded_process_list_once,
            !state.is_awaiting_process_list_response,
            !state.is_opening_process,
            state.is_process_selector_view_active,
            state.input_mode == ProcessSelectorInputMode::NoInput,
            state.pending_search_name_input@.len() == 0,
            state.status_message@ == "Ready."@,
    {
        ProcessSelectorPaneState {
            selected_process_identifier: None,
            selected_process_name: None,
            show_windowed_processes_only: false,
            process_list_entries: Vec::new(),
            selected_process_list_index: None,
            opened_process_identifier: None,
            opened_process_name: None,
            has_loaded_process_list_once: false,
            is_awaiting_process_list_response: false,
            is_opening_process: false,
            is_process_selector_view_active: true,
            input_mode: ProcessSelectorInputMode::NoInput,
            pending_search_name_input: String::new(),
            status_message: owned("Ready."),
        }
    }
}

/// Compact text of an optional number: its decimal text, or `none`.
pub open spec fn spec_option_to_compact_text(option_value: Option<u32>) -> Seq<char> {
    match option_value {
        Some(value) => spec_decimal(value as nat),
        None => "none"@,
    }
}

/// Compact text of an optional name: the name in double quotes, or `none`.
pub open spec fn spec_option_string_to_compact_text(option_text: Option<Seq<char>>) -> Seq<char> {
    match option_text {
        Some(text) => "\""@ + text + "\""@,
        None => "none"@,
    }
}

pub open spec fn spec_option_string_view(option_text: Option<String>) -> Option<Seq<char>> {
    match option_text {
        Some(text) => Some(text@),
        None => None,
    }
}

pub fn option_to_compact_text(option_value: Option<u32>) -> (text: String)
    ensures
        text@ == spec_option_to_compact_text(option_value),
{
    match option_value {
        Some(value) => {
            let mut text = String::new();
            push_decimal(&mut text, value as u64);
            assert(text@ =~= spec_decimal(value as nat));
            text
        },
        None => owned("none"),
    }
}

pub fn option_string_to_compact_text(option_text: Option<&str>) -> (text: String)
    ensures
        text@ == match option_text {
            Some(value) => "\""@ + value@ + "\""@,
            None => "none"@,
        },
{
    match option_text {
        Some(value) => {
            let mut text = owned("\"");
            text.append(value);
            text.append("\"");
            text
        },
        None => owned("none"),
    }
}

fn option_string_as_str(option_text: &Option<String>) -> (text: Option<&str>)
    ensures
        match option_text {
            Some(value) => text matches Some(slice) && slice@ == value@,
            None => text is None,
        },
{
    match option_text {
        Some(value) => Some(value.as_str()),
        None => None,
    }
}

/// The process selector summary lines.
pub open spec fn spec_process_selector_summary_lines(state: ProcessSelectorPaneState) -> Seq<Seq<char>> {
    seq![
        "[ACT] r refresh | w windowed/full | Enter/o open."@,
        "[NAV] Up/Down or j/k select."@,
        "[MODE] windowed_only="@ + spec_bool_text(state.show_windowed_processes_only) + " | loaded_once="@
            + spec_bool_text(state.has_loaded_process_list_once) + "."@,
        "[LIST] count="@ + spec_decimal(state.process_list_entries@.len()) + " | awaiting="@
            + spec_bool_text(state.is_awaiting_process_list_response) + " | opening="@
            + spec_bool_text(state.is_opening_process) + "."@,
        "[SEL] id="@ + spec_option_to_compact_text(state.selected_process_identifier) + " | name="@
            + spec_option_string_to_compact_text(spec_option_string_view(state.selected_process_name)) + "."@,
        "[OPEN] id="@ + spec_option_to_compact_text(state.opened_process_identifier) + " | name="@
            + spec_option_string_to_compact_text(spec_option_string_view(state.opened_process_name)) + "."@,
        "[STAT] "@ + state.status_message@ + "."@,
        "[ROWS] top=5."@,
    ]
}

pub fn build_process_selector_summary_lines(process_selector_pane_state: &ProcessSelectorPaneState) -> (summary_lines: Vec<String>)
    ensures
        spec_texts(summary_lines@) == spec_process_selector_summary_lines(*process_selector_pane_state),
{
    let state = process_selector_pane_state;
    let mut summary_lines: Vec<String> = Vec::new();
    summary_lines.push(owned("[ACT] r refresh | w windowed/full | Enter/o open."));
    summary_lines.push(owned("[NAV] Up/Down or j/k select."));
    let mut line = owned("[MODE] windowed_only=");
    push_bool(&mut line, state.show_windowed_processes_only);
    line.append(" | loaded_once=");
    push_bool(&mut line, state.has_loaded_process_list_once);
    line.append(".");
    summary_lines.push(line);
    let mut line = owned("[LIST] count=");
    push_decimal_usize(&mut line, state.process_list_entries.len());
    line.append(" | awaiting=");
    push_bool(&mut line, state.is_awaiting_process_list_response);
    line.append(" | opening=");
    push_bool(&mut line, state.is_opening_process);
    line.append(".");
    summary_lines.push(line);
    let mut line = owned("[SEL] id=");
    line.append(option_to_compact_text(state.selected_process_identifier).as_str());
    line.append(" | name=");
    line.append(option_string_to_compact_text(option_string_as_str(&state.selected_process_name)).as_str());
    line.append(".");
    summary_lines.push(line);
    let mut line = owned("[OPEN] id=");
    line.append(option_to_compact_text(state.opened_process_identifier).as_str());
    line.append(" | name=");
    line.append(option_string_to_compact_text(option_string_as_str(&state.opened_process_name)).as_str());
    line.append(".");
    summary_lines.push(line);
    let mut line = owned("[STAT] ");
    line.append(state.status_message.as_str());
    line.append(".");
    summary_lines.push(line);
    summary_lines.push(owned("[ROWS] top=5."));
    assert(spec_texts(summary_lines@) =~= spec_process_selector_summary_lines(*state));
    summary_lines
}

/// The entry row for the process at `position`: marked `*` when it is the opened process,
/// its name, `pid=<id>`, and emphasised when selected.
pub open spec fn spec_process_entry_row(state: ProcessSelectorPaneState, position: int) -> PaneEntryRowView {
    let entry = state.process_list_entries@[position];
    PaneEntryRowView {
        tone: if state.selected_process_list_index == Some(position as usize) {
            PaneEntryRowTone::Selected
        } else {
            PaneEntryRowTone::Normal
        },
        marker_text: if state.opened_process_identifier == Some(entry.process_id) {
            "*"@
        } else {
            Seq::empty()
        },
        primary_text: entry.name@,
        secondary_text: Some("pid="@ + spec_decimal(entry.process_id as nat)),
    }
}

/// The rows of the processes inside the selection-relative window.
pub open spec fn spec_visible_process_entry_rows(state: ProcessSelectorPaneState, viewport_capacity: nat) -> Seq<PaneEntryRowView> {
    let count = state.process_list_entries@.len();
    let start = spec_viewport_start(count, state.selected_process_list_index, viewport_capacity);
    Seq::new(
        spec_viewport_len(count, viewport_capacity),
        |offset: int| spec_process_entry_row(state, start + offset),
    )
}

pub fn build_visible_process_entry_rows(process_selector_pane_state: &ProcessSelectorPaneState, viewport_capacity: usize) -> (entry_rows: Vec<PaneEntryRow>)
    ensures
        entry_rows@.map_values(|row: PaneEntryRow| row@) == spec_visible_process_entry_rows(
            *process_selector_pane_state,
            viewport_capacity as nat,
        ),
{
    let state = process_selector_pane_state;
    let visible_range = build_selection_relative_viewport_range(
        state.process_list_entries.len(),
        state.selected_process_list_index,
        viewport_capacity,
    );
    let ghost expected = spec_visible_process_entry_rows(*state, viewport_capacity as nat);
    let mut entry_rows: Vec<PaneEntryRow> = Vec::new();
    let mut position: usize = visible_range.start;
    while position < visible_range.end
        invariant
            visible_range.start <= position <= visible_range.end,
            visible_range.end <= state.process_list_entries@.len(),
            expected.len() == visible_range.end - visible_range.start,
            forall|k: int| 0 <= k < expected.len() ==> #[trigger] expected[k] == spec_process_entry_row(*state, visible_range.start + k),
            entry_rows@.len() == position - visible_range.start,
            forall|k: int| 0 <= k < entry_rows@.len() ==> #[trigger] entry_rows@[k]@ == expected[k],
        decreases visible_range.end - position,
    {
        let process_entry = &state.process_list_entries[position];
        let is_selected_process = match state.selected_process_list_index {
            Some(index) => index == position,
            None => false,
        };
        let is_opened_process = match state.opened_process_identifier {
            Some(process_id) => process_id == process_entry.process_id,
            None => false,
        };
        let marker_text = if is_opened_process {
            owned("*")
        } else {
            String::new()
        };
        let primary_text = process_entry.name.clone();
        let mut secondary_text = owned("pid=");
        push_decimal(&mut secondary_text, process_entry.process_id as u64);
        let row = if is_selected_process {
            PaneEntryRow::selected(marker_text, primary_text, Some(secondary_text))
        } else {
            PaneEntryRow::normal(marker_text, primary_text, Some(secondary_text))
        };
        proof {
            let k = position - visible_range.start;
            assert(expected[k] == spec_process_entry_row(*state, visible_range.start + k));
            assert(row@.marker_text =~= expected[k].marker_text);
            assert(row@.secondary_text matches Some(text) && text =~= "pid="@ + spec_decimal(process_entry.process_id as nat));
            assert(row@ == expected[k]);
        }
        entry_rows.push(row);
        position = position + 1;
    }
    assert(entry_rows@.map_values(|row: PaneEntryRow| row@) =~= expected);
    entry_rows
}

} // verus!
