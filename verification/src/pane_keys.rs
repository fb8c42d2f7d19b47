use vstd::prelude::*;
use crate::element_scanner::{
    ElementScannerPaneState, ScanCompareType, ScanCompareTypeImmediate, spec_compare_type_at, spec_compare_type_position,
    spec_is_supported_value_character, MAX_CONSTRAINT_COUNT, SUPPORTED_COMPARE_TYPE_COUNT, SUPPORTED_DATA_TYPE_COUNT,
};
use crate::key_routing::{KeyCode, KeyInput};
use crate::settings::{SettingsPaneState, spec_is_boolean_field, spec_is_numeric_field, spec_is_enum_field};
use crate::output::{OutputPaneState, spec_keep_latest, LOG_LINE_LIMIT_STEP, MAX_LOG_LINE_LIMIT, MIN_LOG_LINE_LIMIT};
use crate::process_selector::ProcessSelectorPaneState;
use crate::project_explorer::{
    ProjectExplorerFocusTarget, ProjectExplorerPaneState, ProjectSelectorInputMode, spec_is_supported_project_name_character,
};
use crate::scan_results::{ScanResultsPaneState, spec_is_supported_value_edit_character, spec_min_u64};
use crate::selection::{spec_next_wrapping, spec_previous_wrapping};
use crate::text::owned;

verus! {

/// The engine request that a settings key asks for.
#[derive(Clone, Copy, Debug, PartialEq, Eq, Structural)]
pub enum SettingsKeyAction {
    NoAction,
    RefreshAllCategories,
    ApplySelectedCategory,
}

/// The settings pane after a key: `]`/`[` change category, Down/`j` and Up/`k` change
/// field, Space toggles, `+`/`=` and `-` step, `>`/`.` and `<`/`,` cycle a choice.
pub open spec fn spec_settings_after_key(state: SettingsPaneState, key_code: KeyCode) -> SettingsPaneState {
    if key_code == KeyCode::Char(']') {
        state.spec_after_cycle_category(true)
    } else if key_code == KeyCode::Char('[') {
        state.spec_after_cycle_category(false)
    } else if key_code == KeyCode::Down || key_code == KeyCode::Char('j') {
        state.spec_after_select_next_field()
    } else if key_code == KeyCode::Up || key_code == KeyCode::Char('k') {
        state.spec_after_select_previous_field()
    } else if key_code == KeyCode::Char(' ') {
        state.spec_after_toggle()
    } else if key_code == KeyCode::Char('+') || key_code == KeyCode::Char('=') {
        state.spec_after_step(true)
    } else if key_code == KeyCode::Char('-') {
        state.spec_after_step(false)
    } else if key_code == KeyCode::Char('>') || key_code == KeyCode::Char('.') {
        state.spec_after_cycle_enum(true)
    } else if key_code == KeyCode::Char('<') || key_code == KeyCode::Char(',') {
        state.spec_after_cycle_enum(false)
    } else {
        state
    }
}

/// The request a settings key asks for: `r` reloads every category, Enter applies the
/// selected category, and an edit of a field applies it when the field took the edit.
pub open spec fn spec_settings_key_action(state: SettingsPaneState, key_code: KeyCode) -> SettingsKeyAction {
    let field = state.selected_field_index as nat;
    let category = state.selected_category;
    let did_edit = if key_code == KeyCode::Char(' ') {
        spec_is_boolean_field(category, field)
    } else if key_code == KeyCode::Char('+') || key_code == KeyCode::Char('=') || key_code == KeyCode::Char('-') {
        spec_is_numeric_field(category, field)
    } else if key_code == KeyCode::Char('>') || key_code == KeyCode::Char('.') || key_code == KeyCode::Char('<')
        || key_code == KeyCode::Char(',') {
        spec_is_enum_field(category, field)
    } else {
        false
    };
    if key_code == KeyCode::Char('r') {
        SettingsKeyAction::RefreshAllCategories
    } else if key_code == KeyCode::Enter || did_edit {
        SettingsKeyAction::ApplySelectedCategory
    } else {
        SettingsKeyAction::NoAction
    }
}

/// Applies a key to the settings pane and returns the engine request it asks for.
pub fn handle_settings_key(settings_pane_state: &mut SettingsPaneState, key_code: KeyCode) -> (action: SettingsKeyAction)
    ensures
        *final(settings_pane_state) == spec_settings_after_key(*old(settings_pane_state), key_code),
        action == spec_settings_key_action(*old(settings_pane_state), key_code),
{
    match key_code {
        KeyCode::Char('r') => SettingsKeyAction::RefreshAllCategories,
        KeyCode::Char(']') => {
            settings_pane_state.cycle_category_forward();
            SettingsKeyAction::NoAction
        },
        KeyCode::Char('[') => {
            settings_pane_state.cycle_category_backward();
            SettingsKeyAction::NoAction
        },
        KeyCode::Down | KeyCode::Char('j') => {
            settings_pane_state.select_next_field();
            SettingsKeyAction::NoAction
        },
        KeyCode::Up | KeyCode::Char('k') => {
            settings_pane_state.select_previous_field();
            SettingsKeyAction::NoAction
        },
        KeyCode::Char(' ') => apply_when_changed(settings_pane_state.toggle_selected_boolean_field()),
        KeyCode::Char('+') | KeyCode::Char('=') => apply_when_changed(settings_pane_state.step_selected_numeric_field(true)),
        KeyCode::Char('-') => apply_when_changed(settings_pane_state.step_selected_numeric_field(false)),
        KeyCode::Char('>') | KeyCode::Char('.') => apply_when_changed(settings_pane_state.cycle_selected_enum_field(true)),
        KeyCode::Char('<') | KeyCode::Char(',') => apply_when_changed(settings_pane_state.cycle_selected_enum_field(false)),
        KeyCode::Enter => SettingsKeyAction::ApplySelectedCategory,
        _ => SettingsKeyAction::NoAction,
    }
}

fn apply_when_changed(did_change_value: bool) -> (action: SettingsKeyAction)
    ensures
        action == if did_change_value {
            SettingsKeyAction::ApplySelectedCategory
        } else {
            SettingsKeyAction::NoAction
        },
{
    if did_change_value {
        SettingsKeyAction::ApplySelectedCategory
    } else {
        SettingsKeyAction::NoAction
    }
}


/// What the element scanner shows and edits, as plain values.
pub struct ElementScannerSnapshot {
    pub data_type_index: usize,
    pub rows: Seq<(ScanCompareType, Seq<char>)>,
    pub selected_row: usize,
    pub has_pending_scan_request: bool,
    pub has_scan_results: bool,
    pub last_result_count: u64,
    pub last_total_size_in_bytes: u64,
    pub status_message: Seq<char>,
}

pub open spec fn spec_element_scanner_snapshot(state: ElementScannerPaneState) -> ElementScannerSnapshot {
    ElementScannerSnapshot {
        data_type_index: state.selected_data_type_index,
        rows: state.spec_rows(),
        selected_row: state.selected_constraint_row_index,
        has_pending_scan_request: state.has_pending_scan_request,
        has_scan_results: state.has_scan_results,
        last_result_count: state.last_result_count,
        last_total_size_in_bytes: state.last_total_size_in_bytes,
        status_message: state.status_message@,
    }
}

/// The engine request that an element scanner key asks for.
#[derive(Clone, Copy, Debug, PartialEq, Eq, Structural)]
pub enum ElementScannerKeyAction {
    NoAction,
    StartScan,
    ResetScan,
    CollectValues,
}

pub open spec fn spec_element_scanner_key_action(key: KeyInput) -> ElementScannerKeyAction {
    if key.code == KeyCode::Char('s') {
        ElementScannerKeyAction::StartScan
    } else if key.code == KeyCode::Char('n') {
        ElementScannerKeyAction::ResetScan
    } else if key.code == KeyCode::Char('c') {
        ElementScannerKeyAction::CollectValues
    } else {
        ElementScannerKeyAction::NoAction
    }
}

/// The selected row with its value replaced.
pub open spec fn spec_with_selected_value(scanner: ElementScannerSnapshot, value: Seq<char>) -> ElementScannerSnapshot {
    let row = scanner.rows[scanner.selected_row as int];
    ElementScannerSnapshot { rows: scanner.rows.update(scanner.selected_row as int, (row.0, value)), ..scanner }
}

/// The selected row with its comparison replaced by the one at `position`.
pub open spec fn spec_with_selected_compare_type(scanner: ElementScannerSnapshot, position: nat) -> ElementScannerSnapshot {
    let row = scanner.rows[scanner.selected_row as int];
    ElementScannerSnapshot { rows: scanner.rows.update(scanner.selected_row as int, (spec_compare_type_at(position), row.1)), ..scanner }
}

/// The element scanner after a key: `t`/`T` cycle the data type, Down/`j` and Up/`k` the
/// row, `m`/`M` the row's comparison; `a` adds a row and `x` removes the selected one,
/// with a status message when the row count is at its limit; Backspace deletes a digit,
/// Control with `u` resets the value to `0`, and other characters are typed into it.
pub open spec fn spec_element_scanner_after_key(scanner: ElementScannerSnapshot, key: KeyInput) -> ElementScannerSnapshot {
    let count = scanner.rows.len();
    let selected = scanner.selected_row;
    let row = scanner.rows[selected as int];
    let compare_position = spec_compare_type_position(row.0);
    match key.code {
        KeyCode::Char(character) => if character == 's' || character == 'n' || character == 'c' {
            scanner
        } else if character == 't' {
            ElementScannerSnapshot {
                data_type_index: ((scanner.data_type_index + 1) % (SUPPORTED_DATA_TYPE_COUNT as int)) as usize,
                ..scanner
            }
        } else if character == 'T' {
            ElementScannerSnapshot {
                data_type_index: if scanner.data_type_index == 0 {
                    (SUPPORTED_DATA_TYPE_COUNT - 1) as usize
                } else {
                    (scanner.data_type_index - 1) as usize
                },
                ..scanner
            }
        } else if character == 'j' {
            ElementScannerSnapshot { selected_row: ((selected + 1) % (count as int)) as usize, ..scanner }
        } else if character == 'k' {
            ElementScannerSnapshot {
                selected_row: if selected == 0 {
                    (count - 1) as usize
                } else {
                    (selected - 1) as usize
                },
                ..scanner
            }
        } else if character == 'm' {
            spec_with_selected_compare_type(scanner, ((compare_position + 1) % (SUPPORTED_COMPARE_TYPE_COUNT as nat)) as nat)
        } else if character == 'M' {
            spec_with_selected_compare_type(
                scanner,
                if compare_position == 0 {
                    (SUPPORTED_COMPARE_TYPE_COUNT - 1) as nat
                } else {
                    (compare_position - 1) as nat
                },
            )
        } else if character == 'a' {
            if count < MAX_CONSTRAINT_COUNT {
                ElementScannerSnapshot {
                    rows: scanner.rows.push((
                        if count == 1 {
                            ScanCompareType::Immediate(ScanCompareTypeImmediate::LessThanOrEqual)
                        } else {
                            ScanCompareType::Immediate(ScanCompareTypeImmediate::Equal)
                        },
                        seq!['0'],
                    )),
                    selected_row: count as usize,
                    ..scanner
                }
            } else {
                ElementScannerSnapshot { status_message: "Maximum of five constraints reached."@, ..scanner }
            }
        } else if character == 'x' {
            if count > 1 {
                ElementScannerSnapshot {
                    rows: scanner.rows.remove(selected as int),
                    selected_row: if selected >= count - 1 {
                        (count - 2) as usize
                    } else {
                        selected
                    },
                    ..scanner
                }
            } else {
                ElementScannerSnapshot { status_message: "At least one constraint is required."@, ..scanner }
            }
        } else if character == 'u' && key.control {
            spec_with_selected_value(scanner, seq!['0'])
        } else if spec_is_supported_value_character(character) {
            spec_with_selected_value(scanner, row.1.push(character))
        } else {
            scanner
        },
        KeyCode::Down => ElementScannerSnapshot { selected_row: ((selected + 1) % (count as int)) as usize, ..scanner },
        KeyCode::Up => ElementScannerSnapshot {
            selected_row: if selected == 0 {
                (count - 1) as usize
            } else {
                (selected - 1) as usize
            },
            ..scanner
        },
        KeyCode::Backspace => spec_with_selected_value(
            scanner,
            if row.1.len() <= 1 {
                seq!['0']
            } else {
                row.1.drop_last()
            },
        ),
        _ => scanner,
    }
}

/// Applies a key to the element scanner and returns the engine request it asks for.
pub fn handle_element_scanner_key(element_scanner_pane_state: &mut ElementScannerPaneState, key: KeyInput) -> (action: ElementScannerKeyAction)
    requires
        old(element_scanner_pane_state).wf(),
    ensures
        final(element_scanner_pane_state).wf(),
        spec_element_scanner_snapshot(*final(element_scanner_pane_state)) == spec_element_scanner_after_key(
            spec_element_scanner_snapshot(*old(element_scanner_pane_state)),
            key,
        ),
        action == spec_element_scanner_key_action(key),
{
    let state = element_scanner_pane_state;
    let action = match key.code {
        KeyCode::Char('s') => ElementScannerKeyAction::StartScan,
        KeyCode::Char('n') => ElementScannerKeyAction::ResetScan,
        KeyCode::Char('c') => ElementScannerKeyAction::CollectValues,
        KeyCode::Char('t') => {
            state.cycle_data_type_forward();
            ElementScannerKeyAction::NoAction
        },
        KeyCode::Char('T') => {
            state.cycle_data_type_backward();
            ElementScannerKeyAction::NoAction
        },
        KeyCode::Char('j') | KeyCode::Down => {
            state.select_next_constraint();
            ElementScannerKeyAction::NoAction
        },
        KeyCode::Char('k') | KeyCode::Up => {
            state.select_previous_constraint();
            ElementScannerKeyAction::NoAction
        },
        KeyCode::Char('m') => {
            state.cycle_selected_constraint_compare_type_forward();
            ElementScannerKeyAction::NoAction
        },
        KeyCode::Char('M') => {
            state.cycle_selected_constraint_compare_type_backward();
            ElementScannerKeyAction::NoAction
        },
        KeyCode::Char('a') => {
            if !state.add_constraint() {
                state.status_message = owned("Maximum of five constraints reached.");
            }
            ElementScannerKeyAction::NoAction
        },
        KeyCode::Char('x') => {
            if !state.remove_selected_constraint() {
                state.status_message = owned("At least one constraint is required.");
            }
            ElementScannerKeyAction::NoAction
        },
        KeyCode::Backspace => {
            state.backspace_selected_constraint_value();
            ElementScannerKeyAction::NoAction
        },
        KeyCode::Char(character) => {
            if character == 'u' && key.control {
                state.clear_selected_constraint_value();
            } else {
                state.append_selected_constraint_value_character(character);
            }
            ElementScannerKeyAction::NoAction
        },
        _ => ElementScannerKeyAction::NoAction,
    };
    proof {
        lemma_rows_len(*state);
    }
    action
}

/// The row views are as many as the rows.
proof fn lemma_rows_len(state: ElementScannerPaneState)
    ensures
        state.spec_rows().len() == state.constraint_rows@.len(),
{
}


/// The engine request that a process selector key asks for.
#[derive(Clone, Copy, Debug, PartialEq, Eq, Structural)]
pub enum ProcessSelectorKeyAction {
    NoAction,
    RefreshProcessList,
    OpenSelectedProcess,
}

pub open spec fn spec_process_selector_key_action(key_code: KeyCode) -> ProcessSelectorKeyAction {
    if key_code == KeyCode::Char('r') || key_code == KeyCode::Char('w') {
        ProcessSelectorKeyAction::RefreshProcessList
    } else if key_code == KeyCode::Enter || key_code == KeyCode::Char('o') {
        ProcessSelectorKeyAction::OpenSelectedProcess
    } else {
        ProcessSelectorKeyAction::NoAction
    }
}

/// How a key changes the process selector: `w` flips the windowed-only filter, Down/`j` and
/// Up/`k` move the selection with wrap-around; other keys change nothing.
pub open spec fn spec_process_selector_after_key(
    before: ProcessSelectorPaneState,
    after: ProcessSelectorPaneState,
    key_code: KeyCode,
) -> bool {
    if key_code == KeyCode::Char('w') {
        after == (ProcessSelectorPaneState { show_windowed_processes_only: !before.show_windowed_processes_only, ..before })
    } else if key_code == KeyCode::Down || key_code == KeyCode::Char('j') || key_code == KeyCode::Up || key_code
        == KeyCode::Char('k') {
        &&& after.process_list_entries == before.process_list_entries
        &&& after.selected_process_list_index == if key_code == KeyCode::Down || key_code == KeyCode::Char('j') {
            spec_next_wrapping(before.selected_process_list_index, before.process_list_entries@.len())
        } else {
            spec_previous_wrapping(before.selected_process_list_index, before.process_list_entries@.len())
        }
        &&& after.spec_selection_fields_follow_index()
        &&& after.spec_same_except_selection(&before)
    } else {
        after == before
    }
}

/// Applies a key to the process selector and returns the engine request it asks for.
pub fn handle_process_selector_key(process_selector_pane_state: &mut ProcessSelectorPaneState, key_code: KeyCode) -> (action: ProcessSelectorKeyAction)
    ensures
        spec_process_selector_after_key(*old(process_selector_pane_state), *final(process_selector_pane_state), key_code),
        action == spec_process_selector_key_action(key_code),
{
    let state = process_selector_pane_state;
    match key_code {
        KeyCode::Char('r') => ProcessSelectorKeyAction::RefreshProcessList,
        KeyCode::Char('w') => {
            let updated_windowed_filter = !state.show_windowed_processes_only;
            state.set_windowed_filter(updated_windowed_filter);
            ProcessSelectorKeyAction::RefreshProcessList
        },
        KeyCode::Down | KeyCode::Char('j') => {
            state.select_next_process();
            ProcessSelectorKeyAction::NoAction
        },
        KeyCode::Up | KeyCode::Char('k') => {
            state.select_previous_process();
            ProcessSelectorKeyAction::NoAction
        },
        KeyCode::Enter | KeyCode::Char('o') => ProcessSelectorKeyAction::OpenSelectedProcess,
        _ => ProcessSelectorKeyAction::NoAction,
    }
}

/// The engine request that an output key asks for.
#[derive(Clone, Copy, Debug, PartialEq, Eq, Structural)]
pub enum OutputKeyAction {
    NoAction,
    RefreshLogHistory,
}

/// How a key changes the output pane: `x`/Delete clears the lines, `+`/`=` and `-` step
/// the retained line limit and drop the oldest lines beyond it.
pub open spec fn spec_output_after_key(before: OutputPaneState, after: OutputPaneState, key_code: KeyCode) -> bool {
    if key_code == KeyCode::Char('x') || key_code == KeyCode::Delete {
        &&& after.log_lines@.len() == 0
        &&& after.max_log_line_count == before.max_log_line_count
        &&& after.did_auto_scroll_to_latest
        &&& after.status_message@ == "Cleared output pane log lines."@
    } else if key_code == KeyCode::Char('+') || key_code == KeyCode::Char('=') || key_code == KeyCode::Char('-') {
        &&& after.max_log_line_count == if key_code == KeyCode::Char('-') {
            if before.max_log_line_count >= LOG_LINE_LIMIT_STEP + MIN_LOG_LINE_LIMIT {
                (before.max_log_line_count - LOG_LINE_LIMIT_STEP) as usize
            } else {
                MIN_LOG_LINE_LIMIT
            }
        } else if before.max_log_line_count + LOG_LINE_LIMIT_STEP <= MAX_LOG_LINE_LIMIT {
            (before.max_log_line_count + LOG_LINE_LIMIT_STEP) as usize
        } else {
            MAX_LOG_LINE_LIMIT
        }
        &&& after.log_lines@ == spec_keep_latest(before.log_lines@, after.max_log_line_count as nat)
        &&& after.did_auto_scroll_to_latest == before.did_auto_scroll_to_latest
        &&& after.status_message == before.status_message
    } else {
        after == before
    }
}

/// Applies a key to the output pane and returns the engine request it asks for: `r`
/// reloads the log history.
pub fn handle_output_key(output_pane_state: &mut OutputPaneState, key_code: KeyCode) -> (action: OutputKeyAction)
    requires
        key_code == KeyCode::Char('+') || key_code == KeyCode::Char('=') ==> old(output_pane_state).max_log_line_count
            + LOG_LINE_LIMIT_STEP <= usize::MAX,
    ensures
        spec_output_after_key(*old(output_pane_state), *final(output_pane_state), key_code),
        action == if key_code == KeyCode::Char('r') {
            OutputKeyAction::RefreshLogHistory
        } else {
            OutputKeyAction::NoAction
        },
{
    match key_code {
        KeyCode::Char('r') => OutputKeyAction::RefreshLogHistory,
        KeyCode::Char('x') | KeyCode::Delete => {
            output_pane_state.clear_log_lines();
            OutputKeyAction::NoAction
        },
        KeyCode::Char('+') | KeyCode::Char('=') => {
            output_pane_state.increase_max_line_count();
            OutputKeyAction::NoAction
        },
        KeyCode::Char('-') => {
            output_pane_state.decrease_max_line_count();
            OutputKeyAction::NoAction
        },
        _ => OutputKeyAction::NoAction,
    }
}


/// The engine request that a scan results key asks for.
#[derive(Clone, Copy, Debug, PartialEq, Eq, Structural)]
pub enum ScanResultsKeyAction {
    NoAction,
    QueryCurrentPage,
    RefreshPage,
    ToggleFrozen,
    AddSelectedToProject,
    DeleteSelected,
    CommitValueEdit,
}

/// The outcome of a scan results key: the request, and whether the struct viewer should
/// follow the selection afterwards.
#[derive(Clone, Copy, Debug, PartialEq, Eq, Structural)]
pub struct ScanResultsKeyOutcome {
    pub action: ScanResultsKeyAction,
    pub refresh_struct_viewer_focus: bool,
}

/// Whether a scan results key moves the selection: Down/`j`, Up/`k`, Home or End.
pub open spec fn spec_is_scan_results_navigation_key(key_code: KeyCode) -> bool {
    ||| key_code == KeyCode::Down
    ||| key_code == KeyCode::Char('j')
    ||| key_code == KeyCode::Up
    ||| key_code == KeyCode::Char('k')
    ||| key_code == KeyCode::Home
    ||| key_code == KeyCode::End
}

/// The page a paging key asks for: one after or one before the current page, saturating.
pub open spec fn spec_requested_page(before: ScanResultsPaneState, key_code: KeyCode) -> u64 {
    if key_code == KeyCode::Char(']') {
        if before.current_page_index < u64::MAX {
            (before.current_page_index + 1) as u64
        } else {
            u64::MAX
        }
    } else if before.current_page_index > 0 {
        (before.current_page_index - 1) as u64
    } else {
        0
    }
}

/// Whether a paging key lands on another page.
pub open spec fn spec_page_changes(before: ScanResultsPaneState, key_code: KeyCode) -> bool {
    (key_code == KeyCode::Char(']') || key_code == KeyCode::Char('['))
        && spec_min_u64(spec_requested_page(before, key_code), before.cached_last_page_index) != before.current_page_index
}

pub open spec fn spec_scan_results_key_outcome(before: ScanResultsPaneState, key: KeyInput) -> ScanResultsKeyOutcome {
    let key_code = key.code;
    let action = if key_code == KeyCode::Char('r') {
        ScanResultsKeyAction::QueryCurrentPage
    } else if key_code == KeyCode::Char('R') {
        ScanResultsKeyAction::RefreshPage
    } else if key_code == KeyCode::Char(']') || key_code == KeyCode::Char('[') {
        if spec_page_changes(before, key_code) {
            ScanResultsKeyAction::QueryCurrentPage
        } else {
            ScanResultsKeyAction::NoAction
        }
    } else if key_code == KeyCode::Char('f') {
        ScanResultsKeyAction::ToggleFrozen
    } else if key_code == KeyCode::Char('a') {
        ScanResultsKeyAction::AddSelectedToProject
    } else if key_code == KeyCode::Char('x') || key_code == KeyCode::Delete {
        ScanResultsKeyAction::DeleteSelected
    } else if key_code == KeyCode::Enter {
        ScanResultsKeyAction::CommitValueEdit
    } else {
        ScanResultsKeyAction::NoAction
    };
    ScanResultsKeyOutcome {
        action,
        refresh_struct_viewer_focus: key_code == KeyCode::Char('r') || key_code == KeyCode::Char('R') || key_code
            == KeyCode::Char(']') || key_code == KeyCode::Char('[') || spec_is_scan_results_navigation_key(key_code)
            || key_code == KeyCode::Char('f') || key_code == KeyCode::Char('a') || key_code == KeyCode::Char('x')
            || key_code == KeyCode::Delete || key_code == KeyCode::Enter,
    }
}

/// The selection after a navigation key: with Shift the range end is first pinned to the
/// current selection and kept; without it the range is dropped. The edit text follows the
/// new selection.
pub open spec fn spec_scan_results_after_navigation(before: ScanResultsPaneState, after: ScanResultsPaneState, key: KeyInput) -> bool {
    let count = before.scan_results@.len();
    let kept_range_end = if key.shift && before.selected_result_index is Some {
        before.selected_result_index
    } else {
        before.selected_range_end_index
    };
    &&& after.scan_results == before.scan_results
    &&& after.spec_same_paging(&before)
    &&& after.spec_same_flags(&before)
    &&& if count == 0 {
        &&& after.selected_result_index is None
        &&& after.selected_range_end_index is None
        &&& after.pending_value_edit_text == before.pending_value_edit_text
    } else {
        &&& after.selected_result_index == if key.code == KeyCode::Down || key.code == KeyCode::Char('j') {
            spec_next_wrapping(before.selected_result_index, count)
        } else if key.code == KeyCode::Up || key.code == KeyCode::Char('k') {
            spec_previous_wrapping(before.selected_result_index, count)
        } else if key.code == KeyCode::Home {
            Some(0usize)
        } else {
            Some((count - 1) as usize)
        }
        &&& after.selected_range_end_index == if key.shift {
            kept_range_end
        } else {
            None
        }
        &&& after.pending_value_edit_text@ == after.spec_synced_edit_text_from(before.pending_value_edit_text@)
    }
}

/// The edit text after an editing key: Backspace deletes a character (leaving `0`), Control
/// with `u` resets it to `0`, `y` pulls the selected result's value, and other characters
/// are typed into it.
pub open spec fn spec_scan_results_edit_text_after_key(before: ScanResultsPaneState, key: KeyInput) -> Seq<char> {
    let text = before.pending_value_edit_text@;
    match key.code {
        KeyCode::Backspace => if text.len() <= 1 {
            seq!['0']
        } else {
            text.drop_last()
        },
        KeyCode::Char(character) => if character == 'u' && key.control {
            seq!['0']
        } else if character == 'y' {
            before.spec_synced_edit_text()
        } else if !spec_is_supported_value_edit_character(character) {
            text
        } else if text == seq!['0'] && '0' <= character <= '9' {
            seq![character]
        } else {
            text.push(character)
        },
        _ => text,
    }
}

/// Whether a key edits the value text: Backspace, or a character key that no other command
/// of the pane takes.
pub open spec fn spec_is_scan_results_edit_key(key_code: KeyCode) -> bool {
    match key_code {
        KeyCode::Backspace => true,
        KeyCode::Char(character) => !(character == 'r' || character == 'R' || character == ']' || character == '['
            || character == 'j' || character == 'k' || character == 'f' || character == 'a' || character == 'x'),
        _ => false,
    }
}

/// How a key changes the scan results pane: navigation keys move the selection, `]`/`[`
/// move to the next or previous page (clearing the selection when the page changes),
/// editing keys change the value text; request keys change nothing here.
pub open spec fn spec_scan_results_after_key(before: ScanResultsPaneState, after: ScanResultsPaneState, key: KeyInput) -> bool {
    if spec_is_scan_results_navigation_key(key.code) {
        spec_scan_results_after_navigation(before, after, key)
    } else if key.code == KeyCode::Char(']') || key.code == KeyCode::Char('[') {
        if spec_page_changes(before, key.code) {
            after == (ScanResultsPaneState {
                current_page_index: spec_min_u64(spec_requested_page(before, key.code), before.cached_last_page_index),
                selected_result_index: None,
                selected_range_end_index: None,
                ..before
            })
        } else {
            after == before
        }
    } else if spec_is_scan_results_edit_key(key.code) {
        &&& after.pending_value_edit_text@ == spec_scan_results_edit_text_after_key(before, key)
        &&& after.scan_results == before.scan_results
        &&& after.selected_result_index == before.selected_result_index
        &&& after.selected_range_end_index == before.selected_range_end_index
        &&& after.spec_same_paging(&before)
        &&& after.spec_same_flags(&before)
    } else {
        after == before
    }
}

/// Applies a key to the scan results pane and returns the engine request it asks for.
pub fn handle_scan_results_key(scan_results_pane_state: &mut ScanResultsPaneState, key: KeyInput) -> (outcome: ScanResultsKeyOutcome)
    ensures
        spec_scan_results_after_key(*old(scan_results_pane_state), *final(scan_results_pane_state), key),
        outcome == spec_scan_results_key_outcome(*old(scan_results_pane_state), key),
{
    let state = scan_results_pane_state;
    let is_range_extend_modifier_active = key.shift;
    match key.code {
        KeyCode::Char('r') => ScanResultsKeyOutcome { action: ScanResultsKeyAction::QueryCurrentPage, refresh_struct_viewer_focus: true },
        KeyCode::Char('R') => ScanResultsKeyOutcome { action: ScanResultsKeyAction::RefreshPage, refresh_struct_viewer_focus: true },
        KeyCode::Char(']') | KeyCode::Char('[') => {
            let current_page_index = state.current_page_index;
            let target_page_index = if key.code == KeyCode::Char(']') {
                current_page_index.saturating_add(1)
            } else {
                current_page_index.saturating_sub(1)
            };
            let did_change_page = state.set_current_page_index(target_page_index);
            ScanResultsKeyOutcome {
                action: if did_change_page {
                    ScanResultsKeyAction::QueryCurrentPage
                } else {
                    ScanResultsKeyAction::NoAction
                },
                refresh_struct_viewer_focus: true,
            }
        },
        KeyCode::Down | KeyCode::Char('j') | KeyCode::Up | KeyCode::Char('k') | KeyCode::Home | KeyCode::End => {
            if is_range_extend_modifier_active {
                state.set_selected_range_end_to_current();
            }
            match key.code {
                KeyCode::Down | KeyCode::Char('j') => state.select_next_result(is_range_extend_modifier_active),
                KeyCode::Up | KeyCode::Char('k') => state.select_previous_result(is_range_extend_modifier_active),
                KeyCode::Home => state.select_first_result(is_range_extend_modifier_active),
                _ => state.select_last_result(is_range_extend_modifier_active),
            }
            ScanResultsKeyOutcome { action: ScanResultsKeyAction::NoAction, refresh_struct_viewer_focus: true }
        },
        KeyCode::Char('f') => ScanResultsKeyOutcome { action: ScanResultsKeyAction::ToggleFrozen, refresh_struct_viewer_focus: true },
        KeyCode::Char('a') => ScanResultsKeyOutcome { action: ScanResultsKeyAction::AddSelectedToProject, refresh_struct_viewer_focus: true },
        KeyCode::Char('x') | KeyCode::Delete => ScanResultsKeyOutcome {
            action: ScanResultsKeyAction::DeleteSelected,
            refresh_struct_viewer_focus: true,
        },
        KeyCode::Enter => ScanResultsKeyOutcome { action: ScanResultsKeyAction::CommitValueEdit, refresh_struct_viewer_focus: true },
        KeyCode::Backspace => {
            state.backspace_pending_value_edit();
            ScanResultsKeyOutcome { action: ScanResultsKeyAction::NoAction, refresh_struct_viewer_focus: false }
        },
        KeyCode::Char(character) => {
            if character == 'u' && key.control {
                state.clear_pending_value_edit();
            } else if character == 'y' {
                state.sync_pending_value_edit_from_selection();
            } else {
                state.append_pending_value_edit_character(character);
            }
            ScanResultsKeyOutcome { action: ScanResultsKeyAction::NoAction, refresh_struct_viewer_focus: false }
        },
        _ => ScanResultsKeyOutcome { action: ScanResultsKeyAction::NoAction, refresh_struct_viewer_focus: false },
    }
}


/// What a key asks of the project item tree.
#[derive(Clone, Copy, Debug, PartialEq, Eq, Structural)]
pub enum ProjectHierarchyCommand {
    RefreshItems,
    SelectNextItem,
    SelectPreviousItem,
    ExpandSelectedDirectory,
    CollapseSelectedDirectory,
    ToggleSelectedActivation,
    BeginCreateDirectory,
    StageSelectedForMove,
    MoveStagedToSelectedDirectory,
    ClearStagedMove,
    MoveSelectedUp,
    MoveSelectedDown,
    DeleteSelectedWithConfirmation,
}

/// The request that a project explorer key asks for.
#[derive(Clone, Copy, Debug, PartialEq, Eq, Structural)]
pub enum ProjectExplorerKeyAction {
    NoAction,
    CommitNameInput,
    RefreshProjectList,
    OpenSelectedProject,
    DeleteSelectedProject,
    CloseActiveProject,
    Hierarchy(ProjectHierarchyCommand),
}

/// The command a key asks of the project item tree, if any: `h` refresh, Down/`j` and
/// Up/`k` select, Right/`l` expand, Left collapse, Space activate, `n` new folder, `m`
/// stage, `b` move, `u` clear the staged move, `[`/`]` reorder, `x`/Delete delete.
pub open spec fn spec_project_hierarchy_command(key_code: KeyCode) -> Option<ProjectHierarchyCommand> {
    if key_code == KeyCode::Char('h') {
        Some(ProjectHierarchyCommand::RefreshItems)
    } else if key_code == KeyCode::Down || key_code == KeyCode::Char('j') {
        Some(ProjectHierarchyCommand::SelectNextItem)
    } else if key_code == KeyCode::Up || key_code == KeyCode::Char('k') {
        Some(ProjectHierarchyCommand::SelectPreviousItem)
    } else if key_code == KeyCode::Right || key_code == KeyCode::Char('l') {
        Some(ProjectHierarchyCommand::ExpandSelectedDirectory)
    } else if key_code == KeyCode::Left {
        Some(ProjectHierarchyCommand::CollapseSelectedDirectory)
    } else if key_code == KeyCode::Char(' ') {
        Some(ProjectHierarchyCommand::ToggleSelectedActivation)
    } else if key_code == KeyCode::Char('n') {
        Some(ProjectHierarchyCommand::BeginCreateDirectory)
    } else if key_code == KeyCode::Char('m') {
        Some(ProjectHierarchyCommand::StageSelectedForMove)
    } else if key_code == KeyCode::Char('b') {
        Some(ProjectHierarchyCommand::MoveStagedToSelectedDirectory)
    } else if key_code == KeyCode::Char('u') {
        Some(ProjectHierarchyCommand::ClearStagedMove)
    } else if key_code == KeyCode::Char('[') {
        Some(ProjectHierarchyCommand::MoveSelectedUp)
    } else if key_code == KeyCode::Char(']') {
        Some(ProjectHierarchyCommand::MoveSelectedDown)
    } else if key_code == KeyCode::Char('x') || key_code == KeyCode::Delete {
        Some(ProjectHierarchyCommand::DeleteSelectedWithConfirmation)
    } else {
        None
    }
}

fn project_hierarchy_command(key_code: KeyCode) -> (command: Option<ProjectHierarchyCommand>)
    ensures
        command == spec_project_hierarchy_command(key_code),
{
    match key_code {
        KeyCode::Char('h') => Some(ProjectHierarchyCommand::RefreshItems),
        KeyCode::Down | KeyCode::Char('j') => Some(ProjectHierarchyCommand::SelectNextItem),
        KeyCode::Up | KeyCode::Char('k') => Some(ProjectHierarchyCommand::SelectPreviousItem),
        KeyCode::Right | KeyCode::Char('l') => Some(ProjectHierarchyCommand::ExpandSelectedDirectory),
        KeyCode::Left => Some(ProjectHierarchyCommand::CollapseSelectedDirectory),
        KeyCode::Char(' ') => Some(ProjectHierarchyCommand::ToggleSelectedActivation),
        KeyCode::Char('n') => Some(ProjectHierarchyCommand::BeginCreateDirectory),
        KeyCode::Char('m') => Some(ProjectHierarchyCommand::StageSelectedForMove),
        KeyCode::Char('b') => Some(ProjectHierarchyCommand::MoveStagedToSelectedDirectory),
        KeyCode::Char('u') => Some(ProjectHierarchyCommand::ClearStagedMove),
        KeyCode::Char('[') => Some(ProjectHierarchyCommand::MoveSelectedUp),
        KeyCode::Char(']') => Some(ProjectHierarchyCommand::MoveSelectedDown),
        KeyCode::Char('x') | KeyCode::Delete => Some(ProjectHierarchyCommand::DeleteSelectedWithConfirmation),
        _ => None,
    }
}

/// The focus after a key outside name input: `p` focuses the project list and `i` the
/// item tree.
pub open spec fn spec_focus_after_key(before: ProjectExplorerFocusTarget, key_code: KeyCode) -> ProjectExplorerFocusTarget {
    if key_code == KeyCode::Char('p') {
        ProjectExplorerFocusTarget::ProjectList
    } else if key_code == KeyCode::Char('i') {
        ProjectExplorerFocusTarget::ProjectHierarchy
    } else {
        before
    }
}

pub open spec fn spec_project_explorer_key_action(before: ProjectExplorerPaneState, key: KeyInput) -> ProjectExplorerKeyAction {
    let key_code = key.code;
    if before.input_mode != ProjectSelectorInputMode::NoInput {
        if key_code == KeyCode::Enter {
            ProjectExplorerKeyAction::CommitNameInput
        } else {
            ProjectExplorerKeyAction::NoAction
        }
    } else if spec_focus_after_key(before.focus_target, key_code) == ProjectExplorerFocusTarget::ProjectList {
        if key_code == KeyCode::Char('r') {
            ProjectExplorerKeyAction::RefreshProjectList
        } else if key_code == KeyCode::Enter || key_code == KeyCode::Char('o') {
            ProjectExplorerKeyAction::OpenSelectedProject
        } else if key_code == KeyCode::Char('x') || key_code == KeyCode::Delete {
            ProjectExplorerKeyAction::DeleteSelectedProject
        } else if key_code == KeyCode::Char('c') {
            ProjectExplorerKeyAction::CloseActiveProject
        } else {
            ProjectExplorerKeyAction::NoAction
        }
    } else {
        match spec_project_hierarchy_command(key_code) {
            Some(command) => ProjectExplorerKeyAction::Hierarchy(command),
            None => ProjectExplorerKeyAction::NoAction,
        }
    }
}

/// How a key changes the name being typed: Esc cancels the input, Backspace deletes a
/// character, Control with `u` clears the name and supported characters are typed.
#[verifier::opaque]
pub open spec fn spec_name_input_after_key(before: ProjectExplorerPaneState, after: ProjectExplorerPaneState, key: KeyInput) -> bool {
    let key_code = key.code;
    let name = before.pending_project_name_input@;
    &&& after.spec_same_except_input(&before)
    &&& if key_code == KeyCode::Esc {
        after.input_mode == ProjectSelectorInputMode::NoInput && after.pending_project_name_input@.len() == 0
    } else if key_code == KeyCode::Backspace {
        after.input_mode == before.input_mode && after.pending_project_name_input@ == if name.len() == 0 {
            name
        } else {
            name.drop_last()
        }
    } else if key_code == KeyCode::Char('u') && key.control {
        after.input_mode == before.input_mode && after.pending_project_name_input@.len() == 0
    } else {
        &&& after.input_mode == before.input_mode
        &&& after.pending_project_name_input@ == match key_code {
            KeyCode::Char(character) => if spec_is_supported_project_name_character(character) {
                name.push(character)
            } else {
                name
            },
            _ => name,
        }
    }
}

/// How a key changes the project list: Down/`j` and Up/`k` move the selection, `n` starts a
/// new name and `e` starts a rename, with a status message when no project is selected.
#[verifier::opaque]
pub open spec fn spec_project_list_after_key(before: ProjectExplorerPaneState, after: ProjectExplorerPaneState, key_code: KeyCode) -> bool {
    if key_code == KeyCode::Down || key_code == KeyCode::Char('j') || key_code == KeyCode::Up || key_code == KeyCode::Char('k') {
        &&& after.project_entries == before.project_entries
        &&& after.selected_project_list_index == if key_code == KeyCode::Down || key_code == KeyCode::Char('j') {
            spec_next_wrapping(before.selected_project_list_index, before.project_entries@.len())
        } else {
            spec_previous_wrapping(before.selected_project_list_index, before.project_entries@.len())
        }
        &&& after.spec_selection_fields_follow_index()
        &&& after.spec_same_except_selection(&before)
    } else if key_code == KeyCode::Char('n') {
        &&& after.input_mode == ProjectSelectorInputMode::CreatingProject
        &&& after.pending_project_name_input@ == "NewProject"@
        &&& after.spec_same_except_input(&before)
    } else if key_code == KeyCode::Char('e') {
        match before.selected_project_name {
            Some(selected_name) => {
                &&& after.input_mode == ProjectSelectorInputMode::RenamingProject
                &&& after.pending_project_name_input == selected_name
                &&& after.spec_same_except_input(&before)
            },
            None => {
                &&& after == (ProjectExplorerPaneState { status_message: after.status_message, ..before })
                &&& after.status_message@ == "No project is selected for rename."@
            },
        }
    } else {
        after == before
    }
}

/// How a key changes the project explorer: name input first takes every key; otherwise
/// `p`/`i` switch the focused list and the project list takes its keys.
pub open spec fn spec_project_explorer_after_key(before: ProjectExplorerPaneState, after: ProjectExplorerPaneState, key: KeyInput) -> bool {
    if before.input_mode != ProjectSelectorInputMode::NoInput {
        spec_name_input_after_key(before, after, key)
    } else {
        let focus = spec_focus_after_key(before.focus_target, key.code);
        let refocused = ProjectExplorerPaneState { focus_target: focus, ..before };
        if focus == ProjectExplorerFocusTarget::ProjectList {
            spec_project_list_after_key(refocused, after, key.code)
        } else if key.code == KeyCode::Char('u') {
            &&& after == (ProjectExplorerPaneState {
                pending_move_source_paths: after.pending_move_source_paths,
                status_message: after.status_message,
                ..refocused
            })
            &&& after.pending_move_source_paths@.len() == 0
            &&& after.status_message@ == "Cleared staged project item move."@
        } else {
            after == refocused
        }
    }
}

fn handle_name_input_key(state: &mut ProjectExplorerPaneState, key: KeyInput) -> (action: ProjectExplorerKeyAction)
    requires
        old(state).input_mode != ProjectSelectorInputMode::NoInput,
    ensures
        spec_name_input_after_key(*old(state), *final(state), key),
        action == if key.code == KeyCode::Enter {
            ProjectExplorerKeyAction::CommitNameInput
        } else {
            ProjectExplorerKeyAction::NoAction
        },
{
    proof {
        reveal(spec_name_input_after_key);
    }
    match key.code {
        KeyCode::Esc => state.cancel_project_name_input(),
        KeyCode::Backspace => state.backspace_pending_project_name(),
        KeyCode::Enter => return ProjectExplorerKeyAction::CommitNameInput,
        KeyCode::Char(character) => {
            if character == 'u' && key.control {
                state.clear_pending_project_name();
            } else {
                state.append_pending_project_name_character(character);
            }
        },
        _ => {},
    }
    ProjectExplorerKeyAction::NoAction
}

#[verifier::rlimit(60)]
fn handle_project_list_key(state: &mut ProjectExplorerPaneState, key_code: KeyCode) -> (action: ProjectExplorerKeyAction)
    ensures
        spec_project_list_after_key(*old(state), *final(state), key_code),
        action == if key_code == KeyCode::Char('r') {
            ProjectExplorerKeyAction::RefreshProjectList
        } else if key_code == KeyCode::Enter || key_code == KeyCode::Char('o') {
            ProjectExplorerKeyAction::OpenSelectedProject
        } else if key_code == KeyCode::Char('x') || key_code == KeyCode::Delete {
            ProjectExplorerKeyAction::DeleteSelectedProject
        } else if key_code == KeyCode::Char('c') {
            ProjectExplorerKeyAction::CloseActiveProject
        } else {
            ProjectExplorerKeyAction::NoAction
        },
{
    proof {
        reveal(spec_project_list_after_key);
    }
    match key_code {
        KeyCode::Char('r') => ProjectExplorerKeyAction::RefreshProjectList,
        KeyCode::Down | KeyCode::Char('j') => {
            state.select_next_project();
            ProjectExplorerKeyAction::NoAction
        },
        KeyCode::Up | KeyCode::Char('k') => {
            state.select_previous_project();
            ProjectExplorerKeyAction::NoAction
        },
        KeyCode::Enter | KeyCode::Char('o') => ProjectExplorerKeyAction::OpenSelectedProject,
        KeyCode::Char('n') => {
            state.begin_create_project_input();
            ProjectExplorerKeyAction::NoAction
        },
        KeyCode::Char('e') => {
            if !state.begin_rename_selected_project_input() {
                state.status_message = owned("No project is selected for rename.");
            }
            ProjectExplorerKeyAction::NoAction
        },
        KeyCode::Char('x') | KeyCode::Delete => ProjectExplorerKeyAction::DeleteSelectedProject,
        KeyCode::Char('c') => ProjectExplorerKeyAction::CloseActiveProject,
        _ => ProjectExplorerKeyAction::NoAction,
    }
}

fn focus_from_key(state: &mut ProjectExplorerPaneState, key_code: KeyCode)
    ensures
        *final(state) == (ProjectExplorerPaneState { focus_target: spec_focus_after_key(old(state).focus_target, key_code), ..*old(state) }),
{
    match key_code {
        KeyCode::Char('p') => state.focus_target = ProjectExplorerFocusTarget::ProjectList,
        KeyCode::Char('i') => state.focus_target = ProjectExplorerFocusTarget::ProjectHierarchy,
        _ => {},
    }
}

/// Applies a key to the project explorer and returns the request it asks for. In the item
/// tree, `u` clears the staged move right away, besides naming the command.
#[verifier::rlimit(100)]
pub fn handle_project_explorer_key(project_explorer_pane_state: &mut ProjectExplorerPaneState, key: KeyInput) -> (action: ProjectExplorerKeyAction)
    ensures
        spec_project_explorer_after_key(*old(project_explorer_pane_state), *final(project_explorer_pane_state), key),
        action == spec_project_explorer_key_action(*old(project_explorer_pane_state), key),
{
    let state = project_explorer_pane_state;
    if state.input_mode != ProjectSelectorInputMode::NoInput {
        return handle_name_input_key(state, key);
    }
    focus_from_key(state, key.code);
    match state.focus_target {
        ProjectExplorerFocusTarget::ProjectList => handle_project_list_key(state, key.code),
        ProjectExplorerFocusTarget::ProjectHierarchy => {
            if key.code == KeyCode::Char('u') {
                state.clear_pending_move_source_paths();
            }
            match project_hierarchy_command(key.code) {
                Some(command) => ProjectExplorerKeyAction::Hierarchy(command),
                None => ProjectExplorerKeyAction::NoAction,
            }
        },
    }
}

} // verus!
