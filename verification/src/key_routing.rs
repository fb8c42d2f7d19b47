use vstd::prelude::*;
use crate::app_state::{TuiAppState, spec_cycled_focus};
use crate::pane::{TuiPane, spec_pane_from_shortcut_digit};
use crate::pane_layout::PaneLayoutState;
use crate::output::LOG_LINE_LIMIT_STEP;
use crate::pane_keys::{
    ElementScannerKeyAction, OutputKeyAction, ProcessSelectorKeyAction, ProjectExplorerKeyAction, ScanResultsKeyOutcome,
    SettingsKeyAction, handle_element_scanner_key, handle_output_key, handle_process_selector_key, handle_project_explorer_key,
    handle_scan_results_key, handle_settings_key, spec_element_scanner_after_key, spec_element_scanner_key_action,
    spec_element_scanner_snapshot, spec_output_after_key, spec_process_selector_after_key, spec_process_selector_key_action,
    spec_project_explorer_after_key, spec_project_explorer_key_action, spec_scan_results_after_key, spec_scan_results_key_outcome,
    spec_settings_after_key, spec_settings_key_action,
};

verus! {

/// The key of a key event, as the panes read it.
#[derive(Clone, Copy, Debug, PartialEq, Eq, Structural)]
pub enum KeyCode {
    Char(char),
    Enter,
    Esc,
    Backspace,
    Delete,
    Tab,
    BackTab,
    Up,
    Down,
    Left,
    Right,
    Home,
    End,
    Other,
}

/// A key event: the key, whether it is a press (rather than a repeat or a release), and
/// the Control and Shift modifiers.
#[derive(Clone, Copy, Debug, PartialEq, Eq, Structural)]
pub struct KeyInput {
    pub code: KeyCode,
    pub is_press: bool,
    pub control: bool,
    pub shift: bool,
}

/// What the application does with a key after the global shortcuts have seen it.
#[derive(Clone, Copy, Debug, PartialEq, Eq, Structural)]
pub enum GlobalKeyOutcome {
    /// Not a key press: nothing happens.
    Ignored,
    /// The application ends.
    Exit,
    /// A global shortcut took the key.
    Handled,
    /// The focused pane gets the key.
    ForwardToFocusedPane,
}

/// Whether a key ends the application: `q`, Esc, or Control with `c`.
pub open spec fn spec_is_exit_key(key: KeyInput) -> bool {
    ||| key.code == KeyCode::Char('q')
    ||| key.code == KeyCode::Esc
    ||| (key.code == KeyCode::Char('c') && key.control)
}

/// The outcome of a key at the global level. Every character key is taken by the global
/// shortcuts, whether or not it names one; only other keys reach the focused pane.
pub open spec fn spec_global_key_outcome(key: KeyInput) -> GlobalKeyOutcome {
    if !key.is_press {
        GlobalKeyOutcome::Ignored
    } else if spec_is_exit_key(key) {
        GlobalKeyOutcome::Exit
    } else {
        match key.code {
            KeyCode::Tab => GlobalKeyOutcome::Handled,
            KeyCode::BackTab => GlobalKeyOutcome::Handled,
            KeyCode::Char(_) => GlobalKeyOutcome::Handled,
            _ => GlobalKeyOutcome::ForwardToFocusedPane,
        }
    }
}

/// `after` is `before` with `pane` shown and focused.
pub open spec fn spec_focus_result(before: PaneLayoutState, after: PaneLayoutState, pane: TuiPane) -> bool {
    &&& after.pane_visibility@ == before.pane_visibility@.update(pane.spec_index(), true)
    &&& after.focused_pane == pane
}

/// How a key changes the pane layout: Tab and Shift+Tab cycle focus, `v` toggles the
/// focused pane, `0` shows every pane, a pane's digit focuses it and Control with the
/// digit toggles it; every other key leaves the layout alone.
pub open spec fn spec_global_key_layout(before: PaneLayoutState, after: PaneLayoutState, key: KeyInput) -> bool {
    if !key.is_press || spec_is_exit_key(key) {
        after == before
    } else {
        match key.code {
            KeyCode::Tab => after.pane_visibility == before.pane_visibility && after.focused_pane == spec_cycled_focus(before, true),
            KeyCode::BackTab => after.pane_visibility == before.pane_visibility && after.focused_pane == spec_cycled_focus(before, false),
            KeyCode::Char(character) => if character == 'v' {
                before.spec_visibility_result(after, before.focused_pane, !before.spec_is_pane_visible(before.focused_pane))
            } else if character == '0' {
                &&& after.focused_pane == before.focused_pane
                &&& forall|pane: TuiPane| after.spec_is_pane_visible(pane)
            } else {
                match spec_pane_from_shortcut_digit(character) {
                    Some(pane) => if key.control {
                        before.spec_visibility_result(after, pane, !before.spec_is_pane_visible(pane))
                    } else {
                        spec_focus_result(before, after, pane)
                    },
                    None => after == before,
                }
            },
            _ => after == before,
        }
    }
}

/// Applies the global shortcuts to a key: exit keys, focus cycling, pane toggling, showing
/// every pane and jumping to a pane by its digit.
pub fn handle_global_key(app_state: &mut TuiAppState, key: KeyInput) -> (outcome: GlobalKeyOutcome)
    ensures
        old(app_state).wf() ==> final(app_state).wf(),
        outcome == spec_global_key_outcome(key),
        spec_global_key_layout(old(app_state).pane_layout_state, final(app_state).pane_layout_state, key),
        final(app_state).spec_same_panes(&*old(app_state)),
{
    if !key.is_press {
        return GlobalKeyOutcome::Ignored;
    }
    match key.code {
        KeyCode::Esc => GlobalKeyOutcome::Exit,
        KeyCode::Tab => {
            app_state.cycle_focus_forward();
            GlobalKeyOutcome::Handled
        },
        KeyCode::BackTab => {
            app_state.cycle_focus_backward();
            GlobalKeyOutcome::Handled
        },
        KeyCode::Char(character) => {
            if character == 'q' || (character == 'c' && key.control) {
                return GlobalKeyOutcome::Exit;
            }
            if character == 'v' {
                let _ = app_state.toggle_focused_pane_visibility();
            } else if character == '0' {
                app_state.show_all_panes();
            } else {
                match TuiPane::from_shortcut_digit(character) {
                    Some(target_pane) => {
                        if key.control {
                            let _ = app_state.toggle_pane_visibility(target_pane);
                        } else {
                            app_state.set_focus_to_pane(target_pane);
                        }
                    },
                    None => {},
                }
            }
            GlobalKeyOutcome::Handled
        },
        _ => GlobalKeyOutcome::ForwardToFocusedPane,
    }
}

} // verus!

verus! {

/// What a key asks of the struct viewer.
#[derive(Clone, Copy, Debug, PartialEq, Eq, Structural)]
pub enum StructViewerKeyCommand {
    RefreshFromSource,
    SelectNextField,
    SelectPreviousField,
    PreviousDisplayFormat,
    NextDisplayFormat,
    CommitFieldEdit,
    DeleteEditCharacter,
    ClearEdit,
    TypeEditCharacter(char),
}

/// The command a key asks of the struct viewer: `r` refresh, Down/`j` and Up/`k` select a
/// field, `[`/`]` change the display format, Enter commits, Backspace and Control with `u`
/// edit, and other characters are typed.
pub open spec fn spec_struct_viewer_key_command(key: KeyInput) -> Option<StructViewerKeyCommand> {
    match key.code {
        KeyCode::Char(character) => if character == 'r' {
            Some(StructViewerKeyCommand::RefreshFromSource)
        } else if character == 'j' {
            Some(StructViewerKeyCommand::SelectNextField)
        } else if character == 'k' {
            Some(StructViewerKeyCommand::SelectPreviousField)
        } else if character == '[' {
            Some(StructViewerKeyCommand::PreviousDisplayFormat)
        } else if character == ']' {
            Some(StructViewerKeyCommand::NextDisplayFormat)
        } else if character == 'u' && key.control {
            Some(StructViewerKeyCommand::ClearEdit)
        } else {
            Some(StructViewerKeyCommand::TypeEditCharacter(character))
        },
        KeyCode::Down => Some(StructViewerKeyCommand::SelectNextField),
        KeyCode::Up => Some(StructViewerKeyCommand::SelectPreviousField),
        KeyCode::Enter => Some(StructViewerKeyCommand::CommitFieldEdit),
        KeyCode::Backspace => Some(StructViewerKeyCommand::DeleteEditCharacter),
        _ => None,
    }
}

/// The command a key asks of the struct viewer.
pub fn struct_viewer_key_command(key: KeyInput) -> (command: Option<StructViewerKeyCommand>)
    ensures
        command == spec_struct_viewer_key_command(key),
{
    match key.code {
        KeyCode::Char('r') => Some(StructViewerKeyCommand::RefreshFromSource),
        KeyCode::Down | KeyCode::Char('j') => Some(StructViewerKeyCommand::SelectNextField),
        KeyCode::Up | KeyCode::Char('k') => Some(StructViewerKeyCommand::SelectPreviousField),
        KeyCode::Char('[') => Some(StructViewerKeyCommand::PreviousDisplayFormat),
        KeyCode::Char(']') => Some(StructViewerKeyCommand::NextDisplayFormat),
        KeyCode::Enter => Some(StructViewerKeyCommand::CommitFieldEdit),
        KeyCode::Backspace => Some(StructViewerKeyCommand::DeleteEditCharacter),
        KeyCode::Char(character) => {
            if character == 'u' && key.control {
                Some(StructViewerKeyCommand::ClearEdit)
            } else {
                Some(StructViewerKeyCommand::TypeEditCharacter(character))
            }
        },
        _ => None,
    }
}

/// The request that a key sent to the focused pane asks for.
#[derive(Clone, Copy, Debug, PartialEq, Eq, Structural)]
pub enum PaneKeyAction {
    ProcessSelector(ProcessSelectorKeyAction),
    ElementScanner(ElementScannerKeyAction),
    ScanResults(ScanResultsKeyOutcome),
    ProjectExplorer(ProjectExplorerKeyAction),
    StructViewer(Option<StructViewerKeyCommand>),
    Output(OutputKeyAction),
    Settings(SettingsKeyAction),
}

/// Every pane state but `pane`'s, and the layout, are as in `before`.
pub open spec fn spec_other_panes_unchanged(before: TuiAppState, after: TuiAppState, pane: TuiPane) -> bool {
    &&& after.pane_layout_state == before.pane_layout_state
    &&& pane != TuiPane::ProcessSelector ==> after.process_selector_pane_state == before.process_selector_pane_state
    &&& pane != TuiPane::ElementScanner ==> after.element_scanner_pane_state == before.element_scanner_pane_state
    &&& pane != TuiPane::ScanResults ==> after.scan_results_pane_state == before.scan_results_pane_state
    &&& pane != TuiPane::ProjectExplorer ==> after.project_explorer_pane_state == before.project_explorer_pane_state
    &&& after.struct_viewer_pane_state == before.struct_viewer_pane_state
    &&& pane != TuiPane::Output ==> after.output_pane_state == before.output_pane_state
    &&& pane != TuiPane::Settings ==> after.settings_pane_state == before.settings_pane_state
}

/// How a key sent to the focused pane changes that pane, with the request it asks for.
pub open spec fn spec_focused_pane_key(before: TuiAppState, after: TuiAppState, key: KeyInput, action: PaneKeyAction) -> bool {
    match before.pane_layout_state.focused_pane {
        TuiPane::ProcessSelector => {
            &&& spec_process_selector_after_key(before.process_selector_pane_state, after.process_selector_pane_state, key.code)
            &&& action == PaneKeyAction::ProcessSelector(spec_process_selector_key_action(key.code))
        },
        TuiPane::ElementScanner => {
            &&& spec_element_scanner_snapshot(after.element_scanner_pane_state) == spec_element_scanner_after_key(
                spec_element_scanner_snapshot(before.element_scanner_pane_state),
                key,
            )
            &&& action == PaneKeyAction::ElementScanner(spec_element_scanner_key_action(key))
        },
        TuiPane::ScanResults => {
            &&& spec_scan_results_after_key(before.scan_results_pane_state, after.scan_results_pane_state, key)
            &&& action == PaneKeyAction::ScanResults(spec_scan_results_key_outcome(before.scan_results_pane_state, key))
        },
        TuiPane::ProjectExplorer => {
            &&& spec_project_explorer_after_key(before.project_explorer_pane_state, after.project_explorer_pane_state, key)
            &&& action == PaneKeyAction::ProjectExplorer(spec_project_explorer_key_action(before.project_explorer_pane_state, key))
        },
        TuiPane::StructViewer => action == PaneKeyAction::StructViewer(spec_struct_viewer_key_command(key)),
        TuiPane::Output => {
            &&& spec_output_after_key(before.output_pane_state, after.output_pane_state, key.code)
            &&& action == PaneKeyAction::Output(
                if key.code == KeyCode::Char('r') {
                    OutputKeyAction::RefreshLogHistory
                } else {
                    OutputKeyAction::NoAction
                },
            )
        },
        TuiPane::Settings => {
            &&& after.settings_pane_state == spec_settings_after_key(before.settings_pane_state, key.code)
            &&& action == PaneKeyAction::Settings(spec_settings_key_action(before.settings_pane_state, key.code))
        },
    }
}

/// Sends a key to the focused pane and returns the request it asks for.
pub fn handle_focused_pane_key(app_state: &mut TuiAppState, key: KeyInput) -> (action: PaneKeyAction)
    requires
        old(app_state).element_scanner_pane_state.wf(),
        old(app_state).pane_layout_state.focused_pane == TuiPane::Output && (key.code == KeyCode::Char('+') || key.code
            == KeyCode::Char('=')) ==> old(app_state).output_pane_state.max_log_line_count + LOG_LINE_LIMIT_STEP <= usize::MAX,
    ensures
        old(app_state).wf() ==> final(app_state).wf(),
        final(app_state).element_scanner_pane_state.wf(),
        spec_focused_pane_key(*old(app_state), *final(app_state), key, action),
        spec_other_panes_unchanged(*old(app_state), *final(app_state), old(app_state).pane_layout_state.focused_pane),
{
    match app_state.focused_pane() {
        TuiPane::ProcessSelector => PaneKeyAction::ProcessSelector(
            handle_process_selector_key(&mut app_state.process_selector_pane_state, key.code),
        ),
        TuiPane::ElementScanner => PaneKeyAction::ElementScanner(
            handle_element_scanner_key(&mut app_state.element_scanner_pane_state, key),
        ),
        TuiPane::ScanResults => PaneKeyAction::ScanResults(handle_scan_results_key(&mut app_state.scan_results_pane_state, key)),
        TuiPane::ProjectExplorer => PaneKeyAction::ProjectExplorer(
            handle_project_explorer_key(&mut app_state.project_explorer_pane_state, key),
        ),
        TuiPane::StructViewer => PaneKeyAction::StructViewer(struct_viewer_key_command(key)),
        TuiPane::Output => PaneKeyAction::Output(handle_output_key(&mut app_state.output_pane_state, key.code)),
        TuiPane::Settings => PaneKeyAction::Settings(handle_settings_key(&mut app_state.settings_pane_state, key.code)),
    }
}

} // verus!

verus! {

/// What became of a key event.
#[derive(Clone, Copy, Debug, PartialEq, Eq, Structural)]
pub enum KeyOutcome {
    /// Not a key press.
    Ignored,
    /// The application ends.
    Exit,
    /// A global shortcut took the key.
    Handled,
    /// The focused pane took the key and asks for this request.
    Pane(PaneKeyAction),
}

/// Routes a key event: global shortcuts first, then the focused pane.
pub fn handle_key(app_state: &mut TuiAppState, key: KeyInput) -> (outcome: KeyOutcome)
    requires
        old(app_state).element_scanner_pane_state.wf(),
        old(app_state).pane_layout_state.focused_pane == TuiPane::Output && (key.code == KeyCode::Char('+') || key.code
            == KeyCode::Char('=')) ==> old(app_state).output_pane_state.max_log_line_count + LOG_LINE_LIMIT_STEP <= usize::MAX,
    ensures
        old(app_state).wf() ==> final(app_state).wf(),
        final(app_state).element_scanner_pane_state.wf(),
        spec_global_key_outcome(key) == GlobalKeyOutcome::ForwardToFocusedPane ==> match outcome {
            KeyOutcome::Pane(action) => {
                &&& spec_focused_pane_key(*old(app_state), *final(app_state), key, action)
                &&& spec_other_panes_unchanged(*old(app_state), *final(app_state), old(app_state).pane_layout_state.focused_pane)
            },
            _ => false,
        },
        spec_global_key_outcome(key) != GlobalKeyOutcome::ForwardToFocusedPane ==> {
            &&& outcome == match spec_global_key_outcome(key) {
                GlobalKeyOutcome::Ignored => KeyOutcome::Ignored,
                GlobalKeyOutcome::Exit => KeyOutcome::Exit,
                _ => KeyOutcome::Handled,
            }
            &&& spec_global_key_layout(old(app_state).pane_layout_state, final(app_state).pane_layout_state, key)
            &&& final(app_state).spec_same_panes(&*old(app_state))
        },
{
    match handle_global_key(app_state, key) {
        GlobalKeyOutcome::Ignored => KeyOutcome::Ignored,
        GlobalKeyOutcome::Exit => KeyOutcome::Exit,
        GlobalKeyOutcome::Handled => KeyOutcome::Handled,
        GlobalKeyOutcome::ForwardToFocusedPane => KeyOutcome::Pane(handle_focused_pane_key(app_state, key)),
    }
}

/// Whether a tick should ask for the process list: when none is listed and none is awaited.
pub fn should_refresh_process_list_on_tick(app_state: &TuiAppState) -> (should_refresh: bool)
    ensures
        should_refresh == (app_state.process_selector_pane_state.process_list_entries@.len() == 0
            && !app_state.process_selector_pane_state.is_awaiting_process_list_response),
{
    app_state.process_selector_pane_state.process_list_entries.len() == 0
        && !app_state.process_selector_pane_state.is_awaiting_process_list_response
}

} // verus!
