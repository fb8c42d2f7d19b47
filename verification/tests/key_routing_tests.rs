use squalr_tui::app_state::TuiAppState;
use squalr_tui::key_routing::{
    handle_key, should_refresh_process_list_on_tick, struct_viewer_key_command, KeyCode, KeyInput, KeyOutcome, PaneKeyAction,
    StructViewerKeyCommand,
};
use squalr_tui::pane::TuiPane;
use squalr_tui::project_explorer::{ProjectExplorerFocusTarget, ProjectExplorerPaneState};
use squalr_tui::pane_keys::{
    handle_project_explorer_key,
    OutputKeyAction, ProcessSelectorKeyAction, ProjectExplorerKeyAction, ProjectHierarchyCommand, ScanResultsKeyAction,
    SettingsKeyAction,
};
use squalr_tui::process_selector::ProcessInfo;

fn press(code: KeyCode) -> KeyInput {
    KeyInput { code, is_press: true, control: false, shift: false }
}

fn control_press(code: KeyCode) -> KeyInput {
    KeyInput { code, is_press: true, control: true, shift: false }
}

#[test]
fn exit_keys_end_the_application() {
    let mut app_state = TuiAppState::default();

    assert_eq!(handle_key(&mut app_state, press(KeyCode::Char('q'))), KeyOutcome::Exit);
    assert_eq!(handle_key(&mut app_state, press(KeyCode::Esc)), KeyOutcome::Exit);
    assert_eq!(handle_key(&mut app_state, control_press(KeyCode::Char('c'))), KeyOutcome::Exit);
}

#[test]
fn key_release_is_ignored() {
    let mut app_state = TuiAppState::default();
    let release = KeyInput { code: KeyCode::Char('q'), is_press: false, control: false, shift: false };

    assert_eq!(handle_key(&mut app_state, release), KeyOutcome::Ignored);
    assert_eq!(app_state.focused_pane(), TuiPane::ProcessSelector);
}

#[test]
fn tab_then_back_tab_returns_focus() {
    let mut app_state = TuiAppState::default();

    assert_eq!(handle_key(&mut app_state, press(KeyCode::Tab)), KeyOutcome::Handled);
    assert_eq!(app_state.focused_pane(), TuiPane::ElementScanner);
    assert_eq!(handle_key(&mut app_state, press(KeyCode::BackTab)), KeyOutcome::Handled);
    assert_eq!(app_state.focused_pane(), TuiPane::ProcessSelector);
}

#[test]
fn back_tab_wraps_to_last_visible_pane() {
    let mut app_state = TuiAppState::default();

    handle_key(&mut app_state, press(KeyCode::BackTab));

    assert_eq!(app_state.focused_pane(), TuiPane::Settings);
}

#[test]
fn digit_focuses_pane_and_control_digit_toggles_it() {
    let mut app_state = TuiAppState::default();

    assert_eq!(handle_key(&mut app_state, press(KeyCode::Char('3'))), KeyOutcome::Handled);
    assert_eq!(app_state.focused_pane(), TuiPane::ScanResults);

    handle_key(&mut app_state, control_press(KeyCode::Char('6')));
    assert!(!app_state.is_pane_visible(TuiPane::Output));
    assert_eq!(app_state.focused_pane(), TuiPane::ScanResults);

    handle_key(&mut app_state, control_press(KeyCode::Char('6')));
    assert!(app_state.is_pane_visible(TuiPane::Output));
}

#[test]
fn v_hides_focused_pane_and_zero_shows_all() {
    let mut app_state = TuiAppState::default();

    handle_key(&mut app_state, press(KeyCode::Char('v')));
    assert!(!app_state.is_pane_visible(TuiPane::ProcessSelector));
    assert!(app_state.is_pane_visible(app_state.focused_pane()));

    handle_key(&mut app_state, press(KeyCode::Char('0')));
    assert!(app_state.is_pane_visible(TuiPane::ProcessSelector));
}

#[test]
fn hiding_last_visible_pane_is_refused() {
    let mut app_state = TuiAppState::default();
    for digit in ['2', '3', '4', '5', '6', '7'] {
        handle_key(&mut app_state, control_press(KeyCode::Char(digit)));
    }
    assert_eq!(app_state.visible_panes_in_order(), vec![TuiPane::ProcessSelector]);

    let accepted = app_state.toggle_focused_pane_visibility();

    assert!(!accepted);
    assert_eq!(app_state.visible_panes_in_order(), vec![TuiPane::ProcessSelector]);
    assert_eq!(app_state.focused_pane(), TuiPane::ProcessSelector);
}

#[test]
fn other_character_keys_never_reach_the_pane() {
    let mut app_state = TuiAppState::default();

    assert_eq!(handle_key(&mut app_state, press(KeyCode::Char('r'))), KeyOutcome::Handled);
    assert_eq!(handle_key(&mut app_state, press(KeyCode::Char('x'))), KeyOutcome::Handled);
    assert_eq!(app_state.focused_pane(), TuiPane::ProcessSelector);
}

#[test]
fn down_arrow_moves_process_selection() {
    let mut app_state = TuiAppState::default();
    app_state.process_selector_pane_state.apply_process_list(vec![
        ProcessInfo::new(10, "alpha".to_string(), true),
        ProcessInfo::new(20, "beta".to_string(), false),
    ]);
    assert_eq!(app_state.process_selector_pane_state.selected_process_list_index, Some(0));

    let outcome = handle_key(&mut app_state, press(KeyCode::Down));

    assert_eq!(outcome, KeyOutcome::Pane(PaneKeyAction::ProcessSelector(ProcessSelectorKeyAction::NoAction)));
    assert_eq!(app_state.process_selector_pane_state.selected_process_list_index, Some(1));
    assert_eq!(app_state.process_selector_pane_state.selected_process_identifier, Some(20));
}

#[test]
fn enter_on_process_selector_asks_to_open_process() {
    let mut app_state = TuiAppState::default();

    let outcome = handle_key(&mut app_state, press(KeyCode::Enter));

    assert_eq!(outcome, KeyOutcome::Pane(PaneKeyAction::ProcessSelector(ProcessSelectorKeyAction::OpenSelectedProcess)));
}

#[test]
fn enter_on_scan_results_commits_value_edit() {
    let mut app_state = TuiAppState::default();
    handle_key(&mut app_state, press(KeyCode::Char('3')));

    let outcome = handle_key(&mut app_state, press(KeyCode::Enter));

    match outcome {
        KeyOutcome::Pane(PaneKeyAction::ScanResults(scan_results_outcome)) => {
            assert_eq!(scan_results_outcome.action, ScanResultsKeyAction::CommitValueEdit);
        }
        other => panic!("unexpected outcome {:?}", other),
    }
}

#[test]
fn enter_on_settings_applies_selected_category() {
    let mut app_state = TuiAppState::default();
    handle_key(&mut app_state, press(KeyCode::Char('7')));

    let outcome = handle_key(&mut app_state, press(KeyCode::Enter));

    assert_eq!(outcome, KeyOutcome::Pane(PaneKeyAction::Settings(SettingsKeyAction::ApplySelectedCategory)));
}

#[test]
fn delete_on_output_clears_log_lines() {
    let mut app_state = TuiAppState::default();
    handle_key(&mut app_state, press(KeyCode::Char('6')));

    let outcome = handle_key(&mut app_state, press(KeyCode::Delete));

    assert_eq!(outcome, KeyOutcome::Pane(PaneKeyAction::Output(OutputKeyAction::NoAction)));
    assert!(app_state.output_pane_state.log_lines.is_empty());
    assert_eq!(app_state.output_pane_state.status_message, "Cleared output pane log lines.");
}

#[test]
fn left_on_project_explorer_collapses_hierarchy_when_items_focused() {
    let mut app_state = TuiAppState::default();
    handle_key(&mut app_state, press(KeyCode::Char('4')));

    let outcome = handle_key(&mut app_state, press(KeyCode::Left));

    match outcome {
        KeyOutcome::Pane(PaneKeyAction::ProjectExplorer(action)) => {
            assert!(
                action == ProjectExplorerKeyAction::NoAction
                    || action == ProjectExplorerKeyAction::Hierarchy(ProjectHierarchyCommand::CollapseSelectedDirectory)
            );
        }
        other => panic!("unexpected outcome {:?}", other),
    }
}

#[test]
fn struct_viewer_key_commands_follow_bindings() {
    assert_eq!(struct_viewer_key_command(press(KeyCode::Char('r'))), Some(StructViewerKeyCommand::RefreshFromSource));
    assert_eq!(struct_viewer_key_command(press(KeyCode::Char('j'))), Some(StructViewerKeyCommand::SelectNextField));
    assert_eq!(struct_viewer_key_command(press(KeyCode::Up)), Some(StructViewerKeyCommand::SelectPreviousField));
    assert_eq!(struct_viewer_key_command(press(KeyCode::Char('['))), Some(StructViewerKeyCommand::PreviousDisplayFormat));
    assert_eq!(struct_viewer_key_command(press(KeyCode::Enter)), Some(StructViewerKeyCommand::CommitFieldEdit));
    assert_eq!(struct_viewer_key_command(control_press(KeyCode::Char('u'))), Some(StructViewerKeyCommand::ClearEdit));
    assert_eq!(struct_viewer_key_command(press(KeyCode::Char('u'))), Some(StructViewerKeyCommand::TypeEditCharacter('u')));
    assert_eq!(struct_viewer_key_command(press(KeyCode::Tab)), None);
}

#[test]
fn tick_refreshes_process_list_only_when_empty_and_idle() {
    let mut app_state = TuiAppState::default();
    assert!(should_refresh_process_list_on_tick(&app_state));

    app_state.process_selector_pane_state.is_awaiting_process_list_response = true;
    assert!(!should_refresh_process_list_on_tick(&app_state));

    app_state.process_selector_pane_state.is_awaiting_process_list_response = false;
    app_state
        .process_selector_pane_state
        .apply_process_list(vec![ProcessInfo::new(1, "one".to_string(), true)]);
    assert!(!should_refresh_process_list_on_tick(&app_state));
}

#[test]
fn u_in_project_items_clears_staged_move_with_status() {
    let mut project_explorer_pane_state = ProjectExplorerPaneState::default();
    project_explorer_pane_state.focus_target = ProjectExplorerFocusTarget::ProjectHierarchy;
    project_explorer_pane_state.pending_move_source_paths = vec!["/p/a".to_string()];

    let action = handle_project_explorer_key(&mut project_explorer_pane_state, press(KeyCode::Char('u')));

    assert_eq!(action, ProjectExplorerKeyAction::Hierarchy(ProjectHierarchyCommand::ClearStagedMove));
    assert!(project_explorer_pane_state.pending_move_source_paths.is_empty());
    assert_eq!(project_explorer_pane_state.status_message, "Cleared staged project item move.");
}
