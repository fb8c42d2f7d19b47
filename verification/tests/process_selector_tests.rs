use squalr_tui::process_selector::{
    build_process_selector_summary_lines, OpenedProcessInfo, ProcessInfo, ProcessSelectorInputMode, ProcessSelectorPaneState,
};

#[test]
fn apply_process_list_selects_first_process() {
    let mut process_selector_pane_state = ProcessSelectorPaneState::default();
    process_selector_pane_state.apply_process_list(vec![
        ProcessInfo::new(101, "alpha.exe".to_string(), true),
        ProcessInfo::new(202, "beta.exe".to_string(), true),
    ]);

    assert_eq!(process_selector_pane_state.selected_process_list_index, Some(0));
    assert_eq!(process_selector_pane_state.selected_process_identifier, Some(101));
    assert_eq!(process_selector_pane_state.selected_process_name, Some("alpha.exe".to_string()));
}

#[test]
fn process_selection_wraps_forward_and_backward() {
    let mut process_selector_pane_state = ProcessSelectorPaneState::default();
    process_selector_pane_state.apply_process_list(vec![
        ProcessInfo::new(101, "alpha.exe".to_string(), true),
        ProcessInfo::new(202, "beta.exe".to_string(), true),
    ]);

    process_selector_pane_state.select_next_process();
    assert_eq!(process_selector_pane_state.selected_process_identifier, Some(202));

    process_selector_pane_state.select_next_process();
    assert_eq!(process_selector_pane_state.selected_process_identifier, Some(101));

    process_selector_pane_state.select_previous_process();
    assert_eq!(process_selector_pane_state.selected_process_identifier, Some(202));
}

#[test]
fn apply_process_list_preserves_selected_process_by_identifier() {
    let mut process_selector_pane_state = ProcessSelectorPaneState::default();
    process_selector_pane_state.apply_process_list(vec![
        ProcessInfo::new(101, "alpha.exe".to_string(), true),
        ProcessInfo::new(202, "beta.exe".to_string(), true),
    ]);
    process_selector_pane_state.select_next_process();
    assert_eq!(process_selector_pane_state.selected_process_identifier, Some(202));

    process_selector_pane_state.apply_process_list(vec![
        ProcessInfo::new(303, "gamma.exe".to_string(), true),
        ProcessInfo::new(202, "beta.exe".to_string(), true),
    ]);

    assert_eq!(process_selector_pane_state.selected_process_list_index, Some(1));
    assert_eq!(process_selector_pane_state.selected_process_identifier, Some(202));
}

#[test]
fn empty_process_list_clears_selection() {
    let mut process_selector_pane_state = ProcessSelectorPaneState::default();
    process_selector_pane_state.apply_process_list(vec![ProcessInfo::new(7, "seven".to_string(), false)]);
    process_selector_pane_state.apply_process_list(Vec::new());

    assert_eq!(process_selector_pane_state.selected_process_list_index, None);
    assert_eq!(process_selector_pane_state.selected_process_identifier, None);
    assert_eq!(process_selector_pane_state.selected_process_id(), None);
    process_selector_pane_state.select_next_process();
    assert_eq!(process_selector_pane_state.selected_process_list_index, None);
}

#[test]
fn search_input_filters_characters_and_trims() {
    let mut process_selector_pane_state = ProcessSelectorPaneState::default();
    process_selector_pane_state.begin_search_input();
    assert_eq!(process_selector_pane_state.input_mode, ProcessSelectorInputMode::Search);
    for character in [' ', 'a', '\u{7}', 'b', ' ', 'é'] {
        process_selector_pane_state.append_pending_search_character(character);
    }
    assert_eq!(process_selector_pane_state.pending_search_name_input, " ab ");
    assert_eq!(process_selector_pane_state.pending_search_name_trimmed(), Some("ab".to_string()));
    process_selector_pane_state.backspace_pending_search_name();
    assert_eq!(process_selector_pane_state.pending_search_name_input, " ab");
    process_selector_pane_state.commit_search_input();
    assert_eq!(process_selector_pane_state.input_mode, ProcessSelectorInputMode::NoInput);
    assert_eq!(process_selector_pane_state.pending_search_name_input, " ab");
    process_selector_pane_state.clear_pending_search_name();
    assert_eq!(process_selector_pane_state.pending_search_name_trimmed(), None);
    process_selector_pane_state.append_pending_search_character('x');
    process_selector_pane_state.cancel_search_input();
    assert!(process_selector_pane_state.pending_search_name_input.is_empty());
}

#[test]
fn opening_a_process_closes_the_selector_view() {
    let mut process_selector_pane_state = ProcessSelectorPaneState::default();
    process_selector_pane_state.set_opened_process(Some(OpenedProcessInfo { process_id: 42, name: "game.exe".to_string() }));
    assert_eq!(process_selector_pane_state.opened_process_identifier, Some(42));
    assert!(!process_selector_pane_state.is_process_selector_view_active);
    process_selector_pane_state.set_opened_process(None);
    assert_eq!(process_selector_pane_state.opened_process_name, None);
    assert!(process_selector_pane_state.is_process_selector_view_active);
}

#[test]
fn process_summary_and_rows_show_selection_and_opened_process() {
    let mut process_selector_pane_state = ProcessSelectorPaneState::default();
    process_selector_pane_state.apply_process_list(vec![
        ProcessInfo::new(101, "alpha.exe".to_string(), true),
        ProcessInfo::new(202, "beta.exe".to_string(), true),
    ]);
    process_selector_pane_state.set_opened_process(Some(OpenedProcessInfo { process_id: 202, name: "beta.exe".to_string() }));

    let summary_lines = build_process_selector_summary_lines(&process_selector_pane_state);
    assert_eq!(summary_lines[0], "[ACT] r refresh | w windowed/full | Enter/o open.");
    assert_eq!(summary_lines[4], "[SEL] id=101 | name=\"alpha.exe\".");
    assert_eq!(summary_lines[5], "[OPEN] id=202 | name=\"beta.exe\".");

    let entry_rows = process_selector_pane_state.visible_process_entry_rows(5);
    assert_eq!(entry_rows.len(), 2);
    assert_eq!(entry_rows[0].primary_text, "alpha.exe");
    assert_eq!(entry_rows[0].secondary_text, Some("pid=101".to_string()));
    assert_eq!(entry_rows[1].marker_text, "*");
}
