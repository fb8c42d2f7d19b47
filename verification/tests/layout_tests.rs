use squalr_tui::app_state::TuiAppState;
use squalr_tui::pane::{pane_layout_weights, TuiPane};
use squalr_tui::pane_layout::PaneLayoutState;
use squalr_tui::viewport::build_selection_relative_viewport_range;
use squalr_tui::workspace_page::TuiWorkspacePage;

#[test]
fn pane_layout_weights_boosts_focused_pane_weight() {
    let panes = vec![TuiPane::ElementScanner, TuiPane::ScanResults, TuiPane::StructViewer];

    let pane_weights = pane_layout_weights(&panes, TuiPane::StructViewer);

    assert_eq!(pane_weights, vec![4, 6, 7]);
}

#[test]
fn pane_layout_weights_does_not_boost_unlisted_focused_pane() {
    let panes = vec![TuiPane::ProcessSelector, TuiPane::Settings];

    let pane_weights = pane_layout_weights(&panes, TuiPane::Output);

    assert_eq!(pane_weights, vec![3, 2]);
}

#[test]
fn viewport_defaults_to_top_when_selection_missing() {
    assert_eq!(build_selection_relative_viewport_range(20, None, 5), 0..5);
}

#[test]
fn viewport_centers_around_middle_selection() {
    assert_eq!(build_selection_relative_viewport_range(20, Some(10), 5), 8..13);
}

#[test]
fn viewport_clamps_to_bottom_for_tail_selection() {
    assert_eq!(build_selection_relative_viewport_range(20, Some(19), 5), 15..20);
}

#[test]
fn viewport_clamps_invalid_selection_to_top() {
    assert_eq!(build_selection_relative_viewport_range(20, Some(99), 5), 0..5);
}

#[test]
fn viewport_shows_everything_when_capacity_exceeds_count() {
    assert_eq!(build_selection_relative_viewport_range(3, Some(2), 10), 0..3);
    assert_eq!(build_selection_relative_viewport_range(0, None, 5), 0..0);
    assert_eq!(build_selection_relative_viewport_range(20, Some(10), 0), 0..0);
}

#[test]
fn viewport_window_contains_selection_in_range() {
    for selected in 0..20usize {
        let range = build_selection_relative_viewport_range(20, Some(selected), 5);
        assert!(range.contains(&selected));
        assert_eq!(range.len(), 5);
    }
}

#[test]
fn app_state_cycle_focus_forward_skips_hidden_panes() {
    let mut app_state = TuiAppState::default();
    app_state.toggle_pane_visibility(TuiPane::ElementScanner);
    app_state.toggle_pane_visibility(TuiPane::ScanResults);
    app_state.set_focus_to_pane(TuiPane::ProcessSelector);

    app_state.cycle_focus_forward();

    assert_eq!(app_state.focused_pane(), TuiPane::ProjectExplorer);
}

#[test]
fn app_state_hiding_last_visible_pane_is_rejected() {
    let mut app_state = TuiAppState::default();
    for pane in TuiPane::all_panes().into_iter().filter(|pane| *pane != TuiPane::Settings) {
        let toggle_succeeded = app_state.toggle_pane_visibility(pane);
        assert!(toggle_succeeded);
    }

    let final_toggle_succeeded = app_state.toggle_pane_visibility(TuiPane::Settings);

    assert!(!final_toggle_succeeded);
    assert!(app_state.is_pane_visible(TuiPane::Settings));
}

#[test]
fn app_state_focusing_hidden_pane_makes_it_visible() {
    let mut app_state = TuiAppState::default();
    let hide_succeeded = app_state.toggle_pane_visibility(TuiPane::Output);
    assert!(hide_succeeded);
    assert!(!app_state.is_pane_visible(TuiPane::Output));

    app_state.set_focus_to_pane(TuiPane::Output);

    assert!(app_state.is_pane_visible(TuiPane::Output));
    assert_eq!(app_state.focused_pane(), TuiPane::Output);
}

#[test]
fn mod_cycle_focus_forward_skips_hidden_panes() {
    let mut app_state = TuiAppState::default();
    app_state.toggle_pane_visibility(TuiPane::ElementScanner);
    app_state.toggle_pane_visibility(TuiPane::ScanResults);
    app_state.set_focus_to_pane(TuiPane::ProcessSelector);

    app_state.cycle_focus_forward();

    assert_eq!(app_state.focused_pane(), TuiPane::ProjectExplorer);
}

#[test]
fn mod_hiding_last_visible_pane_is_rejected() {
    let mut app_state = TuiAppState::default();
    for pane in TuiPane::all_panes().into_iter().filter(|pane| *pane != TuiPane::Settings) {
        let toggle_succeeded = app_state.toggle_pane_visibility(pane);
        assert!(toggle_succeeded);
    }

    let final_toggle_succeeded = app_state.toggle_pane_visibility(TuiPane::Settings);

    assert!(!final_toggle_succeeded);
    assert!(app_state.is_pane_visible(TuiPane::Settings));
}

#[test]
fn mod_focusing_hidden_pane_makes_it_visible() {
    let mut app_state = TuiAppState::default();
    let hide_succeeded = app_state.toggle_pane_visibility(TuiPane::Output);
    assert!(hide_succeeded);
    assert!(!app_state.is_pane_visible(TuiPane::Output));

    app_state.set_focus_to_pane(TuiPane::Output);

    assert!(app_state.is_pane_visible(TuiPane::Output));
    assert_eq!(app_state.focused_pane(), TuiPane::Output);
}

#[test]
fn cycle_focus_forward_then_backward_returns_to_start() {
    let mut app_state = TuiAppState::default();
    app_state.toggle_pane_visibility(TuiPane::ScanResults);
    app_state.set_focus_to_pane(TuiPane::Settings);

    app_state.cycle_focus_forward();
    assert_eq!(app_state.focused_pane(), TuiPane::ProcessSelector);
    app_state.cycle_focus_backward();
    assert_eq!(app_state.focused_pane(), TuiPane::Settings);

    app_state.cycle_focus_backward();
    assert_eq!(app_state.focused_pane(), TuiPane::Output);
    app_state.cycle_focus_forward();
    assert_eq!(app_state.focused_pane(), TuiPane::Settings);
}

#[test]
fn hiding_focused_pane_moves_focus_to_first_visible_pane() {
    let mut app_state = TuiAppState::default();
    app_state.set_focus_to_pane(TuiPane::Output);

    assert!(app_state.toggle_focused_pane_visibility());

    assert!(!app_state.is_pane_visible(TuiPane::Output));
    assert_eq!(app_state.focused_pane(), TuiPane::ProcessSelector);

    app_state.show_all_panes();
    assert_eq!(app_state.visible_panes_in_order(), TuiPane::all_panes().to_vec());
    assert_eq!(app_state.focused_pane(), TuiPane::ProcessSelector);
}

#[test]
fn layout_counts_visible_panes_in_focus_order() {
    let mut layout = PaneLayoutState::default();
    assert_eq!(layout.visible_pane_count(), 7);
    assert!(layout.set_pane_visibility(TuiPane::ElementScanner, false));
    assert!(layout.set_pane_visibility(TuiPane::Output, false));
    assert_eq!(layout.visible_pane_count(), 5);
    assert_eq!(
        layout.visible_panes_in_order(),
        vec![TuiPane::ProcessSelector, TuiPane::ScanResults, TuiPane::ProjectExplorer, TuiPane::StructViewer, TuiPane::Settings]
    );
    layout.show_all_panes();
    assert_eq!(layout.visible_pane_count(), 7);
}

#[test]
fn pane_shortcut_digits_round_trip() {
    for pane in TuiPane::all_panes() {
        assert_eq!(TuiPane::from_shortcut_digit(pane.shortcut_digit()), Some(pane));
    }
    assert_eq!(TuiPane::from_shortcut_digit('8'), None);
    assert_eq!(TuiPane::from_shortcut_digit('0'), None);
    assert_eq!(TuiPane::ScanResults.title(), "Scan Results");
    assert_eq!(TuiPane::Settings.to_index(), 6);
    assert_eq!(TuiPane::default(), TuiPane::ProcessSelector);
}

#[test]
fn workspace_pages_map_digits_titles_and_panes() {
    assert_eq!(TuiWorkspacePage::from_shortcut_digit('1'), Some(TuiWorkspacePage::ProjectWorkspace));
    assert_eq!(TuiWorkspacePage::from_shortcut_digit('2'), Some(TuiWorkspacePage::ScannerWorkspace));
    assert_eq!(TuiWorkspacePage::from_shortcut_digit('3'), Some(TuiWorkspacePage::SettingsWorkspace));
    assert_eq!(TuiWorkspacePage::from_shortcut_digit('4'), None);
    assert_eq!(TuiWorkspacePage::ScannerWorkspace.title(), "Scanner Workspace");
    assert_eq!(
        TuiWorkspacePage::ProjectWorkspace.visible_panes(),
        &[TuiPane::ProcessSelector, TuiPane::ProjectExplorer, TuiPane::Output]
    );
    assert_eq!(TuiWorkspacePage::SettingsWorkspace.visible_panes(), &[TuiPane::Settings, TuiPane::Output]);
    assert_eq!(TuiWorkspacePage::default(), TuiWorkspacePage::ProjectWorkspace);
}
