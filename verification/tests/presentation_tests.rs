use squalr_tui::app_state::TuiAppState;
use squalr_tui::pane::TuiPane;
use squalr_tui::pane_entry_row::PaneEntryRowTone;
use squalr_tui::pane_layout::PaneLayoutState;
use squalr_tui::project_hierarchy::ProjectHierarchyFrameAction;
use squalr_tui::rendering::{entry_row_marker_cell, pane_columns, pane_frame_title};
use squalr_tui::session::{
    condense_path_for_session, engine_mode_header_text, footer_exit_controls_line, footer_navigation_controls_line,
    session_active_project_metadata_line, session_opened_process_metadata_line, EngineMode,
};
use squalr_tui::theme::{Rgb, TuiTheme};

#[test]
fn condensed_path_keeps_last_two_segments() {
    assert_eq!(condense_path_for_session("C:\\games\\saves\\slot1"), ".../saves/slot1");
    assert_eq!(condense_path_for_session("/home/user/projects/demo"), ".../projects/demo");
}

#[test]
fn short_path_is_only_normalized() {
    assert_eq!(condense_path_for_session("a\\b"), "a/b");
    assert_eq!(condense_path_for_session(""), "");
}

#[test]
fn engine_mode_and_footer_texts() {
    assert_eq!(engine_mode_header_text(EngineMode::Standalone), "[MODE] Squalr TUI | Standalone.");
    assert_eq!(engine_mode_header_text(EngineMode::PrivilegedShell), "[MODE] Squalr TUI | Privileged Shell.");
    assert!(footer_navigation_controls_line().starts_with("[NAV]"));
    assert_eq!(footer_exit_controls_line(), "[EXIT] q / Esc / Ctrl+C.");
}

#[test]
fn session_metadata_lines_describe_defaults() {
    let app_state = TuiAppState::default();

    assert_eq!(session_opened_process_metadata_line(&app_state), "[PROC] none.");
    assert_eq!(session_active_project_metadata_line(&app_state), "[PROJ] none.");
}

#[test]
fn pane_frame_title_marks_focus() {
    assert_eq!(pane_frame_title(TuiPane::ScanResults, true), "Scan Results [3] *");
    assert_eq!(pane_frame_title(TuiPane::Settings, false), "Settings [7]");
}

#[test]
fn marker_cell_is_right_aligned() {
    assert_eq!(entry_row_marker_cell(""), "   ");
    assert_eq!(entry_row_marker_cell("*"), " * ");
    assert_eq!(entry_row_marker_cell(">>"), ">> ");
}

#[test]
fn pane_columns_split_visible_panes() {
    let mut layout = PaneLayoutState::default();
    layout.toggle_pane_visibility(TuiPane::Settings);

    let (left_column, right_column) = pane_columns(&layout);

    assert_eq!(left_column, vec![TuiPane::ProcessSelector, TuiPane::ProjectExplorer]);
    assert_eq!(right_column, vec![TuiPane::ElementScanner, TuiPane::ScanResults, TuiPane::StructViewer, TuiPane::Output]);
}

#[test]
fn mix_color_averages_channels() {
    let mixed = TuiTheme::mix_color(Rgb { red: 10, green: 255, blue: 0 }, Rgb { red: 21, green: 255, blue: 1 });

    assert_eq!(mixed, Rgb { red: 15, green: 255, blue: 0 });
}

#[test]
fn focused_pane_block_uses_accent_color() {
    let focused_block = TuiTheme::pane_block(TuiPane::Output, true);
    let unfocused_block = TuiTheme::pane_block(TuiPane::Output, false);
    let accent_color = TuiTheme::pane_accent_color(TuiPane::Output);

    assert_eq!(focused_block.border_color, accent_color);
    assert!(focused_block.title_style.unwrap().is_bold);
    assert_eq!(unfocused_block.border_color, TuiTheme::mix_color(accent_color, Rgb { red: 71, green: 85, blue: 105 }));
}

#[test]
fn entry_row_styles_follow_tone() {
    assert!(TuiTheme::pane_entry_marker_style(PaneEntryRowTone::Selected).is_bold);
    assert!(!TuiTheme::pane_entry_marker_style(PaneEntryRowTone::Normal).is_bold);
    assert_eq!(
        TuiTheme::pane_entry_primary_style(PaneEntryRowTone::Disabled).foreground,
        Some(Rgb { red: 148, green: 163, blue: 184 })
    );
}

#[test]
fn frame_actions_compare_by_value() {
    let action = ProjectHierarchyFrameAction::SetProjectItemActivation("/p/a.json".to_string(), true);

    assert_eq!(action.clone(), action);
    assert_ne!(action, ProjectHierarchyFrameAction::NoAction);
}
