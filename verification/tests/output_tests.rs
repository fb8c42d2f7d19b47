use squalr_tui::output::{build_output_summary_lines, LogEvent, LogLevel, OutputPaneState};

fn log_event(level: LogLevel, message: &str) -> LogEvent {
    LogEvent { level, message: message.to_string() }
}

#[test]
fn summary_uses_condensed_marker_group_lead_lines() {
    let output_pane_state = OutputPaneState::default();
    let summary_lines = build_output_summary_lines(&output_pane_state, 8);

    assert!(summary_lines[0].starts_with("[ACT]"));
}

#[test]
fn preview_capacity_zero_hides_recent_log_section() {
    let mut output_pane_state = OutputPaneState::default();
    output_pane_state.log_lines = vec!["[INFO] line-1".to_string(), "[INFO] line-2".to_string()];

    let summary_lines = build_output_summary_lines(&output_pane_state, 0);
    let recent_line_count = summary_lines
        .iter()
        .filter(|summary_line| summary_line.starts_with("[RECENT]") || summary_line.starts_with("[LOG]"))
        .count();

    assert_eq!(recent_line_count, 0);
}

#[test]
fn condensed_summary_previews_latest_lines_within_capacity() {
    let mut output_pane_state = OutputPaneState::default();
    output_pane_state.log_lines = vec!["a".to_string(), "b".to_string(), "c".to_string()];

    let summary_lines = build_output_summary_lines(&output_pane_state, 3);

    assert_eq!(
        summary_lines,
        vec![
            "[ACT] r refresh-log | x clear | +/- max-lines.",
            "[META] log_line_count=3 | max_log_lines=200 | auto_scroll_latest=false.",
            "[STAT] Ready..",
            "[RECENT]",
            "[LOG] b",
            "[LOG] c",
        ]
    );
}

#[test]
fn apply_log_history_trims_to_max_line_count() {
    let mut output_pane_state = OutputPaneState { max_log_line_count: 2, ..OutputPaneState::default() };

    output_pane_state.apply_log_history_with_feedback(
        vec![
            log_event(LogLevel::Info, "line1"),
            log_event(LogLevel::Warn, "line2"),
            log_event(LogLevel::Error, "line3"),
        ],
        true,
    );

    assert_eq!(output_pane_state.log_lines.len(), 2);
    assert!(output_pane_state.log_lines[0].contains("line2"));
    assert!(output_pane_state.log_lines[1].contains("line3"));
}

#[test]
fn apply_log_history_formats_levels_and_reports_count() {
    let mut output_pane_state = OutputPaneState::default();

    output_pane_state.apply_log_history_with_feedback(
        vec![log_event(LogLevel::Warn, "disk"), log_event(LogLevel::Trace, "tick")],
        true,
    );

    assert_eq!(output_pane_state.log_lines, vec!["[WARN] disk", "[TRACE] tick"]);
    assert_eq!(output_pane_state.status_message, "Loaded 2 log lines.");
    assert!(output_pane_state.did_auto_scroll_to_latest);
}

#[test]
fn clear_log_lines_resets_collection() {
    let mut output_pane_state = OutputPaneState::default();
    output_pane_state.log_lines = vec!["existing".to_string()];

    output_pane_state.clear_log_lines();

    assert!(output_pane_state.log_lines.is_empty());
}

#[test]
fn apply_log_history_can_preserve_status_message() {
    let mut output_pane_state = OutputPaneState::default();
    output_pane_state.status_message = "Manual status should remain.".to_string();

    output_pane_state.apply_log_history_with_feedback(vec![log_event(LogLevel::Info, "line")], false);

    assert_eq!(output_pane_state.status_message, "Manual status should remain.");
}

#[test]
fn max_line_count_steps_within_limits() {
    let mut output_pane_state = OutputPaneState { max_log_line_count: 1990, ..OutputPaneState::default() };
    output_pane_state.increase_max_line_count();
    assert_eq!(output_pane_state.max_log_line_count, 2000);
    output_pane_state.increase_max_line_count();
    assert_eq!(output_pane_state.max_log_line_count, 2000);

    let mut output_pane_state = OutputPaneState { max_log_line_count: 40, ..OutputPaneState::default() };
    output_pane_state.log_lines = (0..40).map(|line_number| format!("line{line_number}")).collect();
    output_pane_state.decrease_max_line_count();
    assert_eq!(output_pane_state.max_log_line_count, 25);
    assert_eq!(output_pane_state.log_lines.len(), 25);
    assert_eq!(output_pane_state.log_lines[0], "line15");
    output_pane_state.decrease_max_line_count();
    assert_eq!(output_pane_state.max_log_line_count, 25);
}

#[test]
fn pane_summary_lists_counters_and_latest_eight_lines() {
    let mut output_pane_state = OutputPaneState::default();
    output_pane_state.log_lines = (0..10).map(|line_number| format!("l{line_number}")).collect();

    let summary_lines = output_pane_state.summary_lines();

    assert_eq!(summary_lines[0], "Actions: r refresh log history, x clear, +/- max lines.");
    assert_eq!(summary_lines[1], "log_line_count=10");
    assert_eq!(summary_lines[2], "max_log_lines=200");
    assert_eq!(summary_lines[3], "auto_scroll_latest=false");
    assert_eq!(summary_lines[4], "status=Ready.");
    assert_eq!(summary_lines[5], "Recent:");
    assert_eq!(summary_lines.len(), 14);
    assert_eq!(summary_lines[6], "l2");
    assert_eq!(summary_lines[13], "l9");
}
