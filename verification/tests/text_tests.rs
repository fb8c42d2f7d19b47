use squalr_tui::paths::ProjectInfo;
use squalr_tui::project_explorer::ProjectExplorerPaneState;
use squalr_tui::struct_viewer::{
    build_struct_viewer_summary_lines, StructFieldDisplayValue, StructFieldView, StructViewerPaneState, StructViewerSource,
};
use squalr_tui::text::{debug_option_text, decimal_text, non_blank_trimmed, trimmed};

#[test]
fn typed_name_characters_are_appended_and_removed() {
    let mut project_explorer_pane_state = ProjectExplorerPaneState::default();
    project_explorer_pane_state.pending_project_name_input = "ab".to_string();

    project_explorer_pane_state.append_pending_project_name_character('c');
    assert_eq!(project_explorer_pane_state.pending_project_name_input, "abc");
    project_explorer_pane_state.backspace_pending_project_name();
    assert_eq!(project_explorer_pane_state.pending_project_name_input, "ab");

    project_explorer_pane_state.pending_project_name_input = String::new();
    project_explorer_pane_state.backspace_pending_project_name();
    assert_eq!(project_explorer_pane_state.pending_project_name_input, "");
}

#[test]
fn debug_text_quotes_and_escapes() {
    assert_eq!(debug_option_text(&Some("plain".to_string())), "Some(\"plain\")");
    assert_eq!(debug_option_text(&Some("a\"b\n".to_string())), "Some(\"a\\\"b\\n\")");
    assert_eq!(debug_option_text(&None), "None");
}

#[test]
fn decimal_and_trim_helpers() {
    assert_eq!(decimal_text(0), "0");
    assert_eq!(decimal_text(18446744073709551615), "18446744073709551615");
    assert_eq!(trimmed(" \t name \u{3000}"), "name");
    assert_eq!(non_blank_trimmed("   "), None);
    assert_eq!(non_blank_trimmed(" a b "), Some("a b".to_string()));
}

#[test]
fn project_info_takes_directory_and_name_from_file_path() {
    let project_info = ProjectInfo::new("root/games/demo/project.json");
    assert_eq!(project_info.project_directory.as_deref(), Some("root/games/demo"));
    assert_eq!(project_info.get_name(), "demo");

    let project_info = ProjectInfo::new("/");
    assert_eq!(project_info.project_directory, None);
    assert_eq!(project_info.get_name(), "");
}

#[test]
fn struct_viewer_summary_shows_selection_in_debug_form() {
    let mut struct_viewer_pane_state = StructViewerPaneState::default();
    let summary_lines = build_struct_viewer_summary_lines(&struct_viewer_pane_state);
    assert_eq!(summary_lines.len(), 16);
    assert_eq!(summary_lines[0], "Actions: r refresh source, Up/Down or j/k select field, Enter commit field edit.");
    assert_eq!(summary_lines[3], "source=None");
    assert_eq!(summary_lines[4], "selected_struct=None");
    assert_eq!(summary_lines[5], "field_count=0");
    assert_eq!(summary_lines[6], "selected_field=None");
    assert_eq!(summary_lines[8], "selected_field_format=none");
    assert_eq!(summary_lines[9], "selected_field_format_index=0/0");
    assert_eq!(summary_lines[11], "uncommitted_edit=false");
    assert_eq!(summary_lines[15], "status=");

    struct_viewer_pane_state.source = StructViewerSource::ScanResults;
    struct_viewer_pane_state.selected_struct_name = Some("Player".to_string());
    struct_viewer_pane_state.has_uncommitted_edit = true;
    struct_viewer_pane_state.selected_field_display_format = Some("dec".to_string());
    struct_viewer_pane_state.selected_field_display_format_progress = Some((1, 3));
    struct_viewer_pane_state.selected_field_position = Some(0);
    struct_viewer_pane_state.focused_fields = Some(vec![
        StructFieldView {
            name: "health".to_string(),
            kind_marker: "V".to_string(),
            editability_marker: "RW".to_string(),
            active_display_value: Some(StructFieldDisplayValue { format_label: "dec".to_string(), value: "100".to_string() }),
        },
        StructFieldView {
            name: "position".to_string(),
            kind_marker: "S".to_string(),
            editability_marker: "RO".to_string(),
            active_display_value: None,
        },
    ]);
    let summary_lines = struct_viewer_pane_state.summary_lines();
    assert_eq!(summary_lines.len(), 18);
    assert_eq!(summary_lines[3], "source=ScanResults");
    assert_eq!(summary_lines[4], "selected_struct=Some(\"Player\")");
    assert_eq!(summary_lines[5], "field_count=2");
    assert_eq!(summary_lines[8], "selected_field_format=dec");
    assert_eq!(summary_lines[9], "selected_field_format_index=2/3");
    assert_eq!(summary_lines[11], "uncommitted_edit=true");
    assert_eq!(summary_lines[16], "> [V|RW] health (dec) = 100");
    assert_eq!(summary_lines[17], "  [S|RO] position = <nested>");
}

#[test]
fn struct_viewer_summary_shows_at_most_five_field_rows() {
    let mut struct_viewer_pane_state = StructViewerPaneState::default();
    let mut fields = Vec::new();
    for field_number in 0..7 {
        fields.push(StructFieldView {
            name: format!("f{}", field_number),
            kind_marker: "V".to_string(),
            editability_marker: "RW".to_string(),
            active_display_value: None,
        });
    }
    struct_viewer_pane_state.focused_fields = Some(fields);
    let summary_lines = struct_viewer_pane_state.summary_lines();
    assert_eq!(summary_lines.len(), 21);
    assert_eq!(summary_lines[5], "field_count=7");
    assert_eq!(summary_lines[20], "  [V|RW] f4 = <nested>");
}
