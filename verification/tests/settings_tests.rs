use squalr_tui::settings::{
    build_settings_summary_lines, FloatingPointTolerance, MemoryAlignment, MemoryReadMode, SettingsCategory, SettingsPaneState,
};

#[test]
fn category_cycle_wraps_with_field_reset() {
    let mut settings_pane_state = SettingsPaneState::default();
    settings_pane_state.selected_field_index = 5;

    settings_pane_state.cycle_category_forward();
    assert_eq!(settings_pane_state.selected_category, SettingsCategory::Memory);
    assert_eq!(settings_pane_state.selected_field_index, 0);

    settings_pane_state.cycle_category_backward();
    assert_eq!(settings_pane_state.selected_category, SettingsCategory::General);
    assert_eq!(settings_pane_state.selected_field_index, 0);
}

#[test]
fn toggling_memory_field_marks_pending_changes() {
    let mut settings_pane_state = SettingsPaneState::default();
    settings_pane_state.selected_category = SettingsCategory::Memory;
    settings_pane_state.selected_field_index = 4;
    let original_required_write_setting = settings_pane_state.memory_settings.required_write;

    let did_toggle_value = settings_pane_state.toggle_selected_boolean_field();

    assert!(did_toggle_value);
    assert_ne!(settings_pane_state.memory_settings.required_write, original_required_write_setting);
    assert!(settings_pane_state.has_pending_changes);
}

#[test]
fn cycling_scan_alignment_promotes_none_to_concrete_alignment() {
    let mut settings_pane_state = SettingsPaneState::default();
    settings_pane_state.selected_category = SettingsCategory::Scan;
    settings_pane_state.selected_field_index = 4;
    settings_pane_state.scan_settings.memory_alignment = None;

    let did_cycle_value = settings_pane_state.cycle_selected_enum_field(true);

    assert!(did_cycle_value);
    assert_eq!(settings_pane_state.scan_settings.memory_alignment, Some(MemoryAlignment::Alignment2));
}

#[test]
fn settings_summary_uses_condensed_marker_group_lead_lines() {
    let settings_pane_state = SettingsPaneState::default();
    let summary_lines = build_settings_summary_lines(&settings_pane_state);

    assert!(summary_lines[0].starts_with("[CAT]"));
    assert!(summary_lines[1].starts_with("[NAV]"));
    assert!(summary_lines[2].starts_with("[ACT]"));
}

#[test]
fn settings_summary_lists_fields_of_selected_category() {
    let mut settings_pane_state = SettingsPaneState::default();
    let general_lines = settings_pane_state.summary_lines();
    assert_eq!(general_lines.len(), 11);
    assert_eq!(general_lines[0], "Category: ]/[ cycle, r refresh all.");
    assert_eq!(general_lines[1], "Field nav: j/k select row.");
    assert_eq!(general_lines[3], "category=General");
    assert_eq!(general_lines[4], "selected_field=0");
    assert_eq!(general_lines[5], "pending_changes=false");
    assert_eq!(general_lines[6], "loaded_once=false");
    assert_eq!(general_lines[7], "refreshing=false");
    assert_eq!(general_lines[8], "applying=false");
    assert_eq!(general_lines[9], "status=Ready.");
    assert_eq!(general_lines[10], "> engine_request_delay_ms=100");

    settings_pane_state.cycle_category_forward();
    settings_pane_state.select_next_field();
    let memory_lines = settings_pane_state.summary_lines();
    assert_eq!(memory_lines.len(), 23);
    assert_eq!(memory_lines[3], "category=Memory");
    assert_eq!(memory_lines[4], "selected_field=1");
    assert_eq!(memory_lines[10], "  memory_type_none=true");
    assert_eq!(memory_lines[11], "> memory_type_private=true");
    assert_eq!(memory_lines[20], "  start_address=0x0");
    assert_eq!(memory_lines[21], "  end_address=0xFFFFFFFFFFFFFFFF");

    settings_pane_state.cycle_category_forward();
    let scan_lines = settings_pane_state.summary_lines();
    assert_eq!(scan_lines.len(), 19);
    assert_eq!(scan_lines[10], "> results_page_size=50");
    assert_eq!(scan_lines[14], "  memory_alignment=none");
    assert_eq!(scan_lines[15], "  memory_read_mode=before_scan");
    assert_eq!(scan_lines[16], "  floating_point_tolerance=0.001");
}

#[test]
fn settings_view_summary_tags_field_lines() {
    let mut settings_pane_state = SettingsPaneState::default();
    let general_lines = build_settings_summary_lines(&settings_pane_state);
    assert_eq!(general_lines.len(), 7);
    assert_eq!(general_lines[3], "[META] category=General | selected_field=0.");
    assert_eq!(general_lines[4], "[LOAD] pending_changes=false | loaded_once=false | refreshing=false | applying=false.");
    assert_eq!(general_lines[5], "[STAT] Ready..");
    assert_eq!(general_lines[6], "> [FLD] engine_request_delay_ms=100.");

    settings_pane_state.cycle_category_forward();
    settings_pane_state.select_next_field();
    let memory_lines = build_settings_summary_lines(&settings_pane_state);
    assert_eq!(memory_lines.len(), 19);
    assert_eq!(memory_lines[7], "> [FLD] memory_type_private=true.");
    assert_eq!(memory_lines[17], "  [FLD] end_address=0xFFFFFFFFFFFFFFFF.");
}

#[test]
fn field_selection_wraps_within_category() {
    let mut settings_pane_state = SettingsPaneState::default();
    settings_pane_state.selected_category = SettingsCategory::Scan;
    settings_pane_state.select_previous_field();
    assert_eq!(settings_pane_state.selected_field_index, 8);
    settings_pane_state.select_next_field();
    assert_eq!(settings_pane_state.selected_field_index, 0);
    settings_pane_state.cycle_category_backward();
    assert_eq!(settings_pane_state.selected_category, SettingsCategory::Memory);
    assert_eq!(SettingsCategory::all_categories(), [SettingsCategory::General, SettingsCategory::Memory, SettingsCategory::Scan]);
    assert_eq!(SettingsCategory::Memory.title(), "Memory");
}

#[test]
fn numeric_fields_step_within_bounds() {
    let mut settings_pane_state = SettingsPaneState::default();
    assert!(settings_pane_state.step_selected_numeric_field(false));
    assert_eq!(settings_pane_state.general_settings.engine_request_delay_ms, 75);
    settings_pane_state.general_settings.engine_request_delay_ms = 4990;
    assert!(settings_pane_state.step_selected_numeric_field(true));
    assert_eq!(settings_pane_state.general_settings.engine_request_delay_ms, 5000);
    assert!(settings_pane_state.has_pending_changes);

    settings_pane_state.selected_category = SettingsCategory::Scan;
    settings_pane_state.selected_field_index = 0;
    settings_pane_state.scan_settings.results_page_size = 1;
    assert!(settings_pane_state.step_selected_numeric_field(false));
    assert_eq!(settings_pane_state.scan_settings.results_page_size, 1);

    settings_pane_state.selected_category = SettingsCategory::Memory;
    settings_pane_state.selected_field_index = 11;
    assert!(settings_pane_state.step_selected_numeric_field(true));
    assert_eq!(settings_pane_state.memory_settings.end_address, u64::MAX);
    settings_pane_state.selected_field_index = 10;
    assert!(settings_pane_state.step_selected_numeric_field(true));
    assert_eq!(settings_pane_state.memory_settings.start_address, 0x1000);

    settings_pane_state.selected_field_index = 0;
    assert!(!settings_pane_state.step_selected_numeric_field(true));
    assert_eq!(SettingsPaneState::step_u64_clamped(10, false, 25, 0, 5000), 0);
    assert_eq!(SettingsPaneState::step_u32_clamped(u32::MAX - 1, true, 5, 0, u32::MAX), u32::MAX);
}

#[test]
fn enum_fields_cycle_both_ways() {
    assert_eq!(SettingsPaneState::next_memory_read_mode(MemoryReadMode::Skip, false), MemoryReadMode::ReadInterleavedWithScan);
    assert_eq!(SettingsPaneState::next_memory_read_mode(MemoryReadMode::ReadInterleavedWithScan, true), MemoryReadMode::Skip);
    assert_eq!(
        SettingsPaneState::next_floating_point_tolerance(FloatingPointTolerance::ToleranceEpsilon, true),
        FloatingPointTolerance::Tolerance10E1
    );
    assert_eq!(SettingsPaneState::next_memory_alignment(None, false), MemoryAlignment::Alignment8);
    assert_eq!(SettingsPaneState::next_memory_alignment(Some(MemoryAlignment::Alignment8), true), MemoryAlignment::Alignment1);

    let mut settings_pane_state = SettingsPaneState::default();
    settings_pane_state.selected_category = SettingsCategory::Scan;
    settings_pane_state.selected_field_index = 7;
    assert!(!settings_pane_state.cycle_selected_enum_field(true));
    assert!(!settings_pane_state.has_pending_changes);
    assert!(settings_pane_state.toggle_selected_boolean_field());
    assert!(settings_pane_state.scan_settings.is_single_threaded_scan);
}

#[test]
fn applying_engine_settings_clears_pending_changes() {
    let mut settings_pane_state = SettingsPaneState::default();
    settings_pane_state.selected_category = SettingsCategory::Memory;
    assert!(settings_pane_state.toggle_selected_boolean_field());
    assert!(settings_pane_state.has_pending_changes);

    let mut memory_settings = settings_pane_state.memory_settings;
    memory_settings.start_address = 0x4000;
    settings_pane_state.apply_memory_settings(memory_settings);
    assert!(!settings_pane_state.has_pending_changes);
    assert_eq!(settings_pane_state.memory_settings.start_address, 0x4000);
}
