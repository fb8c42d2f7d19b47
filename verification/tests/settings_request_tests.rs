use squalr_tui::project_requests::EngineAnswer;
use squalr_tui::settings::{GeneralSettings, MemorySettings, ScanSettings, SettingsCategory, SettingsPaneState};
use squalr_tui::settings_requests::{begin_settings_apply, begin_settings_refresh, finish_settings_apply, finish_settings_refresh, SettingsSetRequest};

#[test]
fn settings_apply_sends_selected_category() {
    let mut settings_pane_state = SettingsPaneState::default();
    settings_pane_state.selected_category = SettingsCategory::Memory;
    settings_pane_state.has_pending_changes = true;

    let request = begin_settings_apply(&mut settings_pane_state, true);

    assert_eq!(request, Some(SettingsSetRequest::Memory(settings_pane_state.memory_settings)));
    assert!(settings_pane_state.is_applying_settings);

    finish_settings_apply(&mut settings_pane_state, EngineAnswer::Answered(()));

    assert!(!settings_pane_state.is_applying_settings);
    assert!(!settings_pane_state.has_pending_changes);
    assert_eq!(settings_pane_state.status_message, "Applied memory settings.");
}

#[test]
fn settings_apply_is_refused_while_applying() {
    let mut settings_pane_state = SettingsPaneState::default();
    settings_pane_state.is_applying_settings = true;

    assert!(begin_settings_apply(&mut settings_pane_state, true).is_none());
    assert_eq!(settings_pane_state.status_message, "Settings update is already in progress.");
}

#[test]
fn settings_apply_without_engine_reports_it() {
    let mut settings_pane_state = SettingsPaneState::default();

    assert!(begin_settings_apply(&mut settings_pane_state, false).is_none());
    assert!(!settings_pane_state.is_applying_settings);
    assert_eq!(settings_pane_state.status_message, "No unprivileged engine state is available for settings update.");
}

#[test]
fn settings_apply_timeout_keeps_pending_changes() {
    let mut settings_pane_state = SettingsPaneState::default();
    settings_pane_state.selected_category = SettingsCategory::Scan;
    settings_pane_state.has_pending_changes = true;

    begin_settings_apply(&mut settings_pane_state, true);
    finish_settings_apply(&mut settings_pane_state, EngineAnswer::TimedOut("expired".to_string()));

    assert!(settings_pane_state.has_pending_changes);
    assert!(!settings_pane_state.is_applying_settings);
    assert_eq!(settings_pane_state.status_message, "Timed out waiting for scan settings set response: expired");
}

#[test]
fn settings_refresh_reads_all_categories() {
    let mut settings_pane_state = SettingsPaneState::default();
    settings_pane_state.has_pending_changes = true;
    let general_settings = GeneralSettings { engine_request_delay_ms: 250 };
    let mut memory_settings = MemorySettings::default();
    memory_settings.required_write = !memory_settings.required_write;
    let mut scan_settings = ScanSettings::default();
    scan_settings.results_page_size = 64;

    assert!(begin_settings_refresh(&mut settings_pane_state, true));
    assert!(settings_pane_state.is_refreshing_settings);

    finish_settings_refresh(
        &mut settings_pane_state,
        EngineAnswer::Answered(Some(general_settings)),
        EngineAnswer::Answered(Some(memory_settings)),
        EngineAnswer::Answered(Some(scan_settings)),
        true,
    );

    assert_eq!(settings_pane_state.general_settings, general_settings);
    assert_eq!(settings_pane_state.memory_settings, memory_settings);
    assert_eq!(settings_pane_state.scan_settings.results_page_size, 64);
    assert!(settings_pane_state.has_loaded_settings_once);
    assert!(!settings_pane_state.has_pending_changes);
    assert!(!settings_pane_state.is_refreshing_settings);
    assert_eq!(settings_pane_state.status_message, "Settings refreshed.");
}

#[test]
fn settings_refresh_reports_last_failure() {
    let mut settings_pane_state = SettingsPaneState::default();
    let previous_general_settings = settings_pane_state.general_settings;

    begin_settings_refresh(&mut settings_pane_state, true);
    finish_settings_refresh(
        &mut settings_pane_state,
        EngineAnswer::Answered(None),
        EngineAnswer::TimedOut("slow".to_string()),
        EngineAnswer::Answered(Some(ScanSettings::default())),
        false,
    );

    assert_eq!(settings_pane_state.general_settings, previous_general_settings);
    assert!(!settings_pane_state.has_loaded_settings_once);
    assert_eq!(settings_pane_state.status_message, "Timed out waiting for memory settings response: slow");
}

#[test]
fn settings_refresh_failure_of_scan_settings_is_reported() {
    let mut settings_pane_state = SettingsPaneState::default();

    begin_settings_refresh(&mut settings_pane_state, true);
    finish_settings_refresh(
        &mut settings_pane_state,
        EngineAnswer::Answered(Some(GeneralSettings::default())),
        EngineAnswer::Answered(Some(MemorySettings::default())),
        EngineAnswer::Answered(None),
        true,
    );

    assert!(!settings_pane_state.has_loaded_settings_once);
    assert_eq!(settings_pane_state.status_message, "Failed to read scan settings.");
}

#[test]
fn settings_refresh_is_refused_while_refreshing() {
    let mut settings_pane_state = SettingsPaneState::default();
    settings_pane_state.is_refreshing_settings = true;

    assert!(!begin_settings_refresh(&mut settings_pane_state, true));
    assert_eq!(settings_pane_state.status_message, "Settings refresh is already in progress.");
}
