use vstd::prelude::*;
use crate::settings::{GeneralSettings, MemorySettings, ScanSettings, SettingsCategory, SettingsPaneState};
use crate::project_requests::EngineAnswer;
use crate::text::{owned, joined};

verus! {

/// The settings of one category, sent to the engine to be stored.
#[derive(Clone, Copy, Debug, PartialEq, Eq, Structural)]
pub enum SettingsSetRequest {
    General(GeneralSettings),
    Memory(MemorySettings),
    Scan(ScanSettings),
}

/// The request that stores the selected category's settings as they stand.
pub open spec fn spec_settings_set_request(state: SettingsPaneState) -> SettingsSetRequest {
    match state.selected_category {
        SettingsCategory::General => SettingsSetRequest::General(state.general_settings),
        SettingsCategory::Memory => SettingsSetRequest::Memory(state.memory_settings),
        SettingsCategory::Scan => SettingsSetRequest::Scan(state.scan_settings),
    }
}

/// The status after a category's settings were stored.
pub open spec fn spec_applied_settings_text(category: SettingsCategory) -> Seq<char> {
    match category {
        SettingsCategory::General => "Applied general settings."@,
        SettingsCategory::Memory => "Applied memory settings."@,
        SettingsCategory::Scan => "Applied scan settings."@,
    }
}

/// The start of the status after storing a category's settings timed out.
pub open spec fn spec_apply_timeout_prefix(category: SettingsCategory) -> Seq<char> {
    match category {
        SettingsCategory::General => "Timed out waiting for general settings set response: "@,
        SettingsCategory::Memory => "Timed out waiting for memory settings set response: "@,
        SettingsCategory::Scan => "Timed out waiting for scan settings set response: "@,
    }
}

/// Starts storing the selected category's settings. Nothing is sent while an update is
/// awaited or without an engine.
pub fn begin_settings_apply(settings_pane_state: &mut SettingsPaneState, is_engine_available: bool) -> (request: Option<SettingsSetRequest>)
    ensures
        request is Some <==> !old(settings_pane_state).is_applying_settings && is_engine_available,
        request matches Some(sent) ==> sent == spec_settings_set_request(*old(settings_pane_state)),
        *final(settings_pane_state) == (SettingsPaneState {
            is_applying_settings: request is Some || old(settings_pane_state).is_applying_settings,
            status_message: final(settings_pane_state).status_message,
            ..*old(settings_pane_state)
        }),
        final(settings_pane_state).status_message@ == if old(settings_pane_state).is_applying_settings {
            "Settings update is already in progress."@
        } else if !is_engine_available {
            "No unprivileged engine state is available for settings update."@
        } else {
            old(settings_pane_state).status_message@
        },
{
    let state = settings_pane_state;
    if state.is_applying_settings {
        state.status_message = owned("Settings update is already in progress.");
        return None;
    }
    if !is_engine_available {
        state.status_message = owned("No unprivileged engine state is available for settings update.");
        return None;
    }
    state.is_applying_settings = true;
    let request = match state.selected_category {
        SettingsCategory::General => SettingsSetRequest::General(state.general_settings),
        SettingsCategory::Memory => SettingsSetRequest::Memory(state.memory_settings),
        SettingsCategory::Scan => SettingsSetRequest::Scan(state.scan_settings),
    };
    Some(request)
}

/// Takes the engine's answer to a settings update of the selected category: once stored,
/// nothing is pending; the update is no longer awaited in any case.
pub fn finish_settings_apply(settings_pane_state: &mut SettingsPaneState, answer: EngineAnswer<()>)
    ensures
        *final(settings_pane_state) == (SettingsPaneState {
            has_pending_changes: if answer is Answered {
                false
            } else {
                old(settings_pane_state).has_pending_changes
            },
            is_applying_settings: false,
            status_message: final(settings_pane_state).status_message,
            ..*old(settings_pane_state)
        }),
        final(settings_pane_state).status_message@ == match answer {
            EngineAnswer::Answered(_) => spec_applied_settings_text(old(settings_pane_state).selected_category),
            EngineAnswer::TimedOut(reason) => spec_apply_timeout_prefix(old(settings_pane_state).selected_category) + reason@,
        },
{
    let state = settings_pane_state;
    match answer {
        EngineAnswer::Answered(_) => {
            state.has_pending_changes = false;
            state.status_message = match state.selected_category {
                SettingsCategory::General => owned("Applied general settings."),
                SettingsCategory::Memory => owned("Applied memory settings."),
                SettingsCategory::Scan => owned("Applied scan settings."),
            };
        },
        EngineAnswer::TimedOut(reason) => {
            state.status_message = match state.selected_category {
                SettingsCategory::General => joined("Timed out waiting for general settings set response: ", reason.as_str()),
                SettingsCategory::Memory => joined("Timed out waiting for memory settings set response: ", reason.as_str()),
                SettingsCategory::Scan => joined("Timed out waiting for scan settings set response: ", reason.as_str()),
            };
        },
    }
    state.is_applying_settings = false;
}

/// Starts reading every settings category from the engine. Nothing is asked while a refresh
/// is under way or without an engine.
pub fn begin_settings_refresh(settings_pane_state: &mut SettingsPaneState, is_engine_available: bool) -> (should_send: bool)
    ensures
        should_send == (!old(settings_pane_state).is_refreshing_settings && is_engine_available),
        *final(settings_pane_state) == (SettingsPaneState {
            is_refreshing_settings: should_send || old(settings_pane_state).is_refreshing_settings,
            status_message: final(settings_pane_state).status_message,
            ..*old(settings_pane_state)
        }),
        final(settings_pane_state).status_message@ == if old(settings_pane_state).is_refreshing_settings {
            "Settings refresh is already in progress."@
        } else if !is_engine_available {
            "No unprivileged engine state is available for settings refresh."@
        } else {
            old(settings_pane_state).status_message@
        },
{
    let state = settings_pane_state;
    if state.is_refreshing_settings {
        state.status_message = owned("Settings refresh is already in progress.");
        return false;
    }
    if !is_engine_available {
        state.status_message = owned("No unprivileged engine state is available for settings refresh.");
        return false;
    }
    state.is_refreshing_settings = true;
    true
}

/// Whether an answer carried readable settings.
pub open spec fn spec_was_read<T>(answer: EngineAnswer<Option<T>>) -> bool {
    answer matches EngineAnswer::Answered(Some(_))
}

/// The settings an answer carried, else the ones held before.
pub open spec fn spec_read_or<T>(answer: EngineAnswer<Option<T>>, previous: T) -> T {
    match answer {
        EngineAnswer::Answered(Some(settings)) => settings,
        _ => previous,
    }
}

/// The status after one category's answer: unchanged when it was read, else the failure
/// text, or the timeout prefix and the reason.
pub open spec fn spec_status_after_read<T>(
    answer: EngineAnswer<Option<T>>,
    failure_text: Seq<char>,
    timeout_prefix: Seq<char>,
    previous: Seq<char>,
) -> Seq<char> {
    match answer {
        EngineAnswer::Answered(Some(_)) => previous,
        EngineAnswer::Answered(None) => failure_text,
        EngineAnswer::TimedOut(reason) => timeout_prefix + reason@,
    }
}

/// The status after the three answers of a refresh, taken in the order general, memory,
/// scan; a read of the scan settings reports the refresh when status messages are wanted.
pub open spec fn spec_settings_refresh_status(
    general_answer: EngineAnswer<Option<GeneralSettings>>,
    memory_answer: EngineAnswer<Option<MemorySettings>>,
    scan_answer: EngineAnswer<Option<ScanSettings>>,
    should_update_status_message: bool,
    previous: Seq<char>,
) -> Seq<char> {
    let after_general = spec_status_after_read(
        general_answer,
        "Failed to read general settings."@,
        "Timed out waiting for general settings response: "@,
        previous,
    );
    let after_memory = spec_status_after_read(
        memory_answer,
        "Failed to read memory settings."@,
        "Timed out waiting for memory settings response: "@,
        after_general,
    );
    if spec_was_read(scan_answer) && should_update_status_message {
        "Settings refreshed."@
    } else {
        spec_status_after_read(
            scan_answer,
            "Failed to read scan settings."@,
            "Timed out waiting for scan settings response: "@,
            after_memory,
        )
    }
}

/// Takes the answers to the three reads of a refresh: each category that was read replaces
/// the held one, and then nothing is pending; the settings count as loaded once all three
/// were read; the refresh is over.
pub fn finish_settings_refresh(
    settings_pane_state: &mut SettingsPaneState,
    general_answer: EngineAnswer<Option<GeneralSettings>>,
    memory_answer: EngineAnswer<Option<MemorySettings>>,
    scan_answer: EngineAnswer<Option<ScanSettings>>,
    should_update_status_message: bool,
)
    ensures
        final(settings_pane_state).general_settings == spec_read_or(general_answer, old(settings_pane_state).general_settings),
        final(settings_pane_state).memory_settings == spec_read_or(memory_answer, old(settings_pane_state).memory_settings),
        final(settings_pane_state).scan_settings == spec_read_or(scan_answer, old(settings_pane_state).scan_settings),
        final(settings_pane_state).has_pending_changes == if spec_was_read(general_answer) || spec_was_read(memory_answer)
            || spec_was_read(scan_answer) {
            false
        } else {
            old(settings_pane_state).has_pending_changes
        },
        final(settings_pane_state).has_loaded_settings_once == (old(settings_pane_state).has_loaded_settings_once || (
        spec_was_read(general_answer) && spec_was_read(memory_answer) && spec_was_read(scan_answer))),
        !final(settings_pane_state).is_refreshing_settings,
        final(settings_pane_state).is_applying_settings == old(settings_pane_state).is_applying_settings,
        final(settings_pane_state).selected_category == old(settings_pane_state).selected_category,
        final(settings_pane_state).selected_field_index == old(settings_pane_state).selected_field_index,
        final(settings_pane_state).status_message@ == spec_settings_refresh_status(
            general_answer,
            memory_answer,
            scan_answer,
            should_update_status_message,
            old(settings_pane_state).status_message@,
        ),
{
    let state = settings_pane_state;
    let mut did_read_general_settings = false;
    let mut did_read_memory_settings = false;
    let mut did_read_scan_settings = false;
    match general_answer {
        EngineAnswer::Answered(Some(general_settings)) => {
            state.apply_general_settings(general_settings);
            did_read_general_settings = true;
        },
        EngineAnswer::Answered(None) => {
            state.status_message = owned("Failed to read general settings.");
        },
        EngineAnswer::TimedOut(reason) => {
            state.status_message = joined("Timed out waiting for general settings response: ", reason.as_str());
        },
    }
    match memory_answer {
        EngineAnswer::Answered(Some(memory_settings)) => {
            state.apply_memory_settings(memory_settings);
            did_read_memory_settings = true;
        },
        EngineAnswer::Answered(None) => {
            state.status_message = owned("Failed to read memory settings.");
        },
        EngineAnswer::TimedOut(reason) => {
            state.status_message = joined("Timed out waiting for memory settings response: ", reason.as_str());
        },
    }
    match scan_answer {
        EngineAnswer::Answered(Some(scan_settings)) => {
            state.apply_scan_settings(scan_settings);
            did_read_scan_settings = true;
            if should_update_status_message {
                state.status_message = owned("Settings refreshed.");
            }
        },
        EngineAnswer::Answered(None) => {
            state.status_message = owned("Failed to read scan settings.");
        },
        EngineAnswer::TimedOut(reason) => {
            state.status_message = joined("Timed out waiting for scan settings response: ", reason.as_str());
        },
    }
    if did_read_general_settings && did_read_memory_settings && did_read_scan_settings {
        state.has_loaded_settings_once = true;
    }
    state.is_refreshing_settings = false;
}

} // verus!
