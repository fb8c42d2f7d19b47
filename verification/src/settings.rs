use vstd::prelude::*;
use crate::text::{spec_decimal, spec_hex_upper, spec_bool_text, spec_texts, push_decimal_usize, push_bool, owned, bool_text, decimal_text, prefixed_hex_text};

verus! {

/// Category selection for settings-pane routing.
#[derive(Clone, Copy, Debug, PartialEq, Eq, Structural)]
pub enum SettingsCategory {
    General,
    Memory,
    Scan,
}

/// Alignment of scanned addresses.
#[derive(Clone, Copy, Debug, PartialEq, Eq, Structural)]
pub enum MemoryAlignment {
    Alignment1,
    Alignment2,
    Alignment4,
    Alignment8,
}

/// When memory is read during a scan.
#[derive(Clone, Copy, Debug, PartialEq, Eq, Structural)]
pub enum MemoryReadMode {
    Skip,
    ReadBeforeScan,
    ReadInterleavedWithScan,
}

/// Tolerance of floating-point comparisons.
#[derive(Clone, Copy, Debug, PartialEq, Eq, Structural)]
pub enum FloatingPointTolerance {
    Tolerance10E1,
    Tolerance10E2,
    Tolerance10E3,
    Tolerance10E4,
    Tolerance10E5,
    ToleranceEpsilon,
}

/// Engine-wide settings.
#[derive(Clone, Copy, Debug, PartialEq, Eq, Structural)]
pub struct GeneralSettings {
    pub engine_request_delay_ms: u64,
}

/// Which memory regions a scan reads.
#[derive(Clone, Copy, Debug, PartialEq, Eq, Structural)]
pub struct MemorySettings {
    pub memory_type_none: bool,
    pub memory_type_private: bool,
    pub memory_type_image: bool,
    pub memory_type_mapped: bool,
    pub required_write: bool,
    pub required_execute: bool,
    pub required_copy_on_write: bool,
    pub excluded_write: bool,
    pub excluded_execute: bool,
    pub excluded_copy_on_write: bool,
    pub start_address: u64,
    pub end_address: u64,
    pub only_query_usermode: bool,
}

/// How scans run and how results are paged and refreshed.
#[derive(Clone, Copy, Debug, PartialEq, Eq, Structural)]
pub struct ScanSettings {
    pub results_page_size: u32,
    pub freeze_interval_ms: u64,
    pub project_read_interval_ms: u64,
    pub results_read_interval_ms: u64,
    pub memory_alignment: Option<MemoryAlignment>,
    pub memory_read_mode: MemoryReadMode,
    pub floating_point_tolerance: FloatingPointTolerance,
    pub is_single_threaded_scan: bool,
    pub debug_perform_validation_scan: bool,
}

impl Default for GeneralSettings {
    fn default() -> (settings: GeneralSettings)
        ensures
            settings.engine_request_delay_ms == 100,
    {
        GeneralSettings { engine_request_delay_ms: 100 }
    }
}

impl Default for MemorySettings {
    fn default() -> (settings: MemorySettings)
        ensures
            settings == (MemorySettings {
                memory_type_none: true,
                memory_type_private: true,
                memory_type_image: true,
                memory_type_mapped: true,
                required_write: false,
                required_execute: false,
                required_copy_on_write: false,
                excluded_write: false,
                excluded_execute: false,
                excluded_copy_on_write: false,
                start_address: 0,
                end_address: u64::MAX,
                only_query_usermode: true,
            }),
    {
        MemorySettings {
            memory_type_none: true,
            memory_type_private: true,
            memory_type_image: true,
            memory_type_mapped: true,
            required_write: false,
            required_execute: false,
            required_copy_on_write: false,
            excluded_write: false,
            excluded_execute: false,
            excluded_copy_on_write: false,
            start_address: 0,
            end_address: u64::MAX,
            only_query_usermode: true,
        }
    }
}

impl Default for ScanSettings {
    fn default() -> (settings: ScanSettings)
        ensures
            settings == (ScanSettings {
                results_page_size: 50,
                freeze_interval_ms: 50,
                project_read_interval_ms: 200,
                results_read_interval_ms: 200,
                memory_alignment: None,
                memory_read_mode: MemoryReadMode::ReadBeforeScan,
                floating_point_tolerance: FloatingPointTolerance::Tolerance10E3,
                is_single_threaded_scan: false,
                debug_perform_validation_scan: false,
            }),
    {
        ScanSettings {
            results_page_size: 50,
            freeze_interval_ms: 50,
            project_read_interval_ms: 200,
            results_read_interval_ms: 200,
            memory_alignment: None,
            memory_read_mode: MemoryReadMode::ReadBeforeScan,
            floating_point_tolerance: FloatingPointTolerance::Tolerance10E3,
            is_single_threaded_scan: false,
            debug_perform_validation_scan: false,
        }
    }
}

/// Position of a category in the cycling order.
pub open spec fn spec_category_position(category: SettingsCategory) -> nat {
    match category {
        SettingsCategory::General => 0,
        SettingsCategory::Memory => 1,
        SettingsCategory::Scan => 2,
    }
}

/// The category at a position of the cycling order.
pub open spec fn spec_category_at(position: nat) -> SettingsCategory {
    if position == 0 {
        SettingsCategory::General
    } else if position == 1 {
        SettingsCategory::Memory
    } else {
        SettingsCategory::Scan
    }
}

/// Number of editable fields of a category.
pub open spec fn spec_field_count(category: SettingsCategory) -> nat {
    match category {
        SettingsCategory::General => 1,
        SettingsCategory::Memory => 13,
        SettingsCategory::Scan => 9,
    }
}

pub open spec fn spec_category_title(category: SettingsCategory) -> Seq<char> {
    match category {
        SettingsCategory::General => "General"@,
        SettingsCategory::Memory => "Memory"@,
        SettingsCategory::Scan => "Scan"@,
    }
}

impl SettingsCategory {
    pub fn all_categories() -> (categories: [SettingsCategory; 3])
        ensures
            categories@ == seq![SettingsCategory::General, SettingsCategory::Memory, SettingsCategory::Scan],
    {
        let categories = [SettingsCategory::General, SettingsCategory::Memory, SettingsCategory::Scan];
        assert(categories@ =~= seq![SettingsCategory::General, SettingsCategory::Memory, SettingsCategory::Scan]);
        categories
    }

    pub fn title(self) -> (title: &'static str)
        ensures
            title@ == spec_category_title(self),
    {
        match self {
            SettingsCategory::General => "General",
            SettingsCategory::Memory => "Memory",
            SettingsCategory::Scan => "Scan",
        }
    }
}

impl Default for SettingsCategory {
    fn default() -> (category: SettingsCategory)
        ensures
            category == SettingsCategory::General,
    {
        SettingsCategory::General
    }
}

/// Memory settings after flipping the boolean field at a position, if that field is one.
pub open spec fn spec_toggle_memory_field(settings: MemorySettings, field: nat) -> MemorySettings {
    if field == 0 {
        MemorySettings { memory_type_none: !settings.memory_type_none, ..settings }
    } else if field == 1 {
        MemorySettings { memory_type_private: !settings.memory_type_private, ..settings }
    } else if field == 2 {
        MemorySettings { memory_type_image: !settings.memory_type_image, ..settings }
    } else if field == 3 {
        MemorySettings { memory_type_mapped: !settings.memory_type_mapped, ..settings }
    } else if field == 4 {
        MemorySettings { required_write: !settings.required_write, ..settings }
    } else if field == 5 {
        MemorySettings { required_execute: !settings.required_execute, ..settings }
    } else if field == 6 {
        MemorySettings { required_copy_on_write: !settings.required_copy_on_write, ..settings }
    } else if field == 7 {
        MemorySettings { excluded_write: !settings.excluded_write, ..settings }
    } else if field == 8 {
        MemorySettings { excluded_execute: !settings.excluded_execute, ..settings }
    } else if field == 9 {
        MemorySettings { excluded_copy_on_write: !settings.excluded_copy_on_write, ..settings }
    } else if field == 12 {
        MemorySettings { only_query_usermode: !settings.only_query_usermode, ..settings }
    } else {
        settings
    }
}

/// Scan settings after flipping the boolean field at a position, if that field is one.
pub open spec fn spec_toggle_scan_field(settings: ScanSettings, field: nat) -> ScanSettings {
    if field == 7 {
        ScanSettings { is_single_threaded_scan: !settings.is_single_threaded_scan, ..settings }
    } else if field == 8 {
        ScanSettings { debug_perform_validation_scan: !settings.debug_perform_validation_scan, ..settings }
    } else {
        settings
    }
}

/// Whether the field at a position of a category is a boolean.
pub open spec fn spec_is_boolean_field(category: SettingsCategory, field: nat) -> bool {
    match category {
        SettingsCategory::General => false,
        SettingsCategory::Memory => field <= 9 || field == 12,
        SettingsCategory::Scan => field == 7 || field == 8,
    }
}

/// Whether the field at a position of a category is a number.
pub open spec fn spec_is_numeric_field(category: SettingsCategory, field: nat) -> bool {
    match category {
        SettingsCategory::General => field == 0,
        SettingsCategory::Memory => field == 10 || field == 11,
        SettingsCategory::Scan => field <= 3,
    }
}

/// Whether the field at a position of a category is a choice among named values.
pub open spec fn spec_is_enum_field(category: SettingsCategory, field: nat) -> bool {
    category == SettingsCategory::Scan && 4 <= field <= 6
}

/// A value stepped up or down by `step`, saturating, and kept within the bounds.
pub open spec fn spec_step_clamped(current: nat, increase: bool, step: nat, minimum: nat, maximum: nat, type_max: nat) -> nat {
    if increase {
        let raised = if current + step <= type_max { current + step } else { type_max };
        if raised <= maximum { raised } else { maximum }
    } else {
        let lowered: nat = if current >= step { (current - step) as nat } else { 0 };
        if lowered >= minimum { lowered } else { minimum }
    }
}

/// Position of an alignment in the cycling order; a missing alignment counts as the first.
pub open spec fn spec_alignment_position(alignment: Option<MemoryAlignment>) -> nat {
    match alignment {
        Some(MemoryAlignment::Alignment1) => 0,
        Some(MemoryAlignment::Alignment2) => 1,
        Some(MemoryAlignment::Alignment4) => 2,
        Some(MemoryAlignment::Alignment8) => 3,
        None => 0,
    }
}

pub open spec fn spec_alignment_at(position: nat) -> MemoryAlignment {
    if position == 0 {
        MemoryAlignment::Alignment1
    } else if position == 1 {
        MemoryAlignment::Alignment2
    } else if position == 2 {
        MemoryAlignment::Alignment4
    } else {
        MemoryAlignment::Alignment8
    }
}

pub open spec fn spec_read_mode_position(mode: MemoryReadMode) -> nat {
    match mode {
        MemoryReadMode::Skip => 0,
        MemoryReadMode::ReadBeforeScan => 1,
        MemoryReadMode::ReadInterleavedWithScan => 2,
    }
}

pub open spec fn spec_read_mode_at(position: nat) -> MemoryReadMode {
    if position == 0 {
        MemoryReadMode::Skip
    } else if position == 1 {
        MemoryReadMode::ReadBeforeScan
    } else {
        MemoryReadMode::ReadInterleavedWithScan
    }
}

pub open spec fn spec_tolerance_position(tolerance: FloatingPointTolerance) -> nat {
    match tolerance {
        FloatingPointTolerance::Tolerance10E1 => 0,
        FloatingPointTolerance::Tolerance10E2 => 1,
        FloatingPointTolerance::Tolerance10E3 => 2,
        FloatingPointTolerance::Tolerance10E4 => 3,
        FloatingPointTolerance::Tolerance10E5 => 4,
        FloatingPointTolerance::ToleranceEpsilon => 5,
    }
}

pub open spec fn spec_tolerance_at(position: nat) -> FloatingPointTolerance {
    if position == 0 {
        FloatingPointTolerance::Tolerance10E1
    } else if position == 1 {
        FloatingPointTolerance::Tolerance10E2
    } else if position == 2 {
        FloatingPointTolerance::Tolerance10E3
    } else if position == 3 {
        FloatingPointTolerance::Tolerance10E4
    } else if position == 4 {
        FloatingPointTolerance::Tolerance10E5
    } else {
        FloatingPointTolerance::ToleranceEpsilon
    }
}

/// The position after or before `position` in a cycle of `count` positions.
pub open spec fn spec_cycle_position(position: nat, count: nat, move_forward: bool) -> nat
    recommends
        count > 0,
{
    if move_forward {
        (position + 1) % count
    } else if position == 0 {
        (count - 1) as nat
    } else {
        (position - 1) as nat
    }
}

fn cycle_position(position: usize, count: usize, move_forward: bool) -> (next: usize)
    requires
        position < count,
    ensures
        next == spec_cycle_position(position as nat, count as nat, move_forward),
        next < count,
{
    if move_forward {
        if position + 1 == count {
            proof {
                vstd::arithmetic::div_mod::lemma_mod_self_0(count as int);
            }
            0
        } else {
            proof {
                vstd::arithmetic::div_mod::lemma_small_mod((position + 1) as nat, count as nat);
            }
            position + 1
        }
    } else if position == 0 {
        count - 1
    } else {
        position - 1
    }
}

fn toggled_memory_settings(settings: MemorySettings, field: usize) -> (result: (MemorySettings, bool))
    ensures
        result.0 == spec_toggle_memory_field(settings, field as nat),
        result.1 == spec_is_boolean_field(SettingsCategory::Memory, field as nat),
{
    if field == 0 {
        (MemorySettings { memory_type_none: !settings.memory_type_none, ..settings }, true)
    } else if field == 1 {
        (MemorySettings { memory_type_private: !settings.memory_type_private, ..settings }, true)
    } else if field == 2 {
        (MemorySettings { memory_type_image: !settings.memory_type_image, ..settings }, true)
    } else if field == 3 {
        (MemorySettings { memory_type_mapped: !settings.memory_type_mapped, ..settings }, true)
    } else if field == 4 {
        (MemorySettings { required_write: !settings.required_write, ..settings }, true)
    } else if field == 5 {
        (MemorySettings { required_execute: !settings.required_execute, ..settings }, true)
    } else if field == 6 {
        (MemorySettings { required_copy_on_write: !settings.required_copy_on_write, ..settings }, true)
    } else if field == 7 {
        (MemorySettings { excluded_write: !settings.excluded_write, ..settings }, true)
    } else if field == 8 {
        (MemorySettings { excluded_execute: !settings.excluded_execute, ..settings }, true)
    } else if field == 9 {
        (MemorySettings { excluded_copy_on_write: !settings.excluded_copy_on_write, ..settings }, true)
    } else if field == 12 {
        (MemorySettings { only_query_usermode: !settings.only_query_usermode, ..settings }, true)
    } else {
        (settings, false)
    }
}

fn toggled_scan_settings(settings: ScanSettings, field: usize) -> (result: (ScanSettings, bool))
    ensures
        result.0 == spec_toggle_scan_field(settings, field as nat),
        result.1 == spec_is_boolean_field(SettingsCategory::Scan, field as nat),
{
    if field == 7 {
        (ScanSettings { is_single_threaded_scan: !settings.is_single_threaded_scan, ..settings }, true)
    } else if field == 8 {
        (ScanSettings { debug_perform_validation_scan: !settings.debug_perform_validation_scan, ..settings }, true)
    } else {
        (settings, false)
    }
}

/// General settings after stepping the numeric field at a position, if that field is one:
/// the request delay moves by 25 ms within 0 to 5000.
pub open spec fn spec_stepped_general_settings(settings: GeneralSettings, field: nat, increase: bool) -> GeneralSettings {
    if field == 0 {
        GeneralSettings {
            engine_request_delay_ms: spec_step_clamped(settings.engine_request_delay_ms as nat, increase, 25, 0, 5000, u64::MAX as nat) as u64,
        }
    } else {
        settings
    }
}

/// Memory settings after stepping the numeric field at a position, if that field is one:
/// the start and end addresses move by 0x1000, saturating.
pub open spec fn spec_stepped_memory_settings(settings: MemorySettings, field: nat, increase: bool) -> MemorySettings {
    if field == 10 {
        MemorySettings {
            start_address: spec_step_clamped(settings.start_address as nat, increase, 0x1000, 0, u64::MAX as nat, u64::MAX as nat) as u64,
            ..settings
        }
    } else if field == 11 {
        MemorySettings {
            end_address: spec_step_clamped(settings.end_address as nat, increase, 0x1000, 0, u64::MAX as nat, u64::MAX as nat) as u64,
            ..settings
        }
    } else {
        settings
    }
}

/// Scan settings after stepping the numeric field at a position, if that field is one: the
/// page size moves by 1 within 1 to 1024, the intervals by 25 ms within 0 to 5000.
pub open spec fn spec_stepped_scan_settings(settings: ScanSettings, field: nat, increase: bool) -> ScanSettings {
    if field == 0 {
        ScanSettings {
            results_page_size: spec_step_clamped(settings.results_page_size as nat, increase, 1, 1, 1024, u32::MAX as nat) as u32,
            ..settings
        }
    } else if field == 1 {
        ScanSettings {
            freeze_interval_ms: spec_step_clamped(settings.freeze_interval_ms as nat, increase, 25, 0, 5000, u64::MAX as nat) as u64,
            ..settings
        }
    } else if field == 2 {
        ScanSettings {
            project_read_interval_ms: spec_step_clamped(settings.project_read_interval_ms as nat, increase, 25, 0, 5000, u64::MAX as nat) as u64,
            ..settings
        }
    } else if field == 3 {
        ScanSettings {
            results_read_interval_ms: spec_step_clamped(settings.results_read_interval_ms as nat, increase, 25, 0, 5000, u64::MAX as nat) as u64,
            ..settings
        }
    } else {
        settings
    }
}

fn stepped_general_settings(settings: GeneralSettings, field: usize, increase: bool) -> (result: (GeneralSettings, bool))
    ensures
        result.0 == spec_stepped_general_settings(settings, field as nat, increase),
        result.1 == spec_is_numeric_field(SettingsCategory::General, field as nat),
{
    if field == 0 {
        (GeneralSettings {
            engine_request_delay_ms: SettingsPaneState::step_u64_clamped(settings.engine_request_delay_ms, increase, 25, 0, 5000),
        }, true)
    } else {
        (settings, false)
    }
}

fn stepped_memory_settings(settings: MemorySettings, field: usize, increase: bool) -> (result: (MemorySettings, bool))
    ensures
        result.0 == spec_stepped_memory_settings(settings, field as nat, increase),
        result.1 == spec_is_numeric_field(SettingsCategory::Memory, field as nat),
{
    if field == 10 {
        (MemorySettings {
            start_address: SettingsPaneState::step_u64_clamped(settings.start_address, increase, 0x1000, 0, u64::MAX),
            ..settings
        }, true)
    } else if field == 11 {
        (MemorySettings {
            end_address: SettingsPaneState::step_u64_clamped(settings.end_address, increase, 0x1000, 0, u64::MAX),
            ..settings
        }, true)
    } else {
        (settings, false)
    }
}

fn stepped_scan_settings(settings: ScanSettings, field: usize, increase: bool) -> (result: (ScanSettings, bool))
    ensures
        result.0 == spec_stepped_scan_settings(settings, field as nat, increase),
        result.1 == spec_is_numeric_field(SettingsCategory::Scan, field as nat),
{
    if field == 0 {
        (ScanSettings {
            results_page_size: SettingsPaneState::step_u32_clamped(settings.results_page_size, increase, 1, 1, 1024),
            ..settings
        }, true)
    } else if field == 1 {
        (ScanSettings {
            freeze_interval_ms: SettingsPaneState::step_u64_clamped(settings.freeze_interval_ms, increase, 25, 0, 5000),
            ..settings
        }, true)
    } else if field == 2 {
        (ScanSettings {
            project_read_interval_ms: SettingsPaneState::step_u64_clamped(settings.project_read_interval_ms, increase, 25, 0, 5000),
            ..settings
        }, true)
    } else if field == 3 {
        (ScanSettings {
            results_read_interval_ms: SettingsPaneState::step_u64_clamped(settings.results_read_interval_ms, increase, 25, 0, 5000),
            ..settings
        }, true)
    } else {
        (settings, false)
    }
}

/// Stores state for settings pages and staged changes.
pub struct SettingsPaneState {
    pub selected_category: SettingsCategory,
    pub selected_field_index: usize,
    pub has_pending_changes: bool,
    pub has_loaded_settings_once: bool,
    pub is_refreshing_settings: bool,
    pub is_applying_settings: bool,
    pub general_settings: GeneralSettings,
    pub memory_settings: MemorySettings,
    pub scan_settings: ScanSettings,
    pub status_message: String,
}

impl SettingsPaneState {
    /// The flags and status are as in `other`.
    pub open spec fn spec_same_status(&self, other: &Self) -> bool {
        &&& self.has_loaded_settings_once == other.has_loaded_settings_once
        &&& self.is_refreshing_settings == other.is_refreshing_settings
        &&& self.is_applying_settings == other.is_applying_settings
        &&& self.status_message == other.status_message
    }

    /// The settings values are as in `other`.
    pub open spec fn spec_same_settings(&self, other: &Self) -> bool {
        &&& self.general_settings == other.general_settings
        &&& self.memory_settings == other.memory_settings
        &&& self.scan_settings == other.scan_settings
    }

    /// Moves to the next category and to its first field.
    pub fn cycle_category_forward(&mut self)
        ensures
            final(self).selected_category == spec_category_at(spec_cycle_position(
                spec_category_position(old(self).selected_category),
                3,
                true,
            )),
            final(self).selected_field_index == 0,
            final(self).has_pending_changes == old(self).has_pending_changes,
            final(self).spec_same_settings(&*old(self)),
            final(self).spec_same_status(&*old(self)),
            *final(self) == old(self).spec_after_cycle_category(true),
    {
        self.cycle_category(true);
    }

    /// Moves to the previous category and to its first field.
    pub fn cycle_category_backward(&mut self)
        ensures
            final(self).selected_category == spec_category_at(spec_cycle_position(
                spec_category_position(old(self).selected_category),
                3,
                false,
            )),
            final(self).selected_field_index == 0,
            final(self).has_pending_changes == old(self).has_pending_changes,
            final(self).spec_same_settings(&*old(self)),
            final(self).spec_same_status(&*old(self)),
            *final(self) == old(self).spec_after_cycle_category(false),
    {
        self.cycle_category(false);
    }

    fn cycle_category(&mut self, move_forward: bool)
        ensures
            final(self).selected_category == spec_category_at(spec_cycle_position(
                spec_category_position(old(self).selected_category),
                3,
                move_forward,
            )),
            final(self).selected_field_index == 0,
            final(self).has_pending_changes == old(self).has_pending_changes,
            final(self).spec_same_settings(&*old(self)),
            final(self).spec_same_status(&*old(self)),
            *final(self) == old(self).spec_after_cycle_category(move_forward),
    {
        let all_categories = SettingsCategory::all_categories();
        let current_position: usize = match self.selected_category {
            SettingsCategory::General => 0,
            SettingsCategory::Memory => 1,
            SettingsCategory::Scan => 2,
        };
        let next_position = cycle_position(current_position, 3, move_forward);
        self.selected_category = all_categories[next_position];
        self.selected_field_index = 0;
    }

    fn field_count_for_selected_category(&self) -> (count: usize)
        ensures
            count == spec_field_count(self.selected_category),
    {
        match self.selected_category {
            SettingsCategory::General => 1,
            SettingsCategory::Memory => 13,
            SettingsCategory::Scan => 9,
        }
    }

    /// Moves to the next field of the category, wrapping to the first.
    pub fn select_next_field(&mut self)
        ensures
            final(self).selected_field_index == (old(self).selected_field_index as int + 1) % spec_field_count(
                old(self).selected_category,
            ) as int,
            final(self).selected_category == old(self).selected_category,
            final(self).has_pending_changes == old(self).has_pending_changes,
            final(self).spec_same_settings(&*old(self)),
            final(self).spec_same_status(&*old(self)),
            *final(self) == old(self).spec_after_select_next_field(),
    {
        let field_count = self.field_count_for_selected_category();
        match crate::selection::next_wrapping(Some(self.selected_field_index), field_count) {
            Some(index) => self.selected_field_index = index,
            None => self.selected_field_index = 0,
        }
    }

    /// Moves to the previous field of the category, wrapping to the last.
    pub fn select_previous_field(&mut self)
        ensures
            final(self).selected_field_index == if old(self).selected_field_index == 0 {
                (spec_field_count(old(self).selected_category) - 1) as usize
            } else {
                (old(self).selected_field_index - 1) as usize
            },
            final(self).selected_category == old(self).selected_category,
            final(self).has_pending_changes == old(self).has_pending_changes,
            final(self).spec_same_settings(&*old(self)),
            final(self).spec_same_status(&*old(self)),
            *final(self) == old(self).spec_after_select_previous_field(),
    {
        let field_count = self.field_count_for_selected_category();
        self.selected_field_index = if self.selected_field_index == 0 {
            field_count - 1
        } else {
            self.selected_field_index - 1
        };
    }

    /// Flips the selected field when it is a boolean, marking the change as pending; returns
    /// whether a value changed.
    pub fn toggle_selected_boolean_field(&mut self) -> (did_change_value: bool)
        ensures
            did_change_value == spec_is_boolean_field(old(self).selected_category, old(self).selected_field_index as nat),
            final(self).memory_settings == if old(self).selected_category == SettingsCategory::Memory {
                spec_toggle_memory_field(old(self).memory_settings, old(self).selected_field_index as nat)
            } else {
                old(self).memory_settings
            },
            final(self).scan_settings == if old(self).selected_category == SettingsCategory::Scan {
                spec_toggle_scan_field(old(self).scan_settings, old(self).selected_field_index as nat)
            } else {
                old(self).scan_settings
            },
            final(self).general_settings == old(self).general_settings,
            final(self).has_pending_changes == (old(self).has_pending_changes || did_change_value),
            final(self).selected_category == old(self).selected_category,
            final(self).selected_field_index == old(self).selected_field_index,
            final(self).spec_same_status(&*old(self)),
            *final(self) == old(self).spec_after_toggle(),
    {
        let field = self.selected_field_index;
        let did_change_value = match self.selected_category {
            SettingsCategory::General => false,
            SettingsCategory::Memory => {
                let (settings, changed) = toggled_memory_settings(self.memory_settings, field);
                self.memory_settings = settings;
                changed
            },
            SettingsCategory::Scan => {
                let (settings, changed) = toggled_scan_settings(self.scan_settings, field);
                self.scan_settings = settings;
                changed
            },
        };
        if did_change_value {
            self.has_pending_changes = true;
        }
        did_change_value
    }

    /// Steps the selected field up or down when it is a number, within its bounds, marking
    /// the change as pending; returns whether the field is a number.
    pub fn step_selected_numeric_field(&mut self, increase_value: bool) -> (did_change_value: bool)
        ensures
            did_change_value == spec_is_numeric_field(old(self).selected_category, old(self).selected_field_index as nat),
            final(self).general_settings == if old(self).selected_category == SettingsCategory::General {
                spec_stepped_general_settings(old(self).general_settings, old(self).selected_field_index as nat, increase_value)
            } else {
                old(self).general_settings
            },
            final(self).memory_settings == if old(self).selected_category == SettingsCategory::Memory {
                spec_stepped_memory_settings(old(self).memory_settings, old(self).selected_field_index as nat, increase_value)
            } else {
                old(self).memory_settings
            },
            final(self).scan_settings == if old(self).selected_category == SettingsCategory::Scan {
                spec_stepped_scan_settings(old(self).scan_settings, old(self).selected_field_index as nat, increase_value)
            } else {
                old(self).scan_settings
            },
            final(self).has_pending_changes == (old(self).has_pending_changes || did_change_value),
            final(self).selected_category == old(self).selected_category,
            final(self).selected_field_index == old(self).selected_field_index,
            final(self).spec_same_status(&*old(self)),
            *final(self) == old(self).spec_after_step(increase_value),
    {
        let field = self.selected_field_index;
        let did_change_value = match self.selected_category {
            SettingsCategory::General => {
                let (settings, changed) = stepped_general_settings(self.general_settings, field, increase_value);
                self.general_settings = settings;
                changed
            },
            SettingsCategory::Memory => {
                let (settings, changed) = stepped_memory_settings(self.memory_settings, field, increase_value);
                self.memory_settings = settings;
                changed
            },
            SettingsCategory::Scan => {
                let (settings, changed) = stepped_scan_settings(self.scan_settings, field, increase_value);
                self.scan_settings = settings;
                changed
            },
        };
        if did_change_value {
            self.has_pending_changes = true;
        }
        did_change_value
    }

    /// Cycles the selected field to its next or previous named value when it is a choice,
    /// marking the change as pending; returns whether the field is a choice. A missing
    /// alignment becomes a concrete one.
    pub fn cycle_selected_enum_field(&mut self, move_forward: bool) -> (did_change_value: bool)
        ensures
            did_change_value == spec_is_enum_field(old(self).selected_category, old(self).selected_field_index as nat),
            final(self).scan_settings == if old(self).selected_category != SettingsCategory::Scan {
                old(self).scan_settings
            } else if old(self).selected_field_index == 4 {
                ScanSettings {
                    memory_alignment: Some(spec_alignment_at(spec_cycle_position(
                        spec_alignment_position(old(self).scan_settings.memory_alignment),
                        4,
                        move_forward,
                    ))),
                    ..old(self).scan_settings
                }
            } else if old(self).selected_field_index == 5 {
                ScanSettings {
                    memory_read_mode: spec_read_mode_at(spec_cycle_position(
                        spec_read_mode_position(old(self).scan_settings.memory_read_mode),
                        3,
                        move_forward,
                    )),
                    ..old(self).scan_settings
                }
            } else if old(self).selected_field_index == 6 {
                ScanSettings {
                    floating_point_tolerance: spec_tolerance_at(spec_cycle_position(
                        spec_tolerance_position(old(self).scan_settings.floating_point_tolerance),
                        6,
                        move_forward,
                    )),
                    ..old(self).scan_settings
                }
            } else {
                old(self).scan_settings
            },
            final(self).general_settings == old(self).general_settings,
            final(self).memory_settings == old(self).memory_settings,
            final(self).has_pending_changes == (old(self).has_pending_changes || did_change_value),
            final(self).selected_category == old(self).selected_category,
            final(self).selected_field_index == old(self).selected_field_index,
            final(self).spec_same_status(&*old(self)),
            *final(self) == old(self).spec_after_cycle_enum(move_forward),
    {
        let mut did_change_value = false;
        if self.selected_category == SettingsCategory::Scan {
            let settings = self.scan_settings;
            let field = self.selected_field_index;
            if field == 4 {
                self.scan_settings = ScanSettings {
                    memory_alignment: Some(Self::next_memory_alignment(settings.memory_alignment, move_forward)),
                    ..settings
                };
                did_change_value = true;
            } else if field == 5 {
                self.scan_settings = ScanSettings {
                    memory_read_mode: Self::next_memory_read_mode(settings.memory_read_mode, move_forward),
                    ..settings
                };
                did_change_value = true;
            } else if field == 6 {
                self.scan_settings = ScanSettings {
                    floating_point_tolerance: Self::next_floating_point_tolerance(settings.floating_point_tolerance, move_forward),
                    ..settings
                };
                did_change_value = true;
            }
        }
        if did_change_value {
            self.has_pending_changes = true;
        }
        did_change_value
    }

    /// Takes the engine's general settings; nothing is pending afterwards.
    pub fn apply_general_settings(&mut self, general_settings: GeneralSettings)
        ensures
            final(self).general_settings == general_settings,
            !final(self).has_pending_changes,
            final(self).memory_settings == old(self).memory_settings,
            final(self).scan_settings == old(self).scan_settings,
            final(self).selected_category == old(self).selected_category,
            final(self).selected_field_index == old(self).selected_field_index,
            final(self).spec_same_status(&*old(self)),
    {
        self.general_settings = general_settings;
        self.has_pending_changes = false;
    }

    /// Takes the engine's memory settings; nothing is pending afterwards.
    pub fn apply_memory_settings(&mut self, memory_settings: MemorySettings)
        ensures
            final(self).memory_settings == memory_settings,
            !final(self).has_pending_changes,
            final(self).general_settings == old(self).general_settings,
            final(self).scan_settings == old(self).scan_settings,
            final(self).selected_category == old(self).selected_category,
            final(self).selected_field_index == old(self).selected_field_index,
            final(self).spec_same_status(&*old(self)),
    {
        self.memory_settings = memory_settings;
        self.has_pending_changes = false;
    }

    /// Takes the engine's scan settings; nothing is pending afterwards.
    pub fn apply_scan_settings(&mut self, scan_settings: ScanSettings)
        ensures
            final(self).scan_settings == scan_settings,
            !final(self).has_pending_changes,
            final(self).general_settings == old(self).general_settings,
            final(self).memory_settings == old(self).memory_settings,
            final(self).selected_category == old(self).selected_category,
            final(self).selected_field_index == old(self).selected_field_index,
            final(self).spec_same_status(&*old(self)),
    {
        self.scan_settings = scan_settings;
        self.has_pending_changes = false;
    }

    pub fn step_u64_clamped(current_value: u64, increase_value: bool, step_size: u64, minimum_value: u64, maximum_value: u64) -> (value: u64)
        ensures
            value == spec_step_clamped(current_value as nat, increase_value, step_size as nat, minimum_value as nat, maximum_value as nat, u64::MAX as nat),
    {
        if increase_value {
            let raised = current_value.saturating_add(step_size);
            if raised <= maximum_value { raised } else { maximum_value }
        } else {
            let lowered = current_value.saturating_sub(step_size);
            if lowered >= minimum_value { lowered } else { minimum_value }
        }
    }

    pub fn step_u32_clamped(current_value: u32, increase_value: bool, step_size: u32, minimum_value: u32, maximum_value: u32) -> (value: u32)
        ensures
            value == spec_step_clamped(current_value as nat, increase_value, step_size as nat, minimum_value as nat, maximum_value as nat, u32::MAX as nat),
    {
        if increase_value {
            let raised = current_value.saturating_add(step_size);
            if raised <= maximum_value { raised } else { maximum_value }
        } else {
            let lowered = current_value.saturating_sub(step_size);
            if lowered >= minimum_value { lowered } else { minimum_value }
        }
    }

    pub fn next_memory_alignment(current_alignment: Option<MemoryAlignment>, move_forward: bool) -> (alignment: MemoryAlignment)
        ensures
            alignment == spec_alignment_at(spec_cycle_position(spec_alignment_position(current_alignment), 4, move_forward)),
    {
        let current_position: usize = match current_alignment {
            Some(MemoryAlignment::Alignment1) => 0,
            Some(MemoryAlignment::Alignment2) => 1,
            Some(MemoryAlignment::Alignment4) => 2,
            Some(MemoryAlignment::Alignment8) => 3,
            None => 0,
        };
        let all_alignments = [
            MemoryAlignment::Alignment1,
            MemoryAlignment::Alignment2,
            MemoryAlignment::Alignment4,
            MemoryAlignment::Alignment8,
        ];
        let next_position = cycle_position(current_position, 4, move_forward);
        all_alignments[next_position]
    }

    pub fn next_memory_read_mode(current_mode: MemoryReadMode, move_forward: bool) -> (mode: MemoryReadMode)
        ensures
            mode == spec_read_mode_at(spec_cycle_position(spec_read_mode_position(current_mode), 3, move_forward)),
    {
        let current_position: usize = match current_mode {
            MemoryReadMode::Skip => 0,
            MemoryReadMode::ReadBeforeScan => 1,
            MemoryReadMode::ReadInterleavedWithScan => 2,
        };
        let all_modes = [MemoryReadMode::Skip, MemoryReadMode::ReadBeforeScan, MemoryReadMode::ReadInterleavedWithScan];
        let next_position = cycle_position(current_position, 3, move_forward);
        all_modes[next_position]
    }

    pub fn next_floating_point_tolerance(current_tolerance: FloatingPointTolerance, move_forward: bool) -> (tolerance: FloatingPointTolerance)
        ensures
            tolerance == spec_tolerance_at(spec_cycle_position(spec_tolerance_position(current_tolerance), 6, move_forward)),
    {
        let current_position: usize = match current_tolerance {
            FloatingPointTolerance::Tolerance10E1 => 0,
            FloatingPointTolerance::Tolerance10E2 => 1,
            FloatingPointTolerance::Tolerance10E3 => 2,
            FloatingPointTolerance::Tolerance10E4 => 3,
            FloatingPointTolerance::Tolerance10E5 => 4,
            FloatingPointTolerance::ToleranceEpsilon => 5,
        };
        let all_tolerances = [
            FloatingPointTolerance::Tolerance10E1,
            FloatingPointTolerance::Tolerance10E2,
            FloatingPointTolerance::Tolerance10E3,
            FloatingPointTolerance::Tolerance10E4,
            FloatingPointTolerance::Tolerance10E5,
            FloatingPointTolerance::ToleranceEpsilon,
        ];
        let next_position = cycle_position(current_position, 6, move_forward);
        all_tolerances[next_position]
    }

    /// The pane state's own summary lines: key help, the selection, the load flags and the
    /// status, one value per line, then one plain line per field of the selected category.
    pub fn summary_lines(&self) -> (summary_lines: Vec<String>)
        ensures
            spec_texts(summary_lines@) == spec_settings_state_summary_lines(*self),
    {
        let mut summary_lines: Vec<String> = Vec::new();
        summary_lines.push(owned("Category: ]/[ cycle, r refresh all."));
        summary_lines.push(owned("Field nav: j/k select row."));
        summary_lines.push(owned("Mutate: Space toggle bool, +/- step numeric, </> cycle enum, Enter apply category."));
        let mut line = owned("category=");
        line.append(self.selected_category.title());
        summary_lines.push(line);
        let mut line = owned("selected_field=");
        push_decimal_usize(&mut line, self.selected_field_index);
        summary_lines.push(line);
        let mut line = owned("pending_changes=");
        push_bool(&mut line, self.has_pending_changes);
        summary_lines.push(line);
        let mut line = owned("loaded_once=");
        push_bool(&mut line, self.has_loaded_settings_once);
        summary_lines.push(line);
        let mut line = owned("refreshing=");
        push_bool(&mut line, self.is_refreshing_settings);
        summary_lines.push(line);
        let mut line = owned("applying=");
        push_bool(&mut line, self.is_applying_settings);
        summary_lines.push(line);
        let mut line = owned("status=");
        line.append(self.status_message.as_str());
        summary_lines.push(line);
        let ghost header = summary_lines@;
        let mut category_lines = match self.selected_category {
            SettingsCategory::General => general_summary_lines(self, false),
            SettingsCategory::Memory => memory_summary_lines(self, false),
            SettingsCategory::Scan => scan_summary_lines(self, false),
        };
        let ghost tail = category_lines@;
        summary_lines.append(&mut category_lines);
        assert(summary_lines@ =~= header + tail);
        assert(spec_texts(header + tail) =~= spec_texts(header) + spec_texts(tail));
        assert(spec_texts(summary_lines@) =~= spec_settings_state_summary_lines(*self));
        summary_lines
    }
}

impl Default for SettingsPaneState {
    fn default() -> (state: SettingsPaneState)
        ensures
            state.selected_category == SettingsCategory::General,
            state.selected_field_index == 0,
            !state.has_pending_changes,
            !state.has_loaded_settings_once,
            !state.is_refreshing_settings,
            !state.is_applying_settings,
            state.general_settings.engine_request_delay_ms == 100,
            state.memory_settings == MemorySettings::spec_default_value(),
            state.scan_settings == ScanSettings::spec_default_value(),
            state.status_message@ == "Ready."@,
    {
        SettingsPaneState {
            selected_category: SettingsCategory::General,
            selected_field_index: 0,
            has_pending_changes: false,
            has_loaded_settings_once: false,
            is_refreshing_settings: false,
            is_applying_settings: false,
            general_settings: GeneralSettings::default(),
            memory_settings: MemorySettings::default(),
            scan_settings: ScanSettings::default(),
            status_message: owned("Ready."),
        }
    }
}

impl MemorySettings {
    pub open spec fn spec_default_value() -> MemorySettings {
        MemorySettings {
            memory_type_none: true,
            memory_type_private: true,
            memory_type_image: true,
            memory_type_mapped: true,
            required_write: false,
            required_execute: false,
            required_copy_on_write: false,
            excluded_write: false,
            excluded_execute: false,
            excluded_copy_on_write: false,
            start_address: 0,
            end_address: u64::MAX,
            only_query_usermode: true,
        }
    }
}

impl ScanSettings {
    pub open spec fn spec_default_value() -> ScanSettings {
        ScanSettings {
            results_page_size: 50,
            freeze_interval_ms: 50,
            project_read_interval_ms: 200,
            results_read_interval_ms: 200,
            memory_alignment: None,
            memory_read_mode: MemoryReadMode::ReadBeforeScan,
            floating_point_tolerance: FloatingPointTolerance::Tolerance10E3,
            is_single_threaded_scan: false,
            debug_perform_validation_scan: false,
        }
    }
}

} // verus!

verus! {

/// `>` in front of the selected field, a space in front of the others.
pub open spec fn spec_selection_marker(selected_field_index: usize, field_position: nat) -> Seq<char> {
    if selected_field_index == field_position {
        ">"@
    } else {
        " "@
    }
}

/// One field line: the selection marker, the field's name and its value. The tagged form, used
/// by the pane's view, marks the line as a field and closes it with a full stop; the plain form,
/// used by the pane state's own summary, is `marker name=value`.
pub open spec fn spec_field_line(tagged: bool, selected_field_index: usize, field_position: nat, label: Seq<char>, value: Seq<char>) -> Seq<char> {
    if tagged {
        spec_selection_marker(selected_field_index, field_position) + " [FLD] "@ + label + "="@ + value + "."@
    } else {
        spec_selection_marker(selected_field_index, field_position) + " "@ + label + "="@ + value
    }
}

pub open spec fn spec_memory_alignment_label(memory_alignment: Option<MemoryAlignment>) -> Seq<char> {
    match memory_alignment {
        Some(MemoryAlignment::Alignment1) => "1"@,
        Some(MemoryAlignment::Alignment2) => "2"@,
        Some(MemoryAlignment::Alignment4) => "4"@,
        Some(MemoryAlignment::Alignment8) => "8"@,
        None => "none"@,
    }
}

pub open spec fn spec_memory_read_mode_label(memory_read_mode: MemoryReadMode) -> Seq<char> {
    match memory_read_mode {
        MemoryReadMode::Skip => "skip"@,
        MemoryReadMode::ReadBeforeScan => "before_scan"@,
        MemoryReadMode::ReadInterleavedWithScan => "interleaved"@,
    }
}

pub open spec fn spec_floating_point_tolerance_label(tolerance: FloatingPointTolerance) -> Seq<char> {
    match tolerance {
        FloatingPointTolerance::Tolerance10E1 => "0.1"@,
        FloatingPointTolerance::Tolerance10E2 => "0.01"@,
        FloatingPointTolerance::Tolerance10E3 => "0.001"@,
        FloatingPointTolerance::Tolerance10E4 => "0.0001"@,
        FloatingPointTolerance::Tolerance10E5 => "0.00001"@,
        FloatingPointTolerance::ToleranceEpsilon => "epsilon"@,
    }
}

/// The field lines of the general category.
pub open spec fn spec_general_summary_lines(state: SettingsPaneState, tagged: bool) -> Seq<Seq<char>> {
    let selected = state.selected_field_index;
    seq![
        spec_field_line(tagged, selected, 0, "engine_request_delay_ms"@, spec_decimal(state.general_settings.engine_request_delay_ms as nat)),
    ]
}

/// The field lines of the memory category.
pub open spec fn spec_memory_summary_lines(state: SettingsPaneState, tagged: bool) -> Seq<Seq<char>> {
    let selected = state.selected_field_index;
    let settings = state.memory_settings;
    seq![
        spec_field_line(tagged, selected, 0, "memory_type_none"@, spec_bool_text(settings.memory_type_none)),
        spec_field_line(tagged, selected, 1, "memory_type_private"@, spec_bool_text(settings.memory_type_private)),
        spec_field_line(tagged, selected, 2, "memory_type_image"@, spec_bool_text(settings.memory_type_image)),
        spec_field_line(tagged, selected, 3, "memory_type_mapped"@, spec_bool_text(settings.memory_type_mapped)),
        spec_field_line(tagged, selected, 4, "required_write"@, spec_bool_text(settings.required_write)),
        spec_field_line(tagged, selected, 5, "required_execute"@, spec_bool_text(settings.required_execute)),
        spec_field_line(tagged, selected, 6, "required_copy_on_write"@, spec_bool_text(settings.required_copy_on_write)),
        spec_field_line(tagged, selected, 7, "excluded_write"@, spec_bool_text(settings.excluded_write)),
        spec_field_line(tagged, selected, 8, "excluded_execute"@, spec_bool_text(settings.excluded_execute)),
        spec_field_line(tagged, selected, 9, "excluded_copy_on_write"@, spec_bool_text(settings.excluded_copy_on_write)),
        spec_field_line(tagged, selected, 10, "start_address"@, "0x"@ + spec_hex_upper(settings.start_address as nat)),
        spec_field_line(tagged, selected, 11, "end_address"@, "0x"@ + spec_hex_upper(settings.end_address as nat)),
        spec_field_line(tagged, selected, 12, "only_query_usermode"@, spec_bool_text(settings.only_query_usermode)),
    ]
}

/// The field lines of the scan category.
pub open spec fn spec_scan_summary_lines(state: SettingsPaneState, tagged: bool) -> Seq<Seq<char>> {
    let selected = state.selected_field_index;
    let settings = state.scan_settings;
    seq![
        spec_field_line(tagged, selected, 0, "results_page_size"@, spec_decimal(settings.results_page_size as nat)),
        spec_field_line(tagged, selected, 1, "freeze_interval_ms"@, spec_decimal(settings.freeze_interval_ms as nat)),
        spec_field_line(tagged, selected, 2, "project_read_interval_ms"@, spec_decimal(settings.project_read_interval_ms as nat)),
        spec_field_line(tagged, selected, 3, "results_read_interval_ms"@, spec_decimal(settings.results_read_interval_ms as nat)),
        spec_field_line(tagged, selected, 4, "memory_alignment"@, spec_memory_alignment_label(settings.memory_alignment)),
        spec_field_line(tagged, selected, 5, "memory_read_mode"@, spec_memory_read_mode_label(settings.memory_read_mode)),
        spec_field_line(tagged, selected, 6, "floating_point_tolerance"@, spec_floating_point_tolerance_label(settings.floating_point_tolerance)),
        spec_field_line(tagged, selected, 7, "is_single_threaded_scan"@, spec_bool_text(settings.is_single_threaded_scan)),
        spec_field_line(tagged, selected, 8, "debug_perform_validation_scan"@, spec_bool_text(settings.debug_perform_validation_scan)),
    ]
}

/// The field lines of the selected category.
pub open spec fn spec_selected_category_lines(state: SettingsPaneState, tagged: bool) -> Seq<Seq<char>> {
    match state.selected_category {
        SettingsCategory::General => spec_general_summary_lines(state, tagged),
        SettingsCategory::Memory => spec_memory_summary_lines(state, tagged),
        SettingsCategory::Scan => spec_scan_summary_lines(state, tagged),
    }
}

/// The settings summary: key help, the selection, the load flags and status, then one line
/// per field of the selected category.
pub open spec fn spec_settings_summary_lines(state: SettingsPaneState) -> Seq<Seq<char>> {
    seq![
        "[CAT] ] next | [ prev | r refresh-all."@,
        "[NAV] j/k field."@,
        "[ACT] Space toggle | +/- step | </> cycle enum | Enter apply category."@,
        "[META] category="@ + spec_category_title(state.selected_category) + " | selected_field="@
            + spec_decimal(state.selected_field_index as nat) + "."@,
        "[LOAD] pending_changes="@ + spec_bool_text(state.has_pending_changes) + " | loaded_once="@
            + spec_bool_text(state.has_loaded_settings_once) + " | refreshing="@
            + spec_bool_text(state.is_refreshing_settings) + " | applying="@
            + spec_bool_text(state.is_applying_settings) + "."@,
        "[STAT] "@ + state.status_message@ + "."@,
    ] + spec_selected_category_lines(state, true)
}

proof fn lemma_general_step_rows(state: SettingsPaneState, increase_value: bool, tagged: bool)
    requires
        state.selected_category == SettingsCategory::General,
    ensures
        spec_general_summary_lines(state.spec_after_step(increase_value), tagged).len() == 1,
{
}

#[verifier::rlimit(80)]
proof fn lemma_memory_rows_besides_start(before: SettingsPaneState, after: SettingsPaneState, tagged: bool)
    requires
        after.selected_field_index == before.selected_field_index,
        after.memory_settings == (MemorySettings { start_address: after.memory_settings.start_address, ..before.memory_settings }),
    ensures
        forall|row: int|
            0 <= row < 13 && row != 10 ==> #[trigger] spec_memory_summary_lines(after, tagged)[row] == spec_memory_summary_lines(
                before,
                tagged,
            )[row],
{
    let before_lines = spec_memory_summary_lines(before, tagged);
    let after_lines = spec_memory_summary_lines(after, tagged);
    assert(after_lines[0] == before_lines[0]);
    assert(after_lines[1] == before_lines[1]);
    assert(after_lines[2] == before_lines[2]);
    assert(after_lines[3] == before_lines[3]);
    assert(after_lines[4] == before_lines[4]);
    assert(after_lines[5] == before_lines[5]);
    assert(after_lines[6] == before_lines[6]);
    assert(after_lines[7] == before_lines[7]);
    assert(after_lines[8] == before_lines[8]);
    assert(after_lines[9] == before_lines[9]);
    assert(after_lines[11] == before_lines[11]);
    assert(after_lines[12] == before_lines[12]);
}

#[verifier::rlimit(80)]
proof fn lemma_memory_rows_besides_end(before: SettingsPaneState, after: SettingsPaneState, tagged: bool)
    requires
        after.selected_field_index == before.selected_field_index,
        after.memory_settings == (MemorySettings { end_address: after.memory_settings.end_address, ..before.memory_settings }),
    ensures
        forall|row: int|
            0 <= row < 13 && row != 11 ==> #[trigger] spec_memory_summary_lines(after, tagged)[row] == spec_memory_summary_lines(
                before,
                tagged,
            )[row],
{
    let before_lines = spec_memory_summary_lines(before, tagged);
    let after_lines = spec_memory_summary_lines(after, tagged);
    assert(after_lines[0] == before_lines[0]);
    assert(after_lines[1] == before_lines[1]);
    assert(after_lines[2] == before_lines[2]);
    assert(after_lines[3] == before_lines[3]);
    assert(after_lines[4] == before_lines[4]);
    assert(after_lines[5] == before_lines[5]);
    assert(after_lines[6] == before_lines[6]);
    assert(after_lines[7] == before_lines[7]);
    assert(after_lines[8] == before_lines[8]);
    assert(after_lines[9] == before_lines[9]);
    assert(after_lines[10] == before_lines[10]);
    assert(after_lines[12] == before_lines[12]);
}

proof fn lemma_memory_step_rows(state: SettingsPaneState, increase_value: bool, tagged: bool)
    requires
        state.selected_category == SettingsCategory::Memory,
    ensures
        forall|row: int|
            0 <= row < 13 && row != state.selected_field_index ==> #[trigger] spec_memory_summary_lines(
                state.spec_after_step(increase_value),
                tagged,
            )[row] == spec_memory_summary_lines(state, tagged)[row],
{
    let field = state.selected_field_index;
    let after = state.spec_after_step(increase_value);
    if field == 10 {
        assert(after.memory_settings == (MemorySettings { start_address: after.memory_settings.start_address, ..state.memory_settings }));
        lemma_memory_rows_besides_start(state, after, tagged);
    } else if field == 11 {
        assert(after.memory_settings == (MemorySettings { end_address: after.memory_settings.end_address, ..state.memory_settings }));
        lemma_memory_rows_besides_end(state, after, tagged);
    } else {
        assert(state.spec_after_step(increase_value).memory_settings == state.memory_settings);
        assert(state.spec_after_step(increase_value).selected_field_index == state.selected_field_index);
    }
}

#[verifier::rlimit(40)]
proof fn lemma_scan_step_rows(state: SettingsPaneState, increase_value: bool, tagged: bool)
    requires
        state.selected_category == SettingsCategory::Scan,
    ensures
        forall|row: int|
            0 <= row < 9 && row != state.selected_field_index ==> #[trigger] spec_scan_summary_lines(
                state.spec_after_step(increase_value),
                tagged,
            )[row] == spec_scan_summary_lines(state, tagged)[row],
{
    let after = state.spec_after_step(increase_value);
    let before_lines = spec_scan_summary_lines(state, tagged);
    let after_lines = spec_scan_summary_lines(after, tagged);
    let field = state.selected_field_index;
    if field != 0 {
        assert(after_lines[0] == before_lines[0]);
    }
    if field != 1 {
        assert(after_lines[1] == before_lines[1]);
    }
    if field != 2 {
        assert(after_lines[2] == before_lines[2]);
    }
    if field != 3 {
        assert(after_lines[3] == before_lines[3]);
    }
    if field != 4 {
        assert(after_lines[4] == before_lines[4]);
    }
    if field != 5 {
        assert(after_lines[5] == before_lines[5]);
    }
    if field != 6 {
        assert(after_lines[6] == before_lines[6]);
    }
    if field != 7 {
        assert(after_lines[7] == before_lines[7]);
    }
    if field != 8 {
        assert(after_lines[8] == before_lines[8]);
    }
}

/// Stepping the selected numeric field changes only the row that shows it: every other row
/// of the selected category, in either summary form, reads as before.
pub proof fn lemma_step_changes_only_selected_row(state: SettingsPaneState, increase_value: bool, tagged: bool)
    ensures
        spec_selected_category_lines(state.spec_after_step(increase_value), tagged).len() == spec_selected_category_lines(
            state,
            tagged,
        ).len(),
        forall|row: int|
            0 <= row < spec_selected_category_lines(state, tagged).len() && row != state.selected_field_index ==> #[trigger] spec_selected_category_lines(
                state.spec_after_step(increase_value),
                tagged,
            )[row] == spec_selected_category_lines(state, tagged)[row],
{
    let after = state.spec_after_step(increase_value);
    assert(after.selected_category == state.selected_category);
    match state.selected_category {
        SettingsCategory::General => {
            lemma_general_step_rows(state, increase_value, tagged);
            assert(spec_selected_category_lines(state, tagged) == spec_general_summary_lines(state, tagged));
            assert(spec_selected_category_lines(after, tagged) == spec_general_summary_lines(after, tagged));
        },
        SettingsCategory::Memory => {
            lemma_memory_step_rows(state, increase_value, tagged);
            assert(spec_selected_category_lines(state, tagged) == spec_memory_summary_lines(state, tagged));
            assert(spec_selected_category_lines(after, tagged) == spec_memory_summary_lines(after, tagged));
            assert(spec_memory_summary_lines(state, tagged).len() == 13);
            assert(spec_memory_summary_lines(after, tagged).len() == 13);
        },
        SettingsCategory::Scan => {
            lemma_scan_step_rows(state, increase_value, tagged);
            assert(spec_selected_category_lines(state, tagged) == spec_scan_summary_lines(state, tagged));
            assert(spec_selected_category_lines(after, tagged) == spec_scan_summary_lines(after, tagged));
            assert(spec_scan_summary_lines(state, tagged).len() == 9);
            assert(spec_scan_summary_lines(after, tagged).len() == 9);
        },
    }
}

/// The pane state's own summary: key help, one value per line, then one plain line per field
/// of the selected category.
pub open spec fn spec_settings_state_summary_lines(state: SettingsPaneState) -> Seq<Seq<char>> {
    seq![
        "Category: ]/[ cycle, r refresh all."@,
        "Field nav: j/k select row."@,
        "Mutate: Space toggle bool, +/- step numeric, </> cycle enum, Enter apply category."@,
        "category="@ + spec_category_title(state.selected_category),
        "selected_field="@ + spec_decimal(state.selected_field_index as nat),
        "pending_changes="@ + spec_bool_text(state.has_pending_changes),
        "loaded_once="@ + spec_bool_text(state.has_loaded_settings_once),
        "refreshing="@ + spec_bool_text(state.is_refreshing_settings),
        "applying="@ + spec_bool_text(state.is_applying_settings),
        "status="@ + state.status_message@,
    ] + spec_selected_category_lines(state, false)
}

fn selection_marker(selected_field_index: usize, field_position: usize) -> (marker: &'static str)
    ensures
        marker@ == spec_selection_marker(selected_field_index, field_position as nat),
{
    if selected_field_index == field_position {
        ">"
    } else {
        " "
    }
}

fn field_line(tagged: bool, selected_field_index: usize, field_position: usize, label: &str, value: &str) -> (line: String)
    ensures
        line@ == spec_field_line(tagged, selected_field_index, field_position as nat, label@, value@),
{
    let mut line = owned(selection_marker(selected_field_index, field_position));
    if tagged {
        line.append(" [FLD] ");
    } else {
        line.append(" ");
    }
    line.append(label);
    line.append("=");
    line.append(value);
    if tagged {
        line.append(".");
    }
    line
}

fn memory_alignment_label(memory_alignment: Option<MemoryAlignment>) -> (label: &'static str)
    ensures
        label@ == spec_memory_alignment_label(memory_alignment),
{
    match memory_alignment {
        Some(MemoryAlignment::Alignment1) => "1",
        Some(MemoryAlignment::Alignment2) => "2",
        Some(MemoryAlignment::Alignment4) => "4",
        Some(MemoryAlignment::Alignment8) => "8",
        None => "none",
    }
}

fn memory_read_mode_label(memory_read_mode: MemoryReadMode) -> (label: &'static str)
    ensures
        label@ == spec_memory_read_mode_label(memory_read_mode),
{
    match memory_read_mode {
        MemoryReadMode::Skip => "skip",
        MemoryReadMode::ReadBeforeScan => "before_scan",
        MemoryReadMode::ReadInterleavedWithScan => "interleaved",
    }
}

fn floating_point_tolerance_label(tolerance: FloatingPointTolerance) -> (label: &'static str)
    ensures
        label@ == spec_floating_point_tolerance_label(tolerance),
{
    match tolerance {
        FloatingPointTolerance::Tolerance10E1 => "0.1",
        FloatingPointTolerance::Tolerance10E2 => "0.01",
        FloatingPointTolerance::Tolerance10E3 => "0.001",
        FloatingPointTolerance::Tolerance10E4 => "0.0001",
        FloatingPointTolerance::Tolerance10E5 => "0.00001",
        FloatingPointTolerance::ToleranceEpsilon => "epsilon",
    }
}

fn general_summary_lines(state: &SettingsPaneState, tagged: bool) -> (lines: Vec<String>)
    ensures
        spec_texts(lines@) == spec_general_summary_lines(*state, tagged),
{
    let selected = state.selected_field_index;
    let mut lines: Vec<String> = Vec::new();
    lines.push(field_line(tagged, selected, 0, "engine_request_delay_ms", decimal_text(state.general_settings.engine_request_delay_ms).as_str()));
    assert(spec_texts(lines@) =~= spec_general_summary_lines(*state, tagged));
    lines
}

fn memory_summary_lines(state: &SettingsPaneState, tagged: bool) -> (lines: Vec<String>)
    ensures
        spec_texts(lines@) == spec_memory_summary_lines(*state, tagged),
{
    let selected = state.selected_field_index;
    let settings = state.memory_settings;
    let mut lines: Vec<String> = Vec::new();
    lines.push(field_line(tagged, selected, 0, "memory_type_none", bool_text(settings.memory_type_none).as_str()));
    lines.push(field_line(tagged, selected, 1, "memory_type_private", bool_text(settings.memory_type_private).as_str()));
    lines.push(field_line(tagged, selected, 2, "memory_type_image", bool_text(settings.memory_type_image).as_str()));
    lines.push(field_line(tagged, selected, 3, "memory_type_mapped", bool_text(settings.memory_type_mapped).as_str()));
    lines.push(field_line(tagged, selected, 4, "required_write", bool_text(settings.required_write).as_str()));
    lines.push(field_line(tagged, selected, 5, "required_execute", bool_text(settings.required_execute).as_str()));
    lines.push(field_line(tagged, selected, 6, "required_copy_on_write", bool_text(settings.required_copy_on_write).as_str()));
    lines.push(field_line(tagged, selected, 7, "excluded_write", bool_text(settings.excluded_write).as_str()));
    lines.push(field_line(tagged, selected, 8, "excluded_execute", bool_text(settings.excluded_execute).as_str()));
    lines.push(field_line(tagged, selected, 9, "excluded_copy_on_write", bool_text(settings.excluded_copy_on_write).as_str()));
    lines.push(field_line(tagged, selected, 10, "start_address", prefixed_hex_text(settings.start_address).as_str()));
    lines.push(field_line(tagged, selected, 11, "end_address", prefixed_hex_text(settings.end_address).as_str()));
    lines.push(field_line(tagged, selected, 12, "only_query_usermode", bool_text(settings.only_query_usermode).as_str()));
    assert(spec_texts(lines@) =~= spec_memory_summary_lines(*state, tagged));
    lines
}

fn scan_summary_lines(state: &SettingsPaneState, tagged: bool) -> (lines: Vec<String>)
    ensures
        spec_texts(lines@) == spec_scan_summary_lines(*state, tagged),
{
    let selected = state.selected_field_index;
    let settings = state.scan_settings;
    let mut lines: Vec<String> = Vec::new();
    lines.push(field_line(tagged, selected, 0, "results_page_size", decimal_text(settings.results_page_size as u64).as_str()));
    lines.push(field_line(tagged, selected, 1, "freeze_interval_ms", decimal_text(settings.freeze_interval_ms).as_str()));
    lines.push(field_line(tagged, selected, 2, "project_read_interval_ms", decimal_text(settings.project_read_interval_ms).as_str()));
    lines.push(field_line(tagged, selected, 3, "results_read_interval_ms", decimal_text(settings.results_read_interval_ms).as_str()));
    lines.push(field_line(tagged, selected, 4, "memory_alignment", memory_alignment_label(settings.memory_alignment)));
    lines.push(field_line(tagged, selected, 5, "memory_read_mode", memory_read_mode_label(settings.memory_read_mode)));
    lines.push(field_line(tagged, selected, 6, "floating_point_tolerance", floating_point_tolerance_label(settings.floating_point_tolerance)));
    lines.push(field_line(tagged, selected, 7, "is_single_threaded_scan", bool_text(settings.is_single_threaded_scan).as_str()));
    lines.push(field_line(tagged, selected, 8, "debug_perform_validation_scan", bool_text(settings.debug_perform_validation_scan).as_str()));
    assert(spec_texts(lines@) =~= spec_scan_summary_lines(*state, tagged));
    lines
}

/// Builds the settings summary lines.
pub fn build_settings_summary_lines(settings_pane_state: &SettingsPaneState) -> (summary_lines: Vec<String>)
    ensures
        spec_texts(summary_lines@) == spec_settings_summary_lines(*settings_pane_state),
{
    let state = settings_pane_state;
    let mut summary_lines: Vec<String> = Vec::new();
    summary_lines.push(owned("[CAT] ] next | [ prev | r refresh-all."));
    summary_lines.push(owned("[NAV] j/k field."));
    summary_lines.push(owned("[ACT] Space toggle | +/- step | </> cycle enum | Enter apply category."));
    let mut line = owned("[META] category=");
    line.append(state.selected_category.title());
    line.append(" | selected_field=");
    push_decimal_usize(&mut line, state.selected_field_index);
    line.append(".");
    summary_lines.push(line);
    let mut line = owned("[LOAD] pending_changes=");
    push_bool(&mut line, state.has_pending_changes);
    line.append(" | loaded_once=");
    push_bool(&mut line, state.has_loaded_settings_once);
    line.append(" | refreshing=");
    push_bool(&mut line, state.is_refreshing_settings);
    line.append(" | applying=");
    push_bool(&mut line, state.is_applying_settings);
    line.append(".");
    summary_lines.push(line);
    let mut line = owned("[STAT] ");
    line.append(state.status_message.as_str());
    line.append(".");
    summary_lines.push(line);
    let ghost header = summary_lines@;
    let mut category_lines = match state.selected_category {
        SettingsCategory::General => general_summary_lines(state, true),
        SettingsCategory::Memory => memory_summary_lines(state, true),
        SettingsCategory::Scan => scan_summary_lines(state, true),
    };
    let ghost tail = category_lines@;
    summary_lines.append(&mut category_lines);
    assert(summary_lines@ =~= header + tail);
    assert(spec_texts(header + tail) =~= spec_texts(header) + spec_texts(tail));
    assert(spec_texts(summary_lines@) =~= spec_settings_summary_lines(*state));
    summary_lines
}

} // verus!

verus! {

/// Scan settings after cycling the choice field at a position, if that field is one: a
/// missing alignment counts as the first and always becomes a concrete one.
pub open spec fn spec_cycled_scan_settings(settings: ScanSettings, field: nat, move_forward: bool) -> ScanSettings {
    if field == 4 {
        ScanSettings {
            memory_alignment: Some(spec_alignment_at(spec_cycle_position(spec_alignment_position(settings.memory_alignment), 4, move_forward))),
            ..settings
        }
    } else if field == 5 {
        ScanSettings {
            memory_read_mode: spec_read_mode_at(spec_cycle_position(spec_read_mode_position(settings.memory_read_mode), 3, move_forward)),
            ..settings
        }
    } else if field == 6 {
        ScanSettings {
            floating_point_tolerance: spec_tolerance_at(spec_cycle_position(spec_tolerance_position(settings.floating_point_tolerance), 6, move_forward)),
            ..settings
        }
    } else {
        settings
    }
}

impl SettingsPaneState {
    /// The state after moving to the next or previous category, at its first field.
    pub open spec fn spec_after_cycle_category(self, move_forward: bool) -> SettingsPaneState {
        SettingsPaneState {
            selected_category: spec_category_at(spec_cycle_position(spec_category_position(self.selected_category), 3, move_forward)),
            selected_field_index: 0,
            ..self
        }
    }

    /// The state after moving to the next field of the category, wrapping to the first.
    pub open spec fn spec_after_select_next_field(self) -> SettingsPaneState {
        SettingsPaneState {
            selected_field_index: ((self.selected_field_index as int + 1) % spec_field_count(self.selected_category) as int) as usize,
            ..self
        }
    }

    /// The state after moving to the previous field of the category, wrapping to the last.
    pub open spec fn spec_after_select_previous_field(self) -> SettingsPaneState {
        SettingsPaneState {
            selected_field_index: if self.selected_field_index == 0 {
                (spec_field_count(self.selected_category) - 1) as usize
            } else {
                (self.selected_field_index - 1) as usize
            },
            ..self
        }
    }

    /// The state after flipping the selected field when it is a boolean.
    pub open spec fn spec_after_toggle(self) -> SettingsPaneState {
        SettingsPaneState {
            memory_settings: if self.selected_category == SettingsCategory::Memory {
                spec_toggle_memory_field(self.memory_settings, self.selected_field_index as nat)
            } else {
                self.memory_settings
            },
            scan_settings: if self.selected_category == SettingsCategory::Scan {
                spec_toggle_scan_field(self.scan_settings, self.selected_field_index as nat)
            } else {
                self.scan_settings
            },
            has_pending_changes: self.has_pending_changes || spec_is_boolean_field(self.selected_category, self.selected_field_index as nat),
            ..self
        }
    }

    /// The state after stepping the selected field when it is a number.
    pub open spec fn spec_after_step(self, increase_value: bool) -> SettingsPaneState {
        SettingsPaneState {
            general_settings: if self.selected_category == SettingsCategory::General {
                spec_stepped_general_settings(self.general_settings, self.selected_field_index as nat, increase_value)
            } else {
                self.general_settings
            },
            memory_settings: if self.selected_category == SettingsCategory::Memory {
                spec_stepped_memory_settings(self.memory_settings, self.selected_field_index as nat, increase_value)
            } else {
                self.memory_settings
            },
            scan_settings: if self.selected_category == SettingsCategory::Scan {
                spec_stepped_scan_settings(self.scan_settings, self.selected_field_index as nat, increase_value)
            } else {
                self.scan_settings
            },
            has_pending_changes: self.has_pending_changes || spec_is_numeric_field(self.selected_category, self.selected_field_index as nat),
            ..self
        }
    }

    /// The state after cycling the selected field when it is a choice.
    pub open spec fn spec_after_cycle_enum(self, move_forward: bool) -> SettingsPaneState {
        SettingsPaneState {
            scan_settings: if self.selected_category == SettingsCategory::Scan {
                spec_cycled_scan_settings(self.scan_settings, self.selected_field_index as nat, move_forward)
            } else {
                self.scan_settings
            },
            has_pending_changes: self.has_pending_changes || spec_is_enum_field(self.selected_category, self.selected_field_index as nat),
            ..self
        }
    }
}

} // verus!
