use vstd::prelude::*;
use crate::pane_entry_row::{PaneEntryRow, PaneEntryRowTone, PaneEntryRowView};
use crate::selection::{spec_first_index, lemma_first_index, lemma_first_index_step, lemma_first_index_extends};
use crate::text::{
    spec_decimal, spec_hex_upper, spec_texts, push_decimal, push_decimal_usize, push_hex_upper, push_char,
    pop_char, owned, lemma_texts_push,
};
use crate::viewport::{build_selection_relative_viewport_range, spec_viewport_start, spec_viewport_len};

verus! {

/// How a value's text is written.
#[derive(Clone, Copy, Debug, PartialEq, Eq, Structural)]
pub enum AnonymousValueStringFormat {
    Binary,
    Decimal,
    Hexadecimal,
    Address,
    String,
    Bool,
}

/// Whether a value is a single element or a sequence of them.
#[derive(Clone, Copy, Debug, PartialEq, Eq, Structural)]
pub enum ContainerType {
    Scalar,
    Array,
}

/// A value written as text, with the format of the text.
pub struct AnonymousValueString {
    pub anonymous_value_string: String,
    pub anonymous_value_string_format: AnonymousValueStringFormat,
    pub container_type: ContainerType,
}

impl AnonymousValueString {
    pub fn new(
        anonymous_value_string: String,
        anonymous_value_string_format: AnonymousValueStringFormat,
        container_type: ContainerType,
    ) -> (value: AnonymousValueString)
        ensures
            value.anonymous_value_string == anonymous_value_string,
            value.anonymous_value_string_format == anonymous_value_string_format,
            value.container_type == container_type,
    {
        AnonymousValueString { anonymous_value_string, anonymous_value_string_format, container_type }
    }

    /// A copy with the same text, format and container type.
    pub fn copied(&self) -> (copy: AnonymousValueString)
        ensures
            copy.anonymous_value_string@ == self.anonymous_value_string@,
            copy.anonymous_value_string_format == self.anonymous_value_string_format,
            copy.container_type == self.container_type,
    {
        AnonymousValueString {
            anonymous_value_string: self.anonymous_value_string.clone(),
            anonymous_value_string_format: self.anonymous_value_string_format,
            container_type: self.container_type,
        }
    }
}

/// Identifies a scan result across pages by its global index.
#[derive(Clone, Copy, Debug, PartialEq, Eq, Structural)]
pub struct ScanResultRef {
    pub scan_result_global_index: u64,
}

impl ScanResultRef {
    pub fn new(scan_result_global_index: u64) -> (scan_result_ref: ScanResultRef)
        ensures
            scan_result_ref.scan_result_global_index == scan_result_global_index,
    {
        ScanResultRef { scan_result_global_index }
    }
}

/// One scan result: where it is, its type, whether it is frozen, and its values as text.
pub struct ScanResult {
    pub scan_result_ref: ScanResultRef,
    pub address: u64,
    pub data_type_id: String,
    pub is_frozen: bool,
    pub current_display_values: Vec<AnonymousValueString>,
    pub recently_read_display_values: Vec<AnonymousValueString>,
}

/// The plain contents of a displayed value.
pub open spec fn spec_value_view(value: AnonymousValueString) -> (Seq<char>, AnonymousValueStringFormat, ContainerType) {
    (value.anonymous_value_string@, value.anonymous_value_string_format, value.container_type)
}

/// The plain contents of a scan result.
pub struct ScanResultView {
    pub scan_result_global_index: u64,
    pub address: u64,
    pub data_type_id: Seq<char>,
    pub is_frozen: bool,
    pub current_display_values: Seq<(Seq<char>, AnonymousValueStringFormat, ContainerType)>,
    pub recently_read_display_values: Seq<(Seq<char>, AnonymousValueStringFormat, ContainerType)>,
}

impl View for ScanResult {
    type V = ScanResultView;

    open spec fn view(&self) -> ScanResultView {
        ScanResultView {
            scan_result_global_index: self.scan_result_ref.scan_result_global_index,
            address: self.address,
            data_type_id: self.data_type_id@,
            is_frozen: self.is_frozen,
            current_display_values: self.current_display_values@.map_values(|value: AnonymousValueString| spec_value_view(value)),
            recently_read_display_values: self.recently_read_display_values@.map_values(|value: AnonymousValueString| spec_value_view(value)),
        }
    }
}

fn copy_values(values: &Vec<AnonymousValueString>) -> (copies: Vec<AnonymousValueString>)
    ensures
        copies@.map_values(|value: AnonymousValueString| spec_value_view(value)) == values@.map_values(
            |value: AnonymousValueString| spec_value_view(value),
        ),
{
    let mut copies: Vec<AnonymousValueString> = Vec::new();
    let mut position: usize = 0;
    while position < values.len()
        invariant
            position <= values@.len(),
            copies@.len() == position,
            forall|k: int| 0 <= k < position ==> spec_value_view(#[trigger] copies@[k]) == spec_value_view(values@[k]),
        decreases values@.len() - position,
    {
        copies.push(values[position].copied());
        position = position + 1;
    }
    assert(copies@.map_values(|value: AnonymousValueString| spec_value_view(value)) =~= values@.map_values(
        |value: AnonymousValueString| spec_value_view(value),
    ));
    copies
}

/// The first value written in the given format.
pub open spec fn spec_display_value_in_format(
    values: Seq<(Seq<char>, AnonymousValueStringFormat, ContainerType)>,
    format: AnonymousValueStringFormat,
) -> Option<Seq<char>> {
    match spec_format_position(values, format) {
        Some(index) => Some(values[index].0),
        None => None,
    }
}

impl ScanResult {
    pub fn new(
        scan_result_ref: ScanResultRef,
        address: u64,
        data_type_id: String,
        is_frozen: bool,
        current_display_values: Vec<AnonymousValueString>,
        recently_read_display_values: Vec<AnonymousValueString>,
    ) -> (scan_result: ScanResult)
        ensures
            scan_result.scan_result_ref == scan_result_ref,
            scan_result.address == address,
            scan_result.data_type_id == data_type_id,
            scan_result.is_frozen == is_frozen,
            scan_result.current_display_values == current_display_values,
            scan_result.recently_read_display_values == recently_read_display_values,
    {
        ScanResult { scan_result_ref, address, data_type_id, is_frozen, current_display_values, recently_read_display_values }
    }

    /// A copy with the same contents.
    pub fn copied(&self) -> (copy: ScanResult)
        ensures
            copy@ == self@,
    {
        ScanResult {
            scan_result_ref: self.scan_result_ref,
            address: self.address,
            data_type_id: self.data_type_id.clone(),
            is_frozen: self.is_frozen,
            current_display_values: copy_values(&self.current_display_values),
            recently_read_display_values: copy_values(&self.recently_read_display_values),
        }
    }

    /// The text of the first value written in `format`.
    pub fn display_value_in_format(
        values: &Vec<AnonymousValueString>,
        format: AnonymousValueStringFormat,
    ) -> (text: Option<String>)
        ensures
            match spec_display_value_in_format(
                values@.map_values(|value: AnonymousValueString| spec_value_view(value)),
                format,
            ) {
                Some(expected) => text matches Some(found) && found@ == expected,
                None => text is None,
            },
    {
        let ghost viewed = values@.map_values(|value: AnonymousValueString| spec_value_view(value));
        let mut position: usize = 0;
        while position < values.len()
            invariant
                position <= values@.len(),
                viewed == values@.map_values(|value: AnonymousValueString| spec_value_view(value)),
                spec_format_position(viewed.subrange(0, position as int), format) is None,
            decreases values@.len() - position,
        {
            proof {
                assert(viewed[position as int] == spec_value_view(values@[position as int]));
                lemma_first_index_step(
                    viewed,
                    spec_format_matcher(format),
                    position as int,
                );
            }
            if values[position].anonymous_value_string_format == format {
                proof {
                    assert(viewed[position as int].1 == format);
                    lemma_first_index_extends(
                        viewed,
                        spec_format_matcher(format),
                        position + 1,
                    );
                }
                return Some(values[position].anonymous_value_string.clone());
            }
            position = position + 1;
        }
        assert(viewed.subrange(0, viewed.len() as int) =~= viewed);
        None
    }
}

/// Whether a displayed value is written in `format`.
pub open spec fn spec_format_matcher(format: AnonymousValueStringFormat) -> spec_fn((Seq<char>, AnonymousValueStringFormat, ContainerType)) -> bool {
    |value: (Seq<char>, AnonymousValueStringFormat, ContainerType)| value.1 == format
}

/// The position of the first value written in `format`.
pub open spec fn spec_format_position(
    values: Seq<(Seq<char>, AnonymousValueStringFormat, ContainerType)>,
    format: AnonymousValueStringFormat,
) -> Option<int> {
    spec_first_index(values, spec_format_matcher(format))
}

/// A page of scan results as the engine answers a query.
pub struct ScanResultsQueryResponse {
    pub page_index: u64,
    pub last_page_index: u64,
    pub page_size: u64,
    pub result_count: u64,
    pub total_size_in_bytes: u64,
    pub scan_results: Vec<ScanResult>,
}

/// Stores pagination and selection state for scan results.
pub struct ScanResultsPaneState {
    pub current_page_index: u64,
    pub cached_last_page_index: u64,
    pub results_per_page: u64,
    pub total_result_count: u64,
    pub total_size_in_bytes: u64,
    pub scan_results: Vec<ScanResult>,
    pub selected_result_index: Option<usize>,
    pub selected_range_end_index: Option<usize>,
    pub pending_value_edit_text: String,
    pub is_querying_scan_results: bool,
    pub is_refreshing_scan_results: bool,
    pub is_freezing_scan_results: bool,
    pub is_deleting_scan_results: bool,
    pub is_adding_scan_results_to_project: bool,
    pub is_committing_value_edit: bool,
    pub status_message: String,
}

/// The position of the first result with the given global index.
pub open spec fn spec_result_position(results: Seq<ScanResult>, scan_result_global_index: u64) -> Option<int> {
    spec_first_index(results, |result: ScanResult| result.scan_result_ref.scan_result_global_index == scan_result_global_index)
}

/// The global index of the result at an optional position, when the position is in range.
pub open spec fn spec_global_index_at(results: Seq<ScanResult>, index: Option<usize>) -> Option<u64> {
    match index {
        Some(position) if position < results.len() => Some(results[position as int].scan_result_ref.scan_result_global_index),
        _ => None,
    }
}

/// The position in `results` of a result identified by an earlier global index, falling
/// back to the earlier position when it is still in range.
pub open spec fn spec_restored_index(results: Seq<ScanResult>, previous_global_index: Option<u64>, previous_index: Option<usize>) -> Option<usize> {
    match previous_global_index {
        Some(global_index) if spec_result_position(results, global_index) is Some =>
            Some(spec_result_position(results, global_index).unwrap() as usize),
        _ => match previous_index {
            Some(index) if index < results.len() => Some(index),
            _ => None,
        },
    }
}

/// Whether a character may be typed into the value edit box.
pub open spec fn spec_is_supported_value_edit_character(character: char) -> bool {
    ('0' <= character <= '9') || character == '-' || character == '.'
}

/// Text of the value to offer for editing: the decimal current value, else the first
/// current value, else the decimal recently read value, else the first recently read value.
pub open spec fn spec_result_value_text(result: ScanResultView) -> Option<Seq<char>> {
    if spec_display_value_in_format(result.current_display_values, AnonymousValueStringFormat::Decimal) is Some {
        spec_display_value_in_format(result.current_display_values, AnonymousValueStringFormat::Decimal)
    } else if result.current_display_values.len() > 0 {
        Some(result.current_display_values[0].0)
    } else if spec_display_value_in_format(result.recently_read_display_values, AnonymousValueStringFormat::Decimal) is Some {
        spec_display_value_in_format(result.recently_read_display_values, AnonymousValueStringFormat::Decimal)
    } else if result.recently_read_display_values.len() > 0 {
        Some(result.recently_read_display_values[0].0)
    } else {
        None
    }
}

/// Whether one of the values is written as `text`.
pub open spec fn spec_value_text_among(values: Seq<(Seq<char>, AnonymousValueStringFormat, ContainerType)>, text: Seq<char>) -> bool {
    exists|k: int| 0 <= k < values.len() && (#[trigger] values[k]).0 == text
}

/// Whether one of the values is decimal and written as `text`.
pub open spec fn spec_decimal_text_among(values: Seq<(Seq<char>, AnonymousValueStringFormat, ContainerType)>, text: Seq<char>) -> bool {
    exists|k: int| 0 <= k < values.len() && (#[trigger] values[k]).1 == AnonymousValueStringFormat::Decimal && values[k].0 == text
}

/// Whether one of the values is decimal.
pub open spec fn spec_has_decimal_value(values: Seq<(Seq<char>, AnonymousValueStringFormat, ContainerType)>) -> bool {
    exists|k: int| 0 <= k < values.len() && (#[trigger] values[k]).1 == AnonymousValueStringFormat::Decimal
}

/// The value offered for editing comes from the result's current values whenever it has
/// one, and is then a decimal one when any current value is decimal; the recently read
/// values are used only without a current value, in the same way; with neither there is
/// nothing to offer.
pub proof fn lemma_value_text_prefers_current_values(result: ScanResultView)
    ensures
        result.current_display_values.len() > 0 ==> (spec_result_value_text(result) matches Some(text)
            && spec_value_text_among(result.current_display_values, text)),
        spec_has_decimal_value(result.current_display_values) ==> (spec_result_value_text(result) matches Some(text)
            && spec_decimal_text_among(result.current_display_values, text)),
        result.current_display_values.len() == 0 && result.recently_read_display_values.len() > 0 ==> (spec_result_value_text(
            result,
        ) matches Some(text) && spec_value_text_among(result.recently_read_display_values, text)),
        result.current_display_values.len() == 0 && spec_has_decimal_value(result.recently_read_display_values) ==> (
        spec_result_value_text(result) matches Some(text) && spec_decimal_text_among(result.recently_read_display_values, text)),
        result.current_display_values.len() == 0 && result.recently_read_display_values.len() == 0 ==> spec_result_value_text(
            result,
        ) is None,
{
    let current = result.current_display_values;
    let recent = result.recently_read_display_values;
    let decimal = spec_format_matcher(AnonymousValueStringFormat::Decimal);
    lemma_first_index(current, decimal);
    lemma_first_index(recent, decimal);
    match spec_first_index(current, decimal) {
        Some(index) => {
            assert(current[index].1 == AnonymousValueStringFormat::Decimal);
        },
        None => {
            assert forall|k: int| 0 <= k < current.len() implies (#[trigger] current[k]).1 != AnonymousValueStringFormat::Decimal by {
                assert(!decimal(current[k]));
            }
            if current.len() == 0 {
                match spec_first_index(recent, decimal) {
                    Some(index) => {
                        assert(recent[index].1 == AnonymousValueStringFormat::Decimal);
                    },
                    None => {
                        assert forall|k: int| 0 <= k < recent.len() implies (#[trigger] recent[k]).1
                            != AnonymousValueStringFormat::Decimal by {
                            assert(!decimal(recent[k]));
                        }
                        if recent.len() > 0 {
                            assert(recent[0].0 == recent[0].0);
                        }
                    },
                }
            } else {
                assert(current[0].0 == current[0].0);
            }
        },
    }
}

impl ScanResultsPaneState {
    /// The inclusive range of selected positions, from the selection and its range end.
    pub open spec fn spec_selected_range(&self) -> Option<(usize, usize)> {
        match self.selected_result_index {
            Some(anchor) => {
                let end = match self.selected_range_end_index {
                    Some(range_end) => range_end,
                    None => anchor,
                };
                if anchor <= end {
                    Some((anchor, end))
                } else {
                    Some((end, anchor))
                }
            },
            None => None,
        }
    }

    /// The positions that are both selected and in the list, as a start and a count.
    pub open spec fn spec_selected_positions(&self) -> (int, int) {
        match self.spec_selected_range() {
            Some((low, high)) => if low >= self.scan_results@.len() {
                (low as int, 0)
            } else if high < self.scan_results@.len() {
                (low as int, high - low + 1)
            } else {
                (low as int, self.scan_results@.len() - low)
            },
            None => (0, 0),
        }
    }

    pub open spec fn spec_selected_value_text(&self) -> Option<Seq<char>> {
        match self.selected_result_index {
            Some(index) if index < self.scan_results@.len() => spec_result_value_text(self.scan_results@[index as int]@),
            _ => None,
        }
    }

    /// The edit text after pulling the selected value: that value's text, else `0` when the
    /// edit text is empty, else the edit text unchanged.
    pub open spec fn spec_synced_edit_text(&self) -> Seq<char> {
        match self.spec_selected_value_text() {
            Some(text) => text,
            None => if self.pending_value_edit_text@.len() == 0 {
                seq!['0']
            } else {
                self.pending_value_edit_text@
            },
        }
    }

    /// Everything but the selection, the results, the paging counters and the edit text is
    /// as in `other`.
    pub open spec fn spec_same_flags(&self, other: &Self) -> bool {
        &&& self.is_querying_scan_results == other.is_querying_scan_results
        &&& self.is_refreshing_scan_results == other.is_refreshing_scan_results
        &&& self.is_freezing_scan_results == other.is_freezing_scan_results
        &&& self.is_deleting_scan_results == other.is_deleting_scan_results
        &&& self.is_adding_scan_results_to_project == other.is_adding_scan_results_to_project
        &&& self.is_committing_value_edit == other.is_committing_value_edit
        &&& self.status_message == other.status_message
    }

    /// The paging counters are as in `other`.
    pub open spec fn spec_same_paging(&self, other: &Self) -> bool {
        &&& self.current_page_index == other.current_page_index
        &&& self.cached_last_page_index == other.cached_last_page_index
        &&& self.results_per_page == other.results_per_page
        &&& self.total_result_count == other.total_result_count
        &&& self.total_size_in_bytes == other.total_size_in_bytes
    }

    /// Resets paging, results, selection, edit text and request flags.
    pub fn clear_results(&mut self)
        ensures
            final(self).current_page_index == 0,
            final(self).cached_last_page_index == 0,
            final(self).results_per_page == 50,
            final(self).total_result_count == 0,
            final(self).total_size_in_bytes == 0,
            final(self).scan_results@.len() == 0,
            final(self).selected_result_index is None,
            final(self).selected_range_end_index is None,
            final(self).pending_value_edit_text@ == seq!['0'],
            final(self).status_message@ == "Scan results cleared."@,
            !final(self).is_querying_scan_results,
            !final(self).is_refreshing_scan_results,
            !final(self).is_freezing_scan_results,
            !final(self).is_deleting_scan_results,
            !final(self).is_adding_scan_results_to_project,
            !final(self).is_committing_value_edit,
    {
        self.current_page_index = 0;
        self.cached_last_page_index = 0;
        self.results_per_page = 50;
        self.total_result_count = 0;
        self.total_size_in_bytes = 0;
        self.scan_results.clear();
        self.selected_result_index = None;
        self.selected_range_end_index = None;
        self.pending_value_edit_text = zero_text();
        self.status_message = owned("Scan results cleared.");
        self.is_querying_scan_results = false;
        self.is_refreshing_scan_results = false;
        self.is_freezing_scan_results = false;
        self.is_deleting_scan_results = false;
        self.is_adding_scan_results_to_project = false;
        self.is_committing_value_edit = false;
    }

    /// Position of the first result with the given global index.
    fn position_of_global_index(results: &Vec<ScanResult>, scan_result_global_index: u64) -> (position: Option<usize>)
        ensures
            match spec_result_position(results@, scan_result_global_index) {
                Some(index) => position == Some(index as usize),
                None => position is None,
            },
    {
        let mut position: usize = 0;
        while position < results.len()
            invariant
                position <= results@.len(),
                spec_result_position(results@.subrange(0, position as int), scan_result_global_index) is None,
            decreases results@.len() - position,
        {
            proof {
                lemma_first_index_step(
                    results@,
                    |result: ScanResult| result.scan_result_ref.scan_result_global_index == scan_result_global_index,
                    position as int,
                );
            }
            if results[position].scan_result_ref.scan_result_global_index == scan_result_global_index {
                proof {
                    lemma_first_index_extends(
                        results@,
                        |result: ScanResult| result.scan_result_ref.scan_result_global_index == scan_result_global_index,
                        position + 1,
                    );
                }
                return Some(position);
            }
            position = position + 1;
        }
        assert(results@.subrange(0, results@.len() as int) =~= results@);
        None
    }

    fn global_index_at(results: &Vec<ScanResult>, index: Option<usize>) -> (global_index: Option<u64>)
        ensures
            global_index == spec_global_index_at(results@, index),
    {
        match index {
            Some(position) => if position < results.len() {
                Some(results[position].scan_result_ref.scan_result_global_index)
            } else {
                None
            },
            None => None,
        }
    }

    fn restored_index(results: &Vec<ScanResult>, previous_global_index: Option<u64>, previous_index: Option<usize>) -> (index: Option<usize>)
        ensures
            index == spec_restored_index(results@, previous_global_index, previous_index),
    {
        if let Some(global_index) = previous_global_index {
            if let Some(position) = Self::position_of_global_index(results, global_index) {
                return Some(position);
            }
        }
        match previous_index {
            Some(index) => if index < results.len() {
                Some(index)
            } else {
                None
            },
            None => None,
        }
    }

    /// Takes a queried page. The selection and its range end follow the results they marked
    /// before, found again by global index; failing that they keep their position when it is
    /// still in range; a missing selection falls back to the first result of a non-empty
    /// page. The edit text is then pulled from the selection.
    pub fn apply_query_response(&mut self, scan_results_query_response: ScanResultsQueryResponse)
        ensures
            spec_query_response_applied(*old(self), *final(self), scan_results_query_response),
            final(self).spec_same_flags(&*old(self)),
    {
        let previous_selected_global_index = Self::global_index_at(&self.scan_results, self.selected_result_index);
        let previous_range_end_global_index = Self::global_index_at(&self.scan_results, self.selected_range_end_index);
        let previous_selected_index = self.selected_result_index;
        let previous_range_end_index = self.selected_range_end_index;
        self.current_page_index = scan_results_query_response.page_index;
        self.cached_last_page_index = scan_results_query_response.last_page_index;
        self.results_per_page = scan_results_query_response.page_size;
        self.total_result_count = scan_results_query_response.result_count;
        self.total_size_in_bytes = scan_results_query_response.total_size_in_bytes;
        self.scan_results = scan_results_query_response.scan_results;
        self.selected_result_index = match Self::restored_index(&self.scan_results, previous_selected_global_index, previous_selected_index) {
            Some(index) => Some(index),
            None => if self.scan_results.len() == 0 {
                None
            } else {
                Some(0)
            },
        };
        self.selected_range_end_index = Self::restored_index(&self.scan_results, previous_range_end_global_index, previous_range_end_index);
        proof {
            lemma_restored_index_in_range(self.scan_results@, previous_selected_global_index, previous_selected_index);
            lemma_restored_index_in_range(self.scan_results@, previous_range_end_global_index, previous_range_end_index);
        }
        self.clamp_selection_to_bounds();
        self.sync_pending_value_edit_from_selection();
    }

    /// The edit text after pulling the selected value, starting from the given edit text.
    pub open spec fn spec_synced_edit_text_from(&self, edit_text: Seq<char>) -> Seq<char> {
        match self.spec_selected_value_text() {
            Some(text) => text,
            None => if edit_text.len() == 0 {
                seq!['0']
            } else {
                edit_text
            },
        }
    }

    /// Takes refreshed values for the current page, keeping the selection within range and
    /// pulling the edit text from it.
    pub fn apply_refreshed_results(&mut self, refreshed_scan_results: Vec<ScanResult>)
        ensures
            spec_refreshed_results_applied(*old(self), *final(self), refreshed_scan_results@),
            final(self).spec_same_paging(&*old(self)),
            final(self).spec_same_flags(&*old(self)),
    {
        self.scan_results = refreshed_scan_results;
        self.clamp_selection_to_bounds();
        self.sync_pending_value_edit_from_selection();
    }

    /// Moves to a page, clamped to the last known page. Returns `false` and changes nothing
    /// when that is the current page; otherwise clears the selection and returns `true`.
    pub fn set_current_page_index(&mut self, requested_page_index: u64) -> (did_change_page: bool)
        ensures
            did_change_page == (spec_min_u64(requested_page_index, old(self).cached_last_page_index)
                != old(self).current_page_index),
            !did_change_page ==> *final(self) == *old(self),
            did_change_page ==> *final(self) == (ScanResultsPaneState {
                current_page_index: spec_min_u64(requested_page_index, old(self).cached_last_page_index),
                selected_result_index: None,
                selected_range_end_index: None,
                ..*old(self)
            }),
    {
        let clamped_page_index = if requested_page_index <= self.cached_last_page_index {
            requested_page_index
        } else {
            self.cached_last_page_index
        };
        if clamped_page_index == self.current_page_index {
            return false;
        }
        self.current_page_index = clamped_page_index;
        self.selected_result_index = None;
        self.selected_range_end_index = None;
        true
    }

    /// Pins the range end at the current selection, when there is one.
    pub fn set_selected_range_end_to_current(&mut self)
        ensures
            final(self).selected_range_end_index == if old(self).selected_result_index is Some {
                old(self).selected_result_index
            } else {
                old(self).selected_range_end_index
            },
            final(self).selected_result_index == old(self).selected_result_index,
            final(self).scan_results == old(self).scan_results,
            final(self).pending_value_edit_text == old(self).pending_value_edit_text,
            final(self).spec_same_paging(&*old(self)),
            final(self).spec_same_flags(&*old(self)),
    {
        if self.selected_result_index.is_some() {
            self.selected_range_end_index = self.selected_result_index;
        }
    }

    /// Moves the selection to `target`, dropping the range end unless it is kept, then pulls
    /// the edit text; in an empty list both are cleared instead.
    fn move_selection(&mut self, target: usize, keep_existing_range_anchor: bool)
        requires
            old(self).scan_results@.len() > 0,
            target < old(self).scan_results@.len(),
        ensures
            final(self).selected_result_index == Some(target),
            final(self).selected_range_end_index == if keep_existing_range_anchor {
                old(self).selected_range_end_index
            } else {
                None
            },
            final(self).scan_results == old(self).scan_results,
            final(self).pending_value_edit_text@ == final(self).spec_synced_edit_text_from(
                old(self).pending_value_edit_text@,
            ),
            final(self).spec_same_paging(&*old(self)),
            final(self).spec_same_flags(&*old(self)),
    {
        self.selected_result_index = Some(target);
        if !keep_existing_range_anchor {
            self.selected_range_end_index = None;
        }
        self.sync_pending_value_edit_from_selection();
    }

    pub fn select_next_result(&mut self, keep_existing_range_anchor: bool)
        ensures
            old(self).scan_results@.len() == 0 ==> final(self).selected_result_index is None
                && final(self).selected_range_end_index is None
                && final(self).pending_value_edit_text == old(self).pending_value_edit_text,
            old(self).scan_results@.len() > 0 ==> {
                &&& final(self).selected_result_index == crate::selection::spec_next_wrapping(
                    old(self).selected_result_index,
                    old(self).scan_results@.len(),
                )
                &&& final(self).selected_range_end_index == if keep_existing_range_anchor {
                    old(self).selected_range_end_index
                } else {
                    None
                }
                &&& final(self).pending_value_edit_text@ == final(self).spec_synced_edit_text_from(
                    old(self).pending_value_edit_text@,
                )
            },
            final(self).scan_results == old(self).scan_results,
            final(self).spec_same_paging(&*old(self)),
            final(self).spec_same_flags(&*old(self)),
    {
        if self.scan_results.len() == 0 {
            self.selected_result_index = None;
            self.selected_range_end_index = None;
            return;
        }
        let next = crate::selection::next_wrapping(self.selected_result_index, self.scan_results.len());
        match next {
            Some(target) => self.move_selection(target, keep_existing_range_anchor),
            None => {},
        }
    }

    pub fn select_previous_result(&mut self, keep_existing_range_anchor: bool)
        ensures
            old(self).scan_results@.len() == 0 ==> final(self).selected_result_index is None
                && final(self).selected_range_end_index is None
                && final(self).pending_value_edit_text == old(self).pending_value_edit_text,
            old(self).scan_results@.len() > 0 ==> {
                &&& final(self).selected_result_index == crate::selection::spec_previous_wrapping(
                    old(self).selected_result_index,
                    old(self).scan_results@.len(),
                )
                &&& final(self).selected_range_end_index == if keep_existing_range_anchor {
                    old(self).selected_range_end_index
                } else {
                    None
                }
                &&& final(self).pending_value_edit_text@ == final(self).spec_synced_edit_text_from(
                    old(self).pending_value_edit_text@,
                )
            },
            final(self).scan_results == old(self).scan_results,
            final(self).spec_same_paging(&*old(self)),
            final(self).spec_same_flags(&*old(self)),
    {
        if self.scan_results.len() == 0 {
            self.selected_result_index = None;
            self.selected_range_end_index = None;
            return;
        }
        let selected = match self.selected_result_index {
            Some(index) => index,
            None => 0,
        };
        let target = if selected == 0 {
            self.scan_results.len() - 1
        } else {
            selected - 1
        };
        if target < self.scan_results.len() {
            self.move_selection(target, keep_existing_range_anchor);
        } else {
            // A selection beyond the list steps back to a position past its end.
            self.selected_result_index = Some(target);
            if !keep_existing_range_anchor {
                self.selected_range_end_index = None;
            }
            self.sync_pending_value_edit_from_selection();
        }
    }

    pub fn select_first_result(&mut self, keep_existing_range_anchor: bool)
        ensures
            old(self).scan_results@.len() == 0 ==> final(self).selected_result_index is None
                && final(self).selected_range_end_index is None
                && final(self).pending_value_edit_text == old(self).pending_value_edit_text,
            old(self).scan_results@.len() > 0 ==> {
                &&& final(self).selected_result_index == Some(0usize)
                &&& final(self).selected_range_end_index == if keep_existing_range_anchor {
                    old(self).selected_range_end_index
                } else {
                    None
                }
                &&& final(self).pending_value_edit_text@ == final(self).spec_synced_edit_text_from(
                    old(self).pending_value_edit_text@,
                )
            },
            final(self).scan_results == old(self).scan_results,
            final(self).spec_same_paging(&*old(self)),
            final(self).spec_same_flags(&*old(self)),
    {
        if self.scan_results.len() == 0 {
            self.selected_result_index = None;
            self.selected_range_end_index = None;
            return;
        }
        self.move_selection(0, keep_existing_range_anchor);
    }

    pub fn select_last_result(&mut self, keep_existing_range_anchor: bool)
        ensures
            old(self).scan_results@.len() == 0 ==> final(self).selected_result_index is None
                && final(self).selected_range_end_index is None
                && final(self).pending_value_edit_text == old(self).pending_value_edit_text,
            old(self).scan_results@.len() > 0 ==> {
                &&& final(self).selected_result_index == Some((old(self).scan_results@.len() - 1) as usize)
                &&& final(self).selected_range_end_index == if keep_existing_range_anchor {
                    old(self).selected_range_end_index
                } else {
                    None
                }
                &&& final(self).pending_value_edit_text@ == final(self).spec_synced_edit_text_from(
                    old(self).pending_value_edit_text@,
                )
            },
            final(self).scan_results == old(self).scan_results,
            final(self).spec_same_paging(&*old(self)),
            final(self).spec_same_flags(&*old(self)),
    {
        if self.scan_results.len() == 0 {
            self.selected_result_index = None;
            self.selected_range_end_index = None;
            return;
        }
        let last = self.scan_results.len() - 1;
        self.move_selection(last, keep_existing_range_anchor);
    }

    /// The bounds of the selected range: the selection and its range end, in order.
    pub fn selected_result_range(&self) -> (range: Option<(usize, usize)>)
        ensures
            range == self.spec_selected_range(),
    {
        match self.selected_result_index {
            Some(anchor) => {
                let end = match self.selected_range_end_index {
                    Some(range_end) => range_end,
                    None => anchor,
                };
                if anchor <= end {
                    Some((anchor, end))
                } else {
                    Some((end, anchor))
                }
            },
            None => None,
        }
    }

    /// References of the selected results that are in the list, in list order.
    pub fn selected_scan_result_refs(&self) -> (refs: Vec<ScanResultRef>)
        ensures
            refs@.len() == self.spec_selected_positions().1,
            forall|k: int| 0 <= k < refs@.len() ==> #[trigger] refs@[k] == self.scan_results@[self.spec_selected_positions().0 + k].scan_result_ref,
    {
        let mut refs: Vec<ScanResultRef> = Vec::new();
        let range = self.selected_result_range();
        match range {
            Some((low, high)) => {
                let mut position: usize = low;
                while position <= high && position < self.scan_results.len()
                    invariant
                        low <= position,
                        position <= high + 1,
                        position <= self.scan_results@.len() || position == low,
                        self.spec_selected_range() == Some((low, high)),
                        refs@.len() == position - low,
                        forall|k: int| 0 <= k < refs@.len() ==> #[trigger] refs@[k] == self.scan_results@[low + k].scan_result_ref,
                    decreases self.scan_results@.len() - position,
                {
                    refs.push(self.scan_results[position].scan_result_ref);
                    position = position + 1;
                }
            },
            None => {},
        }
        refs
    }

    /// Copies of the selected results that are in the list, in list order.
    pub fn selected_scan_results(&self) -> (results: Vec<ScanResult>)
        ensures
            results@.len() == self.spec_selected_positions().1,
            forall|k: int| 0 <= k < results@.len() ==> (#[trigger] results@[k])@ == self.scan_results@[self.spec_selected_positions().0 + k]@,
    {
        let mut results: Vec<ScanResult> = Vec::new();
        let range = self.selected_result_range();
        match range {
            Some((low, high)) => {
                let mut position: usize = low;
                while position <= high && position < self.scan_results.len()
                    invariant
                        low <= position,
                        position <= high + 1,
                        position <= self.scan_results@.len() || position == low,
                        self.spec_selected_range() == Some((low, high)),
                        results@.len() == position - low,
                        forall|k: int| 0 <= k < results@.len() ==> (#[trigger] results@[k])@ == self.scan_results@[low + k]@,
                    decreases self.scan_results@.len() - position,
                {
                    results.push(self.scan_results[position].copied());
                    position = position + 1;
                }
            },
            None => {},
        }
        results
    }

    /// Number of positions in the selected range, whether or not they are in the list.
    pub open spec fn spec_selected_result_count(&self) -> nat {
        match self.spec_selected_range() {
            Some((low, high)) => (high - low + 1) as nat,
            None => 0,
        }
    }

    pub fn selected_result_count(&self) -> (count: usize)
        requires
            self.spec_selected_result_count() <= usize::MAX,
        ensures
            count == self.spec_selected_result_count(),
    {
        match self.selected_result_range() {
            Some((low, high)) => high - low + 1,
            None => 0,
        }
    }

    /// Whether any selected result in the list is frozen.
    pub fn any_selected_result_frozen(&self) -> (any_frozen: bool)
        ensures
            any_frozen == exists|k: int| 0 <= k < self.spec_selected_positions().1
                && #[trigger] self.scan_results@[self.spec_selected_positions().0 + k].is_frozen,
    {
        let range = self.selected_result_range();
        match range {
            Some((low, high)) => {
                let mut position: usize = low;
                while position <= high && position < self.scan_results.len()
                    invariant
                        low <= position,
                        position <= high + 1,
                        position <= self.scan_results@.len() || position == low,
                        self.spec_selected_range() == Some((low, high)),
                        self.spec_selected_positions().0 == low,
                        position - low <= self.spec_selected_positions().1 || position == low,
                        forall|k: int| 0 <= k < position - low ==> !(#[trigger] self.scan_results@[low + k].is_frozen),
                    decreases self.scan_results@.len() - position,
                {
                    if self.scan_results[position].is_frozen {
                        assert(self.scan_results@[self.spec_selected_positions().0 + (position - low)].is_frozen);
                        return true;
                    }
                    position = position + 1;
                }
                assert(position - low >= self.spec_selected_positions().1);
                false
            },
            None => false,
        }
    }

    /// The text of the selected result's value to offer for editing, if any.
    pub fn selected_result_current_value_text(&self) -> (text: Option<String>)
        ensures
            match self.spec_selected_value_text() {
                Some(expected) => text matches Some(found) && found@ == expected,
                None => text is None,
            },
    {
        let selected_result_index = match self.selected_result_index {
            Some(index) => index,
            None => return None,
        };
        if selected_result_index >= self.scan_results.len() {
            return None;
        }
        let selected_result = &self.scan_results[selected_result_index];
        if let Some(text) = ScanResult::display_value_in_format(&selected_result.current_display_values, AnonymousValueStringFormat::Decimal) {
            return Some(text);
        }
        if selected_result.current_display_values.len() > 0 {
            return Some(selected_result.current_display_values[0].anonymous_value_string.clone());
        }
        if let Some(text) = ScanResult::display_value_in_format(&selected_result.recently_read_display_values, AnonymousValueStringFormat::Decimal) {
            return Some(text);
        }
        if selected_result.recently_read_display_values.len() > 0 {
            return Some(selected_result.recently_read_display_values[0].anonymous_value_string.clone());
        }
        None
    }

    /// Pulls the selected result's value into the edit text; with no value, an empty edit
    /// text becomes `0`.
    pub fn sync_pending_value_edit_from_selection(&mut self)
        ensures
            final(self).pending_value_edit_text@ == old(self).spec_synced_edit_text(),
            final(self).scan_results == old(self).scan_results,
            final(self).selected_result_index == old(self).selected_result_index,
            final(self).selected_range_end_index == old(self).selected_range_end_index,
            final(self).spec_same_paging(&*old(self)),
            final(self).spec_same_flags(&*old(self)),
    {
        if let Some(current_value_text) = self.selected_result_current_value_text() {
            self.pending_value_edit_text = current_value_text;
        } else if self.pending_value_edit_text.as_str().unicode_len() == 0 {
            self.pending_value_edit_text = zero_text();
        }
    }

    /// Types one character into the edit text. Unsupported characters are ignored; a digit
    /// typed over a lone `0` replaces it.
    pub fn append_pending_value_edit_character(&mut self, value_character: char)
        ensures
            final(self).pending_value_edit_text@ == if !spec_is_supported_value_edit_character(value_character) {
                old(self).pending_value_edit_text@
            } else if old(self).pending_value_edit_text@ == seq!['0'] && '0' <= value_character <= '9' {
                seq![value_character]
            } else {
                old(self).pending_value_edit_text@.push(value_character)
            },
            final(self).scan_results == old(self).scan_results,
            final(self).selected_result_index == old(self).selected_result_index,
            final(self).selected_range_end_index == old(self).selected_range_end_index,
            final(self).spec_same_paging(&*old(self)),
            final(self).spec_same_flags(&*old(self)),
    {
        if !Self::is_supported_value_edit_character(value_character) {
            return;
        }
        if is_lone_zero(&self.pending_value_edit_text) && '0' <= value_character && value_character <= '9' {
            self.pending_value_edit_text = String::new();
        }
        push_char(&mut self.pending_value_edit_text, value_character);
    }

    /// Deletes the last character of the edit text; an emptied edit text becomes `0`.
    pub fn backspace_pending_value_edit(&mut self)
        ensures
            final(self).pending_value_edit_text@ == if old(self).pending_value_edit_text@.len() <= 1 {
                seq!['0']
            } else {
                old(self).pending_value_edit_text@.drop_last()
            },
            final(self).scan_results == old(self).scan_results,
            final(self).selected_result_index == old(self).selected_result_index,
            final(self).selected_range_end_index == old(self).selected_range_end_index,
            final(self).spec_same_paging(&*old(self)),
            final(self).spec_same_flags(&*old(self)),
    {
        let _ = pop_char(&mut self.pending_value_edit_text);
        if self.pending_value_edit_text.as_str().unicode_len() == 0 {
            self.pending_value_edit_text = zero_text();
        }
    }

    /// Resets the edit text to `0`.
    pub fn clear_pending_value_edit(&mut self)
        ensures
            final(self).pending_value_edit_text@ == seq!['0'],
            final(self).scan_results == old(self).scan_results,
            final(self).selected_result_index == old(self).selected_result_index,
            final(self).selected_range_end_index == old(self).selected_range_end_index,
            final(self).spec_same_paging(&*old(self)),
            final(self).spec_same_flags(&*old(self)),
    {
        self.pending_value_edit_text = zero_text();
    }

    /// Keeps the selection and its range end inside the list; both go away in an empty list.
    fn clamp_selection_to_bounds(&mut self)
        ensures
            final(self).selected_result_index == spec_clamped_index(old(self).selected_result_index, old(self).scan_results@.len()),
            final(self).selected_range_end_index == spec_clamped_index(old(self).selected_range_end_index, old(self).scan_results@.len()),
            final(self).scan_results == old(self).scan_results,
            final(self).pending_value_edit_text == old(self).pending_value_edit_text,
            final(self).spec_same_paging(&*old(self)),
            final(self).spec_same_flags(&*old(self)),
    {
        let count = self.scan_results.len();
        if count == 0 {
            self.selected_result_index = None;
            self.selected_range_end_index = None;
            return;
        }
        if let Some(selected_result_index) = self.selected_result_index {
            self.selected_result_index = Some(if selected_result_index <= count - 1 { selected_result_index } else { count - 1 });
        }
        if let Some(selected_range_end_index) = self.selected_range_end_index {
            self.selected_range_end_index = Some(if selected_range_end_index <= count - 1 { selected_range_end_index } else { count - 1 });
        }
    }

    fn is_supported_value_edit_character(value_character: char) -> (is_supported: bool)
        ensures
            is_supported == spec_is_supported_value_edit_character(value_character),
    {
        ('0' <= value_character && value_character <= '9') || value_character == '-' || value_character == '.'
    }
}

/// A restored index lies inside the list.
pub proof fn lemma_restored_index_in_range(results: Seq<ScanResult>, previous_global_index: Option<u64>, previous_index: Option<usize>)
    ensures
        spec_restored_index(results, previous_global_index, previous_index) matches Some(index) ==> index < results.len(),
{
    if let Some(global_index) = previous_global_index {
        crate::selection::lemma_first_index(
            results,
            |result: ScanResult| result.scan_result_ref.scan_result_global_index == global_index,
        );
    }
}

/// An index kept inside a list of `count` entries: lowered to the last entry, or dropped
/// in an empty list.
pub open spec fn spec_clamped_index(index: Option<usize>, count: nat) -> Option<usize> {
    if count == 0 {
        None
    } else {
        match index {
            Some(position) => Some(if position <= count - 1 { position } else { (count - 1) as usize }),
            None => None,
        }
    }
}

pub open spec fn spec_min_u64(left: u64, right: u64) -> u64 {
    if left <= right {
        left
    } else {
        right
    }
}

fn zero_text() -> (text: String)
    ensures
        text@ == seq!['0'],
{
    let mut text = String::new();
    push_char(&mut text, '0');
    text
}

fn is_lone_zero(text: &String) -> (is_zero: bool)
    ensures
        is_zero == (text@ == seq!['0']),
{
    let slice = text.as_str();
    if slice.unicode_len() != 1 {
        return false;
    }
    let is_zero = slice.get_char(0) == '0';
    proof {
        if is_zero {
            assert(text@ =~= seq!['0']);
        }
    }
    is_zero
}

impl Default for ScanResultsPaneState {
    fn default() -> (state: ScanResultsPaneState)
        ensures
            state.current_page_index == 0,
            state.cached_last_page_index == 0,
            state.results_per_page == 50,
            state.total_result_count == 0,
            state.total_size_in_bytes == 0,
            state.scan_results@.len() == 0,
            state.selected_result_index is None,
            state.selected_range_end_index is None,
            state.pending_value_edit_text@ == seq!['0'],
            !state.is_querying_scan_results,
            !state.is_refreshing_scan_results,
            !state.is_freezing_scan_results,
            !state.is_deleting_scan_results,
            !state.is_adding_scan_results_to_project,
            !state.is_committing_value_edit,
            state.status_message@ == "Ready."@,
    {
        ScanResultsPaneState {
            current_page_index: 0,
            cached_last_page_index: 0,
            results_per_page: 50,
            total_result_count: 0,
            total_size_in_bytes: 0,
            scan_results: Vec::new(),
            selected_result_index: None,
            selected_range_end_index: None,
            pending_value_edit_text: zero_text(),
            is_querying_scan_results: false,
            is_refreshing_scan_results: false,
            is_freezing_scan_results: false,
            is_deleting_scan_results: false,
            is_adding_scan_results_to_project: false,
            is_committing_value_edit: false,
            status_message: owned("Ready."),
        }
    }
}

} // verus!

verus! {

/// Compact text of an optional position: its decimal text, or `none`.
pub open spec fn spec_option_to_compact_text(option_value: Option<usize>) -> Seq<char> {
    match option_value {
        Some(value) => spec_decimal(value as nat),
        None => "none"@,
    }
}

pub fn option_to_compact_text(option_value: Option<usize>) -> (text: String)
    ensures
        text@ == spec_option_to_compact_text(option_value),
{
    match option_value {
        Some(value) => {
            let mut text = String::new();
            push_decimal_usize(&mut text, value);
            assert(text@ =~= spec_decimal(value as nat));
            text
        },
        None => owned("none"),
    }
}

/// The scan results summary lines; the `[VAL]` line shows a non-empty edit text.
pub open spec fn spec_scan_results_summary_lines(state: ScanResultsPaneState) -> Seq<Seq<char>> {
    let head = seq![
        "[ACT] r query | R refresh-page | [/] page | f freeze | a add | x delete."@,
        "[NAV] Up/Down/j/k move | Shift+Up/Down range | Home/End."@,
        "[EDIT] y pull | type value | Enter commit."@,
        "[PAGE] "@ + spec_decimal(state.current_page_index as nat) + "/"@ + spec_decimal(
            state.cached_last_page_index as nat,
        ) + " | size="@ + spec_decimal(state.results_per_page as nat) + " | results="@ + spec_decimal(
            state.total_result_count as nat,
        ) + "."@,
        "[SEL] index="@ + spec_option_to_compact_text(state.selected_result_index) + " | selected="@
            + spec_decimal(state.spec_selected_result_count()) + " | bytes="@ + spec_decimal(
            state.total_size_in_bytes as nat,
        ) + "."@,
    ];
    let tail = seq!["[STAT] "@ + state.status_message@ + "."@, "[ROWS] top=5."@];
    if state.pending_value_edit_text@.len() == 0 {
        head + tail
    } else {
        head + seq!["[VAL] "@ + state.pending_value_edit_text@ + "."@] + tail
    }
}

pub fn build_scan_results_summary_lines(scan_results_pane_state: &ScanResultsPaneState) -> (summary_lines: Vec<String>)
    requires
        scan_results_pane_state.spec_selected_result_count() <= usize::MAX,
    ensures
        spec_texts(summary_lines@) == spec_scan_results_summary_lines(*scan_results_pane_state),
{
    let state = scan_results_pane_state;
    let mut summary_lines: Vec<String> = Vec::new();
    summary_lines.push(owned("[ACT] r query | R refresh-page | [/] page | f freeze | a add | x delete."));
    summary_lines.push(owned("[NAV] Up/Down/j/k move | Shift+Up/Down range | Home/End."));
    summary_lines.push(owned("[EDIT] y pull | type value | Enter commit."));
    let mut line = owned("[PAGE] ");
    push_decimal(&mut line, state.current_page_index);
    line.append("/");
    push_decimal(&mut line, state.cached_last_page_index);
    line.append(" | size=");
    push_decimal(&mut line, state.results_per_page);
    line.append(" | results=");
    push_decimal(&mut line, state.total_result_count);
    line.append(".");
    summary_lines.push(line);
    let mut line = owned("[SEL] index=");
    line.append(option_to_compact_text(state.selected_result_index).as_str());
    line.append(" | selected=");
    push_decimal_usize(&mut line, state.selected_result_count());
    line.append(" | bytes=");
    push_decimal(&mut line, state.total_size_in_bytes);
    line.append(".");
    summary_lines.push(line);
    if state.pending_value_edit_text.as_str().unicode_len() > 0 {
        let mut line = owned("[VAL] ");
        line.append(state.pending_value_edit_text.as_str());
        line.append(".");
        summary_lines.push(line);
    }
    let mut line = owned("[STAT] ");
    line.append(state.status_message.as_str());
    line.append(".");
    summary_lines.push(line);
    summary_lines.push(owned("[ROWS] top=5."));
    assert(spec_texts(summary_lines@) =~= spec_scan_results_summary_lines(*state));
    summary_lines
}

impl ScanResultsPaneState {
    pub fn summary_lines(&self) -> (summary_lines: Vec<String>)
        requires
            self.spec_selected_result_count() <= usize::MAX,
        ensures
            spec_texts(summary_lines@) == spec_scan_results_summary_lines(*self),
    {
        build_scan_results_summary_lines(self)
    }

    pub fn visible_scan_result_rows(&self, viewport_capacity: usize) -> (entry_rows: Vec<PaneEntryRow>)
        ensures
            entry_rows@.map_values(|row: PaneEntryRow| row@) == spec_visible_scan_result_rows(
                *self,
                viewport_capacity as nat,
            ),
    {
        build_visible_scan_result_rows(self, viewport_capacity)
    }
}

/// Whether a position lies in the selected range.
pub open spec fn spec_in_selected_range(state: ScanResultsPaneState, position: int) -> bool {
    match state.spec_selected_range() {
        Some((low, high)) => low <= position <= high,
        None => false,
    }
}

/// Text previewing a result's value: its first current value, or `?`.
pub open spec fn spec_value_preview(result: ScanResultView) -> Seq<char> {
    if result.current_display_values.len() > 0 {
        result.current_display_values[0].0
    } else {
        seq!['?']
    }
}

/// The entry row of the result at `position`.
pub open spec fn spec_scan_result_entry_row(state: ScanResultsPaneState, position: int) -> PaneEntryRowView {
    let result = state.scan_results@[position]@;
    let preview = spec_value_preview(result);
    PaneEntryRowView {
        tone: if state.selected_result_index == Some(position as usize) {
            PaneEntryRowTone::Selected
        } else if preview == seq!['?'] {
            PaneEntryRowTone::Disabled
        } else {
            PaneEntryRowTone::Normal
        },
        marker_text: seq![
            if spec_in_selected_range(state, position) { '*' } else { ' ' },
            if result.is_frozen { 'F' } else { ' ' },
        ],
        primary_text: "idx="@ + spec_decimal(position as nat) + " global="@ + spec_decimal(
            result.scan_result_global_index as nat,
        ) + " addr=0x"@ + spec_hex_upper(result.address as nat),
        secondary_text: Some("type="@ + result.data_type_id + " value="@ + preview),
    }
}

/// The rows of the results inside the selection-relative window.
pub open spec fn spec_visible_scan_result_rows(state: ScanResultsPaneState, viewport_capacity: nat) -> Seq<PaneEntryRowView> {
    let count = state.scan_results@.len();
    let start = spec_viewport_start(count, state.selected_result_index, viewport_capacity);
    Seq::new(
        spec_viewport_len(count, viewport_capacity),
        |offset: int| spec_scan_result_entry_row(state, start + offset),
    )
}

fn is_question_mark(text: &String) -> (is_question: bool)
    ensures
        is_question == (text@ == seq!['?']),
{
    let slice = text.as_str();
    if slice.unicode_len() != 1 {
        return false;
    }
    let is_question = slice.get_char(0) == '?';
    proof {
        if is_question {
            assert(text@ =~= seq!['?']);
        }
    }
    is_question
}

pub fn build_visible_scan_result_rows(scan_results_pane_state: &ScanResultsPaneState, viewport_capacity: usize) -> (entry_rows: Vec<PaneEntryRow>)
    ensures
        entry_rows@.map_values(|row: PaneEntryRow| row@) == spec_visible_scan_result_rows(
            *scan_results_pane_state,
            viewport_capacity as nat,
        ),
{
    let state = scan_results_pane_state;
    let selected_result_range = state.selected_result_range();
    let visible_range = build_selection_relative_viewport_range(
        state.scan_results.len(),
        state.selected_result_index,
        viewport_capacity,
    );
    let ghost expected = spec_visible_scan_result_rows(*state, viewport_capacity as nat);
    let mut entry_rows: Vec<PaneEntryRow> = Vec::new();
    let mut position: usize = visible_range.start;
    while position < visible_range.end
        invariant
            visible_range.start <= position <= visible_range.end,
            visible_range.end <= state.scan_results@.len(),
            selected_result_range == state.spec_selected_range(),
            expected.len() == visible_range.end - visible_range.start,
            forall|k: int| 0 <= k < expected.len() ==> #[trigger] expected[k] == spec_scan_result_entry_row(*state, visible_range.start + k),
            entry_rows@.len() == position - visible_range.start,
            forall|k: int| 0 <= k < entry_rows@.len() ==> #[trigger] entry_rows@[k]@ == expected[k],
        decreases visible_range.end - position,
    {
        let scan_result = &state.scan_results[position];
        let is_selected_scan_result = match state.selected_result_index {
            Some(index) => index == position,
            None => false,
        };
        let is_in_selected_range = match selected_result_range {
            Some((low, high)) => low <= position && position <= high,
            None => false,
        };
        let value_preview = if scan_result.current_display_values.len() > 0 {
            scan_result.current_display_values[0].anonymous_value_string.clone()
        } else {
            let mut text = String::new();
            push_char(&mut text, '?');
            text
        };
        let ghost preview_view = value_preview@;
        let mut marker_text = String::new();
        push_char(&mut marker_text, if is_in_selected_range { '*' } else { ' ' });
        push_char(&mut marker_text, if scan_result.is_frozen { 'F' } else { ' ' });
        let mut primary_text = owned("idx=");
        push_decimal_usize(&mut primary_text, position);
        primary_text.append(" global=");
        push_decimal(&mut primary_text, scan_result.scan_result_ref.scan_result_global_index);
        primary_text.append(" addr=0x");
        push_hex_upper(&mut primary_text, scan_result.address);
        let mut secondary_text = owned("type=");
        secondary_text.append(scan_result.data_type_id.as_str());
        secondary_text.append(" value=");
        secondary_text.append(value_preview.as_str());
        let is_missing_value = is_question_mark(&value_preview);
        let row = if is_selected_scan_result {
            PaneEntryRow::selected(marker_text, primary_text, Some(secondary_text))
        } else if is_missing_value {
            PaneEntryRow::disabled(marker_text, primary_text, Some(secondary_text))
        } else {
            PaneEntryRow::normal(marker_text, primary_text, Some(secondary_text))
        };
        proof {
            let k = position - visible_range.start;
            let viewed = scan_result@;
            assert(expected[k] == spec_scan_result_entry_row(*state, visible_range.start + k));
            if scan_result.current_display_values@.len() > 0 {
                assert(viewed.current_display_values[0] == spec_value_view(scan_result.current_display_values@[0]));
            }
            assert(preview_view == spec_value_preview(viewed));
            assert(row@.marker_text =~= expected[k].marker_text);
            assert(row@.primary_text =~= expected[k].primary_text);
            assert(row@.secondary_text matches Some(text) && text =~= "type="@ + viewed.data_type_id + " value="@ + preview_view);
            assert(row@ == expected[k]);
        }
        entry_rows.push(row);
        position = position + 1;
    }
    assert(entry_rows@.map_values(|row: PaneEntryRow| row@) =~= expected);
    entry_rows
}


/// `after` holds the page of `response`: its paging counters and results, the selected
/// result and range end found again by their global indices (or kept by position), the
/// selection defaulting to the first result, and the edit text pulled from the selection.
pub open spec fn spec_query_response_applied(before: ScanResultsPaneState, after: ScanResultsPaneState, response: ScanResultsQueryResponse) -> bool {
    &&& after.current_page_index == response.page_index
    &&& after.cached_last_page_index == response.last_page_index
    &&& after.results_per_page == response.page_size
    &&& after.total_result_count == response.result_count
    &&& after.total_size_in_bytes == response.total_size_in_bytes
    &&& after.scan_results@ == response.scan_results@
    &&& after.selected_result_index == match spec_restored_index(
        response.scan_results@,
        spec_global_index_at(before.scan_results@, before.selected_result_index),
        before.selected_result_index,
    ) {
        Some(index) => Some(index),
        None => if response.scan_results@.len() == 0 {
            None
        } else {
            Some(0usize)
        },
    }
    &&& after.selected_range_end_index == spec_restored_index(
        response.scan_results@,
        spec_global_index_at(before.scan_results@, before.selected_range_end_index),
        before.selected_range_end_index,
    )
    &&& after.pending_value_edit_text@ == after.spec_synced_edit_text_from(before.pending_value_edit_text@)
}

/// `after` holds refreshed values of the current page: the selection clamped into the new
/// list and the edit text pulled from it, paging unchanged.
pub open spec fn spec_refreshed_results_applied(before: ScanResultsPaneState, after: ScanResultsPaneState, refreshed: Seq<ScanResult>) -> bool {
    &&& after.scan_results@ == refreshed
    &&& after.selected_result_index == spec_clamped_index(before.selected_result_index, refreshed.len())
    &&& after.selected_range_end_index == spec_clamped_index(before.selected_range_end_index, refreshed.len())
    &&& after.pending_value_edit_text@ == after.spec_synced_edit_text_from(before.pending_value_edit_text@)
    &&& after.spec_same_paging(&before)
}

} // verus!
