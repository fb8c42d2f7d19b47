use vstd::prelude::*;
use crate::scan_results::{AnonymousValueString, AnonymousValueStringFormat, ContainerType};
use crate::text::{spec_decimal, spec_bool_text, spec_texts, push_decimal, push_decimal_usize, push_bool, push_char, pop_char, owned};
use crate::viewport::{build_selection_relative_viewport_range, spec_viewport_start, spec_viewport_len};

verus! {

/// Comparisons of a value against an entered value.
#[derive(Clone, Copy, Debug, PartialEq, Eq, Structural)]
pub enum ScanCompareTypeImmediate {
    Equal,
    NotEqual,
    GreaterThan,
    GreaterThanOrEqual,
    LessThan,
    LessThanOrEqual,
}

/// Comparisons of a value against its previous value.
#[derive(Clone, Copy, Debug, PartialEq, Eq, Structural)]
pub enum ScanCompareTypeRelative {
    Changed,
    Unchanged,
    Increased,
    Decreased,
}

/// Comparisons of a value against its previous value changed by an entered amount.
#[derive(Clone, Copy, Debug, PartialEq, Eq, Structural)]
pub enum ScanCompareTypeDelta {
    IncreasedByX,
    DecreasedByX,
    MultipliedByX,
    DividedByX,
    ModuloByX,
    ShiftLeftByX,
    ShiftRightByX,
    LogicalAndByX,
    LogicalOrByX,
    LogicalXorByX,
}

/// How a scan constraint compares values.
#[derive(Clone, Copy, Debug, PartialEq, Eq, Structural)]
pub enum ScanCompareType {
    Immediate(ScanCompareTypeImmediate),
    Relative(ScanCompareTypeRelative),
    Delta(ScanCompareTypeDelta),
}

/// Number of comparisons the scanner offers.
pub const SUPPORTED_COMPARE_TYPE_COUNT: usize = 20;

/// Number of data types the scanner offers.
pub const SUPPORTED_DATA_TYPE_COUNT: usize = 10;

/// Most constraint rows a scan may have.
pub const MAX_CONSTRAINT_COUNT: usize = 5;

/// Position of a comparison in the scanner's cycling order.
pub open spec fn spec_compare_type_position(compare_type: ScanCompareType) -> nat {
    match compare_type {
        ScanCompareType::Immediate(immediate) => match immediate {
            ScanCompareTypeImmediate::Equal => 0,
            ScanCompareTypeImmediate::NotEqual => 1,
            ScanCompareTypeImmediate::GreaterThan => 2,
            ScanCompareTypeImmediate::GreaterThanOrEqual => 3,
            ScanCompareTypeImmediate::LessThan => 4,
            ScanCompareTypeImmediate::LessThanOrEqual => 5,
        },
        ScanCompareType::Relative(relative) => match relative {
            ScanCompareTypeRelative::Changed => 6,
            ScanCompareTypeRelative::Unchanged => 7,
            ScanCompareTypeRelative::Increased => 8,
            ScanCompareTypeRelative::Decreased => 9,
        },
        ScanCompareType::Delta(delta) => match delta {
            ScanCompareTypeDelta::IncreasedByX => 10,
            ScanCompareTypeDelta::DecreasedByX => 11,
            ScanCompareTypeDelta::MultipliedByX => 12,
            ScanCompareTypeDelta::DividedByX => 13,
            ScanCompareTypeDelta::ModuloByX => 14,
            ScanCompareTypeDelta::ShiftLeftByX => 15,
            ScanCompareTypeDelta::ShiftRightByX => 16,
            ScanCompareTypeDelta::LogicalAndByX => 17,
            ScanCompareTypeDelta::LogicalOrByX => 18,
            ScanCompareTypeDelta::LogicalXorByX => 19,
        },
    }
}

/// The comparison at a position of the cycling order.
pub open spec fn spec_compare_type_at(position: nat) -> ScanCompareType {
    if position == 0 {
        ScanCompareType::Immediate(ScanCompareTypeImmediate::Equal)
    } else if position == 1 {
        ScanCompareType::Immediate(ScanCompareTypeImmediate::NotEqual)
    } else if position == 2 {
        ScanCompareType::Immediate(ScanCompareTypeImmediate::GreaterThan)
    } else if position == 3 {
        ScanCompareType::Immediate(ScanCompareTypeImmediate::GreaterThanOrEqual)
    } else if position == 4 {
        ScanCompareType::Immediate(ScanCompareTypeImmediate::LessThan)
    } else if position == 5 {
        ScanCompareType::Immediate(ScanCompareTypeImmediate::LessThanOrEqual)
    } else if position == 6 {
        ScanCompareType::Relative(ScanCompareTypeRelative::Changed)
    } else if position == 7 {
        ScanCompareType::Relative(ScanCompareTypeRelative::Unchanged)
    } else if position == 8 {
        ScanCompareType::Relative(ScanCompareTypeRelative::Increased)
    } else if position == 9 {
        ScanCompareType::Relative(ScanCompareTypeRelative::Decreased)
    } else if position == 10 {
        ScanCompareType::Delta(ScanCompareTypeDelta::IncreasedByX)
    } else if position == 11 {
        ScanCompareType::Delta(ScanCompareTypeDelta::DecreasedByX)
    } else if position == 12 {
        ScanCompareType::Delta(ScanCompareTypeDelta::MultipliedByX)
    } else if position == 13 {
        ScanCompareType::Delta(ScanCompareTypeDelta::DividedByX)
    } else if position == 14 {
        ScanCompareType::Delta(ScanCompareTypeDelta::ModuloByX)
    } else if position == 15 {
        ScanCompareType::Delta(ScanCompareTypeDelta::ShiftLeftByX)
    } else if position == 16 {
        ScanCompareType::Delta(ScanCompareTypeDelta::ShiftRightByX)
    } else if position == 17 {
        ScanCompareType::Delta(ScanCompareTypeDelta::LogicalAndByX)
    } else if position == 18 {
        ScanCompareType::Delta(ScanCompareTypeDelta::LogicalOrByX)
    } else {
        ScanCompareType::Delta(ScanCompareTypeDelta::LogicalXorByX)
    }
}

/// The cycling order lists every comparison once.
pub proof fn lemma_compare_type_order(compare_type: ScanCompareType, position: nat)
    ensures
        spec_compare_type_position(compare_type) < SUPPORTED_COMPARE_TYPE_COUNT,
        spec_compare_type_at(spec_compare_type_position(compare_type)) == compare_type,
        position < SUPPORTED_COMPARE_TYPE_COUNT ==> spec_compare_type_position(spec_compare_type_at(position)) == position,
{
}

fn compare_type_position(compare_type: ScanCompareType) -> (position: usize)
    ensures
        position == spec_compare_type_position(compare_type),
{
    match compare_type {
        ScanCompareType::Immediate(immediate) => match immediate {
            ScanCompareTypeImmediate::Equal => 0,
            ScanCompareTypeImmediate::NotEqual => 1,
            ScanCompareTypeImmediate::GreaterThan => 2,
            ScanCompareTypeImmediate::GreaterThanOrEqual => 3,
            ScanCompareTypeImmediate::LessThan => 4,
            ScanCompareTypeImmediate::LessThanOrEqual => 5,
        },
        ScanCompareType::Relative(relative) => match relative {
            ScanCompareTypeRelative::Changed => 6,
            ScanCompareTypeRelative::Unchanged => 7,
            ScanCompareTypeRelative::Increased => 8,
            ScanCompareTypeRelative::Decreased => 9,
        },
        ScanCompareType::Delta(delta) => match delta {
            ScanCompareTypeDelta::IncreasedByX => 10,
            ScanCompareTypeDelta::DecreasedByX => 11,
            ScanCompareTypeDelta::MultipliedByX => 12,
            ScanCompareTypeDelta::DividedByX => 13,
            ScanCompareTypeDelta::ModuloByX => 14,
            ScanCompareTypeDelta::ShiftLeftByX => 15,
            ScanCompareTypeDelta::ShiftRightByX => 16,
            ScanCompareTypeDelta::LogicalAndByX => 17,
            ScanCompareTypeDelta::LogicalOrByX => 18,
            ScanCompareTypeDelta::LogicalXorByX => 19,
        },
    }
}

fn compare_type_at(position: usize) -> (compare_type: ScanCompareType)
    requires
        position < SUPPORTED_COMPARE_TYPE_COUNT,
    ensures
        compare_type == spec_compare_type_at(position as nat),
{
    match position {
        0 => ScanCompareType::Immediate(ScanCompareTypeImmediate::Equal),
        1 => ScanCompareType::Immediate(ScanCompareTypeImmediate::NotEqual),
        2 => ScanCompareType::Immediate(ScanCompareTypeImmediate::GreaterThan),
        3 => ScanCompareType::Immediate(ScanCompareTypeImmediate::GreaterThanOrEqual),
        4 => ScanCompareType::Immediate(ScanCompareTypeImmediate::LessThan),
        5 => ScanCompareType::Immediate(ScanCompareTypeImmediate::LessThanOrEqual),
        6 => ScanCompareType::Relative(ScanCompareTypeRelative::Changed),
        7 => ScanCompareType::Relative(ScanCompareTypeRelative::Unchanged),
        8 => ScanCompareType::Relative(ScanCompareTypeRelative::Increased),
        9 => ScanCompareType::Relative(ScanCompareTypeRelative::Decreased),
        10 => ScanCompareType::Delta(ScanCompareTypeDelta::IncreasedByX),
        11 => ScanCompareType::Delta(ScanCompareTypeDelta::DecreasedByX),
        12 => ScanCompareType::Delta(ScanCompareTypeDelta::MultipliedByX),
        13 => ScanCompareType::Delta(ScanCompareTypeDelta::DividedByX),
        14 => ScanCompareType::Delta(ScanCompareTypeDelta::ModuloByX),
        15 => ScanCompareType::Delta(ScanCompareTypeDelta::ShiftLeftByX),
        16 => ScanCompareType::Delta(ScanCompareTypeDelta::ShiftRightByX),
        17 => ScanCompareType::Delta(ScanCompareTypeDelta::LogicalAndByX),
        18 => ScanCompareType::Delta(ScanCompareTypeDelta::LogicalOrByX),
        _ => ScanCompareType::Delta(ScanCompareTypeDelta::LogicalXorByX),
    }
}

/// The short label of a comparison in the constraint rows.
pub open spec fn spec_scan_compare_type_label(compare_type: ScanCompareType) -> Seq<char> {
    match compare_type {
        ScanCompareType::Immediate(immediate) => match immediate {
            ScanCompareTypeImmediate::Equal => "=="@,
            ScanCompareTypeImmediate::NotEqual => "!="@,
            ScanCompareTypeImmediate::GreaterThan => ">"@,
            ScanCompareTypeImmediate::GreaterThanOrEqual => ">="@,
            ScanCompareTypeImmediate::LessThan => "<"@,
            ScanCompareTypeImmediate::LessThanOrEqual => "<="@,
        },
        ScanCompareType::Relative(relative) => match relative {
            ScanCompareTypeRelative::Changed => "changed"@,
            ScanCompareTypeRelative::Unchanged => "unchanged"@,
            ScanCompareTypeRelative::Increased => "increased"@,
            ScanCompareTypeRelative::Decreased => "decreased"@,
        },
        ScanCompareType::Delta(delta) => match delta {
            ScanCompareTypeDelta::IncreasedByX => "+x"@,
            ScanCompareTypeDelta::DecreasedByX => "-x"@,
            ScanCompareTypeDelta::MultipliedByX => "*x"@,
            ScanCompareTypeDelta::DividedByX => "/x"@,
            ScanCompareTypeDelta::ModuloByX => "%x"@,
            ScanCompareTypeDelta::ShiftLeftByX => "<<x"@,
            ScanCompareTypeDelta::ShiftRightByX => ">>x"@,
            ScanCompareTypeDelta::LogicalAndByX => "&x"@,
            ScanCompareTypeDelta::LogicalOrByX => "|x"@,
            ScanCompareTypeDelta::LogicalXorByX => "^x"@,
        },
    }
}

pub fn scan_compare_type_label(scan_compare_type: ScanCompareType) -> (label: &'static str)
    ensures
        label@ == spec_scan_compare_type_label(scan_compare_type),
{
    match scan_compare_type {
        ScanCompareType::Immediate(immediate) => match immediate {
            ScanCompareTypeImmediate::Equal => "==",
            ScanCompareTypeImmediate::NotEqual => "!=",
            ScanCompareTypeImmediate::GreaterThan => ">",
            ScanCompareTypeImmediate::GreaterThanOrEqual => ">=",
            ScanCompareTypeImmediate::LessThan => "<",
            ScanCompareTypeImmediate::LessThanOrEqual => "<=",
        },
        ScanCompareType::Relative(relative) => match relative {
            ScanCompareTypeRelative::Changed => "changed",
            ScanCompareTypeRelative::Unchanged => "unchanged",
            ScanCompareTypeRelative::Increased => "increased",
            ScanCompareTypeRelative::Decreased => "decreased",
        },
        ScanCompareType::Delta(delta) => match delta {
            ScanCompareTypeDelta::IncreasedByX => "+x",
            ScanCompareTypeDelta::DecreasedByX => "-x",
            ScanCompareTypeDelta::MultipliedByX => "*x",
            ScanCompareTypeDelta::DividedByX => "/x",
            ScanCompareTypeDelta::ModuloByX => "%x",
            ScanCompareTypeDelta::ShiftLeftByX => "<<x",
            ScanCompareTypeDelta::ShiftRightByX => ">>x",
            ScanCompareTypeDelta::LogicalAndByX => "&x",
            ScanCompareTypeDelta::LogicalOrByX => "|x",
            ScanCompareTypeDelta::LogicalXorByX => "^x",
        },
    }
}

/// Names a data type the engine scans for.
pub struct DataTypeRef {
    pub data_type_id: String,
}

impl DataTypeRef {
    pub fn new(data_type_id: &str) -> (data_type_ref: DataTypeRef)
        ensures
            data_type_ref.data_type_id@ == data_type_id@,
    {
        DataTypeRef { data_type_id: owned(data_type_id) }
    }
}

/// A scan constraint as the engine takes it: the comparison, and the entered value when the
/// comparison uses one.
pub struct AnonymousScanConstraint {
    pub scan_compare_type: ScanCompareType,
    pub anonymous_value_string: Option<AnonymousValueString>,
}

/// Whether an engine constraint is the one a row asks for: the row's comparison, and for a
/// comparison that is not relative, the row's text as a decimal scalar; a relative comparison
/// carries no value.
pub open spec fn spec_constraint_for_row(constraint: AnonymousScanConstraint, row: ElementScannerConstraintState) -> bool {
    &&& constraint.scan_compare_type == row.scan_compare_type
    &&& match row.scan_compare_type {
        ScanCompareType::Relative(_) => constraint.anonymous_value_string is None,
        _ => constraint.anonymous_value_string matches Some(value) && value.anonymous_value_string@ == row.scan_value_text@
            && value.anonymous_value_string_format == AnonymousValueStringFormat::Decimal && value.container_type
            == ContainerType::Scalar,
    }
}

/// A constraint built for a row carries the row's text whenever the row compares against an
/// entered value (an immediate or a delta comparison), and carries no value exactly for a
/// relative comparison, which compares a value with its previous one alone.
pub proof fn lemma_constraint_carries_entered_value(constraint: AnonymousScanConstraint, row: ElementScannerConstraintState)
    requires
        spec_constraint_for_row(constraint, row),
    ensures
        constraint.scan_compare_type == row.scan_compare_type,
        (constraint.anonymous_value_string is None) <==> (row.scan_compare_type is Relative),
        !(row.scan_compare_type is Relative) ==> (constraint.anonymous_value_string matches Some(value)
            && value.anonymous_value_string@ == row.scan_value_text@),
{
}

impl AnonymousScanConstraint {
    pub fn new(scan_compare_type: ScanCompareType, anonymous_value_string: Option<AnonymousValueString>) -> (constraint: AnonymousScanConstraint)
        ensures
            constraint.scan_compare_type == scan_compare_type,
            constraint.anonymous_value_string == anonymous_value_string,
    {
        AnonymousScanConstraint { scan_compare_type, anonymous_value_string }
    }

    pub fn get_anonymous_value_string(&self) -> (value: &Option<AnonymousValueString>)
        ensures
            *value == self.anonymous_value_string,
    {
        &self.anonymous_value_string
    }
}

/// Stores one editable scanner constraint row.
pub struct ElementScannerConstraintState {
    pub scan_compare_type: ScanCompareType,
    pub scan_value_text: String,
}

impl ElementScannerConstraintState {
    /// A copy of the row.
    pub fn copied(&self) -> (copy: ElementScannerConstraintState)
        ensures
            copy.scan_compare_type == self.scan_compare_type,
            copy.scan_value_text@ == self.scan_value_text@,
    {
        ElementScannerConstraintState { scan_compare_type: self.scan_compare_type, scan_value_text: self.scan_value_text.clone() }
    }
}

impl Default for ElementScannerConstraintState {
    fn default() -> (row: ElementScannerConstraintState)
        ensures
            row.scan_compare_type == ScanCompareType::Immediate(ScanCompareTypeImmediate::Equal),
            row.scan_value_text@ == seq!['0'],
    {
        ElementScannerConstraintState {
            scan_compare_type: ScanCompareType::Immediate(ScanCompareTypeImmediate::Equal),
            scan_value_text: zero_text(),
        }
    }
}

fn zero_text() -> (text: String)
    ensures
        text@ == seq!['0'],
{
    let mut text = String::new();
    push_char(&mut text, '0');
    text
}

/// The plain contents of a constraint row.
pub open spec fn spec_row_view(row: ElementScannerConstraintState) -> (ScanCompareType, Seq<char>) {
    (row.scan_compare_type, row.scan_value_text@)
}

/// Name of the data type at a position of the scanner's list.
pub open spec fn spec_data_type_name(position: nat) -> Seq<char> {
    if position == 0 {
        "i8"@
    } else if position == 1 {
        "i16"@
    } else if position == 2 {
        "i32"@
    } else if position == 3 {
        "i64"@
    } else if position == 4 {
        "u8"@
    } else if position == 5 {
        "u16"@
    } else if position == 6 {
        "u32"@
    } else if position == 7 {
        "u64"@
    } else if position == 8 {
        "f32"@
    } else {
        "f64"@
    }
}

/// Whether a character may be typed into a constraint value.
pub open spec fn spec_is_supported_value_character(character: char) -> bool {
    ('0' <= character <= '9') || character == '-' || character == '.'
}

/// Stores UI state for element scanner controls.
pub struct ElementScannerPaneState {
    pub selected_data_type_index: usize,
    pub constraint_rows: Vec<ElementScannerConstraintState>,
    pub selected_constraint_row_index: usize,
    pub has_pending_scan_request: bool,
    pub has_scan_results: bool,
    pub last_result_count: u64,
    pub last_total_size_in_bytes: u64,
    pub status_message: String,
}

impl ElementScannerPaneState {
    /// The scanner's invariant: a supported data type is selected, there are one to five
    /// constraint rows, and the selected row exists.
    pub open spec fn wf(&self) -> bool {
        &&& self.selected_data_type_index < SUPPORTED_DATA_TYPE_COUNT
        &&& 1 <= self.constraint_rows@.len() <= MAX_CONSTRAINT_COUNT
        &&& self.selected_constraint_row_index < self.constraint_rows@.len()
    }

    pub open spec fn spec_rows(&self) -> Seq<(ScanCompareType, Seq<char>)> {
        self.constraint_rows@.map_values(|row: ElementScannerConstraintState| spec_row_view(row))
    }

    /// Everything but the rows and the selections is as in `other`.
    pub open spec fn spec_same_status(&self, other: &Self) -> bool {
        &&& self.has_pending_scan_request == other.has_pending_scan_request
        &&& self.has_scan_results == other.has_scan_results
        &&& self.last_result_count == other.last_result_count
        &&& self.last_total_size_in_bytes == other.last_total_size_in_bytes
        &&& self.status_message == other.status_message
    }

    pub fn selected_data_type_name(&self) -> (name: &'static str)
        requires
            self.selected_data_type_index < SUPPORTED_DATA_TYPE_COUNT,
        ensures
            name@ == spec_data_type_name(self.selected_data_type_index as nat),
    {
        match self.selected_data_type_index {
            0 => "i8",
            1 => "i16",
            2 => "i32",
            3 => "i64",
            4 => "u8",
            5 => "u16",
            6 => "u32",
            7 => "u64",
            8 => "f32",
            _ => "f64",
        }
    }

    pub fn selected_data_type_ref(&self) -> (data_type_ref: DataTypeRef)
        requires
            self.selected_data_type_index < SUPPORTED_DATA_TYPE_COUNT,
        ensures
            data_type_ref.data_type_id@ == spec_data_type_name(self.selected_data_type_index as nat),
    {
        DataTypeRef::new(self.selected_data_type_name())
    }

    pub fn active_constraint_count(&self) -> (count: usize)
        ensures
            count == self.constraint_rows@.len(),
    {
        self.constraint_rows.len()
    }

    pub fn cycle_data_type_forward(&mut self)
        ensures
            final(self).selected_data_type_index == (old(self).selected_data_type_index as int + 1)
                % SUPPORTED_DATA_TYPE_COUNT as int,
            final(self).constraint_rows == old(self).constraint_rows,
            final(self).selected_constraint_row_index == old(self).selected_constraint_row_index,
            final(self).spec_same_status(&*old(self)),
    {
        let next = crate::selection::next_wrapping(Some(self.selected_data_type_index), SUPPORTED_DATA_TYPE_COUNT);
        match next {
            Some(index) => self.selected_data_type_index = index,
            None => {},
        }
    }

    pub fn cycle_data_type_backward(&mut self)
        ensures
            final(self).selected_data_type_index == if old(self).selected_data_type_index == 0 {
                (SUPPORTED_DATA_TYPE_COUNT - 1) as usize
            } else {
                (old(self).selected_data_type_index - 1) as usize
            },
            final(self).constraint_rows == old(self).constraint_rows,
            final(self).selected_constraint_row_index == old(self).selected_constraint_row_index,
            final(self).spec_same_status(&*old(self)),
    {
        self.selected_data_type_index = if self.selected_data_type_index == 0 {
            SUPPORTED_DATA_TYPE_COUNT - 1
        } else {
            self.selected_data_type_index - 1
        };
    }

    pub fn select_next_constraint(&mut self)
        requires
            old(self).constraint_rows@.len() > 0,
        ensures
            final(self).selected_constraint_row_index == (old(self).selected_constraint_row_index as int + 1)
                % old(self).constraint_rows@.len() as int,
            final(self).constraint_rows == old(self).constraint_rows,
            final(self).selected_data_type_index == old(self).selected_data_type_index,
            final(self).spec_same_status(&*old(self)),
    {
        let next = crate::selection::next_wrapping(Some(self.selected_constraint_row_index), self.constraint_rows.len());
        match next {
            Some(index) => self.selected_constraint_row_index = index,
            None => {},
        }
    }

    pub fn select_previous_constraint(&mut self)
        requires
            old(self).constraint_rows@.len() > 0,
        ensures
            final(self).selected_constraint_row_index == if old(self).selected_constraint_row_index == 0 {
                (old(self).constraint_rows@.len() - 1) as usize
            } else {
                (old(self).selected_constraint_row_index - 1) as usize
            },
            final(self).constraint_rows == old(self).constraint_rows,
            final(self).selected_data_type_index == old(self).selected_data_type_index,
            final(self).spec_same_status(&*old(self)),
    {
        self.selected_constraint_row_index = if self.selected_constraint_row_index == 0 {
            self.constraint_rows.len() - 1
        } else {
            self.selected_constraint_row_index - 1
        };
    }

    /// Adds a constraint row and selects it, unless five rows exist already. The second row
    /// starts as `<=`, any other as `== 0`.
    pub fn add_constraint(&mut self) -> (added: bool)
        ensures
            added == (old(self).constraint_rows@.len() < MAX_CONSTRAINT_COUNT),
            !added ==> final(self).spec_rows() == old(self).spec_rows()
                && final(self).selected_constraint_row_index == old(self).selected_constraint_row_index,
            added ==> final(self).spec_rows() == old(self).spec_rows().push((
                if old(self).constraint_rows@.len() == 1 {
                    ScanCompareType::Immediate(ScanCompareTypeImmediate::LessThanOrEqual)
                } else {
                    ScanCompareType::Immediate(ScanCompareTypeImmediate::Equal)
                },
                seq!['0'],
            )) && final(self).selected_constraint_row_index == old(self).constraint_rows@.len(),
            final(self).selected_data_type_index == old(self).selected_data_type_index,
            final(self).spec_same_status(&*old(self)),
    {
        if self.constraint_rows.len() >= MAX_CONSTRAINT_COUNT {
            return false;
        }
        let ghost previous_rows = self.constraint_rows@;
        let mut row = ElementScannerConstraintState::default();
        if self.constraint_rows.len() == 1 {
            row.scan_compare_type = ScanCompareType::Immediate(ScanCompareTypeImmediate::LessThanOrEqual);
        }
        let ghost row_view = spec_row_view(row);
        self.constraint_rows.push(row);
        self.selected_constraint_row_index = self.constraint_rows.len() - 1;
        proof {
            crate::text::lemma_map_values_push(previous_rows, row, |row: ElementScannerConstraintState| spec_row_view(row));
        }
        true
    }

    /// Removes the selected constraint row, unless it is the only one; the selection moves
    /// to the new last row when it fell off the end.
    pub fn remove_selected_constraint(&mut self) -> (removed: bool)
        requires
            old(self).constraint_rows@.len() > 1 ==> old(self).selected_constraint_row_index < old(self).constraint_rows@.len(),
        ensures
            removed == (old(self).constraint_rows@.len() > 1),
            !removed ==> final(self).spec_rows() == old(self).spec_rows()
                && final(self).selected_constraint_row_index == old(self).selected_constraint_row_index,
            removed ==> final(self).spec_rows() == old(self).spec_rows().remove(old(self).selected_constraint_row_index as int)
                && final(self).selected_constraint_row_index == if old(self).selected_constraint_row_index
                    >= old(self).constraint_rows@.len() - 1 {
                    (old(self).constraint_rows@.len() - 2) as usize
                } else {
                    old(self).selected_constraint_row_index
                },
            final(self).selected_data_type_index == old(self).selected_data_type_index,
            final(self).spec_same_status(&*old(self)),
    {
        if self.constraint_rows.len() <= 1 {
            return false;
        }
        let ghost previous_rows = self.constraint_rows@;
        let _ = self.constraint_rows.remove(self.selected_constraint_row_index);
        proof {
            assert(self.spec_rows() =~= previous_rows.map_values(|row: ElementScannerConstraintState| spec_row_view(row)).remove(
                old(self).selected_constraint_row_index as int,
            ));
        }
        if self.selected_constraint_row_index >= self.constraint_rows.len() {
            self.selected_constraint_row_index = self.constraint_rows.len() - 1;
        }
        true
    }

    /// Replaces the selected row's comparison.
    fn set_selected_compare_type(&mut self, compare_type: ScanCompareType)
        requires
            old(self).selected_constraint_row_index < old(self).constraint_rows@.len(),
        ensures
            final(self).spec_rows() == old(self).spec_rows().update(
                old(self).selected_constraint_row_index as int,
                (compare_type, old(self).spec_rows()[old(self).selected_constraint_row_index as int].1),
            ),
            final(self).selected_constraint_row_index == old(self).selected_constraint_row_index,
            final(self).selected_data_type_index == old(self).selected_data_type_index,
            final(self).spec_same_status(&*old(self)),
    {
        let index = self.selected_constraint_row_index;
        let mut row = self.constraint_rows[index].copied();
        row.scan_compare_type = compare_type;
        let ghost previous_rows = self.constraint_rows@;
        self.constraint_rows.set(index, row);
        proof {
            assert(self.spec_rows() =~= previous_rows.map_values(|row: ElementScannerConstraintState| spec_row_view(row)).update(
                index as int,
                (compare_type, previous_rows[index as int].scan_value_text@),
            ));
        }
    }

    /// Replaces the selected row's value text.
    fn set_selected_value_text(&mut self, value_text: String)
        requires
            old(self).selected_constraint_row_index < old(self).constraint_rows@.len(),
        ensures
            final(self).spec_rows() == old(self).spec_rows().update(
                old(self).selected_constraint_row_index as int,
                (old(self).spec_rows()[old(self).selected_constraint_row_index as int].0, value_text@),
            ),
            final(self).selected_constraint_row_index == old(self).selected_constraint_row_index,
            final(self).selected_data_type_index == old(self).selected_data_type_index,
            final(self).spec_same_status(&*old(self)),
    {
        let index = self.selected_constraint_row_index;
        let compare_type = self.constraint_rows[index].scan_compare_type;
        let ghost previous_rows = self.constraint_rows@;
        self.constraint_rows.set(index, ElementScannerConstraintState { scan_compare_type: compare_type, scan_value_text: value_text });
        proof {
            assert(self.spec_rows() =~= previous_rows.map_values(|row: ElementScannerConstraintState| spec_row_view(row)).update(
                index as int,
                (compare_type, value_text@),
            ));
        }
    }

    /// Steps the selected row's comparison forward in the cycling order.
    pub fn cycle_selected_constraint_compare_type_forward(&mut self)
        requires
            old(self).selected_constraint_row_index < old(self).constraint_rows@.len(),
        ensures
            final(self).spec_rows() == old(self).spec_rows().update(
                old(self).selected_constraint_row_index as int,
                (
                    spec_compare_type_at(((spec_compare_type_position(
                        old(self).spec_rows()[old(self).selected_constraint_row_index as int].0,
                    ) + 1) % SUPPORTED_COMPARE_TYPE_COUNT as nat) as nat),
                    old(self).spec_rows()[old(self).selected_constraint_row_index as int].1,
                ),
            ),
            final(self).selected_constraint_row_index == old(self).selected_constraint_row_index,
            final(self).selected_data_type_index == old(self).selected_data_type_index,
            final(self).spec_same_status(&*old(self)),
    {
        let selected_compare_type = self.constraint_rows[self.selected_constraint_row_index].scan_compare_type;
        let current_position = compare_type_position(selected_compare_type);
        let next_position = if current_position + 1 == SUPPORTED_COMPARE_TYPE_COUNT {
            0
        } else {
            current_position + 1
        };
        proof {
            lemma_compare_type_order(selected_compare_type, 0);
            assert(self.constraint_rows@[self.selected_constraint_row_index as int].scan_compare_type == self.spec_rows()[self.selected_constraint_row_index as int].0);
        }
        self.set_selected_compare_type(compare_type_at(next_position));
    }

    /// Steps the selected row's comparison backward in the cycling order.
    pub fn cycle_selected_constraint_compare_type_backward(&mut self)
        requires
            old(self).selected_constraint_row_index < old(self).constraint_rows@.len(),
        ensures
            final(self).spec_rows() == old(self).spec_rows().update(
                old(self).selected_constraint_row_index as int,
                (
                    spec_compare_type_at(
                        if spec_compare_type_position(old(self).spec_rows()[old(self).selected_constraint_row_index as int].0) == 0 {
                            (SUPPORTED_COMPARE_TYPE_COUNT - 1) as nat
                        } else {
                            (spec_compare_type_position(old(self).spec_rows()[old(self).selected_constraint_row_index as int].0) - 1) as nat
                        },
                    ),
                    old(self).spec_rows()[old(self).selected_constraint_row_index as int].1,
                ),
            ),
            final(self).selected_constraint_row_index == old(self).selected_constraint_row_index,
            final(self).selected_data_type_index == old(self).selected_data_type_index,
            final(self).spec_same_status(&*old(self)),
    {
        let selected_compare_type = self.constraint_rows[self.selected_constraint_row_index].scan_compare_type;
        let current_position = compare_type_position(selected_compare_type);
        let previous_position = if current_position == 0 {
            SUPPORTED_COMPARE_TYPE_COUNT - 1
        } else {
            current_position - 1
        };
        proof {
            lemma_compare_type_order(selected_compare_type, 0);
            assert(self.constraint_rows@[self.selected_constraint_row_index as int].scan_compare_type == self.spec_rows()[self.selected_constraint_row_index as int].0);
        }
        self.set_selected_compare_type(compare_type_at(previous_position));
    }

    /// Types one character into the selected row's value; unsupported characters are
    /// ignored.
    pub fn append_selected_constraint_value_character(&mut self, value_character: char)
        requires
            old(self).selected_constraint_row_index < old(self).constraint_rows@.len(),
        ensures
            final(self).spec_rows() == if spec_is_supported_value_character(value_character) {
                old(self).spec_rows().update(
                    old(self).selected_constraint_row_index as int,
                    (
                        old(self).spec_rows()[old(self).selected_constraint_row_index as int].0,
                        old(self).spec_rows()[old(self).selected_constraint_row_index as int].1.push(value_character),
                    ),
                )
            } else {
                old(self).spec_rows()
            },
            final(self).selected_constraint_row_index == old(self).selected_constraint_row_index,
            final(self).selected_data_type_index == old(self).selected_data_type_index,
            final(self).spec_same_status(&*old(self)),
    {
        if !Self::is_supported_value_character(value_character) {
            return;
        }
        let mut value_text = self.constraint_rows[self.selected_constraint_row_index].scan_value_text.clone();
        push_char(&mut value_text, value_character);
        self.set_selected_value_text(value_text);
    }

    /// Deletes the last character of the selected row's value; an emptied value becomes `0`.
    pub fn backspace_selected_constraint_value(&mut self)
        requires
            old(self).selected_constraint_row_index < old(self).constraint_rows@.len(),
        ensures
            final(self).spec_rows() == old(self).spec_rows().update(
                old(self).selected_constraint_row_index as int,
                (
                    old(self).spec_rows()[old(self).selected_constraint_row_index as int].0,
                    if old(self).spec_rows()[old(self).selected_constraint_row_index as int].1.len() <= 1 {
                        seq!['0']
                    } else {
                        old(self).spec_rows()[old(self).selected_constraint_row_index as int].1.drop_last()
                    },
                ),
            ),
            final(self).selected_constraint_row_index == old(self).selected_constraint_row_index,
            final(self).selected_data_type_index == old(self).selected_data_type_index,
            final(self).spec_same_status(&*old(self)),
    {
        let mut value_text = self.constraint_rows[self.selected_constraint_row_index].scan_value_text.clone();
        let _ = pop_char(&mut value_text);
        if value_text.as_str().unicode_len() == 0 {
            push_char(&mut value_text, '0');
            assert(value_text@ =~= seq!['0']);
        }
        self.set_selected_value_text(value_text);
    }

    /// Resets the selected row's value to `0`.
    pub fn clear_selected_constraint_value(&mut self)
        requires
            old(self).selected_constraint_row_index < old(self).constraint_rows@.len(),
        ensures
            final(self).spec_rows() == old(self).spec_rows().update(
                old(self).selected_constraint_row_index as int,
                (old(self).spec_rows()[old(self).selected_constraint_row_index as int].0, seq!['0']),
            ),
            final(self).selected_constraint_row_index == old(self).selected_constraint_row_index,
            final(self).selected_data_type_index == old(self).selected_data_type_index,
            final(self).spec_same_status(&*old(self)),
    {
        self.set_selected_value_text(zero_text());
    }

    /// One engine constraint per row, in order; relative comparisons carry no value, the
    /// others carry the row's text as a decimal scalar.
    pub fn build_anonymous_scan_constraints(&self) -> (constraints: Vec<AnonymousScanConstraint>)
        ensures
            constraints@.len() == self.constraint_rows@.len(),
            forall|k: int|
                0 <= k < constraints@.len() ==> spec_constraint_for_row(#[trigger] constraints@[k], self.constraint_rows@[k]),
            forall|k: int|
                0 <= k < constraints@.len() ==> (((#[trigger] constraints@[k]).anonymous_value_string is None) <==> (
                self.constraint_rows@[k].scan_compare_type is Relative)),
            forall|k: int|
                0 <= k < constraints@.len() && !(self.constraint_rows@[k].scan_compare_type is Relative) ==> ((
                #[trigger] constraints@[k]).anonymous_value_string matches Some(value) && value.anonymous_value_string@
                == self.constraint_rows@[k].scan_value_text@),
    {
        let mut constraints: Vec<AnonymousScanConstraint> = Vec::new();
        let mut position: usize = 0;
        while position < self.constraint_rows.len()
            invariant
                position <= self.constraint_rows@.len(),
                constraints@.len() == position,
                forall|k: int| 0 <= k < position ==> {
                    &&& (#[trigger] constraints@[k]).scan_compare_type == self.constraint_rows@[k].scan_compare_type
                    &&& match self.constraint_rows@[k].scan_compare_type {
                        ScanCompareType::Relative(_) => constraints@[k].anonymous_value_string is None,
                        _ => constraints@[k].anonymous_value_string matches Some(value) && value.anonymous_value_string@
                            == self.constraint_rows@[k].scan_value_text@ && value.anonymous_value_string_format
                            == AnonymousValueStringFormat::Decimal && value.container_type == ContainerType::Scalar,
                    }
                },
            decreases self.constraint_rows@.len() - position,
        {
            let constraint_row = &self.constraint_rows[position];
            let should_include_value = match constraint_row.scan_compare_type {
                ScanCompareType::Relative(_) => false,
                _ => true,
            };
            let anonymous_value_string = if should_include_value {
                Some(AnonymousValueString::new(
                    constraint_row.scan_value_text.clone(),
                    AnonymousValueStringFormat::Decimal,
                    ContainerType::Scalar,
                ))
            } else {
                None
            };
            constraints.push(AnonymousScanConstraint::new(constraint_row.scan_compare_type, anonymous_value_string));
            position = position + 1;
        }
        constraints
    }

    pub fn summary_lines_with_capacity(&self, line_capacity: usize) -> (summary_lines: Vec<String>)
        requires
            self.selected_data_type_index < SUPPORTED_DATA_TYPE_COUNT,
            self.selected_constraint_row_index < usize::MAX,
        ensures
            spec_texts(summary_lines@) == spec_element_scanner_summary_lines(*self, line_capacity as nat),
    {
        build_element_scanner_summary_lines_with_capacity(self, line_capacity)
    }

    fn is_supported_value_character(value_character: char) -> (is_supported: bool)
        ensures
            is_supported == spec_is_supported_value_character(value_character),
    {
        ('0' <= value_character && value_character <= '9') || value_character == '-' || value_character == '.'
    }
}

impl Default for ElementScannerPaneState {
    fn default() -> (state: ElementScannerPaneState)
        ensures
            state.selected_data_type_index == 2,
            state.spec_rows() == seq![(ScanCompareType::Immediate(ScanCompareTypeImmediate::Equal), seq!['0'])],
            state.selected_constraint_row_index == 0,
            !state.has_pending_scan_request,
            !state.has_scan_results,
            state.last_result_count == 0,
            state.last_total_size_in_bytes == 0,
            state.status_message@ == "Ready."@,
            state.wf(),
    {
        let mut constraint_rows: Vec<ElementScannerConstraintState> = Vec::new();
        constraint_rows.push(ElementScannerConstraintState::default());
        let state = ElementScannerPaneState {
            selected_data_type_index: 2,
            constraint_rows,
            selected_constraint_row_index: 0,
            has_pending_scan_request: false,
            has_scan_results: false,
            last_result_count: 0,
            last_total_size_in_bytes: 0,
            status_message: owned("Ready."),
        };
        assert(state.spec_rows() =~= seq![(ScanCompareType::Immediate(ScanCompareTypeImmediate::Equal), seq!['0'])]);
        state
    }
}

/// The line of one constraint row: a selection marker, its comparison and its value.
pub open spec fn spec_constraint_row_line(row: (ScanCompareType, Seq<char>), is_selected: bool) -> Seq<char> {
    (if is_selected { ">"@ } else { " "@ }) + " [ROW] "@ + spec_scan_compare_type_label(row.0) + " "@ + row.1 + "."@
}

/// The lines of the constraint rows inside the selection-relative window of the given
/// capacity.
pub open spec fn spec_constraint_window_lines(state: ElementScannerPaneState, line_capacity: nat) -> Seq<Seq<char>> {
    let count = state.constraint_rows@.len();
    if line_capacity == 0 {
        seq![]
    } else {
        let start = spec_viewport_start(count, Some(state.selected_constraint_row_index), line_capacity);
        Seq::new(
            spec_viewport_len(count, line_capacity),
            |offset: int| spec_constraint_row_line(
                state.spec_rows()[start + offset],
                state.selected_constraint_row_index == start + offset,
            ),
        )
    }
}

/// The element scanner summary cut to the line capacity: actions, controls, the data type,
/// the constraint rows around the selection in the room left by six fixed lines, then scan
/// state, status and the last result counts.
pub open spec fn spec_element_scanner_summary_lines(state: ElementScannerPaneState, line_capacity: nat) -> Seq<Seq<char>> {
    if line_capacity == 0 {
        seq![]
    } else {
        let constraint_capacity: nat = if line_capacity >= 6 { (line_capacity - 6) as nat } else { 0 };
        let prioritized = seq![
            "[ACT] s scan | n reset | c collect | a add | x remove."@,
            "[CTRL] t/T type | m/M compare | j/k row | type value."@,
            "[DATA] type="@ + spec_data_type_name(state.selected_data_type_index as nat) + "."@,
        ] + spec_constraint_window_lines(state, constraint_capacity) + seq![
            "[SCAN] constraints="@ + spec_decimal(state.constraint_rows@.len()) + " | selected_row="@
                + spec_decimal((state.selected_constraint_row_index + 1) as nat) + " | pending="@
                + spec_bool_text(state.has_pending_scan_request) + " | has_results="@ + spec_bool_text(
                state.has_scan_results,
            ) + "."@,
            "[STAT] "@ + state.status_message@ + "."@,
            "[LAST] result_count="@ + spec_decimal(state.last_result_count as nat) + " | total_bytes="@
                + spec_decimal(state.last_total_size_in_bytes as nat) + "."@,
        ];
        if prioritized.len() <= line_capacity {
            prioritized
        } else {
            prioritized.subrange(0, line_capacity as int)
        }
    }
}

fn build_constraint_row_line(constraint_row: &ElementScannerConstraintState, is_selected: bool) -> (line: String)
    ensures
        line@ == spec_constraint_row_line(spec_row_view(*constraint_row), is_selected),
{
    let mut line = owned(if is_selected { ">" } else { " " });
    line.append(" [ROW] ");
    line.append(scan_compare_type_label(constraint_row.scan_compare_type));
    line.append(" ");
    line.append(constraint_row.scan_value_text.as_str());
    line.append(".");
    line
}

pub fn build_element_scanner_summary_lines_with_capacity(
    element_scanner_pane_state: &ElementScannerPaneState,
    line_capacity: usize,
) -> (summary_lines: Vec<String>)
    requires
        element_scanner_pane_state.selected_data_type_index < SUPPORTED_DATA_TYPE_COUNT,
        element_scanner_pane_state.selected_constraint_row_index < usize::MAX,
    ensures
        spec_texts(summary_lines@) == spec_element_scanner_summary_lines(*element_scanner_pane_state, line_capacity as nat),
{
    let state = element_scanner_pane_state;
    let mut summary_lines: Vec<String> = Vec::new();
    if line_capacity == 0 {
        assert(spec_texts(summary_lines@) =~= seq![]);
        return summary_lines;
    }
    let constraint_line_capacity = line_capacity.saturating_sub(6);
    let ghost expected = spec_element_scanner_summary_lines(*state, line_capacity as nat);
    let ghost window = spec_constraint_window_lines(*state, constraint_line_capacity as nat);
    let mut lines: Vec<String> = Vec::new();
    lines.push(owned("[ACT] s scan | n reset | c collect | a add | x remove."));
    lines.push(owned("[CTRL] t/T type | m/M compare | j/k row | type value."));
    let mut line = owned("[DATA] type=");
    line.append(state.selected_data_type_name());
    line.append(".");
    lines.push(line);
    let ghost head = spec_texts(lines@);
    if constraint_line_capacity > 0 {
        let window_range = build_selection_relative_viewport_range(
            state.constraint_rows.len(),
            Some(state.selected_constraint_row_index),
            constraint_line_capacity,
        );
        let mut position: usize = window_range.start;
        while position < window_range.end
            invariant
                window_range.start <= position <= window_range.end,
                window_range.end <= state.constraint_rows@.len(),
                window.len() == window_range.end - window_range.start,
                window_range.start == spec_viewport_start(state.constraint_rows@.len(), Some(state.selected_constraint_row_index), constraint_line_capacity as nat),
                constraint_line_capacity > 0,
                window == spec_constraint_window_lines(*state, constraint_line_capacity as nat),
                spec_texts(lines@) == head + window.subrange(0, position - window_range.start),
            decreases window_range.end - position,
        {
            let ghost previous = lines@;
            let row_line = build_constraint_row_line(&state.constraint_rows[position], state.selected_constraint_row_index == position);
            lines.push(row_line);
            proof {
                assert(spec_row_view(state.constraint_rows@[position as int]) == state.spec_rows()[position as int]);
                crate::text::lemma_texts_push(previous, row_line);
                assert(window.subrange(0, position + 1 - window_range.start) =~= window.subrange(0, position - window_range.start).push(window[position - window_range.start]));
            }
            position = position + 1;
        }
        assert(window.subrange(0, window.len() as int) =~= window);
    } else {
        assert(window =~= seq![]);
        assert(spec_texts(lines@) =~= head + window);
    }
    let mut line = owned("[SCAN] constraints=");
    push_decimal_usize(&mut line, state.constraint_rows.len());
    line.append(" | selected_row=");
    push_decimal_usize(&mut line, state.selected_constraint_row_index + 1);
    line.append(" | pending=");
    push_bool(&mut line, state.has_pending_scan_request);
    line.append(" | has_results=");
    push_bool(&mut line, state.has_scan_results);
    line.append(".");
    lines.push(line);
    let mut line = owned("[STAT] ");
    line.append(state.status_message.as_str());
    line.append(".");
    lines.push(line);
    let mut line = owned("[LAST] result_count=");
    push_decimal(&mut line, state.last_result_count);
    line.append(" | total_bytes=");
    push_decimal(&mut line, state.last_total_size_in_bytes);
    line.append(".");
    lines.push(line);
    let ghost all_lines = spec_texts(lines@);
    let ghost base = (head.len() + window.len()) as int;
    assert(all_lines =~= head + window + seq![all_lines[base], all_lines[base + 1], all_lines[base + 2]]);
    let mut position: usize = 0;
    while position < lines.len() && position < line_capacity
        invariant
            position <= lines@.len(),
            position <= line_capacity,
            spec_texts(summary_lines@) == spec_texts(lines@).subrange(0, position as int),
        decreases lines@.len() - position,
    {
        let ghost previous = summary_lines@;
        let copied_line = lines[position].clone();
        summary_lines.push(copied_line);
        proof {
            crate::text::lemma_texts_push(previous, copied_line);
            assert(spec_texts(lines@).subrange(0, position + 1) =~= spec_texts(lines@).subrange(0, position as int).push(lines@[position as int]@));
        }
        position = position + 1;
    }
    proof {
        if lines@.len() <= line_capacity {
            assert(spec_texts(lines@).subrange(0, lines@.len() as int) =~= spec_texts(lines@));
        }
        assert(spec_texts(summary_lines@) =~= expected);
    }
    summary_lines
}

} // verus!
