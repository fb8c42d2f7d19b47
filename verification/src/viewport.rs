use vstd::prelude::*;
use std::ops::Range;

verus! {

/// First index of the window of at most `viewport_capacity` rows out of
/// `total_entry_count`, placed so that the selected row has half a window of context
/// before it where the list allows.
pub open spec fn spec_viewport_start(
    total_entry_count: nat,
    selected_entry_index: Option<usize>,
    viewport_capacity: nat,
) -> nat {
    let visible_entry_count = spec_min(total_entry_count, viewport_capacity);
    if total_entry_count == 0 || viewport_capacity == 0 || visible_entry_count == total_entry_count {
        0
    } else {
        let selected = match selected_entry_index {
            Some(index) => if index < total_entry_count { index as nat } else { 0 },
            None => 0,
        };
        let leading_context_count = visible_entry_count / 2;
        let start = if selected >= leading_context_count {
            (selected - leading_context_count) as nat
        } else {
            0
        };
        spec_min(start, (total_entry_count - visible_entry_count) as nat)
    }
}

/// Number of rows in the window.
pub open spec fn spec_viewport_len(total_entry_count: nat, viewport_capacity: nat) -> nat {
    spec_min(total_entry_count, viewport_capacity)
}

pub open spec fn spec_min(left: nat, right: nat) -> nat {
    if left <= right {
        left
    } else {
        right
    }
}

/// Builds a bounded viewport range for list rows using selection-relative windowing.
pub fn build_selection_relative_viewport_range(
    total_entry_count: usize,
    selected_entry_index: Option<usize>,
    viewport_capacity: usize,
) -> (viewport: Range<usize>)
    ensures
        viewport.start == spec_viewport_start(
            total_entry_count as nat,
            selected_entry_index,
            viewport_capacity as nat,
        ),
        viewport.end == viewport.start + spec_viewport_len(
            total_entry_count as nat,
            viewport_capacity as nat,
        ),
        viewport.end <= total_entry_count,
{
    if total_entry_count == 0 || viewport_capacity == 0 {
        return 0..0;
    }
    let visible_entry_count = if total_entry_count <= viewport_capacity {
        total_entry_count
    } else {
        viewport_capacity
    };
    if visible_entry_count == total_entry_count {
        return 0..total_entry_count;
    }
    let selected_entry_index = match selected_entry_index {
        Some(index) => if index < total_entry_count {
            index
        } else {
            0
        },
        None => 0,
    };
    let leading_context_count = visible_entry_count / 2;
    let mut viewport_start_index = selected_entry_index.saturating_sub(leading_context_count);
    let maximum_viewport_start_index = total_entry_count.saturating_sub(visible_entry_count);
    if viewport_start_index > maximum_viewport_start_index {
        viewport_start_index = maximum_viewport_start_index;
    }
    let viewport_end_index = viewport_start_index + visible_entry_count;
    viewport_start_index..viewport_end_index
}

/// The window always holds the selected row when the selection lies inside the list, and
/// it is as large as the list and the capacity allow.
pub proof fn lemma_viewport_contains_selection(
    total_entry_count: nat,
    selected_entry_index: usize,
    viewport_capacity: nat,
)
    requires
        selected_entry_index < total_entry_count,
        viewport_capacity > 0,
    ensures
        spec_viewport_start(total_entry_count, Some(selected_entry_index), viewport_capacity)
            <= selected_entry_index,
        (selected_entry_index as nat) < spec_viewport_start(
            total_entry_count,
            Some(selected_entry_index),
            viewport_capacity,
        ) + spec_viewport_len(total_entry_count, viewport_capacity),
        spec_viewport_start(total_entry_count, Some(selected_entry_index), viewport_capacity)
            + spec_viewport_len(total_entry_count, viewport_capacity) <= total_entry_count,
{
}

} // verus!
