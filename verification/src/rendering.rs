use vstd::prelude::*;
use crate::pane::TuiPane;
use crate::pane_layout::{PaneLayoutState, spec_visible_panes_upto};
use crate::text::{owned, push_char};

verus! {

/// The panes drawn in the left column, in order.
pub open spec fn spec_left_column_candidates() -> Seq<TuiPane> {
    seq![TuiPane::ProcessSelector, TuiPane::ProjectExplorer, TuiPane::Settings]
}

/// The panes drawn in the right column, in order.
pub open spec fn spec_right_column_candidates() -> Seq<TuiPane> {
    seq![TuiPane::ElementScanner, TuiPane::ScanResults, TuiPane::StructViewer, TuiPane::Output]
}

/// The shown panes among `candidates`, in their order.
pub open spec fn spec_shown_among(layout: PaneLayoutState, candidates: Seq<TuiPane>) -> Seq<TuiPane> {
    candidates.filter(|pane: TuiPane| layout.spec_is_pane_visible(pane))
}

fn shown_among(layout: &PaneLayoutState, candidates: &[TuiPane]) -> (panes: Vec<TuiPane>)
    ensures
        panes@ == spec_shown_among(*layout, candidates@),
{
    let mut panes: Vec<TuiPane> = Vec::new();
    let mut position: usize = 0;
    while position < candidates.len()
        invariant
            position <= candidates@.len(),
            panes@ == spec_shown_among(*layout, candidates@.subrange(0, position as int)),
        decreases candidates@.len() - position,
    {
        let pane = candidates[position];
        proof {
            let shown = |candidate: TuiPane| layout.spec_is_pane_visible(candidate);
            assert(candidates@.subrange(0, position + 1) =~= candidates@.subrange(0, position as int).push(pane));
            candidates@.subrange(0, position as int).lemma_filter_push(pane, shown);
        }
        if layout.is_pane_visible(pane) {
            panes.push(pane);
        }
        position = position + 1;
    }
    proof {
        assert(candidates@.subrange(0, candidates@.len() as int) =~= candidates@);
    }
    panes
}

/// The shown panes of the two columns: process selector, project explorer and settings on
/// the left; element scanner, scan results, struct viewer and output on the right.
pub fn pane_columns(layout: &PaneLayoutState) -> (columns: (Vec<TuiPane>, Vec<TuiPane>))
    ensures
        columns.0@ == spec_shown_among(*layout, spec_left_column_candidates()),
        columns.1@ == spec_shown_among(*layout, spec_right_column_candidates()),
{
    let left_candidates = [TuiPane::ProcessSelector, TuiPane::ProjectExplorer, TuiPane::Settings];
    let right_candidates = [TuiPane::ElementScanner, TuiPane::ScanResults, TuiPane::StructViewer, TuiPane::Output];
    assert(left_candidates@ =~= spec_left_column_candidates());
    assert(right_candidates@ =~= spec_right_column_candidates());
    (shown_among(layout, left_candidates.as_slice()), shown_among(layout, right_candidates.as_slice()))
}

/// The title of a pane's frame: its name and shortcut digit, with ` *` when focused.
pub open spec fn spec_pane_frame_title(pane: TuiPane, is_focused: bool) -> Seq<char> {
    pane.spec_title() + " ["@ + seq![pane.spec_shortcut_digit()] + "]"@ + if is_focused {
        " *"@
    } else {
        Seq::empty()
    }
}

pub fn pane_frame_title(pane: TuiPane, is_focused: bool) -> (title: String)
    ensures
        title@ == spec_pane_frame_title(pane, is_focused),
{
    let mut title = owned(pane.title());
    title.append(" [");
    push_char(&mut title, pane.shortcut_digit());
    title.append("]");
    if is_focused {
        title.append(" *");
    }
    title
}

/// The marker cell of an entry row: the marker, or two spaces when it is empty, right
/// aligned to two characters, then a space.
pub open spec fn spec_entry_row_marker_cell(marker_text: Seq<char>) -> Seq<char> {
    let marker = if marker_text.len() == 0 {
        "  "@
    } else {
        marker_text
    };
    let padding: nat = if marker.len() < 2 {
        (2 - marker.len()) as nat
    } else {
        0
    };
    Seq::new(padding, |position: int| ' ') + marker + " "@
}

pub fn entry_row_marker_cell(marker_text: &str) -> (cell: String)
    ensures
        cell@ == spec_entry_row_marker_cell(marker_text@),
{
    proof {
        reveal_strlit("   ");
        reveal_strlit("  ");
        reveal_strlit(" ");
    }
    let marker_length = marker_text.unicode_len();
    let mut cell = String::new();
    if marker_length == 0 {
        cell.append("   ");
        assert(cell@ =~= spec_entry_row_marker_cell(marker_text@));
        return cell;
    }
    if marker_length < 2 {
        push_char(&mut cell, ' ');
    }
    cell.append(marker_text);
    cell.append(" ");
    assert(cell@ =~= spec_entry_row_marker_cell(marker_text@));
    cell
}

} // verus!
