use vstd::prelude::*;
use crate::element_scanner::{ElementScannerPaneState, spec_element_scanner_summary_lines};
use crate::output::OutputPaneState;
use crate::pane::{TuiPane, lemma_pane_index_round_trip};
use crate::pane_entry_row::{PaneEntryRow, PaneEntryRowView};
use crate::pane_layout::PaneLayoutState;
use crate::process_selector::{ProcessSelectorPaneState, spec_process_selector_summary_lines, spec_visible_process_entry_rows};
use crate::project_explorer::{
    ProjectExplorerPaneState, spec_project_explorer_summary_lines, spec_visible_project_entry_rows,
    spec_visible_project_item_entry_rows,
};
use crate::scan_results::{ScanResultsPaneState, spec_scan_results_summary_lines, spec_visible_scan_result_rows};
use crate::selection::{spec_next_wrapping, spec_previous_wrapping, next_wrapping, previous_wrapping, spec_first_index, lemma_first_index};
use crate::settings::{SettingsPaneState, spec_settings_state_summary_lines};
use crate::struct_viewer::{StructViewerPaneState, spec_struct_viewer_summary_lines};
use crate::text::spec_texts;

verus! {

/// Root state container for TUI panes.
pub struct TuiAppState {
    pub pane_layout_state: PaneLayoutState,
    pub process_selector_pane_state: ProcessSelectorPaneState,
    pub element_scanner_pane_state: ElementScannerPaneState,
    pub scan_results_pane_state: ScanResultsPaneState,
    pub project_explorer_pane_state: ProjectExplorerPaneState,
    pub struct_viewer_pane_state: StructViewerPaneState,
    pub output_pane_state: OutputPaneState,
    pub settings_pane_state: SettingsPaneState,
}

/// The test for being `pane`.
pub open spec fn spec_is_pane(pane: TuiPane) -> spec_fn(TuiPane) -> bool {
    |visible_pane: TuiPane| visible_pane == pane
}

/// The position of `pane` among the shown panes; the first position when it is not shown.
pub open spec fn spec_focus_position(visible_panes: Seq<TuiPane>, pane: TuiPane) -> nat {
    match spec_first_index(visible_panes, spec_is_pane(pane)) {
        Some(position) => position as nat,
        None => 0,
    }
}

/// The shown pane after or before the focused one, wrapping around; the focused pane
/// itself when nothing is shown.
pub open spec fn spec_cycled_focus(layout: PaneLayoutState, is_forward_direction: bool) -> TuiPane {
    let visible_panes = layout.spec_visible_panes();
    if visible_panes.len() == 0 {
        layout.focused_pane
    } else {
        let position = spec_focus_position(visible_panes, layout.focused_pane);
        let next = if is_forward_direction {
            spec_next_wrapping(Some(position as usize), visible_panes.len())
        } else {
            spec_previous_wrapping(Some(position as usize), visible_panes.len())
        };
        visible_panes[next.unwrap() as int]
    }
}

/// The lines drawn for a pane.
pub open spec fn spec_pane_summary_lines(state: TuiAppState, pane: TuiPane) -> Seq<Seq<char>> {
    match pane {
        TuiPane::ProcessSelector => spec_process_selector_summary_lines(state.process_selector_pane_state),
        TuiPane::ElementScanner => spec_element_scanner_summary_lines(state.element_scanner_pane_state, usize::MAX as nat),
        TuiPane::ScanResults => spec_scan_results_summary_lines(state.scan_results_pane_state),
        TuiPane::ProjectExplorer => spec_project_explorer_summary_lines(state.project_explorer_pane_state),
        TuiPane::StructViewer => spec_struct_viewer_summary_lines(state.struct_viewer_pane_state),
        TuiPane::Output => state.output_pane_state.spec_summary_lines(),
        TuiPane::Settings => spec_settings_state_summary_lines(state.settings_pane_state),
    }
}

/// The list rows drawn under a pane's summary: five processes, five scan results, or five
/// projects followed by ten project items; none for the other panes.
pub open spec fn spec_pane_entry_rows(state: TuiAppState, pane: TuiPane) -> Seq<PaneEntryRowView> {
    match pane {
        TuiPane::ProcessSelector => spec_visible_process_entry_rows(state.process_selector_pane_state, 5),
        TuiPane::ScanResults => spec_visible_scan_result_rows(state.scan_results_pane_state, 5),
        TuiPane::ProjectExplorer => spec_visible_project_entry_rows(state.project_explorer_pane_state, 5)
            + spec_visible_project_item_entry_rows(state.project_explorer_pane_state, 10),
        _ => Seq::empty(),
    }
}

impl TuiAppState {
    /// The invariant: the layout shows some pane and focuses a shown one, and the element
    /// scanner's rows are consistent.
    pub open spec fn wf(&self) -> bool {
        &&& self.pane_layout_state.wf()
        &&& self.element_scanner_pane_state.wf()
    }

    pub fn focused_pane(&self) -> (pane: TuiPane)
        ensures
            pane == self.pane_layout_state.focused_pane,
    {
        self.pane_layout_state.focused_pane
    }

    pub fn is_pane_visible(&self, pane: TuiPane) -> (is_visible: bool)
        ensures
            is_visible == self.pane_layout_state.spec_is_pane_visible(pane),
    {
        self.pane_layout_state.is_pane_visible(pane)
    }

    pub fn visible_panes_in_order(&self) -> (panes: Vec<TuiPane>)
        ensures
            panes@ == self.pane_layout_state.spec_visible_panes(),
    {
        self.pane_layout_state.visible_panes_in_order()
    }

    /// Focuses a pane, showing it first if it was hidden.
    pub fn set_focus_to_pane(&mut self, pane: TuiPane)
        ensures
            final(self).pane_layout_state.wf(),
            old(self).wf() ==> final(self).wf(),
            final(self).pane_layout_state.focused_pane == pane,
            final(self).pane_layout_state.pane_visibility@ == old(self).pane_layout_state.pane_visibility@.update(
                pane.spec_index(),
                true,
            ),
            final(self).spec_same_panes(&*old(self)),
    {
        let pane_was_made_visible = self.pane_layout_state.set_pane_visibility(pane, true);
        if pane_was_made_visible {
            self.pane_layout_state.focused_pane = pane;
        }
    }

    /// Moves focus to the next shown pane, wrapping around.
    pub fn cycle_focus_forward(&mut self)
        ensures
            old(self).wf() ==> final(self).wf(),
            old(self).pane_layout_state.spec_visible_panes().len() > 0 ==> final(self).pane_layout_state.wf(),
            final(self).pane_layout_state.focused_pane == spec_cycled_focus(old(self).pane_layout_state, true),
            final(self).pane_layout_state.pane_visibility == old(self).pane_layout_state.pane_visibility,
            final(self).spec_same_panes(&*old(self)),
    {
        self.cycle_focus(true);
    }

    /// Moves focus to the previous shown pane, wrapping around.
    pub fn cycle_focus_backward(&mut self)
        ensures
            old(self).wf() ==> final(self).wf(),
            old(self).pane_layout_state.spec_visible_panes().len() > 0 ==> final(self).pane_layout_state.wf(),
            final(self).pane_layout_state.focused_pane == spec_cycled_focus(old(self).pane_layout_state, false),
            final(self).pane_layout_state.pane_visibility == old(self).pane_layout_state.pane_visibility,
            final(self).spec_same_panes(&*old(self)),
    {
        self.cycle_focus(false);
    }

    /// Shows or hides the focused pane, with the rules of `PaneLayoutState::toggle_pane_visibility`.
    pub fn toggle_focused_pane_visibility(&mut self) -> (accepted: bool)
        ensures
            old(self).wf() ==> final(self).wf(),
            accepted == !old(self).pane_layout_state.spec_rejects_visibility(
                old(self).pane_layout_state.focused_pane,
                !old(self).pane_layout_state.spec_is_pane_visible(old(self).pane_layout_state.focused_pane),
            ),
            !accepted ==> final(self).pane_layout_state == old(self).pane_layout_state,
            accepted ==> final(self).pane_layout_state.pane_visibility@ == old(self).pane_layout_state.pane_visibility@.update(
                old(self).pane_layout_state.focused_pane.spec_index(),
                !old(self).pane_layout_state.spec_is_pane_visible(old(self).pane_layout_state.focused_pane),
            ),
            accepted ==> final(self).pane_layout_state.focused_pane == final(self).pane_layout_state.spec_focus_after_change(
                old(self).pane_layout_state.focused_pane,
            ),
            old(self).pane_layout_state.spec_visibility_result(
                final(self).pane_layout_state,
                old(self).pane_layout_state.focused_pane,
                !old(self).pane_layout_state.spec_is_pane_visible(old(self).pane_layout_state.focused_pane),
            ),
            final(self).spec_same_panes(&*old(self)),
    {
        let focused_pane = self.focused_pane();
        self.pane_layout_state.toggle_pane_visibility(focused_pane)
    }

    /// Shows or hides a pane; hiding the only shown pane is refused.
    pub fn toggle_pane_visibility(&mut self, pane: TuiPane) -> (accepted: bool)
        ensures
            old(self).wf() ==> final(self).wf(),
            accepted == !old(self).pane_layout_state.spec_rejects_visibility(
                pane,
                !old(self).pane_layout_state.spec_is_pane_visible(pane),
            ),
            !accepted ==> final(self).pane_layout_state == old(self).pane_layout_state,
            accepted ==> final(self).pane_layout_state.pane_visibility@ == old(self).pane_layout_state.pane_visibility@.update(
                pane.spec_index(),
                !old(self).pane_layout_state.spec_is_pane_visible(pane),
            ),
            accepted ==> final(self).pane_layout_state.focused_pane == final(self).pane_layout_state.spec_focus_after_change(
                old(self).pane_layout_state.focused_pane,
            ),
            old(self).pane_layout_state.spec_visibility_result(
                final(self).pane_layout_state,
                pane,
                !old(self).pane_layout_state.spec_is_pane_visible(pane),
            ),
            final(self).spec_same_panes(&*old(self)),
    {
        self.pane_layout_state.toggle_pane_visibility(pane)
    }

    /// Shows every pane, keeping focus.
    pub fn show_all_panes(&mut self)
        ensures
            old(self).wf() ==> final(self).wf(),
            final(self).pane_layout_state.focused_pane == old(self).pane_layout_state.focused_pane,
            forall|pane: TuiPane| final(self).pane_layout_state.spec_is_pane_visible(pane),
            final(self).pane_layout_state.wf(),
            final(self).spec_same_panes(&*old(self)),
    {
        self.pane_layout_state.show_all_panes();
    }

    /// The lines drawn for a pane.
    pub fn pane_summary_lines(&self, pane: TuiPane) -> (summary_lines: Vec<String>)
        requires
            self.element_scanner_pane_state.wf(),
            pane == TuiPane::ScanResults ==> self.scan_results_pane_state.spec_selected_result_count() <= usize::MAX,
            pane == TuiPane::StructViewer ==> (self.struct_viewer_pane_state.selected_field_display_format_progress matches Some((
                index,
                _,
            )) ==> index < usize::MAX),
        ensures
            spec_texts(summary_lines@) == spec_pane_summary_lines(*self, pane),
    {
        match pane {
            TuiPane::ProcessSelector => self.process_selector_pane_state.summary_lines(),
            TuiPane::ElementScanner => self.element_scanner_pane_state.summary_lines_with_capacity(usize::MAX),
            TuiPane::ScanResults => self.scan_results_pane_state.summary_lines(),
            TuiPane::ProjectExplorer => self.project_explorer_pane_state.summary_lines(),
            TuiPane::StructViewer => self.struct_viewer_pane_state.summary_lines(),
            TuiPane::Output => self.output_pane_state.summary_lines(),
            TuiPane::Settings => self.settings_pane_state.summary_lines(),
        }
    }

    /// The list rows drawn under a pane's summary.
    pub fn pane_entry_rows(&self, pane: TuiPane) -> (entry_rows: Vec<PaneEntryRow>)
        ensures
            entry_rows@.map_values(|row: PaneEntryRow| row@) == spec_pane_entry_rows(*self, pane),
    {
        match pane {
            TuiPane::ProcessSelector => self.process_selector_pane_state.visible_process_entry_rows(5),
            TuiPane::ScanResults => self.scan_results_pane_state.visible_scan_result_rows(5),
            TuiPane::ProjectExplorer => {
                let mut entry_rows = self.project_explorer_pane_state.visible_project_entry_rows();
                let ghost project_rows = entry_rows@;
                let mut item_rows = self.project_explorer_pane_state.visible_project_item_entry_rows();
                let ghost item_row_views = item_rows@;
                entry_rows.append(&mut item_rows);
                assert(entry_rows@ =~= project_rows + item_row_views);
                assert((project_rows + item_row_views).map_values(|row: PaneEntryRow| row@) =~= project_rows.map_values(
                    |row: PaneEntryRow| row@,
                ) + item_row_views.map_values(|row: PaneEntryRow| row@));
                entry_rows
            },
            _ => {
                let entry_rows: Vec<PaneEntryRow> = Vec::new();
                assert(entry_rows@.map_values(|row: PaneEntryRow| row@) =~= Seq::<PaneEntryRowView>::empty());
                entry_rows
            },
        }
    }

    /// The pane states other than the layout are as in `other`.
    pub open spec fn spec_same_panes(&self, other: &Self) -> bool {
        &&& self.process_selector_pane_state == other.process_selector_pane_state
        &&& self.element_scanner_pane_state == other.element_scanner_pane_state
        &&& self.scan_results_pane_state == other.scan_results_pane_state
        &&& self.project_explorer_pane_state == other.project_explorer_pane_state
        &&& self.struct_viewer_pane_state == other.struct_viewer_pane_state
        &&& self.output_pane_state == other.output_pane_state
        &&& self.settings_pane_state == other.settings_pane_state
    }

    fn cycle_focus(&mut self, is_forward_direction: bool)
        ensures
            old(self).wf() ==> final(self).wf(),
            old(self).pane_layout_state.spec_visible_panes().len() > 0 ==> final(self).pane_layout_state.wf(),
            final(self).pane_layout_state.focused_pane == spec_cycled_focus(old(self).pane_layout_state, is_forward_direction),
            final(self).pane_layout_state.pane_visibility == old(self).pane_layout_state.pane_visibility,
            final(self).spec_same_panes(&*old(self)),
    {
        let visible_panes = self.visible_panes_in_order();
        if visible_panes.len() == 0 {
            return;
        }
        let focused_pane = self.focused_pane();
        let ghost matches = spec_is_pane(focused_pane);
        let mut position: usize = 0;
        while position < visible_panes.len() && visible_panes[position] != focused_pane
            invariant
                position <= visible_panes@.len(),
                visible_panes@ == self.pane_layout_state.spec_visible_panes(),
                forall|j: int| 0 <= j < position ==> visible_panes@[j] != focused_pane,
            decreases visible_panes@.len() - position,
        {
            position = position + 1;
        }
        proof {
            lemma_first_index(visible_panes@, matches);
            self.pane_layout_state.lemma_visible_panes();
            if position < visible_panes@.len() {
                assert(spec_first_index(visible_panes@, matches) == Some(position as int)) by {
                    match spec_first_index(visible_panes@, matches) {
                        Some(first) => {
                            if first < position {
                                assert(visible_panes@[first] != focused_pane);
                            } else if first > position {
                                assert(!matches(visible_panes@[position as int]));
                            }
                        },
                        None => {
                            assert(!matches(visible_panes@[position as int]));
                        },
                    }
                }
            } else {
                assert(spec_first_index(visible_panes@, matches) is None) by {
                    match spec_first_index(visible_panes@, matches) {
                        Some(first) => {
                            assert(visible_panes@[first] != focused_pane);
                        },
                        None => {},
                    }
                }
            }
        }
        let focused_visible_index = if position < visible_panes.len() {
            position
        } else {
            0
        };
        let next_visible_index = if is_forward_direction {
            next_wrapping(Some(focused_visible_index), visible_panes.len())
        } else {
            previous_wrapping(Some(focused_visible_index), visible_panes.len())
        };
        let next_index = match next_visible_index {
            Some(index) => index,
            None => 0,
        };
        let next_pane = visible_panes[next_index];
        proof {
            self.pane_layout_state.lemma_visible_panes();
            assert(self.pane_layout_state.spec_visible_panes().contains(next_pane));
        }
        self.pane_layout_state.focused_pane = next_pane;
    }
}

impl Default for TuiAppState {
    fn default() -> (state: TuiAppState)
        ensures
            state.wf(),
            state.pane_layout_state.focused_pane == TuiPane::ProcessSelector,
            forall|pane: TuiPane| state.pane_layout_state.spec_is_pane_visible(pane),
    {
        TuiAppState {
            pane_layout_state: PaneLayoutState::default(),
            process_selector_pane_state: ProcessSelectorPaneState::default(),
            element_scanner_pane_state: ElementScannerPaneState::default(),
            scan_results_pane_state: ScanResultsPaneState::default(),
            project_explorer_pane_state: ProjectExplorerPaneState::default(),
            struct_viewer_pane_state: StructViewerPaneState::default(),
            output_pane_state: OutputPaneState::default(),
            settings_pane_state: SettingsPaneState::default(),
        }
    }
}

} // verus!

verus! {

/// In a list without repeats, the position of the pane at `position` is `position`.
proof fn lemma_focus_position_of_member(visible_panes: Seq<TuiPane>, position: int)
    requires
        visible_panes.no_duplicates(),
        0 <= position < visible_panes.len(),
    ensures
        spec_focus_position(visible_panes, visible_panes[position]) == position,
{
    let matches = spec_is_pane(visible_panes[position]);
    lemma_first_index(visible_panes, matches);
    match spec_first_index(visible_panes, matches) {
        Some(first) => {
            if first < position {
                assert(matches(visible_panes[first]));
            } else if first > position {
                assert(!matches(visible_panes[position]));
            }
        },
        None => {
            assert(!matches(visible_panes[position]));
        },
    }
}

/// Cycling focus forward and then backward, or backward and then forward, over the same
/// shown panes returns focus to the pane it started on.
pub proof fn lemma_cycle_focus_round_trip(layout: PaneLayoutState)
    requires
        layout.wf(),
    ensures
        spec_cycled_focus(PaneLayoutState { focused_pane: spec_cycled_focus(layout, true), ..layout }, false)
            == layout.focused_pane,
        spec_cycled_focus(PaneLayoutState { focused_pane: spec_cycled_focus(layout, false), ..layout }, true)
            == layout.focused_pane,
{
    let visible_panes = layout.spec_visible_panes();
    layout.lemma_visible_panes();
    assert(visible_panes.contains(layout.focused_pane));
    let position = choose|j: int| 0 <= j < visible_panes.len() && visible_panes[j] == layout.focused_pane;
    lemma_focus_position_of_member(visible_panes, position);
    let count = visible_panes.len();
    crate::selection::lemma_next_then_previous(position as usize, count);
    let forward = spec_next_wrapping(Some(position as usize), count).unwrap() as int;
    let backward = spec_previous_wrapping(Some(position as usize), count).unwrap() as int;
    assert(0 <= forward < count) by {
        vstd::arithmetic::div_mod::lemma_mod_bound((position + 1) as int, count as int);
    }
    lemma_focus_position_of_member(visible_panes, forward);
    lemma_focus_position_of_member(visible_panes, backward);
    let after_forward = PaneLayoutState { focused_pane: spec_cycled_focus(layout, true), ..layout };
    let after_backward = PaneLayoutState { focused_pane: spec_cycled_focus(layout, false), ..layout };
    assert(after_forward.spec_visible_panes() == visible_panes);
    assert(after_backward.spec_visible_panes() == visible_panes);
}

} // verus!
