use vstd::prelude::*;
use crate::pane::{TuiPane, PANE_COUNT, spec_all_panes, lemma_pane_index_round_trip};

verus! {

broadcast use vstd::array::group_array_axioms;

/// The panes among the first `count` panes of the focus order whose visibility flag is set,
/// in focus order.
pub open spec fn spec_visible_panes_upto(visibility: Seq<bool>, count: nat) -> Seq<TuiPane>
    decreases count,
{
    if count == 0 {
        seq![]
    } else {
        let earlier = spec_visible_panes_upto(visibility, (count - 1) as nat);
        if visibility[count - 1] {
            earlier.push(spec_all_panes()[count - 1])
        } else {
            earlier
        }
    }
}

/// The members of the visible prefix are exactly the visible panes below `count`, their
/// indices strictly increase, and there are at most `count` of them.
pub proof fn lemma_visible_panes_upto(visibility: Seq<bool>, count: nat)
    requires
        count <= PANE_COUNT,
    ensures
        forall|pane: TuiPane|
            #[trigger] spec_visible_panes_upto(visibility, count).contains(pane) <==> (pane.spec_index()
                < count && visibility[pane.spec_index()]),
        forall|i: int, j: int|
            0 <= i < j < spec_visible_panes_upto(visibility, count).len() ==> (
            #[trigger] spec_visible_panes_upto(visibility, count)[i]).spec_index() < (
            #[trigger] spec_visible_panes_upto(visibility, count)[j]).spec_index(),
        forall|i: int|
            0 <= i < spec_visible_panes_upto(visibility, count).len() ==> (
            #[trigger] spec_visible_panes_upto(visibility, count)[i]).spec_index() < count,
        spec_visible_panes_upto(visibility, count).len() <= count,
        spec_visible_panes_upto(visibility, count).no_duplicates(),
    decreases count,
{
    let visible = spec_visible_panes_upto(visibility, count);
    if count > 0 {
        lemma_visible_panes_upto(visibility, (count - 1) as nat);
        let earlier = spec_visible_panes_upto(visibility, (count - 1) as nat);
        let newest = spec_all_panes()[count - 1];
        assert(newest.spec_index() == count - 1);
        assert forall|pane: TuiPane| visible.contains(pane) <==> (pane.spec_index() < count
            && visibility[pane.spec_index()]) by {
            lemma_pane_index_round_trip(pane);
            if visibility[count - 1] {
                if pane == newest {
                    assert(visible[visible.len() - 1] == pane);
                } else {
                    if earlier.contains(pane) {
                        let k = choose|k: int| 0 <= k < earlier.len() && earlier[k] == pane;
                        assert(visible[k] == pane);
                    }
                    if visible.contains(pane) {
                        let k = choose|k: int| 0 <= k < visible.len() && visible[k] == pane;
                        assert(k < earlier.len());
                        assert(earlier[k] == pane);
                    }
                }
            }
        }
        assert(visible.no_duplicates()) by {
            assert forall|i: int, j: int|
                0 <= i < visible.len() && 0 <= j < visible.len() && i != j implies visible[i]
                != visible[j] by {
                if i < j {
                    assert(visible[i].spec_index() < visible[j].spec_index());
                } else {
                    assert(visible[j].spec_index() < visible[i].spec_index());
                }
            }
        }
    }
}

/// When no pane other than the one at `kept` is visible, at most one pane is visible.
pub proof fn lemma_visible_panes_upto_single(visibility: Seq<bool>, count: nat, kept: int)
    requires
        count <= PANE_COUNT,
        forall|i: int| 0 <= i < count && i != kept ==> !visibility[i],
    ensures
        spec_visible_panes_upto(visibility, count).len() <= 1,
        kept >= count ==> spec_visible_panes_upto(visibility, count).len() == 0,
    decreases count,
{
    if count > 0 {
        lemma_visible_panes_upto_single(visibility, (count - 1) as nat, kept);
    }
}

/// Stores focus and visibility for top-level panes.
#[derive(Clone, Debug)]
pub struct PaneLayoutState {
    pub focused_pane: TuiPane,
    pub pane_visibility: [bool; 7],
}

impl PaneLayoutState {
    /// Whether the pane is shown.
    pub open spec fn spec_is_pane_visible(&self, pane: TuiPane) -> bool {
        self.pane_visibility@[pane.spec_index()]
    }

    /// The shown panes, in focus order.
    pub open spec fn spec_visible_panes(&self) -> Seq<TuiPane> {
        spec_visible_panes_upto(self.pane_visibility@, PANE_COUNT as nat)
    }

    /// The layout invariant: some pane is shown, and the focused pane is one of them.
    pub open spec fn wf(&self) -> bool {
        &&& self.spec_visible_panes().len() >= 1
        &&& self.spec_is_pane_visible(self.focused_pane)
    }

    /// Whether a request to set `pane`'s visibility to `is_visible` would hide the only
    /// visible pane.
    pub open spec fn spec_rejects_visibility(&self, pane: TuiPane, is_visible: bool) -> bool {
        !is_visible && self.spec_visible_panes().len() == 1 && self.spec_is_pane_visible(pane)
    }

    /// Where focus goes after a change of visibility: it stays if the focused pane is still
    /// shown, else it moves to the first shown pane; with no pane shown it stays.
    pub open spec fn spec_focus_after_change(&self, previous_focus: TuiPane) -> TuiPane {
        if self.spec_is_pane_visible(previous_focus) || self.spec_visible_panes().len() == 0 {
            previous_focus
        } else {
            self.spec_visible_panes()[0]
        }
    }

    /// What a request to set `pane`'s visibility to `is_visible` leaves as `after`: the
    /// layout unchanged when the request would hide the only shown pane; otherwise the flag
    /// set, and focus kept if still shown, else moved to the first shown pane.
    pub open spec fn spec_visibility_result(&self, after: PaneLayoutState, pane: TuiPane, is_visible: bool) -> bool {
        if self.spec_rejects_visibility(pane, is_visible) {
            after == *self
        } else {
            &&& after.pane_visibility@ == self.pane_visibility@.update(pane.spec_index(), is_visible)
            &&& after.focused_pane == after.spec_focus_after_change(self.focused_pane)
        }
    }

    /// Facts about the shown panes: membership, order, and no repetition.
    pub proof fn lemma_visible_panes(&self)
        ensures
            forall|pane: TuiPane|
                #[trigger] self.spec_visible_panes().contains(pane) <==> self.spec_is_pane_visible(
                    pane,
                ),
            forall|i: int, j: int|
                0 <= i < j < self.spec_visible_panes().len() ==> (
                #[trigger] self.spec_visible_panes()[i]).spec_index() < (
                #[trigger] self.spec_visible_panes()[j]).spec_index(),
            self.spec_visible_panes().len() <= PANE_COUNT,
            self.spec_visible_panes().no_duplicates(),
    {
        lemma_visible_panes_upto(self.pane_visibility@, PANE_COUNT as nat);
    }

    pub fn is_pane_visible(&self, pane: TuiPane) -> (is_visible: bool)
        ensures
            is_visible == self.spec_is_pane_visible(pane),
    {
        self.pane_visibility[pane.to_index()]
    }

    pub fn visible_panes_in_order(&self) -> (panes: Vec<TuiPane>)
        ensures
            panes@ == self.spec_visible_panes(),
    {
        let all_panes = TuiPane::all_panes();
        let mut panes: Vec<TuiPane> = Vec::new();
        let mut position: usize = 0;
        while position < PANE_COUNT
            invariant
                position <= PANE_COUNT,
                all_panes@ == spec_all_panes(),
                panes@ == spec_visible_panes_upto(self.pane_visibility@, position as nat),
            decreases PANE_COUNT - position,
        {
            let pane = all_panes[position];
            proof {
                lemma_pane_index_round_trip(pane);
            }
            if self.is_pane_visible(pane) {
                panes.push(pane);
            }
            position = position + 1;
        }
        panes
    }

    pub fn visible_pane_count(&self) -> (count: usize)
        ensures
            count == self.spec_visible_panes().len(),
    {
        self.visible_panes_in_order().len()
    }

    pub fn show_all_panes(&mut self)
        ensures
            final(self).focused_pane == old(self).focused_pane,
            forall|pane: TuiPane| final(self).spec_is_pane_visible(pane),
            final(self).wf(),
    {
        self.pane_visibility = [true; 7];
        proof {
            lemma_pane_index_round_trip(self.focused_pane);
            let current = *self;
            assert(current.pane_visibility@[current.focused_pane.spec_index()]);
            current.lemma_visible_panes();
            assert(current.spec_visible_panes().contains(current.focused_pane));
            assert forall|pane: TuiPane| current.spec_is_pane_visible(pane) by {
                lemma_pane_index_round_trip(pane);
            }
        }
    }

    /// Sets whether a pane is shown. Hiding the only shown pane is refused, leaving the
    /// layout as it was and returning `false`; otherwise the flag is set, focus moves to the
    /// first shown pane if the focused pane became hidden, and `true` is returned.
    pub fn set_pane_visibility(&mut self, pane: TuiPane, is_visible: bool) -> (accepted: bool)
        ensures
            accepted == !old(self).spec_rejects_visibility(pane, is_visible),
            !accepted ==> *final(self) == *old(self),
            accepted ==> final(self).pane_visibility@ == old(self).pane_visibility@.update(
                pane.spec_index(),
                is_visible,
            ),
            accepted ==> final(self).focused_pane == final(self).spec_focus_after_change(
                old(self).focused_pane,
            ),
            old(self).wf() ==> final(self).wf(),
            is_visible ==> final(self).wf(),
            final(self).spec_is_pane_visible(pane) == (is_visible || !accepted),
            old(self).spec_visibility_result(*final(self), pane, is_visible),
    {
        proof {
            self.lemma_visible_panes();
            lemma_pane_index_round_trip(pane);
        }
        if !is_visible && self.visible_pane_count() == 1 && self.is_pane_visible(pane) {
            return false;
        }
        let ghost before = *self;
        let index = pane.to_index();
        self.pane_visibility[index] = is_visible;
        proof {
            assert(self.pane_visibility@ == before.pane_visibility@.update(index as int, is_visible));
            self.lemma_visible_panes();
            lemma_pane_index_round_trip(before.focused_pane);
            // Some pane stays visible when one was shown and focused before, or when the pane
            // is shown now.
            if is_visible {
                assert(self.spec_is_pane_visible(pane));
                assert(self.spec_visible_panes().contains(pane));
            } else if !before.wf() {
            } else if !before.spec_is_pane_visible(pane) {
                let first = before.spec_visible_panes()[0];
                before.lemma_visible_panes();
                assert(before.spec_visible_panes().contains(first));
                lemma_pane_index_round_trip(first);
                assert(first != pane);
                crate::pane::lemma_pane_index_injective(first, pane);
                assert(before.spec_is_pane_visible(first));
                assert(first.spec_index() != index);
                assert(self.pane_visibility@[first.spec_index()] == before.pane_visibility@[first.spec_index()]);
                assert(self.spec_is_pane_visible(first));
                assert(self.spec_visible_panes().contains(first));
            } else {
                before.lemma_visible_panes();
                if forall|i: int| 0 <= i < PANE_COUNT && i != index ==> !before.pane_visibility@[i] {
                    lemma_visible_panes_upto_single(before.pane_visibility@, PANE_COUNT as nat, index as int);
                    assert(false);
                }
                let other = choose|i: int| 0 <= i < PANE_COUNT && i != index && before.pane_visibility@[i];
                let other_pane = spec_all_panes()[other];
                lemma_pane_index_round_trip(other_pane);
                assert(other_pane.spec_index() == other) by {
                    assert(spec_all_panes()[other_pane.spec_index()] == other_pane);
                    crate::pane::lemma_pane_index_injective(other_pane, spec_all_panes()[other]);
                };
                assert(self.spec_is_pane_visible(other_pane));
                assert(self.spec_visible_panes().contains(other_pane));
            }
            assert(before.wf() || is_visible ==> self.spec_visible_panes().len() >= 1);
        }
        if !self.is_pane_visible(self.focused_pane) {
            let visible_panes = self.visible_panes_in_order();
            if visible_panes.len() > 0 {
                self.focused_pane = visible_panes[0];
                proof {
                    assert(self.spec_visible_panes().contains(visible_panes@[0]));
                }
            }
        }
        true
    }

    /// Flips whether a pane is shown, with the rules of `set_pane_visibility`.
    pub fn toggle_pane_visibility(&mut self, pane: TuiPane) -> (accepted: bool)
        ensures
            accepted == !old(self).spec_rejects_visibility(pane, !old(self).spec_is_pane_visible(pane)),
            !accepted ==> *final(self) == *old(self),
            accepted ==> final(self).pane_visibility@ == old(self).pane_visibility@.update(
                pane.spec_index(),
                !old(self).spec_is_pane_visible(pane),
            ),
            accepted ==> final(self).focused_pane == final(self).spec_focus_after_change(
                old(self).focused_pane,
            ),
            old(self).wf() ==> final(self).wf(),
            old(self).spec_visibility_result(*final(self), pane, !old(self).spec_is_pane_visible(pane)),
    {
        let next_visibility = !self.is_pane_visible(pane);
        self.set_pane_visibility(pane, next_visibility)
    }
}

impl Default for PaneLayoutState {
    fn default() -> (layout: PaneLayoutState)
        ensures
            layout.focused_pane == TuiPane::ProcessSelector,
            forall|pane: TuiPane| layout.spec_is_pane_visible(pane),
            layout.wf(),
    {
        let layout = PaneLayoutState { focused_pane: TuiPane::ProcessSelector, pane_visibility: [true; 7] };
        proof {
            assert(layout.pane_visibility@[0]);
            assert(layout.spec_is_pane_visible(TuiPane::ProcessSelector));
            layout.lemma_visible_panes();
            assert(layout.spec_visible_panes().contains(TuiPane::ProcessSelector));
        }
        layout
    }
}

} // verus!
