use vstd::prelude::*;

verus! {

/// Enumerates all top-level panes in keyboard focus order.
#[derive(Clone, Copy, Debug, PartialEq, Eq, Structural)]
pub enum TuiPane {
    ProcessSelector,
    ElementScanner,
    ScanResults,
    ProjectExplorer,
    StructViewer,
    Output,
    Settings,
}

/// Number of top-level panes.
pub const PANE_COUNT: usize = 7;

impl TuiPane {
    /// Position of the pane in keyboard focus order.
    pub open spec fn spec_index(self) -> int {
        match self {
            TuiPane::ProcessSelector => 0,
            TuiPane::ElementScanner => 1,
            TuiPane::ScanResults => 2,
            TuiPane::ProjectExplorer => 3,
            TuiPane::StructViewer => 4,
            TuiPane::Output => 5,
            TuiPane::Settings => 6,
        }
    }

    /// The digit key that jumps to the pane.
    pub open spec fn spec_shortcut_digit(self) -> char {
        match self {
            TuiPane::ProcessSelector => '1',
            TuiPane::ElementScanner => '2',
            TuiPane::ScanResults => '3',
            TuiPane::ProjectExplorer => '4',
            TuiPane::StructViewer => '5',
            TuiPane::Output => '6',
            TuiPane::Settings => '7',
        }
    }

    /// The pane's title text.
    pub open spec fn spec_title(self) -> Seq<char> {
        match self {
            TuiPane::ProcessSelector => "Process Selector"@,
            TuiPane::ElementScanner => "Element Scanner"@,
            TuiPane::ScanResults => "Scan Results"@,
            TuiPane::ProjectExplorer => "Project Explorer"@,
            TuiPane::StructViewer => "Struct Viewer"@,
            TuiPane::Output => "Output"@,
            TuiPane::Settings => "Settings"@,
        }
    }

    /// The relative layout height of the pane inside its column.
    pub open spec fn spec_base_layout_weight(self) -> u16 {
        match self {
            TuiPane::ProcessSelector => 3,
            TuiPane::ProjectExplorer => 5,
            TuiPane::Settings => 2,
            TuiPane::ElementScanner => 4,
            TuiPane::ScanResults => 6,
            TuiPane::StructViewer => 5,
            TuiPane::Output => 3,
        }
    }
}

/// All panes in focus order.
pub open spec fn spec_all_panes() -> Seq<TuiPane> {
    seq![
        TuiPane::ProcessSelector,
        TuiPane::ElementScanner,
        TuiPane::ScanResults,
        TuiPane::ProjectExplorer,
        TuiPane::StructViewer,
        TuiPane::Output,
        TuiPane::Settings,
    ]
}

/// The pane whose shortcut is the given digit, if any.
pub open spec fn spec_pane_from_shortcut_digit(shortcut_digit: char) -> Option<TuiPane> {
    if shortcut_digit == '1' {
        Some(TuiPane::ProcessSelector)
    } else if shortcut_digit == '2' {
        Some(TuiPane::ElementScanner)
    } else if shortcut_digit == '3' {
        Some(TuiPane::ScanResults)
    } else if shortcut_digit == '4' {
        Some(TuiPane::ProjectExplorer)
    } else if shortcut_digit == '5' {
        Some(TuiPane::StructViewer)
    } else if shortcut_digit == '6' {
        Some(TuiPane::Output)
    } else if shortcut_digit == '7' {
        Some(TuiPane::Settings)
    } else {
        None
    }
}

impl TuiPane {
    pub fn all_panes() -> (panes: [TuiPane; 7])
        ensures
            panes@ == spec_all_panes(),
    {
        let panes = [
            TuiPane::ProcessSelector,
            TuiPane::ElementScanner,
            TuiPane::ScanResults,
            TuiPane::ProjectExplorer,
            TuiPane::StructViewer,
            TuiPane::Output,
            TuiPane::Settings,
        ];
        assert(panes@ =~= spec_all_panes());
        panes
    }

    pub fn title(self) -> (title: &'static str)
        ensures
            title@ == self.spec_title(),
    {
        match self {
            TuiPane::ProcessSelector => "Process Selector",
            TuiPane::ElementScanner => "Element Scanner",
            TuiPane::ScanResults => "Scan Results",
            TuiPane::ProjectExplorer => "Project Explorer",
            TuiPane::StructViewer => "Struct Viewer",
            TuiPane::Output => "Output",
            TuiPane::Settings => "Settings",
        }
    }

    pub fn shortcut_digit(self) -> (digit: char)
        ensures
            digit == self.spec_shortcut_digit(),
    {
        match self {
            TuiPane::ProcessSelector => '1',
            TuiPane::ElementScanner => '2',
            TuiPane::ScanResults => '3',
            TuiPane::ProjectExplorer => '4',
            TuiPane::StructViewer => '5',
            TuiPane::Output => '6',
            TuiPane::Settings => '7',
        }
    }

    pub fn from_shortcut_digit(shortcut_digit: char) -> (pane: Option<TuiPane>)
        ensures
            pane == spec_pane_from_shortcut_digit(shortcut_digit),
    {
        match shortcut_digit {
            '1' => Some(TuiPane::ProcessSelector),
            '2' => Some(TuiPane::ElementScanner),
            '3' => Some(TuiPane::ScanResults),
            '4' => Some(TuiPane::ProjectExplorer),
            '5' => Some(TuiPane::StructViewer),
            '6' => Some(TuiPane::Output),
            '7' => Some(TuiPane::Settings),
            _ => None,
        }
    }

    pub fn to_index(self) -> (index: usize)
        ensures
            index == self.spec_index(),
            index < PANE_COUNT,
    {
        match self {
            TuiPane::ProcessSelector => 0,
            TuiPane::ElementScanner => 1,
            TuiPane::ScanResults => 2,
            TuiPane::ProjectExplorer => 3,
            TuiPane::StructViewer => 4,
            TuiPane::Output => 5,
            TuiPane::Settings => 6,
        }
    }

    /// The relative layout height of the pane inside its column.
    pub fn base_layout_weight(self) -> (weight: u16)
        ensures
            weight == self.spec_base_layout_weight(),
    {
        match self {
            TuiPane::ProcessSelector => 3,
            TuiPane::ProjectExplorer => 5,
            TuiPane::Settings => 2,
            TuiPane::ElementScanner => 4,
            TuiPane::ScanResults => 6,
            TuiPane::StructViewer => 5,
            TuiPane::Output => 3,
        }
    }
}

impl Default for TuiPane {
    fn default() -> (pane: TuiPane)
        ensures
            pane == TuiPane::ProcessSelector,
    {
        TuiPane::ProcessSelector
    }
}

/// Every pane sits at its own index of the focus order, so the index is a bijection
/// between panes and the positions of `spec_all_panes()`.
pub proof fn lemma_pane_index_round_trip(pane: TuiPane)
    ensures
        0 <= pane.spec_index() < PANE_COUNT,
        spec_all_panes()[pane.spec_index()] == pane,
        spec_all_panes().len() == PANE_COUNT,
{
}

/// Distinct panes have distinct indices.
pub proof fn lemma_pane_index_injective(left: TuiPane, right: TuiPane)
    ensures
        left.spec_index() == right.spec_index() <==> left == right,
{
}

/// The shortcut digit of a pane leads back to the pane, and a digit that names a pane is
/// that pane's shortcut.
pub proof fn lemma_shortcut_digit_round_trip(pane: TuiPane, shortcut_digit: char)
    ensures
        spec_pane_from_shortcut_digit(pane.spec_shortcut_digit()) == Some(pane),
        spec_pane_from_shortcut_digit(shortcut_digit) == Some(pane) ==> pane.spec_shortcut_digit()
            == shortcut_digit,
{
}

/// Extra layout weight given to the focused pane.
pub const FOCUSED_PANE_WEIGHT_BOOST: u16 = 2;

/// The layout weight of `pane` when `focused_pane` holds focus.
pub open spec fn spec_pane_layout_weight(pane: TuiPane, focused_pane: TuiPane) -> int {
    pane.spec_base_layout_weight() + if pane == focused_pane {
        FOCUSED_PANE_WEIGHT_BOOST as int
    } else {
        0
    }
}

/// Layout weights of a column of panes: each pane's base weight, raised for the focused one.
pub fn pane_layout_weights(panes: &[TuiPane], focused_pane: TuiPane) -> (weights: Vec<u16>)
    ensures
        weights@.len() == panes@.len(),
        forall|i: int|
            0 <= i < panes@.len() ==> weights@[i] as int == spec_pane_layout_weight(
                #[trigger] panes@[i],
                focused_pane,
            ),
{
    let mut weights: Vec<u16> = Vec::new();
    let mut position: usize = 0;
    while position < panes.len()
        invariant
            position <= panes@.len(),
            weights@.len() == position,
            forall|i: int|
                0 <= i < position ==> weights@[i] as int == spec_pane_layout_weight(
                    #[trigger] panes@[i],
                    focused_pane,
                ),
        decreases panes@.len() - position,
    {
        let pane = panes[position];
        let mut pane_weight = pane.base_layout_weight();
        if pane == focused_pane {
            pane_weight = pane_weight + FOCUSED_PANE_WEIGHT_BOOST;
        }
        weights.push(pane_weight);
        position = position + 1;
    }
    weights
}

} // verus!
