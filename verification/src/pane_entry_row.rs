use vstd::prelude::*;
use crate::text::spec_option_text;

verus! {

/// How an entry row is emphasised when drawn.
#[derive(Clone, Copy, Debug, PartialEq, Eq, Structural)]
pub enum PaneEntryRowTone {
    Selected,
    Normal,
    Disabled,
}

/// One list row drawn under a pane's summary: a short marker, the main text, and optional
/// detail text.
#[derive(Debug)]
pub struct PaneEntryRow {
    pub tone: PaneEntryRowTone,
    pub marker_text: String,
    pub primary_text: String,
    pub secondary_text: Option<String>,
}

/// The plain contents of an entry row.
pub struct PaneEntryRowView {
    pub tone: PaneEntryRowTone,
    pub marker_text: Seq<char>,
    pub primary_text: Seq<char>,
    pub secondary_text: Option<Seq<char>>,
}

impl View for PaneEntryRow {
    type V = PaneEntryRowView;

    open spec fn view(&self) -> PaneEntryRowView {
        PaneEntryRowView {
            tone: self.tone,
            marker_text: self.marker_text@,
            primary_text: self.primary_text@,
            secondary_text: spec_option_text(self.secondary_text),
        }
    }
}

impl PaneEntryRow {
    pub fn new(
        tone: PaneEntryRowTone,
        marker_text: String,
        primary_text: String,
        secondary_text: Option<String>,
    ) -> (row: PaneEntryRow)
        ensures
            row.tone == tone,
            row.marker_text == marker_text,
            row.primary_text == primary_text,
            row.secondary_text == secondary_text,
    {
        PaneEntryRow { tone, marker_text, primary_text, secondary_text }
    }

    pub fn selected(marker_text: String, primary_text: String, secondary_text: Option<String>) -> (row: PaneEntryRow)
        ensures
            row.tone == PaneEntryRowTone::Selected,
            row.marker_text == marker_text,
            row.primary_text == primary_text,
            row.secondary_text == secondary_text,
    {
        PaneEntryRow { tone: PaneEntryRowTone::Selected, marker_text, primary_text, secondary_text }
    }

    pub fn normal(marker_text: String, primary_text: String, secondary_text: Option<String>) -> (row: PaneEntryRow)
        ensures
            row.tone == PaneEntryRowTone::Normal,
            row.marker_text == marker_text,
            row.primary_text == primary_text,
            row.secondary_text == secondary_text,
    {
        PaneEntryRow { tone: PaneEntryRowTone::Normal, marker_text, primary_text, secondary_text }
    }

    pub fn disabled(marker_text: String, primary_text: String, secondary_text: Option<String>) -> (row: PaneEntryRow)
        ensures
            row.tone == PaneEntryRowTone::Disabled,
            row.marker_text == marker_text,
            row.primary_text == primary_text,
            row.secondary_text == secondary_text,
    {
        PaneEntryRow { tone: PaneEntryRowTone::Disabled, marker_text, primary_text, secondary_text }
    }
}

} // verus!
