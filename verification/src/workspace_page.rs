use vstd::prelude::*;
use crate::pane::TuiPane;

verus! {

/// Represents the three full-screen workflow pages in the TUI.
#[derive(Clone, Copy, Debug, PartialEq, Eq, Structural)]
pub enum TuiWorkspacePage {
    ProjectWorkspace,
    ScannerWorkspace,
    SettingsWorkspace,
}

/// The page that a digit key selects: `1` to `3`, in page order.
pub open spec fn spec_workspace_page_from_shortcut_digit(shortcut_digit: char) -> Option<TuiWorkspacePage> {
    if shortcut_digit == '1' {
        Some(TuiWorkspacePage::ProjectWorkspace)
    } else if shortcut_digit == '2' {
        Some(TuiWorkspacePage::ScannerWorkspace)
    } else if shortcut_digit == '3' {
        Some(TuiWorkspacePage::SettingsWorkspace)
    } else {
        None
    }
}

impl TuiWorkspacePage {
    pub open spec fn spec_title(self) -> Seq<char> {
        match self {
            TuiWorkspacePage::ProjectWorkspace => "Project Workspace"@,
            TuiWorkspacePage::ScannerWorkspace => "Scanner Workspace"@,
            TuiWorkspacePage::SettingsWorkspace => "Settings Workspace"@,
        }
    }

    /// The panes a page shows, in drawing order; every page shows the output pane last.
    pub open spec fn spec_visible_panes(self) -> Seq<TuiPane> {
        match self {
            TuiWorkspacePage::ProjectWorkspace => seq![TuiPane::ProcessSelector, TuiPane::ProjectExplorer, TuiPane::Output],
            TuiWorkspacePage::ScannerWorkspace => seq![TuiPane::ElementScanner, TuiPane::ScanResults, TuiPane::Output],
            TuiWorkspacePage::SettingsWorkspace => seq![TuiPane::Settings, TuiPane::Output],
        }
    }

    pub fn from_shortcut_digit(shortcut_digit: char) -> (page: Option<TuiWorkspacePage>)
        ensures
            page == spec_workspace_page_from_shortcut_digit(shortcut_digit),
    {
        match shortcut_digit {
            '1' => Some(TuiWorkspacePage::ProjectWorkspace),
            '2' => Some(TuiWorkspacePage::ScannerWorkspace),
            '3' => Some(TuiWorkspacePage::SettingsWorkspace),
            _ => None,
        }
    }

    pub fn title(self) -> (title: &'static str)
        ensures
            title@ == self.spec_title(),
    {
        match self {
            TuiWorkspacePage::ProjectWorkspace => "Project Workspace",
            TuiWorkspacePage::ScannerWorkspace => "Scanner Workspace",
            TuiWorkspacePage::SettingsWorkspace => "Settings Workspace",
        }
    }

    pub fn visible_panes(self) -> (panes: &'static [TuiPane])
        ensures
            panes@ == self.spec_visible_panes(),
    {
        match self {
            TuiWorkspacePage::ProjectWorkspace => &[TuiPane::ProcessSelector, TuiPane::ProjectExplorer, TuiPane::Output],
            TuiWorkspacePage::ScannerWorkspace => &[TuiPane::ElementScanner, TuiPane::ScanResults, TuiPane::Output],
            TuiWorkspacePage::SettingsWorkspace => &[TuiPane::Settings, TuiPane::Output],
        }
    }
}

impl Default for TuiWorkspacePage {
    fn default() -> (page: TuiWorkspacePage)
        ensures
            page == TuiWorkspacePage::ProjectWorkspace,
    {
        TuiWorkspacePage::ProjectWorkspace
    }
}

} // verus!
