use vstd::prelude::*;
use crate::pane::TuiPane;
use crate::pane_entry_row::PaneEntryRowTone;

verus! {

/// A 24-bit terminal color.
#[derive(Clone, Copy, Debug, PartialEq, Eq, Structural)]
pub struct Rgb {
    pub red: u8,
    pub green: u8,
    pub blue: u8,
}

/// How text is drawn: its colors, where set, and whether it is bold.
#[derive(Clone, Copy, Debug, PartialEq, Eq, Structural)]
pub struct TextStyle {
    pub foreground: Option<Rgb>,
    pub background: Option<Rgb>,
    pub is_bold: bool,
}

/// How a bordered block is drawn: its title, its border and its body.
#[derive(Clone, Copy, Debug, PartialEq, Eq, Structural)]
pub struct BlockStyle {
    pub title_style: Option<TextStyle>,
    pub border_color: Rgb,
    pub body_style: TextStyle,
}

/// The color palette of the terminal front end.
pub struct TuiTheme;

pub open spec fn rgb(red: u8, green: u8, blue: u8) -> Rgb {
    Rgb { red, green, blue }
}

pub open spec fn spec_foreground(color: Rgb) -> TextStyle {
    TextStyle { foreground: Some(color), background: None, is_bold: false }
}

pub open spec fn spec_colored(foreground: Rgb, background: Rgb) -> TextStyle {
    TextStyle { foreground: Some(foreground), background: Some(background), is_bold: false }
}

pub open spec fn spec_bold_foreground(color: Rgb) -> TextStyle {
    TextStyle { foreground: Some(color), background: None, is_bold: true }
}

/// The channel-wise average of two colors, rounded down.
pub open spec fn spec_mix_color(left_color: Rgb, right_color: Rgb) -> Rgb {
    Rgb {
        red: ((left_color.red + right_color.red) / 2) as u8,
        green: ((left_color.green + right_color.green) / 2) as u8,
        blue: ((left_color.blue + right_color.blue) / 2) as u8,
    }
}

/// The color that marks a pane.
pub open spec fn spec_pane_accent_color(pane: TuiPane) -> Rgb {
    match pane {
        TuiPane::ProcessSelector => rgb(56, 189, 248),
        TuiPane::ElementScanner => rgb(34, 197, 94),
        TuiPane::ScanResults => rgb(245, 158, 11),
        TuiPane::ProjectExplorer => rgb(99, 102, 241),
        TuiPane::StructViewer => rgb(236, 72, 153),
        TuiPane::Output => rgb(20, 184, 166),
        TuiPane::Settings => rgb(168, 85, 247),
    }
}

/// A pane's frame: in its accent color when focused, with the body tinted towards it;
/// otherwise the accent mixed with slate, on the plain pane background.
pub open spec fn spec_pane_block(pane: TuiPane, is_focused: bool) -> BlockStyle {
    let accent_color = spec_pane_accent_color(pane);
    let pane_background = rgb(18, 24, 32);
    BlockStyle {
        title_style: Some(
            if is_focused {
                spec_bold_foreground(accent_color)
            } else {
                spec_foreground(rgb(186, 199, 214))
            },
        ),
        border_color: if is_focused {
            accent_color
        } else {
            spec_mix_color(accent_color, rgb(71, 85, 105))
        },
        body_style: spec_colored(
            rgb(214, 222, 235),
            if is_focused {
                spec_mix_color(pane_background, accent_color)
            } else {
                pane_background
            },
        ),
    }
}

fn color(red: u8, green: u8, blue: u8) -> (color: Rgb)
    ensures
        color == rgb(red, green, blue),
{
    Rgb { red, green, blue }
}

fn foreground(color: Rgb) -> (style: TextStyle)
    ensures
        style == spec_foreground(color),
{
    TextStyle { foreground: Some(color), background: None, is_bold: false }
}

fn bold_foreground(color: Rgb) -> (style: TextStyle)
    ensures
        style == spec_bold_foreground(color),
{
    TextStyle { foreground: Some(color), background: None, is_bold: true }
}

fn colored(foreground: Rgb, background: Rgb) -> (style: TextStyle)
    ensures
        style == spec_colored(foreground, background),
{
    TextStyle { foreground: Some(foreground), background: Some(background), is_bold: false }
}

impl TuiTheme {
    pub fn app_background_style() -> (style: TextStyle)
        ensures
            style == spec_colored(rgb(226, 232, 240), rgb(14, 18, 24)),
    {
        colored(color(226, 232, 240), color(14, 18, 24))
    }

    pub fn panel_text_style() -> (style: TextStyle)
        ensures
            style == spec_foreground(rgb(214, 222, 235)),
    {
        foreground(color(214, 222, 235))
    }

    pub fn status_text_style() -> (style: TextStyle)
        ensures
            style == spec_foreground(rgb(148, 163, 184)),
    {
        foreground(color(148, 163, 184))
    }

    /// The marker of a row: bold sky blue when selected, teal when normal, slate when disabled.
    pub fn pane_entry_marker_style(pane_entry_row_tone: PaneEntryRowTone) -> (style: TextStyle)
        ensures
            style == match pane_entry_row_tone {
                PaneEntryRowTone::Selected => spec_bold_foreground(rgb(125, 211, 252)),
                PaneEntryRowTone::Normal => spec_foreground(rgb(94, 234, 212)),
                PaneEntryRowTone::Disabled => spec_foreground(rgb(100, 116, 139)),
            },
    {
        match pane_entry_row_tone {
            PaneEntryRowTone::Selected => bold_foreground(color(125, 211, 252)),
            PaneEntryRowTone::Normal => foreground(color(94, 234, 212)),
            PaneEntryRowTone::Disabled => foreground(color(100, 116, 139)),
        }
    }

    /// The main text of a row: bold near-white when selected, light grey when normal,
    /// slate when disabled.
    pub fn pane_entry_primary_style(pane_entry_row_tone: PaneEntryRowTone) -> (style: TextStyle)
        ensures
            style == match pane_entry_row_tone {
                PaneEntryRowTone::Selected => spec_bold_foreground(rgb(241, 245, 249)),
                PaneEntryRowTone::Normal => spec_foreground(rgb(214, 222, 235)),
                PaneEntryRowTone::Disabled => spec_foreground(rgb(148, 163, 184)),
            },
    {
        match pane_entry_row_tone {
            PaneEntryRowTone::Selected => bold_foreground(color(241, 245, 249)),
            PaneEntryRowTone::Normal => foreground(color(214, 222, 235)),
            PaneEntryRowTone::Disabled => foreground(color(148, 163, 184)),
        }
    }

    /// The detail text of a row.
    pub fn pane_entry_secondary_style(pane_entry_row_tone: PaneEntryRowTone) -> (style: TextStyle)
        ensures
            style == match pane_entry_row_tone {
                PaneEntryRowTone::Selected => spec_foreground(rgb(191, 219, 254)),
                PaneEntryRowTone::Normal => spec_foreground(rgb(148, 163, 184)),
                PaneEntryRowTone::Disabled => spec_foreground(rgb(100, 116, 139)),
            },
    {
        match pane_entry_row_tone {
            PaneEntryRowTone::Selected => foreground(color(191, 219, 254)),
            PaneEntryRowTone::Normal => foreground(color(148, 163, 184)),
            PaneEntryRowTone::Disabled => foreground(color(100, 116, 139)),
        }
    }

    /// The frame of the session header.
    pub fn session_block() -> (style: BlockStyle)
        ensures
            style == (BlockStyle {
                title_style: None,
                border_color: rgb(100, 116, 139),
                body_style: spec_colored(rgb(226, 232, 240), rgb(20, 26, 34)),
            }),
    {
        BlockStyle { title_style: None, border_color: color(100, 116, 139), body_style: colored(color(226, 232, 240), color(20, 26, 34)) }
    }

    /// The frame of the controls footer.
    pub fn controls_block() -> (style: BlockStyle)
        ensures
            style == (BlockStyle {
                title_style: None,
                border_color: rgb(71, 85, 105),
                body_style: spec_colored(rgb(184, 202, 222), rgb(18, 23, 31)),
            }),
    {
        BlockStyle { title_style: None, border_color: color(71, 85, 105), body_style: colored(color(184, 202, 222), color(18, 23, 31)) }
    }

    /// The frame of a pane.
    pub fn pane_block(pane: TuiPane, is_focused: bool) -> (style: BlockStyle)
        ensures
            style == spec_pane_block(pane, is_focused),
    {
        let accent_color = Self::pane_accent_color(pane);
        let unfocused_border_color = Self::mix_color(accent_color, color(71, 85, 105));
        let border_color = if is_focused {
            accent_color
        } else {
            unfocused_border_color
        };
        let background_color = if is_focused {
            Self::mix_color(color(18, 24, 32), accent_color)
        } else {
            color(18, 24, 32)
        };
        let title_style = if is_focused {
            bold_foreground(accent_color)
        } else {
            foreground(color(186, 199, 214))
        };
        BlockStyle {
            title_style: Some(title_style),
            border_color,
            body_style: colored(color(214, 222, 235), background_color),
        }
    }

    pub fn pane_accent_color(pane: TuiPane) -> (accent: Rgb)
        ensures
            accent == spec_pane_accent_color(pane),
    {
        match pane {
            TuiPane::ProcessSelector => color(56, 189, 248),
            TuiPane::ElementScanner => color(34, 197, 94),
            TuiPane::ScanResults => color(245, 158, 11),
            TuiPane::ProjectExplorer => color(99, 102, 241),
            TuiPane::StructViewer => color(236, 72, 153),
            TuiPane::Output => color(20, 184, 166),
            TuiPane::Settings => color(168, 85, 247),
        }
    }

    /// The channel-wise average of two colors, rounded down.
    pub fn mix_color(left_color: Rgb, right_color: Rgb) -> (mixed: Rgb)
        ensures
            mixed == spec_mix_color(left_color, right_color),
    {
        Rgb {
            red: ((left_color.red as u16 + right_color.red as u16) / 2) as u8,
            green: ((left_color.green as u16 + right_color.green as u16) / 2) as u8,
            blue: ((left_color.blue as u16 + right_color.blue as u16) / 2) as u8,
        }
    }
}

} // verus!
