use vstd::prelude::*;
use crate::scan_results::ScanResultRef;
use crate::text::{
    spec_bool_text, spec_decimal, spec_texts, spec_option_text, spec_debug_option_text, debug_option_text, owned, push_bool,
    push_decimal_usize,
};

verus! {

/// Where the struct viewer's focused struct comes from.
#[derive(Clone, Copy, Debug, PartialEq, Eq, Structural)]
pub enum StructViewerSource {
    NoSource,
    ScanResults,
    ProjectItems,
}

/// The value a field shows: its text and the label of the format it is shown in.
pub struct StructFieldDisplayValue {
    pub format_label: String,
    pub value: String,
}

/// A field of the focused struct as the viewer lists it: its name, the markers of its kind
/// and of whether it can be edited, and the value it shows (none for a nested struct).
pub struct StructFieldView {
    pub name: String,
    pub kind_marker: String,
    pub editability_marker: String,
    pub active_display_value: Option<StructFieldDisplayValue>,
}

/// Stores state for viewing and editing selected structures: where the struct comes from,
/// the struct and its fields, the selected field with its edit state and display format,
/// the pending edit, the selected scan results or project items the struct stands for,
/// whether a commit runs, and the status.
pub struct StructViewerPaneState {
    pub source: StructViewerSource,
    pub selected_struct_name: Option<String>,
    pub focused_fields: Option<Vec<StructFieldView>>,
    pub selected_field_position: Option<usize>,
    pub selected_field_name: Option<String>,
    pub selected_field_edit_state: String,
    pub selected_field_display_format: Option<String>,
    pub selected_field_display_format_progress: Option<(usize, usize)>,
    pub pending_edit_text: String,
    pub has_uncommitted_edit: bool,
    pub selected_scan_result_refs: Vec<ScanResultRef>,
    pub selected_project_item_paths: Vec<String>,
    pub is_committing_edit: bool,
    pub status_message: String,
}

impl Default for StructViewerPaneState {
    fn default() -> (state: StructViewerPaneState)
        ensures
            state.source == StructViewerSource::NoSource,
            state.selected_struct_name is None,
            state.focused_fields is None,
            state.selected_field_position is None,
            state.selected_field_name is None,
            state.selected_field_edit_state@.len() == 0,
            state.selected_field_display_format is None,
            state.selected_field_display_format_progress is None,
            state.pending_edit_text@.len() == 0,
            !state.has_uncommitted_edit,
            state.selected_scan_result_refs@.len() == 0,
            state.selected_project_item_paths@.len() == 0,
            !state.is_committing_edit,
            state.status_message@.len() == 0,
    {
        StructViewerPaneState {
            source: StructViewerSource::NoSource,
            selected_struct_name: None,
            focused_fields: None,
            selected_field_position: None,
            selected_field_name: None,
            selected_field_edit_state: String::new(),
            selected_field_display_format: None,
            selected_field_display_format_progress: None,
            pending_edit_text: String::new(),
            has_uncommitted_edit: false,
            selected_scan_result_refs: Vec::new(),
            selected_project_item_paths: Vec::new(),
            is_committing_edit: false,
            status_message: String::new(),
        }
    }
}

/// The number of fields of the focused struct; none without one.
pub open spec fn spec_focused_field_count(state: StructViewerPaneState) -> nat {
    match state.focused_fields {
        Some(fields) => fields@.len(),
        None => 0,
    }
}

/// The `Debug` name of a source.
pub open spec fn spec_source_label(source: StructViewerSource) -> Seq<char> {
    match source {
        StructViewerSource::NoSource => "None"@,
        StructViewerSource::ScanResults => "ScanResults"@,
        StructViewerSource::ProjectItems => "ProjectItems"@,
    }
}

/// The selected field's format position as `index/count`, counting from one, or `0/0`.
pub open spec fn spec_format_progress_text(progress: Option<(usize, usize)>) -> Seq<char> {
    match progress {
        Some((index, count)) => spec_decimal((index + 1) as nat) + "/"@ + spec_decimal(count as nat),
        None => "0/0"@,
    }
}

/// The sixteen lines that head the struct viewer summary.
pub open spec fn spec_struct_viewer_fixed_lines(state: StructViewerPaneState) -> Seq<Seq<char>> {
    seq![
        "Actions: r refresh source, Up/Down or j/k select field, Enter commit field edit."@,
        "Display format: [ previous, ] next. Disabled while an uncommitted edit exists."@,
        "Edit mode: type, Backspace, Ctrl+u clear. Value fields only."@,
        "source="@ + spec_source_label(state.source),
        "selected_struct="@ + spec_debug_option_text(spec_option_text(state.selected_struct_name)),
        "field_count="@ + spec_decimal(spec_focused_field_count(state)),
        "selected_field="@ + spec_debug_option_text(spec_option_text(state.selected_field_name)),
        "selected_field_edit_state="@ + state.selected_field_edit_state@,
        "selected_field_format="@ + match state.selected_field_display_format {
            Some(format) => format@,
            None => "none"@,
        },
        "selected_field_format_index="@ + spec_format_progress_text(state.selected_field_display_format_progress),
        "pending_edit="@ + state.pending_edit_text@,
        "uncommitted_edit="@ + spec_bool_text(state.has_uncommitted_edit),
        "selected_scan_results="@ + spec_decimal(state.selected_scan_result_refs@.len()),
        "selected_project_items="@ + spec_decimal(state.selected_project_item_paths@.len()),
        "committing="@ + spec_bool_text(state.is_committing_edit),
        "status="@ + state.status_message@,
    ]
}

/// The row of field `position`: `>` when it is the selected field, its kind and
/// editability markers, its name, then the format of its value in brackets and the value,
/// or `<nested>` for a field without one.
pub open spec fn spec_field_row(state: StructViewerPaneState, position: int) -> Seq<char> {
    let field = state.focused_fields.unwrap()@[position];
    let marker = if state.selected_field_position == Some(position as usize) {
        ">"@
    } else {
        " "@
    };
    let (format_suffix, value_preview) = match field.active_display_value {
        Some(display_value) => (" ("@ + display_value.format_label@ + ")"@, display_value.value@),
        None => (Seq::empty(), "<nested>"@),
    };
    marker + " ["@ + field.kind_marker@ + "|"@ + field.editability_marker@ + "] "@ + field.name@ + format_suffix + " = "@
        + value_preview
}

/// The number of field rows shown: at most five.
pub open spec fn spec_visible_field_count(state: StructViewerPaneState) -> nat {
    if spec_focused_field_count(state) < 5 {
        spec_focused_field_count(state)
    } else {
        5
    }
}

/// The struct viewer summary: the sixteen fixed lines, then a row for each of the first
/// five fields of the focused struct.
pub open spec fn spec_struct_viewer_summary_lines(state: StructViewerPaneState) -> Seq<Seq<char>> {
    spec_struct_viewer_fixed_lines(state) + Seq::new(spec_visible_field_count(state), |position: int| spec_field_row(state, position))
}

impl StructViewerPaneState {
    pub fn focused_field_count(&self) -> (count: usize)
        ensures
            count == spec_focused_field_count(*self),
    {
        match &self.focused_fields {
            Some(fields) => fields.len(),
            None => 0,
        }
    }

    pub fn summary_lines(&self) -> (summary_lines: Vec<String>)
        requires
            self.selected_field_display_format_progress matches Some((index, _)) ==> index < usize::MAX,
        ensures
            spec_texts(summary_lines@) == spec_struct_viewer_summary_lines(*self),
    {
        build_struct_viewer_summary_lines(self)
    }
}

fn labeled(label: &str, value: &str) -> (line: String)
    ensures
        line@ == label@ + value@,
{
    let mut line = owned(label);
    line.append(value);
    line
}

fn labeled_count(label: &str, value: usize) -> (line: String)
    ensures
        line@ == label@ + spec_decimal(value as nat),
{
    let mut line = owned(label);
    push_decimal_usize(&mut line, value);
    line
}

fn labeled_bool(label: &str, value: bool) -> (line: String)
    ensures
        line@ == label@ + spec_bool_text(value),
{
    let mut line = owned(label);
    push_bool(&mut line, value);
    line
}

fn source_label(source: StructViewerSource) -> (label: &'static str)
    ensures
        label@ == spec_source_label(source),
{
    match source {
        StructViewerSource::NoSource => "None",
        StructViewerSource::ScanResults => "ScanResults",
        StructViewerSource::ProjectItems => "ProjectItems",
    }
}

fn field_row(state: &StructViewerPaneState, fields: &Vec<StructFieldView>, position: usize) -> (row: String)
    requires
        state.focused_fields == Some(*fields),
        position < fields@.len(),
    ensures
        row@ == spec_field_row(*state, position as int),
{
    let field = &fields[position];
    let is_selected = match state.selected_field_position {
        Some(selected) => selected == position,
        None => false,
    };
    let mut row = if is_selected {
        owned(">")
    } else {
        owned(" ")
    };
    row.append(" [");
    row.append(field.kind_marker.as_str());
    row.append("|");
    row.append(field.editability_marker.as_str());
    row.append("] ");
    row.append(field.name.as_str());
    match &field.active_display_value {
        Some(display_value) => {
            row.append(" (");
            row.append(display_value.format_label.as_str());
            row.append(")");
            row.append(" = ");
            row.append(display_value.value.as_str());
        },
        None => {
            row.append(" = ");
            row.append("<nested>");
        },
    }
    proof {
        assert(row@ =~= spec_field_row(*state, position as int));
    }
    row
}

/// Builds the struct viewer summary lines.
pub fn build_struct_viewer_summary_lines(struct_viewer_pane_state: &StructViewerPaneState) -> (summary_lines: Vec<String>)
    requires
        struct_viewer_pane_state.selected_field_display_format_progress matches Some((index, _)) ==> index < usize::MAX,
    ensures
        spec_texts(summary_lines@) == spec_struct_viewer_summary_lines(*struct_viewer_pane_state),
{
    let state = struct_viewer_pane_state;
    let mut summary_lines: Vec<String> = Vec::new();
    summary_lines.push(owned("Actions: r refresh source, Up/Down or j/k select field, Enter commit field edit."));
    summary_lines.push(owned("Display format: [ previous, ] next. Disabled while an uncommitted edit exists."));
    summary_lines.push(owned("Edit mode: type, Backspace, Ctrl+u clear. Value fields only."));
    summary_lines.push(labeled("source=", source_label(state.source)));
    summary_lines.push(labeled("selected_struct=", debug_option_text(&state.selected_struct_name).as_str()));
    summary_lines.push(labeled_count("field_count=", state.focused_field_count()));
    summary_lines.push(labeled("selected_field=", debug_option_text(&state.selected_field_name).as_str()));
    summary_lines.push(labeled("selected_field_edit_state=", state.selected_field_edit_state.as_str()));
    let format_line = match &state.selected_field_display_format {
        Some(format) => labeled("selected_field_format=", format.as_str()),
        None => labeled("selected_field_format=", "none"),
    };
    summary_lines.push(format_line);
    let mut progress_line = owned("selected_field_format_index=");
    match state.selected_field_display_format_progress {
        Some((index, count)) => {
            push_decimal_usize(&mut progress_line, index + 1);
            progress_line.append("/");
            push_decimal_usize(&mut progress_line, count);
        },
        None => progress_line.append("0/0"),
    }
    summary_lines.push(progress_line);
    summary_lines.push(labeled("pending_edit=", state.pending_edit_text.as_str()));
    summary_lines.push(labeled_bool("uncommitted_edit=", state.has_uncommitted_edit));
    summary_lines.push(labeled_count("selected_scan_results=", state.selected_scan_result_refs.len()));
    summary_lines.push(labeled_count("selected_project_items=", state.selected_project_item_paths.len()));
    summary_lines.push(labeled_bool("committing=", state.is_committing_edit));
    summary_lines.push(labeled("status=", state.status_message.as_str()));
    let ghost fixed = spec_struct_viewer_fixed_lines(*state);
    proof {
        assert(spec_texts(summary_lines@).len() == fixed.len());
        assert forall|k: int| 0 <= k < fixed.len() implies spec_texts(summary_lines@)[k] == fixed[k] by {
            assert(spec_texts(summary_lines@)[k] == summary_lines@[k]@);
        }
        assert(spec_texts(summary_lines@) =~= fixed);
    }
    match &state.focused_fields {
        Some(fields) => {
            let visible_count = if fields.len() < 5 {
                fields.len()
            } else {
                5
            };
            let mut position: usize = 0;
            while position < visible_count
                invariant
                    state.focused_fields == Some(*fields),
                    visible_count == spec_visible_field_count(*state),
                    visible_count <= fields@.len(),
                    position <= visible_count,
                    spec_texts(summary_lines@) == fixed + Seq::new(position as nat, |p: int| spec_field_row(*state, p)),
                decreases visible_count - position,
            {
                let row = field_row(state, fields, position);
                let ghost previous_lines = summary_lines@;
                summary_lines.push(row);
                proof {
                    assert(spec_texts(summary_lines@) =~= spec_texts(previous_lines).push(row@));
                    assert(Seq::new((position + 1) as nat, |p: int| spec_field_row(*state, p)) =~= Seq::new(
                        position as nat,
                        |p: int| spec_field_row(*state, p),
                    ).push(spec_field_row(*state, position as int)));
                    assert(spec_texts(summary_lines@) =~= fixed + Seq::new((position + 1) as nat, |p: int| spec_field_row(*state, p)));
                }
                position = position + 1;
            }
        },
        None => {
            proof {
                assert(Seq::new(spec_visible_field_count(*state), |p: int| spec_field_row(*state, p)) =~= Seq::<Seq<char>>::empty());
                assert(fixed + Seq::<Seq<char>>::empty() =~= fixed);
            }
        },
    }
    summary_lines
}

} // verus!
