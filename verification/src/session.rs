use vstd::prelude::*;
use crate::app_state::TuiAppState;
use crate::text::{spec_decimal, push_char, push_decimal, owned, spec_option_text};

verus! {

/// How the engine runs beside the terminal front end.
#[derive(Clone, Copy, Debug, PartialEq, Eq, Structural)]
pub enum EngineMode {
    Standalone,
    UnprivilegedHost,
    PrivilegedShell,
}

pub open spec fn spec_engine_mode_header_text(engine_mode: EngineMode) -> Seq<char> {
    match engine_mode {
        EngineMode::Standalone => "[MODE] Squalr TUI | Standalone."@,
        EngineMode::UnprivilegedHost => "[MODE] Squalr TUI | Unprivileged Host."@,
        EngineMode::PrivilegedShell => "[MODE] Squalr TUI | Privileged Shell."@,
    }
}

/// The first line of the session header: which engine mode runs.
pub fn engine_mode_header_text(engine_mode: EngineMode) -> (text: &'static str)
    ensures
        text@ == spec_engine_mode_header_text(engine_mode),
{
    match engine_mode {
        EngineMode::Standalone => "[MODE] Squalr TUI | Standalone.",
        EngineMode::UnprivilegedHost => "[MODE] Squalr TUI | Unprivileged Host.",
        EngineMode::PrivilegedShell => "[MODE] Squalr TUI | Privileged Shell.",
    }
}

/// The footer line with the navigation keys.
pub fn footer_navigation_controls_line() -> (text: &'static str)
    ensures
        text@ == "[NAV] Tab/Shift+Tab focus | 1-7 jump | Ctrl+1-7 or v toggle | 0 show-all."@,
{
    "[NAV] Tab/Shift+Tab focus | 1-7 jump | Ctrl+1-7 or v toggle | 0 show-all."
}

/// The footer line with the exit keys.
pub fn footer_exit_controls_line() -> (text: &'static str)
    ensures
        text@ == "[EXIT] q / Esc / Ctrl+C."@,
{
    "[EXIT] q / Esc / Ctrl+C."
}

/// A path with back slashes turned into forward slashes.
pub open spec fn spec_normalized_path(path: Seq<char>) -> Seq<char> {
    path.map_values(|character: char| if character == '\\' { '/' } else { character })
}

/// The non-empty parts of a text between forward slashes, in order.
pub open spec fn spec_path_segments(path: Seq<char>) -> Seq<Seq<char>>
    decreases path.len(),
{
    if path.len() == 0 {
        Seq::empty()
    } else {
        let earlier = spec_path_segments(path.drop_last());
        let character = path.last();
        if character == '/' {
            earlier
        } else if path.len() == 1 || path[path.len() - 2] == '/' {
            earlier.push(seq![character])
        } else {
            earlier.update(earlier.len() - 1, earlier.last().push(character))
        }
    }
}

/// A path shortened for the session header: with forward slashes, and, when it has more
/// than two parts, only its last two behind `.../`.
pub open spec fn spec_condensed_path(path: Seq<char>) -> Seq<char> {
    let normalized_path = spec_normalized_path(path);
    let segments = spec_path_segments(normalized_path);
    if segments.len() <= 2 {
        normalized_path
    } else {
        ".../"@ + segments[segments.len() - 2] + "/"@ + segments[segments.len() - 1]
    }
}

/// A text that ends with a character other than `/` yields at least one part.
proof fn lemma_segments_nonempty_when_open(path: Seq<char>)
    requires
        path.len() > 0,
        path.last() != '/',
    ensures
        spec_path_segments(path).len() > 0,
    decreases path.len(),
{
    if path.len() > 1 && path[path.len() - 2] != '/' {
        lemma_segments_nonempty_when_open(path.drop_last());
    }
}

/// Shortens a path for the session header.
pub fn condense_path_for_session(path: &str) -> (condensed: String)
    ensures
        condensed@ == spec_condensed_path(path@),
{
    let length = path.unicode_len();
    let mut normalized_path = String::new();
    let mut segments: Vec<String> = Vec::new();
    let mut position: usize = 0;
    while position < length
        invariant
            position <= length,
            length == path@.len(),
            normalized_path@ == spec_normalized_path(path@.subrange(0, position as int)),
            segments@.map_values(|segment: String| segment@) == spec_path_segments(normalized_path@),
            position > 0 ==> normalized_path@.last() == spec_normalized_path(path@)[position - 1],
            normalized_path@.len() == position,
        decreases length - position,
    {
        let raw_character = path.get_char(position);
        let character = if raw_character == '\\' {
            '/'
        } else {
            raw_character
        };
        let ghost previous_path = normalized_path@;
        let ghost previous_segments = segments@;
        let starts_segment = position == 0 || normalized_path.as_str().get_char(position - 1) == '/';
        push_char(&mut normalized_path, character);
        proof {
            assert(path@.subrange(0, position + 1) =~= path@.subrange(0, position as int).push(path@[position as int]));
            assert(spec_normalized_path(path@.subrange(0, position + 1)) =~= spec_normalized_path(
                path@.subrange(0, position as int),
            ).push(character));
            assert(normalized_path@.drop_last() =~= previous_path);
        }
        if character != '/' {
            if starts_segment {
                let mut segment = String::new();
                push_char(&mut segment, character);
                segments.push(segment);
                proof {
                    assert(segments@.map_values(|segment: String| segment@) =~= previous_segments.map_values(
                        |segment: String| segment@,
                    ).push(seq![character]));
                }
            } else {
                proof {
                    lemma_segments_nonempty_when_open(previous_path);
                }
                let last_position = segments.len() - 1;
                let mut segment = segments.remove(last_position);
                push_char(&mut segment, character);
                segments.push(segment);
                proof {
                    assert(segments@.map_values(|segment: String| segment@) =~= previous_segments.map_values(
                        |segment: String| segment@,
                    ).update(last_position as int, previous_segments[last_position as int]@.push(character)));
                }
            }
        }
        position = position + 1;
    }
    proof {
        assert(path@.subrange(0, length as int) =~= path@);
    }
    let segment_count = segments.len();
    if segment_count <= 2 {
        return normalized_path;
    }
    let mut condensed = owned(".../");
    condensed.append(segments[segment_count - 2].as_str());
    condensed.append("/");
    condensed.append(segments[segment_count - 1].as_str());
    condensed
}

/// The session line about the opened process: its name and identifier, as far as known.
pub open spec fn spec_opened_process_metadata_line(name: Option<Seq<char>>, process_id: Option<u32>) -> Seq<char> {
    match (name, process_id) {
        (Some(process_name), Some(identifier)) => "[PROC] "@ + process_name + " | PID "@ + spec_decimal(identifier as nat) + "."@,
        (Some(process_name), None) => "[PROC] "@ + process_name + "."@,
        (None, Some(identifier)) => "[PROC] PID "@ + spec_decimal(identifier as nat) + "."@,
        (None, None) => "[PROC] none."@,
    }
}

/// The session line about the active project: its name and condensed directory, as far as
/// known.
pub open spec fn spec_active_project_metadata_line(name: Option<Seq<char>>, directory: Option<Seq<char>>) -> Seq<char> {
    match (name, directory) {
        (Some(project_name), Some(path)) => "[PROJ] "@ + project_name + " | "@ + spec_condensed_path(path) + "."@,
        (Some(project_name), None) => "[PROJ] "@ + project_name + "."@,
        (None, Some(path)) => "[PROJ] "@ + spec_condensed_path(path) + "."@,
        (None, None) => "[PROJ] none."@,
    }
}

/// The session header line about the opened process.
pub fn session_opened_process_metadata_line(app_state: &TuiAppState) -> (line: String)
    ensures
        line@ == spec_opened_process_metadata_line(
            spec_option_text(app_state.process_selector_pane_state.opened_process_name),
            app_state.process_selector_pane_state.opened_process_identifier,
        ),
{
    let state = &app_state.process_selector_pane_state;
    match (&state.opened_process_name, state.opened_process_identifier) {
        (Some(process_name), Some(identifier)) => {
            let mut line = owned("[PROC] ");
            line.append(process_name.as_str());
            line.append(" | PID ");
            push_decimal(&mut line, identifier as u64);
            line.append(".");
            line
        },
        (Some(process_name), None) => {
            let mut line = owned("[PROC] ");
            line.append(process_name.as_str());
            line.append(".");
            line
        },
        (None, Some(identifier)) => {
            let mut line = owned("[PROC] PID ");
            push_decimal(&mut line, identifier as u64);
            line.append(".");
            line
        },
        (None, None) => owned("[PROC] none."),
    }
}

/// The session header line about the active project.
pub fn session_active_project_metadata_line(app_state: &TuiAppState) -> (line: String)
    ensures
        line@ == spec_active_project_metadata_line(
            spec_option_text(app_state.project_explorer_pane_state.active_project_name),
            spec_option_text(app_state.project_explorer_pane_state.active_project_directory_path),
        ),
{
    let state = &app_state.project_explorer_pane_state;
    match (&state.active_project_name, &state.active_project_directory_path) {
        (Some(project_name), Some(path)) => {
            let mut line = owned("[PROJ] ");
            line.append(project_name.as_str());
            line.append(" | ");
            line.append(condense_path_for_session(path.as_str()).as_str());
            line.append(".");
            line
        },
        (Some(project_name), None) => {
            let mut line = owned("[PROJ] ");
            line.append(project_name.as_str());
            line.append(".");
            line
        },
        (None, Some(path)) => {
            let mut line = owned("[PROJ] ");
            line.append(condense_path_for_session(path.as_str()).as_str());
            line.append(".");
            line
        },
        (None, None) => owned("[PROJ] none."),
    }
}

} // verus!
