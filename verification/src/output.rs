use vstd::prelude::*;
use crate::text::{
    spec_decimal, spec_bool_text, spec_texts, push_decimal_usize, push_bool, owned, lemma_texts_push,
    lemma_map_values_push,
};

verus! {

/// Severity of a log event.
#[derive(Clone, Copy, Debug, PartialEq, Eq, Structural)]
pub enum LogLevel {
    Error,
    Warn,
    Info,
    Debug,
    Trace,
}

/// Name of a log level as the log's text shows it.
pub open spec fn spec_log_level_text(level: LogLevel) -> Seq<char> {
    match level {
        LogLevel::Error => "ERROR"@,
        LogLevel::Warn => "WARN"@,
        LogLevel::Info => "INFO"@,
        LogLevel::Debug => "DEBUG"@,
        LogLevel::Trace => "TRACE"@,
    }
}

pub fn log_level_text(level: LogLevel) -> (text: &'static str)
    ensures
        text@ == spec_log_level_text(level),
{
    match level {
        LogLevel::Error => "ERROR",
        LogLevel::Warn => "WARN",
        LogLevel::Info => "INFO",
        LogLevel::Debug => "DEBUG",
        LogLevel::Trace => "TRACE",
    }
}

/// One entry of the engine's log history.
pub struct LogEvent {
    pub level: LogLevel,
    pub message: String,
}

/// The output line for a log event: `[LEVEL] message`.
pub open spec fn spec_log_line(event: LogEvent) -> Seq<char> {
    "["@ + spec_log_level_text(event.level) + "] "@ + event.message@
}

/// An output line names its own event: two events give the same line only when they have
/// the same level and the same message, so no level is shown as another; and an error is
/// shown as `[ERROR] message`.
pub proof fn lemma_log_lines_name_their_event(first: LogEvent, second: LogEvent)
    ensures
        spec_log_line(first) == spec_log_line(second) ==> first.level == second.level && first.message@ == second.message@,
        first.level == LogLevel::Error ==> spec_log_line(first) == "[ERROR] "@ + first.message@,
{
    reveal_strlit("[");
    reveal_strlit("] ");
    reveal_strlit("[ERROR] ");
    reveal_strlit("ERROR");
    reveal_strlit("WARN");
    reveal_strlit("INFO");
    reveal_strlit("DEBUG");
    reveal_strlit("TRACE");
    let first_line = spec_log_line(first);
    let second_line = spec_log_line(second);
    let first_level = spec_log_level_text(first.level);
    let second_level = spec_log_level_text(second.level);
    assert(first_line[1] == first_level[0]);
    assert(second_line[1] == second_level[0]);
    if first_line == second_line {
        assert(first.level == second.level);
        let prefix_length = (1 + first_level.len() + 2) as int;
        assert(first_line.skip(prefix_length) =~= first.message@);
        assert(second_line.skip(prefix_length) =~= second.message@);
    }
    if first.level == LogLevel::Error {
        assert(first_line =~= "[ERROR] "@ + first.message@);
    }
}

/// The last `max_line_count` lines, or all of them when there are no more than that.
pub open spec fn spec_keep_latest<T>(lines: Seq<T>, max_line_count: nat) -> Seq<T> {
    if lines.len() <= max_line_count {
        lines
    } else {
        lines.subrange(lines.len() - max_line_count, lines.len() as int)
    }
}

/// Stores recent log lines and output-pane configuration.
pub struct OutputPaneState {
    pub log_lines: Vec<String>,
    pub max_log_line_count: usize,
    pub did_auto_scroll_to_latest: bool,
    pub status_message: String,
}

/// Largest number of retained log lines that the pane lets a user choose.
pub const MAX_LOG_LINE_LIMIT: usize = 2000;
/// Smallest number of retained log lines that the pane lets a user choose.
pub const MIN_LOG_LINE_LIMIT: usize = 25;
/// Step by which the retained line limit changes.
pub const LOG_LINE_LIMIT_STEP: usize = 25;

impl OutputPaneState {
    pub open spec fn spec_lines(&self) -> Seq<Seq<char>> {
        spec_texts(self.log_lines@)
    }

    /// Replaces the log lines with the given history, one `[LEVEL] message` line per event,
    /// keeping only the latest lines allowed; optionally reports how many were loaded.
    pub fn apply_log_history_with_feedback(&mut self, log_history: Vec<LogEvent>, should_update_status_message: bool)
        ensures
            final(self).spec_lines() == spec_keep_latest(
                log_history@.map_values(|event: LogEvent| spec_log_line(event)),
                old(self).max_log_line_count as nat,
            ),
            final(self).max_log_line_count == old(self).max_log_line_count,
            final(self).did_auto_scroll_to_latest,
            should_update_status_message ==> final(self).status_message@ == "Loaded "@ + spec_decimal(
                final(self).log_lines@.len(),
            ) + " log lines."@,
            !should_update_status_message ==> final(self).status_message == old(self).status_message,
    {
        let mut lines: Vec<String> = Vec::new();
        let mut position: usize = 0;
        while position < log_history.len()
            invariant
                position <= log_history@.len(),
                spec_texts(lines@) == log_history@.subrange(0, position as int).map_values(
                    |event: LogEvent| spec_log_line(event),
                ),
            decreases log_history@.len() - position,
        {
            let event = &log_history[position];
            let ghost previous_lines = lines@;
            let mut line = owned("[");
            line.append(log_level_text(event.level));
            line.append("] ");
            line.append(event.message.as_str());
            lines.push(line);
            proof {
                assert(log_history@.subrange(0, position + 1) =~= log_history@.subrange(0, position as int).push(log_history@[position as int]));
                lemma_texts_push(previous_lines, line);
                lemma_map_values_push(
                    log_history@.subrange(0, position as int),
                    log_history@[position as int],
                    |event: LogEvent| spec_log_line(event),
                );
                assert(spec_texts(lines@) == log_history@.subrange(0, position + 1).map_values(
                    |event: LogEvent| spec_log_line(event),
                ));
            }
            position = position + 1;
        }
        assert(log_history@.subrange(0, log_history@.len() as int) =~= log_history@);
        self.log_lines = lines;
        self.trim_to_max_line_count();
        self.did_auto_scroll_to_latest = true;
        if should_update_status_message {
            let mut status = owned("Loaded ");
            push_decimal_usize(&mut status, self.log_lines.len());
            status.append(" log lines.");
            self.status_message = status;
        }
    }

    /// Empties the log lines.
    pub fn clear_log_lines(&mut self)
        ensures
            final(self).log_lines@.len() == 0,
            final(self).max_log_line_count == old(self).max_log_line_count,
            final(self).did_auto_scroll_to_latest,
            final(self).status_message@ == "Cleared output pane log lines."@,
    {
        self.log_lines.clear();
        self.did_auto_scroll_to_latest = true;
        self.status_message = owned("Cleared output pane log lines.");
    }

    /// Raises the retained line limit by one step, up to the largest limit.
    pub fn increase_max_line_count(&mut self)
        requires
            old(self).max_log_line_count + LOG_LINE_LIMIT_STEP <= usize::MAX,
        ensures
            final(self).max_log_line_count == if old(self).max_log_line_count + LOG_LINE_LIMIT_STEP
                <= MAX_LOG_LINE_LIMIT {
                old(self).max_log_line_count + LOG_LINE_LIMIT_STEP
            } else {
                MAX_LOG_LINE_LIMIT as int
            },
            final(self).log_lines@ == spec_keep_latest(
                old(self).log_lines@,
                final(self).max_log_line_count as nat,
            ),
            final(self).did_auto_scroll_to_latest == old(self).did_auto_scroll_to_latest,
            final(self).status_message == old(self).status_message,
    {
        let raised = self.max_log_line_count + LOG_LINE_LIMIT_STEP;
        self.max_log_line_count = if raised <= MAX_LOG_LINE_LIMIT {
            raised
        } else {
            MAX_LOG_LINE_LIMIT
        };
        self.trim_to_max_line_count();
    }

    /// Lowers the retained line limit by one step, down to the smallest limit, dropping the
    /// oldest lines beyond it.
    pub fn decrease_max_line_count(&mut self)
        ensures
            final(self).max_log_line_count == if old(self).max_log_line_count >= LOG_LINE_LIMIT_STEP
                + MIN_LOG_LINE_LIMIT {
                old(self).max_log_line_count - LOG_LINE_LIMIT_STEP
            } else {
                MIN_LOG_LINE_LIMIT as int
            },
            final(self).log_lines@ == spec_keep_latest(
                old(self).log_lines@,
                final(self).max_log_line_count as nat,
            ),
            final(self).did_auto_scroll_to_latest == old(self).did_auto_scroll_to_latest,
            final(self).status_message == old(self).status_message,
    {
        let lowered = self.max_log_line_count.saturating_sub(LOG_LINE_LIMIT_STEP);
        self.max_log_line_count = if lowered >= MIN_LOG_LINE_LIMIT {
            lowered
        } else {
            MIN_LOG_LINE_LIMIT
        };
        self.trim_to_max_line_count();
    }

    /// Drops the oldest lines beyond the retained line limit.
    pub fn trim_to_max_line_count(&mut self)
        ensures
            final(self).log_lines@ == spec_keep_latest(
                old(self).log_lines@,
                old(self).max_log_line_count as nat,
            ),
            final(self).max_log_line_count == old(self).max_log_line_count,
            final(self).did_auto_scroll_to_latest == old(self).did_auto_scroll_to_latest,
            final(self).status_message == old(self).status_message,
    {
        if self.log_lines.len() <= self.max_log_line_count {
            return;
        }
        let remove_line_count = self.log_lines.len() - self.max_log_line_count;
        let kept_lines = self.log_lines.split_off(remove_line_count);
        self.log_lines = kept_lines;
    }

    /// The pane's summary: controls, counters, status, then up to eight latest lines.
    pub fn summary_lines(&self) -> (summary_lines: Vec<String>)
        ensures
            spec_texts(summary_lines@) == self.spec_summary_lines(),
    {
        let mut summary_lines: Vec<String> = Vec::new();
        summary_lines.push(owned("Actions: r refresh log history, x clear, +/- max lines."));
        let mut line = owned("log_line_count=");
        push_decimal_usize(&mut line, self.log_lines.len());
        summary_lines.push(line);
        let mut line = owned("max_log_lines=");
        push_decimal_usize(&mut line, self.max_log_line_count);
        summary_lines.push(line);
        let mut line = owned("auto_scroll_latest=");
        push_bool(&mut line, self.did_auto_scroll_to_latest);
        summary_lines.push(line);
        let mut line = owned("status=");
        line.append(self.status_message.as_str());
        summary_lines.push(line);
        let ghost fixed_lines = spec_texts(summary_lines@);
        assert(fixed_lines =~= self.spec_fixed_summary_lines());
        let preview_line_count = if self.log_lines.len() <= 8 {
            self.log_lines.len()
        } else {
            8
        };
        if preview_line_count > 0 {
            summary_lines.push(owned("Recent:"));
            let start_line_index = self.log_lines.len() - preview_line_count;
            let mut position: usize = start_line_index;
            while position < self.log_lines.len()
                invariant
                    start_line_index <= position <= self.log_lines@.len(),
                    spec_texts(summary_lines@) == fixed_lines + seq!["Recent:"@] + spec_texts(
                        self.log_lines@.subrange(start_line_index as int, position as int),
                    ),
                decreases self.log_lines@.len() - position,
            {
                let ghost previous_lines = summary_lines@;
                let copied_line = self.log_lines[position].clone();
                summary_lines.push(copied_line);
                proof {
                    assert(self.log_lines@.subrange(start_line_index as int, position + 1)
                        =~= self.log_lines@.subrange(start_line_index as int, position as int).push(
                        self.log_lines@[position as int],
                    ));
                    lemma_texts_push(previous_lines, copied_line);
                    lemma_texts_push(self.log_lines@.subrange(start_line_index as int, position as int), self.log_lines@[position as int]);
                    assert(spec_texts(summary_lines@) =~= fixed_lines + seq!["Recent:"@] + spec_texts(
                        self.log_lines@.subrange(start_line_index as int, position + 1),
                    ));
                }
                position = position + 1;
            }
        } else {
            assert(spec_texts(summary_lines@) =~= self.spec_summary_lines());
        }
        summary_lines
    }

    pub open spec fn spec_fixed_summary_lines(&self) -> Seq<Seq<char>> {
        seq![
            "Actions: r refresh log history, x clear, +/- max lines."@,
            "log_line_count="@ + spec_decimal(self.log_lines@.len()),
            "max_log_lines="@ + spec_decimal(self.max_log_line_count as nat),
            "auto_scroll_latest="@ + spec_bool_text(self.did_auto_scroll_to_latest),
            "status="@ + self.status_message@,
        ]
    }

    /// The pane's summary lines.
    pub open spec fn spec_summary_lines(&self) -> Seq<Seq<char>> {
        let preview = spec_keep_latest(self.spec_lines(), 8);
        if preview.len() > 0 {
            self.spec_fixed_summary_lines() + seq!["Recent:"@] + preview
        } else {
            self.spec_fixed_summary_lines()
        }
    }
}

impl Default for OutputPaneState {
    fn default() -> (state: OutputPaneState)
        ensures
            state.log_lines@.len() == 0,
            state.max_log_line_count == 200,
            !state.did_auto_scroll_to_latest,
            state.status_message@ == "Ready."@,
    {
        OutputPaneState {
            log_lines: Vec::new(),
            max_log_line_count: 200,
            did_auto_scroll_to_latest: false,
            status_message: owned("Ready."),
        }
    }
}

/// Number of fixed lines at the top of the output summary.
pub const OUTPUT_FIXED_SUMMARY_LINE_COUNT: usize = 3;

/// The condensed output summary: actions, counters and status, then, when the preview has
/// room and there are lines, a `[RECENT]` marker and the latest lines that fit in one row
/// fewer than the preview capacity.
pub open spec fn spec_output_summary_lines(state: OutputPaneState, log_preview_capacity: nat) -> Seq<Seq<char>> {
    let fixed = seq![
        "[ACT] r refresh-log | x clear | +/- max-lines."@,
        "[META] log_line_count="@ + spec_decimal(state.log_lines@.len()) + " | max_log_lines="@
            + spec_decimal(state.max_log_line_count as nat) + " | auto_scroll_latest="@
            + spec_bool_text(state.did_auto_scroll_to_latest) + "."@,
        "[STAT] "@ + state.status_message@ + "."@,
    ];
    if log_preview_capacity > 0 && state.log_lines@.len() > 0 {
        let preview_count: nat = if log_preview_capacity >= 1 {
            (log_preview_capacity - 1) as nat
        } else {
            0
        };
        fixed + seq!["[RECENT]"@] + spec_keep_latest(state.spec_lines(), preview_count).map_values(
            |line: Seq<char>| "[LOG] "@ + line,
        )
    } else {
        fixed
    }
}

pub fn build_output_summary_lines(output_pane_state: &OutputPaneState, log_preview_capacity: usize) -> (summary_lines: Vec<String>)
    ensures
        spec_texts(summary_lines@) == spec_output_summary_lines(*output_pane_state, log_preview_capacity as nat),
{
    let mut summary_lines: Vec<String> = Vec::new();
    summary_lines.push(owned("[ACT] r refresh-log | x clear | +/- max-lines."));
    let mut line = owned("[META] log_line_count=");
    push_decimal_usize(&mut line, output_pane_state.log_lines.len());
    line.append(" | max_log_lines=");
    push_decimal_usize(&mut line, output_pane_state.max_log_line_count);
    line.append(" | auto_scroll_latest=");
    push_bool(&mut line, output_pane_state.did_auto_scroll_to_latest);
    line.append(".");
    summary_lines.push(line);
    let mut line = owned("[STAT] ");
    line.append(output_pane_state.status_message.as_str());
    line.append(".");
    summary_lines.push(line);
    let ghost fixed_lines = spec_texts(summary_lines@);
    let log_lines = &output_pane_state.log_lines;
    if log_preview_capacity > 0 && log_lines.len() > 0 {
        let preview_capacity = log_preview_capacity - 1;
        let preview_line_count = if log_lines.len() <= preview_capacity {
            log_lines.len()
        } else {
            preview_capacity
        };
        summary_lines.push(owned("[RECENT]"));
        let start_line_index = log_lines.len() - preview_line_count;
        let mut position: usize = start_line_index;
        while position < log_lines.len()
            invariant
                start_line_index <= position <= log_lines@.len(),
                spec_texts(summary_lines@) == fixed_lines + seq!["[RECENT]"@] + spec_texts(
                    log_lines@.subrange(start_line_index as int, position as int),
                ).map_values(|line: Seq<char>| "[LOG] "@ + line),
            decreases log_lines@.len() - position,
        {
            let ghost previous_lines = summary_lines@;
            let mut line = owned("[LOG] ");
            line.append(log_lines[position].as_str());
            summary_lines.push(line);
            proof {
                assert(log_lines@.subrange(start_line_index as int, position + 1) =~= log_lines@.subrange(
                    start_line_index as int,
                    position as int,
                ).push(log_lines@[position as int]));
                lemma_texts_push(previous_lines, line);
                lemma_texts_push(log_lines@.subrange(start_line_index as int, position as int), log_lines@[position as int]);
                lemma_map_values_push(
                    spec_texts(log_lines@.subrange(start_line_index as int, position as int)),
                    log_lines@[position as int]@,
                    |line: Seq<char>| "[LOG] "@ + line,
                );
                assert(spec_texts(summary_lines@) =~= fixed_lines + seq!["[RECENT]"@] + spec_texts(
                    log_lines@.subrange(start_line_index as int, position + 1),
                ).map_values(|line: Seq<char>| "[LOG] "@ + line));
            }
            position = position + 1;
        }
        proof {
            let preview = spec_keep_latest(output_pane_state.spec_lines(), (log_preview_capacity - 1) as nat);
            assert(spec_texts(log_lines@.subrange(start_line_index as int, log_lines@.len() as int))
                =~= preview);
        }
    }
    summary_lines
}

} // verus!
