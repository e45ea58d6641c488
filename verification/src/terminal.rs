//! The dashboard on a terminal.
use vstd::prelude::*;
use vstd::string::*;

use crate::clock::{elapsed_millis, millis_between};
use crate::display::{
    cell, coloured, colorize, duration, format_cell, format_duration, format_int, grouped,
    humanize_status, inline_text, inlined, repeat_char, repeated, sanitize_display_text,
    sanitized, short_id, slug, slugify, status_words, ANSI_BLUE, ANSI_BOLD, ANSI_CYAN, ANSI_GRAY,
    ANSI_GREEN, ANSI_MAGENTA, ANSI_RED, ANSI_YELLOW,
};
use crate::humanize::{
    budget_words, format_rate_limits_summary, format_todoist_rate_budget_summary, limits_words,
    LimitNumbers, NumbersView,
};
use crate::observability::{
    RunningEntryPayload, RunningEntryView, StatePayload, StatePayloadView,
};
use crate::snapshot::{PollingSnapshot, RetrySnapshot, RetrySnapshotView};
use crate::sorting::views_of;
use crate::text::{
    concat, decimal, decimal_text, first_chars, join, joined, opt_text, owned, same, texts,
    usize_text,
};

verus! {

broadcast use {vstd::seq::group_seq_axioms, vstd::string::group_string_axioms};

/// How many columns a terminal has where nothing is known of it.
pub const DEFAULT_TERMINAL_COLUMNS: usize = 132;

/// How many columns a terminal is taken to have at least.
pub const LEAST_TERMINAL_COLUMNS: usize = 96;

/// How many milliseconds the screen stays as it is at most.
pub const MINIMUM_IDLE_RERENDER_MS: u64 = 1_000;

pub const RUNNING_ID_WIDTH: usize = 10;

pub const RUNNING_STATE_WIDTH: usize = 14;

pub const RUNNING_SESSION_WIDTH: usize = 14;

pub const RUNNING_PID_WIDTH: usize = 8;

pub const RUNNING_RUNTIME_WIDTH: usize = 14;

pub const RUNNING_TOKENS_WIDTH: usize = 10;

// ---------------------------------------------------------------------------
// Rows
// ---------------------------------------------------------------------------

/// How wide the last message of a task is shown.
pub open spec fn event_width(terminal_columns: Option<usize>) -> nat {
    let asked = match terminal_columns {
        Some(columns) => columns,
        None => DEFAULT_TERMINAL_COLUMNS,
    };
    let columns = if asked < LEAST_TERMINAL_COLUMNS {
        LEAST_TERMINAL_COLUMNS
    } else {
        asked
    };
    (columns - (RUNNING_ID_WIDTH + RUNNING_STATE_WIDTH + RUNNING_SESSION_WIDTH + RUNNING_PID_WIDTH
        + RUNNING_RUNTIME_WIDTH + RUNNING_TOKENS_WIDTH + 16)) as nat
}

fn running_event_width(terminal_columns: Option<usize>) -> (r: usize)
    ensures
        r == event_width(terminal_columns),
{
    let asked: usize = match terminal_columns {
        Some(columns) => columns,
        None => DEFAULT_TERMINAL_COLUMNS,
    };
    let columns: usize = if asked < LEAST_TERMINAL_COLUMNS {
        LEAST_TERMINAL_COLUMNS
    } else {
        asked
    };
    columns - (RUNNING_ID_WIDTH + RUNNING_STATE_WIDTH + RUNNING_SESSION_WIDTH + RUNNING_PID_WIDTH
        + RUNNING_RUNTIME_WIDTH + RUNNING_TOKENS_WIDTH + 16)
}

/// A row of the table of tasks that run.
pub open spec fn table_row(cells: Seq<Seq<char>>) -> Seq<char> {
    "│ "@ + joined(cells, " "@)
}

fn row_of(cells: &Vec<String>) -> (r: String)
    ensures
        r@ == table_row(texts(cells@)),
{
    let line: String = join(cells, " ");
    concat("│ ", line.as_str())
}

/// The heads of the columns.
pub open spec fn header_row(width: nat) -> Seq<char> {
    table_row(
        seq![
            cell("TASK"@, RUNNING_ID_WIDTH as nat),
            cell("STATE"@, RUNNING_STATE_WIDTH as nat),
            cell("SESSION"@, RUNNING_SESSION_WIDTH as nat),
            cell("PID"@, RUNNING_PID_WIDTH as nat),
            cell("RUNTIME/TURNS"@, RUNNING_RUNTIME_WIDTH as nat),
            cell("EVENT"@, width),
            cell("TOKENS"@, RUNNING_TOKENS_WIDTH as nat),
        ],
    )
}

/// The heads of the columns.
pub fn running_table_header_row(running_event_width: usize) -> (r: String)
    ensures
        r@ == header_row(running_event_width as nat),
{
    let mut cells: Vec<String> = Vec::new();
    cells.push(format_cell("TASK", RUNNING_ID_WIDTH));
    cells.push(format_cell("STATE", RUNNING_STATE_WIDTH));
    cells.push(format_cell("SESSION", RUNNING_SESSION_WIDTH));
    cells.push(format_cell("PID", RUNNING_PID_WIDTH));
    cells.push(format_cell("RUNTIME/TURNS", RUNNING_RUNTIME_WIDTH));
    cells.push(format_cell("EVENT", running_event_width));
    cells.push(format_cell("TOKENS", RUNNING_TOKENS_WIDTH));
    proof {
        assert(texts(cells@) =~= seq![
            cell("TASK"@, RUNNING_ID_WIDTH as nat),
            cell("STATE"@, RUNNING_STATE_WIDTH as nat),
            cell("SESSION"@, RUNNING_SESSION_WIDTH as nat),
            cell("PID"@, RUNNING_PID_WIDTH as nat),
            cell("RUNTIME/TURNS"@, RUNNING_RUNTIME_WIDTH as nat),
            cell("EVENT"@, running_event_width as nat),
            cell("TOKENS"@, RUNNING_TOKENS_WIDTH as nat),
        ]);
    }
    row_of(&cells)
}

/// The line under the heads.
pub open spec fn separator_row(width: nat) -> Seq<char> {
    table_row(
        seq![
            repeated('─', RUNNING_ID_WIDTH as nat),
            repeated('─', RUNNING_STATE_WIDTH as nat),
            repeated('─', RUNNING_SESSION_WIDTH as nat),
            repeated('─', RUNNING_PID_WIDTH as nat),
            repeated('─', RUNNING_RUNTIME_WIDTH as nat),
            repeated('─', width),
            repeated('─', RUNNING_TOKENS_WIDTH as nat),
        ],
    )
}

/// The line under the heads.
pub fn running_table_separator_row(running_event_width: usize) -> (r: String)
    ensures
        r@ == separator_row(running_event_width as nat),
{
    let mut cells: Vec<String> = Vec::new();
    cells.push(repeat_char('─', RUNNING_ID_WIDTH));
    cells.push(repeat_char('─', RUNNING_STATE_WIDTH));
    cells.push(repeat_char('─', RUNNING_SESSION_WIDTH));
    cells.push(repeat_char('─', RUNNING_PID_WIDTH));
    cells.push(repeat_char('─', RUNNING_RUNTIME_WIDTH));
    cells.push(repeat_char('─', running_event_width));
    cells.push(repeat_char('─', RUNNING_TOKENS_WIDTH));
    proof {
        assert(texts(cells@) =~= seq![
            repeated('─', RUNNING_ID_WIDTH as nat),
            repeated('─', RUNNING_STATE_WIDTH as nat),
            repeated('─', RUNNING_SESSION_WIDTH as nat),
            repeated('─', RUNNING_PID_WIDTH as nat),
            repeated('─', RUNNING_RUNTIME_WIDTH as nat),
            repeated('─', running_event_width as nat),
            repeated('─', RUNNING_TOKENS_WIDTH as nat),
        ]);
    }
    row_of(&cells)
}

/// The colour of a task's state.
pub open spec fn colour_of(state: Seq<char>) -> Seq<char> {
    let name = slug(state);
    if name == "in-progress"@ || name == "merging"@ || name == "todo"@ {
        ANSI_GREEN@
    } else if name == "rework"@ {
        ANSI_YELLOW@
    } else if name == "human-review"@ || name == "done"@ {
        ANSI_MAGENTA@
    } else {
        ANSI_BLUE@
    }
}

/// The colour of a task's state.
pub fn state_color(state: &str) -> (r: &'static str)
    ensures
        r@ == colour_of(state@),
{
    let name: String = slugify(state);
    if same(name.as_str(), "in-progress") || same(name.as_str(), "merging") || same(
        name.as_str(),
        "todo",
    ) {
        ANSI_GREEN
    } else if same(name.as_str(), "rework") {
        ANSI_YELLOW
    } else if same(name.as_str(), "human-review") || same(name.as_str(), "done") {
        ANSI_MAGENTA
    } else {
        ANSI_BLUE
    }
}

/// What is shown of the last message of a task.
pub open spec fn event_line(entry: RunningEntryView) -> Seq<char> {
    let message = match entry.last_message {
        Some(message) => message,
        None => "No Codex message yet."@,
    };
    match entry.worker_host {
        Some(host) => host + ": "@ + message,
        None => message,
    }
}

/// The cells of a task that runs.
pub open spec fn running_cells(entry: RunningEntryView, width: nat) -> Seq<Seq<char>> {
    seq![
        coloured(cell(entry.issue_identifier, RUNNING_ID_WIDTH as nat), ANSI_CYAN@),
        coloured(
            cell(status_words(entry.state), RUNNING_STATE_WIDTH as nat),
            colour_of(entry.state),
        ),
        cell(
            match entry.session_id {
                Some(id) => first_chars(id, 12),
                None => "n/a"@,
            },
            RUNNING_SESSION_WIDTH as nat,
        ),
        cell(
            match entry.app_server_pid {
                Some(pid) => decimal(pid as nat),
                None => "n/a"@,
            },
            RUNNING_PID_WIDTH as nat,
        ),
        cell(
            duration(entry.runtime_ms as nat) + " / "@ + decimal(entry.turn_count as nat) + "t"@,
            RUNNING_RUNTIME_WIDTH as nat,
        ),
        cell(sanitized(event_line(entry)), width),
        cell(grouped(decimal(entry.tokens.total_tokens as nat)), RUNNING_TOKENS_WIDTH as nat),
    ]
}

/// A task that runs, as a row of the table.
pub open spec fn running_row(entry: RunningEntryView, width: nat) -> Seq<char> {
    table_row(running_cells(entry, width))
}

/// A task that runs, as a row of the table.
pub fn format_running_row(entry: &RunningEntryPayload, running_event_width: usize) -> (r: String)
    ensures
        r@ == running_row(entry@, running_event_width as nat),
{
    let id: String = format_cell(entry.issue_identifier.as_str(), RUNNING_ID_WIDTH);
    let status: String = humanize_status(entry.state.as_str());
    let state: String = format_cell(status.as_str(), RUNNING_STATE_WIDTH);
    let session: String = match &entry.session_id {
        Some(id) => short_id(id.as_str()),
        None => owned("n/a"),
    };
    let pid: String = match entry.app_server_pid {
        Some(pid) => decimal_text(pid as u64),
        None => owned("n/a"),
    };
    let turns: String = decimal_text(entry.turn_count as u64);
    let mut runtime: String = format_duration(entry.runtime_ms);
    runtime.append(" / ");
    runtime.append(turns.as_str());
    runtime.append("t");
    let message: &str = match &entry.last_message {
        Some(message) => message.as_str(),
        None => "No Codex message yet.",
    };
    let event: String = match &entry.worker_host {
        Some(host) => {
            let mut event: String = concat(host.as_str(), ": ");
            event.append(message);
            event
        },
        None => owned(message),
    };
    let shown: String = sanitize_display_text(event.as_str());
    let tokens: String = format_int(entry.tokens.total_tokens);
    let mut cells: Vec<String> = Vec::new();
    cells.push(colorize(id.as_str(), ANSI_CYAN));
    cells.push(colorize(state.as_str(), state_color(entry.state.as_str())));
    cells.push(format_cell(session.as_str(), RUNNING_SESSION_WIDTH));
    cells.push(format_cell(pid.as_str(), RUNNING_PID_WIDTH));
    cells.push(format_cell(runtime.as_str(), RUNNING_RUNTIME_WIDTH));
    cells.push(format_cell(shown.as_str(), running_event_width));
    cells.push(format_cell(tokens.as_str(), RUNNING_TOKENS_WIDTH));
    proof {
        assert(event@ == event_line(entry@));
        assert(texts(cells@) =~= running_cells(entry@, running_event_width as nat));
    }
    row_of(&cells)
}

/// The whole seconds until a point in time, rounded up; none once it has passed.
pub open spec fn seconds_until(due_at: i128, now: i128) -> nat {
    let ms = millis_between(now as int, due_at as int);
    if ms <= 0 {
        0
    } else {
        ((ms + 999) / 1000) as nat
    }
}

fn seconds_left(due_at: i128, now: i128) -> (r: u64)
    ensures
        r == seconds_until(due_at, now),
{
    let ms: i64 = elapsed_millis(now, due_at);
    if ms <= 0 {
        0
    } else {
        (ms as u64 + 999) / 1000
    }
}

/// A task that waits, as a row.
pub open spec fn retry_row(entry: RetrySnapshotView, now: i128) -> Seq<char> {
    "│  "@ + coloured(entry.issue_identifier, ANSI_CYAN@) + " attempt="@ + decimal(
        entry.attempt as nat,
    ) + " worker="@ + inlined(
        match entry.worker_host {
            Some(host) => host,
            None => "local"@,
        },
    ) + " due_in="@ + decimal(seconds_until(entry.due_at, now)) + "s error="@ + inlined(
        match entry.error {
            Some(error) => error,
            None => "none"@,
        },
    )
}

/// A task that waits, as a row.
pub fn format_retry_row(entry: &RetrySnapshot, now: i128) -> (r: String)
    ensures
        r@ == retry_row(entry@, now),
{
    let id: String = colorize(entry.issue_identifier.as_str(), ANSI_CYAN);
    let attempt: String = decimal_text(entry.attempt as u64);
    let host: String = inline_text(
        match &entry.worker_host {
            Some(host) => host.as_str(),
            None => "local",
        },
    );
    let seconds: String = decimal_text(seconds_left(entry.due_at, now));
    let error: String = inline_text(
        match &entry.error {
            Some(error) => error.as_str(),
            None => "none",
        },
    );
    let mut out: String = concat("│  ", id.as_str());
    out.append(" attempt=");
    out.append(attempt.as_str());
    out.append(" worker=");
    out.append(host.as_str());
    out.append(" due_in=");
    out.append(seconds.as_str());
    out.append("s error=");
    out.append(error.as_str());
    out
}

// ---------------------------------------------------------------------------
// Lines
// ---------------------------------------------------------------------------

/// A line with a label.
pub open spec fn labelled(label: Seq<char>, value: Seq<char>) -> Seq<char> {
    coloured(label, ANSI_BOLD@) + value
}

fn label_line(label: &str, value: &str) -> (r: String)
    ensures
        r@ == labelled(label@, value@),
{
    let head: String = colorize(label, ANSI_BOLD);
    concat(head.as_str(), value)
}

/// A line with a label and a value in a colour.
pub open spec fn painted(label: Seq<char>, value: Seq<char>, ansi: Seq<char>) -> Seq<char> {
    labelled(label, coloured(value, ansi))
}

fn painted_line(label: &str, value: &str, ansi: &str) -> (r: String)
    ensures
        r@ == painted(label@, value@, ansi@),
{
    let value: String = colorize(value, ansi);
    label_line(label, value.as_str())
}

/// A summary of limits, in its colour.
pub open spec fn limits_shown(summary: Option<Seq<char>>) -> Seq<char> {
    match summary {
        Some(summary) => if summary.len() > 0 {
            coloured(summary, ANSI_CYAN@)
        } else {
            coloured("n/a"@, ANSI_GRAY@)
        },
        None => coloured("n/a"@, ANSI_GRAY@),
    }
}

/// A summary of limits, in its colour.
pub fn format_rate_limits(summary: &Option<String>) -> (r: String)
    ensures
        r@ == limits_shown(opt_text(*summary)),
{
    match summary {
        Some(summary) => if same(summary.as_str(), "") {
            proof {
                reveal_strlit("");
            }
            colorize("n/a", ANSI_GRAY)
        } else {
            proof {
                reveal_strlit("");
                if summary@.len() == 0 {
                    assert(summary@ =~= ""@);
                }
            }
            colorize(summary.as_str(), ANSI_CYAN)
        },
        None => colorize("n/a", ANSI_GRAY),
    }
}

/// When the next poll is due, in words.
pub open spec fn polling_words(polling: PollingSnapshot) -> Seq<char> {
    if polling.checking {
        "checking now…"@
    } else {
        match polling.next_poll_in_ms {
            Some(ms) => decimal((ms as nat + 999) / 1000) + "s"@,
            None => "n/a"@,
        }
    }
}

/// When the next poll is due, in words.
pub fn format_polling_status(polling: &PollingSnapshot) -> (r: String)
    ensures
        r@ == polling_words(*polling),
{
    if polling.checking {
        return owned("checking now…");
    }
    match polling.next_poll_in_ms {
        Some(ms) => {
            let seconds: u64 = ((ms as u128 + 999) / 1000) as u64;
            let n: String = decimal_text(seconds);
            concat(n.as_str(), "s")
        },
        None => owned("n/a"),
    }
}

/// How many workers run, of how many that may.
pub open spec fn agents_line(payload: StatePayloadView) -> Seq<char> {
    coloured("│ Agents: "@, ANSI_BOLD@) + coloured(
        decimal(payload.counts.running),
        ANSI_GREEN@,
    ) + coloured("/"@, ANSI_GRAY@) + coloured(
        decimal(payload.max_concurrent_agents as nat),
        ANSI_GRAY@,
    )
}

fn format_agents(payload: &StatePayload) -> (r: String)
    ensures
        r@ == agents_line(payload@),
{
    let running: String = usize_text(payload.counts.running);
    let limit: String = usize_text(payload.agent_limits.max_concurrent_agents);
    let mut out: String = colorize("│ Agents: ", ANSI_BOLD);
    let part: String = colorize(running.as_str(), ANSI_GREEN);
    out.append(part.as_str());
    let part: String = colorize("/", ANSI_GRAY);
    out.append(part.as_str());
    let part: String = colorize(limit.as_str(), ANSI_GRAY);
    out.append(part.as_str());
    out
}

/// A count of tokens with what it counts.
pub open spec fn count_shown(what: Seq<char>, n: u64) -> Seq<char> {
    coloured(what + grouped(decimal(n as nat)), ANSI_YELLOW@)
}

fn format_count(what: &str, n: u64) -> (r: String)
    ensures
        r@ == count_shown(what@, n),
{
    let n: String = format_int(n);
    let text: String = concat(what, n.as_str());
    colorize(text.as_str(), ANSI_YELLOW)
}

/// How many tokens have been used.
pub open spec fn tokens_line(payload: StatePayloadView) -> Seq<char> {
    coloured("│ Tokens: "@, ANSI_BOLD@) + count_shown(
        "in "@,
        payload.codex_totals.tokens.input_tokens,
    ) + coloured(" | "@, ANSI_GRAY@) + count_shown(
        "out "@,
        payload.codex_totals.tokens.output_tokens,
    ) + coloured(" | "@, ANSI_GRAY@) + count_shown(
        "total "@,
        payload.codex_totals.tokens.total_tokens,
    )
}

fn format_tokens(payload: &StatePayload) -> (r: String)
    ensures
        r@ == tokens_line(payload@),
{
    let bar: String = colorize(" | ", ANSI_GRAY);
    let mut out: String = colorize("│ Tokens: ", ANSI_BOLD);
    let part: String = format_count("in ", payload.codex_totals.tokens.input_tokens);
    out.append(part.as_str());
    out.append(bar.as_str());
    let part: String = format_count("out ", payload.codex_totals.tokens.output_tokens);
    out.append(part.as_str());
    out.append(bar.as_str());
    let part: String = format_count("total ", payload.codex_totals.tokens.total_tokens);
    out.append(part.as_str());
    out
}

/// The lines on what has been used and what is left.
pub open spec fn usage_lines(payload: StatePayloadView, numbers: NumbersView) -> Seq<Seq<char>> {
    seq![
        coloured("╭─ SYMPHONY STATUS"@, ANSI_BOLD@),
        agents_line(payload),
        painted("│ Throughput: "@, payload.tps_5s + " tps"@, ANSI_CYAN@),
        painted("│ Runtime: "@, duration(payload.codex_totals.running_ms as nat), ANSI_MAGENTA@),
        tokens_line(payload),
        labelled(
            "│ Codex Limits: "@,
            limits_shown(
                match payload.rate_limits {
                    Some(limits) => Some(limits_words(limits, numbers)),
                    None => None,
                },
            ),
        ),
        labelled(
            "│ Todoist Budget: "@,
            limits_shown(
                match payload.todoist_rate_budget {
                    Some(budget) => Some(budget_words(budget)),
                    None => None,
                },
            ),
        ),
    ]
}

fn render_usage(payload: &StatePayload, numbers: &LimitNumbers) -> (r: Vec<String>)
    ensures
        texts(r@) == usage_lines(payload@, numbers@),
{
    let tps: String = concat(payload.throughput.tps_5s.as_str(), " tps");
    let runtime: String = format_duration(payload.codex_totals.running_ms);
    let limits: Option<String> = match &payload.rate_limits {
        Some(limits) => Some(format_rate_limits_summary(limits, numbers)),
        None => None,
    };
    let limits: String = format_rate_limits(&limits);
    let budget: Option<String> = match &payload.todoist_rate_budget {
        Some(budget) => Some(format_todoist_rate_budget_summary(budget)),
        None => None,
    };
    let budget: String = format_rate_limits(&budget);
    let mut lines: Vec<String> = Vec::new();
    lines.push(colorize("╭─ SYMPHONY STATUS", ANSI_BOLD));
    lines.push(format_agents(payload));
    lines.push(painted_line("│ Throughput: ", tps.as_str(), ANSI_CYAN));
    lines.push(painted_line("│ Runtime: ", runtime.as_str(), ANSI_MAGENTA));
    lines.push(format_tokens(payload));
    lines.push(label_line("│ Codex Limits: ", limits.as_str()));
    lines.push(label_line("│ Todoist Budget: ", budget.as_str()));
    proof {
        assert(texts(lines@) =~= seq![
            lines@[0]@,
            lines@[1]@,
            lines@[2]@,
            lines@[3]@,
            lines@[4]@,
            lines@[5]@,
            lines@[6]@,
        ]);
    }
    lines
}

/// A line with an address, if there is one.
pub open spec fn link_line(label: Seq<char>, url: Option<Seq<char>>) -> Seq<Seq<char>> {
    match url {
        Some(url) => seq![painted(label, url, ANSI_CYAN@)],
        None => Seq::empty(),
    }
}

fn push_link(lines: &mut Vec<String>, label: &str, url: &Option<String>)
    ensures
        texts(final(lines)@) == texts(old(lines)@) + link_line(label@, opt_text(*url)),
{
    let ghost had = texts(lines@);
    match url {
        Some(url) => {
            lines.push(painted_line(label, url.as_str(), ANSI_CYAN));
            proof {
                assert(texts(lines@) =~= had + link_line(label@, Some(url@)));
            }
        },
        None => {
            proof {
                assert(texts(lines@) =~= had + link_line(label@, None));
            }
        },
    }
}

/// The lines up to the rows of the tasks that run.
pub open spec fn heading_lines(payload: StatePayloadView, width: nat) -> Seq<Seq<char>> {
    seq![
        painted("│ Next refresh: "@, polling_words(payload.polling), ANSI_CYAN@),
        painted("│ Graph: "@, payload.graph_10m, ANSI_CYAN@),
        coloured("├─ Running"@, ANSI_BOLD@),
        "│"@,
        header_row(width),
        separator_row(width),
    ]
}

fn push_heading(lines: &mut Vec<String>, payload: &StatePayload, width: usize)
    ensures
        texts(final(lines)@) == texts(old(lines)@) + heading_lines(payload@, width as nat),
{
    let ghost had = texts(lines@);
    let polling: String = format_polling_status(&payload.polling);
    lines.push(painted_line("│ Next refresh: ", polling.as_str(), ANSI_CYAN));
    lines.push(painted_line("│ Graph: ", payload.throughput.graph_10m.as_str(), ANSI_CYAN));
    lines.push(colorize("├─ Running", ANSI_BOLD));
    lines.push(owned("│"));
    lines.push(running_table_header_row(width));
    lines.push(running_table_separator_row(width));
    proof {
        assert(texts(lines@) =~= had + heading_lines(payload@, width as nat));
    }
}

/// The rows of the tasks that run.
pub open spec fn running_lines(running: Seq<RunningEntryView>, width: nat) -> Seq<Seq<char>> {
    if running.len() == 0 {
        seq!["│  "@ + coloured("No active agents"@, ANSI_GRAY@)]
    } else {
        Seq::new(running.len(), |i: int| running_row(running[i], width))
    }
}

fn push_running(lines: &mut Vec<String>, running: &Vec<RunningEntryPayload>, width: usize)
    ensures
        texts(final(lines)@) == texts(old(lines)@) + running_lines(
            views_of(running@),
            width as nat,
        ),
{
    let ghost had = texts(lines@);
    let ghost all = running_lines(views_of(running@), width as nat);
    if running.len() == 0 {
        let note: String = colorize("No active agents", ANSI_GRAY);
        lines.push(concat("│  ", note.as_str()));
        proof {
            assert(texts(lines@) =~= had + all);
        }
        return;
    }
    let mut i: usize = 0;
    proof {
        assert(had + all.take(0) =~= had);
    }
    while i < running.len()
        invariant
            i <= running.len(),
            running.len() > 0,
            all == running_lines(views_of(running@), width as nat),
            texts(lines@) == had + all.take(i as int),
        decreases running.len() - i,
    {
        let ghost so_far = texts(lines@);
        lines.push(format_running_row(&running[i], width));
        proof {
            assert(texts(lines@) =~= so_far.push(all[i as int]));
            assert(had + all.take(i + 1) =~= (had + all.take(i as int)).push(all[i as int]));
        }
        i = i + 1;
    }
    proof {
        assert(all.take(i as int) =~= all);
    }
}

/// The rows of the tasks that wait.
pub open spec fn retry_lines(retrying: Seq<RetrySnapshotView>, now: i128) -> Seq<Seq<char>> {
    if retrying.len() == 0 {
        seq!["│  "@ + coloured("Retry queue is empty"@, ANSI_GRAY@)]
    } else {
        Seq::new(retrying.len(), |i: int| retry_row(retrying[i], now))
    }
}

fn push_retrying(lines: &mut Vec<String>, retrying: &Vec<RetrySnapshot>, now: i128)
    ensures
        texts(final(lines)@) == texts(old(lines)@) + retry_lines(views_of(retrying@), now),
{
    let ghost had = texts(lines@);
    let ghost all = retry_lines(views_of(retrying@), now);
    if retrying.len() == 0 {
        let note: String = colorize("Retry queue is empty", ANSI_GRAY);
        lines.push(concat("│  ", note.as_str()));
        proof {
            assert(texts(lines@) =~= had + all);
        }
        return;
    }
    let mut i: usize = 0;
    proof {
        assert(had + all.take(0) =~= had);
    }
    while i < retrying.len()
        invariant
            i <= retrying.len(),
            retrying.len() > 0,
            all == retry_lines(views_of(retrying@), now),
            texts(lines@) == had + all.take(i as int),
        decreases retrying.len() - i,
    {
        let ghost so_far = texts(lines@);
        lines.push(format_retry_row(&retrying[i], now));
        proof {
            assert(texts(lines@) =~= so_far.push(all[i as int]));
            assert(had + all.take(i + 1) =~= (had + all.take(i as int)).push(all[i as int]));
        }
        i = i + 1;
    }
    proof {
        assert(all.take(i as int) =~= all);
    }
}

// ---------------------------------------------------------------------------
// The screen
// ---------------------------------------------------------------------------

/// The lines of the dashboard.
pub open spec fn dashboard_lines(
    payload: StatePayloadView,
    numbers: NumbersView,
    width: nat,
    now: i128,
) -> Seq<Seq<char>> {
    usage_lines(payload, numbers) + link_line("│ Project: "@, payload.project_url) + link_line(
        "│ Dashboard: "@,
        payload.dashboard_url,
    ) + heading_lines(payload, width) + running_lines(payload.running, width) + seq![
        "│"@,
        coloured("├─ Backoff queue"@, ANSI_BOLD@),
        "│"@,
    ] + retry_lines(payload.retrying, now) + seq!["╰─"@]
}

/// The dashboard on a terminal. `numbers` are those of the rate limits.
pub fn render_terminal_dashboard(
    payload: &StatePayload,
    numbers: &LimitNumbers,
    terminal_columns: Option<usize>,
    now: i128,
) -> (r: String)
    ensures
        r@ == joined(
            dashboard_lines(payload@, numbers@, event_width(terminal_columns), now),
            "\n"@,
        ),
{
    let width: usize = running_event_width(terminal_columns);
    let mut lines: Vec<String> = render_usage(payload, numbers);
    push_link(&mut lines, "│ Project: ", &payload.links.project_url);
    push_link(&mut lines, "│ Dashboard: ", &payload.links.dashboard_url);
    push_heading(&mut lines, payload, width);
    push_running(&mut lines, &payload.running, width);
    let ghost had = texts(lines@);
    lines.push(owned("│"));
    lines.push(colorize("├─ Backoff queue", ANSI_BOLD));
    lines.push(owned("│"));
    proof {
        assert(texts(lines@) =~= had + seq![
            "│"@,
            coloured("├─ Backoff queue"@, ANSI_BOLD@),
            "│"@,
        ]);
    }
    push_retrying(&mut lines, &payload.retrying, now);
    let ghost had = texts(lines@);
    lines.push(owned("╰─"));
    proof {
        assert(texts(lines@) =~= had + seq!["╰─"@]);
        assert(texts(lines@) == dashboard_lines(payload@, numbers@, width as nat, now));
    }
    join(&lines, "\n")
}

/// A screen with nothing but a notice.
pub open spec fn notice(text: Seq<char>) -> Seq<char> {
    coloured("╭─ SYMPHONY STATUS"@, ANSI_BOLD@) + "\n"@ + coloured(text, ANSI_RED@) + "\n"@
        + "╰─"@
}

fn render_notice(text: &str) -> (r: String)
    ensures
        r@ == notice(text@),
{
    let mut out: String = colorize("╭─ SYMPHONY STATUS", ANSI_BOLD);
    let line: String = colorize(text, ANSI_RED);
    out.append("\n");
    out.append(line.as_str());
    out.append("\n");
    out.append("╰─");
    out
}

/// What is shown once the program has ended.
pub fn render_offline_status() -> (r: String)
    ensures
        r@ == notice("│ app_status=offline"@),
{
    render_notice("│ app_status=offline")
}

/// What is shown where the state cannot be had.
pub fn render_snapshot_unavailable_status() -> (r: String)
    ensures
        r@ == notice("│ Orchestrator snapshot unavailable"@),
{
    render_notice("│ Orchestrator snapshot unavailable")
}

// ---------------------------------------------------------------------------
// When the screen is drawn
// ---------------------------------------------------------------------------

/// Whether the screen has stood long enough; times are in nanoseconds of a clock that
/// does not go back.
pub open spec fn rerender_due(last_rendered_at: Option<u64>, now: u64) -> bool {
    match last_rendered_at {
        None => true,
        Some(last) => now >= last && (now - last) / 1_000_000 >= MINIMUM_IDLE_RERENDER_MS,
    }
}

/// Whether the screen has stood long enough.
pub fn periodic_rerender_due(last_rendered_at: Option<u64>, now: u64) -> (r: bool)
    ensures
        r == rerender_due(last_rendered_at, now),
{
    match last_rendered_at {
        None => true,
        Some(last) => now >= last && (now - last) / 1_000_000 >= MINIMUM_IDLE_RERENDER_MS,
    }
}

/// What is known of the screen: whether something may have changed since it was last
/// looked at, and what was drawn last, and when.
#[derive(Debug)]
pub struct Screen {
    pub dirty: bool,
    pub last_rendered_content: Option<String>,
    pub last_rendered_at: Option<u64>,
}

/// What is known of the screen.
pub struct ScreenView {
    pub dirty: bool,
    pub last_rendered_content: Option<Seq<char>>,
    pub last_rendered_at: Option<u64>,
}

impl View for Screen {
    type V = ScreenView;

    open spec fn view(&self) -> ScreenView {
        ScreenView {
            dirty: self.dirty,
            last_rendered_content: opt_text(self.last_rendered_content),
            last_rendered_at: self.last_rendered_at,
        }
    }
}

impl ScreenView {
    /// Whether it is time to look at the state.
    pub open spec fn wants_content(self, now: u64) -> bool {
        self.dirty || rerender_due(self.last_rendered_at, now)
    }

    /// Whether some content is to be drawn.
    pub open spec fn wants_drawing(self, content: Seq<char>, now: u64) -> bool {
        self.last_rendered_content != Some(content) || rerender_due(self.last_rendered_at, now)
    }
}

impl Screen {
    /// Whether there is a screen at all: only where it is asked for and a terminal is there.
    pub fn is_shown(terminal_enabled: bool, interactive_terminal: bool) -> (r: bool)
        ensures
            r == (terminal_enabled && interactive_terminal),
    {
        terminal_enabled && interactive_terminal
    }

    /// Nothing has been drawn yet.
    pub fn new() -> (r: Screen)
        ensures
            r@ == (ScreenView { dirty: true, last_rendered_content: None, last_rendered_at: None }),
    {
        Screen { dirty: true, last_rendered_content: None, last_rendered_at: None }
    }

    /// Something may have changed.
    pub fn mark_dirty(&mut self)
        ensures
            final(self)@ == (ScreenView { dirty: true, ..old(self)@ }),
    {
        self.dirty = true;
    }

    /// Whether it is time to look at the state.
    pub fn needs_content(&self, now: u64) -> (r: bool)
        ensures
            r == self@.wants_content(now),
    {
        self.dirty || periodic_rerender_due(self.last_rendered_at, now)
    }

    /// Takes in what the screen should show, and says whether it is to be drawn.
    pub fn needs_drawing(&mut self, content: &str, now: u64) -> (r: bool)
        ensures
            final(self)@ == (ScreenView { dirty: false, ..old(self)@ }),
            r == old(self)@.wants_drawing(content@, now),
    {
        self.dirty = false;
        let shown: bool = match &self.last_rendered_content {
            Some(last) => same(last.as_str(), content),
            None => false,
        };
        !shown || periodic_rerender_due(self.last_rendered_at, now)
    }

    /// The content has been drawn.
    pub fn drawn(&mut self, content: String, at: u64)
        ensures
            final(self)@ == (ScreenView {
                last_rendered_content: Some(content@),
                last_rendered_at: Some(at),
                ..old(self)@
            }),
    {
        self.last_rendered_content = Some(content);
        self.last_rendered_at = Some(at);
    }
}

/// A screen that has just been drawn is left alone for a second: until something changes
/// no content is asked for, and the same content is not drawn again.
pub proof fn law_idle_screens_rest(screen: ScreenView, content: Seq<char>, at: u64, now: u64)
    requires
        at <= now < at + 1_000_000_000,
        screen.last_rendered_content == Some(content),
        screen.last_rendered_at == Some(at),
    ensures
        !screen.wants_drawing(content, now),
        !screen.dirty ==> !screen.wants_content(now),
{
}

/// A screen is drawn again after a second, whatever it shows.
pub proof fn law_screens_are_redrawn(screen: ScreenView, content: Seq<char>, at: u64, now: u64)
    requires
        now >= at + 1_000_000_000,
        screen.last_rendered_at == Some(at),
    ensures
        screen.wants_content(now),
        screen.wants_drawing(content, now),
{
}

/// Other content is drawn at once.
pub proof fn law_changes_are_drawn(screen: ScreenView, content: Seq<char>, now: u64)
    requires
        screen.last_rendered_content != Some(content),
    ensures
        screen.wants_drawing(content, now),
{
}

/// Every task that runs and every task that waits has its line on the dashboard.
pub proof fn law_every_task_has_its_line(
    payload: StatePayloadView,
    numbers: NumbersView,
    width: nat,
    now: i128,
)
    ensures
        forall|i: int|
            0 <= i < payload.running.len() ==> dashboard_lines(
                payload,
                numbers,
                width,
                now,
            ).contains(#[trigger] running_row(payload.running[i], width)),
        forall|i: int|
            0 <= i < payload.retrying.len() ==> dashboard_lines(
                payload,
                numbers,
                width,
                now,
            ).contains(#[trigger] retry_row(payload.retrying[i], now)),
{
    let lines = dashboard_lines(payload, numbers, width, now);
    let before = usage_lines(payload, numbers) + link_line("│ Project: "@, payload.project_url)
        + link_line("│ Dashboard: "@, payload.dashboard_url) + heading_lines(payload, width);
    let middle = before + running_lines(payload.running, width) + seq![
        "│"@,
        coloured("├─ Backoff queue"@, ANSI_BOLD@),
        "│"@,
    ];
    assert forall|i: int| 0 <= i < payload.running.len() implies lines.contains(
        #[trigger] running_row(payload.running[i], width),
    ) by {
        assert(lines[before.len() + i] == running_lines(payload.running, width)[i]);
    }
    assert forall|i: int| 0 <= i < payload.retrying.len() implies lines.contains(
        #[trigger] retry_row(payload.retrying[i], now),
    ) by {
        assert(lines[middle.len() + i] == retry_lines(payload.retrying, now)[i]);
    }
}

} // verus!
