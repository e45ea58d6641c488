//! Numbers, spans of time and rows of the dashboard show what they stand for.
use vstd::prelude::*;

use crate::display::{
    cell, cleaned, coloured, cut_short, duration, grouped, inlined, is_alnum, is_displayed,
    replaced, sanitized, slug, status_words, two_digits,
};
use crate::humanize::NumbersView;
use crate::observability::{RunningEntryView, StatePayloadView};
use crate::snapshot::{PollingSnapshot, RetrySnapshotView};
use crate::terminal::{
    event_line, event_width, polling_words, retry_row, running_cells, running_row,
    seconds_until, usage_lines,
};
use crate::text::{decimal, first_chars, joined, lowered, trimmed, words};
use crate::throughput::{
    block, column_start, columns, current_rate, graph, in_column, kept, rate_between,
    rates_in, second_of, steps, TokenRate, TokenSample,
};

verus! {

broadcast use vstd::seq::group_seq_axioms;

// ---------------------------------------------------------------------------
// Texts
// ---------------------------------------------------------------------------

/// A text that is too long is cut and ends in three dots; any other is kept.
pub proof fn law_long_texts_are_cut_short(s: Seq<char>, max: nat)
    ensures
        s.len() <= max ==> cut_short(s, max) == s,
        s.len() > max ==> cut_short(s, max) == s.take(max as int) + "..."@,
        inlined(s) == cut_short(sanitized(s), 80),
{
}

/// Exactly the characters that can be displayed are kept: those that control nothing, and
/// the line breaks and tabs.
pub proof fn law_undisplayable_characters_are_left_out(s: Seq<char>, c: char)
    ensures
        cleaned(s) == s.filter(|c: char| is_displayed(c)),
        is_displayed(c) <==> c == '\n' || c == '\t' || c == '\r' || ('\u{20}' <= c && c < '\u{7f}')
            || '\u{9f}' < c,
    decreases s.len(),
{
    reveal(Seq::filter);
    if s.len() > 0 {
        law_undisplayable_characters_are_left_out(s.drop_last(), c);
    }
}

/// A cell shows its text, cut where it is too wide, and blanks up to its width.
pub proof fn law_cells_show_their_text(s: Seq<char>, width: nat, i: int)
    requires
        s.len() <= width,
        0 <= i < width,
    ensures
        cell(s, width).len() == width,
        i < s.len() ==> cell(s, width)[i] == s[i],
        i >= s.len() ==> cell(s, width)[i] == ' ',
{
}

/// A coloured text stands between its colour and the end of all colours.
pub proof fn law_colours_end(value: Seq<char>, ansi: Seq<char>)
    ensures
        coloured(value, ansi) == ansi + value + "\u{1b}[0m"@,
{
}

/// A state is shown in lower case, with blanks between its words.
pub proof fn law_states_are_shown_in_words(s: Seq<char>)
    ensures
        status_words(s) == lowered(
            joined(words(replaced(replaced(s, '_', " "@), '-', " "@)), " "@),
        ),
        slug(s).len() == lowered(trimmed(s)).len(),
        forall|i: int|
            0 <= i < slug(s).len() ==> #[trigger] slug(s)[i] == if is_alnum(
                lowered(trimmed(s))[i],
            ) {
                lowered(trimmed(s))[i]
            } else {
                '-'
            },
{
}

// ---------------------------------------------------------------------------
// Numbers
// ---------------------------------------------------------------------------

/// The last three digits of a long number stand behind a comma, and what is before them is
/// grouped likewise.
pub proof fn law_digits_are_grouped_by_three(head: Seq<char>, a: char, b: char, c: char)
    ensures
        head.len() == 0 ==> grouped(seq![a, b, c]) == seq![a, b, c],
        head.len() > 0 ==> grouped(head + seq![a, b, c]) == grouped(head) + ","@ + seq![a, b, c],
{
    let all = head + seq![a, b, c];
    assert(all.take(all.len() - 3) =~= head);
    assert(all.skip(all.len() - 3) =~= seq![a, b, c]);
}

/// A span of time is shown in its hours, minutes and seconds, to the nearest second, with
/// two digits each; without hours they are left out.
pub proof fn law_durations_add_up(hours: nat, minutes: nat, seconds: nat)
    requires
        minutes < 60,
        seconds < 60,
    ensures
        duration(((hours * 60 + minutes) * 60 + seconds) * 1_000) == if hours == 0 {
            two_digits(minutes) + ":"@ + two_digits(seconds)
        } else {
            two_digits(hours) + ":"@ + two_digits(minutes) + ":"@ + two_digits(seconds)
        },
        two_digits(seconds) == if seconds < 10 {
            "0"@ + decimal(seconds)
        } else {
            decimal(seconds)
        },
{
    let all = (hours * 60 + minutes) * 60 + seconds;
    assert((all * 1_000 + 500) / 1_000 == all);
    assert(all / 3_600 == hours);
    assert((all % 3_600) / 60 == minutes);
    assert(all % 60 == seconds);
}

/// Spans of time that round to the same second are shown alike.
pub proof fn law_durations_are_rounded(seconds: nat, ms: nat)
    requires
        seconds * 1_000 <= ms + 500 < (seconds + 1) * 1_000,
    ensures
        duration(ms) == duration(seconds * 1_000),
{
    assert((ms + 500) / 1_000 == seconds);
    assert((seconds * 1_000 + 500) / 1_000 == seconds);
}

// ---------------------------------------------------------------------------
// Throughput
// ---------------------------------------------------------------------------

/// A rate counts the tokens between two samples, never fewer than none, over the time
/// between them.
pub proof fn law_rates_are_differences(start: TokenSample, end: TokenSample)
    requires
        start.at_ms <= end.at_ms,
    ensures
        start.tokens <= end.tokens ==> rate_between(start, end).tokens == end.tokens - start.tokens,
        start.tokens > end.tokens ==> rate_between(start, end).tokens == 0,
        rate_between(start, end).elapsed_ms == end.at_ms - start.at_ms,
{
}

/// The rate of now is taken from the oldest sample of the last five seconds; without one
/// nothing was used in no time.
pub proof fn law_the_current_rate_is_recent(samples: Seq<TokenSample>, now: TokenSample, i: int)
    requires
        0 <= i < samples.len(),
        samples[i].at_ms >= now.at_ms - 5_000,
        forall|j: int| i < j < samples.len() ==> (#[trigger] samples[j]).at_ms < now.at_ms - 5_000,
    ensures
        current_rate(samples, now) == rate_between(samples[i], now),
    decreases samples.len(),
{
    if i < samples.len() - 1 {
        let front = samples.drop_last();
        assert(samples[samples.len() - 1].at_ms < now.at_ms - 5_000);
        assert(front[i] == samples[i]);
        assert forall|j: int| i < j < front.len() implies (#[trigger] front[j]).at_ms < now.at_ms
            - 5_000 by {
            assert(front[j] == samples[j]);
        }
        law_the_current_rate_is_recent(front, now, i);
    }
}

/// Without a sample of the last five seconds nothing was used in no time.
pub proof fn law_old_samples_give_no_rate(samples: Seq<TokenSample>, now: TokenSample)
    requires
        forall|j: int| 0 <= j < samples.len() ==> (#[trigger] samples[j]).at_ms < now.at_ms - 5_000,
    ensures
        current_rate(samples, now) == (TokenRate { tokens: 0, elapsed_ms: 0 }),
    decreases samples.len(),
{
    if samples.len() > 0 {
        let front = samples.drop_last();
        assert(samples[samples.len() - 1].at_ms < now.at_ms - 5_000);
        assert forall|j: int| 0 <= j < front.len() implies (#[trigger] front[j]).at_ms < now.at_ms
            - 5_000 by {
            assert(front[j] == samples[j]);
        }
        law_old_samples_give_no_rate(front, now);
    }
}

/// Only samples at the end that are too old are let go of.
pub proof fn law_recent_samples_are_kept(samples: Seq<TokenSample>, oldest: int, i: int)
    requires
        0 <= i < samples.len(),
        samples[i].at_ms >= oldest,
    ensures
        i < kept(samples, oldest).len(),
        kept(samples, oldest)[i] == samples[i],
    decreases samples.len(),
{
    if samples.last().at_ms < oldest {
        assert(samples[samples.len() - 1] == samples.last());
        assert(samples.drop_last()[i] == samples[i]);
        law_recent_samples_are_kept(samples.drop_last(), oldest, i);
    }
}

/// The graph has a rate for every sample but the first, at the time of that sample.
pub proof fn law_the_graph_has_a_step_for_each_sample(samples: Seq<TokenSample>, i: int)
    requires
        0 < i < samples.len(),
    ensures
        steps(samples).len() == samples.len() - 1,
        steps(samples)[i - 1].0 == samples[i].at_ms,
        steps(samples)[i - 1].1 == rate_between(samples[i - 1], samples[i]),
{
}

/// The columns of the graph follow each other at twenty-five seconds each, and a rate falls
/// into the column that holds its time.
pub proof fn law_columns_hold_their_time(
    all: Seq<(i64, TokenRate)>,
    at_ms: i64,
    now_ms: i64,
    column: int,
)
    ensures
        column_start(now_ms, column + 1) == column_start(now_ms, column) + 25_000,
        now_ms >= 0 ==> column_start(now_ms, 23) <= now_ms < column_start(now_ms, 24),
        in_column(at_ms, now_ms, column) <==> column_start(now_ms, column) <= at_ms && (at_ms
            < column_start(now_ms, column + 1) || (column == 23 && at_ms == column_start(
            now_ms,
            24,
        ))),
        rates_in(all, now_ms, column) == all.filter(
            |step: (i64, TokenRate)| in_column(step.0, now_ms, column),
        ).map_values(|step: (i64, TokenRate)| step.1),
    decreases all.len(),
{
    reveal(Seq::filter);
    let inside = |step: (i64, TokenRate)| in_column(step.0, now_ms, column);
    let rate = |step: (i64, TokenRate)| step.1;
    if all.len() > 0 {
        law_columns_hold_their_time(all.drop_last(), at_ms, now_ms, column);
        assert(all.filter(inside).map_values(rate) =~= if inside(all.last()) {
            all.drop_last().filter(inside).map_values(rate).push(all.last().1)
        } else {
            all.drop_last().filter(inside).map_values(rate)
        });
    } else {
        assert(all.filter(inside).map_values(rate) =~= Seq::empty());
    }
}

/// There are twenty-four columns, each of its own rates.
pub proof fn law_the_graph_has_all_its_columns(
    samples: Seq<TokenSample>,
    now: TokenSample,
    i: int,
)
    requires
        0 <= i < 24,
    ensures
        columns(samples, now).len() == 24,
        columns(samples, now)[i] == rates_in(
            steps(crate::sorting::ranked::<TokenSample>(samples.push(now))),
            now.at_ms,
            i,
        ),
{
}

/// A second lasts from one whole thousand of milliseconds to the next, away from zero.
pub proof fn law_seconds_are_whole(ms: i64)
    ensures
        ms >= 0 ==> second_of(ms) * 1_000 <= ms < (second_of(ms) + 1) * 1_000,
        ms < 0 ==> (second_of(ms) - 1) * 1_000 < ms <= second_of(ms) * 1_000,
{
}

/// A taller column has a taller block, and the graph is one block after the other.
pub proof fn law_blocks_show_heights(heights: Seq<usize>, height: usize)
    ensures
        block(0) == "▁"@,
        block(1) == "▂"@,
        block(2) == "▃"@,
        block(3) == "▄"@,
        block(4) == "▅"@,
        block(5) == "▆"@,
        block(6) == "▇"@,
        block(7) == "█"@,
        graph(heights.push(height)) == graph(heights) + block(height),
        graph(Seq::empty()) == Seq::<char>::empty(),
{
    assert(heights.push(height).drop_last() =~= heights);
}

// ---------------------------------------------------------------------------
// Rows
// ---------------------------------------------------------------------------

/// The row of a task that runs shows its name, its state, its session, its process, how
/// long it has run in how many turns, what its agent last did, and its tokens.
pub proof fn law_rows_show_their_task(entry: RunningEntryView, width: nat)
    ensures
        ({
            let cells = running_cells(entry, width);
            &&& cells.len() == 7
            &&& cells[0] == coloured(cell(entry.issue_identifier, 10), "\u{1b}[36m"@)
            &&& cells[2] == cell(
                match entry.session_id {
                    Some(id) => first_chars(id, 12),
                    None => "n/a"@,
                },
                14,
            )
            &&& cells[3] == cell(
                match entry.app_server_pid {
                    Some(pid) => decimal(pid as nat),
                    None => "n/a"@,
                },
                8,
            )
            &&& cells[4] == cell(
                duration(entry.runtime_ms as nat) + " / "@ + decimal(entry.turn_count as nat)
                    + "t"@,
                14,
            )
            &&& cells[5] == cell(sanitized(event_line(entry)), width)
            &&& cells[6] == cell(grouped(decimal(entry.tokens.total_tokens as nat)), 10)
            &&& running_row(entry, width) == "│ "@ + joined(cells, " "@)
        }),
{
}

/// The row of a task that waits shows its name, its attempt, its host, when it is due and
/// why it waits.
pub proof fn law_rows_show_what_waits(entry: RetrySnapshotView, now: i128)
    ensures
        retry_row(entry, now) == "│  "@ + coloured(entry.issue_identifier, "\u{1b}[36m"@)
            + " attempt="@ + decimal(entry.attempt as nat) + " worker="@ + inlined(
            match entry.worker_host {
                Some(host) => host,
                None => "local"@,
            },
        ) + " due_in="@ + decimal(seconds_until(entry.due_at, now)) + "s error="@ + inlined(
            match entry.error {
                Some(error) => error,
                None => "none"@,
            },
        ),
        entry.due_at <= now ==> seconds_until(entry.due_at, now) == 0,
{
}

/// What an agent last did is shown with the host that it runs on.
pub proof fn law_rows_show_the_last_event(entry: RunningEntryView)
    ensures
        event_line(entry) == (match (entry.worker_host, entry.last_message) {
            (Some(host), Some(message)) => host + ": "@ + message,
            (Some(host), None) => host + ": "@ + "No Codex message yet."@,
            (None, Some(message)) => message,
            (None, None) => "No Codex message yet."@,
        }),
{
}

/// The room for events is what the other columns leave of the screen, and a narrow screen
/// counts as one of ninety-six columns.
pub proof fn law_events_take_the_room_that_is_left(columns: usize)
    ensures
        columns >= 96 ==> event_width(Some(columns)) == columns - 86,
        columns < 96 ==> event_width(Some(columns)) == 10,
        event_width(None) == 46,
{
}

/// When the tracker is asked again is shown in whole seconds, never too few.
pub proof fn law_the_next_poll_is_shown(polling: PollingSnapshot)
    ensures
        polling.checking ==> polling_words(polling) == "checking now…"@,
        !polling.checking && polling.next_poll_in_ms is None ==> polling_words(polling) == "n/a"@,
        !polling.checking ==> (polling.next_poll_in_ms matches Some(ms) ==> exists|seconds: nat|
            #[trigger] decimal(seconds) + "s"@ == polling_words(polling) && ms <= seconds * 1_000
                < ms + 1_000),
{
    if !polling.checking {
        if let Some(ms) = polling.next_poll_in_ms {
            let seconds = (ms as nat + 999) / 1000;
            assert(decimal(seconds) + "s"@ == polling_words(polling));
        }
    }
}

/// The head of the dashboard shows how many agents run of how many may, the throughput,
/// the time, and the limits.
pub proof fn law_the_head_shows_the_totals(payload: StatePayloadView, numbers: NumbersView)
    ensures
        ({
            let head = usage_lines(payload, numbers);
            &&& head.len() == 7
            &&& head[1] == coloured("│ Agents: "@, "\u{1b}[1m"@) + coloured(
                decimal(payload.counts.running),
                "\u{1b}[32m"@,
            ) + coloured("/"@, "\u{1b}[90m"@) + coloured(
                decimal(payload.max_concurrent_agents as nat),
                "\u{1b}[90m"@,
            )
            &&& head[2] == coloured("│ Throughput: "@, "\u{1b}[1m"@) + coloured(
                payload.tps_5s + " tps"@,
                "\u{1b}[36m"@,
            )
            &&& head[3] == coloured("│ Runtime: "@, "\u{1b}[1m"@) + coloured(
                duration(payload.codex_totals.running_ms as nat),
                "\u{1b}[35m"@,
            )
            &&& head[4] == coloured("│ Tokens: "@, "\u{1b}[1m"@) + coloured(
                "in "@ + grouped(decimal(payload.codex_totals.tokens.input_tokens as nat)),
                "\u{1b}[33m"@,
            ) + coloured(" | "@, "\u{1b}[90m"@) + coloured(
                "out "@ + grouped(decimal(payload.codex_totals.tokens.output_tokens as nat)),
                "\u{1b}[33m"@,
            ) + coloured(" | "@, "\u{1b}[90m"@) + coloured(
                "total "@ + grouped(decimal(payload.codex_totals.tokens.total_tokens as nat)),
                "\u{1b}[33m"@,
            )
        }),
{
}

} // verus!
