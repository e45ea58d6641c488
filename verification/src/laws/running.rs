//! How the program is started, what it logs, what it reports of tokens, and what it
//! answers to calls.
use vstd::prelude::*;

use crate::cli::{server_at, workflow_at, Args, ReasonView};
use crate::clock::{millis_between, millis_of, rfc3339, time_text};
use crate::http::{payload_status, refusal};
use crate::json::{at_path, JsonView, NumberView};
use crate::logging::{
    file_name, filter_base, filter_spec, is_about, joined_path, must_rotate, names_target,
};
use crate::observability::{SnapshotStatus, StatePayloadView};
use crate::table::{has_key, lookup};
use crate::text::{begins, decimal, joined, pieces, trimmed};
use crate::usage::{
    first_at, is_limits, limits_in, limits_in_entries, limits_in_items, session_paths, turn_paths,
    usage_counts, usage_of,
};

verus! {

broadcast use vstd::seq::group_seq_axioms;

// ---------------------------------------------------------------------------
// Starting and stopping
// ---------------------------------------------------------------------------

/// What is asked for on the command line goes before what is configured, and that before
/// what is usual. Without a port there is no server.
pub proof fn law_arguments_go_before_settings(
    args: Args,
    host: Option<Seq<char>>,
    port: Option<u16>,
)
    ensures
        server_at(args, host, port).0 == (match (args.host, host) {
            (Some(asked), _) => asked@,
            (None, Some(configured)) => configured,
            (None, None) => "127.0.0.1"@,
        }),
        server_at(args, host, port).1 == (match (args.port, port) {
            (Some(asked), _) => Some(asked),
            (None, configured) => configured,
        }),
{
}

/// The workflow is read from where it is asked for, or else from its usual file in the
/// current directory.
pub proof fn law_the_workflow_is_found(path: Seq<char>, dir: Seq<char>)
    ensures
        workflow_at(Some(path), Some(dir)) == path,
        workflow_at(Some(path), None) == path,
        workflow_at(None, Some(dir)) == if dir.len() == 0 || dir.last() == '/' {
            dir + "WORKFLOW.md"@
        } else {
            dir + "/"@ + "WORKFLOW.md"@
        },
        workflow_at(None, None) == "."@ + "/"@ + "WORKFLOW.md"@,
{
    reveal_strlit(".");
    assert("."@.len() == 1);
    assert("."@[0] == '.');
}

/// A path below another has exactly one slash between them.
pub proof fn law_paths_are_joined_by_one_slash(base: Seq<char>, relative: Seq<char>)
    ensures
        joined_path(base, relative) == if base.len() == 0 || base.last() == '/' {
            base + relative
        } else {
            base + "/"@ + relative
        },
{
}

/// What is told of a stop: nothing where it was asked for, and otherwise which part has
/// stopped and why.
pub proof fn law_stops_are_told_of(detail: Seq<char>)
    ensures
        ReasonView::Interrupt.message() is None,
        ReasonView::Terminate.message() is None,
        ReasonView::InterruptListenerFailed(detail).message() == Some(
            "Symphony stopped unexpectedly: interrupt listener failed: "@ + detail,
        ),
        ReasonView::OrchestratorExited(detail).message() == Some(
            "Symphony stopped unexpectedly: orchestrator exited: "@ + detail,
        ),
        ReasonView::HttpServerExited(detail).message() == Some(
            "Symphony stopped unexpectedly: HTTP server exited: "@ + detail,
        ),
        ReasonView::WorkflowWatcherExited(detail).message() == Some(
            "Symphony stopped unexpectedly: workflow watcher exited: "@ + detail,
        ),
        !ReasonView::Interrupt.unexpected(),
        !ReasonView::Terminate.unexpected(),
        ReasonView::InterruptListenerFailed(detail).unexpected(),
        ReasonView::OrchestratorExited(detail).unexpected(),
        ReasonView::HttpServerExited(detail).unexpected(),
        ReasonView::WorkflowWatcherExited(detail).unexpected(),
{
}

/// What is logged of a stop: whether it was asked for, which part stopped, and why.
pub proof fn law_stops_are_logged(detail: Seq<char>)
    ensures
        ReasonView::Interrupt.logged() == "runtime_shutdown status=requested component="@
            + "signal"@ + " detail="@ + "received_interrupt"@,
        ReasonView::Terminate.logged() == "runtime_shutdown status=requested component="@
            + "signal"@ + " detail="@ + "received_sigterm"@,
        ReasonView::InterruptListenerFailed(detail).logged()
            == "runtime_shutdown status=unexpected component="@ + "signal"@ + " detail="@ + detail,
        ReasonView::OrchestratorExited(detail).logged()
            == "runtime_shutdown status=unexpected component="@ + "orchestrator"@ + " detail="@
            + detail,
        ReasonView::HttpServerExited(detail).logged()
            == "runtime_shutdown status=unexpected component="@ + "http_server"@ + " detail="@
            + detail,
        ReasonView::WorkflowWatcherExited(detail).logged()
            == "runtime_shutdown status=unexpected component="@ + "workflow_watcher"@ + " detail="@
            + detail,
{
}

// ---------------------------------------------------------------------------
// Logging
// ---------------------------------------------------------------------------

/// A new file is begun exactly where a write would grow a file that is not empty beyond
/// the limit, or where no size is allowed at all.
pub proof fn law_full_files_are_rotated(max_bytes: u64, current_size: u64, incoming_bytes: u64)
    requires
        max_bytes < u64::MAX,
    ensures
        must_rotate(max_bytes, current_size, incoming_bytes) <==> max_bytes == 0 || (current_size
            > 0 && current_size + incoming_bytes > max_bytes),
{
}

/// The file that is written has the plain name; older ones are numbered.
pub proof fn law_older_files_are_numbered(path: Seq<char>, index: nat)
    ensures
        file_name(path, 0) == path,
        index > 0 ==> file_name(path, index) == path + "."@ + decimal(index),
{
}

/// What is filtered by: what was asked for, or else everything that informs; and for each
/// of the program's own targets that it does not name, what informs.
pub proof fn law_filters_are_completed(asked: Option<Seq<char>>)
    ensures
        ({
            let base = if asked is Some && trimmed(asked->0).len() > 0 {
                trimmed(asked->0)
            } else {
                "info"@
            };
            &&& filter_base(asked) == base
            &&& names_target(base, "symphony"@) && names_target(base, "symphony_rust"@)
                ==> filter_spec(asked) == base
            &&& names_target(base, "symphony"@) && !names_target(base, "symphony_rust"@)
                ==> filter_spec(asked) == base + ","@ + "symphony_rust=info"@
            &&& !names_target(base, "symphony"@) && names_target(base, "symphony_rust"@)
                ==> filter_spec(asked) == base + ","@ + "symphony=info"@
        }),
{
    reveal_strlit("");
    if let Some(spec) = asked {
        if trimmed(spec).len() == 0 {
            assert(trimmed(spec) =~= ""@);
        }
        assert(""@.len() == 0);
    }
    let base = filter_base(asked);
    reveal_with_fuel(joined, 3);
    let one = seq![base];
    assert(one + Seq::<Seq<char>>::empty() + Seq::<Seq<char>>::empty() =~= one);
    assert(one.drop_last() =~= Seq::<Seq<char>>::empty());
    let a = one + seq!["symphony_rust=info"@];
    assert(one + Seq::<Seq<char>>::empty() + seq!["symphony_rust=info"@] =~= a);
    assert(a.drop_last() =~= one);
    let b = one + seq!["symphony=info"@];
    assert(one + seq!["symphony=info"@] + Seq::<Seq<char>>::empty() =~= b);
    assert(b.drop_last() =~= one);
}

/// A filter names a target in one of its parts between commas, by itself or followed by
/// what is to be seen of it.
pub proof fn law_targets_are_named_in_parts(spec: Seq<char>, target: Seq<char>)
    ensures
        names_target(spec, target) <==> exists|i: int|
            0 <= i < pieces(spec, ',').len() && is_about(
                trimmed(#[trigger] pieces(spec, ',')[i]),
                target,
            ),
        forall|directive: Seq<char>| #[trigger]
            is_about(directive, target) <==> directive == target || begins(
                directive,
                target + "="@,
            ) || begins(directive, target + "["@),
{
}

// ---------------------------------------------------------------------------
// Times
// ---------------------------------------------------------------------------

/// A time is written from its whole seconds and the rest of them.
pub proof fn law_times_are_written_in_seconds(at: i128)
    ensures
        ({
            let seconds = at as int / 1_000_000_000;
            let nanos = at as int % 1_000_000_000;
            &&& at as int == seconds * 1_000_000_000 + nanos
            &&& 0 <= nanos < 1_000_000_000
            &&& i64::MIN <= seconds <= i64::MAX ==> time_text(at) == rfc3339(seconds, nanos)
            &&& !(i64::MIN <= seconds <= i64::MAX) ==> time_text(at) is None
        }),
{
}

/// The milliseconds of a time are its whole ones, as far as they can be held.
pub proof fn law_milliseconds_are_whole(at: i128)
    ensures
        i64::MIN <= millis_of(at) <= i64::MAX,
        i64::MIN < millis_of(at) < i64::MAX ==> millis_of(at) * 1_000_000 <= at < (millis_of(at)
            + 1) * 1_000_000,
{
}

/// The time from one point to another is what it is back, the other way round, and whole
/// milliseconds are added exactly.
pub proof fn law_spans_are_signed(from: int, to: int, ms: nat)
    ensures
        millis_between(from, to) == -millis_between(to, from),
        from <= to ==> 0 <= millis_between(from, to),
        ms <= i64::MAX ==> millis_between(from, from + ms * 1_000_000) == ms,
{
    assert((ms * 1_000_000) / 1_000_000 == ms as int);
}

// ---------------------------------------------------------------------------
// Tokens and limits
// ---------------------------------------------------------------------------

/// The number of tokens that is reported under one of two keys, the first before the
/// second, or none.
pub open spec fn reported(json: JsonView, first: Seq<char>, second: Seq<char>) -> Option<JsonView> {
    match json.get(first) {
        Some(found) => Some(found),
        None => json.get(second),
    }
}

/// Token counts are taken over under their plain names, whichever of the two spellings
/// they are reported in; a count that is missing or no integer is zero.
pub proof fn law_tokens_are_counted(json: JsonView, n: u64)
    requires
        n <= i64::MAX,
    ensures
        match usage_counts(json) {
            JsonView::Object(counts) => {
                &&& counts.len() == 3
                &&& counts[0].0 == "input_tokens"@
                &&& counts[1].0 == "output_tokens"@
                &&& counts[2].0 == "total_tokens"@
                &&& is_count(reported(json, "inputTokens"@, "input_tokens"@), counts[0].1, n)
                &&& is_count(reported(json, "outputTokens"@, "output_tokens"@), counts[1].1, n)
                &&& is_count(reported(json, "totalTokens"@, "total_tokens"@), counts[2].1, n)
            },
            _ => false,
        },
{
}

/// Whether a count is what was reported.
pub open spec fn is_count(found: Option<JsonView>, count: JsonView, n: u64) -> bool {
    &&& found == Some(JsonView::Number(NumberView::Unsigned(n))) ==> count == JsonView::Number(
        NumberView::Unsigned(n),
    )
    &&& !(found matches Some(JsonView::Number(_))) ==> count == JsonView::Number(
        NumberView::Unsigned(0),
    )
}

/// The value at the end of a path through objects.
pub open spec fn down(json: Option<JsonView>, key: Seq<char>) -> Option<JsonView> {
    match json {
        Some(json) => json.get(key),
        None => None,
    }
}

/// The first of two values that is there.
pub open spec fn or_else(a: Option<JsonView>, b: Option<JsonView>) -> Option<JsonView> {
    match a {
        Some(_) => a,
        None => b,
    }
}

/// Where a message reports the tokens of the session they are taken from there, from the
/// first of four places; only a message that a turn is complete reports those of the turn.
pub proof fn law_tokens_are_found_in_messages(message: JsonView)
    ensures
        ({
            let params = message.get("params"@);
            let msg = down(params, "msg"@);
            let session = or_else(
                down(down(down(msg, "payload"@), "info"@), "total_token_usage"@),
                or_else(
                    down(down(msg, "info"@), "total_token_usage"@),
                    or_else(
                        down(down(params, "tokenUsage"@), "total"@),
                        down(message.get("tokenUsage"@), "total"@),
                    ),
                ),
            );
            let turn = or_else(down(params, "usage"@), message.get("usage"@));
            usage_of(message) == match session {
                Some(found) => Some(usage_counts(found)),
                None => if message.get("method"@) == Some(JsonView::Text("turn/completed"@)) {
                    match turn {
                        Some(found) => Some(usage_counts(found)),
                        None => None,
                    }
                } else {
                    None
                },
            }
        }),
{
    reveal_with_fuel(first_at, 5);
    reveal_with_fuel(at_path, 6);
    let paths = session_paths();
    assert(paths.skip(1)[0] == paths[1]);
    assert(paths.skip(1).skip(1)[0] == paths[2]);
    assert(paths.skip(1).skip(1).skip(1)[0] == paths[3]);
    lemma_path5(
        message,
        "params"@,
        "msg"@,
        "payload"@,
        "info"@,
        "total_token_usage"@,
    );
    lemma_path4(message, "params"@, "msg"@, "info"@, "total_token_usage"@);
    lemma_path3(message, "params"@, "tokenUsage"@, "total"@);
    lemma_path2(message, "tokenUsage"@, "total"@);
    let ends = turn_paths();
    assert(ends.skip(1)[0] == ends[1]);
    lemma_path2(message, "params"@, "usage"@);
    assert(seq!["usage"@].skip(1) =~= Seq::<Seq<char>>::empty());
}

proof fn lemma_path2(json: JsonView, a: Seq<char>, b: Seq<char>)
    ensures
        at_path(json, seq![a, b]) == down(json.get(a), b),
{
    reveal_with_fuel(at_path, 3);
    assert(seq![a, b].skip(1) =~= seq![b]);
    assert(seq![b].skip(1) =~= Seq::<Seq<char>>::empty());
}

proof fn lemma_path3(json: JsonView, a: Seq<char>, b: Seq<char>, c: Seq<char>)
    ensures
        at_path(json, seq![a, b, c]) == down(down(json.get(a), b), c),
{
    assert(seq![a, b, c].skip(1) =~= seq![b, c]);
    if let Some(next) = json.get(a) {
        lemma_path2(next, b, c);
    }
}

proof fn lemma_path4(json: JsonView, a: Seq<char>, b: Seq<char>, c: Seq<char>, d: Seq<char>)
    ensures
        at_path(json, seq![a, b, c, d]) == down(down(down(json.get(a), b), c), d),
{
    assert(seq![a, b, c, d].skip(1) =~= seq![b, c, d]);
    if let Some(next) = json.get(a) {
        lemma_path3(next, b, c, d);
    }
}

proof fn lemma_path5(
    json: JsonView,
    a: Seq<char>,
    b: Seq<char>,
    c: Seq<char>,
    d: Seq<char>,
    e: Seq<char>,
)
    ensures
        at_path(json, seq![a, b, c, d, e]) == down(down(down(down(json.get(a), b), c), d), e),
{
    assert(seq![a, b, c, d, e].skip(1) =~= seq![b, c, d, e]);
    if let Some(next) = json.get(a) {
        lemma_path4(next, b, c, d, e);
    }
}

/// Rate limits are found wherever they stand: under their own key, as the value itself, or
/// inside any of its parts; where none of these holds any, none are found.
pub proof fn law_limits_are_found_anywhere(entries: Seq<(Seq<char>, JsonView)>, json: JsonView)
    ensures
        is_limits(json) <==> json is Object && (has_key(json->Object_0, "primary"@) || has_key(
            json->Object_0,
            "secondary"@,
        ) || has_key(json->Object_0, "credits"@)),
        ({
            let own = match lookup(entries, "rateLimits"@) {
                Some(found) => Some(found),
                None => lookup(entries, "rate_limits"@),
            };
            let whole = JsonView::Object(entries);
            &&& own is Some && is_limits(own->0) ==> limits_in(whole) == own
            &&& !(own is Some && is_limits(own->0)) && is_limits(whole) ==> limits_in(whole)
                == Some(whole)
            &&& !(own is Some && is_limits(own->0)) && !is_limits(whole) ==> (limits_in(whole)
                is Some <==> exists|i: int|
                0 <= i < entries.len() && limits_in((#[trigger] entries[i]).1) is Some)
        }),
{
    lemma_entry_limits(entries);
}

proof fn lemma_entry_limits(entries: Seq<(Seq<char>, JsonView)>)
    ensures
        limits_in_entries(entries) is Some <==> exists|i: int|
            0 <= i < entries.len() && limits_in((#[trigger] entries[i]).1) is Some,
    decreases entries.len(),
{
    if entries.len() > 0 {
        let rest = entries.subrange(1, entries.len() as int);
        lemma_entry_limits(rest);
        assert(forall|i: int| 1 <= i < entries.len() ==> #[trigger] entries[i] == rest[i - 1]);
        if limits_in_entries(rest) is Some {
            let i = choose|i: int|
                0 <= i < rest.len() && limits_in((#[trigger] rest[i]).1) is Some;
            assert(limits_in(entries[i + 1].1) is Some);
        }
        if exists|i: int| 0 <= i < entries.len() && limits_in((#[trigger] entries[i]).1) is Some {
            let i = choose|i: int|
                0 <= i < entries.len() && limits_in((#[trigger] entries[i]).1) is Some;
            if i > 0 {
                assert(limits_in(rest[i - 1].1) is Some);
            }
        }
    }
}

/// Limits in a list are those of the first item that holds any.
pub proof fn law_the_first_limits_count(items: Seq<JsonView>, n: int)
    requires
        0 <= n < items.len(),
        limits_in(items[n]) is Some,
        forall|i: int| 0 <= i < n ==> limits_in(#[trigger] items[i]) is None,
    ensures
        limits_in(JsonView::Array(items)) == limits_in(items[n]),
    decreases items.len(),
{
    lemma_first_limits(items, n);
}

proof fn lemma_first_limits(items: Seq<JsonView>, n: int)
    requires
        0 <= n < items.len(),
        limits_in(items[n]) is Some,
        forall|i: int| 0 <= i < n ==> limits_in(#[trigger] items[i]) is None,
    ensures
        limits_in_items(items) == limits_in(items[n]),
    decreases items.len(),
{
    if n > 0 {
        let rest = items.subrange(1, items.len() as int);
        assert(limits_in(items[0]) is None);
        assert(rest[n - 1] == items[n]);
        assert forall|i: int| 0 <= i < n - 1 implies limits_in(#[trigger] rest[i]) is None by {
            assert(rest[i] == items[i + 1]);
        }
        lemma_first_limits(rest, n - 1);
    }
}

// ---------------------------------------------------------------------------
// Answers
// ---------------------------------------------------------------------------

/// A call that is refused is answered with a code and a message. The state is answered as
/// unavailable exactly where there is no snapshot.
pub proof fn law_calls_are_answered(
    status: u16,
    code: Seq<char>,
    message: Seq<char>,
    payload: StatePayloadView,
)
    ensures
        refusal(status, code, message).status == status,
        refusal(status, code, message).body == JsonView::Object(
            seq![
                (
                    "error"@,
                    JsonView::Object(
                        seq![
                            ("code"@, JsonView::Text(code)),
                            ("message"@, JsonView::Text(message)),
                        ],
                    ),
                ),
            ],
        ),
        payload_status(payload) == 503 <==> payload.snapshot_status == SnapshotStatus::Unavailable,
        payload_status(payload) == 503 || payload_status(payload) == 200,
{
}

} // verus!
