//! How the agents that run are held against what the tracker says of their tasks, and how
//! their reports are taken in.
use vstd::prelude::*;

use crate::codex::EventView;
use crate::issue::IssueView;
use crate::json::{compact_of, JsonView};
use crate::laws::retry::is_untouched;
use crate::orchestrator::{
    first_with_id, missing_ids, poll_is_near, returned, updated_entry, ActionView, ReconcileView,
    RunningView, StateView, TokenSnapshot,
};
use crate::table::{has_key, lemma_changed_lookup, lemma_without_lookup, lookup};
use crate::text::{lowered, trimmed};
use crate::worker::close_succeeded;

verus! {

broadcast use {vstd::seq::group_seq_axioms, vstd::string::group_string_axioms};

/// Whether a step stops the agent on a task, removing its workspace or not: if one ran, the
/// caller is told to stop that one, and the task neither runs nor is claimed nor waits
/// afterwards.
pub open spec fn stops_agent(
    before: StateView,
    after: StateView,
    action: ActionView,
    id: Seq<char>,
    cleanup: bool,
) -> bool {
    &&& !has_key(after.running, id)
    &&& !has_key(after.claimed, id)
    &&& has_key(before.running, id) ==> !has_key(after.retry_attempts, id)
    &&& match lookup(before.running, id) {
        Some(entry) => action matches ActionView::Stop(stopped) && {
            &&& stopped.issue_id == id
            &&& stopped.identifier == entry.identifier
            &&& stopped.workspace_path == entry.workspace_path
            &&& stopped.worker_host == entry.worker_host
            &&& stopped.codex_app_server_pid == entry.codex_app_server_pid
            &&& stopped.cleanup_workspace == cleanup
        },
        None => action is Next,
    }
}

/// Whether the task of an agent is not expected to leave the active states: the agent has
/// not been seen to close it, and it was not in the state `Merging`.
pub open spec fn end_is_unexpected(state: StateView, id: Seq<char>) -> bool {
    lookup(state.running, id) matches Some(entry) && {
        &&& !entry.terminal_transition_permitted
        &&& lowered(trimmed(entry.issue.state)) != "merging"@
    }
}

proof fn lemma_terminated(state: StateView, id: Seq<char>, wall: i128, other: Seq<char>)
    requires
        state.sound(),
    ensures
        !has_key(state.terminated(id, wall).running, id),
        !has_key(state.terminated(id, wall).claimed, id),
        has_key(state.running, id) ==> !has_key(state.terminated(id, wall).retry_attempts, id),
        other != id ==> is_untouched(state, state.terminated(id, wall), other),
{
    lemma_without_lookup(state.running, id, id);
    lemma_without_lookup(state.claimed, id, id);
    lemma_without_lookup(state.retry_attempts, id, id);
    lemma_without_lookup(state.running, id, other);
    lemma_without_lookup(state.claimed, id, other);
    lemma_without_lookup(state.retry_attempts, id, other);
}

/// The agent on a task that the tracker returns goes on exactly where the task is assigned
/// to this worker, in one of the active states and in no terminal one; then its entry shows
/// the task as the tracker returns it, and nothing else is different. An agent whose task
/// is in no active state, or assigned to someone else, is stopped, and its workspace kept.
pub proof fn law_agents_follow_their_tasks(
    comparison: ReconcileView,
    state: StateView,
    active_states: Seq<Seq<char>>,
    terminal_states: Seq<Seq<char>>,
    restored: bool,
    wall: i128,
    other: Seq<char>,
)
    requires
        state.sound(),
        comparison.pending is None,
        comparison.missing.len() <= comparison.at < comparison.missing.len()
            + comparison.issues.len(),
    ensures
        ({
            let issue = comparison.issues[comparison.at - comparison.missing.len()];
            let key = lowered(trimmed(issue.state));
            let (next, after, action) = comparison.step(
                state,
                active_states,
                terminal_states,
                restored,
                wall,
            );
            let goes_on = issue.assigned_to_worker && active_states.contains(key);
            &&& !terminal_states.contains(key) && !goes_on ==> stops_agent(
                state,
                after,
                action,
                issue.id,
                false,
            )
            &&& !terminal_states.contains(key) && goes_on ==> {
                &&& action is Next
                &&& lookup(after.running, issue.id) == match lookup(state.running, issue.id) {
                    Some(entry) => Some(RunningView { issue, ..entry }),
                    None => None,
                }
                &&& after.claimed == state.claimed
                &&& after.retry_attempts == state.retry_attempts
            }
            &&& terminal_states.contains(key) && !end_is_unexpected(state, issue.id)
                ==> stops_agent(state, after, action, issue.id, true)
            &&& terminal_states.contains(key) && end_is_unexpected(state, issue.id) ==> {
                &&& action == ActionView::Restore((lookup(state.running, issue.id)->0).issue)
                &&& after == state
            }
            &&& has_key(state.running, issue.id) && has_key(after.running, issue.id) ==> {
                ||| issue.assigned_to_worker && active_states.contains(key)
                    && !terminal_states.contains(key)
                ||| action is Restore
            }
            &&& other != issue.id ==> is_untouched(state, after, other)
            &&& after.codex_totals.tokens == state.codex_totals.tokens
            &&& action !is Done
        }),
{
    let issue = comparison.issues[comparison.at - comparison.missing.len()];
    lemma_terminated(state, issue.id, wall, other);
    let entry = lookup(state.running, issue.id)->0;
    lemma_changed_lookup(state.running, issue.id, RunningView { issue, ..entry }, issue.id);
    lemma_changed_lookup(state.running, issue.id, RunningView { issue, ..entry }, other);
}

/// A task that the tracker does not return any more is made active again where that is
/// unexpected; else its agent is stopped and its workspace removed.
pub proof fn law_missing_tasks_are_restored_or_stopped(
    comparison: ReconcileView,
    state: StateView,
    active_states: Seq<Seq<char>>,
    terminal_states: Seq<Seq<char>>,
    restored: bool,
    wall: i128,
    other: Seq<char>,
)
    requires
        state.sound(),
        comparison.pending is None,
        comparison.at < comparison.missing.len(),
    ensures
        ({
            let id = comparison.missing[comparison.at as int];
            let (next, after, action) = comparison.step(
                state,
                active_states,
                terminal_states,
                restored,
                wall,
            );
            &&& end_is_unexpected(state, id) ==> {
                &&& action == ActionView::Restore((lookup(state.running, id)->0).issue)
                &&& next.pending == Some((lookup(state.running, id)->0).issue)
                &&& after == state
            }
            &&& !end_is_unexpected(state, id) ==> stops_agent(state, after, action, id, true)
            &&& other != id ==> is_untouched(state, after, other)
        }),
{
    lemma_terminated(state, comparison.missing[comparison.at as int], wall, other);
}

/// A task that could be made active again goes on as it was before, and is again not
/// expected to leave the active states; one that could not has its agent stopped and its
/// workspace removed.
pub proof fn law_restored_tasks_go_on(
    comparison: ReconcileView,
    state: StateView,
    active_states: Seq<Seq<char>>,
    terminal_states: Seq<Seq<char>>,
    restored: bool,
    wall: i128,
    other: Seq<char>,
)
    requires
        state.sound(),
        comparison.sound(),
        comparison.pending is Some,
    ensures
        ({
            let previous = comparison.pending->0;
            let (next, after, action) = comparison.step(
                state,
                active_states,
                terminal_states,
                restored,
                wall,
            );
            &&& restored ==> {
                &&& action is Next
                &&& lookup(after.running, previous.id) == match lookup(
                    state.running,
                    previous.id,
                ) {
                    Some(entry) => Some(
                        RunningView {
                            issue: previous,
                            terminal_transition_permitted: false,
                            ..entry
                        },
                    ),
                    None => None,
                }
                &&& after.claimed == state.claimed
            }
            &&& !restored ==> stops_agent(state, after, action, previous.id, true)
            &&& other != previous.id ==> is_untouched(state, after, other)
        }),
{
    let previous = comparison.pending->0;
    lemma_terminated(state, previous.id, wall, other);
    let entry = RunningView {
        issue: previous,
        terminal_transition_permitted: false,
        ..(lookup(state.running, previous.id)->0)
    };
    lemma_changed_lookup(state.running, previous.id, entry, previous.id);
    lemma_changed_lookup(state.running, previous.id, entry, other);
}

proof fn lemma_returned(issues: Seq<IssueView>, id: Seq<char>)
    ensures
        returned(issues, id) <==> exists|i: int|
            0 <= i < issues.len() && (#[trigger] issues[i]).id == id,
    decreases issues.len(),
{
    if issues.len() > 0 {
        let rest = issues.drop_last();
        lemma_returned(rest, id);
        if returned(rest, id) {
            let i = choose|i: int| 0 <= i < rest.len() && (#[trigger] rest[i]).id == id;
            assert(issues[i].id == id);
        }
        if issues.last().id == id {
            assert(issues[issues.len() - 1].id == id);
        }
        if exists|i: int| 0 <= i < issues.len() && (#[trigger] issues[i]).id == id {
            let i = choose|i: int| 0 <= i < issues.len() && (#[trigger] issues[i]).id == id;
            if i < rest.len() {
                assert(rest[i].id == id);
            }
        }
    }
}

/// A task counts as missing exactly where it was asked for and is not among those that the
/// tracker returned.
pub proof fn law_missing_tasks_were_not_returned(
    ids: Seq<Seq<char>>,
    issues: Seq<IssueView>,
    id: Seq<char>,
)
    ensures
        missing_ids(ids, issues).contains(id) <==> ids.contains(id) && !(exists|i: int|
            0 <= i < issues.len() && (#[trigger] issues[i]).id == id),
    decreases ids.len(),
{
    lemma_returned(issues, id);
    let all = missing_ids(ids, issues);
    if ids.len() > 0 {
        let rest = ids.drop_last();
        let earlier = missing_ids(rest, issues);
        law_missing_tasks_were_not_returned(rest, issues, id);
        assert(ids.contains(id) <==> rest.contains(id) || ids.last() == id) by {
            if ids.contains(id) {
                let k = choose|k: int| 0 <= k < ids.len() && ids[k] == id;
                if k < rest.len() {
                    assert(rest[k] == id);
                }
            }
            if rest.contains(id) {
                let k = choose|k: int| 0 <= k < rest.len() && rest[k] == id;
                assert(ids[k] == id);
            }
            assert(ids[ids.len() - 1] == ids.last());
        }
        if !returned(issues, ids.last()) {
            assert(all == earlier.push(ids.last()));
            assert(all.contains(id) <==> earlier.contains(id) || ids.last() == id) by {
                if earlier.contains(id) {
                    let k = choose|k: int| 0 <= k < earlier.len() && earlier[k] == id;
                    assert(all[k] == id);
                }
                assert(all[all.len() - 1] == ids.last());
            }
        }
    }
}

/// The task that is found by its identifier has it, and is found wherever there is one.
pub proof fn law_tasks_are_found_by_identifier(issues: Seq<IssueView>, id: Seq<char>)
    ensures
        match first_with_id(issues, id) {
            Some(issue) => issue.id == id && issues.contains(issue),
            None => forall|i: int| 0 <= i < issues.len() ==> (#[trigger] issues[i]).id != id,
        },
    decreases issues.len(),
{
    if issues.len() > 0 {
        let rest = issues.skip(1);
        law_tasks_are_found_by_identifier(rest, id);
        if issues[0].id == id {
            assert(issues.contains(issues[0]));
        } else {
            match first_with_id(issues, id) {
                Some(issue) => {
                    let k = choose|k: int| 0 <= k < rest.len() && rest[k] == issue;
                    assert(issues[k + 1] == issue);
                },
                None => {
                    assert forall|i: int| 0 <= i < issues.len() implies (#[trigger] issues[i]).id
                        != id by {
                        if i > 0 {
                            assert(rest[i - 1] == issues[i]);
                        }
                    }
                },
            }
        }
    }
}

// ---------------------------------------------------------------------------
// Reports
// ---------------------------------------------------------------------------

/// A count of tokens in a report; one that is missing or no such number is zero.
pub open spec fn told_count(usage: JsonView, key: Seq<char>) -> int {
    match usage.get(key) {
        Some(value) => match value.as_u64() {
            Some(n) => n as int,
            None => 0,
        },
        None => 0,
    }
}

/// The larger of two numbers.
pub open spec fn at_least(a: int, b: int) -> int {
    if a > b {
        a
    } else {
        b
    }
}

/// Whether the counts of a worker have grown to what its report tells, none of them
/// shrinking, and the counts of all workers by the same amounts.
pub open spec fn is_charged(
    last: TokenSnapshot,
    usage: JsonView,
    worker: (TokenSnapshot, TokenSnapshot),
    totals: (TokenSnapshot, TokenSnapshot),
) -> bool {
    let input = at_least(told_count(usage, "input_tokens"@), last.input_tokens as int);
    let output = at_least(told_count(usage, "output_tokens"@), last.output_tokens as int);
    let total = at_least(told_count(usage, "total_tokens"@), last.total_tokens as int);
    &&& worker.1.input_tokens == worker.0.input_tokens + (input - last.input_tokens)
    &&& worker.1.output_tokens == worker.0.output_tokens + (output - last.output_tokens)
    &&& worker.1.total_tokens == worker.0.total_tokens + (total - last.total_tokens)
    &&& totals.1.input_tokens == totals.0.input_tokens + (input - last.input_tokens)
    &&& totals.1.output_tokens == totals.0.output_tokens + (output - last.output_tokens)
    &&& totals.1.total_tokens == totals.0.total_tokens + (total - last.total_tokens)
}

/// A report of an agent is noted on its task: when it came, what it was, what it said and
/// what it used. What it used is charged once, to the agent and to all agents alike.
/// Nothing else is different, and nothing at all where the task does not run.
pub proof fn law_reports_are_noted(
    state: StateView,
    id: Seq<char>,
    event: EventView,
    other: Seq<char>,
)
    requires
        state.sound(),
        state.update_fits(id, event),
    ensures
        ({
            let after = state.updated(id, event);
            let had = lookup(state.running, id)->0;
            let has = lookup(after.running, id)->0;
            &&& has_key(after.running, id) == has_key(state.running, id)
            &&& !has_key(state.running, id) ==> after == state
            &&& has_key(state.running, id) ==> {
                &&& has.last_codex_timestamp == Some(event.timestamp)
                &&& has.last_codex_event == Some(event.event)
                &&& event.message is Some ==> has.last_codex_message == event.message
                &&& event.message is None && event.raw is Some ==> has.last_codex_message
                    == event.raw
                &&& event.message is None && event.raw is None ==> has.last_codex_message
                    == match event.payload {
                    Some(payload) => Some(compact_of(payload)),
                    None => None,
                }
                &&& event.event == "session_started"@ ==> has.session_id == event.session_id
                &&& event.event != "session_started"@ ==> has.session_id == had.session_id
                    && has.turn_count == had.turn_count
                &&& event.event == "session_started"@ && event.session_id != had.session_id
                    ==> has.turn_count == had.turn_count + 1
                &&& event.event == "session_started"@ && event.session_id == had.session_id
                    ==> has.turn_count == had.turn_count
                &&& event.codex_app_server_pid is Some ==> has.codex_app_server_pid
                    == event.codex_app_server_pid
                &&& event.codex_app_server_pid is None ==> has.codex_app_server_pid
                    == had.codex_app_server_pid
                &&& event.worker_host is Some ==> has.worker_host == event.worker_host
                &&& event.worker_host is None ==> has.worker_host == had.worker_host
                &&& has.terminal_transition_permitted <==> had.terminal_transition_permitted
                    || close_succeeded(event.payload, id)
                &&& event.usage matches Some(usage) ==> is_charged(
                    had.last_reported_tokens,
                    usage,
                    (had.codex_tokens, has.codex_tokens),
                    (state.codex_totals.tokens, after.codex_totals.tokens),
                )
                &&& event.usage is None ==> has.codex_tokens == had.codex_tokens
                    && after.codex_totals.tokens == state.codex_totals.tokens
                &&& event.rate_limits is Some ==> after.codex_rate_limits == event.rate_limits
                &&& event.rate_limits is None ==> after.codex_rate_limits
                    == state.codex_rate_limits
                &&& has.issue == had.issue
                &&& has.retry_attempt == had.retry_attempt
                &&& has.started_at == had.started_at
                &&& has.workspace_path == had.workspace_path
                &&& has.recent_events.len() > 0
                &&& has.recent_events.last().event == event.event
                &&& has.recent_events.last().at == event.timestamp
                &&& has.recent_events.last().message == has.last_codex_message
                &&& has.recent_events.len() <= 100
                &&& had.recent_events.len() < 100 ==> has.recent_events.drop_last()
                    == had.recent_events
                &&& had.recent_events.len() == 100 ==> has.recent_events.drop_last()
                    == had.recent_events.skip(1)
            }
            &&& other != id ==> is_untouched(state, after, other)
            &&& after.claimed == state.claimed
            &&& after.retry_attempts == state.retry_attempts
            &&& after.codex_totals.ended_ms == state.codex_totals.ended_ms
        }),
{
    if has_key(state.running, id) {
        let had = lookup(state.running, id)->0;
        let new = updated_entry(id, had, event);
        lemma_changed_lookup(state.running, id, new, id);
        lemma_changed_lookup(state.running, id, new, other);
        let note = new.recent_events.last();
        let all = had.recent_events.push(note);
        if had.recent_events.len() == 100 {
            assert(new.recent_events.drop_last() =~= had.recent_events.skip(1));
        } else {
            assert(new.recent_events.drop_last() =~= had.recent_events);
        }
    }
}

/// An agent is seen to close its task only by a call of the Todoist tool that succeeded,
/// with the action `close_task` and the identifier of that task.
pub proof fn law_closing_is_seen(payload: JsonView, id: Seq<char>)
    requires
        close_succeeded(Some(payload), id),
    ensures
        payload.get("toolResult"@) is Some,
        payload.get("toolResult"@)->0.get("success"@) == Some(JsonView::Bool(true)),
        payload.get("params"@) is Some,
        payload.get("params"@)->0.get("arguments"@) is Some,
        payload.get("params"@)->0.get("arguments"@)->0.get("action"@) == Some(
            JsonView::Text("close_task"@),
        ),
{
}

/// A poll falls together with another exactly where one is under way, or is due by now.
pub proof fn law_polls_fall_together(state: StateView, now: u64)
    ensures
        state.poll_check_in_progress ==> poll_is_near(state, now),
        !state.poll_check_in_progress && state.next_poll_due_at is None ==> !poll_is_near(
            state,
            now,
        ),
        !state.poll_check_in_progress && state.next_poll_due_at is Some ==> (poll_is_near(
            state,
            now,
        ) <==> state.next_poll_due_at->0 <= now),
{
}

/// A comparison looks at one task after the other, at those that are missing and then at
/// those that the tracker returned, each of them once; a restoration that was asked for is
/// answered before the next. It is done exactly after the last, and then changes nothing.
pub proof fn law_every_task_is_compared(
    comparison: ReconcileView,
    state: StateView,
    active_states: Seq<Seq<char>>,
    terminal_states: Seq<Seq<char>>,
    restored: bool,
    wall: i128,
)
    ensures
        ({
            let (next, after, action) = comparison.step(
                state,
                active_states,
                terminal_states,
                restored,
                wall,
            );
            let all = comparison.missing.len() + comparison.issues.len();
            &&& action is Done <==> comparison.at >= all
            &&& action is Done ==> after == state && next == comparison
            &&& next.missing == comparison.missing
            &&& next.issues == comparison.issues
            &&& action is Restore ==> next.at == comparison.at && next.pending is Some
                && comparison.pending is None
            &&& action is Next || action is Stop ==> next.at == comparison.at + 1
                && next.pending is None
        }),
{
}

} // verus!
