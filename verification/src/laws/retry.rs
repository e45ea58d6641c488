//! What follows when an agent ends, fails or falls silent: whether its task is taken up
//! again, after how long, and with what.
use vstd::arithmetic::power2::{lemma2_to64, lemma_pow2_unfold, pow2};
use vstd::prelude::*;

use crate::issue::IssueView;
use crate::laws::dispatch::{finds_host, is_workable, workers_in};
use crate::orchestrator::{
    cleanup_hosts, continuation_request, doubled, failure_request, is_stalled,
    law_retry_keeps_state_sound, law_termination_keeps_state_sound, no_slot_request,
    poll_failed_request, retry_delay, stall_request, stalled_ids, RetryRequestView, RetryStepView,
    RetryView, RunningView, StateView, TimerView,
};
use crate::table::{
    has_key, in_order, lemma_lookup_at, lemma_lookup_index, lemma_put_lookup, lemma_without_lookup,
    lookup,
};
use crate::text::{lowered, trimmed};
use crate::worker::{host_name, DispositionView, WorkerErrorView};

verus! {

broadcast use {vstd::seq::group_seq_axioms, vstd::string::group_string_axioms};

/// How long a task waits before an attempt, in milliseconds: ten seconds before the first,
/// twice as long before each further one up to the eleventh, and never longer than `most`.
pub open spec fn backoff(attempt: nat, most: nat) -> nat {
    let doublings: nat = if attempt <= 1 {
        0
    } else if attempt >= 11 {
        10
    } else {
        (attempt - 1) as nat
    };
    if 10_000 * pow2(doublings) < most {
        10_000 * pow2(doublings)
    } else {
        most
    }
}

proof fn lemma_doubled_is_a_power(n: nat)
    ensures
        doubled(n) == 10_000 * pow2(n),
    decreases n,
{
    lemma2_to64();
    if n > 0 {
        lemma_doubled_is_a_power((n - 1) as nat);
        lemma_pow2_unfold(n);
    }
}

/// A task that failed waits ten seconds, twice as long with each further attempt, but never
/// longer than configured; a task that goes on waits one second.
pub proof fn law_waits_double(attempt: u32, most: u64)
    ensures
        retry_delay(attempt, false, most) == backoff(attempt as nat, most as nat),
        retry_delay(1, true, most) == 1_000,
        attempt != 1 ==> retry_delay(attempt, true, most) == backoff(attempt as nat, most as nat),
        1 <= attempt <= 10 && 2 * retry_delay(attempt, false, most) <= most ==> retry_delay(
            (attempt + 1) as u32,
            false,
            most,
        ) == 2 * retry_delay(attempt, false, most),
{
    let n: nat = if attempt <= 1 {
        0
    } else if attempt >= 11 {
        10
    } else {
        (attempt - 1) as nat
    };
    lemma_doubled_is_a_power(n);
    lemma_doubled_is_a_power(n + 1);
    lemma_pow2_unfold(n + 1);
    lemma2_to64();
}

/// What is known of a task that waits to be taken up again.
pub open spec fn waits_with(
    waiting: Option<RetryView>,
    attempt: int,
    error: Option<Seq<char>>,
    worker_host: Option<Seq<char>>,
    workspace_location: Option<Seq<char>>,
    issue: Option<IssueView>,
) -> bool {
    waiting matches Some(entry) && {
        &&& entry.attempt == attempt
        &&& entry.error == error
        &&& entry.worker_host == worker_host
        &&& entry.workspace_location == workspace_location
        &&& entry.tracked_issue == issue
    }
}

/// Whether a timer is set for a task, and the task is due when it ends.
pub open spec fn timer_is_set(
    timer: Option<TimerView>,
    waiting: Option<RetryView>,
    id: Seq<char>,
    delay_ms: nat,
    now: u64,
) -> bool {
    &&& timer matches Some(t) && t.issue_id == id && t.delay_ms == delay_ms
    &&& waiting matches Some(entry) && entry.due_at == now + delay_ms * 1_000_000
}

/// Whether nothing is different about a task.
pub open spec fn is_untouched(before: StateView, after: StateView, id: Seq<char>) -> bool {
    &&& lookup(after.running, id) == lookup(before.running, id)
    &&& lookup(after.claimed, id) == lookup(before.claimed, id)
    &&& lookup(after.retry_attempts, id) == lookup(before.retry_attempts, id)
    &&& lookup(after.completed, id) == lookup(before.completed, id)
}

proof fn lemma_retrying(state: StateView, request: RetryRequestView, now: u64, other: Seq<char>)
    requires
        in_order(state.retry_attempts),
    ensures
        waits_with(
            lookup(state.retrying(request, now).retry_attempts, request.issue_id),
            request.attempt as int,
            request.error,
            request.worker_host,
            request.workspace_location,
            request.tracked_issue,
        ),
        !(request.continuation && request.attempt == 1) ==> timer_is_set(
            Some(state.timer_for(request)),
            lookup(state.retrying(request, now).retry_attempts, request.issue_id),
            request.issue_id,
            backoff(request.attempt as nat, state.max_retry_backoff_ms as nat),
            now,
        ),
        request.continuation && request.attempt == 1 ==> timer_is_set(
            Some(state.timer_for(request)),
            lookup(state.retrying(request, now).retry_attempts, request.issue_id),
            request.issue_id,
            1_000,
            now,
        ),
        (lookup(state.retrying(request, now).retry_attempts, request.issue_id)->0).identifier
            == request.identifier,
        (lookup(state.retrying(request, now).retry_attempts, request.issue_id)->0).error_stage
            == request.error_stage,
        (lookup(state.retrying(request, now).retry_attempts, request.issue_id)->0).error_kind
            == request.error_kind,
        other != request.issue_id ==> lookup(state.retrying(request, now).retry_attempts, other)
            == lookup(state.retry_attempts, other),
{
    let delay = retry_delay(request.attempt, request.continuation, state.max_retry_backoff_ms);
    law_waits_double(request.attempt, state.max_retry_backoff_ms);
    crate::orchestrator::law_delay_is_bounded(
        request.attempt,
        request.continuation,
        state.max_retry_backoff_ms,
    );
    let value = RetryView {
        attempt: request.attempt,
        due_at: (now + delay * 1_000_000) as u128,
        identifier: request.identifier,
        tracked_issue: request.tracked_issue,
        worker_host: request.worker_host,
        workspace_location: request.workspace_location,
        error: request.error,
        error_stage: request.error_stage,
        error_kind: request.error_kind,
    };
    lemma_put_lookup(state.retry_attempts, request.issue_id, value, request.issue_id);
    lemma_put_lookup(state.retry_attempts, request.issue_id, value, other);
}

/// A task whose agent has failed waits for its next attempt: the number of attempts grows
/// by one, the wait is the one that belongs to that number, and host, workspace, task and
/// reason are remembered. It stays claimed, and nothing is different about other tasks.
pub proof fn law_failed_tasks_are_tried_again(
    state: StateView,
    id: Seq<char>,
    error: WorkerErrorView,
    wall: i128,
    now: u64,
    other: Seq<char>,
)
    requires
        state.sound(),
        has_key(state.running, id),
        (lookup(state.running, id)->0).retry_attempt < u32::MAX,
    ensures
        ({
            let entry = lookup(state.running, id)->0;
            let (after, timer) = state.exited(id, Err(error), wall, now);
            let waiting = lookup(after.retry_attempts, id);
            &&& waits_with(
                waiting,
                entry.retry_attempt + 1,
                Some(
                    "worker_stage="@ + error.stage.name() + " worker_kind="@ + error.kind.name()
                        + " worker_host="@ + host_name(error.worker_host) + " "@ + error.message,
                ),
                entry.worker_host,
                Some(entry.workspace_location),
                Some(entry.issue),
            )
            &&& waiting->0.identifier == entry.identifier
            &&& waiting->0.error_stage == Some(error.stage.name())
            &&& waiting->0.error_kind == Some(error.kind.name())
            &&& timer_is_set(
                timer,
                waiting,
                id,
                backoff((entry.retry_attempt + 1) as nat, state.max_retry_backoff_ms as nat),
                now,
            )
            &&& !has_key(after.running, id)
            &&& has_key(after.claimed, id)
            &&& lookup(after.completed, id) == lookup(state.completed, id)
            &&& other != id ==> is_untouched(state, after, other)
        }),
{
    let entry = lookup(state.running, id)->0;
    let base = state.ended(id, wall);
    lemma_without_lookup(state.running, id, id);
    lemma_without_lookup(state.running, id, other);
    lemma_retrying(base, failure_request(id, entry, error), now, other);
}

/// A task that fails, is started again with the number of its attempt and fails once more
/// waits for a later attempt, and no shorter.
pub proof fn law_attempts_count_up(
    state: StateView,
    id: Seq<char>,
    first: WorkerErrorView,
    second: WorkerErrorView,
    again: StateView,
    wall: i128,
    now: u64,
)
    requires
        state.sound(),
        again.sound(),
        has_key(state.running, id),
        has_key(again.running, id),
        (lookup(state.running, id)->0).retry_attempt < u32::MAX - 1,
        has_key(state.exited(id, Err(first), wall, now).0.retry_attempts, id),
        (lookup(again.running, id)->0).retry_attempt == (lookup(
            state.exited(id, Err(first), wall, now).0.retry_attempts,
            id,
        )->0).attempt,
        again.max_retry_backoff_ms == state.max_retry_backoff_ms,
    ensures
        ({
            let earlier = state.exited(id, Err(first), wall, now);
            let later = again.exited(id, Err(second), wall, now);
            &&& (lookup(state.running, id)->0).retry_attempt < (lookup(
                earlier.0.retry_attempts,
                id,
            )->0).attempt < (lookup(later.0.retry_attempts, id)->0).attempt
            &&& earlier.1 is Some && later.1 is Some
            &&& earlier.1->0.delay_ms <= later.1->0.delay_ms
        }),
{
    law_failed_tasks_are_tried_again(state, id, first, wall, now, id);
    law_failed_tasks_are_tried_again(again, id, second, wall, now, id);
    let n = ((lookup(state.running, id)->0).retry_attempt + 1) as u32;
    law_waits_double(n, state.max_retry_backoff_ms);
    law_waits_double((n + 1) as u32, state.max_retry_backoff_ms);
    crate::orchestrator::law_delay_grows(n, (n + 1) as u32, state.max_retry_backoff_ms);
}

/// A task that goes on after its agent ended is taken up again after a second, as a first
/// attempt, where it was worked on before. It stays claimed and counts as completed once.
pub proof fn law_active_tasks_go_on(
    state: StateView,
    id: Seq<char>,
    issue: IssueView,
    wall: i128,
    now: u64,
    other: Seq<char>,
)
    requires
        state.sound(),
        has_key(state.running, id),
    ensures
        ({
            let entry = lookup(state.running, id)->0;
            let (after, timer) = state.exited(
                id,
                Ok(DispositionView::Continue { issue }),
                wall,
                now,
            );
            let waiting = lookup(after.retry_attempts, id);
            &&& waits_with(
                waiting,
                1,
                None,
                entry.worker_host,
                Some(entry.workspace_location),
                Some(issue),
            )
            &&& waiting->0.identifier == entry.identifier
            &&& timer_is_set(timer, waiting, id, 1_000, now)
            &&& !has_key(after.running, id)
            &&& has_key(after.claimed, id)
            &&& has_key(after.completed, id)
            &&& other != id ==> is_untouched(state, after, other)
        }),
{
    let entry = lookup(state.running, id)->0;
    let base = state.ended(id, wall);
    let done = StateView { completed: crate::table::put(base.completed, id, ()), ..base };
    lemma_without_lookup(state.running, id, id);
    lemma_without_lookup(state.running, id, other);
    lemma_put_lookup(base.completed, id, (), id);
    lemma_put_lookup(base.completed, id, (), other);
    lemma_retrying(done, continuation_request(id, entry, issue), now, other);
}

/// A task that is finished is left: it neither runs nor waits, and is no longer claimed.
/// An end that is told of a task that does not run changes nothing.
pub proof fn law_finished_tasks_are_left(
    state: StateView,
    id: Seq<char>,
    issue: Option<IssueView>,
    result: Result<DispositionView, WorkerErrorView>,
    wall: i128,
    now: u64,
    other: Seq<char>,
)
    requires
        state.sound(),
    ensures
        ({
            let (after, timer) = state.exited(
                id,
                Ok(DispositionView::Quiesced { issue }),
                wall,
                now,
            );
            has_key(state.running, id) ==> {
                &&& !has_key(after.running, id)
                &&& !has_key(after.claimed, id)
                &&& !has_key(after.retry_attempts, id)
                &&& lookup(after.completed, id) == lookup(state.completed, id)
                &&& timer is None
                &&& other != id ==> is_untouched(state, after, other)
            }
        }),
        !has_key(state.running, id) ==> state.exited(id, result, wall, now) == (
            state,
            None::<TimerView>,
        ),
{
    lemma_without_lookup(state.running, id, id);
    lemma_without_lookup(state.running, id, other);
    lemma_without_lookup(state.claimed, id, id);
    lemma_without_lookup(state.claimed, id, other);
    lemma_without_lookup(state.retry_attempts, id, id);
    lemma_without_lookup(state.retry_attempts, id, other);
}

/// However an agent ends, the time that it ran is added to what all agents ran, and no
/// tokens are charged or forgotten.
pub proof fn law_ended_time_adds_up(
    state: StateView,
    id: Seq<char>,
    result: Result<DispositionView, WorkerErrorView>,
    wall: i128,
    now: u64,
)
    requires
        has_key(state.running, id),
    ensures
        ({
            let after = state.exited(id, result, wall, now).0;
            let started = (lookup(state.running, id)->0).started_at;
            let ran = (wall - started) / 1_000_000;
            &&& started <= wall && state.codex_totals.ended_ms + ran <= u64::MAX && ran
                <= i64::MAX ==> after.codex_totals.ended_ms == state.codex_totals.ended_ms + ran
            &&& started > wall ==> after.codex_totals.ended_ms == state.codex_totals.ended_ms
            &&& after.codex_totals.tokens == state.codex_totals.tokens
            &&& after.codex_rate_limits == state.codex_rate_limits
        }),
{
}

/// An agent is silent for too long exactly where more whole milliseconds than `timeout_ms`
/// have gone by since it was last heard of, or since it started if it never was.
pub open spec fn is_silent(entry: RunningView, timeout_ms: i64, wall: i128) -> bool {
    let since = match entry.last_codex_timestamp {
        Some(at) => at,
        None => entry.started_at,
    };
    wall - since >= (timeout_ms + 1) * 1_000_000
}

proof fn lemma_stalled_is_silent(entry: RunningView, timeout_ms: i64, wall: i128)
    requires
        0 < timeout_ms < i64::MAX,
    ensures
        is_stalled(entry, timeout_ms, wall) == is_silent(entry, timeout_ms, wall),
{
}

/// The tasks whose agents are stopped for their silence are those, and only those, that
/// run and whose agents are silent for too long.
pub proof fn law_silent_agents_are_found(
    state: StateView,
    timeout_ms: i64,
    wall: i128,
    id: Seq<char>,
)
    requires
        state.sound(),
        0 < timeout_ms < i64::MAX,
    ensures
        stalled_ids(state.running, timeout_ms, wall).contains(id) <==> has_key(state.running, id)
            && is_silent(lookup(state.running, id)->0, timeout_ms, wall),
        stalled_ids(state.running, timeout_ms, wall).no_duplicates(),
{
    lemma_silent(state.running, timeout_ms, wall, id);
}

proof fn lemma_silent(
    running: Seq<(Seq<char>, RunningView)>,
    timeout_ms: i64,
    wall: i128,
    id: Seq<char>,
)
    requires
        in_order(running),
        0 < timeout_ms < i64::MAX,
    ensures
        stalled_ids(running, timeout_ms, wall).contains(id) <==> has_key(running, id) && is_silent(
            lookup(running, id)->0,
            timeout_ms,
            wall,
        ),
        stalled_ids(running, timeout_ms, wall).no_duplicates(),
    decreases running.len(),
{
    let ids = stalled_ids(running, timeout_ms, wall);
    if running.len() == 0 {
        lemma_lookup_index(running, id);
        assert(!ids.contains(id));
    } else {
        let rest = running.drop_last();
        let last = running.last();
        let earlier = stalled_ids(rest, timeout_ms, wall);
        assert forall|i: int, j: int| 0 <= i < j < rest.len() implies crate::text::before(
            (#[trigger] rest[i]).0,
            (#[trigger] rest[j]).0,
        ) by {
            assert(rest[i] == running[i] && rest[j] == running[j]);
        }
        lemma_silent(rest, timeout_ms, wall, id);
        lemma_silent(rest, timeout_ms, wall, last.0);
        lemma_stalled_is_silent(last.1, timeout_ms, wall);
        lemma_lookup_at(running, running.len() - 1);
        lemma_lookup_index(rest, last.0);
        lemma_lookup_index(rest, id);
        lemma_lookup_index(running, id);
        assert(!has_key(rest, last.0)) by {
            if has_key(rest, last.0) {
                let i = choose|i: int| 0 <= i < rest.len() && (#[trigger] rest[i]).0 == last.0;
                assert(rest[i] == running[i]);
                crate::text::lemma_before_irreflexive(last.0);
                assert(crate::text::before(running[i].0, running[running.len() - 1].0));
            }
        }
        assert(!earlier.contains(last.0));
        if is_stalled(last.1, timeout_ms, wall) {
            assert(ids == earlier.push(last.0));
            assert(ids.contains(id) <==> earlier.contains(id) || id == last.0) by {
                if earlier.contains(id) {
                    let k = choose|k: int| 0 <= k < earlier.len() && earlier[k] == id;
                    assert(ids[k] == id);
                }
                assert(ids[ids.len() - 1] == last.0);
            }
        }
        if id != last.0 {
            if has_key(rest, id) {
                let i = choose|i: int|
                    0 <= i < rest.len() && (#[trigger] rest[i]).0 == id && lookup(rest, id)
                        == Some(rest[i].1);
                assert(rest[i] == running[i]);
                lemma_lookup_at(running, i);
            }
            if has_key(running, id) {
                let i = choose|i: int|
                    0 <= i < running.len() && (#[trigger] running[i]).0 == id && lookup(
                        running,
                        id,
                    ) == Some(running[i].1);
                assert(i < rest.len());
                assert(rest[i] == running[i]);
            }
        }
    }
}

/// A task whose agent is stopped for its silence waits for its next attempt: the number of
/// attempts grows by one, and host, workspace and task are remembered. Its agent is stopped
/// without removing the workspace. Nothing is different about tasks whose agents are not.
pub proof fn law_silent_agents_are_replaced(
    state: StateView,
    ids: Seq<Seq<char>>,
    wall: i128,
    now: u64,
    id: Seq<char>,
)
    requires
        state.sound(),
        ids.no_duplicates(),
        has_key(state.running, id) ==> (lookup(state.running, id)->0).retry_attempt < u32::MAX,
    ensures
        ({
            let (after, done) = state.all_stalled(ids, wall, now);
            let entry = lookup(state.running, id)->0;
            let waiting = lookup(after.retry_attempts, id);
            &&& after.sound()
            &&& !ids.contains(id) ==> is_untouched(state, after, id)
            &&& ids.contains(id) && has_key(state.running, id) ==> {
                &&& !has_key(after.running, id)
                &&& waiting matches Some(w) && {
                    &&& w.attempt == entry.retry_attempt + 1
                    &&& w.worker_host == entry.worker_host
                    &&& w.workspace_location == Some(entry.workspace_location)
                    &&& w.tracked_issue == Some(entry.issue)
                    &&& w.identifier == entry.identifier
                    &&& w.due_at == now + backoff(
                        (entry.retry_attempt + 1) as nat,
                        state.max_retry_backoff_ms as nat,
                    ) * 1_000_000
                    &&& w.error is Some
                }
            }
            &&& after.max_retry_backoff_ms == state.max_retry_backoff_ms
            &&& forall|i: int|
                0 <= i < done.len() ==> {
                    &&& (#[trigger] done[i]).stopped matches Some(stopped) && {
                        &&& !stopped.cleanup_workspace
                        &&& ids.contains(stopped.issue_id)
                        &&& stopped.issue_id == done[i].timer.issue_id
                    }
                }
        }),
    decreases ids.len(),
{
    if ids.len() > 0 {
        let rest = ids.drop_last();
        let last = ids.last();
        assert(rest.no_duplicates());
        law_silent_agents_are_replaced(state, rest, wall, now, id);
        if id != last {
            assert(rest.contains(id) == ids.contains(id)) by {
                if ids.contains(id) {
                    let k = choose|k: int| 0 <= k < ids.len() && ids[k] == id;
                    assert(rest[k] == id);
                }
                if rest.contains(id) {
                    let k = choose|k: int| 0 <= k < rest.len() && rest[k] == id;
                    assert(ids[k] == id);
                }
            }
        } else {
            assert(!rest.contains(id)) by {
                if rest.contains(id) {
                    let k = choose|k: int| 0 <= k < rest.len() && rest[k] == id;
                    assert(ids[k] == ids[ids.len() - 1]);
                }
            }
        }
        assert(ids[ids.len() - 1] == last);
        let (middle, before_last) = state.all_stalled(rest, wall, now);
        let (after, done) = state.all_stalled(ids, wall, now);
        if has_key(middle.running, last) {
            let entry = lookup(middle.running, last)->0;
            let stopped = middle.terminated(last, wall);
            let request = stall_request(last, entry, wall);
            law_termination_keeps_state_sound(middle, last, wall);
            law_retry_keeps_state_sound(stopped, request, now);
            lemma_without_lookup(middle.running, last, id);
            lemma_without_lookup(middle.claimed, last, id);
            lemma_without_lookup(middle.retry_attempts, last, id);
            lemma_retrying(stopped, request, now, id);
            assert(ids.contains(last));
        }
        assert forall|i: int| 0 <= i < done.len() implies {
            &&& (#[trigger] done[i]).stopped matches Some(stopped) && {
                &&& !stopped.cleanup_workspace
                &&& ids.contains(stopped.issue_id)
                &&& stopped.issue_id == done[i].timer.issue_id
            }
        } by {
            if i < before_last.len() {
                assert(done[i] == before_last[i]);
                let x = done[i].stopped->0.issue_id;
                let k = choose|k: int| 0 <= k < rest.len() && rest[k] == x;
                assert(ids[k] == x);
            }
        }
    }
}

/// What becomes of a task that is due: where the tracker could not be asked, it waits for
/// one attempt more; where the task is gone or no agent may work on it, it is left; where
/// it is in a terminal state, it is left and its workspace removed.
pub proof fn law_due_tasks_are_decided_on(
    state: StateView,
    id: Seq<char>,
    entry: RetryView,
    polled: Result<Option<IssueView>, Seq<char>>,
    limit: usize,
    active_states: Seq<Seq<char>>,
    terminal_states: Seq<Seq<char>>,
    ssh_hosts: Seq<Seq<char>>,
    now: u64,
    other: Seq<char>,
)
    requires
        state.sound(),
        entry.attempt < u32::MAX,
    ensures
        ({
            let (after, step) = state.retry_step(
                id,
                entry,
                polled,
                limit,
                active_states,
                terminal_states,
                ssh_hosts,
                now,
            );
            &&& polled matches Err(reason) ==> {
                &&& step matches RetryStepView::Requeued(timer) && timer_is_set(
                    Some(timer),
                    lookup(after.retry_attempts, id),
                    id,
                    backoff((entry.attempt + 1) as nat, state.max_retry_backoff_ms as nat),
                    now,
                )
                &&& waits_with(
                    lookup(after.retry_attempts, id),
                    entry.attempt + 1,
                    Some("retry poll failed: "@ + reason),
                    entry.worker_host,
                    entry.workspace_location,
                    entry.tracked_issue,
                )
                &&& after.claimed == state.claimed
            }
            &&& polled == Ok::<Option<IssueView>, Seq<char>>(None) ==> step is Released
            &&& polled matches Ok(Some(issue)) ==> {
                let key = lowered(trimmed(issue.state));
                &&& step is Cleanup <==> terminal_states.contains(key)
                &&& step is Released <==> !terminal_states.contains(key) && !is_workable(
                    issue,
                    active_states,
                    terminal_states,
                )
            }
            &&& (step is Released || step is Cleanup) ==> !has_key(after.claimed, id)
                && after.retry_attempts == state.retry_attempts
            &&& after.running == state.running
            &&& other != id && !(polled is Ok && step is Requeued) ==> is_untouched(
                state,
                after,
                other,
            )
        }),
{
    lemma_without_lookup(state.claimed, id, id);
    lemma_without_lookup(state.claimed, id, other);
    if let Err(reason) = polled {
        lemma_retrying(state, poll_failed_request(id, entry, reason), now, other);
    }
}

/// A task that is due and that an agent may work on is dispatched where there is room,
/// preferably to the host that it was on and with the number of its attempt; where there
/// is none, it waits for one attempt more.
pub proof fn law_due_tasks_are_dispatched(
    state: StateView,
    id: Seq<char>,
    entry: RetryView,
    issue: IssueView,
    limit: usize,
    active_states: Seq<Seq<char>>,
    terminal_states: Seq<Seq<char>>,
    ssh_hosts: Seq<Seq<char>>,
    now: u64,
)
    requires
        state.sound(),
        entry.attempt < u32::MAX,
        is_workable(issue, active_states, terminal_states),
    ensures
        ({
            let (after, step) = state.retry_step(
                id,
                entry,
                Ok(Some(issue)),
                limit,
                active_states,
                terminal_states,
                ssh_hosts,
                now,
            );
            let room = {
                &&& state.running.len() < state.max_concurrent_agents
                &&& workers_in(state.running, issue.state) < limit
                &&& finds_host(state)
            };
            &&& room ==> after == state && step == (RetryStepView::Dispatch {
                issue,
                attempt: entry.attempt,
                preferred_worker_host: entry.worker_host,
            })
            &&& !room ==> {
                &&& step matches RetryStepView::Requeued(timer) && timer_is_set(
                    Some(timer),
                    lookup(after.retry_attempts, issue.id),
                    issue.id,
                    backoff((entry.attempt + 1) as nat, state.max_retry_backoff_ms as nat),
                    now,
                )
                &&& waits_with(
                    lookup(after.retry_attempts, issue.id),
                    entry.attempt + 1,
                    Some("no available orchestrator slots"@),
                    entry.worker_host,
                    entry.workspace_location,
                    Some(issue),
                )
                &&& after.claimed == state.claimed
                &&& after.running == state.running
            }
        }),
{
    crate::laws::dispatch::lemma_workers_in(state.running, issue.state);
    crate::laws::dispatch::lemma_finds_host(state, entry.worker_host);
    lemma_retrying(state, no_slot_request(issue, entry), now, id);
}

/// The workspace of a finished task is removed where the task was worked on: on its host;
/// where that is not known, on every configured host, or here where there is none.
pub proof fn law_workspaces_are_removed_where_they_are(
    worker_host: Option<Seq<char>>,
    remote: bool,
    ssh_hosts: Seq<Seq<char>>,
    host: Option<Seq<char>>,
)
    ensures
        cleanup_hosts(worker_host, remote, ssh_hosts).contains(host) <==> match worker_host {
            Some(known) => host == Some(known),
            None => if remote {
                host is Some && ssh_hosts.contains(host->0)
            } else {
                host is None
            },
        },
{
    let all = cleanup_hosts(worker_host, remote, ssh_hosts);
    match worker_host {
        Some(known) => {
            assert(all[0] == Some(known));
        },
        None => {
            if remote {
                if host is Some && ssh_hosts.contains(host->0) {
                    let k = choose|k: int| 0 <= k < ssh_hosts.len() && ssh_hosts[k] == host->0;
                    assert(all[k] == host);
                }
                if all.contains(host) {
                    let k = choose|k: int| 0 <= k < all.len() && all[k] == host;
                    assert(ssh_hosts[k] == host->0);
                }
            } else {
                assert(all[0] == None::<Seq<char>>);
            }
        },
    }
}

} // verus!
