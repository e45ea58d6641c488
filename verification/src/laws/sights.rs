//! What an operator gets to see is what the program knows.
use vstd::prelude::*;

use crate::humanize::{parsed_message, summary_of, NumbersView};
use crate::json::JsonView;
use crate::observability::{
    address_host, dashboard_address, presented, presented_failure, presented_issue,
    reason_words, running_payload, tracked_json, PresentContext, SnapshotStatus,
    ThroughputPayload,
};
use crate::orchestrator::{RetryView, RunningView, StateView};
use crate::prompt::issue_json;
use crate::snapshot::{
    detail_of, due_on_wall, left_ms, live_ms, retry_with, running_with, snapshot_of,
    IssueDetailView, RunningSnapshotView, SnapshotView,
};
use crate::table::{in_order, lemma_put_lookup, lookup};
use crate::text::{begins, decimal, trimmed};

verus! {

broadcast use vstd::seq::group_seq_axioms;

/// A snapshot tells of every task that runs, in the place that it has, what its entry
/// holds.
pub proof fn law_snapshots_tell_what_runs(state: StateView, wall: i128, now: u64, i: int)
    requires
        0 <= i < state.running.len(),
    ensures
        ({
            let told = snapshot_of(state, wall, now).running[i];
            let (id, entry) = state.running[i];
            &&& snapshot_of(state, wall, now).running.len() == state.running.len()
            &&& told.issue_id == id
            &&& told.issue_identifier == entry.identifier
            &&& told.title == entry.issue.title
            &&& told.state == entry.issue.state
            &&& told.url == entry.issue.url
            &&& told.project_id == entry.issue.project_id
            &&& told.labels == entry.issue.labels
            &&& told.due == entry.issue.due
            &&& told.deadline == entry.issue.deadline
            &&& told.worker_host == entry.worker_host
            &&& told.session_id == entry.session_id
            &&& told.codex_app_server_pid == entry.codex_app_server_pid
            &&& told.turn_count == entry.turn_count
            &&& told.last_event == entry.last_codex_event
            &&& told.last_message == entry.last_codex_message
            &&& told.started_at == entry.started_at
            &&& told.last_event_at == entry.last_codex_timestamp
            &&& told.workspace == entry.workspace_location
            &&& told.tokens == entry.codex_tokens
        }),
{
}

/// A snapshot tells of every task that waits which attempt comes next, when, and why it
/// has to wait.
pub proof fn law_snapshots_tell_what_waits(state: StateView, wall: i128, now: u64, i: int)
    requires
        0 <= i < state.retry_attempts.len(),
    ensures
        ({
            let told = snapshot_of(state, wall, now).retrying[i];
            let (id, entry) = state.retry_attempts[i];
            &&& snapshot_of(state, wall, now).retrying.len() == state.retry_attempts.len()
            &&& told.issue_id == id
            &&& told.issue_identifier == entry.identifier
            &&& told.attempt == entry.attempt
            &&& told.due_at == due_on_wall(entry.due_at, wall, now)
            &&& told.worker_host == entry.worker_host
            &&& told.workspace_location == entry.workspace_location
            &&& told.error == entry.error
            &&& told.error_stage == entry.error_stage
            &&& told.error_kind == entry.error_kind
        }),
{
}

/// What is left of a wait is counted in whole milliseconds, and nothing is left of one
/// that is over.
pub proof fn law_waits_are_counted_down(due_at: u128, wall: i128, now: u64)
    requires
        wall + left_ms(due_at, now) * 1_000_000 <= i128::MAX,
    ensures
        due_at <= now ==> left_ms(due_at, now) == 0 && due_on_wall(due_at, wall, now) == wall,
        due_at > now ==> left_ms(due_at, now) * 1_000_000 <= due_at - now < (left_ms(due_at, now)
            + 1) * 1_000_000,
        due_on_wall(due_at, wall, now) - wall == left_ms(due_at, now) * 1_000_000,
{
}

/// What a snapshot sums up: how many tasks run and wait, the tokens of all, the time that
/// ended and running agents took together, and when the tracker is asked again.
pub proof fn law_snapshots_sum_up(state: StateView, wall: i128, now: u64)
    ensures
        ({
            let told = snapshot_of(state, wall, now);
            &&& told.generated_at == wall
            &&& told.counts.running == state.running.len()
            &&& told.counts.retrying == state.retry_attempts.len()
            &&& told.codex_totals.tokens == state.codex_totals.tokens
            &&& state.codex_totals.ended_ms + live_ms(state.running, wall) <= u64::MAX
                ==> told.codex_totals.running_ms == state.codex_totals.ended_ms + live_ms(
                state.running,
                wall,
            )
            &&& told.rate_limits == state.codex_rate_limits
            &&& told.todoist_rate_budget == state.todoist_rate_budget
            &&& told.polling.checking == state.poll_check_in_progress
            &&& told.polling.poll_interval_ms == state.poll_interval_ms
            &&& told.polling.next_poll_in_ms is Some <==> state.next_poll_due_at is Some
            &&& state.next_poll_due_at is Some && left_ms(state.next_poll_due_at->0, now)
                <= u64::MAX ==> told.polling.next_poll_in_ms->0 == left_ms(
                state.next_poll_due_at->0,
                now,
            )
        }),
{
}

/// The time of the agents that run grows with every one by the time since its start.
pub proof fn law_running_time_adds_up(
    running: Seq<(Seq<char>, RunningView)>,
    entry: (Seq<char>, RunningView),
    wall: i128,
)
    requires
        entry.1.started_at <= wall,
    ensures
        live_ms(Seq::empty(), wall) == 0,
        live_ms(running.push(entry), wall) == live_ms(running, wall)
            + crate::clock::millis_between(entry.1.started_at as int, wall as int),
{
    assert(running.push(entry).drop_last() =~= running);
}

proof fn lemma_running_with(running: Seq<(Seq<char>, RunningView)>, identifier: Seq<char>)
    ensures
        match running_with(running, identifier) {
            Some(found) => running.contains(found) && found.1.identifier == identifier,
            None => forall|i: int|
                0 <= i < running.len() ==> (#[trigger] running[i]).1.identifier != identifier,
        },
    decreases running.len(),
{
    if running.len() > 0 {
        if running[0].1.identifier == identifier {
            assert(running.contains(running[0]));
        } else {
            let rest = running.skip(1);
            lemma_running_with(rest, identifier);
            assert(forall|i: int| 1 <= i < running.len() ==> #[trigger] running[i] == rest[i - 1]);
            match running_with(rest, identifier) {
                Some(found) => {
                    let k = choose|k: int| 0 <= k < rest.len() && rest[k] == found;
                    assert(running[k + 1] == found);
                    let n = crate::snapshot::running_index(rest, identifier) as int;
                    assert(running[n + 1] == rest[n]);
                },
                None => {},
            }
        }
    }
}

proof fn lemma_retry_with(waiting: Seq<(Seq<char>, RetryView)>, identifier: Seq<char>)
    ensures
        match retry_with(waiting, identifier) {
            Some(found) => waiting.contains(found) && found.1.identifier == identifier,
            None => forall|i: int|
                0 <= i < waiting.len() ==> (#[trigger] waiting[i]).1.identifier != identifier,
        },
    decreases waiting.len(),
{
    if waiting.len() > 0 {
        if waiting[0].1.identifier == identifier {
            assert(waiting.contains(waiting[0]));
        } else {
            let rest = waiting.skip(1);
            lemma_retry_with(rest, identifier);
            assert(forall|i: int| 1 <= i < waiting.len() ==> #[trigger] waiting[i] == rest[i - 1]);
            match retry_with(rest, identifier) {
                Some(found) => {
                    let k = choose|k: int| 0 <= k < rest.len() && rest[k] == found;
                    assert(waiting[k + 1] == found);
                    let n = crate::snapshot::retry_index(rest, identifier) as int;
                    assert(waiting[n + 1] == rest[n]);
                },
                None => {},
            }
        }
    }
}

/// What is told of one task is what its entries hold: the one that runs, and the one that
/// waits. One that runs is told of as running, whatever else holds.
pub proof fn law_tasks_are_told_of(
    state: StateView,
    identifier: Seq<char>,
    fallback: Seq<char>,
    wall: i128,
    now: u64,
)
    ensures
        match detail_of(state, identifier, fallback, wall, now) {
            Some(detail) => {
                &&& detail.issue_identifier == identifier
                &&& match running_with(state.running, identifier) {
                    Some((id, entry)) => {
                        &&& state.running.contains((id, entry))
                        &&& entry.identifier == identifier
                        &&& detail.status == "running"@
                        &&& detail.issue_id == Some(entry.issue.id)
                        &&& detail.tracked_issue == Some(entry.issue)
                        &&& detail.workspace_path == entry.workspace_location
                        &&& entry.worker_host is Some ==> detail.workspace_host
                            == entry.worker_host
                        &&& entry.turn_count > 0 ==> detail.attempts.restart_count
                            == entry.turn_count - 1
                        &&& entry.turn_count == 0 ==> detail.attempts.restart_count == 0
                        &&& detail.recent_events == entry.recent_events
                        &&& detail.running is Some
                        &&& detail.running->0.worker_host == entry.worker_host
                        &&& detail.running->0.session_id == entry.session_id
                        &&& detail.running->0.codex_app_server_pid == entry.codex_app_server_pid
                        &&& detail.running->0.turn_count == entry.turn_count
                        &&& detail.running->0.state == entry.issue.state
                        &&& detail.running->0.started_at == entry.started_at
                        &&& detail.running->0.last_event == entry.last_codex_event
                        &&& detail.running->0.last_message == entry.last_codex_message
                        &&& detail.running->0.last_event_at == entry.last_codex_timestamp
                        &&& detail.running->0.tokens == entry.codex_tokens
                    },
                    None => detail.running is None && detail.status == "retrying"@
                        && detail.recent_events.len() == 0 && detail.attempts.restart_count == 0,
                }
                &&& match retry_with(state.retry_attempts, identifier) {
                    Some((id, entry)) => {
                        &&& state.retry_attempts.contains((id, entry))
                        &&& entry.identifier == identifier
                        &&& detail.attempts.current_retry_attempt == Some(entry.attempt)
                        &&& detail.last_error == entry.error
                        &&& detail.last_error_stage == entry.error_stage
                        &&& detail.last_error_kind == entry.error_kind
                        &&& detail.retry is Some
                        &&& detail.retry->0.attempt == entry.attempt
                        &&& detail.retry->0.due_at == due_on_wall(entry.due_at, wall, now)
                        &&& detail.retry->0.worker_host == entry.worker_host
                        &&& detail.retry->0.workspace_location == entry.workspace_location
                        &&& detail.retry->0.error == entry.error
                        &&& detail.running is None ==> {
                            &&& detail.issue_id == Some(id)
                            &&& detail.tracked_issue == entry.tracked_issue
                            &&& detail.workspace_host == entry.worker_host
                            &&& detail.workspace_path == (match entry.workspace_location {
                                Some(location) => location,
                                None => fallback,
                            })
                        }
                    },
                    None => detail.retry is None && detail.last_error is None
                        && detail.attempts.current_retry_attempt is None,
                }
            },
            None => running_with(state.running, identifier) is None && retry_with(
                state.retry_attempts,
                identifier,
            ) is None,
        },
{
    lemma_running_with(state.running, identifier);
    lemma_retry_with(state.retry_attempts, identifier);
}

/// What is presented of a task that runs is what the snapshot tells of it, with the address
/// of its project, how long it has run, and what its agent last said in plain words.
pub proof fn law_running_tasks_are_presented(
    entry: RunningSnapshotView,
    generated_at: i128,
    numbers: NumbersView,
)
    ensures
        ({
            let shown = running_payload(entry, generated_at, numbers);
            &&& shown.issue_id == entry.issue_id
            &&& shown.issue_identifier == entry.issue_identifier
            &&& shown.title == entry.title
            &&& shown.state == entry.state
            &&& shown.url == entry.url
            &&& shown.project_url == (match entry.project_id {
                Some(id) => Some("https://app.todoist.com/app/project/"@ + id),
                None => None,
            })
            &&& shown.labels == entry.labels
            &&& shown.due == entry.due
            &&& shown.deadline == entry.deadline
            &&& shown.worker_host == entry.worker_host
            &&& shown.session_id == entry.session_id
            &&& shown.app_server_pid == entry.codex_app_server_pid
            &&& shown.turn_count == entry.turn_count
            &&& shown.last_event == entry.last_event
            &&& shown.last_message == summary_of(
                entry.last_event,
                entry.last_message,
                parsed_message(entry.last_message),
                numbers,
            )
            &&& shown.started_at == entry.started_at
            &&& shown.last_event_at == entry.last_event_at
            &&& entry.started_at > generated_at ==> shown.runtime_ms == 0
            &&& entry.started_at <= generated_at ==> shown.runtime_ms
                == crate::clock::millis_between(entry.started_at as int, generated_at as int) as u64
            &&& shown.workspace == entry.workspace
            &&& shown.tokens == entry.tokens
        }),
{
}

/// What is presented of the whole is what the snapshot tells, with where the program can
/// be reached and why nothing is dispatched, where nothing is: a workflow that is not
/// valid before anything else.
pub proof fn law_the_whole_is_presented(
    snapshot: SnapshotView,
    context: PresentContext,
    numbers: Seq<NumbersView>,
    throughput: ThroughputPayload,
)
    ensures
        ({
            let shown = presented(snapshot, context, numbers, throughput);
            &&& shown.generated_at == snapshot.generated_at
            &&& shown.snapshot_status == SnapshotStatus::Fresh
            &&& shown.error is None
            &&& shown.counts == snapshot.counts
            &&& shown.max_concurrent_agents == context.max_concurrent_agents
            &&& shown.retrying == snapshot.retrying
            &&& shown.codex_totals == snapshot.codex_totals
            &&& shown.rate_limits == snapshot.rate_limits
            &&& shown.todoist_rate_budget == snapshot.todoist_rate_budget
            &&& shown.polling == snapshot.polling
            &&& shown.workflow_path == context.workflow_path@
            &&& shown.blocking_reason == (match (context.validation_error, context.dispatch_error) {
                (Some(reason), _) => Some(reason@),
                (None, Some(reason)) => Some(reason@),
                (None, None) => None,
            })
            &&& shown.using_last_good <==> context.validation_error is Some
            &&& shown.project_url == (match context.project_id {
                Some(id) => Some("https://app.todoist.com/app/project/"@ + id@),
                None => None,
            })
            &&& shown.dashboard_url == dashboard_address(
                match context.server_host {
                    Some(host) => host@,
                    None => "127.0.0.1"@,
                },
                context.server_port,
                context.bound_port,
            )
            &&& shown.tps_5s == throughput.tps_5s@
            &&& shown.graph_10m == throughput.graph_10m@
            &&& shown.running.len() == snapshot.running.len()
            &&& forall|i: int|
                0 <= i < snapshot.running.len() ==> #[trigger] shown.running[i] == running_payload(
                    snapshot.running[i],
                    snapshot.generated_at,
                    numbers[i],
                )
        }),
{
}

/// Without a snapshot it is said that there is none, and nothing is shown as running.
pub proof fn law_missing_snapshots_are_told(
    generated_at: i128,
    context: PresentContext,
    throughput: ThroughputPayload,
)
    ensures
        ({
            let shown = presented_failure(generated_at, context, throughput);
            &&& shown.snapshot_status == SnapshotStatus::Unavailable
            &&& shown.error is Some
            &&& shown.error->0.code == "snapshot_unavailable"@
            &&& shown.error->0.message == "Orchestrator snapshot unavailable"@
            &&& shown.generated_at == generated_at
            &&& shown.running.len() == 0
            &&& shown.retrying.len() == 0
            &&& shown.counts.running == 0
            &&& shown.counts.retrying == 0
            &&& shown.codex_totals.running_ms == 0
            &&& shown.codex_totals.tokens.total_tokens == 0
            &&& shown.workflow_path == context.workflow_path@
            &&& shown.max_concurrent_agents == context.max_concurrent_agents
        }),
{
}

/// What is presented of one task is what is told of it, with its events in plain words.
pub proof fn law_single_tasks_are_presented(
    detail: IssueDetailView,
    now: i128,
    numbers: NumbersView,
    event_numbers: Seq<NumbersView>,
)
    ensures
        ({
            let shown = presented_issue(detail, now, numbers, event_numbers);
            &&& shown.issue_identifier == detail.issue_identifier
            &&& shown.issue_id == detail.issue_id
            &&& shown.status == detail.status
            &&& shown.workspace_path == detail.workspace_path
            &&& shown.workspace_host == detail.workspace_host
            &&& shown.restart_count == detail.attempts.restart_count
            &&& shown.current_retry_attempt == detail.attempts.current_retry_attempt
            &&& shown.last_error == detail.last_error
            &&& shown.running is Some <==> detail.running is Some
            &&& shown.retry is Some <==> detail.retry is Some
            &&& detail.retry is Some ==> {
                &&& shown.retry->0.attempt == detail.retry->0.attempt
                &&& shown.retry->0.due_at == detail.retry->0.due_at
                &&& shown.retry->0.worker_host == detail.retry->0.worker_host
                &&& shown.retry->0.workspace_location == detail.retry->0.workspace_location
                &&& shown.retry->0.error == detail.retry->0.error
            }
            &&& detail.running is Some ==> {
                &&& shown.running->0.worker_host == detail.running->0.worker_host
                &&& shown.running->0.session_id == detail.running->0.session_id
                &&& shown.running->0.app_server_pid == detail.running->0.codex_app_server_pid
                &&& shown.running->0.turn_count == detail.running->0.turn_count
                &&& shown.running->0.state == detail.running->0.state
                &&& shown.running->0.started_at == detail.running->0.started_at
                &&& shown.running->0.last_event == detail.running->0.last_event
                &&& shown.running->0.last_event_at == detail.running->0.last_event_at
                &&& shown.running->0.tokens == detail.running->0.tokens
                &&& detail.running->0.started_at <= now ==> shown.running->0.runtime_ms
                    == crate::clock::millis_between(
                    detail.running->0.started_at as int,
                    now as int,
                ) as u64
            }
            &&& shown.recent_events.len() == detail.recent_events.len()
            &&& forall|i: int|
                0 <= i < detail.recent_events.len() ==> (#[trigger] shown.recent_events[i]).at
                    == detail.recent_events[i].at && shown.recent_events[i].event
                    == detail.recent_events[i].event && shown.recent_events[i].message
                    == summary_of(
                    Some(detail.recent_events[i].event),
                    detail.recent_events[i].message,
                    parsed_message(detail.recent_events[i].message),
                    event_numbers[i],
                )
        }),
{
}

/// The dashboard is found at the port that is bound, or else configured; a port of zero is
/// none. A host that only takes calls is named as this machine, and one with colons stands
/// in brackets.
pub proof fn law_the_dashboard_is_found(
    host: Seq<char>,
    configured: Option<u16>,
    bound: Option<u16>,
)
    ensures
        dashboard_address(host, configured, bound) == match (bound, configured) {
            (Some(0), _) => None,
            (Some(port), _) => Some(
                "http://"@ + address_host(host) + ":"@ + decimal(port as nat) + "/"@,
            ),
            (None, Some(0)) => None,
            (None, Some(port)) => Some(
                "http://"@ + address_host(host) + ":"@ + decimal(port as nat) + "/"@,
            ),
            (None, None) => None,
        },
        ({
            let t = trimmed(host);
            address_host(host) == if t.len() == 0 || t == "0.0.0.0"@ || t == "::"@ || t
                == "[::]"@ {
                "127.0.0.1"@
            } else if t.contains(':') && !(t[0] == '[' && t.last() == ']') {
                "["@ + t + "]"@
            } else {
                t
            }
        }),
{
    reveal_strlit("");
    assert(""@.len() == 0);
    if trimmed(host).len() == 0 {
        assert(trimmed(host) =~= ""@);
    }
}

/// Reasons are put in words; one that is not known is shown as it is.
pub proof fn law_reasons_are_put_in_words(value: Seq<char>)
    ensures
        begins(value, "todoist_project_not_found "@) ==> reason_words(value)
            == "configured Todoist project was not found"@,
        begins(value, "todoist_missing_required_section "@) && !begins(value, "todoist_project_not_found "@) ==> reason_words(value)
            == "Todoist workflow is missing a required section"@,
        begins(value, "todoist_comment_too_large"@) && !begins(value, "todoist_project_not_found "@) && !begins(value, "todoist_missing_required_section "@) ==> reason_words(value)
            == "Todoist workpad comment exceeds the 15,000 character limit"@,
        begins(value, "todoist_rate_limited"@) && !begins(value, "todoist_project_not_found "@) && !begins(value, "todoist_missing_required_section "@) && !begins(value, "todoist_comment_too_large"@) ==> reason_words(value)
            == "Todoist rate limit reached; retrying after the server hint"@,
        begins(value, "todoist_api_status "@) && !begins(value, "todoist_project_not_found "@) && !begins(value, "todoist_missing_required_section "@) && !begins(value, "todoist_comment_too_large"@) && !begins(value, "todoist_rate_limited"@) ==> reason_words(value)
            == "Todoist API returned a non-success status"@,
        begins(value, "todoist_api_request "@) && !begins(value, "todoist_project_not_found "@) && !begins(value, "todoist_missing_required_section "@) && !begins(value, "todoist_comment_too_large"@) && !begins(value, "todoist_rate_limited"@) && !begins(value, "todoist_api_status "@) ==> reason_words(value)
            == "Todoist API request failed before a response was received"@,
        value == "workflow_front_matter_not_a_map"@ && !is_prefixed(value) ==> reason_words(value)
            == "workflow front matter must decode to a map"@,
        value == "missing_tracker_api_key"@ && !is_prefixed(value) ==> reason_words(value)
            == "Todoist API token is missing"@,
        value == "missing_tracker_project_id"@ && !is_prefixed(value) ==> reason_words(value)
            == "Todoist project id is missing"@,
        value == "missing_tracker_kind"@ && !is_prefixed(value) ==> reason_words(value)
            == "tracker kind is missing"@,
        value == "missing_codex_command"@ && !is_prefixed(value) ==> reason_words(value)
            == "codex command is missing"@,
        value == "todoist_missing_current_user"@ && !is_prefixed(value) ==> reason_words(value)
            == "Todoist current user lookup failed"@,
        value == "todoist_comments_unavailable"@ && !is_prefixed(value) ==> reason_words(value)
            == "Todoist comments are unavailable on this account"@,
        value == "todoist_reminders_unavailable"@ && !is_prefixed(value) ==> reason_words(value)
            == "Todoist reminders are unavailable on this account"@,
        value == "todoist_unknown_payload"@ && !is_prefixed(value) ==> reason_words(value)
            == "Todoist returned an unexpected payload shape"@,
        !is_prefixed(value) && !is_plain_reason(value) ==> reason_words(value) == value,
{
    reveal_strlit("workflow_front_matter_not_a_map");
    assert("workflow_front_matter_not_a_map"@.len() == 31);
    reveal_strlit("missing_tracker_api_key");
    assert("missing_tracker_api_key"@.len() == 23);
    reveal_strlit("missing_tracker_project_id");
    assert("missing_tracker_project_id"@.len() == 26);
    reveal_strlit("missing_tracker_kind");
    assert("missing_tracker_kind"@.len() == 20);
    reveal_strlit("missing_codex_command");
    assert("missing_codex_command"@.len() == 21);
    reveal_strlit("todoist_missing_current_user");
    assert("todoist_missing_current_user"@.len() == 28);
    reveal_strlit("todoist_comments_unavailable");
    assert("todoist_comments_unavailable"@.len() == 28);
    reveal_strlit("todoist_reminders_unavailable");
    assert("todoist_reminders_unavailable"@.len() == 29);
    reveal_strlit("todoist_unknown_payload");
    assert("todoist_unknown_payload"@.len() == 23);
    assert("missing_tracker_api_key"@[0] != "todoist_unknown_payload"@[0]);
    assert("todoist_missing_current_user"@[8] != "todoist_comments_unavailable"@[8]);
}

/// Whether a reason begins like one of those that come with details.
pub open spec fn is_prefixed(value: Seq<char>) -> bool {
    ||| begins(value, "todoist_project_not_found "@)
    ||| begins(value, "todoist_missing_required_section "@)
    ||| begins(value, "todoist_comment_too_large"@)
    ||| begins(value, "todoist_rate_limited"@)
    ||| begins(value, "todoist_api_status "@)
    ||| begins(value, "todoist_api_request "@)
}

/// Whether a reason is one of those that come without details.
pub open spec fn is_plain_reason(value: Seq<char>) -> bool {
    ||| value == "workflow_front_matter_not_a_map"@
    ||| value == "missing_tracker_api_key"@
    ||| value == "missing_tracker_project_id"@
    ||| value == "missing_tracker_kind"@
    ||| value == "missing_codex_command"@
    ||| value == "todoist_missing_current_user"@
    ||| value == "todoist_comments_unavailable"@
    ||| value == "todoist_reminders_unavailable"@
    ||| value == "todoist_unknown_payload"@
}

/// A task is shown as the tracker knows it, with the address of its project.
pub proof fn law_the_task_is_shown(issue: crate::issue::IssueView, key: Seq<char>)
    requires
        in_order(issue_json(issue)->Object_0),
    ensures
        tracked_json(None) == JsonView::Object(Seq::empty()),
        match tracked_json(Some(issue)) {
            JsonView::Object(shown) => lookup(shown, key) == match issue.project_id {
                Some(id) if key == "project_url"@ => Some(
                    JsonView::Text("https://app.todoist.com/app/project/"@ + id),
                ),
                _ => lookup(issue_json(issue)->Object_0, key),
            },
            _ => false,
        },
{
    if let Some(id) = issue.project_id {
        lemma_put_lookup(
            issue_json(issue)->Object_0,
            "project_url"@,
            JsonView::Text("https://app.todoist.com/app/project/"@ + id),
            key,
        );
    }
}

} // verus!
