//! What the orchestrator tells of its state: of all tasks, and of one.
use vstd::prelude::*;
use vstd::string::*;

use crate::clock::LATEST_NANOS;
use crate::issue::{Issue, IssueView};
use crate::json::{copy_opt, opt_view, Json, JsonView};
use crate::orchestrator::{
    capped_sum, run_ms, runtime_ms, RecentEvent, RecentView, RetryEntry, RetryView, RunningEntry,
    RunningView, State, StateView, TokenSnapshot,
};
use crate::sorting::views_of;
use crate::text::{clone_all, clone_opt, opt_text, owned, same, texts};
use crate::tracker::{copy_budget, opt_budget, RateBudgetView, TrackerRateBudget};
use crate::worker::opt_issue;

verus! {

broadcast use {vstd::seq::group_seq_axioms, vstd::string::group_string_axioms};

// ---------------------------------------------------------------------------
// What is told
// ---------------------------------------------------------------------------

/// How many tasks run, and how many wait to be taken up again.
#[derive(Clone, Copy, Debug, PartialEq, Eq, Structural)]
pub struct SnapshotCounts {
    pub running: usize,
    pub retrying: usize,
}

/// How many tasks run, and how many wait.
pub struct CountsView {
    pub running: nat,
    pub retrying: nat,
}

impl View for SnapshotCounts {
    type V = CountsView;

    open spec fn view(&self) -> CountsView {
        CountsView { running: self.running as nat, retrying: self.retrying as nat }
    }
}

/// What all workers have used.
#[derive(Clone, Copy, Debug, PartialEq, Eq, Structural)]
pub struct SnapshotTotals {
    pub tokens: TokenSnapshot,
    pub running_ms: u64,
}

/// Whether a poll is under way, and when the next one is due.
#[derive(Clone, Copy, Debug, PartialEq, Eq, Structural)]
pub struct PollingSnapshot {
    pub checking: bool,
    pub next_poll_in_ms: Option<u64>,
    pub poll_interval_ms: u64,
}

/// A task that runs.
#[derive(Debug)]
pub struct RunningSnapshot {
    pub issue_id: String,
    pub issue_identifier: String,
    pub title: String,
    pub state: String,
    pub url: Option<String>,
    pub project_id: Option<String>,
    pub labels: Vec<String>,
    pub due: Option<Json>,
    pub deadline: Option<Json>,
    pub worker_host: Option<String>,
    pub session_id: Option<String>,
    pub codex_app_server_pid: Option<u32>,
    pub turn_count: u32,
    pub last_event: Option<String>,
    pub last_message: Option<String>,
    pub started_at: i128,
    pub last_event_at: Option<i128>,
    pub workspace: String,
    pub tokens: TokenSnapshot,
}

/// A task that runs.
pub struct RunningSnapshotView {
    pub issue_id: Seq<char>,
    pub issue_identifier: Seq<char>,
    pub title: Seq<char>,
    pub state: Seq<char>,
    pub url: Option<Seq<char>>,
    pub project_id: Option<Seq<char>>,
    pub labels: Seq<Seq<char>>,
    pub due: Option<JsonView>,
    pub deadline: Option<JsonView>,
    pub worker_host: Option<Seq<char>>,
    pub session_id: Option<Seq<char>>,
    pub codex_app_server_pid: Option<u32>,
    pub turn_count: u32,
    pub last_event: Option<Seq<char>>,
    pub last_message: Option<Seq<char>>,
    pub started_at: i128,
    pub last_event_at: Option<i128>,
    pub workspace: Seq<char>,
    pub tokens: TokenSnapshot,
}

impl View for RunningSnapshot {
    type V = RunningSnapshotView;

    open spec fn view(&self) -> RunningSnapshotView {
        RunningSnapshotView {
            issue_id: self.issue_id@,
            issue_identifier: self.issue_identifier@,
            title: self.title@,
            state: self.state@,
            url: opt_text(self.url),
            project_id: opt_text(self.project_id),
            labels: texts(self.labels@),
            due: opt_view(self.due),
            deadline: opt_view(self.deadline),
            worker_host: opt_text(self.worker_host),
            session_id: opt_text(self.session_id),
            codex_app_server_pid: self.codex_app_server_pid,
            turn_count: self.turn_count,
            last_event: opt_text(self.last_event),
            last_message: opt_text(self.last_message),
            started_at: self.started_at,
            last_event_at: self.last_event_at,
            workspace: self.workspace@,
            tokens: self.tokens,
        }
    }
}

/// A task that waits to be taken up again.
#[derive(Debug)]
pub struct RetrySnapshot {
    pub issue_id: String,
    pub issue_identifier: String,
    pub attempt: u32,
    pub due_at: i128,
    pub worker_host: Option<String>,
    pub workspace_location: Option<String>,
    pub error: Option<String>,
    pub error_stage: Option<String>,
    pub error_kind: Option<String>,
}

/// A task that waits to be taken up again.
pub struct RetrySnapshotView {
    pub issue_id: Seq<char>,
    pub issue_identifier: Seq<char>,
    pub attempt: u32,
    pub due_at: i128,
    pub worker_host: Option<Seq<char>>,
    pub workspace_location: Option<Seq<char>>,
    pub error: Option<Seq<char>>,
    pub error_stage: Option<Seq<char>>,
    pub error_kind: Option<Seq<char>>,
}

impl View for RetrySnapshot {
    type V = RetrySnapshotView;

    open spec fn view(&self) -> RetrySnapshotView {
        RetrySnapshotView {
            issue_id: self.issue_id@,
            issue_identifier: self.issue_identifier@,
            attempt: self.attempt,
            due_at: self.due_at,
            worker_host: opt_text(self.worker_host),
            workspace_location: opt_text(self.workspace_location),
            error: opt_text(self.error),
            error_stage: opt_text(self.error_stage),
            error_kind: opt_text(self.error_kind),
        }
    }
}

/// The state of all tasks.
#[derive(Debug)]
pub struct Snapshot {
    pub generated_at: i128,
    pub counts: SnapshotCounts,
    pub running: Vec<RunningSnapshot>,
    pub retrying: Vec<RetrySnapshot>,
    pub codex_totals: SnapshotTotals,
    pub rate_limits: Option<Json>,
    pub todoist_rate_budget: Option<TrackerRateBudget>,
    pub polling: PollingSnapshot,
}

/// The state of all tasks.
pub struct SnapshotView {
    pub generated_at: i128,
    pub counts: CountsView,
    pub running: Seq<RunningSnapshotView>,
    pub retrying: Seq<RetrySnapshotView>,
    pub codex_totals: SnapshotTotals,
    pub rate_limits: Option<JsonView>,
    pub todoist_rate_budget: Option<RateBudgetView>,
    pub polling: PollingSnapshot,
}

impl View for Snapshot {
    type V = SnapshotView;

    open spec fn view(&self) -> SnapshotView {
        SnapshotView {
            generated_at: self.generated_at,
            counts: self.counts@,
            running: views_of(self.running@),
            retrying: views_of(self.retrying@),
            codex_totals: self.codex_totals,
            rate_limits: opt_view(self.rate_limits),
            todoist_rate_budget: opt_budget(self.todoist_rate_budget),
            polling: self.polling,
        }
    }
}

// ---------------------------------------------------------------------------
// Of all tasks
// ---------------------------------------------------------------------------

/// The whole milliseconds until something is due.
pub open spec fn left_ms(due_at: u128, now: u64) -> nat {
    if due_at > now {
        ((due_at - now) / 1_000_000) as nat
    } else {
        0
    }
}

/// The whole milliseconds until something is due.
pub fn millis_left(due_at: u128, now: u64) -> (r: u128)
    ensures
        r == left_ms(due_at, now),
{
    if due_at > now as u128 {
        (due_at - now as u128) / 1_000_000
    } else {
        0
    }
}

/// Whether what is due lies within the calendar.
pub open spec fn due_fits(due_at: u128, wall: i128, now: u64) -> bool {
    wall + left_ms(due_at, now) * 1_000_000 <= LATEST_NANOS
}

/// When something is due on the wall clock.
pub open spec fn due_on_wall(due_at: u128, wall: i128, now: u64) -> i128 {
    (wall + left_ms(due_at, now) * 1_000_000) as i128
}

fn wall_due(due_at: u128, wall: i128, now: u64) -> (r: i128)
    requires
        due_fits(due_at, wall, now),
    ensures
        r == due_on_wall(due_at, wall, now),
{
    let left: u128 = millis_left(due_at, now);
    proof {
        assert(left * 1_000_000 <= LATEST_NANOS - wall);
    }
    let more: u128 = left * 1_000_000;
    let most: u128 = i128::MAX as u128;
    if more <= most {
        wall + more as i128
    } else {
        wall + i128::MAX + (more - most) as i128
    }
}

fn can_tell_due(due_at: u128, wall: i128, now: u64) -> (r: bool)
    ensures
        r == due_fits(due_at, wall, now),
{
    if wall > LATEST_NANOS {
        return false;
    }
    let room: u128 = if wall >= 0 {
        (LATEST_NANOS - wall) as u128
    } else {
        LATEST_NANOS as u128 + (-(wall + 1)) as u128 + 1
    };
    millis_left(due_at, now) <= room / 1_000_000
}

/// Whether all that a snapshot tells of is within its range.
pub open spec fn snapshot_fits(state: StateView, wall: i128, now: u64) -> bool {
    &&& forall|i: int|
        0 <= i < state.retry_attempts.len() ==> due_fits(
            (#[trigger] state.retry_attempts[i]).1.due_at,
            wall,
            now,
        )
    &&& state.next_poll_due_at matches Some(due) ==> left_ms(due, now) <= u64::MAX
}

/// Whether all that a snapshot tells of is within its range.
pub fn can_build_snapshot(state: &State, wall: i128, now: u64) -> (r: bool)
    ensures
        r == snapshot_fits(state@, wall, now),
{
    let entries: &Vec<(String, RetryEntry)> = &state.retry_attempts.entries;
    let ghost all = state.retry_attempts@;
    let mut i: usize = 0;
    while i < entries.len()
        invariant
            i <= entries.len(),
            entries == &state.retry_attempts.entries,
            all == state.retry_attempts@,
            forall|j: int| 0 <= j < i ==> due_fits((#[trigger] all[j]).1.due_at, wall, now),
        decreases entries.len() - i,
    {
        proof {
            assert(all[i as int].1.due_at == entries@[i as int].1.due_at);
        }
        if !can_tell_due(entries[i].1.due_at, wall, now) {
            return false;
        }
        i = i + 1;
    }
    match state.next_poll_due_at {
        Some(due) => millis_left(due, now) <= u64::MAX as u128,
        None => true,
    }
}

/// What is told of a task that runs.
pub open spec fn running_snapshot(id: Seq<char>, entry: RunningView) -> RunningSnapshotView {
    RunningSnapshotView {
        issue_id: id,
        issue_identifier: entry.identifier,
        title: entry.issue.title,
        state: entry.issue.state,
        url: entry.issue.url,
        project_id: entry.issue.project_id,
        labels: entry.issue.labels,
        due: entry.issue.due,
        deadline: entry.issue.deadline,
        worker_host: entry.worker_host,
        session_id: entry.session_id,
        codex_app_server_pid: entry.codex_app_server_pid,
        turn_count: entry.turn_count,
        last_event: entry.last_codex_event,
        last_message: entry.last_codex_message,
        started_at: entry.started_at,
        last_event_at: entry.last_codex_timestamp,
        workspace: entry.workspace_location,
        tokens: entry.codex_tokens,
    }
}

/// What is told of a task that waits to be taken up again.
pub open spec fn retry_snapshot(
    id: Seq<char>,
    entry: RetryView,
    wall: i128,
    now: u64,
) -> RetrySnapshotView {
    RetrySnapshotView {
        issue_id: id,
        issue_identifier: entry.identifier,
        attempt: entry.attempt,
        due_at: due_on_wall(entry.due_at, wall, now),
        worker_host: entry.worker_host,
        workspace_location: entry.workspace_location,
        error: entry.error,
        error_stage: entry.error_stage,
        error_kind: entry.error_kind,
    }
}

/// The milliseconds that the workers have run so far.
pub open spec fn live_ms(running: Seq<(Seq<char>, RunningView)>, wall: i128) -> nat
    decreases running.len(),
{
    if running.len() == 0 {
        0
    } else {
        live_ms(running.drop_last(), wall) + run_ms(running.last().1.started_at, wall)
    }
}

/// What is told of all tasks.
pub open spec fn snapshot_of(state: StateView, wall: i128, now: u64) -> SnapshotView {
    SnapshotView {
        generated_at: wall,
        counts: CountsView {
            running: state.running.len(),
            retrying: state.retry_attempts.len(),
        },
        running: Seq::new(
            state.running.len(),
            |i: int| running_snapshot(state.running[i].0, state.running[i].1),
        ),
        retrying: Seq::new(
            state.retry_attempts.len(),
            |i: int|
                retry_snapshot(state.retry_attempts[i].0, state.retry_attempts[i].1, wall, now),
        ),
        codex_totals: SnapshotTotals {
            tokens: state.codex_totals.tokens,
            running_ms: capped_sum(state.codex_totals.ended_ms, live_ms(state.running, wall)),
        },
        rate_limits: state.codex_rate_limits,
        todoist_rate_budget: state.todoist_rate_budget,
        polling: PollingSnapshot {
            checking: state.poll_check_in_progress,
            next_poll_in_ms: match state.next_poll_due_at {
                Some(due) => Some(left_ms(due, now) as u64),
                None => None,
            },
            poll_interval_ms: state.poll_interval_ms,
        },
    }
}

fn tell_running(id: &String, entry: &RunningEntry) -> (r: RunningSnapshot)
    ensures
        r@ == running_snapshot(id@, entry@),
{
    RunningSnapshot {
        issue_id: id.clone(),
        issue_identifier: entry.identifier.clone(),
        title: entry.issue.title.clone(),
        state: entry.issue.state.clone(),
        url: clone_opt(&entry.issue.url),
        project_id: clone_opt(&entry.issue.project_id),
        labels: clone_all(&entry.issue.labels),
        due: copy_opt(&entry.issue.due),
        deadline: copy_opt(&entry.issue.deadline),
        worker_host: clone_opt(&entry.worker_host),
        session_id: clone_opt(&entry.session_id),
        codex_app_server_pid: entry.codex_app_server_pid,
        turn_count: entry.turn_count,
        last_event: clone_opt(&entry.last_codex_event),
        last_message: clone_opt(&entry.last_codex_message),
        started_at: entry.started_at,
        last_event_at: entry.last_codex_timestamp,
        workspace: entry.workspace_location.clone(),
        tokens: entry.codex_tokens,
    }
}

fn tell_retry(id: &String, entry: &RetryEntry, wall: i128, now: u64) -> (r: RetrySnapshot)
    requires
        due_fits(entry@.due_at, wall, now),
    ensures
        r@ == retry_snapshot(id@, entry@, wall, now),
{
    RetrySnapshot {
        issue_id: id.clone(),
        issue_identifier: entry.identifier.clone(),
        attempt: entry.attempt,
        due_at: wall_due(entry.due_at, wall, now),
        worker_host: clone_opt(&entry.worker_host),
        workspace_location: clone_opt(&entry.workspace_location),
        error: clone_opt(&entry.error),
        error_stage: clone_opt(&entry.error_stage),
        error_kind: clone_opt(&entry.error_kind),
    }
}

/// What is told of all tasks.
pub fn build_snapshot(state: &State, wall: i128, now: u64) -> (r: Snapshot)
    requires
        snapshot_fits(state@, wall, now),
    ensures
        r@ == snapshot_of(state@, wall, now),
{
    let entries: &Vec<(String, RunningEntry)> = &state.running.entries;
    let ghost all = state.running@;
    let mut running: Vec<RunningSnapshot> = Vec::new();
    let mut running_ms: u64 = state.codex_totals.ended_ms;
    let mut i: usize = 0;
    while i < entries.len()
        invariant
            i <= entries.len(),
            entries == &state.running.entries,
            all == state.running@,
            running.len() == i,
            forall|j: int|
                0 <= j < i ==> (#[trigger] running@[j])@ == running_snapshot(all[j].0, all[j].1),
            running_ms == capped_sum(
                state@.codex_totals.ended_ms,
                live_ms(all.take(i as int), wall),
            ),
        decreases entries.len() - i,
    {
        proof {
            assert(all.take(i + 1).drop_last() =~= all.take(i as int));
            assert(all.take(i + 1).last() == all[i as int]);
            assert(all[i as int] == (entries@[i as int].0@, entries@[i as int].1@));
        }
        running.push(tell_running(&entries[i].0, &entries[i].1));
        running_ms = running_ms.saturating_add(runtime_ms(entries[i].1.started_at, wall));
        i = i + 1;
    }
    proof {
        assert(all.take(i as int) =~= all);
    }
    let waiting: &Vec<(String, RetryEntry)> = &state.retry_attempts.entries;
    let ghost due = state.retry_attempts@;
    let mut retrying: Vec<RetrySnapshot> = Vec::new();
    let mut k: usize = 0;
    while k < waiting.len()
        invariant
            k <= waiting.len(),
            waiting == &state.retry_attempts.entries,
            due == state.retry_attempts@,
            snapshot_fits(state@, wall, now),
            retrying.len() == k,
            forall|j: int|
                0 <= j < k ==> (#[trigger] retrying@[j])@ == retry_snapshot(
                    due[j].0,
                    due[j].1,
                    wall,
                    now,
                ),
        decreases waiting.len() - k,
    {
        proof {
            assert(due[k as int] == (waiting@[k as int].0@, waiting@[k as int].1@));
            assert(state@.retry_attempts[k as int].1.due_at == waiting@[k as int].1.due_at);
        }
        retrying.push(tell_retry(&waiting[k].0, &waiting[k].1, wall, now));
        k = k + 1;
    }
    let next_poll_in_ms: Option<u64> = match state.next_poll_due_at {
        Some(at) => Some(millis_left(at, now) as u64),
        None => None,
    };
    let r: Snapshot = Snapshot {
        generated_at: wall,
        counts: SnapshotCounts {
            running: state.running.len(),
            retrying: state.retry_attempts.len(),
        },
        running,
        retrying,
        codex_totals: SnapshotTotals { tokens: state.codex_totals.tokens, running_ms },
        rate_limits: copy_opt(&state.codex_rate_limits),
        todoist_rate_budget: copy_budget(&state.todoist_rate_budget),
        polling: PollingSnapshot {
            checking: state.poll_check_in_progress,
            next_poll_in_ms,
            poll_interval_ms: state.poll_interval_ms,
        },
    };
    proof {
        assert(r@.running =~= snapshot_of(state@, wall, now).running);
        assert(r@.retrying =~= snapshot_of(state@, wall, now).retrying);
    }
    r
}

// ---------------------------------------------------------------------------
// Of one task
// ---------------------------------------------------------------------------

/// Where a task is worked on.
#[derive(Debug)]
pub struct WorkspaceDetail {
    pub path: String,
    pub worker_host: Option<String>,
}

/// How often a task has been tried.
#[derive(Clone, Copy, Debug, PartialEq, Eq, Structural)]
pub struct AttemptDetail {
    pub restart_count: u32,
    pub current_retry_attempt: Option<u32>,
}

/// The worker on a task.
#[derive(Debug)]
pub struct RunningDetail {
    pub worker_host: Option<String>,
    pub session_id: Option<String>,
    pub codex_app_server_pid: Option<u32>,
    pub turn_count: u32,
    pub state: String,
    pub started_at: i128,
    pub last_event: Option<String>,
    pub last_message: Option<String>,
    pub last_event_at: Option<i128>,
    pub tokens: TokenSnapshot,
}

/// The worker on a task.
pub struct RunningDetailView {
    pub worker_host: Option<Seq<char>>,
    pub session_id: Option<Seq<char>>,
    pub codex_app_server_pid: Option<u32>,
    pub turn_count: u32,
    pub state: Seq<char>,
    pub started_at: i128,
    pub last_event: Option<Seq<char>>,
    pub last_message: Option<Seq<char>>,
    pub last_event_at: Option<i128>,
    pub tokens: TokenSnapshot,
}

impl View for RunningDetail {
    type V = RunningDetailView;

    open spec fn view(&self) -> RunningDetailView {
        RunningDetailView {
            worker_host: opt_text(self.worker_host),
            session_id: opt_text(self.session_id),
            codex_app_server_pid: self.codex_app_server_pid,
            turn_count: self.turn_count,
            state: self.state@,
            started_at: self.started_at,
            last_event: opt_text(self.last_event),
            last_message: opt_text(self.last_message),
            last_event_at: self.last_event_at,
            tokens: self.tokens,
        }
    }
}

/// When and why a task is taken up again.
#[derive(Debug)]
pub struct RetryDetail {
    pub attempt: u32,
    pub due_at: i128,
    pub worker_host: Option<String>,
    pub workspace_location: Option<String>,
    pub error: Option<String>,
    pub error_stage: Option<String>,
    pub error_kind: Option<String>,
}

/// When and why a task is taken up again.
pub struct RetryDetailView {
    pub attempt: u32,
    pub due_at: i128,
    pub worker_host: Option<Seq<char>>,
    pub workspace_location: Option<Seq<char>>,
    pub error: Option<Seq<char>>,
    pub error_stage: Option<Seq<char>>,
    pub error_kind: Option<Seq<char>>,
}

impl View for RetryDetail {
    type V = RetryDetailView;

    open spec fn view(&self) -> RetryDetailView {
        RetryDetailView {
            attempt: self.attempt,
            due_at: self.due_at,
            worker_host: opt_text(self.worker_host),
            workspace_location: opt_text(self.workspace_location),
            error: opt_text(self.error),
            error_stage: opt_text(self.error_stage),
            error_kind: opt_text(self.error_kind),
        }
    }
}

/// The state of one task.
#[derive(Debug)]
pub struct IssueDetail {
    pub issue_identifier: String,
    pub issue_id: Option<String>,
    pub status: String,
    pub tracked_issue: Option<Issue>,
    pub workspace: WorkspaceDetail,
    pub attempts: AttemptDetail,
    pub running: Option<RunningDetail>,
    pub retry: Option<RetryDetail>,
    pub recent_events: Vec<RecentEvent>,
    pub last_error: Option<String>,
    pub last_error_stage: Option<String>,
    pub last_error_kind: Option<String>,
}

/// The state of one task.
pub struct IssueDetailView {
    pub issue_identifier: Seq<char>,
    pub issue_id: Option<Seq<char>>,
    pub status: Seq<char>,
    pub tracked_issue: Option<IssueView>,
    pub workspace_path: Seq<char>,
    pub workspace_host: Option<Seq<char>>,
    pub attempts: AttemptDetail,
    pub running: Option<RunningDetailView>,
    pub retry: Option<RetryDetailView>,
    pub recent_events: Seq<RecentView>,
    pub last_error: Option<Seq<char>>,
    pub last_error_stage: Option<Seq<char>>,
    pub last_error_kind: Option<Seq<char>>,
}

impl View for IssueDetail {
    type V = IssueDetailView;

    open spec fn view(&self) -> IssueDetailView {
        IssueDetailView {
            issue_identifier: self.issue_identifier@,
            issue_id: opt_text(self.issue_id),
            status: self.status@,
            tracked_issue: opt_issue(self.tracked_issue),
            workspace_path: self.workspace.path@,
            workspace_host: opt_text(self.workspace.worker_host),
            attempts: self.attempts,
            running: match self.running {
                Some(running) => Some(running@),
                None => None,
            },
            retry: match self.retry {
                Some(retry) => Some(retry@),
                None => None,
            },
            recent_events: views_of(self.recent_events@),
            last_error: opt_text(self.last_error),
            last_error_stage: opt_text(self.last_error_stage),
            last_error_kind: opt_text(self.last_error_kind),
        }
    }
}

/// The index of the first task that runs with an identifier.
pub open spec fn running_index(running: Seq<(Seq<char>, RunningView)>, identifier: Seq<char>) -> nat
    decreases running.len(),
{
    if running.len() == 0 || running[0].1.identifier == identifier {
        0
    } else {
        1 + running_index(running.skip(1), identifier)
    }
}

/// The first task that runs with an identifier.
pub open spec fn running_with(
    running: Seq<(Seq<char>, RunningView)>,
    identifier: Seq<char>,
) -> Option<(Seq<char>, RunningView)> {
    let i = running_index(running, identifier) as int;
    if i < running.len() {
        Some(running[i])
    } else {
        None
    }
}

/// The index of the first task that waits with an identifier.
pub open spec fn retry_index(waiting: Seq<(Seq<char>, RetryView)>, identifier: Seq<char>) -> nat
    decreases waiting.len(),
{
    if waiting.len() == 0 || waiting[0].1.identifier == identifier {
        0
    } else {
        1 + retry_index(waiting.skip(1), identifier)
    }
}

/// The first task that waits with an identifier.
pub open spec fn retry_with(
    waiting: Seq<(Seq<char>, RetryView)>,
    identifier: Seq<char>,
) -> Option<(Seq<char>, RetryView)> {
    let i = retry_index(waiting, identifier) as int;
    if i < waiting.len() {
        Some(waiting[i])
    } else {
        None
    }
}

fn find_running<'a>(state: &'a State, identifier: &str) -> (r: Option<&'a RunningEntry>)
    ensures
        match r {
            Some(entry) => running_with(state@.running, identifier@) matches Some(found)
                && found.1 == entry@,
            None => running_with(state@.running, identifier@) is None,
        },
{
    let entries: &Vec<(String, RunningEntry)> = &state.running.entries;
    let ghost all = state.running@;
    let mut i: usize = 0;
    proof {
        assert(all.skip(0) =~= all);
    }
    while i < entries.len()
        invariant
            i <= entries.len(),
            entries == &state.running.entries,
            all == state.running@,
            running_index(all, identifier@) == i + running_index(all.skip(i as int), identifier@),
        decreases entries.len() - i,
    {
        proof {
            assert(all.skip(i as int)[0] == all[i as int]);
            assert(all.skip(i as int).skip(1) =~= all.skip(i + 1));
        }
        if same(entries[i].1.identifier.as_str(), identifier) {
            return Some(&entries[i].1);
        }
        i = i + 1;
    }
    None
}

fn find_retry<'a>(state: &'a State, identifier: &str) -> (r: Option<(&'a String, &'a RetryEntry)>)
    ensures
        match r {
            Some((id, entry)) => retry_with(state@.retry_attempts, identifier@) == Some(
                (id@, entry@),
            ),
            None => retry_with(state@.retry_attempts, identifier@) is None,
        },
{
    let entries: &Vec<(String, RetryEntry)> = &state.retry_attempts.entries;
    let ghost all = state.retry_attempts@;
    let mut i: usize = 0;
    proof {
        assert(all.skip(0) =~= all);
    }
    while i < entries.len()
        invariant
            i <= entries.len(),
            entries == &state.retry_attempts.entries,
            all == state.retry_attempts@,
            retry_index(all, identifier@) == i + retry_index(all.skip(i as int), identifier@),
        decreases entries.len() - i,
    {
        proof {
            assert(all.skip(i as int)[0] == all[i as int]);
            assert(all.skip(i as int).skip(1) =~= all.skip(i + 1));
        }
        if same(entries[i].1.identifier.as_str(), identifier) {
            return Some((&entries[i].0, &entries[i].1));
        }
        i = i + 1;
    }
    None
}

/// What is told of the worker on a task.
pub open spec fn running_detail(entry: RunningView) -> RunningDetailView {
    RunningDetailView {
        worker_host: entry.worker_host,
        session_id: entry.session_id,
        codex_app_server_pid: entry.codex_app_server_pid,
        turn_count: entry.turn_count,
        state: entry.issue.state,
        started_at: entry.started_at,
        last_event: entry.last_codex_event,
        last_message: entry.last_codex_message,
        last_event_at: entry.last_codex_timestamp,
        tokens: entry.codex_tokens,
    }
}

/// What is told of when and why a task is taken up again.
pub open spec fn retry_detail(entry: RetryView, wall: i128, now: u64) -> RetryDetailView {
    RetryDetailView {
        attempt: entry.attempt,
        due_at: due_on_wall(entry.due_at, wall, now),
        worker_host: entry.worker_host,
        workspace_location: entry.workspace_location,
        error: entry.error,
        error_stage: entry.error_stage,
        error_kind: entry.error_kind,
    }
}

/// The host on which a task is worked on.
pub open spec fn detail_host(
    running: Option<(Seq<char>, RunningView)>,
    retry: Option<(Seq<char>, RetryView)>,
) -> Option<Seq<char>> {
    let other = match retry {
        Some((_, retry)) => retry.worker_host,
        None => None,
    };
    match running {
        Some((_, running)) => match running.worker_host {
            Some(host) => Some(host),
            None => other,
        },
        None => other,
    }
}

/// Where a task is worked on; `fallback` is where it would be.
pub open spec fn detail_path(
    running: Option<(Seq<char>, RunningView)>,
    retry: Option<(Seq<char>, RetryView)>,
    fallback: Seq<char>,
) -> Seq<char> {
    match running {
        Some((_, running)) => running.workspace_location,
        None => match retry {
            Some((_, retry)) => match retry.workspace_location {
                Some(location) => location,
                None => fallback,
            },
            None => fallback,
        },
    }
}

/// What is told of one task; a task that neither runs nor waits is not known.
pub open spec fn detail_of(
    state: StateView,
    identifier: Seq<char>,
    fallback: Seq<char>,
    wall: i128,
    now: u64,
) -> Option<IssueDetailView> {
    let running = running_with(state.running, identifier);
    let retry = retry_with(state.retry_attempts, identifier);
    if running is None && retry is None {
        None
    } else {
        Some(
            IssueDetailView {
                issue_identifier: identifier,
                issue_id: match running {
                    Some((_, running)) => Some(running.issue.id),
                    None => match retry {
                        Some((id, _)) => Some(id),
                        None => None,
                    },
                },
                status: if running is Some {
                    "running"@
                } else {
                    "retrying"@
                },
                tracked_issue: match running {
                    Some((_, running)) => Some(running.issue),
                    None => match retry {
                        Some((_, retry)) => retry.tracked_issue,
                        None => None,
                    },
                },
                workspace_path: detail_path(running, retry, fallback),
                workspace_host: detail_host(running, retry),
                attempts: AttemptDetail {
                    restart_count: match running {
                        Some((_, running)) => if running.turn_count > 0 {
                            (running.turn_count - 1) as u32
                        } else {
                            0
                        },
                        None => 0,
                    },
                    current_retry_attempt: match retry {
                        Some((_, retry)) => Some(retry.attempt),
                        None => None,
                    },
                },
                running: match running {
                    Some((_, running)) => Some(running_detail(running)),
                    None => None,
                },
                retry: match retry {
                    Some((_, retry)) => Some(retry_detail(retry, wall, now)),
                    None => None,
                },
                recent_events: match running {
                    Some((_, running)) => running.recent_events,
                    None => Seq::empty(),
                },
                last_error: match retry {
                    Some((_, retry)) => retry.error,
                    None => None,
                },
                last_error_stage: match retry {
                    Some((_, retry)) => retry.error_stage,
                    None => None,
                },
                last_error_kind: match retry {
                    Some((_, retry)) => retry.error_kind,
                    None => None,
                },
            },
        )
    }
}

/// The host on which a task is worked on, for where its workspace would be.
pub fn issue_detail_host(state: &State, identifier: &str) -> (r: Option<String>)
    ensures
        opt_text(r) == detail_host(
            running_with(state@.running, identifier@),
            retry_with(state@.retry_attempts, identifier@),
        ),
{
    let other: Option<String> = match find_retry(state, identifier) {
        Some((_, retry)) => clone_opt(&retry.worker_host),
        None => None,
    };
    match find_running(state, identifier) {
        Some(running) => match &running.worker_host {
            Some(host) => Some(host.clone()),
            None => other,
        },
        None => other,
    }
}

/// A copy of a list of events.
pub fn copy_recent_events(events: &Vec<RecentEvent>) -> (out: Vec<RecentEvent>)
    ensures
        views_of(out@) == views_of(events@),
{
    let mut out: Vec<RecentEvent> = Vec::new();
    let mut i: usize = 0;
    while i < events.len()
        invariant
            i <= events.len(),
            out.len() == i,
            forall|j: int| 0 <= j < i ==> (#[trigger] out@[j])@ == events@[j]@,
        decreases events.len() - i,
    {
        out.push(events[i].copy());
        i = i + 1;
    }
    proof {
        assert(views_of(out@) =~= views_of(events@));
    }
    out
}

fn tell_worker(entry: &RunningEntry) -> (r: RunningDetail)
    ensures
        r@ == running_detail(entry@),
{
    RunningDetail {
        worker_host: clone_opt(&entry.worker_host),
        session_id: clone_opt(&entry.session_id),
        codex_app_server_pid: entry.codex_app_server_pid,
        turn_count: entry.turn_count,
        state: entry.issue.state.clone(),
        started_at: entry.started_at,
        last_event: clone_opt(&entry.last_codex_event),
        last_message: clone_opt(&entry.last_codex_message),
        last_event_at: entry.last_codex_timestamp,
        tokens: entry.codex_tokens,
    }
}

fn tell_wait(entry: &RetryEntry, wall: i128, now: u64) -> (r: RetryDetail)
    requires
        due_fits(entry@.due_at, wall, now),
    ensures
        r@ == retry_detail(entry@, wall, now),
{
    RetryDetail {
        attempt: entry.attempt,
        due_at: wall_due(entry.due_at, wall, now),
        worker_host: clone_opt(&entry.worker_host),
        workspace_location: clone_opt(&entry.workspace_location),
        error: clone_opt(&entry.error),
        error_stage: clone_opt(&entry.error_stage),
        error_kind: clone_opt(&entry.error_kind),
    }
}

/// Whether what is told of one task is within its range.
pub open spec fn detail_fits(state: StateView, identifier: Seq<char>, wall: i128, now: u64) -> bool {
    retry_with(state.retry_attempts, identifier) matches Some((_, entry)) ==> due_fits(
        entry.due_at,
        wall,
        now,
    )
}

/// Whether what is told of one task is within its range.
pub fn can_build_issue_detail(state: &State, identifier: &str, wall: i128, now: u64) -> (r: bool)
    ensures
        r == detail_fits(state@, identifier@, wall, now),
{
    match find_retry(state, identifier) {
        Some((_, entry)) => can_tell_due(entry.due_at, wall, now),
        None => true,
    }
}

/// What is told of one task. `fallback` is where its workspace would be on the host that
/// `issue_detail_host` names.
pub fn build_issue_detail(state: &State, identifier: &str, fallback: &str, wall: i128, now: u64) -> (r:
    Option<IssueDetail>)
    requires
        detail_fits(state@, identifier@, wall, now),
    ensures
        match detail_of(state@, identifier@, fallback@, wall, now) {
            Some(detail) => r matches Some(told) && told@ == detail,
            None => r is None,
        },
{
    let running: Option<&RunningEntry> = find_running(state, identifier);
    let retry: Option<(&String, &RetryEntry)> = find_retry(state, identifier);
    let worker_host: Option<String> = issue_detail_host(state, identifier);
    let ghost waiting = retry_with(state@.retry_attempts, identifier@);
    proof {
        let i = retry_index(state@.retry_attempts, identifier@) as int;
        if waiting is Some {
            assert(state@.retry_attempts[i] == waiting->0);
        }
    }
    let told_retry: Option<RetryDetail> = match retry {
        Some((_, entry)) => Some(tell_wait(entry, wall, now)),
        None => None,
    };
    let (attempt, error, error_stage, error_kind): (
        Option<u32>,
        Option<String>,
        Option<String>,
        Option<String>,
    ) = match retry {
        Some((_, entry)) => (
            Some(entry.attempt),
            clone_opt(&entry.error),
            clone_opt(&entry.error_stage),
            clone_opt(&entry.error_kind),
        ),
        None => (None, None, None, None),
    };
    match running {
        Some(entry) => {
            let restart_count: u32 = if entry.turn_count > 0 {
                entry.turn_count - 1
            } else {
                0
            };
            Some(
                IssueDetail {
                    issue_identifier: owned(identifier),
                    issue_id: Some(entry.issue.id.clone()),
                    status: owned("running"),
                    tracked_issue: Some(entry.issue.copy()),
                    workspace: WorkspaceDetail {
                        path: entry.workspace_location.clone(),
                        worker_host,
                    },
                    attempts: AttemptDetail { restart_count, current_retry_attempt: attempt },
                    running: Some(tell_worker(entry)),
                    retry: told_retry,
                    recent_events: copy_recent_events(&entry.recent_events),
                    last_error: error,
                    last_error_stage: error_stage,
                    last_error_kind: error_kind,
                },
            )
        },
        None => match retry {
            None => None,
            Some((id, entry)) => {
                let path: String = match &entry.workspace_location {
                    Some(location) => location.clone(),
                    None => owned(fallback),
                };
                let tracked_issue: Option<Issue> = match &entry.tracked_issue {
                    Some(issue) => Some(issue.copy()),
                    None => None,
                };
                let none: Vec<RecentEvent> = Vec::new();
                proof {
                    assert(views_of(none@) =~= Seq::<RecentView>::empty());
                }
                Some(
                    IssueDetail {
                        issue_identifier: owned(identifier),
                        issue_id: Some(id.clone()),
                        status: owned("retrying"),
                        tracked_issue,
                        workspace: WorkspaceDetail { path, worker_host },
                        attempts: AttemptDetail {
                            restart_count: 0,
                            current_retry_attempt: attempt,
                        },
                        running: None,
                        retry: told_retry,
                        recent_events: none,
                        last_error: error,
                        last_error_stage: error_stage,
                        last_error_kind: error_kind,
                    },
                )
            },
        },
    }
}

/// A task can be told of exactly where a snapshot lists it.
pub proof fn law_details_match_snapshots(
    state: StateView,
    identifier: Seq<char>,
    fallback: Seq<char>,
    wall: i128,
    now: u64,
)
    ensures
        detail_of(state, identifier, fallback, wall, now) is Some <==> ((exists|i: int|
            0 <= i < snapshot_of(state, wall, now).running.len() && (
            #[trigger] snapshot_of(state, wall, now).running[i]).issue_identifier == identifier)
            || (exists|i: int|
            0 <= i < snapshot_of(state, wall, now).retrying.len() && (
            #[trigger] snapshot_of(state, wall, now).retrying[i]).issue_identifier == identifier)),
{
    let told = snapshot_of(state, wall, now);
    lemma_running_index(state.running, identifier);
    lemma_retry_index(state.retry_attempts, identifier);
    let i = running_index(state.running, identifier) as int;
    let k = retry_index(state.retry_attempts, identifier) as int;
    if i < state.running.len() {
        assert(told.running[i].issue_identifier == identifier);
    }
    if k < state.retry_attempts.len() {
        assert(told.retrying[k].issue_identifier == identifier);
    }
}

proof fn lemma_running_index(running: Seq<(Seq<char>, RunningView)>, identifier: Seq<char>)
    ensures
        running_index(running, identifier) <= running.len(),
        running_index(running, identifier) < running.len() ==> running[running_index(
            running,
            identifier,
        ) as int].1.identifier == identifier,
        forall|i: int|
            0 <= i < running_index(running, identifier) ==> (#[trigger] running[i]).1.identifier
                != identifier,
    decreases running.len(),
{
    if running.len() > 0 && running[0].1.identifier != identifier {
        lemma_running_index(running.skip(1), identifier);
        assert forall|i: int| 0 <= i < running_index(running, identifier) implies (
        #[trigger] running[i]).1.identifier != identifier by {
            if i > 0 {
                assert(running[i] == running.skip(1)[i - 1]);
            }
        }
    }
}

proof fn lemma_retry_index(waiting: Seq<(Seq<char>, RetryView)>, identifier: Seq<char>)
    ensures
        retry_index(waiting, identifier) <= waiting.len(),
        retry_index(waiting, identifier) < waiting.len() ==> waiting[retry_index(
            waiting,
            identifier,
        ) as int].1.identifier == identifier,
        forall|i: int|
            0 <= i < retry_index(waiting, identifier) ==> (#[trigger] waiting[i]).1.identifier
                != identifier,
    decreases waiting.len(),
{
    if waiting.len() > 0 && waiting[0].1.identifier != identifier {
        lemma_retry_index(waiting.skip(1), identifier);
        assert forall|i: int| 0 <= i < retry_index(waiting, identifier) implies (
        #[trigger] waiting[i]).1.identifier != identifier by {
            if i > 0 {
                assert(waiting[i] == waiting.skip(1)[i - 1]);
            }
        }
    }
}

} // verus!
