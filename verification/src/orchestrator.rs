//! Which tasks are worked on, where, and what follows when a worker reports, stops or
//! stalls. The caller performs what the steps ask for: it runs workers and timers, asks
//! the tracker, and removes workspaces.
//!
//! Points in time on the wall clock are nanoseconds since the start of 1970; those on
//! the steady clock, by which things are due, are nanoseconds since some start.
use vstd::prelude::*;
use vstd::string::*;

use crate::clock::{elapsed_millis, millis_between, whole_micros};
use crate::codex::{CodexEvent, EventView};
use crate::issue::{state_name, Issue, IssueView};
use crate::json::{compact_of, opt_view, to_text, Json, JsonView};
use crate::sorting::{is_ranking, ranked, sort, views_of, Ranked};
use crate::table::{
    changed, has_key, in_order, keys, lemma_changed_keys, lemma_changed_lookup, lemma_lookup_index,
    lemma_put_in_order, lemma_put_lookup, lemma_without_in_order, lemma_without_lookup, lookup, put,
    without, Table,
};
use crate::text::{
    before, clone_all, clone_opt, concat3, is_among, is_before, lemma_before_irreflexive,
    lemma_before_total, lemma_before_transitive, lowered, opt_same, opt_text, owned, same,
    signed_decimal, signed_text, texts, trimmed,
};
use crate::tracker::{opt_budget, RateBudgetView, TrackerRateBudget};
use crate::worker::{
    close_succeeded, guarded_close_transition_may_be_in_flight, opt_issue, opt_texts, preference,
    todoist_close_task_succeeded, usable_preference, worker_result, DispositionView,
    WorkerDisposition, WorkerError, WorkerErrorView,
};

verus! {

broadcast use {vstd::seq::group_seq_axioms, vstd::string::group_string_axioms};

/// Why the orchestrator did not answer.
#[derive(Clone, Copy, Debug, PartialEq, Eq, Structural)]
pub enum OrchestratorHandleError {
    TimedOut,
    Unavailable,
}

// ---------------------------------------------------------------------------
// State
// ---------------------------------------------------------------------------

/// Counts of tokens.
#[derive(Clone, Copy, Debug, PartialEq, Eq, Structural)]
pub struct TokenSnapshot {
    pub input_tokens: u64,
    pub output_tokens: u64,
    pub total_tokens: u64,
}

/// No tokens at all.
pub open spec fn no_tokens() -> TokenSnapshot {
    TokenSnapshot { input_tokens: 0, output_tokens: 0, total_tokens: 0 }
}

/// Something that a worker reported.
#[derive(Debug)]
pub struct RecentEvent {
    pub at: i128,
    pub event: String,
    pub message: Option<String>,
}

/// Something that a worker reported.
pub struct RecentView {
    pub at: i128,
    pub event: Seq<char>,
    pub message: Option<Seq<char>>,
}

impl View for RecentEvent {
    type V = RecentView;

    open spec fn view(&self) -> RecentView {
        RecentView { at: self.at, event: self.event@, message: opt_text(self.message) }
    }
}

impl RecentEvent {
    /// A copy of the event.
    pub fn copy(&self) -> (r: RecentEvent)
        ensures
            r@ == self@,
    {
        RecentEvent { at: self.at, event: self.event.clone(), message: clone_opt(&self.message) }
    }
}

/// A task that a worker runs on.
#[derive(Debug)]
pub struct RunningEntry {
    pub issue: Issue,
    pub identifier: String,
    pub workspace_path: String,
    pub workspace_location: String,
    pub worker_host: Option<String>,
    pub session_id: Option<String>,
    pub last_codex_message: Option<String>,
    pub last_codex_event: Option<String>,
    pub last_codex_timestamp: Option<i128>,
    pub codex_app_server_pid: Option<u32>,
    pub codex_tokens: TokenSnapshot,
    pub last_reported_tokens: TokenSnapshot,
    pub turn_count: u32,
    pub retry_attempt: u32,
    pub started_at: i128,
    pub terminal_transition_permitted: bool,
    pub recent_events: Vec<RecentEvent>,
}

/// A task that a worker runs on.
pub struct RunningView {
    pub issue: IssueView,
    pub identifier: Seq<char>,
    pub workspace_path: Seq<char>,
    pub workspace_location: Seq<char>,
    pub worker_host: Option<Seq<char>>,
    pub session_id: Option<Seq<char>>,
    pub last_codex_message: Option<Seq<char>>,
    pub last_codex_event: Option<Seq<char>>,
    pub last_codex_timestamp: Option<i128>,
    pub codex_app_server_pid: Option<u32>,
    pub codex_tokens: TokenSnapshot,
    pub last_reported_tokens: TokenSnapshot,
    pub turn_count: u32,
    pub retry_attempt: u32,
    pub started_at: i128,
    pub terminal_transition_permitted: bool,
    pub recent_events: Seq<RecentView>,
}

impl View for RunningEntry {
    type V = RunningView;

    open spec fn view(&self) -> RunningView {
        RunningView {
            issue: self.issue@,
            identifier: self.identifier@,
            workspace_path: self.workspace_path@,
            workspace_location: self.workspace_location@,
            worker_host: opt_text(self.worker_host),
            session_id: opt_text(self.session_id),
            last_codex_message: opt_text(self.last_codex_message),
            last_codex_event: opt_text(self.last_codex_event),
            last_codex_timestamp: self.last_codex_timestamp,
            codex_app_server_pid: self.codex_app_server_pid,
            codex_tokens: self.codex_tokens,
            last_reported_tokens: self.last_reported_tokens,
            turn_count: self.turn_count,
            retry_attempt: self.retry_attempt,
            started_at: self.started_at,
            terminal_transition_permitted: self.terminal_transition_permitted,
            recent_events: views_of(self.recent_events@),
        }
    }
}

/// A task that is taken up again later.
#[derive(Debug)]
pub struct RetryEntry {
    pub attempt: u32,
    pub due_at: u128,
    pub identifier: String,
    pub tracked_issue: Option<Issue>,
    pub worker_host: Option<String>,
    pub workspace_location: Option<String>,
    pub error: Option<String>,
    pub error_stage: Option<String>,
    pub error_kind: Option<String>,
}

/// A task that is taken up again later.
pub struct RetryView {
    pub attempt: u32,
    pub due_at: u128,
    pub identifier: Seq<char>,
    pub tracked_issue: Option<IssueView>,
    pub worker_host: Option<Seq<char>>,
    pub workspace_location: Option<Seq<char>>,
    pub error: Option<Seq<char>>,
    pub error_stage: Option<Seq<char>>,
    pub error_kind: Option<Seq<char>>,
}

impl View for RetryEntry {
    type V = RetryView;

    open spec fn view(&self) -> RetryView {
        RetryView {
            attempt: self.attempt,
            due_at: self.due_at,
            identifier: self.identifier@,
            tracked_issue: opt_issue(self.tracked_issue),
            worker_host: opt_text(self.worker_host),
            workspace_location: opt_text(self.workspace_location),
            error: opt_text(self.error),
            error_stage: opt_text(self.error_stage),
            error_kind: opt_text(self.error_kind),
        }
    }
}

/// On which hosts workers run.
#[derive(Debug)]
pub struct WorkerRuntimeConfig {
    pub ssh_hosts: Vec<String>,
    pub max_concurrent_agents_per_host: Option<usize>,
}

/// What all workers have used: tokens, and the milliseconds of those that have ended.
#[derive(Clone, Copy, Debug, PartialEq, Eq, Structural)]
pub struct CodexTotals {
    pub tokens: TokenSnapshot,
    pub ended_ms: u64,
}

/// What the orchestrator knows.
#[derive(Debug)]
pub struct State {
    pub poll_interval_ms: u64,
    pub max_concurrent_agents: usize,
    pub max_retry_backoff_ms: u64,
    pub worker_runtime: WorkerRuntimeConfig,
    pub validated_startup_config: Option<String>,
    pub next_poll_due_at: Option<u128>,
    pub poll_check_in_progress: bool,
    pub running: Table<RunningEntry>,
    pub completed: Table<()>,
    pub claimed: Table<()>,
    pub retry_attempts: Table<RetryEntry>,
    pub codex_totals: CodexTotals,
    pub codex_rate_limits: Option<Json>,
    pub todoist_rate_budget: Option<TrackerRateBudget>,
}

/// What the orchestrator knows.
pub struct StateView {
    pub poll_interval_ms: u64,
    pub max_concurrent_agents: nat,
    pub max_retry_backoff_ms: u64,
    pub ssh_hosts: Seq<Seq<char>>,
    pub max_concurrent_agents_per_host: Option<usize>,
    pub validated_startup_config: Option<Seq<char>>,
    pub next_poll_due_at: Option<u128>,
    pub poll_check_in_progress: bool,
    pub running: Seq<(Seq<char>, RunningView)>,
    pub completed: Seq<(Seq<char>, ())>,
    pub claimed: Seq<(Seq<char>, ())>,
    pub retry_attempts: Seq<(Seq<char>, RetryView)>,
    pub codex_totals: CodexTotals,
    pub codex_rate_limits: Option<JsonView>,
    pub todoist_rate_budget: Option<RateBudgetView>,
}

impl View for State {
    type V = StateView;

    open spec fn view(&self) -> StateView {
        StateView {
            poll_interval_ms: self.poll_interval_ms,
            max_concurrent_agents: self.max_concurrent_agents as nat,
            max_retry_backoff_ms: self.max_retry_backoff_ms,
            ssh_hosts: texts(self.worker_runtime.ssh_hosts@),
            max_concurrent_agents_per_host: self.worker_runtime.max_concurrent_agents_per_host,
            validated_startup_config: opt_text(self.validated_startup_config),
            next_poll_due_at: self.next_poll_due_at,
            poll_check_in_progress: self.poll_check_in_progress,
            running: self.running@,
            completed: self.completed@,
            claimed: self.claimed@,
            retry_attempts: self.retry_attempts@,
            codex_totals: self.codex_totals,
            codex_rate_limits: opt_view(self.codex_rate_limits),
            todoist_rate_budget: opt_budget(self.todoist_rate_budget),
        }
    }
}

/// What the configuration says of the orchestrator.
#[derive(Debug)]
pub struct RuntimeSettings {
    pub poll_interval_ms: u64,
    pub max_concurrent_agents: usize,
    pub max_retry_backoff_ms: u64,
    pub ssh_hosts: Vec<String>,
    pub max_concurrent_agents_per_host: Option<usize>,
}

/// A state in which nothing has happened yet.
pub open spec fn fresh_state(
    settings: RuntimeSettings,
    config: Seq<char>,
    budget: Option<RateBudgetView>,
) -> StateView {
    StateView {
        poll_interval_ms: settings.poll_interval_ms,
        max_concurrent_agents: settings.max_concurrent_agents as nat,
        max_retry_backoff_ms: settings.max_retry_backoff_ms,
        ssh_hosts: Seq::empty(),
        max_concurrent_agents_per_host: None,
        validated_startup_config: Some(config),
        next_poll_due_at: None,
        poll_check_in_progress: false,
        running: Seq::empty(),
        completed: Seq::empty(),
        claimed: Seq::empty(),
        retry_attempts: Seq::empty(),
        codex_totals: CodexTotals { tokens: no_tokens(), ended_ms: 0 },
        codex_rate_limits: None,
        todoist_rate_budget: budget,
    }
}

impl State {
    /// The state at the start, after the configuration that `config` stands for has been
    /// validated.
    pub fn start(
        settings: &RuntimeSettings,
        config: String,
        todoist_rate_budget: Option<TrackerRateBudget>,
    ) -> (r: State)
        ensures
            r@ == fresh_state(*settings, config@, opt_budget(todoist_rate_budget)),
    {
        let r: State = State {
            poll_interval_ms: settings.poll_interval_ms,
            max_concurrent_agents: settings.max_concurrent_agents,
            max_retry_backoff_ms: settings.max_retry_backoff_ms,
            worker_runtime: WorkerRuntimeConfig {
                ssh_hosts: Vec::new(),
                max_concurrent_agents_per_host: None,
            },
            validated_startup_config: Some(config),
            next_poll_due_at: None,
            poll_check_in_progress: false,
            running: Table::new(),
            completed: Table::new(),
            claimed: Table::new(),
            retry_attempts: Table::new(),
            codex_totals: CodexTotals {
                tokens: TokenSnapshot { input_tokens: 0, output_tokens: 0, total_tokens: 0 },
                ended_ms: 0,
            },
            codex_rate_limits: None,
            todoist_rate_budget,
        };
        proof {
            assert(r@.ssh_hosts =~= Seq::empty());
        }
        r
    }
}

/// What holds of a task's entry among the running ones.
pub open spec fn entry_sound(id: Seq<char>, entry: RunningView) -> bool {
    &&& entry.issue.id == id
    &&& entry.codex_tokens == entry.last_reported_tokens
    &&& entry.recent_events.len() <= 100
}

impl StateView {
    /// What holds of the state at any time: every task that runs is claimed, none of them
    /// also waits to be taken up again, each has its own entry, and what a worker is
    /// charged with is what it last reported.
    pub open spec fn sound(self) -> bool {
        &&& in_order(self.running)
        &&& in_order(self.completed)
        &&& in_order(self.claimed)
        &&& in_order(self.retry_attempts)
        &&& forall|id: Seq<char>| #[trigger]
            has_key(self.running, id) ==> {
                &&& has_key(self.claimed, id)
                &&& !has_key(self.retry_attempts, id)
                &&& entry_sound(id, lookup(self.running, id)->0)
            }
    }
}

/// The state at the start is sound.
pub proof fn law_fresh_state_is_sound(
    settings: RuntimeSettings,
    config: Seq<char>,
    budget: Option<RateBudgetView>,
)
    ensures
        fresh_state(settings, config, budget).sound(),
{
    let state = fresh_state(settings, config, budget);
    assert forall|id: Seq<char>| !has_key(state.running, id) by {
        lemma_lookup_index(state.running, id);
    }
}

// ---------------------------------------------------------------------------
// Slots
// ---------------------------------------------------------------------------

impl StateView {
    /// How many more workers may run.
    pub open spec fn available(self) -> nat {
        if self.running.len() < self.max_concurrent_agents {
            (self.max_concurrent_agents - self.running.len()) as nat
        } else {
            0
        }
    }

    /// How many workers run on a host.
    pub open spec fn load(self, host: Seq<char>) -> nat {
        on_host(self.running, host)
    }

    /// Whether a host takes another worker.
    pub open spec fn has_room(self, host: Seq<char>) -> bool {
        match self.max_concurrent_agents_per_host {
            Some(limit) => self.load(host) < limit,
            None => true,
        }
    }
}

/// How many workers run on a host.
pub open spec fn on_host(running: Seq<(Seq<char>, RunningView)>, host: Seq<char>) -> nat
    decreases running.len(),
{
    if running.len() == 0 {
        0
    } else {
        on_host(running.drop_last(), host) + (if running.last().1.worker_host == Some(host) {
            1nat
        } else {
            0nat
        })
    }
}

/// How many workers run on tasks in a state.
pub open spec fn in_state(running: Seq<(Seq<char>, RunningView)>, key: Seq<char>) -> nat
    decreases running.len(),
{
    if running.len() == 0 {
        0
    } else {
        in_state(running.drop_last(), key) + (if state_name(running.last().1.issue.state) == key {
            1nat
        } else {
            0nat
        })
    }
}

/// How many more workers may run.
pub fn available_slots(state: &State) -> (r: usize)
    ensures
        r == state@.available(),
{
    if state.running.len() < state.max_concurrent_agents {
        state.max_concurrent_agents - state.running.len()
    } else {
        0
    }
}

/// How many workers run on a host.
pub fn running_worker_host_count(state: &State, worker_host: &str) -> (r: usize)
    ensures
        r == state@.load(worker_host@),
{
    let entries: &Vec<(String, RunningEntry)> = &state.running.entries;
    let ghost all = state.running@;
    let mut count: usize = 0;
    let mut i: usize = 0;
    while i < entries.len()
        invariant
            i <= entries.len(),
            entries == &state.running.entries,
            all == state.running@,
            count <= i,
            count == on_host(all.take(i as int), worker_host@),
        decreases entries.len() - i,
    {
        proof {
            assert(all.take(i + 1).drop_last() =~= all.take(i as int));
            assert(all.take(i + 1).last() == all[i as int]);
        }
        match &entries[i].1.worker_host {
            Some(host) => {
                if same(host.as_str(), worker_host) {
                    count = count + 1;
                }
            },
            None => {},
        }
        i = i + 1;
    }
    proof {
        assert(all.take(i as int) =~= all);
    }
    count
}

/// Whether a host takes another worker.
pub fn worker_host_slots_available(state: &State, worker_host: &str) -> (r: bool)
    ensures
        r == state@.has_room(worker_host@),
{
    match state.worker_runtime.max_concurrent_agents_per_host {
        Some(limit) => running_worker_host_count(state, worker_host) < limit,
        None => true,
    }
}

/// Whether another worker may run on a task in this state, of which `limit` may run.
pub fn state_slots_available(state: &State, limit: usize, issue: &Issue) -> (r: bool)
    ensures
        r == (in_state(state@.running, state_name(issue@.state)) < limit),
{
    let key: String = issue.state_key();
    let entries: &Vec<(String, RunningEntry)> = &state.running.entries;
    let ghost all = state.running@;
    let mut count: usize = 0;
    let mut i: usize = 0;
    while i < entries.len()
        invariant
            i <= entries.len(),
            entries == &state.running.entries,
            all == state.running@,
            count <= i,
            count == in_state(all.take(i as int), key@),
        decreases entries.len() - i,
    {
        proof {
            assert(all.take(i + 1).drop_last() =~= all.take(i as int));
            assert(all.take(i + 1).last() == all[i as int]);
        }
        let other: String = entries[i].1.issue.state_key();
        if same(other.as_str(), key.as_str()) {
            count = count + 1;
        }
        i = i + 1;
    }
    proof {
        assert(all.take(i as int) =~= all);
    }
    count < limit
}

/// Where a worker runs.
#[derive(Debug)]
pub enum WorkerSelection {
    /// On the machine itself.
    Local,
    /// On this host.
    Remote(String),
    /// Nowhere: no host takes another worker.
    NoCapacity,
}

/// Where a worker runs.
pub enum SelectionView {
    Local,
    Remote(Seq<char>),
    NoCapacity,
}

impl View for WorkerSelection {
    type V = SelectionView;

    open spec fn view(&self) -> SelectionView {
        match self {
            WorkerSelection::Local => SelectionView::Local,
            WorkerSelection::Remote(host) => SelectionView::Remote(host@),
            WorkerSelection::NoCapacity => SelectionView::NoCapacity,
        }
    }
}

impl StateView {
    /// The hosts among `hosts` that take another worker, in their order.
    pub open spec fn open_hosts(self, hosts: Seq<Seq<char>>) -> Seq<Seq<char>>
        decreases hosts.len(),
    {
        if hosts.len() == 0 {
            Seq::empty()
        } else {
            let earlier = self.open_hosts(hosts.drop_last());
            if self.has_room(hosts.last()) {
                earlier.push(hosts.last())
            } else {
                earlier
            }
        }
    }

    /// The first host on which the fewest workers run.
    pub open spec fn least_loaded(self, hosts: Seq<Seq<char>>) -> Seq<char>
        decreases hosts.len(),
    {
        if hosts.len() <= 1 {
            hosts[0]
        } else {
            let best = self.least_loaded(hosts.drop_last());
            if self.load(hosts.last()) < self.load(best) {
                hosts.last()
            } else {
                best
            }
        }
    }

    /// Where the next worker runs.
    pub open spec fn selection(self, preferred: Option<Seq<char>>) -> SelectionView {
        let open = self.open_hosts(self.ssh_hosts);
        if self.ssh_hosts.len() == 0 {
            SelectionView::Local
        } else if open.len() == 0 {
            SelectionView::NoCapacity
        } else {
            match preference(preferred) {
                Some(host) => if open.contains(host) {
                    SelectionView::Remote(host)
                } else {
                    SelectionView::Remote(self.least_loaded(open))
                },
                None => SelectionView::Remote(self.least_loaded(open)),
            }
        }
    }
}

fn collect_open_hosts(state: &State) -> (out: Vec<String>)
    ensures
        texts(out@) == state@.open_hosts(state@.ssh_hosts),
{
    let hosts: &Vec<String> = &state.worker_runtime.ssh_hosts;
    let ghost all = texts(hosts@);
    let mut out: Vec<String> = Vec::new();
    let mut i: usize = 0;
    proof {
        assert(texts(out@) =~= Seq::empty());
    }
    while i < hosts.len()
        invariant
            i <= hosts.len(),
            hosts == &state.worker_runtime.ssh_hosts,
            all == texts(hosts@),
            texts(out@) == state@.open_hosts(all.take(i as int)),
        decreases hosts.len() - i,
    {
        proof {
            assert(all.take(i + 1).drop_last() =~= all.take(i as int));
            assert(all.take(i + 1).last() == hosts@[i as int]@);
        }
        if worker_host_slots_available(state, hosts[i].as_str()) {
            let ghost had = texts(out@);
            out.push(hosts[i].clone());
            proof {
                assert(texts(out@) =~= had.push(hosts@[i as int]@));
            }
        }
        i = i + 1;
    }
    proof {
        assert(all.take(i as int) =~= all);
    }
    out
}

/// Where the next worker runs: on the preferred host where it takes another worker, or
/// else on the first of those on which the fewest workers run.
pub fn select_worker_host(state: &State, preferred_worker_host: &Option<String>) -> (r:
    WorkerSelection)
    ensures
        r@ == state@.selection(opt_text(*preferred_worker_host)),
{
    if state.worker_runtime.ssh_hosts.len() == 0 {
        return WorkerSelection::Local;
    }
    let open: Vec<String> = collect_open_hosts(state);
    let ghost all = texts(open@);
    if open.len() == 0 {
        return WorkerSelection::NoCapacity;
    }
    match usable_preference(preferred_worker_host) {
        Some(host) => {
            if is_among(&open, host.as_str()) {
                return WorkerSelection::Remote(host);
            }
        },
        None => {},
    }
    let mut best: usize = 0;
    let mut load: usize = running_worker_host_count(state, open[0].as_str());
    let mut i: usize = 1;
    proof {
        assert(all.take(1)[0] == all[0]);
    }
    while i < open.len()
        invariant
            1 <= i <= open.len(),
            best < open.len(),
            all == texts(open@),
            all[best as int] == state@.least_loaded(all.take(i as int)),
            load == state@.load(all[best as int]),
        decreases open.len() - i,
    {
        proof {
            assert(all.take(i + 1).drop_last() =~= all.take(i as int));
            assert(all.take(i + 1).last() == open@[i as int]@);
        }
        let other: usize = running_worker_host_count(state, open[i].as_str());
        if other < load {
            best = i;
            load = other;
        }
        i = i + 1;
    }
    proof {
        assert(all.take(i as int) =~= all);
    }
    WorkerSelection::Remote(open[best].clone())
}

/// Whether a worker can run anywhere.
pub fn worker_slots_available(state: &State, preferred_worker_host: &Option<String>) -> (r: bool)
    ensures
        r == (state@.selection(opt_text(*preferred_worker_host)) !is NoCapacity),
{
    match select_worker_host(state, preferred_worker_host) {
        WorkerSelection::NoCapacity => false,
        _ => true,
    }
}

/// What the open hosts are.
proof fn lemma_open_hosts(state: StateView, hosts: Seq<Seq<char>>)
    ensures
        forall|host: Seq<char>| #[trigger]
            state.open_hosts(hosts).contains(host) <==> hosts.contains(host) && state.has_room(
                host,
            ),
    decreases hosts.len(),
{
    if hosts.len() > 0 {
        let rest = hosts.drop_last();
        lemma_open_hosts(state, rest);
        let earlier = state.open_hosts(rest);
        let all = state.open_hosts(hosts);
        assert forall|host: Seq<char>| #[trigger] all.contains(host) <==> hosts.contains(host)
            && state.has_room(host) by {
            if all.contains(host) {
                let i = choose|i: int| 0 <= i < all.len() && all[i] == host;
                if i < earlier.len() {
                    assert(earlier[i] == host);
                    assert(earlier.contains(host));
                    let k = choose|k: int| 0 <= k < rest.len() && rest[k] == host;
                    assert(hosts[k] == host);
                } else {
                    assert(hosts[hosts.len() - 1] == host);
                }
            }
            if hosts.contains(host) && state.has_room(host) {
                let k = choose|k: int| 0 <= k < hosts.len() && hosts[k] == host;
                if k < rest.len() {
                    assert(rest[k] == host);
                    assert(earlier.contains(host));
                    let i = choose|i: int| 0 <= i < earlier.len() && earlier[i] == host;
                    assert(all[i] == host);
                } else {
                    assert(all[all.len() - 1] == host);
                }
            }
        }
    }
}

/// The least loaded host is one of them, and none is less loaded.
proof fn lemma_least_loaded(state: StateView, hosts: Seq<Seq<char>>)
    requires
        hosts.len() > 0,
    ensures
        hosts.contains(state.least_loaded(hosts)),
        forall|i: int|
            0 <= i < hosts.len() ==> state.load(state.least_loaded(hosts)) <= state.load(
                #[trigger] hosts[i],
            ),
    decreases hosts.len(),
{
    if hosts.len() > 1 {
        let rest = hosts.drop_last();
        lemma_least_loaded(state, rest);
        let best = state.least_loaded(rest);
        let k = choose|k: int| 0 <= k < rest.len() && rest[k] == best;
        assert(hosts[k] == best);
        assert(hosts[hosts.len() - 1] == hosts.last());
        assert forall|i: int| 0 <= i < hosts.len() implies state.load(state.least_loaded(hosts))
            <= state.load(#[trigger] hosts[i]) by {
            if i < rest.len() {
                assert(rest[i] == hosts[i]);
            }
        }
    } else {
        assert(hosts[0] == state.least_loaded(hosts));
    }
}

/// A worker runs on a configured host that takes another worker; a preferred host that
/// does is chosen, and else none that does is less loaded.
pub proof fn law_selected_host_has_room(state: StateView, preferred: Option<Seq<char>>)
    ensures
        state.selection(preferred) matches SelectionView::Remote(host) ==> {
            &&& state.ssh_hosts.contains(host)
            &&& state.has_room(host)
            &&& preference(preferred) != Some(host) ==> forall|other: Seq<char>|
                state.ssh_hosts.contains(other) && #[trigger] state.has_room(other)
                    ==> state.load(host) <= state.load(other)
        },
        (preference(preferred) matches Some(host) && state.ssh_hosts.contains(host)
            && state.has_room(host)) ==> state.selection(preferred) == SelectionView::Remote(
            preference(preferred)->0,
        ),
        state.selection(preferred) is NoCapacity ==> forall|other: Seq<char>|
            state.ssh_hosts.contains(other) ==> !#[trigger] state.has_room(other),
{
    let open = state.open_hosts(state.ssh_hosts);
    lemma_open_hosts(state, state.ssh_hosts);
    assert forall|other: Seq<char>|
        state.ssh_hosts.contains(other) && #[trigger] state.has_room(other) implies open.contains(
        other,
    ) by {}
    if open.len() > 0 {
        lemma_least_loaded(state, open);
        assert(open.contains(state.least_loaded(open)));
        assert forall|other: Seq<char>|
            state.ssh_hosts.contains(other) && #[trigger] state.has_room(other) implies state.load(
            state.least_loaded(open),
        ) <= state.load(other) by {
            assert(open.contains(other));
            let i = choose|i: int| 0 <= i < open.len() && open[i] == other;
            assert(open[i] == other);
        }
    } else {
        assert forall|other: Seq<char>| state.ssh_hosts.contains(other) implies !#[trigger] state.has_room(
            other,
        ) by {
            if state.has_room(other) {
                assert(open.contains(other));
            }
        }
    }
}

// ---------------------------------------------------------------------------
// The order of tasks
// ---------------------------------------------------------------------------

/// A task's priority; tasks without one come last.
pub open spec fn priority_of(issue: IssueView) -> i64 {
    match issue.priority {
        Some(priority) => priority,
        None => 5,
    }
}

/// When a task was made, in whole microseconds; tasks that do not say come last.
pub open spec fn created_of(issue: IssueView) -> int {
    match issue.created_at {
        Some(at) => at as int / 1_000,
        None => i64::MAX as int,
    }
}

fn made_at(issue: &Issue) -> (r: i128)
    ensures
        r == created_of(issue@),
{
    match issue.created_at {
        Some(at) => whole_micros(at),
        None => i64::MAX as i128,
    }
}

/// Which of two tasks is dispatched first: the one of lower priority number, then the
/// older one, then the one whose identifier comes first.
pub open spec fn dispatched_before(a: IssueView, b: IssueView) -> bool {
    ||| priority_of(a) < priority_of(b)
    ||| priority_of(a) == priority_of(b) && created_of(a) < created_of(b)
    ||| priority_of(a) == priority_of(b) && created_of(a) == created_of(b) && before(
        a.identifier,
        b.identifier,
    )
}

impl Ranked for Issue {
    open spec fn ranks_before(a: IssueView, b: IssueView) -> bool {
        dispatched_before(a, b)
    }

    fn comes_before(&self, other: &Self) -> (r: bool) {
        let p: i64 = match self.priority {
            Some(priority) => priority,
            None => 5,
        };
        let q: i64 = match other.priority {
            Some(priority) => priority,
            None => 5,
        };
        let c: i128 = made_at(self);
        let d: i128 = made_at(other);
        p < q || (p == q && c < d) || (p == q && c == d && is_before(
            self.identifier.as_str(),
            other.identifier.as_str(),
        ))
    }
}

/// The tasks in the order in which they are dispatched.
pub fn sort_issues_for_dispatch(issues: Vec<Issue>) -> (r: Vec<Issue>)
    ensures
        views_of(r@) == ranked::<Issue>(views_of(issues@)),
{
    sort(issues)
}

/// Tasks are ranked by an order.
pub proof fn law_dispatch_order_is_an_order()
    ensures
        is_ranking::<Issue>(),
{
    assert forall|a: IssueView, b: IssueView|
        dispatched_before(a, b) implies !dispatched_before(b, a) by {
        lemma_before_irreflexive(a.identifier);
        if before(a.identifier, b.identifier) && before(b.identifier, a.identifier) {
            lemma_before_transitive(a.identifier, b.identifier, a.identifier);
        }
    }
    assert forall|a: IssueView, b: IssueView, c: IssueView|
        !dispatched_before(b, a) && !dispatched_before(c, b) implies !dispatched_before(c, a) by {
        let (x, y, z) = (a.identifier, b.identifier, c.identifier);
        lemma_before_irreflexive(x);
        if x != y {
            lemma_before_total(x, y);
        }
        if y != z {
            lemma_before_total(y, z);
        }
        if before(x, y) && before(y, z) {
            lemma_before_transitive(x, y, z);
        }
        if before(x, z) && before(z, x) {
            lemma_before_transitive(x, z, x);
        }
    }
}

// ---------------------------------------------------------------------------
// Candidates
// ---------------------------------------------------------------------------

/// Whether a task can be worked on.
pub open spec fn is_candidate(
    issue: IssueView,
    active_states: Seq<Seq<char>>,
    terminal_states: Seq<Seq<char>>,
) -> bool {
    &&& issue.id.len() > 0
    &&& issue.identifier.len() > 0
    &&& issue.title.len() > 0
    &&& issue.state.len() > 0
    &&& active_states.contains(state_name(issue.state))
    &&& !terminal_states.contains(state_name(issue.state))
}

/// Whether a task can be worked on.
pub fn candidate_issue(issue: &Issue, active_states: &Vec<String>, terminal_states: &Vec<String>) -> (r:
    bool)
    ensures
        r == is_candidate(issue@, texts(active_states@), texts(terminal_states@)),
{
    let key: String = issue.state_key();
    !issue.id.as_str().is_empty() && !issue.identifier.as_str().is_empty()
        && !issue.title.as_str().is_empty() && !issue.state.as_str().is_empty() && is_among(
        active_states,
        key.as_str(),
    ) && !is_among(terminal_states, key.as_str())
}

/// Whether a task can be worked on by a worker.
pub open spec fn is_retry_candidate(
    issue: IssueView,
    active_states: Seq<Seq<char>>,
    terminal_states: Seq<Seq<char>>,
) -> bool {
    is_candidate(issue, active_states, terminal_states) && issue.assigned_to_worker
}

/// Whether a task can be worked on by a worker.
pub fn retry_candidate_issue(
    issue: &Issue,
    active_states: &Vec<String>,
    terminal_states: &Vec<String>,
) -> (r: bool)
    ensures
        r == is_retry_candidate(issue@, texts(active_states@), texts(terminal_states@)),
        r <==> {
            &&& issue@.assigned_to_worker
            &&& texts(active_states@).contains(lowered(trimmed(issue@.state)))
            &&& !texts(terminal_states@).contains(lowered(trimmed(issue@.state)))
            &&& issue@.id.len() > 0 && issue@.identifier.len() > 0
            &&& issue@.title.len() > 0 && issue@.state.len() > 0
        },
{
    candidate_issue(issue, active_states, terminal_states) && issue.assigned_to_worker
}

impl StateView {
    /// Whether a task is dispatched; `limit` workers may run on tasks in its state.
    pub open spec fn dispatches(
        self,
        issue: IssueView,
        limit: usize,
        active_states: Seq<Seq<char>>,
        terminal_states: Seq<Seq<char>>,
    ) -> bool {
        &&& is_retry_candidate(issue, active_states, terminal_states)
        &&& !has_key(self.claimed, issue.id)
        &&& !has_key(self.running, issue.id)
        &&& self.available() > 0
        &&& in_state(self.running, state_name(issue.state)) < limit
        &&& self.selection(None) !is NoCapacity
    }
}

/// Whether a task is dispatched; `limit` workers may run on tasks in its state.
pub fn should_dispatch_issue(
    state: &State,
    limit: usize,
    issue: &Issue,
    active_states: &Vec<String>,
    terminal_states: &Vec<String>,
) -> (r: bool)
    ensures
        r == state@.dispatches(issue@, limit, texts(active_states@), texts(terminal_states@)),
        r ==> issue@.assigned_to_worker && texts(active_states@).contains(
            lowered(trimmed(issue@.state)),
        ) && !texts(terminal_states@).contains(lowered(trimmed(issue@.state))),
        r ==> !has_key(state@.running, issue@.id) && !has_key(state@.claimed, issue@.id)
            && state@.running.len() < state@.max_concurrent_agents,
{
    retry_candidate_issue(issue, active_states, terminal_states) && !state.claimed.contains_key(
        issue.id.as_str(),
    ) && !state.running.contains_key(issue.id.as_str()) && available_slots(state) > 0
        && state_slots_available(state, limit, issue) && worker_slots_available(state, &None)
}

// ---------------------------------------------------------------------------
// Dispatch
// ---------------------------------------------------------------------------

/// Why a task is not dispatched after all.
#[derive(Debug)]
pub enum SkipReason {
    /// The tracker could not be asked.
    TrackerFailed(String),
    /// The tracker does not return the task any more.
    MissingAfterRevalidate,
    /// The task is not to be worked on any more.
    StaleCandidate,
    /// No host takes another worker.
    NoWorkerCapacity,
}

/// What comes of a dispatch.
#[derive(Debug)]
pub enum DispatchPlan {
    /// The task is left.
    Skip(SkipReason),
    /// A worker starts on the task, on the host.
    Start { issue: Issue, worker_host: Option<String> },
}

/// What comes of a dispatch.
pub enum DispatchView {
    Failed(Seq<char>),
    Missing,
    Stale,
    NoCapacity,
    Start { issue: IssueView, worker_host: Option<Seq<char>> },
}

impl View for DispatchPlan {
    type V = DispatchView;

    open spec fn view(&self) -> DispatchView {
        match self {
            DispatchPlan::Skip(SkipReason::TrackerFailed(reason)) => DispatchView::Failed(reason@),
            DispatchPlan::Skip(SkipReason::MissingAfterRevalidate) => DispatchView::Missing,
            DispatchPlan::Skip(SkipReason::StaleCandidate) => DispatchView::Stale,
            DispatchPlan::Skip(SkipReason::NoWorkerCapacity) => DispatchView::NoCapacity,
            DispatchPlan::Start { issue, worker_host } => DispatchView::Start {
                issue: issue@,
                worker_host: opt_text(*worker_host),
            },
        }
    }
}

/// A task that a worker has just started on.
pub open spec fn fresh_entry(
    issue: IssueView,
    attempt: Option<u32>,
    worker_host: Option<Seq<char>>,
    workspace_path: Seq<char>,
    now: i128,
) -> RunningView {
    RunningView {
        issue,
        identifier: issue.identifier,
        workspace_path,
        workspace_location: workspace_path,
        worker_host,
        session_id: None,
        last_codex_message: None,
        last_codex_event: None,
        last_codex_timestamp: None,
        codex_app_server_pid: None,
        codex_tokens: no_tokens(),
        last_reported_tokens: no_tokens(),
        turn_count: 0,
        retry_attempt: match attempt {
            Some(n) => n,
            None => 0,
        },
        started_at: now,
        terminal_transition_permitted: false,
        recent_events: Seq::empty(),
    }
}

impl StateView {
    /// The state without a claim on a task.
    pub open spec fn released(self, id: Seq<char>) -> StateView {
        StateView { claimed: without(self.claimed, id), ..self }
    }

    /// What comes of dispatching a task, once the tracker has been asked for it again.
    pub open spec fn dispatch_plan(
        self,
        refreshed: Result<Seq<IssueView>, Seq<char>>,
        preferred: Option<Seq<char>>,
        active_states: Seq<Seq<char>>,
        terminal_states: Seq<Seq<char>>,
    ) -> DispatchView {
        match refreshed {
            Err(reason) => DispatchView::Failed(reason),
            Ok(issues) => if issues.len() == 0 {
                DispatchView::Missing
            } else if !is_retry_candidate(issues[0], active_states, terminal_states) {
                DispatchView::Stale
            } else {
                match self.selection(preferred) {
                    SelectionView::NoCapacity => DispatchView::NoCapacity,
                    SelectionView::Local => DispatchView::Start {
                        issue: issues[0],
                        worker_host: None,
                    },
                    SelectionView::Remote(host) => DispatchView::Start {
                        issue: issues[0],
                        worker_host: Some(host),
                    },
                }
            },
        }
    }

    /// The state once a worker has started on a task.
    pub open spec fn started(
        self,
        issue: IssueView,
        attempt: Option<u32>,
        worker_host: Option<Seq<char>>,
        workspace_path: Seq<char>,
        now: i128,
    ) -> StateView {
        StateView {
            running: put(
                self.running,
                issue.id,
                fresh_entry(issue, attempt, worker_host, workspace_path, now),
            ),
            claimed: put(self.claimed, issue.id, ()),
            retry_attempts: without(self.retry_attempts, issue.id),
            ..self
        }
    }
}

/// What comes of dispatching the task `issue_id`, once the tracker has been asked for it
/// again. Where the task is left, it is no longer claimed.
pub fn plan_dispatch(
    state: &mut State,
    issue_id: &str,
    refreshed: Result<Vec<Issue>, String>,
    preferred_worker_host: &Option<String>,
    active_states: &Vec<String>,
    terminal_states: &Vec<String>,
) -> (r: DispatchPlan)
    ensures
        r@ == old(state)@.dispatch_plan(
            crate::worker::fetched_view(refreshed),
            opt_text(*preferred_worker_host),
            texts(active_states@),
            texts(terminal_states@),
        ),
        r@ matches DispatchView::Start { issue, .. } ==> issue.assigned_to_worker && texts(
            active_states@,
        ).contains(lowered(trimmed(issue.state))) && !texts(terminal_states@).contains(
            lowered(trimmed(issue.state)),
        ),
        final(state)@ == if r@ is Start {
            old(state)@
        } else {
            old(state)@.released(issue_id@)
        },
{
    let issues: Vec<Issue> = match refreshed {
        Err(reason) => {
            state.claimed.remove(issue_id);
            return DispatchPlan::Skip(SkipReason::TrackerFailed(reason));
        },
        Ok(issues) => issues,
    };
    let issue: Issue = match crate::worker::take_first(issues) {
        Some(issue) => issue,
        None => {
            state.claimed.remove(issue_id);
            return DispatchPlan::Skip(SkipReason::MissingAfterRevalidate);
        },
    };
    if !retry_candidate_issue(&issue, active_states, terminal_states) {
        state.claimed.remove(issue_id);
        return DispatchPlan::Skip(SkipReason::StaleCandidate);
    }
    match select_worker_host(state, preferred_worker_host) {
        WorkerSelection::Local => DispatchPlan::Start { issue, worker_host: None },
        WorkerSelection::Remote(host) => DispatchPlan::Start { issue, worker_host: Some(host) },
        WorkerSelection::NoCapacity => {
            state.claimed.remove(issue_id);
            DispatchPlan::Skip(SkipReason::NoWorkerCapacity)
        },
    }
}

/// Takes in that a worker has started on a task.
pub fn start_dispatch(
    state: &mut State,
    issue: Issue,
    attempt: Option<u32>,
    worker_host: Option<String>,
    workspace_path: String,
    now: i128,
)
    ensures
        final(state)@ == old(state)@.started(
            issue@,
            attempt,
            opt_text(worker_host),
            workspace_path@,
            now,
        ),
{
    let id: String = issue.id.clone();
    let retry_attempt: u32 = match attempt {
        Some(n) => n,
        None => 0,
    };
    let none: TokenSnapshot = TokenSnapshot {
        input_tokens: 0,
        output_tokens: 0,
        total_tokens: 0,
    };
    let entry: RunningEntry = RunningEntry {
        identifier: issue.identifier.clone(),
        workspace_location: workspace_path.clone(),
        workspace_path,
        worker_host,
        session_id: None,
        last_codex_message: None,
        last_codex_event: None,
        last_codex_timestamp: None,
        codex_app_server_pid: None,
        codex_tokens: none,
        last_reported_tokens: none,
        turn_count: 0,
        retry_attempt,
        started_at: now,
        terminal_transition_permitted: false,
        recent_events: Vec::new(),
        issue,
    };
    proof {
        assert(entry@.recent_events =~= Seq::empty());
    }
    state.running.insert(id.clone(), entry);
    state.claimed.insert(id.clone(), ());
    state.retry_attempts.remove(id.as_str());
}

/// Leaving a task that does not run keeps the state sound.
pub proof fn law_release_keeps_state_sound(state: StateView, id: Seq<char>)
    requires
        state.sound(),
        !has_key(state.running, id),
    ensures
        state.released(id).sound(),
{
    lemma_without_in_order(state.claimed, id);
    assert forall|other: Seq<char>| #[trigger] has_key(state.running, other) implies has_key(
        state.released(id).claimed,
        other,
    ) by {
        lemma_without_lookup(state.claimed, id, other);
    }
}

/// Starting a worker keeps the state sound.
pub proof fn law_start_keeps_state_sound(
    state: StateView,
    issue: IssueView,
    attempt: Option<u32>,
    worker_host: Option<Seq<char>>,
    workspace_path: Seq<char>,
    now: i128,
)
    requires
        state.sound(),
    ensures
        state.started(issue, attempt, worker_host, workspace_path, now).sound(),
        has_key(
            state.started(issue, attempt, worker_host, workspace_path, now).running,
            issue.id,
        ),
{
    let entry = fresh_entry(issue, attempt, worker_host, workspace_path, now);
    let after = state.started(issue, attempt, worker_host, workspace_path, now);
    lemma_put_in_order(state.running, issue.id, entry);
    lemma_put_in_order(state.claimed, issue.id, ());
    lemma_without_in_order(state.retry_attempts, issue.id);
    lemma_put_lookup(state.running, issue.id, entry, issue.id);
    assert forall|id: Seq<char>| #[trigger] has_key(after.running, id) implies {
        &&& has_key(after.claimed, id)
        &&& !has_key(after.retry_attempts, id)
        &&& entry_sound(id, lookup(after.running, id)->0)
    } by {
        lemma_put_lookup(state.running, issue.id, entry, id);
        lemma_put_lookup(state.claimed, issue.id, (), id);
        lemma_without_lookup(state.retry_attempts, issue.id, id);
        if id != issue.id {
            assert(has_key(state.running, id));
        }
    }
}

/// One more entry counts where it fits.
proof fn lemma_counts_insert(
    running: Seq<(Seq<char>, RunningView)>,
    n: int,
    entry: (Seq<char>, RunningView),
    host: Seq<char>,
    key: Seq<char>,
)
    requires
        0 <= n <= running.len(),
    ensures
        on_host(running.insert(n, entry), host) <= on_host(running, host) + 1,
        in_state(running.insert(n, entry), key) <= in_state(running, key) + 1,
    decreases running.len(),
{
    let after = running.insert(n, entry);
    if n == running.len() {
        assert(after.drop_last() =~= running);
    } else {
        lemma_counts_insert(running.drop_last(), n, entry, host, key);
        assert(after.drop_last() =~= running.drop_last().insert(n, entry));
        assert(after.last() == running.last());
    }
}

/// A dispatched task finds a slot: once a worker has started on it where it was selected
/// to run, no more workers run than may, no more on tasks in its state, and no more on
/// its host.
pub proof fn law_dispatch_respects_the_slots(
    state: StateView,
    issue: IssueView,
    limit: usize,
    active_states: Seq<Seq<char>>,
    terminal_states: Seq<Seq<char>>,
    attempt: Option<u32>,
    worker_host: Option<Seq<char>>,
    workspace_path: Seq<char>,
    now: i128,
)
    requires
        state.dispatches(issue, limit, active_states, terminal_states),
        state.selection(None) == match worker_host {
            Some(host) => SelectionView::Remote(host),
            None => SelectionView::Local,
        },
    ensures
        state.started(issue, attempt, worker_host, workspace_path, now).running.len()
            <= state.max_concurrent_agents,
        in_state(
            state.started(issue, attempt, worker_host, workspace_path, now).running,
            state_name(issue.state),
        ) <= limit,
        worker_host matches Some(host) ==> (state.max_concurrent_agents_per_host matches Some(most)
            ==> state.started(issue, attempt, worker_host, workspace_path, now).load(host) <= most),
{
    let entry = fresh_entry(issue, attempt, worker_host, workspace_path, now);
    let n = crate::table::key_slot(keys(state.running), issue.id) as int;
    crate::table::lemma_key_slot(keys(state.running), issue.id);
    if n < state.running.len() && state.running[n].0 == issue.id {
        assert(keys(state.running)[n] == issue.id);
        crate::table::lemma_key_index(keys(state.running), issue.id);
    }
    let host = match worker_host {
        Some(host) => host,
        None => Seq::empty(),
    };
    lemma_counts_insert(state.running, n, (issue.id, entry), host, state_name(issue.state));
    law_selected_host_has_room(state, None);
}

// ---------------------------------------------------------------------------
// Retries
// ---------------------------------------------------------------------------

/// Ten seconds, doubled `n` times, in milliseconds.
pub open spec fn doubled(n: nat) -> nat
    decreases n,
{
    if n == 0 {
        10_000
    } else {
        2 * doubled((n - 1) as nat)
    }
}

/// How long it takes until a task is taken up again, in milliseconds.
pub open spec fn retry_delay(attempt: u32, continuation: bool, most: u64) -> nat {
    if continuation && attempt == 1 {
        1_000
    } else {
        let power: nat = if attempt == 0 {
            0
        } else if attempt > 11 {
            10
        } else {
            (attempt - 1) as nat
        };
        if doubled(power) < most {
            doubled(power)
        } else {
            most as nat
        }
    }
}

/// The delay that doubling gives.
proof fn lemma_doubled()
    ensures
        doubled(0) == 10_000,
        doubled(10) == 10_240_000,
{
    reveal_with_fuel(doubled, 11);
}

proof fn lemma_doubled_grows(n: nat, m: nat)
    requires
        n <= m,
    ensures
        10_000 <= doubled(n) <= doubled(m),
    decreases m,
{
    if n < m {
        lemma_doubled_grows(n, (m - 1) as nat);
    } else if n > 0 {
        lemma_doubled_grows((n - 1) as nat, (n - 1) as nat);
    }
}

/// How long it takes until a task is taken up again, in milliseconds: a second where it
/// goes on, or else ten seconds, doubled with each attempt up to ten times.
pub fn retry_delay_ms(attempt: u32, continuation: bool, max_retry_backoff_ms: u64) -> (r: u64)
    ensures
        r == retry_delay(attempt, continuation, max_retry_backoff_ms),
{
    if continuation && attempt == 1 {
        return 1_000;
    }
    let power: u32 = if attempt == 0 {
        0
    } else if attempt > 11 {
        10
    } else {
        attempt - 1
    };
    let mut delay: u64 = 10_000;
    let mut i: u32 = 0;
    while i < power
        invariant
            i <= power <= 10,
            delay == doubled(i as nat),
        decreases power - i,
    {
        proof {
            lemma_doubled();
            lemma_doubled_grows((i + 1) as nat, 10);
        }
        delay = delay * 2;
        i = i + 1;
    }
    if delay < max_retry_backoff_ms {
        delay
    } else {
        max_retry_backoff_ms
    }
}

/// The delay is never longer than ten seconds doubled ten times, and, but for going on,
/// never longer than configured.
pub proof fn law_delay_is_bounded(attempt: u32, continuation: bool, most: u64)
    ensures
        retry_delay(attempt, continuation, most) <= 10_240_000,
        !(continuation && attempt == 1) ==> retry_delay(attempt, continuation, most) <= most,
{
    lemma_doubled();
    lemma_doubled_grows(0, 10);
    if 1 <= attempt <= 11 {
        lemma_doubled_grows((attempt - 1) as nat, 10);
    }
}

/// A later attempt waits no shorter than an earlier one.
pub proof fn law_delay_grows(earlier: u32, later: u32, most: u64)
    requires
        earlier <= later,
    ensures
        retry_delay(earlier, false, most) <= retry_delay(later, false, most),
{
    let a: nat = if earlier == 0 {
        0
    } else if earlier > 11 {
        10
    } else {
        (earlier - 1) as nat
    };
    let b: nat = if later == 0 {
        0
    } else if later > 11 {
        10
    } else {
        (later - 1) as nat
    };
    lemma_doubled_grows(a, b);
}

/// A task that is to be taken up again.
#[derive(Debug)]
pub struct RetryRequest {
    pub issue_id: String,
    pub attempt: u32,
    pub identifier: String,
    pub tracked_issue: Option<Issue>,
    pub worker_host: Option<String>,
    pub workspace_location: Option<String>,
    pub error: Option<String>,
    pub error_stage: Option<String>,
    pub error_kind: Option<String>,
    pub continuation: bool,
}

/// A task that is to be taken up again.
pub struct RetryRequestView {
    pub issue_id: Seq<char>,
    pub attempt: u32,
    pub identifier: Seq<char>,
    pub tracked_issue: Option<IssueView>,
    pub worker_host: Option<Seq<char>>,
    pub workspace_location: Option<Seq<char>>,
    pub error: Option<Seq<char>>,
    pub error_stage: Option<Seq<char>>,
    pub error_kind: Option<Seq<char>>,
    pub continuation: bool,
}

impl View for RetryRequest {
    type V = RetryRequestView;

    open spec fn view(&self) -> RetryRequestView {
        RetryRequestView {
            issue_id: self.issue_id@,
            attempt: self.attempt,
            identifier: self.identifier@,
            tracked_issue: opt_issue(self.tracked_issue),
            worker_host: opt_text(self.worker_host),
            workspace_location: opt_text(self.workspace_location),
            error: opt_text(self.error),
            error_stage: opt_text(self.error_stage),
            error_kind: opt_text(self.error_kind),
            continuation: self.continuation,
        }
    }
}

/// A timer that is to be set: after the delay, the task is taken up again. Where there
/// was one for the same task, it is cancelled.
#[derive(Debug)]
pub struct RetryTimer {
    pub issue_id: String,
    pub delay_ms: u64,
    pub replaces: bool,
}

/// A timer that is to be set.
pub struct TimerView {
    pub issue_id: Seq<char>,
    pub delay_ms: u64,
    pub replaces: bool,
}

impl View for RetryTimer {
    type V = TimerView;

    open spec fn view(&self) -> TimerView {
        TimerView {
            issue_id: self.issue_id@,
            delay_ms: self.delay_ms,
            replaces: self.replaces,
        }
    }
}

/// What an optional timer is.
pub open spec fn opt_timer(timer: Option<RetryTimer>) -> Option<TimerView> {
    match timer {
        Some(timer) => Some(timer@),
        None => None,
    }
}

impl StateView {
    /// The timer for a task that is to be taken up again.
    pub open spec fn timer_for(self, request: RetryRequestView) -> TimerView {
        TimerView {
            issue_id: request.issue_id,
            delay_ms: retry_delay(
                request.attempt,
                request.continuation,
                self.max_retry_backoff_ms,
            ) as u64,
            replaces: has_key(self.retry_attempts, request.issue_id),
        }
    }

    /// The state with a task that is to be taken up again.
    pub open spec fn retrying(self, request: RetryRequestView, now: u64) -> StateView {
        StateView {
            retry_attempts: put(
                self.retry_attempts,
                request.issue_id,
                RetryView {
                    attempt: request.attempt,
                    due_at: (now + retry_delay(
                        request.attempt,
                        request.continuation,
                        self.max_retry_backoff_ms,
                    ) * 1_000_000) as u128,
                    identifier: request.identifier,
                    tracked_issue: request.tracked_issue,
                    worker_host: request.worker_host,
                    workspace_location: request.workspace_location,
                    error: request.error,
                    error_stage: request.error_stage,
                    error_kind: request.error_kind,
                },
            ),
            ..self
        }
    }
}

/// Lets a task be taken up again after its delay.
pub fn schedule_retry(state: &mut State, request: RetryRequest, now: u64) -> (r: RetryTimer)
    ensures
        final(state)@ == old(state)@.retrying(request@, now),
        r@ == old(state)@.timer_for(request@),
{
    let replaces: bool = state.retry_attempts.contains_key(request.issue_id.as_str());
    let delay_ms: u64 = retry_delay_ms(
        request.attempt,
        request.continuation,
        state.max_retry_backoff_ms,
    );
    let due_at: u128 = now as u128 + delay_ms as u128 * 1_000_000;
    let issue_id: String = request.issue_id.clone();
    state.retry_attempts.insert(
        request.issue_id,
        RetryEntry {
            attempt: request.attempt,
            due_at,
            identifier: request.identifier,
            tracked_issue: request.tracked_issue,
            worker_host: request.worker_host,
            workspace_location: request.workspace_location,
            error: request.error,
            error_stage: request.error_stage,
            error_kind: request.error_kind,
        },
    );
    RetryTimer { issue_id, delay_ms, replaces }
}

/// Letting a task that does not run be taken up again keeps the state sound.
pub proof fn law_retry_keeps_state_sound(state: StateView, request: RetryRequestView, now: u64)
    requires
        state.sound(),
        !has_key(state.running, request.issue_id),
    ensures
        state.retrying(request, now).sound(),
        has_key(state.retrying(request, now).retry_attempts, request.issue_id),
{
    let after = state.retrying(request, now);
    let entry = lookup(after.retry_attempts, request.issue_id)->0;
    let id = request.issue_id;
    let value = RetryView {
        attempt: request.attempt,
        due_at: (now + retry_delay(request.attempt, request.continuation, state.max_retry_backoff_ms)
            * 1_000_000) as u128,
        identifier: request.identifier,
        tracked_issue: request.tracked_issue,
        worker_host: request.worker_host,
        workspace_location: request.workspace_location,
        error: request.error,
        error_stage: request.error_stage,
        error_kind: request.error_kind,
    };
    lemma_put_in_order(state.retry_attempts, id, value);
    lemma_put_lookup(state.retry_attempts, id, value, id);
    assert forall|other: Seq<char>| #[trigger] has_key(after.running, other) implies !has_key(
        after.retry_attempts,
        other,
    ) by {
        lemma_put_lookup(state.retry_attempts, id, value, other);
    }
}

// ---------------------------------------------------------------------------
// Ends
// ---------------------------------------------------------------------------

/// The milliseconds from a start until now; none where the start lies ahead.
pub open spec fn run_ms(started_at: i128, now: i128) -> nat {
    if started_at <= now {
        millis_between(started_at as int, now as int) as nat
    } else {
        0
    }
}

/// A sum that stays within 64 bits.
pub open spec fn capped_sum(a: u64, b: nat) -> u64 {
    if a + b > u64::MAX {
        u64::MAX
    } else {
        (a + b) as u64
    }
}

/// The milliseconds from a start until now.
pub fn runtime_ms(started_at: i128, now: i128) -> (r: u64)
    ensures
        r == run_ms(started_at, now),
{
    if started_at <= now {
        elapsed_millis(started_at, now) as u64
    } else {
        0
    }
}

/// A worker that is to be stopped; where `cleanup_workspace` holds, its workspace is
/// removed then.
#[derive(Debug)]
pub struct StoppedRun {
    pub issue_id: String,
    pub identifier: String,
    pub workspace_path: String,
    pub worker_host: Option<String>,
    pub codex_app_server_pid: Option<u32>,
    pub cleanup_workspace: bool,
}

/// A worker that is to be stopped.
pub struct StoppedView {
    pub issue_id: Seq<char>,
    pub identifier: Seq<char>,
    pub workspace_path: Seq<char>,
    pub worker_host: Option<Seq<char>>,
    pub codex_app_server_pid: Option<u32>,
    pub cleanup_workspace: bool,
}

impl View for StoppedRun {
    type V = StoppedView;

    open spec fn view(&self) -> StoppedView {
        StoppedView {
            issue_id: self.issue_id@,
            identifier: self.identifier@,
            workspace_path: self.workspace_path@,
            worker_host: opt_text(self.worker_host),
            codex_app_server_pid: self.codex_app_server_pid,
            cleanup_workspace: self.cleanup_workspace,
        }
    }
}

/// What an optional stop is.
pub open spec fn opt_stopped(stopped: Option<StoppedRun>) -> Option<StoppedView> {
    match stopped {
        Some(stopped) => Some(stopped@),
        None => None,
    }
}

impl StateView {
    /// The state without the worker on a task, whose time is added up.
    pub open spec fn ended(self, id: Seq<char>, now: i128) -> StateView {
        let entry = lookup(self.running, id)->0;
        StateView {
            running: without(self.running, id),
            codex_totals: CodexTotals {
                ended_ms: capped_sum(self.codex_totals.ended_ms, run_ms(entry.started_at, now)),
                ..self.codex_totals
            },
            ..self
        }
    }

    /// The state after the worker on a task was stopped.
    pub open spec fn terminated(self, id: Seq<char>, now: i128) -> StateView {
        if has_key(self.running, id) {
            StateView {
                claimed: without(self.claimed, id),
                retry_attempts: without(self.retry_attempts, id),
                ..self.ended(id, now)
            }
        } else {
            self.released(id)
        }
    }

    /// The worker that is stopped.
    pub open spec fn stopped(self, id: Seq<char>, cleanup: bool) -> Option<StoppedView> {
        if has_key(self.running, id) {
            let entry = lookup(self.running, id)->0;
            Some(
                StoppedView {
                    issue_id: id,
                    identifier: entry.identifier,
                    workspace_path: entry.workspace_path,
                    worker_host: entry.worker_host,
                    codex_app_server_pid: entry.codex_app_server_pid,
                    cleanup_workspace: cleanup,
                },
            )
        } else {
            None
        }
    }
}

/// Takes the worker on a task out and adds its time up.
fn take_running(state: &mut State, issue_id: &str, now: i128) -> (r: Option<RunningEntry>)
    ensures
        match r {
            Some(entry) => has_key(old(state)@.running, issue_id@) && entry@ == lookup(
                old(state)@.running,
                issue_id@,
            )->0 && final(state)@ == old(state)@.ended(issue_id@, now),
            None => !has_key(old(state)@.running, issue_id@) && final(state)@ == old(state)@,
        },
{
    match state.running.remove(issue_id) {
        None => {
            proof {
                crate::table::lemma_without_nothing(old(state)@.running, issue_id@);
            }
            None
        },
        Some(entry) => {
            let ran: u64 = runtime_ms(entry.started_at, now);
            state.codex_totals.ended_ms = state.codex_totals.ended_ms.saturating_add(ran);
            Some(entry)
        },
    }
}

/// Stops the worker on a task, if one runs, and leaves the task.
pub fn terminate_running_issue(
    state: &mut State,
    issue_id: &str,
    cleanup_workspace: bool,
    now: i128,
) -> (r: Option<StoppedRun>)
    ensures
        final(state)@ == old(state)@.terminated(issue_id@, now),
        opt_stopped(r) == old(state)@.stopped(issue_id@, cleanup_workspace),
{
    match take_running(state, issue_id, now) {
        Some(entry) => {
            state.claimed.remove(issue_id);
            state.retry_attempts.remove(issue_id);
            Some(
                StoppedRun {
                    issue_id: owned(issue_id),
                    identifier: entry.identifier,
                    workspace_path: entry.workspace_path,
                    worker_host: entry.worker_host,
                    codex_app_server_pid: entry.codex_app_server_pid,
                    cleanup_workspace,
                },
            )
        },
        None => {
            state.claimed.remove(issue_id);
            None
        },
    }
}

/// Without one of its workers the state is sound.
proof fn lemma_ended_is_sound(state: StateView, id: Seq<char>, now: i128)
    requires
        state.sound(),
    ensures
        state.ended(id, now).sound(),
        !has_key(state.ended(id, now).running, id),
{
    let after = state.ended(id, now);
    lemma_without_in_order(state.running, id);
    lemma_without_lookup(state.running, id, id);
    assert forall|other: Seq<char>| #[trigger] has_key(after.running, other) implies {
        &&& has_key(after.claimed, other)
        &&& !has_key(after.retry_attempts, other)
        &&& entry_sound(other, lookup(after.running, other)->0)
    } by {
        lemma_without_lookup(state.running, id, other);
        assert(has_key(state.running, other));
    }
}

/// Stopping a worker keeps the state sound, and the task neither runs nor is claimed
/// afterwards.
pub proof fn law_termination_keeps_state_sound(state: StateView, id: Seq<char>, now: i128)
    requires
        state.sound(),
    ensures
        state.terminated(id, now).sound(),
        !has_key(state.terminated(id, now).running, id),
        !has_key(state.terminated(id, now).claimed, id),
{
    lemma_without_lookup(state.claimed, id, id);
    if has_key(state.running, id) {
        lemma_ended_is_sound(state, id, now);
        let middle = state.ended(id, now);
        let after = state.terminated(id, now);
        lemma_without_in_order(state.claimed, id);
        lemma_without_in_order(state.retry_attempts, id);
        assert forall|other: Seq<char>| #[trigger] has_key(after.running, other) implies {
            &&& has_key(after.claimed, other)
            &&& !has_key(after.retry_attempts, other)
            &&& entry_sound(other, lookup(after.running, other)->0)
        } by {
            lemma_without_lookup(state.claimed, id, other);
            lemma_without_lookup(state.retry_attempts, id, other);
            assert(has_key(middle.running, other));
        }
    } else {
        law_release_keeps_state_sound(state, id);
    }
}

/// The number of the next attempt.
pub open spec fn next_attempt(retry_attempt: u32) -> u32 {
    if retry_attempt > 0 {
        (retry_attempt + 1) as u32
    } else {
        1
    }
}

/// Whether the number of the next attempt on a task is within its range.
pub open spec fn attempt_fits(running: Seq<(Seq<char>, RunningView)>, id: Seq<char>) -> bool {
    has_key(running, id) ==> (lookup(running, id)->0).retry_attempt < u32::MAX
}

/// Whether the number of the next attempt on a task is within its range.
pub fn next_attempt_fits(state: &State, issue_id: &str) -> (r: bool)
    ensures
        r == attempt_fits(state@.running, issue_id@),
{
    match state.running.get(issue_id) {
        Some(entry) => entry.retry_attempt < u32::MAX,
        None => true,
    }
}

/// A task that goes on.
pub open spec fn continuation_request(
    id: Seq<char>,
    entry: RunningView,
    issue: IssueView,
) -> RetryRequestView {
    RetryRequestView {
        issue_id: id,
        attempt: 1,
        identifier: entry.identifier,
        tracked_issue: Some(issue),
        worker_host: entry.worker_host,
        workspace_location: Some(entry.workspace_location),
        error: None,
        error_stage: None,
        error_kind: None,
        continuation: true,
    }
}

/// A task whose worker has failed.
pub open spec fn failure_request(
    id: Seq<char>,
    entry: RunningView,
    error: WorkerErrorView,
) -> RetryRequestView {
    RetryRequestView {
        issue_id: id,
        attempt: next_attempt(entry.retry_attempt),
        identifier: entry.identifier,
        tracked_issue: Some(entry.issue),
        worker_host: entry.worker_host,
        workspace_location: Some(entry.workspace_location),
        error: Some(error.shown()),
        error_stage: Some(error.stage.name()),
        error_kind: Some(error.kind.name()),
        continuation: false,
    }
}

impl StateView {
    /// The state after a worker has ended, and the timer that is to be set.
    pub open spec fn exited(
        self,
        id: Seq<char>,
        result: Result<DispositionView, WorkerErrorView>,
        wall: i128,
        now: u64,
    ) -> (StateView, Option<TimerView>) {
        if !has_key(self.running, id) {
            (self, None)
        } else {
            let entry = lookup(self.running, id)->0;
            let base = self.ended(id, wall);
            match result {
                Ok(DispositionView::Continue { issue }) => {
                    let done = StateView { completed: put(base.completed, id, ()), ..base };
                    let request = continuation_request(id, entry, issue);
                    (done.retrying(request, now), Some(done.timer_for(request)))
                },
                Ok(DispositionView::Quiesced { .. }) => (
                    StateView {
                        claimed: without(base.claimed, id),
                        retry_attempts: without(base.retry_attempts, id),
                        ..base
                    },
                    None,
                ),
                Err(error) => {
                    let request = failure_request(id, entry, error);
                    (base.retrying(request, now), Some(base.timer_for(request)))
                },
            }
        }
    }
}

/// Takes in that a worker has ended: a task that is still active goes on, one whose
/// worker failed is tried again, and any other is left.
pub fn handle_worker_exit(
    state: &mut State,
    issue_id: &str,
    result: Result<WorkerDisposition, WorkerError>,
    wall: i128,
    now: u64,
) -> (r: Option<RetryTimer>)
    requires
        result is Err ==> attempt_fits(old(state)@.running, issue_id@),
    ensures
        final(state)@ == old(state)@.exited(issue_id@, worker_result(result), wall, now).0,
        opt_timer(r) == old(state)@.exited(issue_id@, worker_result(result), wall, now).1,
{
    let entry: RunningEntry = match take_running(state, issue_id, wall) {
        None => {
            return None;
        },
        Some(entry) => entry,
    };
    match result {
        Ok(WorkerDisposition::Continue { issue }) => {
            state.completed.insert(owned(issue_id), ());
            let timer: RetryTimer = schedule_retry(
                state,
                RetryRequest {
                    issue_id: owned(issue_id),
                    attempt: 1,
                    identifier: entry.identifier,
                    tracked_issue: Some(issue),
                    worker_host: entry.worker_host,
                    workspace_location: Some(entry.workspace_location),
                    error: None,
                    error_stage: None,
                    error_kind: None,
                    continuation: true,
                },
                now,
            );
            Some(timer)
        },
        Ok(WorkerDisposition::Quiesced { issue: _ }) => {
            state.claimed.remove(issue_id);
            state.retry_attempts.remove(issue_id);
            None
        },
        Err(error) => {
            let attempt: u32 = if entry.retry_attempt > 0 {
                entry.retry_attempt + 1
            } else {
                1
            };
            let timer: RetryTimer = schedule_retry(
                state,
                RetryRequest {
                    issue_id: owned(issue_id),
                    attempt,
                    identifier: entry.identifier,
                    tracked_issue: Some(entry.issue),
                    worker_host: entry.worker_host,
                    workspace_location: Some(entry.workspace_location),
                    error: Some(error.to_text()),
                    error_stage: Some(error.stage_name()),
                    error_kind: Some(error.kind_name()),
                    continuation: false,
                },
                now,
            );
            Some(timer)
        },
    }
}

/// The end of a worker keeps the state sound, and the task does not run afterwards.
pub proof fn law_exit_keeps_state_sound(
    state: StateView,
    id: Seq<char>,
    result: Result<DispositionView, WorkerErrorView>,
    wall: i128,
    now: u64,
)
    requires
        state.sound(),
    ensures
        state.exited(id, result, wall, now).0.sound(),
        !has_key(state.exited(id, result, wall, now).0.running, id),
{
    if has_key(state.running, id) {
        let entry = lookup(state.running, id)->0;
        let base = state.ended(id, wall);
        lemma_ended_is_sound(state, id, wall);
        match result {
            Ok(DispositionView::Continue { issue }) => {
                let done = StateView { completed: put(base.completed, id, ()), ..base };
                lemma_put_in_order(base.completed, id, ());
                assert(done.sound());
                law_retry_keeps_state_sound(done, continuation_request(id, entry, issue), now);
            },
            Ok(DispositionView::Quiesced { .. }) => {
                let after = state.exited(id, result, wall, now).0;
                lemma_without_in_order(base.claimed, id);
                lemma_without_in_order(base.retry_attempts, id);
                assert forall|other: Seq<char>| #[trigger] has_key(after.running, other) implies {
                    &&& has_key(after.claimed, other)
                    &&& !has_key(after.retry_attempts, other)
                    &&& entry_sound(other, lookup(after.running, other)->0)
                } by {
                    lemma_without_lookup(base.claimed, id, other);
                    lemma_without_lookup(base.retry_attempts, id, other);
                    assert(has_key(base.running, other));
                }
            },
            Err(error) => {
                law_retry_keeps_state_sound(base, failure_request(id, entry, error), now);
            },
        }
    }
}

/// A task whose worker has failed, or that goes on, stays claimed until it is taken up
/// again.
pub proof fn law_retried_tasks_stay_claimed(
    state: StateView,
    id: Seq<char>,
    result: Result<DispositionView, WorkerErrorView>,
    wall: i128,
    now: u64,
)
    requires
        state.sound(),
        has_key(state.running, id),
        !(result matches Ok(DispositionView::Quiesced { .. })),
    ensures
        has_key(state.exited(id, result, wall, now).0.claimed, id),
        has_key(state.exited(id, result, wall, now).0.retry_attempts, id),
{
    let entry = lookup(state.running, id)->0;
    let base = state.ended(id, wall);
    lemma_ended_is_sound(state, id, wall);
    match result {
        Ok(DispositionView::Continue { issue }) => {
            let done = StateView { completed: put(base.completed, id, ()), ..base };
            lemma_put_in_order(base.completed, id, ());
            law_retry_keeps_state_sound(done, continuation_request(id, entry, issue), now);
        },
        Err(error) => {
            law_retry_keeps_state_sound(base, failure_request(id, entry, error), now);
        },
        _ => {},
    }
}

// ---------------------------------------------------------------------------
// Stalls
// ---------------------------------------------------------------------------

/// When a worker was last heard of.
pub open spec fn last_activity(entry: RunningView) -> i128 {
    match entry.last_codex_timestamp {
        Some(at) => at,
        None => entry.started_at,
    }
}

/// Whether a worker has not been heard of for longer than `timeout_ms`.
pub open spec fn is_stalled(entry: RunningView, timeout_ms: i64, wall: i128) -> bool {
    millis_between(last_activity(entry) as int, wall as int) > timeout_ms
}

/// The tasks whose workers have stalled, in order.
pub open spec fn stalled_ids(
    running: Seq<(Seq<char>, RunningView)>,
    timeout_ms: i64,
    wall: i128,
) -> Seq<Seq<char>>
    decreases running.len(),
{
    if running.len() == 0 {
        Seq::empty()
    } else {
        let earlier = stalled_ids(running.drop_last(), timeout_ms, wall);
        if is_stalled(running.last().1, timeout_ms, wall) {
            earlier.push(running.last().0)
        } else {
            earlier
        }
    }
}

/// A worker that has stalled: it is stopped, and its task is tried again.
#[derive(Debug)]
pub struct StalledRun {
    pub stopped: Option<StoppedRun>,
    pub timer: RetryTimer,
}

/// A worker that has stalled.
pub struct StalledView {
    pub stopped: Option<StoppedView>,
    pub timer: TimerView,
}

impl View for StalledRun {
    type V = StalledView;

    open spec fn view(&self) -> StalledView {
        StalledView { stopped: opt_stopped(self.stopped), timer: self.timer@ }
    }
}

/// A task whose worker has stalled.
pub open spec fn stall_request(id: Seq<char>, entry: RunningView, wall: i128) -> RetryRequestView {
    RetryRequestView {
        issue_id: id,
        attempt: next_attempt(entry.retry_attempt),
        identifier: entry.identifier,
        tracked_issue: Some(entry.issue),
        worker_host: entry.worker_host,
        workspace_location: Some(entry.workspace_location),
        error: Some(
            "stalled for "@ + signed_decimal(
                millis_between(last_activity(entry) as int, wall as int),
            ) + "ms without codex activity"@,
        ),
        error_stage: None,
        error_kind: None,
        continuation: false,
    }
}

impl StateView {
    /// The state after the worker on one task was found stalled.
    pub open spec fn stalled(self, id: Seq<char>, wall: i128, now: u64) -> StateView {
        if has_key(self.running, id) {
            let entry = lookup(self.running, id)->0;
            self.terminated(id, wall).retrying(stall_request(id, entry, wall), now)
        } else {
            self
        }
    }

    /// The state after the workers on some tasks were found stalled, and what is done
    /// about them.
    pub open spec fn all_stalled(self, ids: Seq<Seq<char>>, wall: i128, now: u64) -> (
        StateView,
        Seq<StalledView>,
    )
        decreases ids.len(),
    {
        if ids.len() == 0 {
            (self, Seq::empty())
        } else {
            let (state, done) = self.all_stalled(ids.drop_last(), wall, now);
            let id = ids.last();
            if has_key(state.running, id) {
                let entry = lookup(state.running, id)->0;
                (
                    state.stalled(id, wall, now),
                    done.push(
                        StalledView {
                            stopped: state.stopped(id, false),
                            timer: state.terminated(id, wall).timer_for(
                                stall_request(id, entry, wall),
                            ),
                        },
                    ),
                )
            } else {
                (state, done)
            }
        }
    }
}

/// Whether the number of the next attempt on every task is within its range.
pub open spec fn attempts_fit(running: Seq<(Seq<char>, RunningView)>) -> bool {
    forall|i: int| 0 <= i < running.len() ==> (#[trigger] running[i]).1.retry_attempt < u32::MAX
}

/// Whether the number of the next attempt on every task is within its range.
pub fn next_attempts_fit(state: &State) -> (r: bool)
    ensures
        r == attempts_fit(state@.running),
{
    let entries: &Vec<(String, RunningEntry)> = &state.running.entries;
    let ghost all = state.running@;
    let mut i: usize = 0;
    while i < entries.len()
        invariant
            i <= entries.len(),
            entries == &state.running.entries,
            all == state.running@,
            forall|j: int| 0 <= j < i ==> (#[trigger] all[j]).1.retry_attempt < u32::MAX,
        decreases entries.len() - i,
    {
        proof {
            assert(all[i as int].1 == entries@[i as int].1@);
        }
        if entries[i].1.retry_attempt == u32::MAX {
            return false;
        }
        i = i + 1;
    }
    true
}

proof fn lemma_attempts_fit(running: Seq<(Seq<char>, RunningView)>, id: Seq<char>)
    requires
        attempts_fit(running),
    ensures
        attempts_fit(without(running, id)),
        attempt_fits(running, id),
{
    crate::table::lemma_key_index(keys(running), id);
    let n = crate::table::key_index(keys(running), id) as int;
    let after = without(running, id);
    assert forall|i: int| 0 <= i < after.len() implies (#[trigger] after[i]).1.retry_attempt
        < u32::MAX by {
        if n < running.len() && i >= n {
            assert(after[i] == running[i + 1]);
        } else {
            assert(after[i] == running[i]);
        }
    }
}

fn collect_stalled(state: &State, stall_timeout_ms: i64, wall: i128) -> (out: Vec<String>)
    ensures
        texts(out@) == stalled_ids(state@.running, stall_timeout_ms, wall),
{
    let entries: &Vec<(String, RunningEntry)> = &state.running.entries;
    let ghost all = state.running@;
    let mut out: Vec<String> = Vec::new();
    let mut i: usize = 0;
    proof {
        assert(texts(out@) =~= Seq::empty());
    }
    while i < entries.len()
        invariant
            i <= entries.len(),
            entries == &state.running.entries,
            all == state.running@,
            texts(out@) == stalled_ids(all.take(i as int), stall_timeout_ms, wall),
        decreases entries.len() - i,
    {
        proof {
            assert(all.take(i + 1).drop_last() =~= all.take(i as int));
            assert(all.take(i + 1).last() == all[i as int]);
        }
        let since: i128 = match entries[i].1.last_codex_timestamp {
            Some(at) => at,
            None => entries[i].1.started_at,
        };
        if elapsed_millis(since, wall) > stall_timeout_ms {
            let ghost had = texts(out@);
            out.push(entries[i].0.clone());
            proof {
                assert(texts(out@) =~= had.push(entries@[i as int].0@));
            }
        }
        i = i + 1;
    }
    proof {
        assert(all.take(i as int) =~= all);
    }
    out
}

/// Stops the workers that have not been heard of for longer than `stall_timeout_ms`, and
/// lets their tasks be tried again. A timeout of zero or less is none.
pub fn reconcile_stalled_runs(state: &mut State, stall_timeout_ms: i64, wall: i128, now: u64) -> (r:
    Vec<StalledRun>)
    requires
        attempts_fit(old(state)@.running),
    ensures
        (final(state)@, views_of(r@)) == if stall_timeout_ms <= 0 {
            (old(state)@, Seq::<StalledView>::empty())
        } else {
            old(state)@.all_stalled(
                stalled_ids(old(state)@.running, stall_timeout_ms, wall),
                wall,
                now,
            )
        },
{
    let ghost was = state@;
    let mut out: Vec<StalledRun> = Vec::new();
    proof {
        assert(views_of(out@) =~= Seq::<StalledView>::empty());
    }
    if stall_timeout_ms <= 0 {
        return out;
    }
    let ids: Vec<String> = collect_stalled(state, stall_timeout_ms, wall);
    let ghost all = texts(ids@);
    let mut i: usize = 0;
    while i < ids.len()
        invariant
            i <= ids.len(),
            all == texts(ids@),
            attempts_fit(state@.running),
            (state@, views_of(out@)) == was.all_stalled(all.take(i as int), wall, now),
        decreases ids.len() - i,
    {
        let ghost before_step = state@;
        let ghost had = views_of(out@);
        let ghost id = ids@[i as int]@;
        proof {
            assert(all.take(i + 1).drop_last() =~= all.take(i as int));
            assert(all.take(i + 1).last() == id);
            lemma_attempts_fit(state@.running, id);
        }
        let request: Option<RetryRequest> = match state.running.get(ids[i].as_str()) {
            None => None,
            Some(entry) => {
                let since: i128 = match entry.last_codex_timestamp {
                    Some(at) => at,
                    None => entry.started_at,
                };
                let elapsed: String = signed_text(elapsed_millis(since, wall));
                let attempt: u32 = if entry.retry_attempt > 0 {
                    entry.retry_attempt + 1
                } else {
                    1
                };
                Some(
                    RetryRequest {
                        issue_id: ids[i].clone(),
                        attempt,
                        identifier: entry.identifier.clone(),
                        tracked_issue: Some(entry.issue.copy()),
                        worker_host: clone_opt(&entry.worker_host),
                        workspace_location: Some(entry.workspace_location.clone()),
                        error: Some(
                            concat3("stalled for ", elapsed.as_str(), "ms without codex activity"),
                        ),
                        error_stage: None,
                        error_kind: None,
                        continuation: false,
                    },
                )
            },
        };
        match request {
            None => {},
            Some(request) => {
                let stopped: Option<StoppedRun> = terminate_running_issue(
                    state,
                    ids[i].as_str(),
                    false,
                    wall,
                );
                let timer: RetryTimer = schedule_retry(state, request, now);
                let run: StalledRun = StalledRun { stopped, timer };
                let ghost shown = run@;
                out.push(run);
                proof {
                    assert(views_of(out@) =~= had.push(shown));
                }
            },
        }
        i = i + 1;
    }
    proof {
        assert(all.take(i as int) =~= all);
    }
    out
}

/// Finding workers stalled keeps the state sound.
pub proof fn law_stalls_keep_state_sound(
    state: StateView,
    ids: Seq<Seq<char>>,
    wall: i128,
    now: u64,
)
    requires
        state.sound(),
    ensures
        state.all_stalled(ids, wall, now).0.sound(),
        forall|i: int|
            0 <= i < ids.len() ==> !has_key(
                state.all_stalled(ids, wall, now).0.running,
                #[trigger] ids[i],
            ),
    decreases ids.len(),
{
    if ids.len() > 0 {
        let rest = ids.drop_last();
        law_stalls_keep_state_sound(state, rest, wall, now);
        let middle = state.all_stalled(rest, wall, now).0;
        let after = state.all_stalled(ids, wall, now).0;
        let id = ids.last();
        if has_key(middle.running, id) {
            law_termination_keeps_state_sound(middle, id, wall);
            law_retry_keeps_state_sound(
                middle.terminated(id, wall),
                stall_request(id, lookup(middle.running, id)->0, wall),
                now,
            );
        }
        assert forall|i: int| 0 <= i < ids.len() implies !has_key(
            after.running,
            #[trigger] ids[i],
        ) by {
            if i < rest.len() {
                assert(rest[i] == ids[i]);
                if has_key(middle.running, id) {
                    lemma_without_lookup(middle.running, id, ids[i]);
                }
            } else {
                assert(ids[i] == id);
            }
        }
    }
}

// ---------------------------------------------------------------------------
// Reconciliation with the tracker
// ---------------------------------------------------------------------------

/// Whether a task is among some.
pub open spec fn returned(issues: Seq<IssueView>, id: Seq<char>) -> bool
    decreases issues.len(),
{
    if issues.len() == 0 {
        false
    } else {
        returned(issues.drop_last(), id) || issues.last().id == id
    }
}

/// The tasks that the tracker does not return, in order.
pub open spec fn missing_ids(ids: Seq<Seq<char>>, issues: Seq<IssueView>) -> Seq<Seq<char>>
    decreases ids.len(),
{
    if ids.len() == 0 {
        Seq::empty()
    } else {
        let earlier = missing_ids(ids.drop_last(), issues);
        if returned(issues, ids.last()) {
            earlier
        } else {
            earlier.push(ids.last())
        }
    }
}

fn is_returned(issues: &Vec<Issue>, id: &str) -> (r: bool)
    ensures
        r == returned(views_of(issues@), id@),
{
    let ghost all = views_of(issues@);
    let mut found: bool = false;
    let mut i: usize = 0;
    while i < issues.len()
        invariant
            i <= issues.len(),
            all == views_of(issues@),
            found == returned(all.take(i as int), id@),
        decreases issues.len() - i,
    {
        proof {
            assert(all.take(i + 1).drop_last() =~= all.take(i as int));
            assert(all.take(i + 1).last() == issues@[i as int]@);
        }
        if same(issues[i].id.as_str(), id) {
            found = true;
        }
        i = i + 1;
    }
    proof {
        assert(all.take(i as int) =~= all);
    }
    found
}

/// The identifiers of the tasks that run, in order.
pub fn running_ids(state: &State) -> (out: Vec<String>)
    ensures
        texts(out@) == keys(state@.running),
{
    let entries: &Vec<(String, RunningEntry)> = &state.running.entries;
    let mut out: Vec<String> = Vec::new();
    let mut i: usize = 0;
    while i < entries.len()
        invariant
            i <= entries.len(),
            entries == &state.running.entries,
            out.len() == i,
            forall|j: int| 0 <= j < i ==> (#[trigger] out@[j])@ == entries@[j].0@,
        decreases entries.len() - i,
    {
        out.push(entries[i].0.clone());
        i = i + 1;
    }
    proof {
        assert(texts(out@) =~= keys(state@.running));
    }
    out
}

/// The comparison of the tasks that run with what the tracker returns of them: first the
/// tasks that it does not return, then those that it does.
#[derive(Debug)]
pub struct Reconciliation {
    pub missing: Vec<String>,
    pub issues: Vec<Issue>,
    pub at: u128,
    pub pending: Option<Issue>,
}

/// The comparison of the tasks that run with what the tracker returns of them.
pub struct ReconcileView {
    pub missing: Seq<Seq<char>>,
    pub issues: Seq<IssueView>,
    pub at: nat,
    pub pending: Option<IssueView>,
}

impl View for Reconciliation {
    type V = ReconcileView;

    open spec fn view(&self) -> ReconcileView {
        ReconcileView {
            missing: texts(self.missing@),
            issues: views_of(self.issues@),
            at: self.at as nat,
            pending: opt_issue(self.pending),
        }
    }
}

/// What a step of the comparison asks for.
#[derive(Debug)]
pub enum ReconcileAction {
    /// Ask the tracker to make the task active again, and hand the answer to the next
    /// step.
    Restore(Issue),
    /// Stop this worker.
    Stop(StoppedRun),
    /// Go on.
    Next,
    /// There is nothing left.
    Done,
}

/// What a step of the comparison asks for.
pub enum ActionView {
    Restore(IssueView),
    Stop(StoppedView),
    Next,
    Done,
}

impl View for ReconcileAction {
    type V = ActionView;

    open spec fn view(&self) -> ActionView {
        match self {
            ReconcileAction::Restore(issue) => ActionView::Restore(issue@),
            ReconcileAction::Stop(stopped) => ActionView::Stop(stopped@),
            ReconcileAction::Next => ActionView::Next,
            ReconcileAction::Done => ActionView::Done,
        }
    }
}

/// Whether a worker's task may not have left the active states: the worker has not been
/// seen to close it, and it is not on its way to being closed.
pub open spec fn must_stay(running: Seq<(Seq<char>, RunningView)>, id: Seq<char>) -> bool {
    let entry = lookup(running, id)->0;
    &&& has_key(running, id)
    &&& !entry.terminal_transition_permitted
    &&& state_name(entry.issue.state) != "merging"@
}

impl ReconcileView {
    /// The task that is looked at.
    pub open spec fn subject(self) -> Seq<char> {
        if self.at < self.missing.len() {
            self.missing[self.at as int]
        } else {
            self.issues[self.at - self.missing.len()].id
        }
    }

    /// The comparison with the next task.
    pub open spec fn next(self) -> ReconcileView {
        ReconcileView { at: self.at + 1, pending: None, ..self }
    }

    /// Whether nothing is left.
    pub open spec fn is_done(self) -> bool {
        self.at >= self.missing.len() + self.issues.len()
    }

    /// The worker on the task is stopped.
    pub open spec fn stopping(self, state: StateView, cleanup: bool, wall: i128) -> (
        ReconcileView,
        StateView,
        ActionView,
    ) {
        let id = self.subject();
        (
            self.next(),
            state.terminated(id, wall),
            match state.stopped(id, cleanup) {
                Some(stopped) => ActionView::Stop(stopped),
                None => ActionView::Next,
            },
        )
    }

    /// The task is made active again.
    pub open spec fn restoring(self, state: StateView) -> (ReconcileView, StateView, ActionView) {
        let issue = (lookup(state.running, self.subject())->0).issue;
        (ReconcileView { pending: Some(issue), ..self }, state, ActionView::Restore(issue))
    }

    /// One step of the comparison. `restored` is the answer to the restoration that the
    /// step before has asked for.
    pub open spec fn step(
        self,
        state: StateView,
        active_states: Seq<Seq<char>>,
        terminal_states: Seq<Seq<char>>,
        restored: bool,
        wall: i128,
    ) -> (ReconcileView, StateView, ActionView) {
        let id = self.subject();
        if self.is_done() {
            (self, state, ActionView::Done)
        } else {
            match self.pending {
                Some(previous) => if restored {
                    (
                        self.next(),
                        StateView {
                            running: changed(
                                state.running,
                                id,
                                RunningView {
                                    issue: previous,
                                    terminal_transition_permitted: false,
                                    ..(lookup(state.running, id)->0)
                                },
                            ),
                            ..state
                        },
                        ActionView::Next,
                    )
                } else {
                    self.stopping(state, true, wall)
                },
                None => if self.at < self.missing.len() {
                    if must_stay(state.running, id) {
                        self.restoring(state)
                    } else {
                        self.stopping(state, true, wall)
                    }
                } else {
                    let issue = self.issues[self.at - self.missing.len()];
                    let key = state_name(issue.state);
                    if terminal_states.contains(key) {
                        if must_stay(state.running, id) {
                            self.restoring(state)
                        } else {
                            self.stopping(state, true, wall)
                        }
                    } else if !issue.assigned_to_worker {
                        self.stopping(state, false, wall)
                    } else if active_states.contains(key) {
                        (
                            self.next(),
                            StateView {
                                running: changed(
                                    state.running,
                                    id,
                                    RunningView { issue, ..(lookup(state.running, id)->0) },
                                ),
                                ..state
                            },
                            ActionView::Next,
                        )
                    } else {
                        self.stopping(state, false, wall)
                    }
                },
            }
        }
    }

    /// What holds of the comparison at any time: a restoration is asked for the task that
    /// is looked at.
    pub open spec fn sound(self) -> bool {
        self.pending matches Some(issue) ==> !self.is_done() && issue.id == self.subject()
    }
}

impl Reconciliation {
    /// Compares these tasks with what the tracker returned of them.
    pub fn begin(running_ids: &Vec<String>, issues: Vec<Issue>) -> (r: Reconciliation)
        ensures
            r@ == (ReconcileView {
                missing: missing_ids(texts(running_ids@), views_of(issues@)),
                issues: views_of(issues@),
                at: 0,
                pending: None,
            }),
    {
        let ghost all = texts(running_ids@);
        let ghost given = views_of(issues@);
        let mut missing: Vec<String> = Vec::new();
        let mut i: usize = 0;
        proof {
            assert(texts(missing@) =~= Seq::empty());
        }
        while i < running_ids.len()
            invariant
                i <= running_ids.len(),
                all == texts(running_ids@),
                given == views_of(issues@),
                texts(missing@) == missing_ids(all.take(i as int), given),
            decreases running_ids.len() - i,
        {
            proof {
                assert(all.take(i + 1).drop_last() =~= all.take(i as int));
                assert(all.take(i + 1).last() == running_ids@[i as int]@);
            }
            if !is_returned(&issues, running_ids[i].as_str()) {
                let ghost had = texts(missing@);
                missing.push(running_ids[i].clone());
                proof {
                    assert(texts(missing@) =~= had.push(running_ids@[i as int]@));
                }
            }
            i = i + 1;
        }
        proof {
            assert(all.take(i as int) =~= all);
        }
        Reconciliation { missing, issues, at: 0, pending: None }
    }

    fn restore(&mut self, issue: Issue) -> (r: ReconcileAction)
        ensures
            final(self)@ == (ReconcileView { pending: Some(issue@), ..old(self)@ }),
            r@ == ActionView::Restore(issue@),
    {
        let asked: Issue = issue.copy();
        self.pending = Some(issue);
        ReconcileAction::Restore(asked)
    }

    fn stop(&mut self, state: &mut State, id: String, cleanup: bool, wall: i128) -> (r:
        ReconcileAction)
        requires
            old(self)@.at < u128::MAX,
            id@ == old(self)@.subject(),
        ensures
            (final(self)@, final(state)@, r@) == old(self)@.stopping(old(state)@, cleanup, wall),
    {
        self.at = self.at + 1;
        self.pending = None;
        match terminate_running_issue(state, id.as_str(), cleanup, wall) {
            Some(stopped) => ReconcileAction::Stop(stopped),
            None => ReconcileAction::Next,
        }
    }

    /// One step of the comparison. `restored` is the answer to the restoration that the
    /// step before has asked for; where it asked for none, it is not looked at.
    pub fn step(
        &mut self,
        state: &mut State,
        active_states: &Vec<String>,
        terminal_states: &Vec<String>,
        restored: bool,
        wall: i128,
    ) -> (r: ReconcileAction)
        ensures
            (final(self)@, final(state)@, r@) == old(self)@.step(
                old(state)@,
                texts(active_states@),
                texts(terminal_states@),
                restored,
                wall,
            ),
    {
        let missing: u128 = self.missing.len() as u128;
        if self.at >= missing && self.at - missing >= self.issues.len() as u128 {
            return ReconcileAction::Done;
        }
        let id: String = if self.at < missing {
            self.missing[self.at as usize].clone()
        } else {
            self.issues[(self.at - missing) as usize].id.clone()
        };
        let ghost was = state@;
        let ghost mine = self@;
        proof {
            assert(id@ == mine.subject());
        }
        let pending: Option<Issue> = self.pending.take();
        match pending {
            Some(previous) => {
                if restored {
                    self.at = self.at + 1;
                    proof {
                        crate::table::lemma_changed_nothing(
                            was.running,
                            id@,
                            RunningView {
                                issue: previous@,
                                terminal_transition_permitted: false,
                                ..(lookup(was.running, id@)->0)
                            },
                        );
                    }
                    match state.running.get_mut(id.as_str()) {
                        Some(entry) => {
                            entry.issue = previous;
                            entry.terminal_transition_permitted = false;
                        },
                        None => {},
                    }
                    ReconcileAction::Next
                } else {
                    self.stop(state, id, true, wall)
                }
            },
            None => {
                let stays: Option<Issue> = match state.running.get(id.as_str()) {
                    Some(entry) => if entry.terminal_transition_permitted
                        || guarded_close_transition_may_be_in_flight(&entry.issue) {
                        None
                    } else {
                        Some(entry.issue.copy())
                    },
                    None => None,
                };
                if self.at < missing {
                    match stays {
                        Some(issue) => self.restore(issue),
                        None => self.stop(state, id, true, wall),
                    }
                } else {
                    let k: usize = (self.at - missing) as usize;
                    let key: String = self.issues[k].state_key();
                    if is_among(terminal_states, key.as_str()) {
                        match stays {
                            Some(issue) => self.restore(issue),
                            None => self.stop(state, id, true, wall),
                        }
                    } else if !self.issues[k].assigned_to_worker {
                        self.stop(state, id, false, wall)
                    } else if is_among(active_states, key.as_str()) {
                        let issue: Issue = self.issues[k].copy();
                        self.at = self.at + 1;
                        proof {
                            crate::table::lemma_changed_nothing(
                                was.running,
                                id@,
                                RunningView { issue: issue@, ..(lookup(was.running, id@)->0) },
                            );
                        }
                        match state.running.get_mut(id.as_str()) {
                            Some(entry) => {
                                entry.issue = issue;
                            },
                            None => {},
                        }
                        ReconcileAction::Next
                    } else {
                        self.stop(state, id, false, wall)
                    }
                }
            },
        }
    }
}

/// Changing an entry without changing what makes it sound keeps the state sound.
proof fn lemma_changed_is_sound(state: StateView, id: Seq<char>, entry: RunningView)
    requires
        state.sound(),
        has_key(state.running, id) ==> entry_sound(id, entry),
    ensures
        (StateView { running: changed(state.running, id, entry), ..state }).sound(),
{
    let after = StateView { running: changed(state.running, id, entry), ..state };
    lemma_changed_keys(state.running, id, entry);
    assert forall|other: Seq<char>| #[trigger] has_key(after.running, other) implies {
        &&& has_key(after.claimed, other)
        &&& !has_key(after.retry_attempts, other)
        &&& entry_sound(other, lookup(after.running, other)->0)
    } by {
        lemma_changed_lookup(state.running, id, entry, other);
        assert(has_key(state.running, other));
    }
}

/// Each step of the comparison keeps the state sound.
pub proof fn law_reconciliation_keeps_state_sound(
    comparison: ReconcileView,
    state: StateView,
    active_states: Seq<Seq<char>>,
    terminal_states: Seq<Seq<char>>,
    restored: bool,
    wall: i128,
)
    requires
        comparison.sound(),
        state.sound(),
    ensures
        comparison.step(state, active_states, terminal_states, restored, wall).0.sound(),
        comparison.step(state, active_states, terminal_states, restored, wall).1.sound(),
{
    let id = comparison.subject();
    if !comparison.is_done() {
        law_termination_keeps_state_sound(state, id, wall);
        let entry = lookup(state.running, id)->0;
        match comparison.pending {
            Some(previous) => {
                lemma_changed_is_sound(
                    state,
                    id,
                    RunningView { issue: previous, terminal_transition_permitted: false, ..entry },
                );
            },
            None => {
                if comparison.at >= comparison.missing.len() {
                    let issue = comparison.issues[comparison.at - comparison.missing.len()];
                    lemma_changed_is_sound(state, id, RunningView { issue, ..entry });
                }
            },
        }
    }
}

/// A workspace is removed only where its task has left the active states for good: it
/// was not returned or is terminal, and either its worker was seen to close it, or it is
/// on its way to being closed, or it could not be restored.
pub proof fn law_workspaces_outlive_unexpected_ends(
    comparison: ReconcileView,
    state: StateView,
    active_states: Seq<Seq<char>>,
    terminal_states: Seq<Seq<char>>,
    restored: bool,
    wall: i128,
)
    ensures
        comparison.step(state, active_states, terminal_states, restored, wall).2 matches
            ActionView::Stop(stopped) && stopped.cleanup_workspace ==> {
            &&& comparison.pending is Some ==> !restored
            &&& comparison.pending is None ==> !must_stay(state.running, comparison.subject())
            &&& comparison.pending is None && comparison.at >= comparison.missing.len()
                ==> terminal_states.contains(
                state_name(comparison.issues[comparison.at - comparison.missing.len()].state),
            )
        },
{
}

/// The comparison comes to its end: each step looks at the next task, or asks for a
/// restoration, after which the next step does.
pub proof fn law_reconciliation_moves_on(
    comparison: ReconcileView,
    state: StateView,
    active_states: Seq<Seq<char>>,
    terminal_states: Seq<Seq<char>>,
    restored: bool,
    wall: i128,
)
    ensures
        comparison.step(state, active_states, terminal_states, restored, wall).2 is Done
            <==> comparison.is_done(),
        !comparison.is_done() ==> {
            let next = comparison.step(state, active_states, terminal_states, restored, wall).0;
            next.at == comparison.at + 1 && next.pending is None || comparison.pending is None
                && next.at == comparison.at && next.pending is Some
        },
{
}

// ---------------------------------------------------------------------------
// Taking up again
// ---------------------------------------------------------------------------

/// Takes the entry of a task that is due out.
pub fn take_retry(state: &mut State, issue_id: &str) -> (r: Option<RetryEntry>)
    ensures
        final(state)@ == (StateView {
            retry_attempts: without(old(state)@.retry_attempts, issue_id@),
            ..old(state)@
        }),
        r is Some <==> has_key(old(state)@.retry_attempts, issue_id@),
        r is Some ==> lookup(old(state)@.retry_attempts, issue_id@) == Some(r->0@),
{
    state.retry_attempts.remove(issue_id)
}

/// The first task with an identifier.
pub open spec fn first_with_id(issues: Seq<IssueView>, id: Seq<char>) -> Option<IssueView>
    decreases issues.len(),
{
    if issues.len() == 0 {
        None
    } else if issues[0].id == id {
        Some(issues[0])
    } else {
        first_with_id(issues.skip(1), id)
    }
}

/// The first task with an identifier.
pub fn find_issue(issues: Vec<Issue>, issue_id: &str) -> (r: Option<Issue>)
    ensures
        opt_issue(r) == first_with_id(views_of(issues@), issue_id@),
{
    let ghost all = views_of(issues@);
    let ghost given = issues@;
    proof {
        assert(all.skip(0) =~= all);
    }
    for issue in it: issues
        invariant
            it.seq() == given,
            all == views_of(given),
            first_with_id(all, issue_id@) == first_with_id(all.skip(it.index()), issue_id@),
    {
        proof {
            let i = it.index();
            assert(all.skip(i)[0] == issue@);
            assert(all.skip(i).skip(1) =~= all.skip(i + 1));
        }
        if same(issue.id.as_str(), issue_id) {
            return Some(issue);
        }
    }
    None
}

/// The hosts on which the workspace of a finished task is removed; none is the machine
/// itself.
pub open spec fn cleanup_hosts(
    worker_host: Option<Seq<char>>,
    remote: bool,
    ssh_hosts: Seq<Seq<char>>,
) -> Seq<Option<Seq<char>>> {
    match worker_host {
        Some(host) => seq![Some(host)],
        None => if remote {
            Seq::new(ssh_hosts.len(), |i: int| Some(ssh_hosts[i]))
        } else {
            seq![None]
        },
    }
}

fn list_hosts(ssh_hosts: &Vec<String>) -> (out: Vec<Option<String>>)
    ensures
        opt_texts(out@) == Seq::new(
            texts(ssh_hosts@).len(),
            |i: int| Some(texts(ssh_hosts@)[i]),
        ),
{
    let mut out: Vec<Option<String>> = Vec::new();
    let mut i: usize = 0;
    while i < ssh_hosts.len()
        invariant
            i <= ssh_hosts.len(),
            out.len() == i,
            forall|j: int| 0 <= j < i ==> opt_text(#[trigger] out@[j]) == Some(ssh_hosts@[j]@),
        decreases ssh_hosts.len() - i,
    {
        out.push(Some(ssh_hosts[i].clone()));
        i = i + 1;
    }
    proof {
        assert(opt_texts(out@) =~= Seq::new(
            texts(ssh_hosts@).len(),
            |i: int| Some(texts(ssh_hosts@)[i]),
        ));
    }
    out
}

/// The hosts on which the workspace of a finished task is removed: the one that it was
/// on, or, where that is not known, every host.
pub fn cleanup_issue_workspace_hosts(
    worker_host: &Option<String>,
    remote_workers_configured: bool,
    ssh_hosts: &Vec<String>,
) -> (r: Vec<Option<String>>)
    ensures
        opt_texts(r@) == cleanup_hosts(
            opt_text(*worker_host),
            remote_workers_configured,
            texts(ssh_hosts@),
        ),
{
    match worker_host {
        Some(host) => {
            let out: Vec<Option<String>> = vec![Some(host.clone())];
            proof {
                assert(opt_texts(out@) =~= seq![Some(host@)]);
            }
            out
        },
        None => {
            if remote_workers_configured {
                list_hosts(ssh_hosts)
            } else {
                let out: Vec<Option<String>> = vec![None];
                proof {
                    assert(opt_texts(out@) =~= seq![None]);
                }
                out
            }
        },
    }
}

/// The hosts whose workspaces are swept at the start.
pub fn startup_cleanup_hosts(ssh_hosts: &Vec<String>) -> (r: Vec<Option<String>>)
    ensures
        opt_texts(r@) == cleanup_hosts(None, ssh_hosts@.len() > 0, texts(ssh_hosts@)),
{
    cleanup_issue_workspace_hosts(&None, ssh_hosts.len() > 0, ssh_hosts)
}

/// What comes of a task that is due.
#[derive(Debug)]
pub enum RetryStep {
    /// It is left.
    Released,
    /// It is finished: its workspace is removed on these hosts.
    Cleanup { issue: Issue, hosts: Vec<Option<String>> },
    /// It is dispatched.
    Dispatch { issue: Issue, attempt: u32, preferred_worker_host: Option<String> },
    /// It is tried again later.
    Requeued(RetryTimer),
}

/// What comes of a task that is due.
pub enum RetryStepView {
    Released,
    Cleanup { issue: IssueView, hosts: Seq<Option<Seq<char>>> },
    Dispatch { issue: IssueView, attempt: u32, preferred_worker_host: Option<Seq<char>> },
    Requeued(TimerView),
}

impl View for RetryStep {
    type V = RetryStepView;

    open spec fn view(&self) -> RetryStepView {
        match self {
            RetryStep::Released => RetryStepView::Released,
            RetryStep::Cleanup { issue, hosts } => RetryStepView::Cleanup {
                issue: issue@,
                hosts: opt_texts(hosts@),
            },
            RetryStep::Dispatch { issue, attempt, preferred_worker_host } => RetryStepView::Dispatch {
                issue: issue@,
                attempt: *attempt,
                preferred_worker_host: opt_text(*preferred_worker_host),
            },
            RetryStep::Requeued(timer) => RetryStepView::Requeued(timer@),
        }
    }
}

/// A task for which there is no slot yet.
pub open spec fn no_slot_request(issue: IssueView, entry: RetryView) -> RetryRequestView {
    RetryRequestView {
        issue_id: issue.id,
        attempt: (entry.attempt + 1) as u32,
        identifier: issue.identifier,
        tracked_issue: Some(issue),
        worker_host: entry.worker_host,
        workspace_location: entry.workspace_location,
        error: Some("no available orchestrator slots"@),
        error_stage: entry.error_stage,
        error_kind: entry.error_kind,
        continuation: false,
    }
}

/// A task of which the tracker could not be asked.
pub open spec fn poll_failed_request(
    id: Seq<char>,
    entry: RetryView,
    reason: Seq<char>,
) -> RetryRequestView {
    RetryRequestView {
        issue_id: id,
        attempt: (entry.attempt + 1) as u32,
        identifier: entry.identifier,
        tracked_issue: entry.tracked_issue,
        worker_host: entry.worker_host,
        workspace_location: entry.workspace_location,
        error: Some("retry poll failed: "@ + reason),
        error_stage: entry.error_stage,
        error_kind: entry.error_kind,
        continuation: false,
    }
}

/// What the tracker said of one task.
pub open spec fn polled_view(polled: Result<Option<Issue>, String>) -> Result<
    Option<IssueView>,
    Seq<char>,
> {
    match polled {
        Ok(issue) => Ok(opt_issue(issue)),
        Err(reason) => Err(reason@),
    }
}

impl StateView {
    /// What comes of a task that is due, once the tracker has been asked for it; `limit`
    /// workers may run on tasks in its state.
    pub open spec fn retry_step(
        self,
        id: Seq<char>,
        entry: RetryView,
        polled: Result<Option<IssueView>, Seq<char>>,
        limit: usize,
        active_states: Seq<Seq<char>>,
        terminal_states: Seq<Seq<char>>,
        ssh_hosts: Seq<Seq<char>>,
        now: u64,
    ) -> (StateView, RetryStepView) {
        match polled {
            Err(reason) => {
                let request = poll_failed_request(id, entry, reason);
                (self.retrying(request, now), RetryStepView::Requeued(self.timer_for(request)))
            },
            Ok(None) => (self.released(id), RetryStepView::Released),
            Ok(Some(issue)) => if terminal_states.contains(state_name(issue.state)) {
                (
                    self.released(id),
                    RetryStepView::Cleanup {
                        issue,
                        hosts: cleanup_hosts(
                            entry.worker_host,
                            self.ssh_hosts.len() > 0,
                            ssh_hosts,
                        ),
                    },
                )
            } else if !is_retry_candidate(issue, active_states, terminal_states) {
                (self.released(id), RetryStepView::Released)
            } else if self.available() > 0 && in_state(self.running, state_name(issue.state))
                < limit && self.selection(entry.worker_host) !is NoCapacity {
                (
                    self,
                    RetryStepView::Dispatch {
                        issue,
                        attempt: entry.attempt,
                        preferred_worker_host: entry.worker_host,
                    },
                )
            } else {
                let request = no_slot_request(issue, entry);
                (self.retrying(request, now), RetryStepView::Requeued(self.timer_for(request)))
            },
        }
    }
}

/// What comes of a task that is due, once the tracker has been asked for it.
pub fn handle_retry_issue(
    state: &mut State,
    issue_id: &str,
    entry: RetryEntry,
    polled: Result<Option<Issue>, String>,
    limit: usize,
    active_states: &Vec<String>,
    terminal_states: &Vec<String>,
    ssh_hosts: &Vec<String>,
    now: u64,
) -> (r: RetryStep)
    requires
        entry@.attempt < u32::MAX,
    ensures
        (final(state)@, r@) == old(state)@.retry_step(
            issue_id@,
            entry@,
            polled_view(polled),
            limit,
            texts(active_states@),
            texts(terminal_states@),
            texts(ssh_hosts@),
            now,
        ),
{
    let issue: Issue = match polled {
        Err(reason) => {
            let timer: RetryTimer = schedule_retry(
                state,
                RetryRequest {
                    issue_id: owned(issue_id),
                    attempt: entry.attempt + 1,
                    identifier: entry.identifier,
                    tracked_issue: entry.tracked_issue,
                    worker_host: entry.worker_host,
                    workspace_location: entry.workspace_location,
                    error: Some(crate::text::concat("retry poll failed: ", reason.as_str())),
                    error_stage: entry.error_stage,
                    error_kind: entry.error_kind,
                    continuation: false,
                },
                now,
            );
            return RetryStep::Requeued(timer);
        },
        Ok(None) => {
            state.claimed.remove(issue_id);
            return RetryStep::Released;
        },
        Ok(Some(issue)) => issue,
    };
    let key: String = issue.state_key();
    if is_among(terminal_states, key.as_str()) {
        let hosts: Vec<Option<String>> = cleanup_issue_workspace_hosts(
            &entry.worker_host,
            state.worker_runtime.ssh_hosts.len() > 0,
            ssh_hosts,
        );
        state.claimed.remove(issue_id);
        return RetryStep::Cleanup { issue, hosts };
    }
    if !retry_candidate_issue(&issue, active_states, terminal_states) {
        state.claimed.remove(issue_id);
        return RetryStep::Released;
    }
    if available_slots(state) > 0 && state_slots_available(state, limit, &issue)
        && worker_slots_available(state, &entry.worker_host) {
        RetryStep::Dispatch {
            issue,
            attempt: entry.attempt,
            preferred_worker_host: entry.worker_host,
        }
    } else {
        let timer: RetryTimer = schedule_retry(
            state,
            RetryRequest {
                issue_id: issue.id.clone(),
                attempt: entry.attempt + 1,
                identifier: issue.identifier.clone(),
                tracked_issue: Some(issue),
                worker_host: entry.worker_host,
                workspace_location: entry.workspace_location,
                error: Some(owned("no available orchestrator slots")),
                error_stage: entry.error_stage,
                error_kind: entry.error_kind,
                continuation: false,
            },
            now,
        );
        RetryStep::Requeued(timer)
    }
}

/// Taking a due task out and deciding on it keeps the state sound, and a task that is
/// tried again waits again.
pub proof fn law_retry_step_keeps_state_sound(
    state: StateView,
    id: Seq<char>,
    polled: Result<Option<IssueView>, Seq<char>>,
    limit: usize,
    active_states: Seq<Seq<char>>,
    terminal_states: Seq<Seq<char>>,
    ssh_hosts: Seq<Seq<char>>,
    now: u64,
)
    requires
        state.sound(),
        has_key(state.retry_attempts, id),
        polled matches Ok(Some(issue)) ==> issue.id == id,
    ensures
        ({
            let taken = StateView { retry_attempts: without(state.retry_attempts, id), ..state };
            let entry = lookup(state.retry_attempts, id)->0;
            let after = taken.retry_step(
                id,
                entry,
                polled,
                limit,
                active_states,
                terminal_states,
                ssh_hosts,
                now,
            );
            &&& after.0.sound()
            &&& after.1 is Requeued ==> has_key(after.0.retry_attempts, id)
            &&& after.1 is Released || after.1 is Cleanup ==> !has_key(after.0.claimed, id)
        }),
{
    let taken = StateView { retry_attempts: without(state.retry_attempts, id), ..state };
    let entry = lookup(state.retry_attempts, id)->0;
    lemma_without_in_order(state.retry_attempts, id);
    assert forall|other: Seq<char>| #[trigger] has_key(taken.running, other) implies !has_key(
        taken.retry_attempts,
        other,
    ) by {
        lemma_without_lookup(state.retry_attempts, id, other);
    }
    assert(taken.sound());
    assert(!has_key(taken.running, id));
    law_release_keeps_state_sound(taken, id);
    lemma_without_lookup(state.claimed, id, id);
    match polled {
        Err(reason) => {
            law_retry_keeps_state_sound(taken, poll_failed_request(id, entry, reason), now);
        },
        Ok(Some(issue)) => {
            law_retry_keeps_state_sound(taken, no_slot_request(issue, entry), now);
        },
        Ok(None) => {},
    }
}

// ---------------------------------------------------------------------------
// Reports of workers
// ---------------------------------------------------------------------------

/// Takes in where a worker runs.
pub fn integrate_worker_runtime_info(
    state: &mut State,
    issue_id: &str,
    worker_host: Option<String>,
    workspace_path: String,
    workspace_location: String,
)
    ensures
        final(state)@ == (StateView {
            running: changed(
                old(state)@.running,
                issue_id@,
                RunningView {
                    worker_host: opt_text(worker_host),
                    workspace_path: workspace_path@,
                    workspace_location: workspace_location@,
                    ..(lookup(old(state)@.running, issue_id@)->0)
                },
            ),
            ..old(state)@
        }),
{
    proof {
        crate::table::lemma_changed_nothing(
            old(state)@.running,
            issue_id@,
            RunningView {
                worker_host: opt_text(worker_host),
                workspace_path: workspace_path@,
                workspace_location: workspace_location@,
                ..(lookup(old(state)@.running, issue_id@)->0)
            },
        );
    }
    match state.running.get_mut(issue_id) {
        Some(entry) => {
            entry.worker_host = worker_host;
            entry.workspace_path = workspace_path;
            entry.workspace_location = workspace_location;
        },
        None => {},
    }
}

/// A count that a report holds; none is zero.
pub open spec fn reported_count(usage: JsonView, key: Seq<char>) -> u64 {
    match usage.get(key) {
        Some(value) => match value.as_u64() {
            Some(n) => n,
            None => 0,
        },
        None => 0,
    }
}

/// The counts that a report holds.
pub open spec fn reported_tokens(usage: JsonView) -> TokenSnapshot {
    TokenSnapshot {
        input_tokens: reported_count(usage, "input_tokens"@),
        output_tokens: reported_count(usage, "output_tokens"@),
        total_tokens: reported_count(usage, "total_tokens"@),
    }
}

fn read_count(usage: &Json, key: &str) -> (r: u64)
    ensures
        r == reported_count(usage@, key@),
{
    match usage.get(key) {
        Some(value) => match value.as_u64() {
            Some(n) => n,
            None => 0,
        },
        None => 0,
    }
}

fn read_tokens(usage: &Json) -> (r: TokenSnapshot)
    ensures
        r == reported_tokens(usage@),
{
    TokenSnapshot {
        input_tokens: read_count(usage, "input_tokens"),
        output_tokens: read_count(usage, "output_tokens"),
        total_tokens: read_count(usage, "total_tokens"),
    }
}

/// How much a count has grown.
pub open spec fn growth(new: u64, last: u64) -> u64 {
    if new > last {
        (new - last) as u64
    } else {
        0
    }
}

/// How much the counts have grown, each by itself.
pub open spec fn token_growth(new: TokenSnapshot, last: TokenSnapshot) -> TokenSnapshot {
    TokenSnapshot {
        input_tokens: growth(new.input_tokens, last.input_tokens),
        output_tokens: growth(new.output_tokens, last.output_tokens),
        total_tokens: growth(new.total_tokens, last.total_tokens),
    }
}

/// The larger of two counts.
pub open spec fn larger(a: u64, b: u64) -> u64 {
    if a > b {
        a
    } else {
        b
    }
}

/// The larger counts, each by itself.
pub open spec fn larger_tokens(a: TokenSnapshot, b: TokenSnapshot) -> TokenSnapshot {
    TokenSnapshot {
        input_tokens: larger(a.input_tokens, b.input_tokens),
        output_tokens: larger(a.output_tokens, b.output_tokens),
        total_tokens: larger(a.total_tokens, b.total_tokens),
    }
}

/// The sum of counts.
pub open spec fn token_sum(a: TokenSnapshot, b: TokenSnapshot) -> TokenSnapshot {
    TokenSnapshot {
        input_tokens: (a.input_tokens + b.input_tokens) as u64,
        output_tokens: (a.output_tokens + b.output_tokens) as u64,
        total_tokens: (a.total_tokens + b.total_tokens) as u64,
    }
}

/// Whether the sum of counts is within 64 bits.
pub open spec fn token_sum_fits(a: TokenSnapshot, b: TokenSnapshot) -> bool {
    &&& a.input_tokens + b.input_tokens <= u64::MAX
    &&& a.output_tokens + b.output_tokens <= u64::MAX
    &&& a.total_tokens + b.total_tokens <= u64::MAX
}

fn grow(new: u64, last: u64) -> (r: u64)
    ensures
        r == growth(new, last),
{
    if new > last {
        new - last
    } else {
        0
    }
}

fn grow_tokens(new: TokenSnapshot, last: TokenSnapshot) -> (r: TokenSnapshot)
    ensures
        r == token_growth(new, last),
{
    TokenSnapshot {
        input_tokens: grow(new.input_tokens, last.input_tokens),
        output_tokens: grow(new.output_tokens, last.output_tokens),
        total_tokens: grow(new.total_tokens, last.total_tokens),
    }
}

fn pick_larger(a: u64, b: u64) -> (r: u64)
    ensures
        r == larger(a, b),
{
    if a > b {
        a
    } else {
        b
    }
}

fn pick_larger_tokens(a: TokenSnapshot, b: TokenSnapshot) -> (r: TokenSnapshot)
    ensures
        r == larger_tokens(a, b),
{
    TokenSnapshot {
        input_tokens: pick_larger(a.input_tokens, b.input_tokens),
        output_tokens: pick_larger(a.output_tokens, b.output_tokens),
        total_tokens: pick_larger(a.total_tokens, b.total_tokens),
    }
}

fn add_tokens(a: TokenSnapshot, b: TokenSnapshot) -> (r: TokenSnapshot)
    requires
        token_sum_fits(a, b),
    ensures
        r == token_sum(a, b),
{
    TokenSnapshot {
        input_tokens: a.input_tokens + b.input_tokens,
        output_tokens: a.output_tokens + b.output_tokens,
        total_tokens: a.total_tokens + b.total_tokens,
    }
}

fn sum_fits(a: u64, b: u64) -> (r: bool)
    ensures
        r == (a + b <= u64::MAX),
{
    a <= u64::MAX - b
}

fn tokens_fit(a: TokenSnapshot, b: TokenSnapshot) -> (r: bool)
    ensures
        r == token_sum_fits(a, b),
{
    sum_fits(a.input_tokens, b.input_tokens) && sum_fits(a.output_tokens, b.output_tokens)
        && sum_fits(a.total_tokens, b.total_tokens)
}

/// The last hundred events.
pub open spec fn last_hundred(events: Seq<RecentView>) -> Seq<RecentView> {
    if events.len() > 100 {
        events.skip(events.len() - 100)
    } else {
        events
    }
}

/// What is told of an event: its message, or else the line or the payload it came with.
pub open spec fn event_text(event: EventView) -> Option<Seq<char>> {
    match event.message {
        Some(message) => Some(message),
        None => match event.raw {
            Some(raw) => Some(raw),
            None => match event.payload {
                Some(payload) => Some(compact_of(payload)),
                None => None,
            },
        },
    }
}

/// How much an event adds to the counts of a worker.
pub open spec fn event_growth(entry: RunningView, event: EventView) -> TokenSnapshot {
    match event.usage {
        Some(usage) => token_growth(reported_tokens(usage), entry.last_reported_tokens),
        None => no_tokens(),
    }
}

/// Whether an event starts another session.
pub open spec fn starts_session(entry: RunningView, event: EventView) -> bool {
    event.event == "session_started"@ && event.session_id != entry.session_id
}

/// A worker's entry after an event.
pub open spec fn updated_entry(id: Seq<char>, entry: RunningView, event: EventView) -> RunningView {
    RunningView {
        session_id: if event.event == "session_started"@ {
            event.session_id
        } else {
            entry.session_id
        },
        turn_count: if starts_session(entry, event) {
            (entry.turn_count + 1) as u32
        } else {
            entry.turn_count
        },
        codex_app_server_pid: match event.codex_app_server_pid {
            Some(pid) => Some(pid),
            None => entry.codex_app_server_pid,
        },
        worker_host: match event.worker_host {
            Some(host) => Some(host),
            None => entry.worker_host,
        },
        terminal_transition_permitted: entry.terminal_transition_permitted || close_succeeded(
            event.payload,
            id,
        ),
        last_codex_event: Some(event.event),
        last_codex_timestamp: Some(event.timestamp),
        last_codex_message: event_text(event),
        last_reported_tokens: match event.usage {
            Some(usage) => larger_tokens(reported_tokens(usage), entry.last_reported_tokens),
            None => entry.last_reported_tokens,
        },
        codex_tokens: token_sum(entry.codex_tokens, event_growth(entry, event)),
        recent_events: last_hundred(
            entry.recent_events.push(
                RecentView {
                    at: event.timestamp,
                    event: event.event,
                    message: event_text(event),
                },
            ),
        ),
        ..entry
    }
}

impl StateView {
    /// Whether the counts that an event changes are within their ranges.
    pub open spec fn update_fits(self, id: Seq<char>, event: EventView) -> bool {
        let entry = lookup(self.running, id)->0;
        has_key(self.running, id) ==> {
            &&& starts_session(entry, event) ==> entry.turn_count < u32::MAX
            &&& token_sum_fits(entry.codex_tokens, event_growth(entry, event))
            &&& token_sum_fits(self.codex_totals.tokens, event_growth(entry, event))
        }
    }

    /// The state after an event of a worker. Events of workers that do not run are left
    /// out.
    pub open spec fn updated(self, id: Seq<char>, event: EventView) -> StateView {
        if has_key(self.running, id) {
            let entry = lookup(self.running, id)->0;
            StateView {
                running: changed(self.running, id, updated_entry(id, entry, event)),
                codex_totals: CodexTotals {
                    tokens: token_sum(self.codex_totals.tokens, event_growth(entry, event)),
                    ..self.codex_totals
                },
                codex_rate_limits: match event.rate_limits {
                    Some(limits) => Some(limits),
                    None => self.codex_rate_limits,
                },
                ..self
            }
        } else {
            self
        }
    }
}

fn measure_growth(entry: &RunningEntry, event: &CodexEvent) -> (r: TokenSnapshot)
    ensures
        r == event_growth(entry@, event@),
{
    match &event.usage {
        Some(usage) => grow_tokens(read_tokens(usage), entry.last_reported_tokens),
        None => TokenSnapshot { input_tokens: 0, output_tokens: 0, total_tokens: 0 },
    }
}

fn begins_session(entry: &RunningEntry, event: &CodexEvent) -> (r: bool)
    ensures
        r == starts_session(entry@, event@),
{
    same(event.event.as_str(), "session_started") && !opt_same(&event.session_id, &entry.session_id)
}

/// Whether the counts that an event changes are within their ranges.
pub fn worker_update_fits(state: &State, issue_id: &str, event: &CodexEvent) -> (r: bool)
    ensures
        r == state@.update_fits(issue_id@, event@),
{
    match state.running.get(issue_id) {
        Some(entry) => {
            let more: TokenSnapshot = measure_growth(entry, event);
            (!begins_session(entry, event) || entry.turn_count < u32::MAX) && tokens_fit(
                entry.codex_tokens,
                more,
            ) && tokens_fit(state.codex_totals.tokens, more)
        },
        None => true,
    }
}

fn tell_event(event: &CodexEvent) -> (r: Option<String>)
    ensures
        opt_text(r) == event_text(event@),
{
    match &event.message {
        Some(message) => Some(message.clone()),
        None => match &event.raw {
            Some(raw) => Some(raw.clone()),
            None => match &event.payload {
                Some(payload) => Some(to_text(payload)),
                None => None,
            },
        },
    }
}

fn note_event(entry: &mut RunningEntry, at: i128, event: String, message: Option<String>)
    ensures
        final(entry)@ == (RunningView {
            recent_events: last_hundred(
                old(entry)@.recent_events.push(
                    RecentView { at, event: event@, message: opt_text(message) },
                ),
            ),
            ..old(entry)@
        }),
{
    let ghost had = views_of(entry.recent_events@);
    let note: RecentEvent = RecentEvent { at, event, message };
    let ghost shown = note@;
    entry.recent_events.push(note);
    let ghost all = had.push(shown);
    proof {
        assert(views_of(entry.recent_events@) =~= all);
    }
    while entry.recent_events.len() > 100
        invariant
            entry.recent_events@.len() <= all.len(),
            all.len() > 100 ==> entry.recent_events@.len() >= 100,
            all.len() <= 100 ==> entry.recent_events@.len() == all.len(),
            views_of(entry.recent_events@) == all.skip(all.len() - entry.recent_events@.len()),
            entry@ == (RunningView {
                recent_events: views_of(entry.recent_events@),
                ..old(entry)@
            }),
        decreases entry.recent_events.len(),
    {
        let ghost rest = entry.recent_events@;
        entry.recent_events.remove(0);
        proof {
            assert(views_of(entry.recent_events@) =~= views_of(rest).skip(1));
            assert(all.skip(all.len() - rest.len()).skip(1) =~= all.skip(
                all.len() - rest.len() + 1,
            ));
        }
    }
    proof {
        if all.len() <= 100 {
            assert(all.skip(0) =~= all);
        }
    }
}

/// Takes in an event of a worker.
pub fn integrate_worker_update(state: &mut State, issue_id: &str, event: CodexEvent)
    requires
        old(state)@.update_fits(issue_id@, event@),
    ensures
        final(state)@ == old(state)@.updated(issue_id@, event@),
{
    match state.running.get_mut(issue_id) {
        None => {},
        Some(entry) => {
            let more: TokenSnapshot = measure_growth(entry, &event);
            if begins_session(entry, &event) {
                entry.turn_count = entry.turn_count + 1;
            }
            if same(event.event.as_str(), "session_started") {
                entry.session_id = clone_opt(&event.session_id);
            }
            match event.codex_app_server_pid {
                Some(pid) => {
                    entry.codex_app_server_pid = Some(pid);
                },
                None => {},
            }
            match &event.worker_host {
                Some(host) => {
                    entry.worker_host = Some(host.clone());
                },
                None => {},
            }
            let payload: Option<&Json> = match &event.payload {
                Some(payload) => Some(payload),
                None => None,
            };
            if todoist_close_task_succeeded(payload, issue_id) {
                entry.terminal_transition_permitted = true;
            }
            entry.last_codex_event = Some(event.event.clone());
            entry.last_codex_timestamp = Some(event.timestamp);
            let told: Option<String> = tell_event(&event);
            entry.last_codex_message = clone_opt(&told);
            match &event.usage {
                Some(usage) => {
                    entry.last_reported_tokens = pick_larger_tokens(
                        read_tokens(usage),
                        entry.last_reported_tokens,
                    );
                },
                None => {},
            }
            entry.codex_tokens = add_tokens(entry.codex_tokens, more);
            state.codex_totals.tokens = add_tokens(state.codex_totals.tokens, more);
            note_event(entry, event.timestamp, event.event, told);
            match event.rate_limits {
                Some(limits) => {
                    state.codex_rate_limits = Some(limits);
                },
                None => {},
            }
        },
    }
}

/// An event keeps the state sound, and charges the worker with exactly what all workers
/// together are charged with.
pub proof fn law_update_keeps_state_sound(state: StateView, id: Seq<char>, event: EventView)
    requires
        state.sound(),
        state.update_fits(id, event),
    ensures
        state.updated(id, event).sound(),
        has_key(state.running, id) ==> {
            let charged = event_growth(lookup(state.running, id)->0, event);
            &&& state.updated(id, event).codex_totals.tokens == token_sum(
                state.codex_totals.tokens,
                charged,
            )
            &&& (lookup(state.updated(id, event).running, id)->0).codex_tokens == token_sum(
                (lookup(state.running, id)->0).codex_tokens,
                charged,
            )
        },
{
    if has_key(state.running, id) {
        let entry = lookup(state.running, id)->0;
        let new = updated_entry(id, entry, event);
        assert(entry_sound(id, new));
        lemma_changed_is_sound(
            StateView {
                codex_totals: state.updated(id, event).codex_totals,
                codex_rate_limits: state.updated(id, event).codex_rate_limits,
                ..state
            },
            id,
            new,
        );
        lemma_changed_lookup(state.running, id, new, id);
    }
}

/// In a sound state the counts of a worker never leave their range: only the sums over
/// all workers and the number of sessions could.
pub proof fn law_worker_counts_fit(state: StateView, id: Seq<char>, event: EventView)
    requires
        state.sound(),
        has_key(state.running, id),
    ensures
        token_sum_fits(
            (lookup(state.running, id)->0).codex_tokens,
            event_growth(lookup(state.running, id)->0, event),
        ),
{
}

/// A report that is made twice is charged once, and a report of less than before charges
/// nothing.
pub proof fn law_reports_are_charged_once(entry: RunningView, id: Seq<char>, event: EventView)
    ensures
        event_growth(updated_entry(id, entry, event), event) == no_tokens(),
        event.usage matches Some(usage) && reported_tokens(usage).input_tokens
            <= entry.last_reported_tokens.input_tokens && reported_tokens(usage).output_tokens
            <= entry.last_reported_tokens.output_tokens && reported_tokens(usage).total_tokens
            <= entry.last_reported_tokens.total_tokens ==> event_growth(entry, event)
            == no_tokens(),
{
}

// ---------------------------------------------------------------------------
// Ticks
// ---------------------------------------------------------------------------

/// Takes in what the configuration says now.
pub fn refresh_runtime_config(state: &mut State, settings: &RuntimeSettings)
    ensures
        final(state)@ == (StateView {
            poll_interval_ms: settings.poll_interval_ms,
            max_concurrent_agents: settings.max_concurrent_agents as nat,
            max_retry_backoff_ms: settings.max_retry_backoff_ms,
            ssh_hosts: texts(settings.ssh_hosts@),
            max_concurrent_agents_per_host: settings.max_concurrent_agents_per_host,
            ..old(state)@
        }),
{
    state.poll_interval_ms = settings.poll_interval_ms;
    state.max_concurrent_agents = settings.max_concurrent_agents;
    state.max_retry_backoff_ms = settings.max_retry_backoff_ms;
    state.worker_runtime = WorkerRuntimeConfig {
        ssh_hosts: clone_all(&settings.ssh_hosts),
        max_concurrent_agents_per_host: settings.max_concurrent_agents_per_host,
    };
}

/// Begins a tick.
pub fn begin_tick(state: &mut State, settings: &RuntimeSettings)
    ensures
        final(state)@ == (StateView {
            poll_interval_ms: settings.poll_interval_ms,
            max_concurrent_agents: settings.max_concurrent_agents as nat,
            max_retry_backoff_ms: settings.max_retry_backoff_ms,
            ssh_hosts: texts(settings.ssh_hosts@),
            max_concurrent_agents_per_host: settings.max_concurrent_agents_per_host,
            poll_check_in_progress: true,
            next_poll_due_at: None,
            ..old(state)@
        }),
{
    refresh_runtime_config(state, settings);
    state.poll_check_in_progress = true;
    state.next_poll_due_at = None;
}

/// Ends a tick, and says after how many milliseconds the next one is due.
pub fn end_tick(state: &mut State, now: u64) -> (delay_ms: u64)
    ensures
        delay_ms == old(state)@.poll_interval_ms,
        final(state)@ == (StateView {
            poll_check_in_progress: false,
            next_poll_due_at: Some((now + old(state)@.poll_interval_ms * 1_000_000) as u128),
            ..old(state)@
        }),
{
    state.poll_check_in_progress = false;
    state.next_poll_due_at = Some(now as u128 + state.poll_interval_ms as u128 * 1_000_000);
    state.poll_interval_ms
}

/// Takes in how many requests the tracker still takes.
pub fn capture_tracker_rate_budget(state: &mut State, budget: Option<TrackerRateBudget>)
    ensures
        final(state)@ == (StateView { todoist_rate_budget: opt_budget(budget), ..old(state)@ }),
{
    state.todoist_rate_budget = budget;
}

/// Whether the configuration that `config` stands for has yet to be validated.
pub fn startup_validation_needed(state: &State, config: &str) -> (r: bool)
    ensures
        r == (state@.validated_startup_config != Some(config@)),
{
    match &state.validated_startup_config {
        Some(validated) => !same(validated.as_str(), config),
        None => true,
    }
}

/// Takes in that the configuration that `config` stands for has been validated.
pub fn mark_startup_validated(state: &mut State, config: String)
    ensures
        final(state)@ == (StateView {
            validated_startup_config: Some(config@),
            ..old(state)@
        }),
{
    state.validated_startup_config = Some(config);
}

/// What a tick learns on its way to dispatching.
#[derive(Debug)]
pub enum TickEvent {
    /// Why the workflow is not valid, if it is not.
    Workflow(Option<String>),
    /// Whether the configuration is ready for dispatching.
    Config(Result<(), String>),
    /// Whether a tracker could be had.
    Tracker(Result<(), String>),
    /// Whether the tracker accepts the configuration.
    Validated(Result<(), String>),
    /// The tasks that may be worked on.
    Candidates(Result<Vec<Issue>, String>),
}

/// What a tick does next.
#[derive(Debug)]
pub enum TickAction {
    CheckConfig,
    BuildTracker,
    ValidateStartup,
    FetchCandidates,
    /// Dispatch these tasks, in this order.
    Dispatch(Vec<Issue>),
    /// End the tick; where there is a reason, nothing was dispatched because of it.
    Finish(Option<String>),
}

/// What a tick does next.
pub enum TickView {
    CheckConfig,
    BuildTracker,
    ValidateStartup,
    FetchCandidates,
    Dispatch(Seq<IssueView>),
    Finish(Option<Seq<char>>),
}

impl View for TickAction {
    type V = TickView;

    open spec fn view(&self) -> TickView {
        match self {
            TickAction::CheckConfig => TickView::CheckConfig,
            TickAction::BuildTracker => TickView::BuildTracker,
            TickAction::ValidateStartup => TickView::ValidateStartup,
            TickAction::FetchCandidates => TickView::FetchCandidates,
            TickAction::Dispatch(issues) => TickView::Dispatch(views_of(issues@)),
            TickAction::Finish(reason) => TickView::Finish(opt_text(*reason)),
        }
    }
}

impl StateView {
    /// What a tick does after it has learnt something, under the configuration that
    /// `config` stands for.
    pub open spec fn tick(self, config: Seq<char>, event: TickEvent) -> (StateView, TickView) {
        match event {
            TickEvent::Workflow(Some(reason)) => (self, TickView::Finish(Some(reason@))),
            TickEvent::Workflow(None) => (self, TickView::CheckConfig),
            TickEvent::Config(Err(reason)) => (self, TickView::Finish(Some(reason@))),
            TickEvent::Config(Ok(_)) => (self, TickView::BuildTracker),
            TickEvent::Tracker(Err(reason)) => (self, TickView::Finish(Some(reason@))),
            TickEvent::Tracker(Ok(_)) => (
                self,
                if self.validated_startup_config != Some(config) {
                    TickView::ValidateStartup
                } else {
                    TickView::FetchCandidates
                },
            ),
            TickEvent::Validated(Err(reason)) => (self, TickView::Finish(Some(reason@))),
            TickEvent::Validated(Ok(_)) => (
                StateView { validated_startup_config: Some(config), ..self },
                TickView::FetchCandidates,
            ),
            TickEvent::Candidates(Err(reason)) => (self, TickView::Finish(Some(reason@))),
            TickEvent::Candidates(Ok(issues)) => (
                self,
                TickView::Dispatch(ranked::<Issue>(views_of(issues@))),
            ),
        }
    }
}

/// What a tick does after it has learnt something.
pub fn run_tick_step(state: &mut State, config: &str, event: TickEvent) -> (r: TickAction)
    ensures
        (final(state)@, r@) == old(state)@.tick(config@, event),
{
    match event {
        TickEvent::Workflow(Some(reason)) => TickAction::Finish(Some(reason)),
        TickEvent::Workflow(None) => TickAction::CheckConfig,
        TickEvent::Config(Err(reason)) => TickAction::Finish(Some(reason)),
        TickEvent::Config(Ok(_)) => TickAction::BuildTracker,
        TickEvent::Tracker(Err(reason)) => TickAction::Finish(Some(reason)),
        TickEvent::Tracker(Ok(_)) => {
            if startup_validation_needed(state, config) {
                TickAction::ValidateStartup
            } else {
                TickAction::FetchCandidates
            }
        },
        TickEvent::Validated(Err(reason)) => TickAction::Finish(Some(reason)),
        TickEvent::Validated(Ok(_)) => {
            mark_startup_validated(state, owned(config));
            TickAction::FetchCandidates
        },
        TickEvent::Candidates(Err(reason)) => TickAction::Finish(Some(reason)),
        TickEvent::Candidates(Ok(issues)) => TickAction::Dispatch(sort_issues_for_dispatch(issues)),
    }
}

/// What comes of a task in a tick.
#[derive(Clone, Copy, Debug, PartialEq, Eq, Structural)]
pub enum QueueStep {
    /// No slot is left: the rest is left for the next tick.
    Stop,
    /// The task is left.
    Skip,
    /// The task is dispatched.
    Dispatch,
}

/// What comes of a task in a tick; `limit` workers may run on tasks in its state.
pub fn next_in_queue(
    state: &State,
    limit: usize,
    issue: &Issue,
    active_states: &Vec<String>,
    terminal_states: &Vec<String>,
) -> (r: QueueStep)
    ensures
        r == if state@.available() == 0 {
            QueueStep::Stop
        } else if state@.dispatches(issue@, limit, texts(active_states@), texts(terminal_states@)) {
            QueueStep::Dispatch
        } else {
            QueueStep::Skip
        },
        r is Dispatch ==> issue@.assigned_to_worker && texts(active_states@).contains(
            lowered(trimmed(issue@.state)),
        ) && !texts(terminal_states@).contains(lowered(trimmed(issue@.state))),
{
    if available_slots(state) == 0 {
        QueueStep::Stop
    } else if should_dispatch_issue(state, limit, issue, active_states, terminal_states) {
        QueueStep::Dispatch
    } else {
        QueueStep::Skip
    }
}

/// The answer to a request to poll now.
#[derive(Debug)]
pub struct RefreshResponse {
    pub queued: bool,
    pub coalesced: bool,
    pub requested_at: i128,
    pub operations: Vec<String>,
}

/// Whether a poll is under way or due.
pub open spec fn poll_is_near(state: StateView, now: u64) -> bool {
    state.poll_check_in_progress || (state.next_poll_due_at matches Some(due) && due <= now)
}

/// The answer to a request to poll now. Unless it falls together with a poll that is
/// under way or due, a tick is to be set off.
pub fn refresh(state: &State, wall: i128, now: u64) -> (r: RefreshResponse)
    ensures
        r.queued,
        r.coalesced == poll_is_near(state@, now),
        r.requested_at == wall,
        texts(r.operations@) == seq!["poll"@, "reconcile"@],
{
    let due: bool = match state.next_poll_due_at {
        Some(due) => due <= now as u128,
        None => false,
    };
    let operations: Vec<String> = vec![owned("poll"), owned("reconcile")];
    proof {
        assert(texts(operations@) =~= seq!["poll"@, "reconcile"@]);
    }
    RefreshResponse {
        queued: true,
        coalesced: state.poll_check_in_progress || due,
        requested_at: wall,
        operations,
    }
}

/// The version of the state after a change, by which observers notice it.
pub fn next_version(version: u64) -> (r: u64)
    ensures
        r == if version == u64::MAX {
            0
        } else {
            version + 1
        },
{
    if version == u64::MAX {
        0
    } else {
        version + 1
    }
}

/// A tick keeps the state sound.
pub proof fn law_ticks_keep_state_sound(state: StateView, config: Seq<char>, event: TickEvent)
    requires
        state.sound(),
    ensures
        state.tick(config, event).0.sound(),
{
}

/// Nothing is dispatched before the tracker has accepted the configuration.
pub proof fn law_dispatch_needs_validation(state: StateView, config: Seq<char>, event: TickEvent)
    requires
        state.tick(config, event).1 is FetchCandidates,
    ensures
        state.tick(config, event).0.validated_startup_config == Some(config),
{
}

} // verus!
