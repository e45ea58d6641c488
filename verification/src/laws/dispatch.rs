//! Which tasks get an agent, in which order, and where.
use vstd::prelude::*;

use crate::issue::{state_name, Issue, IssueView};
use crate::orchestrator::{
    fresh_entry, in_state, law_dispatch_order_is_an_order, law_selected_host_has_room, on_host,
    DispatchView, RunningView, SelectionView, StateView, TickEvent, TickView,
};
use crate::sorting::{law_ranked_is_a_permutation, law_ranked_is_sorted, ranked, views_of};
use crate::table::{has_key, lemma_put_lookup, lemma_without_lookup, lookup};
use crate::text::{before, lowered, trimmed};
use crate::worker::preference;

verus! {

broadcast use {vstd::seq::group_seq_axioms, vstd::string::group_string_axioms};

/// Whether an agent may work on a task: the task is complete, assigned to this worker, in
/// one of the active states and in none of the terminal ones.
pub open spec fn is_workable(
    issue: IssueView,
    active_states: Seq<Seq<char>>,
    terminal_states: Seq<Seq<char>>,
) -> bool {
    let state = lowered(trimmed(issue.state));
    &&& issue.assigned_to_worker
    &&& active_states.contains(state)
    &&& !terminal_states.contains(state)
    &&& issue.id.len() > 0 && issue.identifier.len() > 0
    &&& issue.title.len() > 0 && issue.state.len() > 0
}

/// Whether a host takes another worker: fewer run on it than may.
pub open spec fn takes_worker(state: StateView, host: Seq<char>) -> bool {
    state.max_concurrent_agents_per_host matches Some(most) ==> workers_on(state.running, host)
        < most
}

/// How many workers run on a host.
pub open spec fn workers_on(running: Seq<(Seq<char>, RunningView)>, host: Seq<char>) -> nat {
    running.filter(|entry: (Seq<char>, RunningView)| entry.1.worker_host == Some(host)).len()
}

/// How many workers run on tasks in a state, whatever the case of its name.
pub open spec fn workers_in(running: Seq<(Seq<char>, RunningView)>, state: Seq<char>) -> nat {
    running.filter(
        |entry: (Seq<char>, RunningView)|
            lowered(trimmed(entry.1.issue.state)) == lowered(trimmed(state)),
    ).len()
}

/// Whether a worker can run anywhere: on this machine where no hosts are configured, or
/// else on a host that takes another one.
pub open spec fn finds_host(state: StateView) -> bool {
    state.ssh_hosts.len() == 0 || exists|host: Seq<char>|
        state.ssh_hosts.contains(host) && #[trigger] takes_worker(state, host)
}

proof fn lemma_workers_on(running: Seq<(Seq<char>, RunningView)>, host: Seq<char>)
    ensures
        on_host(running, host) == workers_on(running, host),
    decreases running.len(),
{
    reveal(Seq::filter);
    if running.len() > 0 {
        lemma_workers_on(running.drop_last(), host);
    }
}

pub proof fn lemma_workers_in(running: Seq<(Seq<char>, RunningView)>, state: Seq<char>)
    ensures
        in_state(running, state_name(state)) == workers_in(running, state),
    decreases running.len(),
{
    reveal(Seq::filter);
    if running.len() > 0 {
        lemma_workers_in(running.drop_last(), state);
    }
}

proof fn lemma_takes_worker(state: StateView, host: Seq<char>)
    ensures
        state.has_room(host) == takes_worker(state, host),
{
    lemma_workers_on(state.running, host);
}

pub proof fn lemma_finds_host(state: StateView, preferred: Option<Seq<char>>)
    ensures
        state.selection(preferred) !is NoCapacity <==> finds_host(state),
{
    law_selected_host_has_room(state, preferred);
    if state.ssh_hosts.len() > 0 {
        match state.selection(preferred) {
            SelectionView::Remote(host) => {
                lemma_takes_worker(state, host);
                assert(takes_worker(state, host));
            },
            SelectionView::NoCapacity => {
                assert forall|host: Seq<char>|
                    state.ssh_hosts.contains(host) implies !#[trigger] takes_worker(
                    state,
                    host,
                ) by {
                    lemma_takes_worker(state, host);
                }
            },
            SelectionView::Local => {},
        }
    }
}

/// A task gets an agent exactly where an agent may work on it, none does or is about to,
/// and there is room: fewer agents run than may, fewer on tasks in its state, and one of
/// the hosts takes another.
pub proof fn law_ready_tasks_are_dispatched(
    state: StateView,
    issue: IssueView,
    limit: usize,
    active_states: Seq<Seq<char>>,
    terminal_states: Seq<Seq<char>>,
)
    ensures
        state.dispatches(issue, limit, active_states, terminal_states) <==> {
            &&& is_workable(issue, active_states, terminal_states)
            &&& !has_key(state.running, issue.id)
            &&& !has_key(state.claimed, issue.id)
            &&& state.running.len() < state.max_concurrent_agents
            &&& workers_in(state.running, issue.state) < limit
            &&& finds_host(state)
        },
{
    lemma_workers_in(state.running, issue.state);
    lemma_finds_host(state, None);
}

/// A task that is assigned to someone else, or that is in none of the active states or in
/// a terminal one, never gets an agent: neither from the queue, nor once the tracker has
/// been asked for it again.
pub proof fn law_other_tasks_are_left_alone(
    state: StateView,
    issues: Seq<IssueView>,
    limit: usize,
    preferred: Option<Seq<char>>,
    active_states: Seq<Seq<char>>,
    terminal_states: Seq<Seq<char>>,
)
    requires
        issues.len() > 0,
        !issues[0].assigned_to_worker || !active_states.contains(
            lowered(trimmed(issues[0].state)),
        ) || terminal_states.contains(lowered(trimmed(issues[0].state))),
    ensures
        !state.dispatches(issues[0], limit, active_states, terminal_states),
        state.dispatch_plan(Ok(issues), preferred, active_states, terminal_states) is Stale,
{
}

/// Whether an agent starts, and where: on the first task that the tracker returns, where
/// an agent may still work on it. It starts here where no hosts are configured, and else on
/// one of them that takes another worker: on the preferred one if that does, or on one on
/// which no more workers run than on any other.
pub proof fn law_agents_start_on_workable_tasks(
    state: StateView,
    refreshed: Result<Seq<IssueView>, Seq<char>>,
    preferred: Option<Seq<char>>,
    active_states: Seq<Seq<char>>,
    terminal_states: Seq<Seq<char>>,
)
    ensures
        ({
            let plan = state.dispatch_plan(refreshed, preferred, active_states, terminal_states);
            &&& plan matches DispatchView::Start { issue, worker_host } ==> {
                &&& refreshed matches Ok(issues)
                &&& issues.len() > 0
                &&& issue == issues[0]
                &&& is_workable(issue, active_states, terminal_states)
                &&& worker_host is None <==> state.ssh_hosts.len() == 0
                &&& worker_host matches Some(host) ==> {
                    &&& state.ssh_hosts.contains(host)
                    &&& takes_worker(state, host)
                    &&& preference(preferred) == Some(host) || forall|other: Seq<char>|
                        state.ssh_hosts.contains(other) && #[trigger] takes_worker(state, other)
                            ==> workers_on(state.running, host) <= workers_on(
                            state.running,
                            other,
                        )
                }
            }
            &&& (refreshed is Ok && refreshed->Ok_0.len() > 0 && is_workable(
                refreshed->Ok_0[0],
                active_states,
                terminal_states,
            ) && finds_host(state)) ==> plan is Start
            &&& refreshed is Err ==> plan == DispatchView::Failed(refreshed->Err_0)
            &&& refreshed == Ok::<Seq<IssueView>, Seq<char>>(Seq::empty()) ==> plan is Missing
        }),
{
    lemma_finds_host(state, preferred);
    law_selected_host_has_room(state, preferred);
    if let SelectionView::Remote(host) = state.selection(preferred) {
        lemma_takes_worker(state, host);
        lemma_workers_on(state.running, host);
        assert forall|other: Seq<char>|
            preference(preferred) != Some(host) && state.ssh_hosts.contains(other)
                && #[trigger] takes_worker(state, other) implies workers_on(state.running, host)
            <= workers_on(state.running, other) by {
            lemma_takes_worker(state, other);
            lemma_workers_on(state.running, other);
        }
    }
}

/// A worker runs on the preferred host, where that is configured and takes another one.
pub proof fn law_preferred_hosts_are_chosen(state: StateView, host: Seq<char>)
    requires
        state.ssh_hosts.contains(host),
        takes_worker(state, host),
        trimmed(host) == host,
        host.len() > 0,
    ensures
        state.selection(Some(host)) == SelectionView::Remote(host),
{
    lemma_takes_worker(state, host);
    law_selected_host_has_room(state, Some(host));
}

/// Once an agent has started on a task, the task runs with nothing known of it yet but
/// what it was started with, is claimed and waits no longer; every other task is where it
/// was.
pub proof fn law_started_tasks_run(
    state: StateView,
    issue: IssueView,
    attempt: Option<u32>,
    worker_host: Option<Seq<char>>,
    workspace_path: Seq<char>,
    now: i128,
    other: Seq<char>,
)
    requires
        state.sound(),
    ensures
        ({
            let after = state.started(issue, attempt, worker_host, workspace_path, now);
            &&& lookup(after.running, issue.id) matches Some(entry) && {
                &&& entry.issue == issue
                &&& entry.identifier == issue.identifier
                &&& entry.worker_host == worker_host
                &&& entry.workspace_path == workspace_path
                &&& entry.workspace_location == workspace_path
                &&& entry.started_at == now
                &&& attempt matches Some(n) ==> entry.retry_attempt == n
                &&& attempt is None ==> entry.retry_attempt == 0
                &&& entry.turn_count == 0
                &&& entry.codex_tokens.total_tokens == 0
                &&& entry.session_id is None
                &&& entry.last_codex_timestamp is None
                &&& !entry.terminal_transition_permitted
            }
            &&& has_key(after.claimed, issue.id)
            &&& !has_key(after.retry_attempts, issue.id)
            &&& other != issue.id ==> {
                &&& lookup(after.running, other) == lookup(state.running, other)
                &&& lookup(after.claimed, other) == lookup(state.claimed, other)
                &&& lookup(after.retry_attempts, other) == lookup(state.retry_attempts, other)
            }
            &&& after.codex_totals == state.codex_totals
            &&& after.completed == state.completed
            &&& after.max_concurrent_agents == state.max_concurrent_agents
        }),
{
    let entry = fresh_entry(issue, attempt, worker_host, workspace_path, now);
    lemma_put_lookup(state.running, issue.id, entry, issue.id);
    lemma_put_lookup(state.running, issue.id, entry, other);
    lemma_put_lookup(state.claimed, issue.id, (), issue.id);
    lemma_put_lookup(state.claimed, issue.id, (), other);
    lemma_without_lookup(state.retry_attempts, issue.id, issue.id);
    lemma_without_lookup(state.retry_attempts, issue.id, other);
}

/// A task that is left is no longer claimed, and nothing else changes.
pub proof fn law_left_tasks_are_released(state: StateView, id: Seq<char>, other: Seq<char>)
    requires
        state.sound(),
    ensures
        !has_key(state.released(id).claimed, id),
        other != id ==> lookup(state.released(id).claimed, other) == lookup(state.claimed, other),
        state.released(id).running == state.running,
        state.released(id).retry_attempts == state.retry_attempts,
        state.released(id).completed == state.completed,
        state.released(id).codex_totals == state.codex_totals,
{
    lemma_without_lookup(state.claimed, id, id);
    lemma_without_lookup(state.claimed, id, other);
}

/// How urgent a task is: its priority, or five.
pub open spec fn urgency(issue: IssueView) -> int {
    match issue.priority {
        Some(priority) => priority as int,
        None => 5,
    }
}

/// Tasks are taken in the order of their priority, those of the same priority from the
/// oldest on, and those as old as each other in the order of their identifiers. A task that
/// does not say when it was made comes after all of the same priority that do, up to the
/// end of the calendar. No task is lost or added.
pub proof fn law_urgent_tasks_come_first(issues: Seq<IssueView>)
    ensures
        ranked::<Issue>(issues).to_multiset() == issues.to_multiset(),
        forall|i: int, j: int|
            #![trigger ranked::<Issue>(issues)[i], ranked::<Issue>(issues)[j]]
            0 <= i < j < issues.len() ==> {
                let a = ranked::<Issue>(issues)[i];
                let b = ranked::<Issue>(issues)[j];
                &&& urgency(a) <= urgency(b)
                &&& urgency(a) == urgency(b) && a.created_at is Some && b.created_at is Some
                    ==> a.created_at->0 as int / 1000 <= b.created_at->0 as int / 1000
                &&& urgency(a) == urgency(b) && a.created_at is None && b.created_at is Some
                    ==> b.created_at->0 as int / 1000 >= i64::MAX
                &&& urgency(a) == urgency(b) && a.created_at == b.created_at ==> !before(
                    b.identifier,
                    a.identifier,
                )
            },
{
    law_ranked_is_a_permutation::<Issue>(issues);
    law_dispatch_order_is_an_order();
    law_ranked_is_sorted::<Issue>(issues);
}

/// The way of a tick to its dispatches: each step follows once the one before has
/// succeeded, and where one fails, the tick ends with its reason. The tracker is asked to
/// accept the configuration where it has not accepted this one yet.
pub proof fn law_ticks_go_step_by_step(state: StateView, config: Seq<char>, reason: String)
    ensures
        state.tick(config, TickEvent::Workflow(None)).1 is CheckConfig,
        state.tick(config, TickEvent::Config(Ok(()))).1 is BuildTracker,
        state.tick(config, TickEvent::Tracker(Ok(()))).1 is FetchCandidates
            <==> state.validated_startup_config == Some(config),
        state.tick(config, TickEvent::Tracker(Ok(()))).1 is ValidateStartup
            <==> state.validated_startup_config != Some(config),
        state.tick(config, TickEvent::Validated(Ok(()))).1 is FetchCandidates,
        state.tick(config, TickEvent::Validated(Ok(()))).0.validated_startup_config == Some(
            config,
        ),
        state.tick(config, TickEvent::Validated(Err(reason))).0.validated_startup_config
            == state.validated_startup_config,
        state.tick(config, TickEvent::Workflow(Some(reason))).1 == TickView::Finish(
            Some(reason@),
        ),
        state.tick(config, TickEvent::Config(Err(reason))).1 == TickView::Finish(Some(reason@)),
        state.tick(config, TickEvent::Tracker(Err(reason))).1 == TickView::Finish(Some(reason@)),
        state.tick(config, TickEvent::Validated(Err(reason))).1 == TickView::Finish(
            Some(reason@),
        ),
        state.tick(config, TickEvent::Candidates(Err(reason))).1 == TickView::Finish(
            Some(reason@),
        ),
{
}

/// A tick dispatches the tasks that were fetched, all of them and no others, and changes
/// nothing that is known of tasks.
pub proof fn law_ticks_dispatch_what_was_fetched(
    state: StateView,
    config: Seq<char>,
    event: TickEvent,
)
    ensures
        event matches TickEvent::Candidates(Ok(issues)) ==> (state.tick(
            config,
            event,
        ).1 matches TickView::Dispatch(queue) && queue.to_multiset() == views_of(
            issues@,
        ).to_multiset()),
        state.tick(config, event).1 is Dispatch ==> event is Candidates,
        state.tick(config, event).0.running == state.running,
        state.tick(config, event).0.claimed == state.claimed,
        state.tick(config, event).0.retry_attempts == state.retry_attempts,
{
    if let TickEvent::Candidates(Ok(issues)) = event {
        law_ranked_is_a_permutation::<Issue>(views_of(issues@));
    }
}

/// States are the same where their names differ in case or in surrounding whitespace only.
pub proof fn law_state_names_ignore_case(a: Seq<char>, b: Seq<char>)
    requires
        trimmed(a).len() == trimmed(b).len(),
        forall|i: int|
            0 <= i < trimmed(a).len() ==> #[trigger] trimmed(a)[i] == trimmed(b)[i] || is_case_pair(
                trimmed(a)[i],
                trimmed(b)[i],
            ) || is_case_pair(trimmed(b)[i], trimmed(a)[i]),
    ensures
        state_name(a) == state_name(b),
{
    assert(state_name(a) =~= state_name(b));
}

/// Whether the first is an ASCII capital and the second its small letter.
pub open spec fn is_case_pair(capital: char, small: char) -> bool {
    'A' <= capital && capital <= 'Z' && small as u32 == capital as u32 + 32
}

} // verus!
