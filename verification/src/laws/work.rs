//! How a worker is started, goes on from turn to turn and ends.
use vstd::prelude::*;

use crate::codex::CodexErrorView;
use crate::issue::IssueView;
use crate::json::JsonView;
use crate::prompt::{guidance, issue_prompt};
use crate::text::{decimal, joined, lowered, trimmed};
use crate::worker::{
    candidates, close_succeeded, distinct_hosts, host_name, hosts_but, preference, DispositionView,
    FailoverView, RunView, WorkerErrorKind, WorkerErrorStage, WorkerErrorView,
};
use crate::worker_flow::{
    before_run_tried, fetched_again, first_fetched, observed, session_tried, started, template_read,
    tracker_refreshed, turn_ended, worker_follows, workspace_removed, workspace_tried, EndingView,
    StartingView, WorkerEventView, WorkerFlowView,
};

verus! {

broadcast use vstd::seq::group_seq_axioms;

/// Whether a state is among these, whatever the case of its name.
pub open spec fn is_in(states: Seq<Seq<char>>, issue: IssueView) -> bool {
    states.contains(lowered(trimmed(issue.state)))
}

/// Whether a worker is ended with this failure once its session is stopped.
pub open spec fn ends_with(
    flow: WorkerFlowView,
    worker_host: Option<Seq<char>>,
    stage: WorkerErrorStage,
    kind: WorkerErrorKind,
    message: Seq<char>,
) -> bool {
    flow == WorkerFlowView::StopSession(
        EndingView {
            outcome: Err(WorkerErrorView { stage, kind, worker_host, message }),
            worker_host,
        },
    )
}

/// Whether a worker runs another turn on a task, where it may, or else ends: because its
/// turns are used up, and the task is taken up again, or because it was cancelled.
pub open spec fn runs_on(
    flow: WorkerFlowView,
    run: RunView,
    issue: IssueView,
    cancelled: bool,
) -> bool {
    if run.turn_number >= run.max_turns {
        flow == WorkerFlowView::StopSession(
            EndingView {
                outcome: Ok((DispositionView::Continue { issue }, false)),
                worker_host: run.worker_host,
            },
        )
    } else if cancelled {
        ends_with(
            flow,
            run.worker_host,
            WorkerErrorStage::TurnRun,
            WorkerErrorKind::Cancellation,
            "cancelled by orchestrator"@,
        )
    } else {
        flow == WorkerFlowView::ReadTemplate(
            RunView {
                current_issue: issue,
                turn_number: run.turn_number + 1,
                max_turns: run.max_turns,
                guarded_close_observed: run.guarded_close_observed,
                terminal_states: run.terminal_states,
                worker_host: run.worker_host,
            },
        )
    }
}

/// After a turn, a worker goes on with its task exactly as long as the task is active.
/// Otherwise it ends, and its workspace is removed exactly where it was seen to close the
/// task and the task is in a terminal state or gone.
pub proof fn law_workers_follow_their_task(
    run: RunView,
    fetched: Result<Seq<IssueView>, Seq<char>>,
    active_states: Seq<Seq<char>>,
    cancelled: bool,
)
    ensures
        ({
            let flow = fetched_again(run, fetched, active_states, cancelled);
            match fetched {
                Err(reason) => ends_with(
                    flow,
                    run.worker_host,
                    WorkerErrorStage::StateRefresh,
                    WorkerErrorKind::TrackerFailure,
                    reason,
                ),
                Ok(issues) => if issues.len() == 0 && run.guarded_close_observed {
                    flow == WorkerFlowView::StopSession(
                        EndingView {
                            outcome: Ok((DispositionView::Quiesced { issue: None }, true)),
                            worker_host: run.worker_host,
                        },
                    )
                } else {
                    let issue = if issues.len() > 0 {
                        issues[0]
                    } else {
                        run.current_issue
                    };
                    if is_in(active_states, issue) {
                        runs_on(flow, run, issue, cancelled)
                    } else {
                        flow == WorkerFlowView::StopSession(
                            EndingView {
                                outcome: Ok(
                                    (
                                        DispositionView::Quiesced { issue: Some(issue) },
                                        run.guarded_close_observed && is_in(
                                            run.terminal_states,
                                            issue,
                                        ),
                                    ),
                                ),
                                worker_host: run.worker_host,
                            },
                        )
                    }
                },
            }
        }),
{
}

/// The first turn is on the task as the tracker has it, or, where the tracker does not
/// return it, as it was handed over.
pub proof fn law_workers_begin_with_their_task(
    worker_host: Option<Seq<char>>,
    issue: IssueView,
    fetched: Result<Seq<IssueView>, Seq<char>>,
    max_turns: nat,
    terminal_states: Seq<Seq<char>>,
    cancelled: bool,
)
    ensures
        ({
            let flow = first_fetched(
                worker_host,
                issue,
                fetched,
                max_turns,
                terminal_states,
                cancelled,
            );
            match fetched {
                Err(reason) => ends_with(
                    flow,
                    worker_host,
                    WorkerErrorStage::StateRefresh,
                    WorkerErrorKind::TrackerFailure,
                    reason,
                ),
                Ok(issues) => {
                    let first = if issues.len() > 0 {
                        issues[0]
                    } else {
                        issue
                    };
                    runs_on(
                        flow,
                        RunView {
                            current_issue: first,
                            turn_number: 0,
                            max_turns,
                            guarded_close_observed: false,
                            terminal_states,
                            worker_host,
                        },
                        first,
                        cancelled,
                    )
                },
            }
        }),
{
}

/// The first turn is told the task, every later one how far the worker is. A prompt that
/// cannot be made ends the worker.
pub proof fn law_turns_are_told_what_to_do(
    run: RunView,
    template: Seq<char>,
    attempt: Option<u32>,
)
    ensures
        run.turn_number != 1 ==> template_read(run, template, attempt) == (
        WorkerFlowView::RunTurn {
            run,
            prompt: "Continuation guidance:\n\n- The previous Codex turn completed normally, but the Todoist task is still in an active state.\n- This is continuation turn #"@
                + decimal(run.turn_number) + " of "@ + decimal(run.max_turns)
                + " for the current agent run.\n- Resume from the current workspace and thread state instead of restarting from scratch.\n- The original task instructions are already in the thread history, so do not restate them before acting.\n- Focus on the remaining task work and do not end the turn while the task stays active unless you are truly blocked."@,
        }),
        run.turn_number == 1 ==> match issue_prompt(template, run.current_issue, attempt) {
            Ok((told, _)) => template_read(run, template, attempt) == (WorkerFlowView::RunTurn {
                run,
                prompt: told,
            }),
            Err(error) => ends_with(
                template_read(run, template, attempt),
                run.worker_host,
                WorkerErrorStage::TurnRun,
                WorkerErrorKind::TurnFailure,
                error.shown(),
            ),
        },
{
}

/// A turn that fails ends the worker, with what the agent reports; after one that does
/// not the tracker is asked again.
pub proof fn law_failed_turns_end_the_worker(
    run: RunView,
    turn: Result<(), CodexErrorView>,
    tracker: Result<(), Seq<char>>,
)
    ensures
        match turn {
            Ok(()) => turn_ended(run, turn) == WorkerFlowView::RefreshTracker(run),
            Err(error) => ends_with(
                turn_ended(run, turn),
                run.worker_host,
                WorkerErrorStage::TurnRun,
                match error {
                    CodexErrorView::ApprovalRequired(_) => WorkerErrorKind::ApprovalRequired,
                    CodexErrorView::TurnInputRequired(_) => WorkerErrorKind::InputRequired,
                    CodexErrorView::TurnCancelled(_) => WorkerErrorKind::Cancellation,
                    _ => WorkerErrorKind::TurnFailure,
                },
                error.shown(),
            ),
        },
        match tracker {
            Ok(()) => tracker_refreshed(run, tracker) == WorkerFlowView::FetchAgain(run),
            Err(reason) => ends_with(
                tracker_refreshed(run, tracker),
                run.worker_host,
                WorkerErrorStage::TrackerBuild,
                WorkerErrorKind::TrackerFailure,
                reason,
            ),
        },
{
}

/// Whether a start is given up on this host, and goes on to the next candidate where there
/// is one.
pub open spec fn moves_on(
    flow: WorkerFlowView,
    starting: StartingView,
    error: WorkerErrorView,
) -> bool {
    let tried = starting.failover.failures.len() + 1;
    let all = starting.failover.candidates;
    if tried < all.len() {
        flow == WorkerFlowView::CreateWorkspace(
            StartingView {
                failover: FailoverView {
                    candidates: all,
                    failures: starting.failover.failures.push(error),
                },
                worker_host: all[tried as int],
            },
        )
    } else {
        flow matches WorkerFlowView::Done(Err(last)) && is_exhausted(
            last,
            starting.failover.failures.push(error),
        )
    }
}

/// Whether an error says that no host could be used, and why each could not.
pub open spec fn is_exhausted(error: WorkerErrorView, failures: Seq<WorkerErrorView>) -> bool {
    &&& error.stage == WorkerErrorStage::Startup
    &&& error.kind == WorkerErrorKind::StartupFailoverExhausted
    &&& failures.len() > 0 ==> error.worker_host == failures.last().worker_host
    &&& error.message == ({
        let reasons = joined(
            failures.map_values(
                |failure: WorkerErrorView|
                    "worker_stage="@ + failure.stage.name() + " worker_kind="@
                        + failure.kind.name() + " worker_host="@ + host_name(failure.worker_host)
                        + " "@ + failure.message,
            ),
            "; "@,
        );
        if reasons.len() == 0 {
            "all worker startup attempts failed"@
        } else {
            "all worker startup attempts failed: "@ + reasons
        }
    })
}

/// A worker is started in three steps, each on the host that is tried: its workspace, the
/// hook before a run, and the session. Where one fails the next candidate is tried, and
/// where the workspace stood already, the hook after a run comes first.
pub proof fn law_starts_fail_over(
    starting: StartingView,
    reason: Seq<char>,
    error: CodexErrorView,
    tidied: Result<(), Seq<char>>,
)
    ensures
        workspace_tried(starting, Ok::<(), Seq<char>>(())) == WorkerFlowView::RunBeforeRun(
            starting,
        ),
        before_run_tried(starting, Ok::<(), Seq<char>>(())) == WorkerFlowView::StartSession(
            starting,
        ),
        session_tried(starting, Ok::<(), CodexErrorView>(())) == (WorkerFlowView::FetchTask {
            worker_host: starting.worker_host,
        }),
        moves_on(
            workspace_tried(starting, Err::<(), Seq<char>>(reason)),
            starting,
            WorkerErrorView {
                stage: WorkerErrorStage::WorkspaceCreate,
                kind: WorkerErrorKind::WorkspaceFailure,
                worker_host: starting.worker_host,
                message: reason,
            },
        ),
        ({
            let failure = WorkerErrorView {
                stage: WorkerErrorStage::BeforeRun,
                kind: WorkerErrorKind::HookFailure,
                worker_host: starting.worker_host,
                message: reason,
            };
            let flow = before_run_tried(starting, Err::<(), Seq<char>>(reason));
            &&& flow == (WorkerFlowView::AbandonStart { starting, error: failure })
            &&& worker_follows(flow, WorkerEventView::Done(tidied)) is Some
            &&& moves_on(
                worker_follows(flow, WorkerEventView::Done(tidied))->0,
                starting,
                failure,
            )
        }),
        ({
            let failure = WorkerErrorView {
                stage: WorkerErrorStage::SessionStart,
                kind: match error {
                    CodexErrorView::ApprovalRequired(_) => WorkerErrorKind::ApprovalRequired,
                    CodexErrorView::TurnInputRequired(_) => WorkerErrorKind::InputRequired,
                    CodexErrorView::TurnCancelled(_) => WorkerErrorKind::Cancellation,
                    CodexErrorView::TurnFailed(_) => WorkerErrorKind::TurnFailure,
                    _ => WorkerErrorKind::SessionFailure,
                },
                worker_host: starting.worker_host,
                message: error.shown(),
            };
            let flow = session_tried(starting, Err::<(), CodexErrorView>(error));
            &&& flow == (WorkerFlowView::AbandonStart { starting, error: failure })
            &&& worker_follows(flow, WorkerEventView::Done(tidied)) is Some
            &&& moves_on(
                worker_follows(flow, WorkerEventView::Done(tidied))->0,
                starting,
                failure,
            )
        }),
{
    let a = crate::worker::workspace_error(
        WorkerErrorStage::WorkspaceCreate,
        starting.worker_host,
        reason,
    );
    let b = crate::worker::workspace_error(
        WorkerErrorStage::BeforeRun,
        starting.worker_host,
        reason,
    );
    let c = crate::worker::codex_failure(
        WorkerErrorStage::SessionStart,
        starting.worker_host,
        error,
    );
    lemma_exhausted(starting.failover.failures.push(a));
    lemma_exhausted(starting.failover.failures.push(b));
    lemma_exhausted(starting.failover.failures.push(c));
}

proof fn lemma_exhausted(failures: Seq<WorkerErrorView>)
    ensures
        is_exhausted(WorkerErrorView::exhausted(failures), failures),
{
    assert(crate::worker::all_shown(failures) =~= failures.map_values(
        |failure: WorkerErrorView|
            "worker_stage="@ + failure.stage.name() + " worker_kind="@ + failure.kind.name()
                + " worker_host="@ + host_name(failure.worker_host) + " "@ + failure.message,
    ));
}

/// The first host that is tried is the preferred one, or else the first that is
/// configured, or else this machine. A tracker that cannot be built ends the worker before
/// any is tried.
pub proof fn law_workers_start_where_preferred(
    ssh_hosts: Seq<Seq<char>>,
    preferred: Option<Seq<char>>,
    reason: Seq<char>,
)
    ensures
        started(Err::<(), Seq<char>>(reason), ssh_hosts, preferred) == WorkerFlowView::Done(
            Err(
                WorkerErrorView {
                    stage: WorkerErrorStage::TrackerBuild,
                    kind: WorkerErrorKind::TrackerFailure,
                    worker_host: None,
                    message: reason,
                },
            ),
        ),
        match started(Ok::<(), Seq<char>>(()), ssh_hosts, preferred) {
            WorkerFlowView::CreateWorkspace(starting) => {
                &&& starting.failover.candidates == candidates(ssh_hosts, preferred)
                &&& starting.failover.failures.len() == 0
                &&& starting.worker_host == candidates(ssh_hosts, preferred)[0]
            },
            _ => false,
        },
{
    crate::worker::law_candidates_are_distinct(ssh_hosts, preferred);
}

proof fn lemma_distinct_members(hosts: Seq<Seq<char>>, host: Seq<char>)
    ensures
        distinct_hosts(hosts).contains(host) <==> host.len() > 0 && exists|i: int|
            0 <= i < hosts.len() && trimmed(#[trigger] hosts[i]) == host,
    decreases hosts.len(),
{
    if hosts.len() > 0 {
        let n = hosts.len() - 1;
        let front = hosts.drop_last();
        let earlier = distinct_hosts(front);
        let all = distinct_hosts(hosts);
        lemma_distinct_members(front, host);
        assert(hosts[n] == hosts.last());
        let last = trimmed(hosts.last());
        lemma_distinct_members(front, last);
        if all.contains(host) {
            let k = choose|k: int| 0 <= k < all.len() && all[k] == host;
            if k < earlier.len() {
                assert(earlier[k] == host);
                let i = choose|i: int| 0 <= i < front.len() && trimmed(#[trigger] front[i]) == host;
                assert(trimmed(hosts[i]) == host);
            } else {
                assert(trimmed(hosts[n]) == host);
            }
        }
        if host.len() > 0 && exists|i: int|
            0 <= i < hosts.len() && trimmed(#[trigger] hosts[i]) == host {
            let i = choose|i: int| 0 <= i < hosts.len() && trimmed(#[trigger] hosts[i]) == host;
            if i < n {
                assert(trimmed(front[i]) == host);
                let k = choose|k: int| 0 <= k < earlier.len() && earlier[k] == host;
                assert(all[k] == host);
            } else if !earlier.contains(host) {
                assert(all[earlier.len() as int] == host);
            } else {
                assert(all == earlier);
            }
        }
    }
}

proof fn lemma_other_members(hosts: Seq<Seq<char>>, host: Seq<char>, other: Option<Seq<char>>)
    ensures
        hosts_but(hosts, host).contains(other) <==> other is Some && other != Some(host)
            && hosts.contains(other->0),
    decreases hosts.len(),
{
    if hosts.len() > 0 {
        let n = hosts.len() - 1;
        let front = hosts.drop_last();
        let earlier = hosts_but(front, host);
        let all = hosts_but(hosts, host);
        lemma_other_members(front, host, other);
        assert(hosts[n] == hosts.last());
        if all.contains(other) {
            let k = choose|k: int| 0 <= k < all.len() && all[k] == other;
            if k < earlier.len() {
                assert(earlier[k] == other);
                let i = choose|i: int| 0 <= i < front.len() && front[i] == other->0;
                assert(hosts[i] == other->0);
            } else {
                assert(hosts[n] == other->0);
            }
        }
        if other is Some && other != Some(host) && hosts.contains(other->0) {
            let i = choose|i: int| 0 <= i < hosts.len() && hosts[i] == other->0;
            if i < n {
                assert(front[i] == other->0);
                let k = choose|k: int| 0 <= k < earlier.len() && earlier[k] == other;
                assert(all[k] == other);
            } else {
                assert(all[earlier.len() as int] == other);
            }
        }
    }
}

/// The hosts that may be tried are the preferred one and those that are configured, and
/// no others: this machine is tried only where there are none.
pub proof fn law_every_host_is_a_candidate(
    hosts: Seq<Seq<char>>,
    preferred: Option<Seq<char>>,
    host: Seq<char>,
)
    ensures
        candidates(hosts, preferred).contains(Some(host)) <==> host.len() > 0 && ((preferred is Some
            && trimmed(preferred->0) == host) || exists|i: int|
            0 <= i < hosts.len() && trimmed(#[trigger] hosts[i]) == host),
        candidates(hosts, preferred).contains(None::<Seq<char>>) <==> (preferred is None || trimmed(
            preferred->0,
        ).len() == 0) && forall|i: int|
            0 <= i < hosts.len() ==> trimmed(#[trigger] hosts[i]).len() == 0,
{
    let all = distinct_hosts(hosts);
    let listed = candidates(hosts, preferred);
    lemma_distinct_members(hosts, host);
    assert forall|i: int| 0 <= i < hosts.len() && trimmed(#[trigger] hosts[i]).len()
        > 0 implies all.len() > 0 by {
        lemma_distinct_members(hosts, trimmed(hosts[i]));
    }
    if all.len() > 0 {
        lemma_distinct_members(hosts, all[0]);
        assert(all.contains(all[0]));
    }
    match preference(preferred) {
        Some(first) => {
            lemma_other_members(all, first, Some(host));
            lemma_other_members(all, first, None);
            let rest = hosts_but(all, first);
            assert(listed[0] == Some(first));
            assert(forall|k: int| 0 <= k < rest.len() ==> listed[k + 1] == #[trigger] rest[k]);
            assert(forall|k: int| 1 <= k < listed.len() ==> #[trigger] listed[k] == rest[k - 1]);
            if rest.contains(Some(host)) {
                let k = choose|k: int| 0 <= k < rest.len() && rest[k] == Some(host);
                assert(listed[k + 1] == Some(host));
            }
            if listed.contains(None::<Seq<char>>) {
                let k = choose|k: int| 0 <= k < listed.len() && listed[k] == None::<Seq<char>>;
                assert(rest[k - 1] == None::<Seq<char>>);
            }
        },
        None => {
            if all.len() == 0 {
                assert(listed[0] == None::<Seq<char>>);
            } else {
                if all.contains(host) {
                    let k = choose|k: int| 0 <= k < all.len() && all[k] == host;
                    assert(listed[k] == Some(host));
                }
            }
        },
    }
}

/// However a worker ends, its session is stopped and the hook after a run is run; its
/// workspace is removed only where that was decided, and how the worker ended is what it
/// reports, unless the removal fails.
pub proof fn law_ends_are_tidied_up(ending: EndingView, any: Result<(), Seq<char>>)
    ensures
        worker_follows(WorkerFlowView::StopSession(ending), WorkerEventView::Done(any)) == Some(
            WorkerFlowView::RunAfterRun(ending),
        ),
        worker_follows(WorkerFlowView::RunAfterRun(ending), WorkerEventView::Done(any)) == Some(
            match ending.outcome {
                Ok((disposition, true)) => WorkerFlowView::RemoveWorkspace {
                    disposition,
                    worker_host: ending.worker_host,
                },
                Ok((disposition, false)) => WorkerFlowView::Done(Ok(disposition)),
                Err(error) => WorkerFlowView::Done(Err(error)),
            },
        ),
        ending.outcome matches Ok((disposition, _)) ==> workspace_removed(
            disposition,
            ending.worker_host,
            any,
        ) == match any {
            Ok(()) => WorkerFlowView::Done(Ok(disposition)),
            Err(reason) => WorkerFlowView::Done(
                Err(
                    WorkerErrorView {
                        stage: WorkerErrorStage::Cleanup,
                        kind: WorkerErrorKind::WorkspaceFailure,
                        worker_host: ending.worker_host,
                        message: reason,
                    },
                ),
            ),
        },
{
}

/// A task counts as closed by its worker only where a call of the tool for tasks, named in
/// full, has succeeded in closing that task.
pub proof fn law_closing_calls_name_the_task(payload: JsonView, issue_id: Seq<char>)
    ensures
        close_succeeded(Some(payload), issue_id) <==> {
            &&& payload.get("toolResult"@) matches Some(result) && result.get("success"@) == Some(
                JsonView::Bool(true),
            )
            &&& payload.get("params"@) matches Some(params) && (params.get("tool"@) == Some(
                JsonView::Text("todoist"@),
            ) || (params.get("tool"@) is None && params.get("name"@) == Some(
                JsonView::Text("todoist"@),
            ))) && (params.get("arguments"@) matches Some(arguments) && arguments.get("action"@)
                == Some(JsonView::Text("close_task"@)) && match arguments.get("task_id"@) {
                Some(JsonView::Text(id)) => id == issue_id,
                Some(JsonView::Number(n)) => n.written() == issue_id,
                _ => false,
            })
        },
        !close_succeeded(None, issue_id),
{
}

/// What a worker has seen of a close is never forgotten, and is only seen in a payload.
pub proof fn law_closes_are_remembered(run: RunView, payloads: Seq<Option<JsonView>>)
    ensures
        observed(run, payloads).guarded_close_observed <==> run.guarded_close_observed || exists|
            i: int,
        |
            0 <= i < payloads.len() && close_succeeded(
                #[trigger] payloads[i],
                run.current_issue.id,
            ),
        observed(run, payloads).current_issue == run.current_issue,
        observed(run, payloads).turn_number == run.turn_number,
        observed(run, payloads).max_turns == run.max_turns,
        observed(run, payloads).terminal_states == run.terminal_states,
        observed(run, payloads).worker_host == run.worker_host,
{
}

/// Stages and kinds of failure go by these names.
pub proof fn law_failures_have_names()
    ensures
        WorkerErrorStage::Startup.name() == "startup"@,
        WorkerErrorStage::WorkspaceCreate.name() == "workspace_create"@,
        WorkerErrorStage::BeforeRun.name() == "before_run"@,
        WorkerErrorStage::TrackerBuild.name() == "tracker_build"@,
        WorkerErrorStage::SessionStart.name() == "session_start"@,
        WorkerErrorStage::TurnRun.name() == "turn_run"@,
        WorkerErrorStage::StateRefresh.name() == "state_refresh"@,
        WorkerErrorStage::Cleanup.name() == "cleanup"@,
        WorkerErrorKind::StartupFailoverExhausted.name() == "startup_failover_exhausted"@,
        WorkerErrorKind::WorkspaceFailure.name() == "workspace_failure"@,
        WorkerErrorKind::HookFailure.name() == "hook_failure"@,
        WorkerErrorKind::TrackerFailure.name() == "tracker_failure"@,
        WorkerErrorKind::SessionFailure.name() == "session_failure"@,
        WorkerErrorKind::TurnFailure.name() == "turn_failure"@,
        WorkerErrorKind::ApprovalRequired.name() == "approval_required"@,
        WorkerErrorKind::InputRequired.name() == "input_required"@,
        WorkerErrorKind::Cancellation.name() == "cancellation"@,
        host_name(None) == "local"@,
{
}

} // verus!
