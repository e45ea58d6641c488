//! A worker from its start to its end. Each step says what the caller does next; the
//! caller does it and hands back what came of it.
use vstd::prelude::*;
use vstd::string::*;

use crate::codex::{CodexError, CodexErrorView};
use crate::issue::{Issue, IssueView};
use crate::json::JsonView;
use crate::text::{clone_opt, opt_text, texts};
use crate::worker::{
    candidate_worker_hosts, candidates, close_succeeded, codex_failure, codex_worker_error,
    fetched_view, finish_worker, tracker_failure, tracker_worker_error, worker_result,
    workspace_error, workspace_worker_error, DispositionView, FailoverStep, FailoverStepView,
    FailoverView, RunView, StartupFailover, WorkerDisposition, WorkerError, WorkerErrorStage,
    WorkerErrorView, WorkerRun, WorkerStep, WorkerStepView,
};

verus! {

broadcast use {vstd::seq::group_seq_axioms, vstd::string::group_string_axioms};

/// A worker that is started on a host.
#[derive(Debug)]
pub struct Starting {
    pub failover: StartupFailover,
    pub worker_host: Option<String>,
}

/// A worker that is started on a host.
pub struct StartingView {
    pub failover: FailoverView,
    pub worker_host: Option<Seq<char>>,
}

impl View for Starting {
    type V = StartingView;

    open spec fn view(&self) -> StartingView {
        StartingView { failover: self.failover@, worker_host: opt_text(self.worker_host) }
    }
}

/// A worker whose turns are over: what it hands back, and, where it has ended well,
/// whether its workspace is removed.
#[derive(Debug)]
pub struct Ending {
    pub outcome: Result<(WorkerDisposition, bool), WorkerError>,
    pub worker_host: Option<String>,
}

/// A worker whose turns are over.
pub struct EndingView {
    pub outcome: Result<(DispositionView, bool), WorkerErrorView>,
    pub worker_host: Option<Seq<char>>,
}

impl View for Ending {
    type V = EndingView;

    open spec fn view(&self) -> EndingView {
        EndingView {
            outcome: match self.outcome {
                Ok((disposition, cleanup)) => Ok((disposition@, cleanup)),
                Err(error) => Err(error@),
            },
            worker_host: opt_text(self.worker_host),
        }
    }
}

/// What a worker does next.
#[derive(Debug)]
pub enum WorkerFlow {
    /// Create the workspace on the host, and go on with [`on_workspace`].
    CreateWorkspace(Starting),
    /// Run the hook before a run, and go on with [`on_before_run`].
    RunBeforeRun(Starting),
    /// Start the session, and go on with [`on_session`].
    StartSession(Starting),
    /// Run the hook after a run, since the start has failed, and go on with
    /// [`on_failed_start`].
    AbandonStart { starting: Starting, error: WorkerError },
    /// The worker runs on this host. Fetch the task, and go on with [`on_first_fetch`].
    FetchTask { worker_host: Option<String> },
    /// A turn comes next: read the template of the prompt, and go on with [`on_template`].
    ReadTemplate(WorkerRun),
    /// Run a turn with this prompt, let the run observe its events, and go on with
    /// [`on_turn`].
    RunTurn { run: WorkerRun, prompt: String },
    /// Build the tracker anew where the configuration has changed, and go on with
    /// [`on_tracker`].
    RefreshTracker(WorkerRun),
    /// Fetch the task, and go on with [`on_fetch`].
    FetchAgain(WorkerRun),
    /// Stop the session, and go on with [`on_stopped`].
    StopSession(Ending),
    /// Run the hook after a run, and go on with [`on_after_run`].
    RunAfterRun(Ending),
    /// Remove the workspace, and go on with [`on_removed`].
    RemoveWorkspace { disposition: WorkerDisposition, worker_host: Option<String> },
    /// The worker has ended.
    Done(Result<WorkerDisposition, WorkerError>),
}

/// What a worker does next.
pub enum WorkerFlowView {
    CreateWorkspace(StartingView),
    RunBeforeRun(StartingView),
    StartSession(StartingView),
    AbandonStart { starting: StartingView, error: WorkerErrorView },
    FetchTask { worker_host: Option<Seq<char>> },
    ReadTemplate(RunView),
    RunTurn { run: RunView, prompt: Seq<char> },
    RefreshTracker(RunView),
    FetchAgain(RunView),
    StopSession(EndingView),
    RunAfterRun(EndingView),
    RemoveWorkspace { disposition: DispositionView, worker_host: Option<Seq<char>> },
    Done(Result<DispositionView, WorkerErrorView>),
}

impl View for WorkerFlow {
    type V = WorkerFlowView;

    open spec fn view(&self) -> WorkerFlowView {
        match self {
            WorkerFlow::CreateWorkspace(starting) => WorkerFlowView::CreateWorkspace(starting@),
            WorkerFlow::RunBeforeRun(starting) => WorkerFlowView::RunBeforeRun(starting@),
            WorkerFlow::StartSession(starting) => WorkerFlowView::StartSession(starting@),
            WorkerFlow::AbandonStart { starting, error } => WorkerFlowView::AbandonStart {
                starting: starting@,
                error: error@,
            },
            WorkerFlow::FetchTask { worker_host } => WorkerFlowView::FetchTask {
                worker_host: opt_text(*worker_host),
            },
            WorkerFlow::ReadTemplate(run) => WorkerFlowView::ReadTemplate(run@),
            WorkerFlow::RunTurn { run, prompt } => WorkerFlowView::RunTurn {
                run: run@,
                prompt: prompt@,
            },
            WorkerFlow::RefreshTracker(run) => WorkerFlowView::RefreshTracker(run@),
            WorkerFlow::FetchAgain(run) => WorkerFlowView::FetchAgain(run@),
            WorkerFlow::StopSession(ending) => WorkerFlowView::StopSession(ending@),
            WorkerFlow::RunAfterRun(ending) => WorkerFlowView::RunAfterRun(ending@),
            WorkerFlow::RemoveWorkspace { disposition, worker_host } => {
                WorkerFlowView::RemoveWorkspace {
                    disposition: disposition@,
                    worker_host: opt_text(*worker_host),
                }
            },
            WorkerFlow::Done(result) => WorkerFlowView::Done(worker_result(*result)),
        }
    }
}

// ---------------------------------------------------------------------------
// Starting
// ---------------------------------------------------------------------------

/// What comes of a choice of a host.
pub open spec fn trying(failover: FailoverView, step: FailoverStepView) -> WorkerFlowView {
    match step {
        FailoverStepView::Try(worker_host) => WorkerFlowView::CreateWorkspace(
            StartingView { failover, worker_host },
        ),
        FailoverStepView::GiveUp(error) => WorkerFlowView::Done(Err(error)),
    }
}

/// How a worker starts: on the first of its hosts, once there is a tracker.
pub open spec fn started(
    tracker: Result<(), Seq<char>>,
    ssh_hosts: Seq<Seq<char>>,
    preferred: Option<Seq<char>>,
) -> WorkerFlowView {
    match tracker {
        Err(reason) => WorkerFlowView::Done(
            Err(tracker_failure(WorkerErrorStage::TrackerBuild, None, reason)),
        ),
        Ok(()) => {
            let failover = FailoverView {
                candidates: candidates(ssh_hosts, preferred),
                failures: Seq::empty(),
            };
            trying(failover, failover.first())
        },
    }
}

/// What an operation without a result has come to.
pub open spec fn done_view(r: Result<(), String>) -> Result<(), Seq<char>> {
    match r {
        Ok(()) => Ok(()),
        Err(reason) => Err(reason@),
    }
}

/// Starts a worker, once the tracker has been built or could not be.
pub fn start(
    tracker: Result<(), String>,
    ssh_hosts: &Vec<String>,
    preferred_worker_host: &Option<String>,
) -> (r: WorkerFlow)
    ensures
        r@ == started(done_view(tracker), texts(ssh_hosts@), opt_text(*preferred_worker_host)),
{
    match tracker {
        Err(reason) => WorkerFlow::Done(
            Err(tracker_worker_error(WorkerErrorStage::TrackerBuild, None, reason)),
        ),
        Ok(()) => {
            let hosts: Vec<Option<String>> = candidate_worker_hosts(
                ssh_hosts,
                preferred_worker_host,
            );
            let (failover, step) = StartupFailover::new(hosts).first();
            match step {
                FailoverStep::Try(worker_host) => WorkerFlow::CreateWorkspace(
                    Starting { failover, worker_host },
                ),
                FailoverStep::GiveUp(error) => WorkerFlow::Done(Err(error)),
            }
        },
    }
}

/// What comes after the start on a host has failed: another host, or the end.
pub open spec fn start_failed(starting: StartingView, error: WorkerErrorView) -> WorkerFlowView {
    trying(starting.failover.with_failure(error), starting.failover.after(error))
}

/// Goes on after the start on a host has failed and all is tidied up there.
pub fn on_failed_start(starting: Starting, error: WorkerError) -> (r: WorkerFlow)
    ensures
        r@ == start_failed(starting@, error@),
{
    match starting.failover.failed(error) {
        (Some(failover), FailoverStep::Try(worker_host)) => WorkerFlow::CreateWorkspace(
            Starting { failover, worker_host },
        ),
        (_, FailoverStep::GiveUp(error)) => WorkerFlow::Done(Err(error)),
        (None, FailoverStep::Try(_)) => vstd::pervasive::unreached(),
    }
}

/// What comes after the workspace has been created, or could not be.
pub open spec fn workspace_tried(
    starting: StartingView,
    created: Result<(), Seq<char>>,
) -> WorkerFlowView {
    match created {
        Ok(()) => WorkerFlowView::RunBeforeRun(starting),
        Err(reason) => start_failed(
            starting,
            workspace_error(WorkerErrorStage::WorkspaceCreate, starting.worker_host, reason),
        ),
    }
}

/// Goes on after the workspace has been created, or could not be.
pub fn on_workspace(starting: Starting, created: Result<(), String>) -> (r: WorkerFlow)
    ensures
        r@ == workspace_tried(starting@, done_view(created)),
{
    match created {
        Ok(()) => WorkerFlow::RunBeforeRun(starting),
        Err(reason) => {
            let error: WorkerError = workspace_worker_error(
                WorkerErrorStage::WorkspaceCreate,
                clone_opt(&starting.worker_host),
                reason,
            );
            on_failed_start(starting, error)
        },
    }
}

/// What comes after the hook before a run.
pub open spec fn before_run_tried(
    starting: StartingView,
    ran: Result<(), Seq<char>>,
) -> WorkerFlowView {
    match ran {
        Ok(()) => WorkerFlowView::StartSession(starting),
        Err(reason) => WorkerFlowView::AbandonStart {
            starting,
            error: workspace_error(WorkerErrorStage::BeforeRun, starting.worker_host, reason),
        },
    }
}

/// Goes on after the hook before a run.
pub fn on_before_run(starting: Starting, ran: Result<(), String>) -> (r: WorkerFlow)
    ensures
        r@ == before_run_tried(starting@, done_view(ran)),
{
    match ran {
        Ok(()) => WorkerFlow::StartSession(starting),
        Err(reason) => {
            let error: WorkerError = workspace_worker_error(
                WorkerErrorStage::BeforeRun,
                clone_opt(&starting.worker_host),
                reason,
            );
            WorkerFlow::AbandonStart { starting, error }
        },
    }
}

/// What the agent has come to.
pub open spec fn agent_view(r: Result<(), CodexError>) -> Result<(), CodexErrorView> {
    match r {
        Ok(()) => Ok(()),
        Err(error) => Err(error@),
    }
}

/// What comes after the session has been started, or could not be.
pub open spec fn session_tried(
    starting: StartingView,
    session: Result<(), CodexErrorView>,
) -> WorkerFlowView {
    match session {
        Ok(()) => WorkerFlowView::FetchTask { worker_host: starting.worker_host },
        Err(error) => WorkerFlowView::AbandonStart {
            starting,
            error: codex_failure(WorkerErrorStage::SessionStart, starting.worker_host, error),
        },
    }
}

/// Goes on after the session has been started, or could not be.
pub fn on_session(starting: Starting, session: Result<(), CodexError>) -> (r: WorkerFlow)
    ensures
        r@ == session_tried(starting@, agent_view(session)),
{
    match session {
        Ok(()) => WorkerFlow::FetchTask { worker_host: starting.worker_host },
        Err(error) => {
            let error: WorkerError = codex_worker_error(
                WorkerErrorStage::SessionStart,
                clone_opt(&starting.worker_host),
                &error,
            );
            WorkerFlow::AbandonStart { starting, error }
        },
    }
}

// ---------------------------------------------------------------------------
// Turns
// ---------------------------------------------------------------------------

/// The worker has failed: its session is stopped.
pub open spec fn failing(worker_host: Option<Seq<char>>, error: WorkerErrorView) -> WorkerFlowView {
    WorkerFlowView::StopSession(EndingView { outcome: Err(error), worker_host })
}

/// What a step between turns comes to.
pub open spec fn going_on(worker_host: Option<Seq<char>>, step: WorkerStepView) -> WorkerFlowView {
    match step {
        WorkerStepView::Turn(run) => WorkerFlowView::ReadTemplate(run),
        WorkerStepView::Finished { disposition, cleanup } => WorkerFlowView::StopSession(
            EndingView { outcome: Ok((disposition, cleanup)), worker_host },
        ),
        WorkerStepView::Failed(error) => failing(worker_host, error),
    }
}

fn fail(worker_host: Option<String>, error: WorkerError) -> (r: WorkerFlow)
    ensures
        r@ == failing(opt_text(worker_host), error@),
{
    WorkerFlow::StopSession(Ending { outcome: Err(error), worker_host })
}

fn go_on(worker_host: Option<String>, step: WorkerStep) -> (r: WorkerFlow)
    ensures
        r@ == going_on(opt_text(worker_host), step@),
{
    match step {
        WorkerStep::Turn(run) => WorkerFlow::ReadTemplate(run),
        WorkerStep::Finished { disposition, cleanup } => WorkerFlow::StopSession(
            Ending { outcome: Ok((disposition, cleanup)), worker_host },
        ),
        WorkerStep::Failed(error) => fail(worker_host, error),
    }
}

/// How the turns of a worker begin.
pub open spec fn first_fetched(
    worker_host: Option<Seq<char>>,
    issue: IssueView,
    fetched: Result<Seq<IssueView>, Seq<char>>,
    max_turns: nat,
    terminal_states: Seq<Seq<char>>,
    cancelled: bool,
) -> WorkerFlowView {
    match fetched {
        Err(reason) => failing(
            worker_host,
            tracker_failure(WorkerErrorStage::StateRefresh, worker_host, reason),
        ),
        Ok(issues) => {
            let run = RunView {
                current_issue: if issues.len() > 0 {
                    issues[0]
                } else {
                    issue
                },
                turn_number: 0,
                max_turns,
                guarded_close_observed: false,
                terminal_states,
                worker_host,
            };
            going_on(worker_host, run.next(cancelled))
        },
    }
}

/// Begins the turns of a worker, once its task has been fetched or could not be.
pub fn on_first_fetch(
    worker_host: Option<String>,
    issue: &Issue,
    fetched: Result<Vec<Issue>, String>,
    max_turns: usize,
    terminal_states: Vec<String>,
    cancelled: bool,
) -> (r: WorkerFlow)
    ensures
        r@ == first_fetched(
            opt_text(worker_host),
            issue@,
            fetched_view(fetched),
            max_turns as nat,
            texts(terminal_states@),
            cancelled,
        ),
{
    let host: Option<String> = clone_opt(&worker_host);
    match WorkerRun::begin(issue, fetched, max_turns, terminal_states, worker_host) {
        Err(error) => fail(host, error),
        Ok(run) => go_on(host, run.next_turn(cancelled)),
    }
}

/// What comes after the template of the prompt has been read.
pub open spec fn template_read(
    run: RunView,
    template: Seq<char>,
    attempt: Option<u32>,
) -> WorkerFlowView {
    match run.prompt(template, attempt) {
        Ok(prompt) => WorkerFlowView::RunTurn { run, prompt },
        Err(error) => failing(run.worker_host, error),
    }
}

/// Goes on after the template of the prompt has been read.
pub fn on_template(run: WorkerRun, template: &str, attempt: Option<u32>) -> (r: WorkerFlow)
    ensures
        r@ == template_read(run@, template@, attempt),
{
    match run.turn_prompt(template, attempt) {
        Ok(prompt) => WorkerFlow::RunTurn { run, prompt },
        Err(error) => fail(run.worker_host, error),
    }
}

/// What comes after a turn.
pub open spec fn turn_ended(run: RunView, turn: Result<(), CodexErrorView>) -> WorkerFlowView {
    match turn {
        Ok(()) => WorkerFlowView::RefreshTracker(run),
        Err(error) => failing(
            run.worker_host,
            codex_failure(WorkerErrorStage::TurnRun, run.worker_host, error),
        ),
    }
}

/// Goes on after a turn.
pub fn on_turn(run: WorkerRun, turn: Result<(), CodexError>) -> (r: WorkerFlow)
    ensures
        r@ == turn_ended(run@, agent_view(turn)),
{
    match turn {
        Ok(()) => WorkerFlow::RefreshTracker(run),
        Err(error) => {
            let error: WorkerError = codex_worker_error(
                WorkerErrorStage::TurnRun,
                clone_opt(&run.worker_host),
                &error,
            );
            fail(run.worker_host, error)
        },
    }
}

/// What comes after the tracker has been built anew, where that was needed.
pub open spec fn tracker_refreshed(run: RunView, tracker: Result<(), Seq<char>>) -> WorkerFlowView {
    match tracker {
        Ok(()) => WorkerFlowView::FetchAgain(run),
        Err(reason) => failing(
            run.worker_host,
            tracker_failure(WorkerErrorStage::TrackerBuild, run.worker_host, reason),
        ),
    }
}

/// Goes on after the tracker has been built anew, where that was needed.
pub fn on_tracker(run: WorkerRun, tracker: Result<(), String>) -> (r: WorkerFlow)
    ensures
        r@ == tracker_refreshed(run@, done_view(tracker)),
{
    match tracker {
        Ok(()) => WorkerFlow::FetchAgain(run),
        Err(reason) => {
            let error: WorkerError = tracker_worker_error(
                WorkerErrorStage::TrackerBuild,
                clone_opt(&run.worker_host),
                reason,
            );
            fail(run.worker_host, error)
        },
    }
}

/// What comes after the task has been fetched after a turn.
pub open spec fn fetched_again(
    run: RunView,
    fetched: Result<Seq<IssueView>, Seq<char>>,
    active_states: Seq<Seq<char>>,
    cancelled: bool,
) -> WorkerFlowView {
    match run.after_turn(fetched, active_states) {
        WorkerStepView::Turn(next) => going_on(run.worker_host, next.next(cancelled)),
        step => going_on(run.worker_host, step),
    }
}

/// Goes on after the task has been fetched after a turn.
pub fn on_fetch(
    run: WorkerRun,
    fetched: Result<Vec<Issue>, String>,
    active_states: &Vec<String>,
    cancelled: bool,
) -> (r: WorkerFlow)
    ensures
        r@ == fetched_again(run@, fetched_view(fetched), texts(active_states@), cancelled),
{
    let host: Option<String> = clone_opt(&run.worker_host);
    match run.after_turn(fetched, active_states) {
        WorkerStep::Turn(next) => go_on(host, next.next_turn(cancelled)),
        step => go_on(host, step),
    }
}

// ---------------------------------------------------------------------------
// Ending
// ---------------------------------------------------------------------------

/// Goes on after the session has been stopped.
pub fn on_stopped(ending: Ending) -> (r: WorkerFlow)
    ensures
        r@ == WorkerFlowView::RunAfterRun(ending@),
{
    WorkerFlow::RunAfterRun(ending)
}

/// What comes after the hook after a run.
pub open spec fn after_run_done(ending: EndingView) -> WorkerFlowView {
    match ending.outcome {
        Ok((disposition, cleanup)) => if cleanup {
            WorkerFlowView::RemoveWorkspace { disposition, worker_host: ending.worker_host }
        } else {
            WorkerFlowView::Done(Ok(disposition))
        },
        Err(error) => WorkerFlowView::Done(Err(error)),
    }
}

/// Goes on after the hook after a run.
pub fn on_after_run(ending: Ending) -> (r: WorkerFlow)
    ensures
        r@ == after_run_done(ending@),
{
    match ending.outcome {
        Ok((disposition, cleanup)) => if cleanup {
            WorkerFlow::RemoveWorkspace { disposition, worker_host: ending.worker_host }
        } else {
            WorkerFlow::Done(Ok(disposition))
        },
        Err(error) => WorkerFlow::Done(Err(error)),
    }
}

/// What comes after the workspace has been removed, or could not be.
pub open spec fn workspace_removed(
    disposition: DispositionView,
    worker_host: Option<Seq<char>>,
    removed: Result<(), Seq<char>>,
) -> WorkerFlowView {
    match removed {
        Ok(()) => WorkerFlowView::Done(Ok(disposition)),
        Err(reason) => WorkerFlowView::Done(
            Err(workspace_error(WorkerErrorStage::Cleanup, worker_host, reason)),
        ),
    }
}

/// Goes on after the workspace has been removed, or could not be.
pub fn on_removed(
    disposition: WorkerDisposition,
    worker_host: Option<String>,
    removed: Result<(), String>,
) -> (r: WorkerFlow)
    ensures
        r@ == workspace_removed(disposition@, opt_text(worker_host), done_view(removed)),
{
    WorkerFlow::Done(finish_worker(disposition, removed, worker_host))
}

// ---------------------------------------------------------------------------
// Laws
// ---------------------------------------------------------------------------

/// What the caller hands back after a step.
pub enum WorkerEventView {
    /// An operation on the workspace or the tracker is over.
    Done(Result<(), Seq<char>>),
    /// The session has been started, or could not be.
    Session(Result<(), CodexErrorView>),
    /// The task has been fetched for the first time.
    FirstFetch {
        issue: IssueView,
        fetched: Result<Seq<IssueView>, Seq<char>>,
        max_turns: nat,
        terminal_states: Seq<Seq<char>>,
        cancelled: bool,
    },
    /// The template of the prompt.
    Template { template: Seq<char>, attempt: Option<u32> },
    /// A turn is over; its events held these payloads.
    Turn { payloads: Seq<Option<JsonView>>, turn: Result<(), CodexErrorView> },
    /// The task has been fetched after a turn.
    Fetch {
        fetched: Result<Seq<IssueView>, Seq<char>>,
        active_states: Seq<Seq<char>>,
        cancelled: bool,
    },
}

/// Whether one of the payloads tells that a tool call has closed the task.
pub open spec fn tells_of_close(payloads: Seq<Option<JsonView>>, issue_id: Seq<char>) -> bool {
    exists|i: int| 0 <= i < payloads.len() && close_succeeded(#[trigger] payloads[i], issue_id)
}

/// A run after it has observed the events of a turn.
pub open spec fn observed(run: RunView, payloads: Seq<Option<JsonView>>) -> RunView {
    RunView {
        guarded_close_observed: run.guarded_close_observed || tells_of_close(
            payloads,
            run.current_issue.id,
        ),
        ..run
    }
}

/// What a worker comes to after what the caller has handed back, where that is what was
/// asked for.
pub open spec fn worker_follows(flow: WorkerFlowView, event: WorkerEventView) -> Option<
    WorkerFlowView,
> {
    match (flow, event) {
        (WorkerFlowView::CreateWorkspace(starting), WorkerEventView::Done(created)) => Some(
            workspace_tried(starting, created),
        ),
        (WorkerFlowView::RunBeforeRun(starting), WorkerEventView::Done(ran)) => Some(
            before_run_tried(starting, ran),
        ),
        (WorkerFlowView::StartSession(starting), WorkerEventView::Session(session)) => Some(
            session_tried(starting, session),
        ),
        (WorkerFlowView::AbandonStart { starting, error }, WorkerEventView::Done(_)) => Some(
            start_failed(starting, error),
        ),
        (
            WorkerFlowView::FetchTask { worker_host },
            WorkerEventView::FirstFetch { issue, fetched, max_turns, terminal_states, cancelled },
        ) => Some(
            first_fetched(worker_host, issue, fetched, max_turns, terminal_states, cancelled),
        ),
        (
            WorkerFlowView::ReadTemplate(run),
            WorkerEventView::Template { template, attempt },
        ) => Some(template_read(run, template, attempt)),
        (WorkerFlowView::RunTurn { run, .. }, WorkerEventView::Turn { payloads, turn }) => Some(
            turn_ended(observed(run, payloads), turn),
        ),
        (WorkerFlowView::RefreshTracker(run), WorkerEventView::Done(tracker)) => Some(
            tracker_refreshed(run, tracker),
        ),
        (
            WorkerFlowView::FetchAgain(run),
            WorkerEventView::Fetch { fetched, active_states, cancelled },
        ) => Some(fetched_again(run, fetched, active_states, cancelled)),
        (WorkerFlowView::StopSession(ending), WorkerEventView::Done(_)) => Some(
            WorkerFlowView::RunAfterRun(ending),
        ),
        (WorkerFlowView::RunAfterRun(ending), WorkerEventView::Done(_)) => Some(
            after_run_done(ending),
        ),
        (
            WorkerFlowView::RemoveWorkspace { disposition, worker_host },
            WorkerEventView::Done(removed),
        ) => Some(workspace_removed(disposition, worker_host, removed)),
        _ => None,
    }
}

/// Whether these are the steps of a worker, one after the other.
pub open spec fn is_worker_run(
    flows: Seq<WorkerFlowView>,
    events: Seq<WorkerEventView>,
    ssh_hosts: Seq<Seq<char>>,
    preferred: Option<Seq<char>>,
) -> bool {
    &&& flows.len() == events.len() + 1
    &&& flows[0] == started(Ok::<(), Seq<char>>(()), ssh_hosts, preferred)
    &&& forall|k: int|
        0 <= k < events.len() ==> worker_follows(#[trigger] flows[k], events[k]) == Some(
            flows[k + 1],
        )
}

/// Whether a session is running at a step.
pub open spec fn has_session(flow: WorkerFlowView) -> bool {
    ||| flow is FetchTask
    ||| flow is ReadTemplate
    ||| flow is RunTurn
    ||| flow is RefreshTracker
    ||| flow is FetchAgain
    ||| flow is StopSession
}

/// A session that runs is stopped before anything else comes, and then the hook after a
/// run is run, whatever the worker has come to.
pub proof fn law_sessions_are_stopped(
    flow: WorkerFlowView,
    event: WorkerEventView,
    next: WorkerFlowView,
)
    requires
        worker_follows(flow, event) == Some(next),
        has_session(flow),
    ensures
        has_session(next) || (flow is StopSession && next is RunAfterRun),
{
}

/// A session runs only where it has been started in a workspace after the hook before a
/// run; where that hook or the session fails, the hook after a run is run before another
/// host is tried.
pub proof fn law_failed_starts_are_tidied_up(
    flow: WorkerFlowView,
    event: WorkerEventView,
    next: WorkerFlowView,
)
    requires
        worker_follows(flow, event) == Some(next),
    ensures
        has_session(next) ==> has_session(flow) || flow is StartSession,
        next is StartSession ==> flow is RunBeforeRun,
        next is RunBeforeRun ==> flow is CreateWorkspace,
        flow is RunBeforeRun || flow is StartSession ==> !(next is CreateWorkspace) && !(
        next is Done),
{
}

/// Whether a step knows that a tool call has closed the task.
spec fn knows_of_close(flow: WorkerFlowView) -> bool {
    match flow {
        WorkerFlowView::ReadTemplate(run) => run.guarded_close_observed,
        WorkerFlowView::RunTurn { run, .. } => run.guarded_close_observed,
        WorkerFlowView::RefreshTracker(run) => run.guarded_close_observed,
        WorkerFlowView::FetchAgain(run) => run.guarded_close_observed,
        WorkerFlowView::StopSession(ending) => ending.outcome matches Ok((_, cleanup)) && cleanup,
        WorkerFlowView::RunAfterRun(ending) => ending.outcome matches Ok((_, cleanup)) && cleanup,
        WorkerFlowView::RemoveWorkspace { .. } => true,
        _ => false,
    }
}

/// Whether a turn has told of the close of the task that it was about.
pub open spec fn shows_close(flow: WorkerFlowView, event: WorkerEventView) -> bool {
    &&& flow matches WorkerFlowView::RunTurn { run, .. }
    &&& event matches WorkerEventView::Turn { payloads, .. }
    &&& tells_of_close(payloads, run.current_issue.id)
}

proof fn lemma_close_is_learnt(flow: WorkerFlowView, event: WorkerEventView, next: WorkerFlowView)
    requires
        worker_follows(flow, event) == Some(next),
        knows_of_close(next),
    ensures
        knows_of_close(flow) || shows_close(flow, event),
{
}

/// A workspace is removed only after a turn has told that a tool call has closed the task.
pub proof fn law_only_workspaces_of_closed_tasks_are_removed(
    flows: Seq<WorkerFlowView>,
    events: Seq<WorkerEventView>,
    ssh_hosts: Seq<Seq<char>>,
    preferred: Option<Seq<char>>,
    k: int,
)
    requires
        is_worker_run(flows, events, ssh_hosts, preferred),
        0 <= k < flows.len(),
        flows[k] is RemoveWorkspace,
    ensures
        exists|i: int| 0 <= i < k && #[trigger] shows_close(flows[i], events[i]),
{
    lemma_close_was_shown(flows, events, ssh_hosts, preferred, k);
}

proof fn lemma_close_was_shown(
    flows: Seq<WorkerFlowView>,
    events: Seq<WorkerEventView>,
    ssh_hosts: Seq<Seq<char>>,
    preferred: Option<Seq<char>>,
    k: int,
)
    requires
        is_worker_run(flows, events, ssh_hosts, preferred),
        0 <= k < flows.len(),
        knows_of_close(flows[k]),
    ensures
        exists|i: int| 0 <= i < k && #[trigger] shows_close(flows[i], events[i]),
    decreases k,
{
    assert(k > 0);
    assert(worker_follows(flows[k - 1], events[k - 1]) == Some(flows[k]));
    lemma_close_is_learnt(flows[k - 1], events[k - 1], flows[k]);
    if knows_of_close(flows[k - 1]) {
        lemma_close_was_shown(flows, events, ssh_hosts, preferred, k - 1);
        let i = choose|i: int| 0 <= i < k - 1 && #[trigger] shows_close(flows[i], events[i]);
        assert(shows_close(flows[i], events[i]));
    } else {
        assert(shows_close(flows[k - 1], events[k - 1]));
    }
}

/// How far a worker is: starting, started, in its turns, or ending.
spec fn phase(flow: WorkerFlowView) -> int {
    match flow {
        WorkerFlowView::CreateWorkspace(_) => 0,
        WorkerFlowView::RunBeforeRun(_) => 0,
        WorkerFlowView::StartSession(_) => 0,
        WorkerFlowView::AbandonStart { .. } => 0,
        WorkerFlowView::FetchTask { .. } => 1,
        WorkerFlowView::ReadTemplate(_) => 2,
        WorkerFlowView::RunTurn { .. } => 2,
        WorkerFlowView::RefreshTracker(_) => 2,
        WorkerFlowView::FetchAgain(_) => 2,
        _ => 3,
    }
}

/// The run of a worker in its turns, and how far it is in its turn.
spec fn place(flow: WorkerFlowView) -> Option<(RunView, int)> {
    match flow {
        WorkerFlowView::ReadTemplate(run) => Some((run, 0)),
        WorkerFlowView::RunTurn { run, .. } => Some((run, 1)),
        WorkerFlowView::RefreshTracker(run) => Some((run, 2)),
        WorkerFlowView::FetchAgain(run) => Some((run, 3)),
        _ => None,
    }
}

spec fn comes_before(a: (RunView, int), b: (RunView, int)) -> bool {
    &&& a.0.turn_number < b.0.turn_number || (a.0.turn_number == b.0.turn_number && a.1 < b.1)
    &&& a.0.max_turns == b.0.max_turns
}

spec fn is_bounded(flow: WorkerFlowView) -> bool {
    place(flow) matches Some(here) ==> here.0.turn_number <= here.0.max_turns
}

proof fn lemma_workers_move_on(flow: WorkerFlowView, event: WorkerEventView, next: WorkerFlowView)
    requires
        worker_follows(flow, event) == Some(next),
    ensures
        phase(flow) <= phase(next),
        place(flow) is Some && place(next) is Some ==> comes_before(
            place(flow)->0,
            place(next)->0,
        ),
        place(flow) is None && place(next) is Some ==> flow is FetchTask,
        is_bounded(flow) ==> is_bounded(next),
{
}

proof fn lemma_turns_follow(
    flows: Seq<WorkerFlowView>,
    events: Seq<WorkerEventView>,
    ssh_hosts: Seq<Seq<char>>,
    preferred: Option<Seq<char>>,
    j: int,
    k: int,
)
    requires
        is_worker_run(flows, events, ssh_hosts, preferred),
        0 <= j <= k < flows.len(),
    ensures
        phase(flows[j]) <= phase(flows[k]),
        j < k && place(flows[j]) is Some && place(flows[k]) is Some ==> comes_before(
            place(flows[j])->0,
            place(flows[k])->0,
        ),
        is_bounded(flows[j]) ==> is_bounded(flows[k]),
    decreases k,
{
    if j < k {
        lemma_turns_follow(flows, events, ssh_hosts, preferred, j, k - 1);
        assert(worker_follows(flows[k - 1], events[k - 1]) == Some(flows[k]));
        lemma_workers_move_on(flows[k - 1], events[k - 1], flows[k]);
    }
}

/// Each turn of a worker has a number of its own, higher than those before and not above
/// the number of turns that it may run.
pub proof fn law_workers_run_no_more_turns_than_they_may(
    flows: Seq<WorkerFlowView>,
    events: Seq<WorkerEventView>,
    ssh_hosts: Seq<Seq<char>>,
    preferred: Option<Seq<char>>,
    j: int,
    k: int,
    earlier: RunView,
    later: RunView,
)
    requires
        is_worker_run(flows, events, ssh_hosts, preferred),
        0 <= j < k < flows.len(),
        flows[j] matches WorkerFlowView::RunTurn { run, .. } && run == earlier,
        flows[k] matches WorkerFlowView::RunTurn { run, .. } && run == later,
    ensures
        earlier.turn_number < later.turn_number <= later.max_turns,
        earlier.max_turns == later.max_turns,
{
    lemma_turns_follow(flows, events, ssh_hosts, preferred, 0, k);
    lemma_turns_follow(flows, events, ssh_hosts, preferred, j, k);
}

} // verus!
