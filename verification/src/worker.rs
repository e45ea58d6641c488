//! The worker that runs an agent on a task: on which host it starts, how its turns
//! follow each other, when it is done, and how its failures are told.
use vstd::prelude::*;
use vstd::string::*;

use crate::codex::{CodexError, CodexErrorView};
use crate::issue::{get_in, opt_truth, state_name, Issue, IssueView};
use crate::json::{first_of, opt_get, opt_json_text, ref_view, Json, JsonView};
use crate::prompt::{build_issue_prompt, continuation_guidance, guidance, issue_prompt};
use crate::sorting::views_of;
use crate::text::{
    clone_opt, concat, concat3, is_among, join, joined, opt_text, owned, same, texts, trim, trimmed,
};

verus! {

broadcast use {vstd::seq::group_seq_axioms, vstd::string::group_string_axioms};

// ---------------------------------------------------------------------------
// Errors
// ---------------------------------------------------------------------------

/// When a worker failed.
#[derive(Clone, Copy, Debug, PartialEq, Eq, Structural)]
pub enum WorkerErrorStage {
    Startup,
    WorkspaceCreate,
    BeforeRun,
    TrackerBuild,
    SessionStart,
    TurnRun,
    StateRefresh,
    Cleanup,
}

/// What kind of failure it was.
#[derive(Clone, Copy, Debug, PartialEq, Eq, Structural)]
pub enum WorkerErrorKind {
    StartupFailoverExhausted,
    WorkspaceFailure,
    HookFailure,
    TrackerFailure,
    SessionFailure,
    TurnFailure,
    ApprovalRequired,
    InputRequired,
    Cancellation,
}

impl WorkerErrorStage {
    /// The name of the stage.
    pub open spec fn name(self) -> Seq<char> {
        match self {
            WorkerErrorStage::Startup => "startup"@,
            WorkerErrorStage::WorkspaceCreate => "workspace_create"@,
            WorkerErrorStage::BeforeRun => "before_run"@,
            WorkerErrorStage::TrackerBuild => "tracker_build"@,
            WorkerErrorStage::SessionStart => "session_start"@,
            WorkerErrorStage::TurnRun => "turn_run"@,
            WorkerErrorStage::StateRefresh => "state_refresh"@,
            WorkerErrorStage::Cleanup => "cleanup"@,
        }
    }

    /// The name of the stage.
    pub fn as_str(&self) -> (r: &'static str)
        ensures
            r@ == self.name(),
    {
        match self {
            WorkerErrorStage::Startup => "startup",
            WorkerErrorStage::WorkspaceCreate => "workspace_create",
            WorkerErrorStage::BeforeRun => "before_run",
            WorkerErrorStage::TrackerBuild => "tracker_build",
            WorkerErrorStage::SessionStart => "session_start",
            WorkerErrorStage::TurnRun => "turn_run",
            WorkerErrorStage::StateRefresh => "state_refresh",
            WorkerErrorStage::Cleanup => "cleanup",
        }
    }
}

impl WorkerErrorKind {
    /// The name of the kind.
    pub open spec fn name(self) -> Seq<char> {
        match self {
            WorkerErrorKind::StartupFailoverExhausted => "startup_failover_exhausted"@,
            WorkerErrorKind::WorkspaceFailure => "workspace_failure"@,
            WorkerErrorKind::HookFailure => "hook_failure"@,
            WorkerErrorKind::TrackerFailure => "tracker_failure"@,
            WorkerErrorKind::SessionFailure => "session_failure"@,
            WorkerErrorKind::TurnFailure => "turn_failure"@,
            WorkerErrorKind::ApprovalRequired => "approval_required"@,
            WorkerErrorKind::InputRequired => "input_required"@,
            WorkerErrorKind::Cancellation => "cancellation"@,
        }
    }

    /// The name of the kind.
    pub fn as_str(&self) -> (r: &'static str)
        ensures
            r@ == self.name(),
    {
        match self {
            WorkerErrorKind::StartupFailoverExhausted => "startup_failover_exhausted",
            WorkerErrorKind::WorkspaceFailure => "workspace_failure",
            WorkerErrorKind::HookFailure => "hook_failure",
            WorkerErrorKind::TrackerFailure => "tracker_failure",
            WorkerErrorKind::SessionFailure => "session_failure",
            WorkerErrorKind::TurnFailure => "turn_failure",
            WorkerErrorKind::ApprovalRequired => "approval_required",
            WorkerErrorKind::InputRequired => "input_required",
            WorkerErrorKind::Cancellation => "cancellation",
        }
    }
}

/// Why a worker failed.
#[derive(Debug)]
pub struct WorkerError {
    pub stage: WorkerErrorStage,
    pub kind: WorkerErrorKind,
    pub worker_host: Option<String>,
    pub message: String,
}

/// Why a worker failed.
pub struct WorkerErrorView {
    pub stage: WorkerErrorStage,
    pub kind: WorkerErrorKind,
    pub worker_host: Option<Seq<char>>,
    pub message: Seq<char>,
}

impl View for WorkerError {
    type V = WorkerErrorView;

    open spec fn view(&self) -> WorkerErrorView {
        WorkerErrorView {
            stage: self.stage,
            kind: self.kind,
            worker_host: opt_text(self.worker_host),
            message: self.message@,
        }
    }
}

/// A host as it is shown; none is the machine itself.
pub open spec fn host_name(host: Option<Seq<char>>) -> Seq<char> {
    match host {
        Some(host) => host,
        None => "local"@,
    }
}

/// What several errors say.
pub open spec fn all_shown(errors: Seq<WorkerErrorView>) -> Seq<Seq<char>> {
    Seq::new(errors.len(), |i: int| errors[i].shown())
}

impl WorkerErrorView {
    /// The error as it is shown.
    pub open spec fn shown(self) -> Seq<char> {
        "worker_stage="@ + self.stage.name() + " worker_kind="@ + self.kind.name()
            + " worker_host="@ + host_name(self.worker_host) + " "@ + self.message
    }

    /// Whether another host may be tried.
    pub open spec fn may_fail_over(self) -> bool {
        ||| self.stage == WorkerErrorStage::WorkspaceCreate
        ||| self.stage == WorkerErrorStage::BeforeRun
        ||| self.stage == WorkerErrorStage::SessionStart
    }

    /// The error that no host could be started.
    pub open spec fn exhausted(errors: Seq<WorkerErrorView>) -> WorkerErrorView {
        let reasons = joined(all_shown(errors), "; "@);
        WorkerErrorView {
            stage: WorkerErrorStage::Startup,
            kind: WorkerErrorKind::StartupFailoverExhausted,
            worker_host: if errors.len() > 0 {
                errors.last().worker_host
            } else {
                None
            },
            message: if reasons.len() == 0 {
                "all worker startup attempts failed"@
            } else {
                "all worker startup attempts failed: "@ + reasons
            },
        }
    }
}

impl WorkerError {
    /// An error of a worker.
    pub fn new(
        stage: WorkerErrorStage,
        kind: WorkerErrorKind,
        worker_host: Option<String>,
        message: String,
    ) -> (r: WorkerError)
        ensures
            r@ == (WorkerErrorView {
                stage,
                kind,
                worker_host: opt_text(worker_host),
                message: message@,
            }),
    {
        WorkerError { stage, kind, worker_host, message }
    }

    /// Whether another host may be tried.
    pub fn startup_failover_eligible(&self) -> (r: bool)
        ensures
            r == self@.may_fail_over(),
    {
        match self.stage {
            WorkerErrorStage::WorkspaceCreate => true,
            WorkerErrorStage::BeforeRun => true,
            WorkerErrorStage::SessionStart => true,
            _ => false,
        }
    }

    /// The name of the stage.
    pub fn stage_name(&self) -> (r: String)
        ensures
            r@ == self@.stage.name(),
    {
        owned(self.stage.as_str())
    }

    /// The name of the kind.
    pub fn kind_name(&self) -> (r: String)
        ensures
            r@ == self@.kind.name(),
    {
        owned(self.kind.as_str())
    }

    /// The error as it is shown.
    pub fn to_text(&self) -> (r: String)
        ensures
            r@ == self@.shown(),
    {
        let mut out: String = concat3("worker_stage=", self.stage.as_str(), " worker_kind=");
        out.append(self.kind.as_str());
        out.append(" worker_host=");
        match &self.worker_host {
            Some(host) => {
                out.append(host.as_str());
            },
            None => {
                out.append("local");
            },
        }
        out.append(" ");
        out.append(self.message.as_str());
        out
    }

    /// The error that no host could be started.
    pub fn startup_failover_exhausted(errors: Vec<WorkerError>) -> (r: WorkerError)
        ensures
            r@ == WorkerErrorView::exhausted(views_of(errors@)),
    {
        let ghost all = views_of(errors@);
        let mut shown: Vec<String> = Vec::new();
        let mut i: usize = 0;
        while i < errors.len()
            invariant
                i <= errors.len(),
                all == views_of(errors@),
                shown.len() == i,
                forall|j: int| 0 <= j < i ==> (#[trigger] shown@[j])@ == all[j].shown(),
            decreases errors.len() - i,
        {
            shown.push(errors[i].to_text());
            i = i + 1;
        }
        proof {
            assert(texts(shown@) =~= all_shown(all));
        }
        let reasons: String = join(&shown, "; ");
        let host: Option<String> = if errors.len() > 0 {
            clone_opt(&errors[errors.len() - 1].worker_host)
        } else {
            None
        };
        let message: String = if reasons.as_str().is_empty() {
            owned("all worker startup attempts failed")
        } else {
            concat("all worker startup attempts failed: ", reasons.as_str())
        };
        WorkerError::new(
            WorkerErrorStage::Startup,
            WorkerErrorKind::StartupFailoverExhausted,
            host,
            message,
        )
    }
}

/// The error of a workspace operation.
pub open spec fn workspace_error(
    stage: WorkerErrorStage,
    host: Option<Seq<char>>,
    reason: Seq<char>,
) -> WorkerErrorView {
    WorkerErrorView {
        stage,
        kind: if stage == WorkerErrorStage::BeforeRun {
            WorkerErrorKind::HookFailure
        } else {
            WorkerErrorKind::WorkspaceFailure
        },
        worker_host: host,
        message: reason,
    }
}

/// The error of a workspace operation.
pub fn workspace_worker_error(
    stage: WorkerErrorStage,
    worker_host: Option<String>,
    reason: String,
) -> (r: WorkerError)
    ensures
        r@ == workspace_error(stage, opt_text(worker_host), reason@),
{
    let kind: WorkerErrorKind = match stage {
        WorkerErrorStage::BeforeRun => WorkerErrorKind::HookFailure,
        _ => WorkerErrorKind::WorkspaceFailure,
    };
    WorkerError::new(stage, kind, worker_host, reason)
}

/// The error of a tracker operation.
pub open spec fn tracker_failure(
    stage: WorkerErrorStage,
    host: Option<Seq<char>>,
    reason: Seq<char>,
) -> WorkerErrorView {
    WorkerErrorView {
        stage,
        kind: WorkerErrorKind::TrackerFailure,
        worker_host: host,
        message: reason,
    }
}

/// The error of a tracker operation.
pub fn tracker_worker_error(
    stage: WorkerErrorStage,
    worker_host: Option<String>,
    reason: String,
) -> (r: WorkerError)
    ensures
        r@ == tracker_failure(stage, opt_text(worker_host), reason@),
{
    WorkerError::new(stage, WorkerErrorKind::TrackerFailure, worker_host, reason)
}

/// The kind of failure that an agent's error is at a stage.
pub open spec fn codex_kind(stage: WorkerErrorStage, error: CodexErrorView) -> WorkerErrorKind {
    match error {
        CodexErrorView::ApprovalRequired(_) => WorkerErrorKind::ApprovalRequired,
        CodexErrorView::TurnInputRequired(_) => WorkerErrorKind::InputRequired,
        CodexErrorView::TurnCancelled(_) => WorkerErrorKind::Cancellation,
        CodexErrorView::TurnFailed(_) => WorkerErrorKind::TurnFailure,
        _ => if stage == WorkerErrorStage::TurnRun {
            WorkerErrorKind::TurnFailure
        } else {
            WorkerErrorKind::SessionFailure
        },
    }
}

/// The error of an agent at a stage.
pub open spec fn codex_failure(
    stage: WorkerErrorStage,
    host: Option<Seq<char>>,
    error: CodexErrorView,
) -> WorkerErrorView {
    WorkerErrorView {
        stage,
        kind: codex_kind(stage, error),
        worker_host: host,
        message: error.shown(),
    }
}

/// The error of an agent at a stage.
pub fn codex_worker_error(
    stage: WorkerErrorStage,
    worker_host: Option<String>,
    error: &CodexError,
) -> (r: WorkerError)
    ensures
        r@ == codex_failure(stage, opt_text(worker_host), error@),
{
    let kind: WorkerErrorKind = match error {
        CodexError::ApprovalRequired(_) => WorkerErrorKind::ApprovalRequired,
        CodexError::TurnInputRequired(_) => WorkerErrorKind::InputRequired,
        CodexError::TurnCancelled(_) => WorkerErrorKind::Cancellation,
        CodexError::TurnFailed(_) => WorkerErrorKind::TurnFailure,
        _ => match stage {
            WorkerErrorStage::TurnRun => WorkerErrorKind::TurnFailure,
            _ => WorkerErrorKind::SessionFailure,
        },
    };
    WorkerError::new(stage, kind, worker_host, error.to_text())
}

// ---------------------------------------------------------------------------
// Hosts
// ---------------------------------------------------------------------------

/// What a list of optional texts holds.
pub open spec fn opt_texts(all: Seq<Option<String>>) -> Seq<Option<Seq<char>>> {
    Seq::new(all.len(), |i: int| opt_text(all[i]))
}

/// The hosts, trimmed, without empty ones and without repetitions.
pub open spec fn distinct_hosts(hosts: Seq<Seq<char>>) -> Seq<Seq<char>>
    decreases hosts.len(),
{
    if hosts.len() == 0 {
        Seq::empty()
    } else {
        let earlier = distinct_hosts(hosts.drop_last());
        let host = trimmed(hosts.last());
        if host.len() == 0 || earlier.contains(host) {
            earlier
        } else {
            earlier.push(host)
        }
    }
}

/// The hosts that differ from one of them.
pub open spec fn hosts_but(hosts: Seq<Seq<char>>, host: Seq<char>) -> Seq<Option<Seq<char>>>
    decreases hosts.len(),
{
    if hosts.len() == 0 {
        Seq::empty()
    } else {
        let earlier = hosts_but(hosts.drop_last(), host);
        if hosts.last() == host {
            earlier
        } else {
            earlier.push(Some(hosts.last()))
        }
    }
}

/// A preferred host, trimmed; an empty one is none.
pub open spec fn preference(preferred: Option<Seq<char>>) -> Option<Seq<char>> {
    match preferred {
        Some(host) => if trimmed(host).len() > 0 {
            Some(trimmed(host))
        } else {
            None
        },
        None => None,
    }
}

/// The hosts on which a worker may be started, in the order in which they are tried.
pub open spec fn candidates(hosts: Seq<Seq<char>>, preferred: Option<Seq<char>>) -> Seq<
    Option<Seq<char>>,
> {
    let all = distinct_hosts(hosts);
    match preference(preferred) {
        Some(host) => seq![Some(host)] + hosts_but(all, host),
        None => if all.len() == 0 {
            seq![None]
        } else {
            Seq::new(all.len(), |i: int| Some(all[i]))
        },
    }
}

fn collect_hosts(ssh_hosts: &Vec<String>) -> (out: Vec<String>)
    ensures
        texts(out@) == distinct_hosts(texts(ssh_hosts@)),
{
    let ghost all = texts(ssh_hosts@);
    let mut out: Vec<String> = Vec::new();
    let mut i: usize = 0;
    proof {
        assert(texts(out@) =~= Seq::empty());
    }
    while i < ssh_hosts.len()
        invariant
            i <= ssh_hosts.len(),
            all == texts(ssh_hosts@),
            texts(out@) == distinct_hosts(all.take(i as int)),
        decreases ssh_hosts.len() - i,
    {
        proof {
            assert(all.take(i + 1).drop_last() =~= all.take(i as int));
            assert(all.take(i + 1).last() == ssh_hosts@[i as int]@);
        }
        let host: String = trim(ssh_hosts[i].as_str());
        if !host.as_str().is_empty() && !is_among(&out, host.as_str()) {
            let ghost had = texts(out@);
            let ghost text = host@;
            out.push(host);
            proof {
                assert(texts(out@) =~= had.push(text));
            }
        }
        i = i + 1;
    }
    proof {
        assert(all.take(i as int) =~= all);
    }
    out
}

/// A preferred host, trimmed; an empty one is none.
pub fn usable_preference(preferred: &Option<String>) -> (r: Option<String>)
    ensures
        opt_text(r) == preference(opt_text(*preferred)),
{
    match preferred {
        Some(host) => {
            let t: String = trim(host.as_str());
            if t.as_str().is_empty() {
                None
            } else {
                Some(t)
            }
        },
        None => None,
    }
}

/// The hosts on which a worker may be started: the preferred one first, then the others
/// in their order; where there are none, the machine itself.
pub fn candidate_worker_hosts(
    ssh_hosts: &Vec<String>,
    preferred_worker_host: &Option<String>,
) -> (r: Vec<Option<String>>)
    ensures
        opt_texts(r@) == candidates(texts(ssh_hosts@), opt_text(*preferred_worker_host)),
{
    let hosts: Vec<String> = collect_hosts(ssh_hosts);
    let ghost all = texts(hosts@);
    let mut out: Vec<Option<String>> = Vec::new();
    match usable_preference(preferred_worker_host) {
        Some(preferred) => {
            let ghost first = preferred@;
            out.push(Some(preferred.clone()));
            let mut i: usize = 0;
            proof {
                assert(opt_texts(out@) =~= seq![Some(first)] + hosts_but(all.take(0), first));
            }
            while i < hosts.len()
                invariant
                    i <= hosts.len(),
                    all == texts(hosts@),
                    preferred@ == first,
                    opt_texts(out@) == seq![Some(first)] + hosts_but(all.take(i as int), first),
                decreases hosts.len() - i,
            {
                proof {
                    assert(all.take(i + 1).drop_last() =~= all.take(i as int));
                    assert(all.take(i + 1).last() == hosts@[i as int]@);
                }
                if !same(hosts[i].as_str(), preferred.as_str()) {
                    let ghost had = opt_texts(out@);
                    out.push(Some(hosts[i].clone()));
                    proof {
                        assert(opt_texts(out@) =~= had.push(Some(hosts@[i as int]@)));
                        assert(opt_texts(out@) =~= seq![Some(first)] + hosts_but(
                            all.take(i + 1),
                            first,
                        ));
                    }
                }
                i = i + 1;
            }
            proof {
                assert(all.take(i as int) =~= all);
            }
            out
        },
        None => {
            if hosts.len() == 0 {
                out.push(None);
                proof {
                    assert(all.len() == 0);
                    assert(opt_texts(out@) =~= seq![None]);
                }
                return out;
            }
            let mut i: usize = 0;
            while i < hosts.len()
                invariant
                    i <= hosts.len(),
                    out.len() == i,
                    forall|j: int| 0 <= j < i ==> opt_text(#[trigger] out@[j]) == Some(hosts@[j]@),
                decreases hosts.len() - i,
            {
                out.push(Some(hosts[i].clone()));
                i = i + 1;
            }
            proof {
                assert(all.len() == hosts@.len());
                assert(opt_texts(out@) =~= Seq::new(all.len(), |i: int| Some(all[i])));
            }
            out
        },
    }
}

/// Distinct hosts are distinct, and none is empty.
proof fn lemma_distinct_hosts(hosts: Seq<Seq<char>>)
    ensures
        distinct_hosts(hosts).no_duplicates(),
        forall|i: int|
            0 <= i < distinct_hosts(hosts).len() ==> (#[trigger] distinct_hosts(hosts)[i]).len() > 0,
    decreases hosts.len(),
{
    if hosts.len() > 0 {
        lemma_distinct_hosts(hosts.drop_last());
    }
}

proof fn lemma_hosts_but(hosts: Seq<Seq<char>>, host: Seq<char>)
    requires
        hosts.no_duplicates(),
    ensures
        hosts_but(hosts, host).no_duplicates(),
        forall|i: int|
            0 <= i < hosts_but(hosts, host).len() ==> (#[trigger] hosts_but(hosts, host)[i])
                is Some && hosts_but(hosts, host)[i] != Some(host) && hosts.contains(
                hosts_but(hosts, host)[i]->0,
            ),
    decreases hosts.len(),
{
    if hosts.len() > 0 {
        let rest = hosts.drop_last();
        assert(rest.no_duplicates());
        lemma_hosts_but(rest, host);
        let earlier = hosts_but(rest, host);
        let all = hosts_but(hosts, host);
        assert forall|i: int| 0 <= i < all.len() implies (#[trigger] all[i]) is Some && all[i]
            != Some(host) && hosts.contains(all[i]->0) by {
            if i < earlier.len() {
                assert(all[i] == earlier[i]);
                let k = choose|k: int| 0 <= k < rest.len() && rest[k] == all[i]->0;
                assert(hosts[k] == all[i]->0);
            } else {
                assert(hosts[hosts.len() - 1] == hosts.last());
            }
        }
        if hosts.last() != host {
            assert forall|i: int, j: int| 0 <= i < j < all.len() implies all[i] != all[j] by {
                if j == earlier.len() {
                    let k = choose|k: int| 0 <= k < rest.len() && rest[k] == earlier[i]->0;
                    assert(hosts[k] == earlier[i]->0);
                }
            }
        }
    }
}

/// No host is tried twice, at least one is tried, and a preferred host is tried first.
pub proof fn law_candidates_are_distinct(hosts: Seq<Seq<char>>, preferred: Option<Seq<char>>)
    ensures
        candidates(hosts, preferred).len() > 0,
        candidates(hosts, preferred).no_duplicates(),
        preference(preferred) is Some ==> candidates(hosts, preferred)[0] == preference(preferred),
{
    let all = distinct_hosts(hosts);
    lemma_distinct_hosts(hosts);
    match preference(preferred) {
        Some(host) => {
            lemma_hosts_but(all, host);
        },
        None => {},
    }
}

// ---------------------------------------------------------------------------
// Starting
// ---------------------------------------------------------------------------

/// The attempts to start a worker on one host after the other.
#[derive(Debug)]
pub struct StartupFailover {
    pub candidates: Vec<Option<String>>,
    pub failures: Vec<WorkerError>,
}

/// The attempts to start a worker.
pub struct FailoverView {
    pub candidates: Seq<Option<Seq<char>>>,
    pub failures: Seq<WorkerErrorView>,
}

impl View for StartupFailover {
    type V = FailoverView;

    open spec fn view(&self) -> FailoverView {
        FailoverView {
            candidates: opt_texts(self.candidates@),
            failures: views_of(self.failures@),
        }
    }
}

/// What is tried next.
#[derive(Debug)]
pub enum FailoverStep {
    /// Start the worker on this host.
    Try(Option<String>),
    /// No host is left.
    GiveUp(WorkerError),
}

/// What is tried next.
pub enum FailoverStepView {
    Try(Option<Seq<char>>),
    GiveUp(WorkerErrorView),
}

impl View for FailoverStep {
    type V = FailoverStepView;

    open spec fn view(&self) -> FailoverStepView {
        match self {
            FailoverStep::Try(host) => FailoverStepView::Try(opt_text(*host)),
            FailoverStep::GiveUp(error) => FailoverStepView::GiveUp(error@),
        }
    }
}

impl FailoverView {
    /// What is tried first.
    pub open spec fn first(self) -> FailoverStepView {
        if self.failures.len() < self.candidates.len() {
            FailoverStepView::Try(self.candidates[self.failures.len() as int])
        } else {
            FailoverStepView::GiveUp(WorkerErrorView::exhausted(self.failures))
        }
    }

    /// The attempts with one more that failed.
    pub open spec fn with_failure(self, error: WorkerErrorView) -> FailoverView {
        FailoverView { failures: self.failures.push(error), ..self }
    }

    /// What is tried after a failure.
    pub open spec fn after(self, error: WorkerErrorView) -> FailoverStepView {
        let next = self.with_failure(error);
        if error.may_fail_over() && next.failures.len() < self.candidates.len() {
            FailoverStepView::Try(self.candidates[next.failures.len() as int])
        } else {
            FailoverStepView::GiveUp(WorkerErrorView::exhausted(next.failures))
        }
    }
}

impl StartupFailover {
    /// No attempt has been made yet.
    pub fn new(candidates: Vec<Option<String>>) -> (r: StartupFailover)
        ensures
            r@ == (FailoverView { candidates: opt_texts(candidates@), failures: Seq::empty() }),
    {
        let r: StartupFailover = StartupFailover { candidates, failures: Vec::new() };
        proof {
            assert(r@.failures =~= Seq::empty());
        }
        r
    }

    /// What is tried first.
    pub fn first(self) -> (r: (StartupFailover, FailoverStep))
        requires
            self@.failures.len() == 0,
        ensures
            r.0@ == self@,
            r.1@ == self@.first(),
    {
        if self.candidates.len() > 0 {
            let host: Option<String> = clone_opt(&self.candidates[0]);
            (self, FailoverStep::Try(host))
        } else {
            let none: Vec<WorkerError> = Vec::new();
            proof {
                assert(views_of(none@) =~= self@.failures);
            }
            (self, FailoverStep::GiveUp(WorkerError::startup_failover_exhausted(none)))
        }
    }

    /// What is tried after a failure.
    pub fn failed(self, error: WorkerError) -> (r: (Option<StartupFailover>, FailoverStep))
        ensures
            r.1@ == self@.after(error@),
            r.1@ is Try ==> (r.0 matches Some(next) && next@ == self@.with_failure(error@)),
            r.1@ is GiveUp ==> r.0 is None,
    {
        let ghost was = self@;
        let ghost told = error@;
        let eligible: bool = error.startup_failover_eligible();
        let StartupFailover { candidates, failures } = self;
        let mut failures: Vec<WorkerError> = failures;
        failures.push(error);
        proof {
            assert(views_of(failures@) =~= was.failures.push(told));
        }
        if eligible && failures.len() < candidates.len() {
            let host: Option<String> = clone_opt(&candidates[failures.len()]);
            (Some(StartupFailover { candidates, failures }), FailoverStep::Try(host))
        } else {
            (None, FailoverStep::GiveUp(WorkerError::startup_failover_exhausted(failures)))
        }
    }
}

/// Every host that is tried is a candidate, and each is tried once at most: what is tried
/// after a failure is the candidate behind all those that failed.
pub proof fn law_failover_moves_on(attempts: FailoverView, error: WorkerErrorView)
    ensures
        attempts.after(error) matches FailoverStepView::Try(host)
            ==> attempts.failures.len() + 1 < attempts.candidates.len() && host
            == attempts.candidates[attempts.failures.len() as int + 1],
{
}

// ---------------------------------------------------------------------------
// Closing
// ---------------------------------------------------------------------------

/// The identifier that a value stands for: a text as it is, or a number as it is written.
pub open spec fn plain_id(json: Option<JsonView>) -> Option<Seq<char>> {
    match json {
        Some(JsonView::Text(t)) => Some(t),
        Some(JsonView::Number(n)) => Some(n.written()),
        _ => None,
    }
}

/// The identifier that a value stands for.
pub fn json_id_string(value: Option<&Json>) -> (r: Option<String>)
    ensures
        opt_text(r) == plain_id(ref_view(value)),
{
    match value {
        Some(Json::Text(t)) => Some(t.clone()),
        Some(Json::Number(n)) => Some(n.to_text()),
        _ => None,
    }
}

/// Whether a payload tells that a tool call has closed the task `issue_id`.
pub open spec fn close_succeeded(payload: Option<JsonView>, issue_id: Seq<char>) -> bool {
    let params = opt_get(payload, "params"@);
    let arguments = opt_get(params, "arguments"@);
    &&& opt_truth(opt_get(opt_get(payload, "toolResult"@), "success"@)) == Some(true)
    &&& opt_json_text(first_of(opt_get(params, "tool"@), opt_get(params, "name"@))) == Some(
        "todoist"@,
    )
    &&& opt_json_text(opt_get(arguments, "action"@)) == Some("close_task"@)
    &&& plain_id(opt_get(arguments, "task_id"@)) == Some(issue_id)
}

fn text_is(json: Option<&Json>, text: &str) -> (r: bool)
    ensures
        r == (opt_json_text(ref_view(json)) == Some(text@)),
{
    match json {
        Some(value) => match value.as_str() {
            Some(found) => same(found, text),
            None => false,
        },
        None => false,
    }
}

/// Whether a payload tells that a tool call has closed the task `issue_id`.
pub fn todoist_close_task_succeeded(payload: Option<&Json>, issue_id: &str) -> (r: bool)
    ensures
        r == close_succeeded(ref_view(payload), issue_id@),
{
    let params: Option<&Json> = get_in(payload, "params");
    let arguments: Option<&Json> = get_in(params, "arguments");
    let tool: Option<&Json> = match get_in(params, "tool") {
        Some(tool) => Some(tool),
        None => get_in(params, "name"),
    };
    let success: bool = match get_in(get_in(payload, "toolResult"), "success") {
        Some(Json::Bool(b)) => *b,
        _ => false,
    };
    if !success || !text_is(tool, "todoist") || !text_is(
        get_in(arguments, "action"),
        "close_task",
    ) {
        return false;
    }
    match json_id_string(get_in(arguments, "task_id")) {
        Some(id) => same(id.as_str(), issue_id),
        None => false,
    }
}

/// Whether the workspace of a task that a worker has closed is removed: where the task is
/// gone or in a terminal state.
pub open spec fn cleans_up(
    closed: bool,
    issue: Option<IssueView>,
    terminal_states: Seq<Seq<char>>,
) -> bool {
    closed && match issue {
        Some(issue) => terminal_states.contains(state_name(issue.state)),
        None => true,
    }
}

/// Whether the workspace of a task that a worker has closed is removed.
pub fn should_cleanup_terminal_workspace_after_guarded_close(
    guarded_close_observed: bool,
    issue: Option<&Issue>,
    terminal_states: &Vec<String>,
) -> (r: bool)
    ensures
        r == cleans_up(
            guarded_close_observed,
            match issue {
                Some(issue) => Some(issue@),
                None => None,
            },
            texts(terminal_states@),
        ),
{
    if !guarded_close_observed {
        return false;
    }
    match issue {
        Some(issue) => {
            let key: String = issue.state_key();
            is_among(terminal_states, key.as_str())
        },
        None => true,
    }
}

/// Whether a task may be on its way to being closed.
pub fn guarded_close_transition_may_be_in_flight(issue: &Issue) -> (r: bool)
    ensures
        r == (state_name(issue@.state) == "merging"@),
{
    let key: String = issue.state_key();
    same(key.as_str(), "merging")
}

// ---------------------------------------------------------------------------
// Turns
// ---------------------------------------------------------------------------

/// How a worker has ended well.
#[allow(inconsistent_fields)]
#[derive(Debug)]
pub enum WorkerDisposition {
    /// The task is still active: it is taken up again.
    Continue { issue: Issue },
    /// The task needs no worker any more.
    Quiesced { issue: Option<Issue> },
}

/// How a worker has ended well.
#[allow(inconsistent_fields)]
pub enum DispositionView {
    Continue { issue: IssueView },
    Quiesced { issue: Option<IssueView> },
}

/// What an optional task holds.
pub open spec fn opt_issue(issue: Option<Issue>) -> Option<IssueView> {
    match issue {
        Some(issue) => Some(issue@),
        None => None,
    }
}

impl View for WorkerDisposition {
    type V = DispositionView;

    open spec fn view(&self) -> DispositionView {
        match self {
            WorkerDisposition::Continue { issue } => DispositionView::Continue { issue: issue@ },
            WorkerDisposition::Quiesced { issue } => DispositionView::Quiesced {
                issue: opt_issue(*issue),
            },
        }
    }
}

/// A worker between its turns.
#[derive(Debug)]
pub struct WorkerRun {
    pub current_issue: Issue,
    pub turn_number: usize,
    pub max_turns: usize,
    pub guarded_close_observed: bool,
    pub terminal_states: Vec<String>,
    pub worker_host: Option<String>,
}

/// A worker between its turns.
pub struct RunView {
    pub current_issue: IssueView,
    pub turn_number: nat,
    pub max_turns: nat,
    pub guarded_close_observed: bool,
    pub terminal_states: Seq<Seq<char>>,
    pub worker_host: Option<Seq<char>>,
}

impl View for WorkerRun {
    type V = RunView;

    open spec fn view(&self) -> RunView {
        RunView {
            current_issue: self.current_issue@,
            turn_number: self.turn_number as nat,
            max_turns: self.max_turns as nat,
            guarded_close_observed: self.guarded_close_observed,
            terminal_states: texts(self.terminal_states@),
            worker_host: opt_text(self.worker_host),
        }
    }
}

/// What a worker does next.
#[derive(Debug)]
pub enum WorkerStep {
    /// Run the next turn.
    Turn(WorkerRun),
    /// Stop: the worker has ended well; where `cleanup` holds, remove its workspace.
    Finished { disposition: WorkerDisposition, cleanup: bool },
    /// Stop: the worker has failed.
    Failed(WorkerError),
}

/// What a worker does next.
pub enum WorkerStepView {
    Turn(RunView),
    Finished { disposition: DispositionView, cleanup: bool },
    Failed(WorkerErrorView),
}

impl View for WorkerStep {
    type V = WorkerStepView;

    open spec fn view(&self) -> WorkerStepView {
        match self {
            WorkerStep::Turn(run) => WorkerStepView::Turn(run@),
            WorkerStep::Finished { disposition, cleanup } => WorkerStepView::Finished {
                disposition: disposition@,
                cleanup: *cleanup,
            },
            WorkerStep::Failed(error) => WorkerStepView::Failed(error@),
        }
    }
}

/// What a fetch of tasks returned.
pub open spec fn fetched_view(fetched: Result<Vec<Issue>, String>) -> Result<
    Seq<IssueView>,
    Seq<char>,
> {
    match fetched {
        Ok(issues) => Ok(views_of(issues@)),
        Err(reason) => Err(reason@),
    }
}

impl RunView {
    /// The error that a worker was cancelled.
    pub open spec fn cancellation(self) -> WorkerErrorView {
        WorkerErrorView {
            stage: WorkerErrorStage::TurnRun,
            kind: WorkerErrorKind::Cancellation,
            worker_host: self.worker_host,
            message: "cancelled by orchestrator"@,
        }
    }

    /// What comes after the turns so far.
    pub open spec fn next(self, cancelled: bool) -> WorkerStepView {
        if self.turn_number >= self.max_turns {
            WorkerStepView::Finished {
                disposition: DispositionView::Continue { issue: self.current_issue },
                cleanup: false,
            }
        } else if cancelled {
            WorkerStepView::Failed(self.cancellation())
        } else {
            WorkerStepView::Turn(RunView { turn_number: self.turn_number + 1, ..self })
        }
    }

    /// What the agent is told at the start of a turn.
    pub open spec fn prompt(self, template: Seq<char>, attempt: Option<u32>) -> Result<
        Seq<char>,
        WorkerErrorView,
    > {
        if self.turn_number == 1 {
            match issue_prompt(template, self.current_issue, attempt) {
                Ok((prompt, _)) => Ok(prompt),
                Err(error) => Err(
                    WorkerErrorView {
                        stage: WorkerErrorStage::TurnRun,
                        kind: WorkerErrorKind::TurnFailure,
                        worker_host: self.worker_host,
                        message: error.shown(),
                    },
                ),
            }
        } else {
            Ok(guidance(self.turn_number, self.max_turns))
        }
    }

    /// What comes of the state of the task after a turn.
    pub open spec fn after_turn(
        self,
        fetched: Result<Seq<IssueView>, Seq<char>>,
        active_states: Seq<Seq<char>>,
    ) -> WorkerStepView {
        match fetched {
            Err(reason) => WorkerStepView::Failed(
                tracker_failure(WorkerErrorStage::StateRefresh, self.worker_host, reason),
            ),
            Ok(issues) => if issues.len() == 0 && cleans_up(
                self.guarded_close_observed,
                None,
                self.terminal_states,
            ) {
                WorkerStepView::Finished {
                    disposition: DispositionView::Quiesced { issue: None },
                    cleanup: true,
                }
            } else {
                let issue = if issues.len() > 0 {
                    issues[0]
                } else {
                    self.current_issue
                };
                if active_states.contains(state_name(issue.state)) {
                    WorkerStepView::Turn(RunView { current_issue: issue, ..self })
                } else {
                    WorkerStepView::Finished {
                        disposition: DispositionView::Quiesced { issue: Some(issue) },
                        cleanup: cleans_up(
                            self.guarded_close_observed,
                            Some(issue),
                            self.terminal_states,
                        ),
                    }
                }
            },
        }
    }
}

/// The first task of a list.
pub fn take_first(issues: Vec<Issue>) -> (r: Option<Issue>)
    ensures
        opt_issue(r) == if issues@.len() > 0 {
            Some(views_of(issues@)[0])
        } else {
            None
        },
{
    let mut all: Vec<Issue> = issues;
    if all.len() == 0 {
        None
    } else {
        Some(all.swap_remove(0))
    }
}

impl WorkerRun {
    /// A worker before its first turn: it works on the task as the tracker has it, or,
    /// where the tracker does not return it, as it was handed over.
    pub fn begin(
        issue: &Issue,
        fetched: Result<Vec<Issue>, String>,
        max_turns: usize,
        terminal_states: Vec<String>,
        worker_host: Option<String>,
    ) -> (r: Result<WorkerRun, WorkerError>)
        ensures
            match fetched_view(fetched) {
                Err(reason) => r matches Err(error) && error@ == tracker_failure(
                    WorkerErrorStage::StateRefresh,
                    opt_text(worker_host),
                    reason,
                ),
                Ok(issues) => r matches Ok(run) && run@ == (RunView {
                    current_issue: if issues.len() > 0 {
                        issues[0]
                    } else {
                        issue@
                    },
                    turn_number: 0,
                    max_turns: max_turns as nat,
                    guarded_close_observed: false,
                    terminal_states: texts(terminal_states@),
                    worker_host: opt_text(worker_host),
                }),
            },
    {
        match fetched {
            Err(reason) => Err(
                tracker_worker_error(WorkerErrorStage::StateRefresh, worker_host, reason),
            ),
            Ok(issues) => {
                let current_issue: Issue = match take_first(issues) {
                    Some(found) => found,
                    None => issue.copy(),
                };
                Ok(
                    WorkerRun {
                        current_issue,
                        turn_number: 0,
                        max_turns,
                        guarded_close_observed: false,
                        terminal_states,
                        worker_host,
                    },
                )
            },
        }
    }

    /// What comes after the turns so far.
    pub fn next_turn(self, cancelled: bool) -> (r: WorkerStep)
        ensures
            r@ == self@.next(cancelled),
    {
        if self.turn_number >= self.max_turns {
            return WorkerStep::Finished {
                disposition: WorkerDisposition::Continue { issue: self.current_issue },
                cleanup: false,
            };
        }
        if cancelled {
            return WorkerStep::Failed(
                WorkerError::new(
                    WorkerErrorStage::TurnRun,
                    WorkerErrorKind::Cancellation,
                    self.worker_host,
                    owned("cancelled by orchestrator"),
                ),
            );
        }
        let mut run: WorkerRun = self;
        run.turn_number = run.turn_number + 1;
        WorkerStep::Turn(run)
    }

    /// What the agent is told at the start of a turn: the task at the first, and later
    /// that it goes on.
    pub fn turn_prompt(&self, prompt_template: &str, attempt: Option<u32>) -> (r: Result<
        String,
        WorkerError,
    >)
        ensures
            match self@.prompt(prompt_template@, attempt) {
                Ok(prompt) => r matches Ok(text) && text@ == prompt,
                Err(error) => r matches Err(e) && e@ == error,
            },
    {
        if self.turn_number == 1 {
            match build_issue_prompt(prompt_template, &self.current_issue, attempt) {
                Ok(prompt) => Ok(prompt),
                Err(error) => Err(
                    WorkerError::new(
                        WorkerErrorStage::TurnRun,
                        WorkerErrorKind::TurnFailure,
                        clone_opt(&self.worker_host),
                        error.to_text(),
                    ),
                ),
            }
        } else {
            Ok(continuation_guidance(self.turn_number, self.max_turns))
        }
    }

    /// Takes in an event of the turn: whether a tool call has closed the task.
    pub fn observe(&mut self, payload: Option<&Json>)
        ensures
            final(self)@ == (RunView {
                guarded_close_observed: old(self)@.guarded_close_observed || close_succeeded(
                    ref_view(payload),
                    old(self)@.current_issue.id,
                ),
                ..old(self)@
            }),
    {
        if todoist_close_task_succeeded(payload, self.current_issue.id.as_str()) {
            self.guarded_close_observed = true;
        }
    }

    /// What comes of the state of the task after a turn.
    pub fn after_turn(self, fetched: Result<Vec<Issue>, String>, active_states: &Vec<String>) -> (r:
        WorkerStep)
        ensures
            r@ == self@.after_turn(fetched_view(fetched), texts(active_states@)),
    {
        let issues: Vec<Issue> = match fetched {
            Err(reason) => {
                return WorkerStep::Failed(
                    tracker_worker_error(WorkerErrorStage::StateRefresh, self.worker_host, reason),
                );
            },
            Ok(issues) => issues,
        };
        let mut run: WorkerRun = self;
        match take_first(issues) {
            Some(found) => {
                run.current_issue = found;
            },
            None => {
                if should_cleanup_terminal_workspace_after_guarded_close(
                    run.guarded_close_observed,
                    None,
                    &run.terminal_states,
                ) {
                    return WorkerStep::Finished {
                        disposition: WorkerDisposition::Quiesced { issue: None },
                        cleanup: true,
                    };
                }
            },
        }
        let key: String = run.current_issue.state_key();
        if is_among(active_states, key.as_str()) {
            WorkerStep::Turn(run)
        } else {
            let cleanup: bool = should_cleanup_terminal_workspace_after_guarded_close(
                run.guarded_close_observed,
                Some(&run.current_issue),
                &run.terminal_states,
            );
            WorkerStep::Finished {
                disposition: WorkerDisposition::Quiesced { issue: Some(run.current_issue) },
                cleanup,
            }
        }
    }
}

/// What a worker hands back.
pub open spec fn worker_result(r: Result<WorkerDisposition, WorkerError>) -> Result<
    DispositionView,
    WorkerErrorView,
> {
    match r {
        Ok(disposition) => Ok(disposition@),
        Err(error) => Err(error@),
    }
}

/// What a worker that has ended well hands back, once its workspace has been removed or
/// could not be: a failed removal is a failure of the worker.
pub fn finish_worker(
    disposition: WorkerDisposition,
    cleanup: Result<(), String>,
    worker_host: Option<String>,
) -> (r: Result<WorkerDisposition, WorkerError>)
    ensures
        worker_result(r) == match cleanup {
            Ok(_) => Ok(disposition@),
            Err(reason) => Err(
                workspace_error(WorkerErrorStage::Cleanup, opt_text(worker_host), reason@),
            ),
        },
{
    match cleanup {
        Ok(_) => Ok(disposition),
        Err(reason) => Err(workspace_worker_error(WorkerErrorStage::Cleanup, worker_host, reason)),
    }
}

// ---------------------------------------------------------------------------
// Laws
// ---------------------------------------------------------------------------

/// A worker never runs more turns than it may.
pub proof fn law_turns_are_bounded(run: RunView, cancelled: bool)
    ensures
        run.next(cancelled) matches WorkerStepView::Turn(next) ==> next.turn_number
            <= next.max_turns && next.max_turns == run.max_turns && next.turn_number
            == run.turn_number + 1,
{
}

/// Where the turns of a worker are used up, the task is taken up again, whatever else
/// holds.
pub proof fn law_last_turn_continues(run: RunView, cancelled: bool)
    requires
        run.turn_number == run.max_turns,
    ensures
        run.next(cancelled) == (WorkerStepView::Finished {
            disposition: DispositionView::Continue { issue: run.current_issue },
            cleanup: false,
        }),
{
}

/// A workspace is removed only where a tool call was seen to close the task.
pub proof fn law_only_closed_tasks_are_cleaned_up(
    run: RunView,
    fetched: Result<Seq<IssueView>, Seq<char>>,
    active_states: Seq<Seq<char>>,
)
    ensures
        run.after_turn(fetched, active_states) matches WorkerStepView::Finished { cleanup, .. }
            && cleanup ==> run.guarded_close_observed,
{
}

/// A worker goes on only with a task that is active.
pub proof fn law_only_active_tasks_go_on(
    run: RunView,
    fetched: Result<Seq<IssueView>, Seq<char>>,
    active_states: Seq<Seq<char>>,
)
    ensures
        run.after_turn(fetched, active_states) matches WorkerStepView::Turn(next)
            ==> active_states.contains(state_name(next.current_issue.state)),
{
}

} // verus!
