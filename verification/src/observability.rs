//! What operators see: the state as it is presented, and the dashboard on a terminal.
use vstd::prelude::*;
use vstd::string::*;

use crate::clock::{millis_of, whole_millis};
use crate::humanize::{
    parsed_message, summarize_codex_message, summary_of, LimitNumbers, NumbersView,
};
use crate::issue::{Issue, IssueView};
use crate::json::{group_json_views, insert, opt_view, Json, JsonView};
use crate::orchestrator::{
    run_ms, runtime_ms, RecentEvent, RecentView, TokenSnapshot,
};
use crate::prompt::{issue_json, issue_to_json};
use crate::snapshot::{
    CountsView, IssueDetail, IssueDetailView, PollingSnapshot, RetrySnapshot, RetrySnapshotView,
    RunningSnapshot, RunningSnapshotView, Snapshot, SnapshotCounts, SnapshotTotals, SnapshotView,
};
use crate::sorting::views_of;
use crate::table::put;
use crate::text::{
    begins, concat, concat3, contains, decimal, decimal_text, opt_str, opt_text, owned, same,
    starts_with, texts, trim, trimmed,
};
use crate::throughput::{
    columns, current_rate, kept, rate_lists, second_of, TokenRate, TokenSample, TokenSamples,
    THROUGHPUT_GRAPH_WINDOW_MS,
};
use crate::tracker::{opt_budget, RateBudgetView, TrackerRateBudget};

verus! {

broadcast use {vstd::seq::group_seq_axioms, vstd::string::group_string_axioms};

// ---------------------------------------------------------------------------
// Addresses and reasons
// ---------------------------------------------------------------------------

/// The address of a project's page.
pub open spec fn project_address(project_id: Seq<char>) -> Seq<char> {
    "https://app.todoist.com/app/project/"@ + project_id
}

/// The address of a project's page.
pub fn todoist_project_url(project_id: &str) -> (r: String)
    ensures
        r@ == project_address(project_id@),
{
    concat("https://app.todoist.com/app/project/", project_id)
}

/// The address of an optional project's page.
pub open spec fn opt_project_address(project_id: Option<Seq<char>>) -> Option<Seq<char>> {
    match project_id {
        Some(id) => Some(project_address(id)),
        None => None,
    }
}

fn opt_project_url(project_id: &Option<String>) -> (r: Option<String>)
    ensures
        opt_text(r) == opt_project_address(opt_text(*project_id)),
{
    match project_id {
        Some(id) => Some(todoist_project_url(id.as_str())),
        None => None,
    }
}

/// A host as it stands in an address: a host that takes calls on every interface is
/// reached at the machine itself, and an address with colons stands in brackets.
pub open spec fn address_host(host: Seq<char>) -> Seq<char> {
    let t = trimmed(host);
    if t == ""@ || t == "0.0.0.0"@ || t == "::"@ || t == "[::]"@ {
        "127.0.0.1"@
    } else if t.len() > 0 && t[0] == '[' && t.last() == ']' {
        t
    } else if t.contains(':') {
        "["@ + t + "]"@
    } else {
        t
    }
}

/// A host as it stands in an address.
pub fn dashboard_url_host(host: &str) -> (r: String)
    ensures
        r@ == address_host(host@),
{
    let t: String = trim(host);
    if same(t.as_str(), "") || same(t.as_str(), "0.0.0.0") || same(t.as_str(), "::") || same(
        t.as_str(),
        "[::]",
    ) {
        return owned("127.0.0.1");
    }
    let chars: Vec<char> = crate::text::chars_of(t.as_str());
    if chars.len() > 0 && chars[0] == '[' && chars[chars.len() - 1] == ']' {
        return t;
    }
    let mut i: usize = 0;
    while i < chars.len()
        invariant
            i <= chars.len(),
            chars@ == t@,
            t@ == trimmed(host@),
            !(t@ == ""@ || t@ == "0.0.0.0"@ || t@ == "::"@ || t@ == "[::]"@),
            !(t@.len() > 0 && t@[0] == '[' && t@.last() == ']'),
            forall|j: int| 0 <= j < i ==> t@[j] != ':',
        decreases chars.len() - i,
    {
        if chars[i] == ':' {
            proof {
                assert(t@[i as int] == ':');
            }
            return concat3("[", t.as_str(), "]");
        }
        i = i + 1;
    }
    t
}

/// The address of the dashboard, if it has a port.
pub open spec fn dashboard_address(host: Seq<char>, configured: Option<u16>, bound: Option<u16>) -> Option<
    Seq<char>,
> {
    let port = match bound {
        Some(port) => Some(port),
        None => configured,
    };
    match port {
        Some(port) => if port == 0 {
            None
        } else {
            Some("http://"@ + address_host(host) + ":"@ + decimal(port as nat) + "/"@)
        },
        None => None,
    }
}

/// The address of the dashboard: with the port that it is bound to, or else with the one
/// that is configured.
pub fn dashboard_url(host: &str, configured_port: Option<u16>, bound_port: Option<u16>) -> (r:
    Option<String>)
    ensures
        opt_text(r) == dashboard_address(host@, configured_port, bound_port),
{
    let port: u16 = match bound_port {
        Some(port) => port,
        None => match configured_port {
            Some(port) => port,
            None => {
                return None;
            },
        },
    };
    if port == 0 {
        return None;
    }
    let host: String = dashboard_url_host(host);
    let number: String = decimal_text(port as u64);
    let mut out: String = concat3("http://", host.as_str(), ":");
    out.append(number.as_str());
    out.append("/");
    Some(out)
}

/// Why nothing is dispatched, in words; reasons that are not known stand for themselves.
pub open spec fn reason_words(value: Seq<char>) -> Seq<char> {
    if begins(value, "todoist_project_not_found "@) {
        "configured Todoist project was not found"@
    } else if begins(value, "todoist_missing_required_section "@) {
        "Todoist workflow is missing a required section"@
    } else if begins(value, "todoist_comment_too_large"@) {
        "Todoist workpad comment exceeds the 15,000 character limit"@
    } else if begins(value, "todoist_rate_limited"@) {
        "Todoist rate limit reached; retrying after the server hint"@
    } else if begins(value, "todoist_api_status "@) {
        "Todoist API returned a non-success status"@
    } else if begins(value, "todoist_api_request "@) {
        "Todoist API request failed before a response was received"@
    } else if value == "workflow_front_matter_not_a_map"@ {
        "workflow front matter must decode to a map"@
    } else if value == "missing_tracker_api_key"@ {
        "Todoist API token is missing"@
    } else if value == "missing_tracker_project_id"@ {
        "Todoist project id is missing"@
    } else if value == "missing_tracker_kind"@ {
        "tracker kind is missing"@
    } else if value == "missing_codex_command"@ {
        "codex command is missing"@
    } else if value == "todoist_missing_current_user"@ {
        "Todoist current user lookup failed"@
    } else if value == "todoist_comments_unavailable"@ {
        "Todoist comments are unavailable on this account"@
    } else if value == "todoist_reminders_unavailable"@ {
        "Todoist reminders are unavailable on this account"@
    } else if value == "todoist_unknown_payload"@ {
        "Todoist returned an unexpected payload shape"@
    } else {
        value
    }
}

/// Why nothing is dispatched, in words.
pub fn humanize_blocking_reason(value: &str) -> (r: &str)
    ensures
        r@ == reason_words(value@),
{
    if starts_with(value, "todoist_project_not_found ") {
        "configured Todoist project was not found"
    } else if starts_with(value, "todoist_missing_required_section ") {
        "Todoist workflow is missing a required section"
    } else if starts_with(value, "todoist_comment_too_large") {
        "Todoist workpad comment exceeds the 15,000 character limit"
    } else if starts_with(value, "todoist_rate_limited") {
        "Todoist rate limit reached; retrying after the server hint"
    } else if starts_with(value, "todoist_api_status ") {
        "Todoist API returned a non-success status"
    } else if starts_with(value, "todoist_api_request ") {
        "Todoist API request failed before a response was received"
    } else if same(value, "workflow_front_matter_not_a_map") {
        "workflow front matter must decode to a map"
    } else if same(value, "missing_tracker_api_key") {
        "Todoist API token is missing"
    } else if same(value, "missing_tracker_project_id") {
        "Todoist project id is missing"
    } else if same(value, "missing_tracker_kind") {
        "tracker kind is missing"
    } else if same(value, "missing_codex_command") {
        "codex command is missing"
    } else if same(value, "todoist_missing_current_user") {
        "Todoist current user lookup failed"
    } else if same(value, "todoist_comments_unavailable") {
        "Todoist comments are unavailable on this account"
    } else if same(value, "todoist_reminders_unavailable") {
        "Todoist reminders are unavailable on this account"
    } else if same(value, "todoist_unknown_payload") {
        "Todoist returned an unexpected payload shape"
    } else {
        value
    }
}

// ---------------------------------------------------------------------------
// The state as it is presented
// ---------------------------------------------------------------------------

/// How many workers may run.
#[derive(Clone, Copy, Debug, PartialEq, Eq, Structural)]
pub struct AgentLimitsPayload {
    pub max_concurrent_agents: usize,
}

/// Whether tasks are dispatched, and under which workflow.
#[derive(Debug)]
pub struct WorkflowPayload {
    pub path: String,
    pub dispatch_status: &'static str,
    pub blocking_reason: Option<String>,
    pub using_last_good: bool,
}

/// Where the project and the dashboard are found.
#[derive(Debug)]
pub struct LinksPayload {
    pub project_url: Option<String>,
    pub dashboard_url: Option<String>,
}

/// How fast tokens are used, as it is shown: the rate with one digit behind the point,
/// and a graph.
#[derive(Debug)]
pub struct ThroughputPayload {
    pub tps_5s: String,
    pub graph_10m: String,
}

/// A task that runs, as it is presented.
#[derive(Debug)]
pub struct RunningEntryPayload {
    pub issue_id: String,
    pub issue_identifier: String,
    pub title: String,
    pub state: String,
    pub url: Option<String>,
    pub project_url: Option<String>,
    pub labels: Vec<String>,
    pub due: Option<Json>,
    pub deadline: Option<Json>,
    pub worker_host: Option<String>,
    pub session_id: Option<String>,
    pub app_server_pid: Option<u32>,
    pub turn_count: u32,
    pub last_event: Option<String>,
    pub last_message: Option<String>,
    pub started_at: i128,
    pub last_event_at: Option<i128>,
    pub runtime_ms: u64,
    pub workspace: String,
    pub tokens: TokenSnapshot,
}

/// A task that runs, as it is presented.
pub struct RunningEntryView {
    pub issue_id: Seq<char>,
    pub issue_identifier: Seq<char>,
    pub title: Seq<char>,
    pub state: Seq<char>,
    pub url: Option<Seq<char>>,
    pub project_url: Option<Seq<char>>,
    pub labels: Seq<Seq<char>>,
    pub due: Option<JsonView>,
    pub deadline: Option<JsonView>,
    pub worker_host: Option<Seq<char>>,
    pub session_id: Option<Seq<char>>,
    pub app_server_pid: Option<u32>,
    pub turn_count: u32,
    pub last_event: Option<Seq<char>>,
    pub last_message: Option<Seq<char>>,
    pub started_at: i128,
    pub last_event_at: Option<i128>,
    pub runtime_ms: u64,
    pub workspace: Seq<char>,
    pub tokens: TokenSnapshot,
}

impl View for RunningEntryPayload {
    type V = RunningEntryView;

    open spec fn view(&self) -> RunningEntryView {
        RunningEntryView {
            issue_id: self.issue_id@,
            issue_identifier: self.issue_identifier@,
            title: self.title@,
            state: self.state@,
            url: opt_text(self.url),
            project_url: opt_text(self.project_url),
            labels: texts(self.labels@),
            due: opt_view(self.due),
            deadline: opt_view(self.deadline),
            worker_host: opt_text(self.worker_host),
            session_id: opt_text(self.session_id),
            app_server_pid: self.app_server_pid,
            turn_count: self.turn_count,
            last_event: opt_text(self.last_event),
            last_message: opt_text(self.last_message),
            started_at: self.started_at,
            last_event_at: self.last_event_at,
            runtime_ms: self.runtime_ms,
            workspace: self.workspace@,
            tokens: self.tokens,
        }
    }
}

/// How good the state is that is presented.
#[derive(Clone, Copy, Debug, PartialEq, Eq, Structural)]
pub enum SnapshotStatus {
    /// It is the state of now.
    Fresh,
    /// It is an older state.
    Stale,
    /// There is none.
    Unavailable,
}

/// Why the state is not that of now.
#[derive(Clone, Copy, Debug, PartialEq, Eq)]
pub struct ErrorPayload {
    pub code: &'static str,
    pub message: &'static str,
}

/// Why the state is not that of now.
pub struct ErrorView {
    pub code: Seq<char>,
    pub message: Seq<char>,
}

impl View for ErrorPayload {
    type V = ErrorView;

    open spec fn view(&self) -> ErrorView {
        ErrorView { code: self.code@, message: self.message@ }
    }
}

/// The state of all tasks, as it is presented.
#[derive(Debug)]
pub struct StatePayload {
    pub generated_at: i128,
    pub snapshot_status: SnapshotStatus,
    pub snapshot_age_ms: Option<u64>,
    pub error: Option<ErrorPayload>,
    pub counts: SnapshotCounts,
    pub agent_limits: AgentLimitsPayload,
    pub running: Vec<RunningEntryPayload>,
    pub retrying: Vec<RetrySnapshot>,
    pub codex_totals: SnapshotTotals,
    pub rate_limits: Option<Json>,
    pub todoist_rate_budget: Option<TrackerRateBudget>,
    pub polling: PollingSnapshot,
    pub workflow: WorkflowPayload,
    pub links: LinksPayload,
    pub throughput: ThroughputPayload,
}

/// The state of all tasks, as it is presented.
pub struct StatePayloadView {
    pub generated_at: i128,
    pub snapshot_status: SnapshotStatus,
    pub snapshot_age_ms: Option<u64>,
    pub error: Option<ErrorView>,
    pub counts: CountsView,
    pub max_concurrent_agents: usize,
    pub running: Seq<RunningEntryView>,
    pub retrying: Seq<RetrySnapshotView>,
    pub codex_totals: SnapshotTotals,
    pub rate_limits: Option<JsonView>,
    pub todoist_rate_budget: Option<RateBudgetView>,
    pub polling: PollingSnapshot,
    pub workflow_path: Seq<char>,
    pub dispatch_status: Seq<char>,
    pub blocking_reason: Option<Seq<char>>,
    pub using_last_good: bool,
    pub project_url: Option<Seq<char>>,
    pub dashboard_url: Option<Seq<char>>,
    pub tps_5s: Seq<char>,
    pub graph_10m: Seq<char>,
}

impl View for StatePayload {
    type V = StatePayloadView;

    open spec fn view(&self) -> StatePayloadView {
        StatePayloadView {
            generated_at: self.generated_at,
            snapshot_status: self.snapshot_status,
            snapshot_age_ms: self.snapshot_age_ms,
            error: match self.error {
                Some(error) => Some(error@),
                None => None,
            },
            counts: self.counts@,
            max_concurrent_agents: self.agent_limits.max_concurrent_agents,
            running: views_of(self.running@),
            retrying: views_of(self.retrying@),
            codex_totals: self.codex_totals,
            rate_limits: opt_view(self.rate_limits),
            todoist_rate_budget: opt_budget(self.todoist_rate_budget),
            polling: self.polling,
            workflow_path: self.workflow.path@,
            dispatch_status: self.workflow.dispatch_status@,
            blocking_reason: opt_text(self.workflow.blocking_reason),
            using_last_good: self.workflow.using_last_good,
            project_url: opt_text(self.links.project_url),
            dashboard_url: opt_text(self.links.dashboard_url),
            tps_5s: self.throughput.tps_5s@,
            graph_10m: self.throughput.graph_10m@,
        }
    }
}

/// What the state is presented against: the workflow and the configuration.
#[derive(Debug)]
pub struct PresentContext {
    pub workflow_path: String,
    /// Why the workflow is not valid, if it is not.
    pub validation_error: Option<String>,
    /// Why the configuration is not ready for dispatching, if it is not.
    pub dispatch_error: Option<String>,
    pub project_id: Option<String>,
    pub server_host: Option<String>,
    pub server_port: Option<u16>,
    pub bound_port: Option<u16>,
    pub max_concurrent_agents: usize,
}

/// What is presented of a task that runs; `numbers` are those of the rate limits that its
/// last message tells of.
pub open spec fn running_payload(
    entry: RunningSnapshotView,
    generated_at: i128,
    numbers: NumbersView,
) -> RunningEntryView {
    RunningEntryView {
        issue_id: entry.issue_id,
        issue_identifier: entry.issue_identifier,
        title: entry.title,
        state: entry.state,
        url: entry.url,
        project_url: opt_project_address(entry.project_id),
        labels: entry.labels,
        due: entry.due,
        deadline: entry.deadline,
        worker_host: entry.worker_host,
        session_id: entry.session_id,
        app_server_pid: entry.codex_app_server_pid,
        turn_count: entry.turn_count,
        last_event: entry.last_event,
        last_message: summary_of(
            entry.last_event,
            entry.last_message,
            parsed_message(entry.last_message),
            numbers,
        ),
        started_at: entry.started_at,
        last_event_at: entry.last_event_at,
        runtime_ms: run_ms(entry.started_at, generated_at) as u64,
        workspace: entry.workspace,
        tokens: entry.tokens,
    }
}

fn as_opt_str(text: &Option<String>) -> (r: Option<&str>)
    ensures
        opt_str(r) == opt_text(*text),
{
    match text {
        Some(text) => Some(text.as_str()),
        None => None,
    }
}

/// What is presented of a task that runs.
pub fn present_running_entry(entry: RunningSnapshot, generated_at: i128, numbers: &LimitNumbers) -> (r:
    RunningEntryPayload)
    ensures
        r@ == running_payload(entry@, generated_at, numbers@),
{
    let last_message: Option<String> = summarize_codex_message(
        as_opt_str(&entry.last_event),
        as_opt_str(&entry.last_message),
        numbers,
    );
    let project_url: Option<String> = opt_project_url(&entry.project_id);
    RunningEntryPayload {
        issue_id: entry.issue_id,
        issue_identifier: entry.issue_identifier,
        title: entry.title,
        state: entry.state,
        url: entry.url,
        project_url,
        labels: entry.labels,
        due: entry.due,
        deadline: entry.deadline,
        worker_host: entry.worker_host,
        session_id: entry.session_id,
        app_server_pid: entry.codex_app_server_pid,
        turn_count: entry.turn_count,
        last_event: entry.last_event,
        last_message,
        started_at: entry.started_at,
        last_event_at: entry.last_event_at,
        runtime_ms: runtime_ms(entry.started_at, generated_at),
        workspace: entry.workspace,
        tokens: entry.tokens,
    }
}

/// What is presented of all tasks.
pub open spec fn presented(
    snapshot: SnapshotView,
    context: PresentContext,
    numbers: Seq<NumbersView>,
    throughput: ThroughputPayload,
) -> StatePayloadView {
    let blocking_reason = match opt_text(context.validation_error) {
        Some(reason) => Some(reason),
        None => opt_text(context.dispatch_error),
    };
    StatePayloadView {
        generated_at: snapshot.generated_at,
        snapshot_status: SnapshotStatus::Fresh,
        snapshot_age_ms: None,
        error: None,
        counts: snapshot.counts,
        max_concurrent_agents: context.max_concurrent_agents,
        running: Seq::new(
            snapshot.running.len(),
            |i: int| running_payload(snapshot.running[i], snapshot.generated_at, numbers[i]),
        ),
        retrying: snapshot.retrying,
        codex_totals: snapshot.codex_totals,
        rate_limits: snapshot.rate_limits,
        todoist_rate_budget: snapshot.todoist_rate_budget,
        polling: snapshot.polling,
        workflow_path: context.workflow_path@,
        dispatch_status: if blocking_reason is None {
            "ready"@
        } else {
            "blocked"@
        },
        blocking_reason,
        using_last_good: context.validation_error is Some,
        project_url: opt_project_address(opt_text(context.project_id)),
        dashboard_url: dashboard_address(
            match opt_text(context.server_host) {
                Some(host) => host,
                None => "127.0.0.1"@,
            },
            context.server_port,
            context.bound_port,
        ),
        tps_5s: throughput.tps_5s@,
        graph_10m: throughput.graph_10m@,
    }
}

// ---------------------------------------------------------------------------
// One task as it is presented
// ---------------------------------------------------------------------------

/// Where a task is worked on.
#[derive(Debug)]
pub struct IssueWorkspacePayload {
    pub path: String,
    pub worker_host: Option<String>,
}

/// How often a task has been tried.
#[derive(Clone, Copy, Debug, PartialEq, Eq, Structural)]
pub struct IssueAttemptsPayload {
    pub restart_count: u32,
    pub current_retry_attempt: Option<u32>,
}

/// The logs of a task.
#[derive(Debug)]
pub struct IssueLogsPayload {
    pub codex_session_logs: Vec<String>,
}

/// The worker on a task, as it is presented.
#[derive(Debug)]
pub struct IssueRunningPayload {
    pub worker_host: Option<String>,
    pub session_id: Option<String>,
    pub app_server_pid: Option<u32>,
    pub turn_count: u32,
    pub state: String,
    pub started_at: i128,
    pub last_event: Option<String>,
    pub last_message: Option<String>,
    pub last_event_at: Option<i128>,
    pub runtime_ms: u64,
    pub tokens: TokenSnapshot,
}

/// The worker on a task, as it is presented.
pub struct IssueRunningView {
    pub worker_host: Option<Seq<char>>,
    pub session_id: Option<Seq<char>>,
    pub app_server_pid: Option<u32>,
    pub turn_count: u32,
    pub state: Seq<char>,
    pub started_at: i128,
    pub last_event: Option<Seq<char>>,
    pub last_message: Option<Seq<char>>,
    pub last_event_at: Option<i128>,
    pub runtime_ms: u64,
    pub tokens: TokenSnapshot,
}

impl View for IssueRunningPayload {
    type V = IssueRunningView;

    open spec fn view(&self) -> IssueRunningView {
        IssueRunningView {
            worker_host: opt_text(self.worker_host),
            session_id: opt_text(self.session_id),
            app_server_pid: self.app_server_pid,
            turn_count: self.turn_count,
            state: self.state@,
            started_at: self.started_at,
            last_event: opt_text(self.last_event),
            last_message: opt_text(self.last_message),
            last_event_at: self.last_event_at,
            runtime_ms: self.runtime_ms,
            tokens: self.tokens,
        }
    }
}

/// When and why a task is taken up again, as it is presented.
#[derive(Debug)]
pub struct IssueRetryPayload {
    pub attempt: u32,
    pub due_at: i128,
    pub worker_host: Option<String>,
    pub workspace_location: Option<String>,
    pub error: Option<String>,
}

/// When and why a task is taken up again, as it is presented.
pub struct IssueRetryView {
    pub attempt: u32,
    pub due_at: i128,
    pub worker_host: Option<Seq<char>>,
    pub workspace_location: Option<Seq<char>>,
    pub error: Option<Seq<char>>,
}

impl View for IssueRetryPayload {
    type V = IssueRetryView;

    open spec fn view(&self) -> IssueRetryView {
        IssueRetryView {
            attempt: self.attempt,
            due_at: self.due_at,
            worker_host: opt_text(self.worker_host),
            workspace_location: opt_text(self.workspace_location),
            error: opt_text(self.error),
        }
    }
}

/// Something that a worker reported, as it is presented.
#[derive(Debug)]
pub struct RecentEventPayload {
    pub at: i128,
    pub event: String,
    pub message: Option<String>,
}

impl View for RecentEventPayload {
    type V = RecentView;

    open spec fn view(&self) -> RecentView {
        RecentView { at: self.at, event: self.event@, message: opt_text(self.message) }
    }
}

/// One task, as it is presented.
#[derive(Debug)]
pub struct IssuePayload {
    pub issue_identifier: String,
    pub issue_id: Option<String>,
    pub status: String,
    pub workspace: IssueWorkspacePayload,
    pub attempts: IssueAttemptsPayload,
    pub running: Option<IssueRunningPayload>,
    pub retry: Option<IssueRetryPayload>,
    pub logs: IssueLogsPayload,
    pub recent_events: Vec<RecentEventPayload>,
    pub last_error: Option<String>,
    pub tracked_issue: Json,
}

/// One task, as it is presented.
pub struct IssuePayloadView {
    pub issue_identifier: Seq<char>,
    pub issue_id: Option<Seq<char>>,
    pub status: Seq<char>,
    pub workspace_path: Seq<char>,
    pub workspace_host: Option<Seq<char>>,
    pub restart_count: u32,
    pub current_retry_attempt: Option<u32>,
    pub running: Option<IssueRunningView>,
    pub retry: Option<IssueRetryView>,
    pub codex_session_logs: Seq<Seq<char>>,
    pub recent_events: Seq<RecentView>,
    pub last_error: Option<Seq<char>>,
    pub tracked_issue: JsonView,
}

impl View for IssuePayload {
    type V = IssuePayloadView;

    open spec fn view(&self) -> IssuePayloadView {
        IssuePayloadView {
            issue_identifier: self.issue_identifier@,
            issue_id: opt_text(self.issue_id),
            status: self.status@,
            workspace_path: self.workspace.path@,
            workspace_host: opt_text(self.workspace.worker_host),
            restart_count: self.attempts.restart_count,
            current_retry_attempt: self.attempts.current_retry_attempt,
            running: match self.running {
                Some(running) => Some(running@),
                None => None,
            },
            retry: match self.retry {
                Some(retry) => Some(retry@),
                None => None,
            },
            codex_session_logs: texts(self.logs.codex_session_logs@),
            recent_events: views_of(self.recent_events@),
            last_error: opt_text(self.last_error),
            tracked_issue: self.tracked_issue@,
        }
    }
}

/// A followed task as JSON, with the address of its project.
pub open spec fn tracked_json(issue: Option<IssueView>) -> JsonView {
    match issue {
        None => JsonView::Object(Seq::empty()),
        Some(issue) => match issue_json(issue) {
            JsonView::Object(entries) => JsonView::Object(
                match issue.project_id {
                    Some(id) => put(entries, "project_url"@, JsonView::Text(project_address(id))),
                    None => entries,
                },
            ),
            other => other,
        },
    }
}

/// A followed task as JSON, with the address of its project.
pub fn tracked_issue_payload(issue: Option<&Issue>) -> (r: Json)
    ensures
        r@ == tracked_json(
            match issue {
                Some(issue) => Some(issue@),
                None => None,
            },
        ),
{
    broadcast use group_json_views;

    match issue {
        None => Json::empty_object(),
        Some(issue) => match issue_to_json(issue) {
            Json::Object(entries) => {
                let mut entries: Vec<(String, Json)> = entries;
                match &issue.project_id {
                    Some(id) => {
                        insert(
                            &mut entries,
                            owned("project_url"),
                            Json::Text(todoist_project_url(id.as_str())),
                        );
                    },
                    None => {},
                }
                Json::Object(entries)
            },
            other => other,
        },
    }
}

/// What is presented of something that a worker reported.
pub open spec fn event_payload(event: RecentView, numbers: NumbersView) -> RecentView {
    RecentView {
        at: event.at,
        event: event.event,
        message: summary_of(
            Some(event.event),
            event.message,
            parsed_message(event.message),
            numbers,
        ),
    }
}

/// What is presented of one task.
pub open spec fn presented_issue(
    detail: IssueDetailView,
    now: i128,
    numbers: NumbersView,
    event_numbers: Seq<NumbersView>,
) -> IssuePayloadView {
    IssuePayloadView {
        issue_identifier: detail.issue_identifier,
        issue_id: detail.issue_id,
        status: detail.status,
        workspace_path: detail.workspace_path,
        workspace_host: detail.workspace_host,
        restart_count: detail.attempts.restart_count,
        current_retry_attempt: detail.attempts.current_retry_attempt,
        running: match detail.running {
            Some(running) => Some(
                IssueRunningView {
                    worker_host: running.worker_host,
                    session_id: running.session_id,
                    app_server_pid: running.codex_app_server_pid,
                    turn_count: running.turn_count,
                    state: running.state,
                    started_at: running.started_at,
                    last_event: running.last_event,
                    last_message: summary_of(
                        running.last_event,
                        running.last_message,
                        parsed_message(running.last_message),
                        numbers,
                    ),
                    last_event_at: running.last_event_at,
                    runtime_ms: run_ms(running.started_at, now) as u64,
                    tokens: running.tokens,
                },
            ),
            None => None,
        },
        retry: match detail.retry {
            Some(retry) => Some(
                IssueRetryView {
                    attempt: retry.attempt,
                    due_at: retry.due_at,
                    worker_host: retry.worker_host,
                    workspace_location: retry.workspace_location,
                    error: retry.error,
                },
            ),
            None => None,
        },
        codex_session_logs: Seq::empty(),
        recent_events: Seq::new(
            detail.recent_events.len(),
            |i: int| event_payload(detail.recent_events[i], event_numbers[i]),
        ),
        last_error: detail.last_error,
        tracked_issue: tracked_json(detail.tracked_issue),
    }
}

// ---------------------------------------------------------------------------
// The presenter
// ---------------------------------------------------------------------------

/// Presents what operators see, and keeps how many tokens had been used when.
#[derive(Debug)]
pub struct Presenter {
    pub token_samples: TokenSamples,
}

/// What is measured of the use of tokens: the rate of now, unless it has been measured in
/// this second, and the rates in each column of the graph.
#[derive(Debug)]
pub struct Measured {
    pub rate: Option<TokenRate>,
    pub columns: Vec<Vec<TokenRate>>,
}

/// Nothing is known of any task.
pub open spec fn empty_snapshot(generated_at: i128) -> SnapshotView {
    SnapshotView {
        generated_at,
        counts: CountsView { running: 0, retrying: 0 },
        running: Seq::empty(),
        retrying: Seq::empty(),
        codex_totals: SnapshotTotals {
            tokens: TokenSnapshot { input_tokens: 0, output_tokens: 0, total_tokens: 0 },
            running_ms: 0,
        },
        rate_limits: None,
        todoist_rate_budget: None,
        polling: PollingSnapshot { checking: false, next_poll_in_ms: None, poll_interval_ms: 0 },
    }
}

/// What is presented where the state cannot be had.
pub open spec fn presented_failure(
    generated_at: i128,
    context: PresentContext,
    throughput: ThroughputPayload,
) -> StatePayloadView {
    StatePayloadView {
        snapshot_status: SnapshotStatus::Unavailable,
        error: Some(
            ErrorView {
                code: "snapshot_unavailable"@,
                message: "Orchestrator snapshot unavailable"@,
            },
        ),
        ..presented(empty_snapshot(generated_at), context, Seq::empty(), throughput)
    }
}

impl Presenter {
    /// Nothing has been measured yet.
    pub fn new() -> (r: Presenter)
        ensures
            r.token_samples.samples@ == Seq::<TokenSample>::empty(),
            r.token_samples.last_tps_second is None,
    {
        Presenter { token_samples: TokenSamples::new() }
    }

    /// Takes in how many tokens have been used by now, and measures the rates.
    pub fn measure(&mut self, snapshot: &Snapshot) -> (r: Measured)
        ensures
            ({
                let now = TokenSample {
                    at_ms: millis_of(snapshot@.generated_at) as i64,
                    tokens: snapshot@.codex_totals.tokens.total_tokens,
                };
                let before = old(self).token_samples;
                let after = final(self).token_samples;
                let second = Some(second_of(now.at_ms) as i64);
                &&& after.samples@ == kept(
                    seq![now] + before.samples@,
                    now.at_ms - THROUGHPUT_GRAPH_WINDOW_MS,
                )
                &&& after.last_tps_second == second
                &&& r.rate == if before.last_tps_second == second {
                    None
                } else {
                    Some(current_rate(after.samples@, now))
                }
                &&& rate_lists(r.columns@) == columns(after.samples@, now)
            }),
    {
        let now_ms: i64 = whole_millis(snapshot.generated_at);
        let total: u64 = snapshot.codex_totals.tokens.total_tokens;
        self.token_samples.capture_token_sample(now_ms, total);
        let rate: Option<TokenRate> = self.token_samples.throttled_rate(now_ms, total);
        let columns: Vec<Vec<TokenRate>> = self.token_samples.graph_rates(now_ms, total);
        Measured { rate, columns }
    }

    /// What is presented of all tasks. `numbers` are, for each task that runs, those of the
    /// rate limits that its last message tells of.
    pub fn present_state(
        snapshot: Snapshot,
        context: PresentContext,
        numbers: &Vec<LimitNumbers>,
        throughput: ThroughputPayload,
    ) -> (r: StatePayload)
        requires
            numbers@.len() == snapshot@.running.len(),
        ensures
            r@ == presented(snapshot@, context, views_of(numbers@), throughput),
    {
        let ghost given = snapshot@;
        let ghost known = context;
        let generated_at: i128 = snapshot.generated_at;
        let ghost entries = snapshot.running@;
        let count: usize = numbers.len();
        let mut running: Vec<RunningEntryPayload> = Vec::new();
        let mut k: usize = 0;
        for entry in it: snapshot.running
            invariant
                it.seq() == entries,
                count == numbers@.len(),
                count == entries.len(),
                k == it.index(),
                running.len() == k,
                forall|j: int|
                    0 <= j < k ==> (#[trigger] running@[j])@ == running_payload(
                        entries[j]@,
                        generated_at,
                        numbers@[j]@,
                    ),
        {
            running.push(present_running_entry(entry, generated_at, &numbers[k]));
            k = k + 1;
        }
        let using_last_good: bool = context.validation_error.is_some();
        let blocking_reason: Option<String> = match context.validation_error {
            Some(reason) => Some(reason),
            None => context.dispatch_error,
        };
        let host: &str = match &context.server_host {
            Some(host) => host.as_str(),
            None => "127.0.0.1",
        };
        let r: StatePayload = StatePayload {
            generated_at,
            snapshot_status: SnapshotStatus::Fresh,
            snapshot_age_ms: None,
            error: None,
            counts: snapshot.counts,
            agent_limits: AgentLimitsPayload { max_concurrent_agents: context.max_concurrent_agents },
            running,
            retrying: snapshot.retrying,
            codex_totals: snapshot.codex_totals,
            rate_limits: snapshot.rate_limits,
            todoist_rate_budget: snapshot.todoist_rate_budget,
            polling: snapshot.polling,
            workflow: WorkflowPayload {
                path: context.workflow_path,
                dispatch_status: if blocking_reason.is_none() {
                    "ready"
                } else {
                    "blocked"
                },
                blocking_reason,
                using_last_good,
            },
            links: LinksPayload {
                project_url: opt_project_url(&context.project_id),
                dashboard_url: dashboard_url(host, context.server_port, context.bound_port),
            },
            throughput,
        };
        proof {
            assert(r@.running =~= presented(given, known, views_of(numbers@), throughput).running);
        }
        r
    }

    /// What is presented where the state cannot be had.
    pub fn present_snapshot_failure(
        generated_at: i128,
        context: PresentContext,
        throughput: ThroughputPayload,
    ) -> (r: StatePayload)
        ensures
            r@ == presented_failure(generated_at, context, throughput),
    {
        let snapshot: Snapshot = Snapshot {
            generated_at,
            counts: SnapshotCounts { running: 0, retrying: 0 },
            running: Vec::new(),
            retrying: Vec::new(),
            codex_totals: SnapshotTotals {
                tokens: TokenSnapshot { input_tokens: 0, output_tokens: 0, total_tokens: 0 },
                running_ms: 0,
            },
            rate_limits: None,
            todoist_rate_budget: None,
            polling: PollingSnapshot {
                checking: false,
                next_poll_in_ms: None,
                poll_interval_ms: 0,
            },
        };
        let numbers: Vec<LimitNumbers> = Vec::new();
        proof {
            assert(snapshot@.running =~= Seq::empty());
            assert(snapshot@.retrying =~= Seq::empty());
            assert(views_of(numbers@) =~= Seq::empty());
        }
        let mut payload: StatePayload = Presenter::present_state(
            snapshot,
            context,
            &numbers,
            throughput,
        );
        payload.snapshot_status = SnapshotStatus::Unavailable;
        payload.error = Some(
            ErrorPayload {
                code: "snapshot_unavailable",
                message: "Orchestrator snapshot unavailable",
            },
        );
        payload
    }

    /// What is presented of something that a worker reported.
    pub fn present_recent_event(event: RecentEvent, numbers: &LimitNumbers) -> (r: RecentEventPayload)
        ensures
            r@ == event_payload(event@, numbers@),
    {
        let message: Option<String> = summarize_codex_message(
            Some(event.event.as_str()),
            as_opt_str(&event.message),
            numbers,
        );
        RecentEventPayload { at: event.at, event: event.event, message }
    }

    /// What is presented of one task. `numbers` are those of the rate limits that the last
    /// message of its worker tells of, and `event_numbers` those of each of its events.
    pub fn present_issue_detail(
        detail: IssueDetail,
        now: i128,
        numbers: &LimitNumbers,
        event_numbers: &Vec<LimitNumbers>,
    ) -> (r: IssuePayload)
        requires
            event_numbers@.len() == detail@.recent_events.len(),
        ensures
            r@ == presented_issue(detail@, now, numbers@, views_of(event_numbers@)),
    {
        let ghost given = detail@;
        let ghost events = detail.recent_events@;
        let count: usize = event_numbers.len();
        let mut recent_events: Vec<RecentEventPayload> = Vec::new();
        let mut k: usize = 0;
        for event in it: detail.recent_events
            invariant
                it.seq() == events,
                count == event_numbers@.len(),
                count == events.len(),
                k == it.index(),
                recent_events.len() == k,
                forall|j: int|
                    0 <= j < k ==> (#[trigger] recent_events@[j])@ == event_payload(
                        events[j]@,
                        event_numbers@[j]@,
                    ),
        {
            recent_events.push(Presenter::present_recent_event(event, &event_numbers[k]));
            k = k + 1;
        }
        let running: Option<IssueRunningPayload> = match detail.running {
            Some(running) => {
                let last_message: Option<String> = summarize_codex_message(
                    as_opt_str(&running.last_event),
                    as_opt_str(&running.last_message),
                    numbers,
                );
                Some(
                    IssueRunningPayload {
                        worker_host: running.worker_host,
                        session_id: running.session_id,
                        app_server_pid: running.codex_app_server_pid,
                        turn_count: running.turn_count,
                        state: running.state,
                        started_at: running.started_at,
                        last_event: running.last_event,
                        last_message,
                        last_event_at: running.last_event_at,
                        runtime_ms: runtime_ms(running.started_at, now),
                        tokens: running.tokens,
                    },
                )
            },
            None => None,
        };
        let retry: Option<IssueRetryPayload> = match detail.retry {
            Some(retry) => Some(
                IssueRetryPayload {
                    attempt: retry.attempt,
                    due_at: retry.due_at,
                    worker_host: retry.worker_host,
                    workspace_location: retry.workspace_location,
                    error: retry.error,
                },
            ),
            None => None,
        };
        let tracked_issue: Json = tracked_issue_payload(
            match &detail.tracked_issue {
                Some(issue) => Some(issue),
                None => None,
            },
        );
        let r: IssuePayload = IssuePayload {
            issue_identifier: detail.issue_identifier,
            issue_id: detail.issue_id,
            status: detail.status,
            workspace: IssueWorkspacePayload {
                path: detail.workspace.path,
                worker_host: detail.workspace.worker_host,
            },
            attempts: IssueAttemptsPayload {
                restart_count: detail.attempts.restart_count,
                current_retry_attempt: detail.attempts.current_retry_attempt,
            },
            running,
            retry,
            logs: IssueLogsPayload { codex_session_logs: Vec::new() },
            recent_events,
            last_error: detail.last_error,
            tracked_issue,
        };
        proof {
            let spec = presented_issue(given, now, numbers@, views_of(event_numbers@));
            assert(r@.recent_events =~= spec.recent_events);
            assert(r@.codex_session_logs =~= Seq::empty());
        }
        r
    }
}

// ---------------------------------------------------------------------------
// Laws
// ---------------------------------------------------------------------------

/// The address of the dashboard never names a host that only takes calls.
pub proof fn law_addresses_name_a_host(host: Seq<char>)
    ensures
        address_host(host) != ""@,
        address_host(host) != "0.0.0.0"@,
        address_host(host) != "::"@,
        address_host(host) != "[::]"@,
{
    let t = trimmed(host);
    let bracketed = "["@ + t + "]"@;
    reveal_strlit("");
    reveal_strlit("0.0.0.0");
    reveal_strlit("::");
    reveal_strlit("[::]");
    reveal_strlit("127.0.0.1");
    reveal_strlit("[");
    reveal_strlit("]");
    assert("127.0.0.1"@.len() == 9);
    assert(""@.len() == 0);
    assert("127.0.0.1"@[0] != "0.0.0.0"@[0]);
    assert("127.0.0.1"@[0] != "::"@[0]);
    assert("127.0.0.1"@[0] != "[::]"@[0]);
    assert(bracketed.len() == t.len() + 2);
    assert(bracketed[0] == '[');
    assert(bracketed[0] != "0.0.0.0"@[0]);
    assert(bracketed[0] != "::"@[0]);
    if bracketed == "[::]"@ {
        assert("[::]"@.len() == 4);
        assert(bracketed[1] == t[0]);
        assert(bracketed[2] == t[1]);
        assert(t =~= "::"@);
    }
}

/// Tasks are dispatched unless there is a reason against it, and a workflow that is not
/// valid is one.
pub proof fn law_dispatch_is_blocked_for_a_reason(
    snapshot: SnapshotView,
    context: PresentContext,
    numbers: Seq<NumbersView>,
    throughput: ThroughputPayload,
)
    ensures
        ({
            let shown = presented(snapshot, context, numbers, throughput);
            &&& shown.dispatch_status == "ready"@ <==> shown.blocking_reason is None
            &&& shown.dispatch_status == "blocked"@ <==> shown.blocking_reason is Some
            &&& shown.using_last_good ==> shown.blocking_reason is Some
        }),
{
    reveal_strlit("ready");
    reveal_strlit("blocked");
    assert("ready"@.len() != "blocked"@.len());
}

/// Nothing is lost on the way to the operator: each task that runs, and each that waits,
/// is presented under its own identifier, in the same place.
pub proof fn law_every_task_is_presented(
    snapshot: SnapshotView,
    context: PresentContext,
    numbers: Seq<NumbersView>,
    throughput: ThroughputPayload,
)
    ensures
        ({
            let shown = presented(snapshot, context, numbers, throughput);
            &&& shown.running.len() == snapshot.running.len()
            &&& forall|i: int|
                0 <= i < snapshot.running.len() ==> (#[trigger] shown.running[i]).issue_id
                    == snapshot.running[i].issue_id && shown.running[i].issue_identifier
                    == snapshot.running[i].issue_identifier
            &&& shown.retrying == snapshot.retrying
        }),
{
}

} // verus!
