//! What the library knows of the task tracker: its errors and what it can do.
use vstd::prelude::*;

use crate::json::{Json, JsonView};

verus! {

/// The longest task comment that the tracker accepts, in bytes.
pub const TODOIST_COMMENT_SIZE_LIMIT: usize = 15_000;

/// What a tracker account can do.
#[derive(Clone, Copy, Debug, PartialEq, Eq, Structural)]
pub struct TrackerCapabilities {
    pub comments: bool,
    pub reminders: bool,
    pub activity_log: bool,
}

impl TrackerCapabilities {
    /// Everything: what is taken for granted where the tracker does not say.
    pub fn full() -> (r: TrackerCapabilities)
        ensures
            r == (TrackerCapabilities { comments: true, reminders: true, activity_log: true }),
    {
        TrackerCapabilities { comments: true, reminders: true, activity_log: true }
    }
}

/// How many requests the tracker still takes. Points in time are nanoseconds since the
/// start of 1970.
#[derive(Debug)]
pub struct TrackerRateBudget {
    pub service: String,
    pub limit: Option<u64>,
    pub remaining: Option<u64>,
    pub reset_at: Option<i128>,
    pub reset_in_seconds: Option<u64>,
    pub retry_after_seconds: Option<u64>,
    pub throttled_until: Option<i128>,
    pub throttled_for_seconds: Option<u64>,
    pub next_request_at: Option<i128>,
    pub next_request_in_seconds: Option<u64>,
    pub observed_at: Option<i128>,
}

/// How many requests the tracker still takes.
pub struct RateBudgetView {
    pub service: Seq<char>,
    pub limit: Option<u64>,
    pub remaining: Option<u64>,
    pub reset_at: Option<i128>,
    pub reset_in_seconds: Option<u64>,
    pub retry_after_seconds: Option<u64>,
    pub throttled_until: Option<i128>,
    pub throttled_for_seconds: Option<u64>,
    pub next_request_at: Option<i128>,
    pub next_request_in_seconds: Option<u64>,
    pub observed_at: Option<i128>,
}

impl View for TrackerRateBudget {
    type V = RateBudgetView;

    open spec fn view(&self) -> RateBudgetView {
        RateBudgetView {
            service: self.service@,
            limit: self.limit,
            remaining: self.remaining,
            reset_at: self.reset_at,
            reset_in_seconds: self.reset_in_seconds,
            retry_after_seconds: self.retry_after_seconds,
            throttled_until: self.throttled_until,
            throttled_for_seconds: self.throttled_for_seconds,
            next_request_at: self.next_request_at,
            next_request_in_seconds: self.next_request_in_seconds,
            observed_at: self.observed_at,
        }
    }
}

/// What an optional budget holds.
pub open spec fn opt_budget(budget: Option<TrackerRateBudget>) -> Option<RateBudgetView> {
    match budget {
        Some(budget) => Some(budget@),
        None => None,
    }
}

impl TrackerRateBudget {
    /// A copy of the budget.
    pub fn copy(&self) -> (r: TrackerRateBudget)
        ensures
            r@ == self@,
    {
        TrackerRateBudget {
            service: self.service.clone(),
            limit: self.limit,
            remaining: self.remaining,
            reset_at: self.reset_at,
            reset_in_seconds: self.reset_in_seconds,
            retry_after_seconds: self.retry_after_seconds,
            throttled_until: self.throttled_until,
            throttled_for_seconds: self.throttled_for_seconds,
            next_request_at: self.next_request_at,
            next_request_in_seconds: self.next_request_in_seconds,
            observed_at: self.observed_at,
        }
    }
}

/// A copy of an optional budget.
pub fn copy_budget(budget: &Option<TrackerRateBudget>) -> (r: Option<TrackerRateBudget>)
    ensures
        opt_budget(r) == opt_budget(*budget),
{
    match budget {
        Some(budget) => Some(budget.copy()),
        None => None,
    }
}

/// Why a tracker operation failed.
#[derive(Debug)]
pub enum TrackerError {
    MissingTrackerApiKey,
    MissingTrackerProjectId,
    TodoistProjectNotFound(String),
    TodoistMissingRequiredSection(String),
    TodoistAssigneeNotResolvable { assignee: String, project_id: String },
    MissingTodoistCurrentUser,
    TodoistCommentsUnavailable,
    TodoistRemindersUnavailable,
    TodoistActivityLogUnavailable,
    TodoistCommentTooLarge { limit: usize, actual: usize },
    TodoistRateLimited { retry_after: Option<u64> },
    TodoistApiStatus { status: u16, body: Json },
    TodoistApiRequest(String),
    TodoistUnknownPayload,
    TrackerOperationUnsupported(String),
    UnsupportedTrackerKind(String),
    MissingTrackerFixturePath,
    MemoryFixtureIo { path: String, error: String },
    MemoryFixtureParse { path: String, error: String },
}

/// What a tracker error says.
pub enum TrackerErrorView {
    MissingTrackerApiKey,
    MissingTrackerProjectId,
    TodoistProjectNotFound(Seq<char>),
    TodoistMissingRequiredSection(Seq<char>),
    TodoistAssigneeNotResolvable { assignee: Seq<char>, project_id: Seq<char> },
    MissingTodoistCurrentUser,
    TodoistCommentsUnavailable,
    TodoistRemindersUnavailable,
    TodoistActivityLogUnavailable,
    TodoistCommentTooLarge { limit: usize, actual: usize },
    TodoistRateLimited { retry_after: Option<u64> },
    TodoistApiStatus { status: u16, body: JsonView },
    TodoistApiRequest(Seq<char>),
    TodoistUnknownPayload,
    TrackerOperationUnsupported(Seq<char>),
    UnsupportedTrackerKind(Seq<char>),
    MissingTrackerFixturePath,
    MemoryFixtureIo { path: Seq<char>, error: Seq<char> },
    MemoryFixtureParse { path: Seq<char>, error: Seq<char> },
}

impl View for TrackerError {
    type V = TrackerErrorView;

    open spec fn view(&self) -> TrackerErrorView {
        match self {
            TrackerError::MissingTrackerApiKey => TrackerErrorView::MissingTrackerApiKey,
            TrackerError::MissingTrackerProjectId => TrackerErrorView::MissingTrackerProjectId,
            TrackerError::TodoistProjectNotFound(p) => TrackerErrorView::TodoistProjectNotFound(p@),
            TrackerError::TodoistMissingRequiredSection(s) =>
                TrackerErrorView::TodoistMissingRequiredSection(s@),
            TrackerError::TodoistAssigneeNotResolvable { assignee, project_id } =>
                TrackerErrorView::TodoistAssigneeNotResolvable {
                assignee: assignee@,
                project_id: project_id@,
            },
            TrackerError::MissingTodoistCurrentUser => TrackerErrorView::MissingTodoistCurrentUser,
            TrackerError::TodoistCommentsUnavailable =>
                TrackerErrorView::TodoistCommentsUnavailable,
            TrackerError::TodoistRemindersUnavailable =>
                TrackerErrorView::TodoistRemindersUnavailable,
            TrackerError::TodoistActivityLogUnavailable =>
                TrackerErrorView::TodoistActivityLogUnavailable,
            TrackerError::TodoistCommentTooLarge { limit, actual } =>
                TrackerErrorView::TodoistCommentTooLarge { limit: *limit, actual: *actual },
            TrackerError::TodoistRateLimited { retry_after } =>
                TrackerErrorView::TodoistRateLimited { retry_after: *retry_after },
            TrackerError::TodoistApiStatus { status, body } => TrackerErrorView::TodoistApiStatus {
                status: *status,
                body: body@,
            },
            TrackerError::TodoistApiRequest(r) => TrackerErrorView::TodoistApiRequest(r@),
            TrackerError::TodoistUnknownPayload => TrackerErrorView::TodoistUnknownPayload,
            TrackerError::TrackerOperationUnsupported(r) =>
                TrackerErrorView::TrackerOperationUnsupported(r@),
            TrackerError::UnsupportedTrackerKind(k) => TrackerErrorView::UnsupportedTrackerKind(k@),
            TrackerError::MissingTrackerFixturePath => TrackerErrorView::MissingTrackerFixturePath,
            TrackerError::MemoryFixtureIo { path, error } => TrackerErrorView::MemoryFixtureIo {
                path: path@,
                error: error@,
            },
            TrackerError::MemoryFixtureParse { path, error } =>
                TrackerErrorView::MemoryFixtureParse { path: path@, error: error@ },
        }
    }
}

/// The error that an operation is not supported, with its reason.
pub open spec fn unsupported_view(reason: Seq<char>) -> TrackerErrorView {
    TrackerErrorView::TrackerOperationUnsupported(reason)
}

/// The error that an operation is not supported, with its reason.
pub fn unsupported(reason: String) -> (r: TrackerError)
    ensures
        r@ == unsupported_view(reason@),
{
    TrackerError::TrackerOperationUnsupported(reason)
}

/// What a text result holds.
pub open spec fn text_result(r: Result<String, TrackerError>) -> Result<
    Seq<char>,
    TrackerErrorView,
> {
    match r {
        Ok(s) => Ok(s@),
        Err(e) => Err(e@),
    }
}

/// What a result without a value holds.
pub open spec fn unit_result(r: Result<(), TrackerError>) -> Result<(), TrackerErrorView> {
    match r {
        Ok(()) => Ok(()),
        Err(e) => Err(e@),
    }
}

} // verus!
