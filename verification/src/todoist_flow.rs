//! A call of the Todoist tool from its arguments to its answer. Each step says what the
//! caller does next; the caller does it and hands back what came of it.
use vstd::prelude::*;
use vstd::string::*;

use crate::actions::{
    action_named, begin_todoist, call_accepted, ensure_comment_is_project_scoped, id_argument,
    plan_todoist, planned, project_scoped, TodoistCall, TodoistStep, TodoistStepView,
};
use crate::github::{
    after_api, after_gh, api_answer, closable, closable_state, close_content, close_link,
    closed_reply, closed_task, coordinates, gh_payload, linked_pull_request, on_api_answer,
    on_gh_view, pull_path, pull_request_path_of, tells_merge, GhViewReply, MergeStep,
    MergeStepView,
};
use crate::issue::{Issue, IssueView};
use crate::json::{entry_views, opt_items, opt_json_text, opt_view, Json, JsonView};
use crate::sorting::views_of;
use crate::text::{opt_text, texts};
use crate::tracker::{
    unit_result, unsupported_view, TrackerCapabilities, TrackerError, TrackerErrorView,
};
use crate::workpad::{
    all_storable, canonical, comment_content, contents_decide, hint_of, is_workpad, normalized,
    pr_url_in, try_normalize_workpad_content, usable_hint,
};
use crate::workpad_flow::{
    build_list_arguments, comment_with, delete_reply, delete_workpad, deleted_workpad, get_workpad,
    hinted_comment, list_arguments, read_reply, repair, resolution_result, step_result, upsert,
    upsert_workpad, upserted_workpad, workpads_in, write_reply, SearchStep, SearchStepView,
    SearchView, UpsertStep, UpsertStepView, WorkpadCommentResolution, WorkpadSearch,
};

verus! {

broadcast use {vstd::seq::group_seq_axioms, vstd::string::group_string_axioms};

/// What the workpad of a task is looked for.
#[derive(Debug)]
pub enum Purpose {
    Read,
    /// To hold these notes, which are in the form in which a workpad is stored.
    Write { content: String },
    Delete,
    /// To close the task, which is in this state.
    Close { state: String },
}

/// What the workpad of a task is looked for.
pub enum PurposeView {
    Read,
    Write { content: Seq<char> },
    Delete,
    Close { state: Seq<char> },
}

impl View for Purpose {
    type V = PurposeView;

    open spec fn view(&self) -> PurposeView {
        match self {
            Purpose::Read => PurposeView::Read,
            Purpose::Write { content } => PurposeView::Write { content: content@ },
            Purpose::Delete => PurposeView::Delete,
            Purpose::Close { state } => PurposeView::Close { state: state@ },
        }
    }
}

/// One operation of the tracker.
#[derive(Debug)]
pub enum Request {
    /// An operation that is carried out as it stands.
    Plain(TodoistStep),
    GetComment(String),
    ListComments(Json),
    CreateComment(Json),
    UpdateComment { id: String, arguments: Json },
    DeleteComment(String),
    CloseTask(String),
}

/// One operation of the tracker.
pub enum RequestView {
    Plain(TodoistStepView),
    GetComment(Seq<char>),
    ListComments(JsonView),
    CreateComment(JsonView),
    UpdateComment { id: Seq<char>, arguments: JsonView },
    DeleteComment(Seq<char>),
    CloseTask(Seq<char>),
}

impl View for Request {
    type V = RequestView;

    open spec fn view(&self) -> RequestView {
        match self {
            Request::Plain(step) => RequestView::Plain(step@),
            Request::GetComment(id) => RequestView::GetComment(id@),
            Request::ListComments(arguments) => RequestView::ListComments(arguments@),
            Request::CreateComment(arguments) => RequestView::CreateComment(arguments@),
            Request::UpdateComment { id, arguments } => RequestView::UpdateComment {
                id: id@,
                arguments: arguments@,
            },
            Request::DeleteComment(id) => RequestView::DeleteComment(id@),
            Request::CloseTask(id) => RequestView::CloseTask(id@),
        }
    }
}

/// What a reply of the tracker is awaited for.
#[derive(Debug)]
pub enum Wait {
    /// The reply is the answer.
    Answer,
    /// Whether the comment that is to be deleted belongs to a project.
    ScopeOfDeleted(String),
    /// Whether the comment that is to be updated belongs to a project.
    ScopeOfUpdated { id: String, arguments: Json },
    /// Whether the comment that was hinted at is the workpad.
    Hinted { search: WorkpadSearch, hint: String, purpose: Purpose },
    /// The comments of the task.
    Listed { search: WorkpadSearch, purpose: Purpose },
    /// That a duplicate is gone; these are still left.
    Repairing {
        task_id: String,
        left: Vec<String>,
        outcome: Result<WorkpadCommentResolution, TrackerError>,
        purpose: Purpose,
    },
    /// The workpad as it has been written.
    Written { task_id: String, created: bool, repaired: bool },
    /// That the workpad is gone.
    Deleted { task_id: String, id: String, repaired: bool },
    /// That the task is closed.
    Closed { task_id: String, state: String, pr_url: String },
}

/// What a reply of the tracker is awaited for.
pub enum WaitView {
    Answer,
    ScopeOfDeleted(Seq<char>),
    ScopeOfUpdated { id: Seq<char>, arguments: JsonView },
    Hinted { search: SearchView, hint: Seq<char>, purpose: PurposeView },
    Listed { search: SearchView, purpose: PurposeView },
    Repairing {
        task_id: Seq<char>,
        left: Seq<Seq<char>>,
        outcome: Result<(Option<JsonView>, bool), TrackerErrorView>,
        purpose: PurposeView,
    },
    Written { task_id: Seq<char>, created: bool, repaired: bool },
    Deleted { task_id: Seq<char>, id: Seq<char>, repaired: bool },
    Closed { task_id: Seq<char>, state: Seq<char>, pr_url: Seq<char> },
}

impl View for Wait {
    type V = WaitView;

    open spec fn view(&self) -> WaitView {
        match self {
            Wait::Answer => WaitView::Answer,
            Wait::ScopeOfDeleted(id) => WaitView::ScopeOfDeleted(id@),
            Wait::ScopeOfUpdated { id, arguments } => WaitView::ScopeOfUpdated {
                id: id@,
                arguments: arguments@,
            },
            Wait::Hinted { search, hint, purpose } => WaitView::Hinted {
                search: search@,
                hint: hint@,
                purpose: purpose@,
            },
            Wait::Listed { search, purpose } => WaitView::Listed {
                search: search@,
                purpose: purpose@,
            },
            Wait::Repairing { task_id, left, outcome, purpose } => WaitView::Repairing {
                task_id: task_id@,
                left: texts(left@),
                outcome: resolution_result(*outcome),
                purpose: purpose@,
            },
            Wait::Written { task_id, created, repaired } => WaitView::Written {
                task_id: task_id@,
                created: *created,
                repaired: *repaired,
            },
            Wait::Deleted { task_id, id, repaired } => WaitView::Deleted {
                task_id: task_id@,
                id: id@,
                repaired: *repaired,
            },
            Wait::Closed { task_id, state, pr_url } => WaitView::Closed {
                task_id: task_id@,
                state: state@,
                pr_url: pr_url@,
            },
        }
    }
}

/// What a call comes to next.
#[derive(Debug)]
pub enum Flow {
    /// Ask what the account can do, and go on with [`on_capabilities`].
    AskCapabilities(TodoistCall),
    /// Make the request, and go on with [`on_reply`].
    Ask { request: Request, wait: Wait },
    /// Fetch the task, and go on with [`on_task`].
    LoadTask(String),
    /// Ask the GitHub API for the pull request at this path, and go on with [`on_api`].
    AskApi { task_id: String, state: String, pr_url: String, path: String },
    /// Ask the `gh` command about the pull request, and go on with [`on_gh`].
    AskGh { task_id: String, state: String, pr_url: String, api_error: Json },
    /// The call is answered.
    Done(Result<Json, TrackerError>),
}

/// What a call comes to next.
pub enum FlowView {
    AskCapabilities { action: Seq<char>, arguments: Seq<(Seq<char>, JsonView)> },
    Ask { request: RequestView, wait: WaitView },
    LoadTask(Seq<char>),
    AskApi { task_id: Seq<char>, state: Seq<char>, pr_url: Seq<char>, path: Seq<char> },
    AskGh { task_id: Seq<char>, state: Seq<char>, pr_url: Seq<char>, api_error: JsonView },
    Done(Result<JsonView, TrackerErrorView>),
}

impl View for Flow {
    type V = FlowView;

    open spec fn view(&self) -> FlowView {
        match self {
            Flow::AskCapabilities(call) => FlowView::AskCapabilities {
                action: call.action@,
                arguments: entry_views(call.arguments@),
            },
            Flow::Ask { request, wait } => FlowView::Ask { request: request@, wait: wait@ },
            Flow::LoadTask(id) => FlowView::LoadTask(id@),
            Flow::AskApi { task_id, state, pr_url, path } => FlowView::AskApi {
                task_id: task_id@,
                state: state@,
                pr_url: pr_url@,
                path: path@,
            },
            Flow::AskGh { task_id, state, pr_url, api_error } => FlowView::AskGh {
                task_id: task_id@,
                state: state@,
                pr_url: pr_url@,
                api_error: api_error@,
            },
            Flow::Done(answer) => FlowView::Done(reply_view(*answer)),
        }
    }
}

/// What a reply holds.
pub open spec fn reply_view(r: Result<Json, TrackerError>) -> Result<JsonView, TrackerErrorView> {
    match r {
        Ok(json) => Ok(json@),
        Err(e) => Err(e@),
    }
}

/// What comes next, if anything.
pub open spec fn opt_flow(flow: Option<Flow>) -> Option<FlowView> {
    match flow {
        Some(flow) => Some(flow@),
        None => None,
    }
}

// ---------------------------------------------------------------------------
// Once the workpad is known
// ---------------------------------------------------------------------------

/// The call ends with an error.
pub open spec fn refused(error: TrackerErrorView) -> FlowView {
    FlowView::Done(Err(error))
}

/// What comes after the workpad of the task has been found, or found to be missing.
pub open spec fn settled(
    task_id: Seq<char>,
    purpose: PurposeView,
    comment: Option<JsonView>,
    repaired: bool,
) -> FlowView {
    match purpose {
        PurposeView::Read => FlowView::Done(Ok(read_reply(task_id, comment, repaired))),
        PurposeView::Write { content } => match upsert(task_id, content, comment, repaired) {
            Err(e) => refused(e),
            Ok(UpsertStepView::Unchanged(reply)) => FlowView::Done(Ok(reply)),
            Ok(UpsertStepView::Update { comment_id, arguments }) => FlowView::Ask {
                request: RequestView::UpdateComment { id: comment_id, arguments },
                wait: WaitView::Written { task_id, created: false, repaired },
            },
            Ok(UpsertStepView::Create(arguments)) => FlowView::Ask {
                request: RequestView::CreateComment(arguments),
                wait: WaitView::Written { task_id, created: true, repaired },
            },
        },
        PurposeView::Delete => match comment {
            None => FlowView::Done(Ok(delete_reply(task_id, None, repaired))),
            Some(comment) => match opt_json_text(comment.get("id"@)) {
                None => refused(
                    unsupported_view("existing workpad comment is missing an `id`"@),
                ),
                Some(id) => FlowView::Ask {
                    request: RequestView::DeleteComment(id),
                    wait: WaitView::Deleted { task_id, id, repaired },
                },
            },
        },
        PurposeView::Close { state } => match close_content(comment) {
            Err(e) => refused(e),
            Ok(content) => match close_link(pr_url_in(content)) {
                Err(e) => refused(e),
                Ok(pr_url) => match pull_path(coordinates(pr_url), pr_url) {
                    Err(e) => refused(e),
                    Ok(path) => FlowView::AskApi { task_id, state, pr_url, path },
                },
            },
        },
    }
}

fn settle(task_id: String, purpose: Purpose, resolved: WorkpadCommentResolution) -> (r: Flow)
    ensures
        r@ == settled(
            task_id@,
            purpose@,
            opt_view(resolved.comment),
            resolved.repaired_duplicates,
        ),
{
    match purpose {
        Purpose::Read => Flow::Done(Ok(get_workpad(task_id.as_str(), resolved))),
        Purpose::Write { content } => {
            let repaired: bool = resolved.repaired_duplicates;
            match upsert_workpad(task_id.as_str(), content.as_str(), resolved) {
                Err(error) => Flow::Done(Err(error)),
                Ok(UpsertStep::Unchanged(reply)) => Flow::Done(Ok(reply)),
                Ok(UpsertStep::Update { comment_id, arguments }) => Flow::Ask {
                    request: Request::UpdateComment { id: comment_id, arguments },
                    wait: Wait::Written { task_id, created: false, repaired },
                },
                Ok(UpsertStep::Create(arguments)) => Flow::Ask {
                    request: Request::CreateComment(arguments),
                    wait: Wait::Written { task_id, created: true, repaired },
                },
            }
        },
        Purpose::Delete => {
            let repaired: bool = resolved.repaired_duplicates;
            match delete_workpad(&resolved) {
                Err(error) => Flow::Done(Err(error)),
                Ok(None) => Flow::Done(Ok(deleted_workpad(task_id.as_str(), &None, repaired))),
                Ok(Some(id)) => Flow::Ask {
                    request: Request::DeleteComment(id.clone()),
                    wait: Wait::Deleted { task_id, id, repaired },
                },
            }
        },
        Purpose::Close { state } => match linked_pull_request(&resolved.comment) {
            Err(error) => Flow::Done(Err(error)),
            Ok(pr_url) => match pull_request_path_of(pr_url.as_str()) {
                Err(error) => Flow::Done(Err(error)),
                Ok(path) => Flow::AskApi { task_id, state, pr_url, path },
            },
        },
    }
}

/// What comes after the search, once the duplicates that it found are gone.
pub open spec fn repairing(
    task_id: Seq<char>,
    left: Seq<Seq<char>>,
    outcome: Result<(Option<JsonView>, bool), TrackerErrorView>,
    purpose: PurposeView,
) -> FlowView {
    if left.len() > 0 {
        FlowView::Ask {
            request: RequestView::DeleteComment(left[0]),
            wait: WaitView::Repairing { task_id, left: left.skip(1), outcome, purpose },
        }
    } else {
        match outcome {
            Err(e) => refused(e),
            Ok((comment, repaired)) => settled(task_id, purpose, comment, repaired),
        }
    }
}

fn go_on_repairing(
    task_id: String,
    left: Vec<String>,
    outcome: Result<WorkpadCommentResolution, TrackerError>,
    purpose: Purpose,
) -> (r: Flow)
    ensures
        r@ == repairing(task_id@, texts(left@), resolution_result(outcome), purpose@),
{
    let ghost all = left@;
    let mut left: Vec<String> = left;
    if left.len() > 0 {
        let id: String = left.remove(0);
        proof {
            assert(texts(left@) =~= texts(all).skip(1));
        }
        Flow::Ask {
            request: Request::DeleteComment(id),
            wait: Wait::Repairing { task_id, left, outcome, purpose },
        }
    } else {
        match outcome {
            Err(error) => Flow::Done(Err(error)),
            Ok(resolved) => settle(task_id, purpose, resolved),
        }
    }
}

// ---------------------------------------------------------------------------
// Looking for the workpad
// ---------------------------------------------------------------------------

/// Whether it can be told which of the comments counts.
pub open spec fn is_decidable(search: SearchView) -> bool {
    search.matches.len() > 0 && contents_decide(search.matches, search.hint) ==> all_storable(
        search.matches,
    )
}

/// What comes after a step of the search: nothing where it cannot be told which of the
/// comments counts.
pub open spec fn searching(
    search: SearchView,
    purpose: PurposeView,
    step: Result<SearchStepView, TrackerErrorView>,
) -> Option<FlowView> {
    match step {
        Err(e) => Some(refused(e)),
        Ok(SearchStepView::GetComment(hint)) => Some(
            FlowView::Ask {
                request: RequestView::GetComment(hint),
                wait: WaitView::Hinted { search, hint, purpose },
            },
        ),
        Ok(SearchStepView::ListComments(arguments)) => Some(
            FlowView::Ask {
                request: RequestView::ListComments(arguments),
                wait: WaitView::Listed { search, purpose },
            },
        ),
        Ok(SearchStepView::Found(comment)) => Some(
            settled(search.task_id, purpose, Some(comment), false),
        ),
        Ok(SearchStepView::Listed) => if is_decidable(search) {
            let (delete, outcome) = repair(search.matches, search.hint, true);
            Some(repairing(search.task_id, delete, outcome, purpose))
        } else {
            None
        },
    }
}

fn go_on_searching(
    search: WorkpadSearch,
    purpose: Purpose,
    step: Result<SearchStep, TrackerError>,
) -> (r: Option<Flow>)
    ensures
        opt_flow(r) == searching(search@, purpose@, step_result(step)),
{
    match step {
        Err(error) => Some(Flow::Done(Err(error))),
        Ok(SearchStep::GetComment(hint)) => Some(
            Flow::Ask {
                request: Request::GetComment(hint.clone()),
                wait: Wait::Hinted { search, hint, purpose },
            },
        ),
        Ok(SearchStep::ListComments(arguments)) => Some(
            Flow::Ask {
                request: Request::ListComments(arguments),
                wait: Wait::Listed { search, purpose },
            },
        ),
        Ok(SearchStep::Found(comment)) => Some(
            settle(
                search.task_id,
                purpose,
                WorkpadCommentResolution { comment: Some(comment), repaired_duplicates: false },
            ),
        ),
        Ok(SearchStep::Listed) => match search.finish(true) {
            None => None,
            Some(plan) => Some(
                go_on_repairing(search.task_id, plan.delete, plan.outcome, purpose),
            ),
        },
    }
}

/// How the search for the workpad of a task starts.
pub open spec fn search_started(
    task_id: Seq<char>,
    hint: Option<Seq<char>>,
    purpose: PurposeView,
) -> FlowView {
    let search = SearchView { task_id, hint, matches: Seq::empty() };
    match hint_of(hint) {
        Some(h) => FlowView::Ask {
            request: RequestView::GetComment(h),
            wait: WaitView::Hinted { search, hint: h, purpose },
        },
        None => FlowView::Ask {
            request: RequestView::ListComments(list_arguments(task_id, None)),
            wait: WaitView::Listed { search, purpose },
        },
    }
}

fn start_search(task_id: String, hint: Option<String>, purpose: Purpose) -> (r: Flow)
    ensures
        r@ == search_started(task_id@, opt_text(hint), purpose@),
{
    let (search, _) = WorkpadSearch::start(task_id.as_str(), &hint);
    match usable_hint(&hint) {
        Some(hint) => Flow::Ask {
            request: Request::GetComment(hint.clone()),
            wait: Wait::Hinted { search, hint, purpose },
        },
        None => Flow::Ask {
            request: Request::ListComments(build_list_arguments(task_id.as_str(), None)),
            wait: Wait::Listed { search, purpose },
        },
    }
}

// ---------------------------------------------------------------------------
// The steps
// ---------------------------------------------------------------------------

/// How a call starts.
pub open spec fn begun(arguments: JsonView) -> FlowView {
    match call_accepted(arguments) {
        Err(e) => refused(e),
        Ok(()) => FlowView::AskCapabilities {
            action: action_named(arguments)->0,
            arguments: arguments.fields()->0,
        },
    }
}

/// Starts a call.
pub fn begin(arguments: Json) -> (r: Flow)
    ensures
        r@ == begun(arguments@),
{
    match begin_todoist(arguments) {
        Ok(call) => Flow::AskCapabilities(call),
        Err(error) => Flow::Done(Err(error)),
    }
}

/// What the operation that a call stands for comes to first: nothing where notes for the
/// workpad cannot be brought into the form in which they are stored.
pub open spec fn opened(step: Result<TodoistStepView, TrackerErrorView>) -> Option<FlowView> {
    match step {
        Err(e) => Some(refused(e)),
        Ok(TodoistStepView::DeleteComment(id)) => Some(
            FlowView::Ask {
                request: RequestView::GetComment(id),
                wait: WaitView::ScopeOfDeleted(id),
            },
        ),
        Ok(TodoistStepView::UpdateComment { id, arguments }) => Some(
            FlowView::Ask {
                request: RequestView::GetComment(id),
                wait: WaitView::ScopeOfUpdated { id, arguments },
            },
        ),
        Ok(TodoistStepView::GetWorkpad(task_id)) => Some(
            search_started(task_id, None, PurposeView::Read),
        ),
        Ok(TodoistStepView::UpsertWorkpad { task_id, content, comment_id }) => match normalized(
            content,
        ) {
            None => None,
            Some(content) => Some(
                search_started(task_id, comment_id, PurposeView::Write { content }),
            ),
        },
        Ok(TodoistStepView::DeleteWorkpad(task_id)) => Some(
            search_started(task_id, None, PurposeView::Delete),
        ),
        Ok(TodoistStepView::CloseTask(task_id)) => Some(FlowView::LoadTask(task_id)),
        Ok(step) => Some(
            FlowView::Ask { request: RequestView::Plain(step), wait: WaitView::Answer },
        ),
    }
}

/// What the account can do, where it could not be asked: everything.
pub open spec fn usable_capabilities(
    asked: Result<TrackerCapabilities, TrackerError>,
) -> TrackerCapabilities {
    match asked {
        Ok(capabilities) => capabilities,
        Err(_) => TrackerCapabilities { comments: true, reminders: true, activity_log: true },
    }
}

/// Goes on once it is known what the account can do. There is no way on where notes for
/// the workpad would have to be cut inside a character.
pub fn on_capabilities(
    call: TodoistCall,
    asked: Result<TrackerCapabilities, TrackerError>,
) -> (r: Option<Flow>)
    ensures
        opt_flow(r) == opened(
            planned(call.action@, entry_views(call.arguments@), usable_capabilities(asked)),
        ),
{
    let capabilities: TrackerCapabilities = match asked {
        Ok(capabilities) => capabilities,
        Err(_) => TrackerCapabilities::full(),
    };
    match plan_todoist(call, capabilities) {
        Err(error) => Some(Flow::Done(Err(error))),
        Ok(TodoistStep::DeleteComment(id)) => Some(
            Flow::Ask {
                request: Request::GetComment(id.clone()),
                wait: Wait::ScopeOfDeleted(id),
            },
        ),
        Ok(TodoistStep::UpdateComment { id, arguments }) => Some(
            Flow::Ask {
                request: Request::GetComment(id.clone()),
                wait: Wait::ScopeOfUpdated { id, arguments },
            },
        ),
        Ok(TodoistStep::GetWorkpad(task_id)) => Some(start_search(task_id, None, Purpose::Read)),
        Ok(TodoistStep::UpsertWorkpad { task_id, content, comment_id }) => {
            match try_normalize_workpad_content(content.as_str()) {
                None => None,
                Some(content) => Some(
                    start_search(task_id, comment_id, Purpose::Write { content }),
                ),
            }
        },
        Ok(TodoistStep::DeleteWorkpad(task_id)) => Some(
            start_search(task_id, None, Purpose::Delete),
        ),
        Ok(TodoistStep::CloseTask(task_id)) => Some(Flow::LoadTask(task_id)),
        Ok(step) => Some(Flow::Ask { request: Request::Plain(step), wait: Wait::Answer }),
    }
}

/// What comes after the task that is to be closed has been fetched.
pub open spec fn loaded(
    task_id: Seq<char>,
    fetched: Result<Seq<IssueView>, TrackerErrorView>,
) -> FlowView {
    match fetched {
        Err(e) => refused(e),
        Ok(issues) => match closable(issues, task_id) {
            Err(e) => refused(e),
            Ok(state) => search_started(task_id, None, PurposeView::Close { state }),
        },
    }
}

/// What fetching tasks gave.
pub open spec fn issues_view(r: Result<Vec<Issue>, TrackerError>) -> Result<
    Seq<IssueView>,
    TrackerErrorView,
> {
    match r {
        Ok(issues) => Ok(views_of(issues@)),
        Err(e) => Err(e@),
    }
}

/// Goes on once the task that is to be closed has been fetched.
pub fn on_task(task_id: String, fetched: Result<Vec<Issue>, TrackerError>) -> (r: Flow)
    ensures
        r@ == loaded(task_id@, issues_view(fetched)),
{
    match fetched {
        Err(error) => Flow::Done(Err(error)),
        Ok(issues) => match closable_state(&issues, task_id.as_str()) {
            Err(error) => Flow::Done(Err(error)),
            Ok(state) => start_search(task_id, None, Purpose::Close { state }),
        },
    }
}

/// What comes after it is known whether the pull request of a task has been merged.
pub open spec fn verified(
    task_id: Seq<char>,
    state: Seq<char>,
    pr_url: Seq<char>,
    merged: Result<(), TrackerErrorView>,
) -> FlowView {
    match merged {
        Err(e) => refused(e),
        Ok(()) => FlowView::Ask {
            request: RequestView::CloseTask(task_id),
            wait: WaitView::Closed { task_id, state, pr_url },
        },
    }
}

fn conclude(
    task_id: String,
    state: String,
    pr_url: String,
    merged: Result<(), TrackerError>,
) -> (r: Flow)
    ensures
        r@ == verified(task_id@, state@, pr_url@, unit_result(merged)),
{
    match merged {
        Err(error) => Flow::Done(Err(error)),
        Ok(()) => Flow::Ask {
            request: Request::CloseTask(task_id.clone()),
            wait: Wait::Closed { task_id, state, pr_url },
        },
    }
}

/// What comes after the GitHub API has been asked for the pull request.
pub open spec fn api_told(
    task_id: Seq<char>,
    state: Seq<char>,
    pr_url: Seq<char>,
    answer: Result<JsonView, JsonView>,
) -> FlowView {
    match after_api(answer) {
        MergeStepView::Done(merged) => verified(task_id, state, pr_url, merged),
        MergeStepView::AskGh(api_error) => FlowView::AskGh { task_id, state, pr_url, api_error },
    }
}

/// Goes on once the GitHub API has been asked for the pull request.
pub fn on_api(
    task_id: String,
    state: String,
    pr_url: String,
    answer: Result<Json, Json>,
) -> (r: Flow)
    ensures
        r@ == api_told(task_id@, state@, pr_url@, api_answer(answer)),
{
    match on_api_answer(answer) {
        MergeStep::Done(merged) => conclude(task_id, state, pr_url, merged),
        MergeStep::AskGh(api_error) => Flow::AskGh { task_id, state, pr_url, api_error },
    }
}

/// Goes on once the `gh` command has been asked about the pull request.
pub fn on_gh(
    task_id: String,
    state: String,
    pr_url: String,
    api_error: Json,
    reply: &GhViewReply,
) -> (r: Flow)
    ensures
        r@ == verified(task_id@, state@, pr_url@, after_gh(api_error@, *reply)),
{
    conclude(task_id, state, pr_url, on_gh_view(api_error, reply))
}

/// What comes after a page of comments.
pub open spec fn page_read(search: SearchView, purpose: PurposeView, page: JsonView) -> Option<
    FlowView,
> {
    match opt_items(page.get("results"@)) {
        None => Some(refused(TrackerErrorView::TodoistUnknownPayload)),
        Some(results) => {
            let found = SearchView { matches: search.matches + workpads_in(results), ..search };
            match opt_json_text(page.get("next_cursor"@)) {
                Some(cursor) => searching(
                    found,
                    purpose,
                    Ok(SearchStepView::ListComments(list_arguments(search.task_id, Some(cursor)))),
                ),
                None => searching(found, purpose, Ok(SearchStepView::Listed)),
            }
        },
    }
}

/// Whether the tracker says that there is no such thing.
pub open spec fn is_gone(error: TrackerErrorView) -> bool {
    error matches TrackerErrorView::TodoistApiStatus { status, .. } && status == 404
}

/// What comes after a reply of the tracker.
pub open spec fn replied(wait: WaitView, reply: Result<JsonView, TrackerErrorView>) -> Option<
    FlowView,
> {
    match (wait, reply) {
        (WaitView::Hinted { search, hint, purpose }, Ok(comment)) => searching(
            search,
            purpose,
            hinted_comment(search.task_id, hint, comment),
        ),
        (WaitView::Hinted { search, hint, purpose }, Err(e)) => if is_gone(e) {
            searching(
                search,
                purpose,
                Ok(SearchStepView::ListComments(list_arguments(search.task_id, None))),
            )
        } else {
            Some(refused(e))
        },
        (_, Err(e)) => Some(refused(e)),
        (WaitView::Answer, Ok(answer)) => Some(FlowView::Done(Ok(answer))),
        (WaitView::ScopeOfDeleted(id), Ok(comment)) => match project_scoped(comment) {
            Err(e) => Some(refused(e)),
            Ok(()) => Some(
                FlowView::Ask { request: RequestView::DeleteComment(id), wait: WaitView::Answer },
            ),
        },
        (WaitView::ScopeOfUpdated { id, arguments }, Ok(comment)) => match project_scoped(comment) {
            Err(e) => Some(refused(e)),
            Ok(()) => Some(
                FlowView::Ask {
                    request: RequestView::UpdateComment { id, arguments },
                    wait: WaitView::Answer,
                },
            ),
        },
        (WaitView::Listed { search, purpose }, Ok(page)) => page_read(search, purpose, page),
        (WaitView::Repairing { task_id, left, outcome, purpose }, Ok(_)) => Some(
            repairing(task_id, left, outcome, purpose),
        ),
        (WaitView::Written { task_id, created, repaired }, Ok(comment)) => Some(
            FlowView::Done(Ok(write_reply(task_id, created, comment, repaired))),
        ),
        (WaitView::Deleted { task_id, id, repaired }, Ok(_)) => Some(
            FlowView::Done(Ok(delete_reply(task_id, Some(id), repaired))),
        ),
        (WaitView::Closed { task_id, state, pr_url }, Ok(_)) => Some(
            FlowView::Done(Ok(closed_reply(task_id, pr_url, state))),
        ),
    }
}

/// Goes on once the tracker has replied. There is no way on where it cannot be told which
/// of the comments counts because one would have to be cut inside a character.
pub fn on_reply(wait: Wait, reply: Result<Json, TrackerError>) -> (r: Option<Flow>)
    ensures
        opt_flow(r) == replied(wait@, reply_view(reply)),
{
    match (wait, reply) {
        (Wait::Hinted { search, hint, purpose }, reply) => {
            let step: Result<SearchStep, TrackerError> = search.on_hinted(hint.as_str(), reply);
            go_on_searching(search, purpose, step)
        },
        (_, Err(error)) => Some(Flow::Done(Err(error))),
        (Wait::Answer, Ok(reply)) => Some(Flow::Done(Ok(reply))),
        (Wait::ScopeOfDeleted(id), Ok(reply)) => match ensure_comment_is_project_scoped(&reply) {
            Err(error) => Some(Flow::Done(Err(error))),
            Ok(()) => Some(
                Flow::Ask { request: Request::DeleteComment(id), wait: Wait::Answer },
            ),
        },
        (Wait::ScopeOfUpdated { id, arguments }, Ok(reply)) => {
            match ensure_comment_is_project_scoped(&reply) {
                Err(error) => Some(Flow::Done(Err(error))),
                Ok(()) => Some(
                    Flow::Ask {
                        request: Request::UpdateComment { id, arguments },
                        wait: Wait::Answer,
                    },
                ),
            }
        },
        (Wait::Listed { search, purpose }, Ok(reply)) => {
            let mut search: WorkpadSearch = search;
            let step: Result<SearchStep, TrackerError> = search.on_page(&reply);
            go_on_searching(search, purpose, step)
        },
        (Wait::Repairing { task_id, left, outcome, purpose }, Ok(_)) => Some(
            go_on_repairing(task_id, left, outcome, purpose),
        ),
        (Wait::Written { task_id, created, repaired }, Ok(reply)) => Some(
            Flow::Done(Ok(upserted_workpad(task_id.as_str(), created, reply, repaired))),
        ),
        (Wait::Deleted { task_id, id, repaired }, Ok(_)) => Some(
            Flow::Done(Ok(deleted_workpad(task_id.as_str(), &Some(id), repaired))),
        ),
        (Wait::Closed { task_id, state, pr_url }, Ok(_)) => Some(
            Flow::Done(Ok(closed_task(task_id.as_str(), pr_url.as_str(), state.as_str()))),
        ),
    }
}

// ---------------------------------------------------------------------------
// Laws
// ---------------------------------------------------------------------------

/// What the caller hands back after a step.
pub enum EventView {
    Capabilities(TrackerCapabilities),
    Reply(Result<JsonView, TrackerErrorView>),
    Task(Result<Seq<IssueView>, TrackerErrorView>),
    Api(Result<JsonView, JsonView>),
    Gh(GhViewReply),
}

/// What a call comes to after what the caller has handed back, where that is what was
/// asked for and there is a way on.
pub open spec fn follows(flow: FlowView, event: EventView) -> Option<FlowView> {
    match (flow, event) {
        (
            FlowView::AskCapabilities { action, arguments },
            EventView::Capabilities(capabilities),
        ) => opened(planned(action, arguments, capabilities)),
        (FlowView::Ask { wait, .. }, EventView::Reply(reply)) => replied(wait, reply),
        (FlowView::LoadTask(task_id), EventView::Task(fetched)) => Some(loaded(task_id, fetched)),
        (FlowView::AskApi { task_id, state, pr_url, .. }, EventView::Api(answer)) => Some(
            api_told(task_id, state, pr_url, answer),
        ),
        (FlowView::AskGh { task_id, state, pr_url, api_error }, EventView::Gh(reply)) => Some(
            verified(task_id, state, pr_url, after_gh(api_error, reply)),
        ),
        _ => None,
    }
}

/// Whether these are the steps of a call with these arguments, one after the other.
pub open spec fn is_run(
    arguments: JsonView,
    flows: Seq<FlowView>,
    events: Seq<EventView>,
) -> bool {
    &&& flows.len() == events.len() + 1
    &&& flows[0] == begun(arguments)
    &&& forall|k: int|
        0 <= k < events.len() ==> follows(#[trigger] flows[k], events[k]) == Some(flows[k + 1])
}

/// A call whose arguments are not in order is answered with what is wrong with them, and
/// nothing is asked of the tracker.
pub proof fn law_refused_calls_ask_nothing(arguments: JsonView, error: TrackerErrorView)
    requires
        call_accepted(arguments) == Err::<(), TrackerErrorView>(error),
    ensures
        begun(arguments) == FlowView::Done(Err(error)),
{
}

/// Whether a step awaits a reply for this.
pub open spec fn awaits(flow: FlowView, wait: WaitView) -> bool {
    flow matches FlowView::Ask { wait: awaited, .. } && awaited == wait
}

/// Whether the tracker has replied with a comment that belongs to no task.
pub open spec fn shows_project_comment(event: EventView) -> bool {
    event matches EventView::Reply(Ok(comment)) && project_scoped(comment) is Ok
}

/// A comment is deleted or updated by its identifier only after it has been read and found
/// to belong to no task.
pub proof fn law_comments_of_tasks_are_left_alone(
    flow: FlowView,
    event: EventView,
    id: Seq<char>,
    arguments: JsonView,
)
    ensures
        follows(flow, event) == Some(
            FlowView::Ask { request: RequestView::DeleteComment(id), wait: WaitView::Answer },
        ) ==> awaits(flow, WaitView::ScopeOfDeleted(id)) && shows_project_comment(event),
        follows(flow, event) == Some(
            FlowView::Ask {
                request: RequestView::UpdateComment { id, arguments },
                wait: WaitView::Answer,
            },
        ) ==> awaits(flow, WaitView::ScopeOfUpdated { id, arguments }) && shows_project_comment(
            event,
        ),
{
}

/// The task that a call is on the way to close, and the state it was in.
pub open spec fn closing(flow: FlowView) -> Option<(Seq<char>, Seq<char>)> {
    match flow {
        FlowView::Ask {
            wait: WaitView::Hinted { search, purpose: PurposeView::Close { state }, .. },
            ..
        } => Some((search.task_id, state)),
        FlowView::Ask {
            wait: WaitView::Listed { search, purpose: PurposeView::Close { state } },
            ..
        } => Some((search.task_id, state)),
        FlowView::Ask {
            wait: WaitView::Repairing { task_id, purpose: PurposeView::Close { state }, .. },
            ..
        } => Some((task_id, state)),
        FlowView::Ask { wait: WaitView::Closed { task_id, state, .. }, .. } => Some(
            (task_id, state),
        ),
        FlowView::AskApi { task_id, state, .. } => Some((task_id, state)),
        FlowView::AskGh { task_id, state, .. } => Some((task_id, state)),
        _ => None,
    }
}

/// Whether a task has been fetched, in this state and one in which it may be closed.
pub open spec fn shows_closable(
    flow: FlowView,
    event: EventView,
    task_id: Seq<char>,
    state: Seq<char>,
) -> bool {
    &&& flow == FlowView::LoadTask(task_id)
    &&& event matches EventView::Task(Ok(issues))
    &&& closable(issues, task_id) == Ok::<Seq<char>, TrackerErrorView>(state)
}

/// A call gets on the way to close a task only by fetching it in a state in which it may
/// be closed.
proof fn lemma_closing_starts(
    flow: FlowView,
    event: EventView,
    next: FlowView,
    task_id: Seq<char>,
    state: Seq<char>,
)
    requires
        follows(flow, event) == Some(next),
        closing(next) == Some((task_id, state)),
    ensures
        closing(flow) == Some((task_id, state)) || shows_closable(flow, event, task_id, state),
{
}

/// Whether a call asks to close a task.
pub open spec fn asks_to_close(arguments: JsonView, task_id: Seq<char>) -> bool {
    &&& action_named(arguments) == Some("close_task"@)
    &&& arguments.fields() matches Some(entries)
    &&& id_argument(entries, "task_id"@) == Ok::<Seq<char>, TrackerErrorView>(task_id)
}

/// A task is fetched only at the start of a call that asks to close it.
proof fn lemma_loading_starts(
    arguments: JsonView,
    flows: Seq<FlowView>,
    events: Seq<EventView>,
    k: int,
    task_id: Seq<char>,
)
    requires
        is_run(arguments, flows, events),
        0 <= k < flows.len(),
        flows[k] == FlowView::LoadTask(task_id),
    ensures
        asks_to_close(arguments, task_id),
{
    assert(k > 0);
    assert(follows(flows[k - 1], events[k - 1]) == Some(flows[k]));
    if k > 1 {
        assert(follows(flows[k - 2], events[k - 2]) == Some(flows[k - 1]));
    }
}

proof fn lemma_closing_was_shown(
    arguments: JsonView,
    flows: Seq<FlowView>,
    events: Seq<EventView>,
    k: int,
    task_id: Seq<char>,
    state: Seq<char>,
) -> (i: int)
    requires
        is_run(arguments, flows, events),
        0 <= k < flows.len(),
        closing(flows[k]) == Some((task_id, state)),
    ensures
        0 <= i < k,
        shows_closable(flows[i], events[i], task_id, state),
    decreases k,
{
    assert(k > 0);
    assert(follows(flows[k - 1], events[k - 1]) == Some(flows[k]));
    lemma_closing_starts(flows[k - 1], events[k - 1], flows[k], task_id, state);
    if closing(flows[k - 1]) == Some((task_id, state)) {
        lemma_closing_was_shown(arguments, flows, events, k - 1, task_id, state)
    } else {
        k - 1
    }
}

/// Whether a step closes a task.
pub open spec fn closes(flow: FlowView, task_id: Seq<char>) -> bool {
    flow matches FlowView::Ask { request: RequestView::CloseTask(id), .. } && id == task_id
}

/// Whether a step asks whether a pull request of a task has been merged.
pub open spec fn asks_for_merge(flow: FlowView, task_id: Seq<char>) -> bool {
    match flow {
        FlowView::AskApi { task_id: id, .. } => id == task_id,
        FlowView::AskGh { task_id: id, .. } => id == task_id,
        _ => false,
    }
}

/// Whether GitHub has told when a pull request was merged.
pub open spec fn shows_merge(event: EventView) -> bool {
    match event {
        EventView::Api(Ok(payload)) => tells_merge(payload),
        EventView::Gh(reply) => gh_payload(reply) matches Ok(payload) && tells_merge(payload),
        _ => false,
    }
}

/// A task is closed only right after GitHub has told when a pull request of it was merged.
proof fn lemma_closes_after_merge(
    flow: FlowView,
    event: EventView,
    next: FlowView,
    task_id: Seq<char>,
) -> (state: Seq<char>)
    requires
        follows(flow, event) == Some(next),
        closes(next, task_id),
    ensures
        asks_for_merge(flow, task_id),
        closing(flow) == Some((task_id, state)),
        shows_merge(event),
{
    (closing(flow)->0).1
}

/// A task is closed only in a call that asks to close it, after it has been fetched in the
/// state `Merging`, and right after GitHub has told when a pull request of it was merged.
pub proof fn law_only_merged_tasks_are_closed(
    arguments: JsonView,
    flows: Seq<FlowView>,
    events: Seq<EventView>,
    k: int,
    task_id: Seq<char>,
)
    requires
        is_run(arguments, flows, events),
        0 <= k < flows.len(),
        closes(flows[k], task_id),
    ensures
        k > 0,
        asks_to_close(arguments, task_id),
        asks_for_merge(flows[k - 1], task_id),
        shows_merge(events[k - 1]),
        exists|i: int, state: Seq<char>|
            0 <= i < k && #[trigger] shows_closable(flows[i], events[i], task_id, state),
{
    assert(k > 0);
    assert(follows(flows[k - 1], events[k - 1]) == Some(flows[k]));
    let state = lemma_closes_after_merge(flows[k - 1], events[k - 1], flows[k], task_id);
    let i = lemma_closing_was_shown(arguments, flows, events, k - 1, task_id, state);
    lemma_loading_starts(arguments, flows, events, i, task_id);
    assert(shows_closable(flows[i], events[i], task_id, state));
}

/// Whether the API could not be asked for the pull request of a task.
pub open spec fn shows_api_failure(
    flow: FlowView,
    event: EventView,
    pr_url: Seq<char>,
    api_error: JsonView,
) -> bool {
    &&& flow matches FlowView::AskApi { pr_url: asked, .. }
    &&& asked == pr_url
    &&& event == EventView::Api(Err(api_error))
}

/// The `gh` command is asked about a pull request only right after the API could not be
/// asked for it.
pub proof fn law_gh_is_asked_where_the_api_fails(
    arguments: JsonView,
    flows: Seq<FlowView>,
    events: Seq<EventView>,
    k: int,
    task_id: Seq<char>,
    state: Seq<char>,
    pr_url: Seq<char>,
    api_error: JsonView,
)
    requires
        is_run(arguments, flows, events),
        0 <= k < flows.len(),
        flows[k] == (FlowView::AskGh { task_id, state, pr_url, api_error }),
    ensures
        k > 0,
        shows_api_failure(flows[k - 1], events[k - 1], pr_url, api_error),
{
    assert(k > 0);
    assert(follows(flows[k - 1], events[k - 1]) == Some(flows[k]));
}

/// Whether these are all workpads.
pub open spec fn are_workpads(comments: Seq<JsonView>) -> bool {
    forall|i: int| 0 <= i < comments.len() ==> is_workpad(#[trigger] comments[i])
}

/// Whether a comment is a workpad that links a pull request.
pub open spec fn is_workpad_linking(comment: JsonView, pr_url: Seq<char>) -> bool {
    &&& is_workpad(comment)
    &&& comment_content(comment) matches Some(content)
    &&& pr_url_in(content) == Some(pr_url)
}

/// Whether a step knows nothing but workpads as workpads.
spec fn is_sound(flow: FlowView) -> bool {
    match flow {
        FlowView::Ask { wait: WaitView::Hinted { search, .. }, .. } => are_workpads(
            search.matches,
        ),
        FlowView::Ask { wait: WaitView::Listed { search, .. }, .. } => are_workpads(
            search.matches,
        ),
        FlowView::Ask {
            wait: WaitView::Repairing { outcome: Ok((Some(comment), _)), .. },
            ..
        } => is_workpad(comment),
        FlowView::AskApi { pr_url, .. } => exists|comment: JsonView|
            is_workpad_linking(comment, pr_url),
        _ => true,
    }
}

proof fn lemma_workpads_in(comments: Seq<JsonView>)
    ensures
        are_workpads(workpads_in(comments)),
    decreases comments.len(),
{
    if comments.len() > 0 {
        lemma_workpads_in(comments.drop_last());
    }
}

proof fn lemma_comment_with(comments: Seq<JsonView>, id: Seq<char>)
    requires
        are_workpads(comments),
    ensures
        comment_with(comments, id) matches Some(comment) ==> is_workpad(comment),
    decreases comments.len(),
{
    if comments.len() > 0 {
        lemma_comment_with(comments.skip(1), id);
    }
}

proof fn lemma_settled_is_sound(
    task_id: Seq<char>,
    purpose: PurposeView,
    comment: Option<JsonView>,
    repaired: bool,
)
    requires
        comment matches Some(c) ==> is_workpad(c),
    ensures
        is_sound(settled(task_id, purpose, comment, repaired)),
{
    if let FlowView::AskApi { pr_url, .. } = settled(task_id, purpose, comment, repaired) {
        assert(is_workpad_linking(comment->0, pr_url));
    }
}

proof fn lemma_searching_is_sound(
    search: SearchView,
    purpose: PurposeView,
    step: Result<SearchStepView, TrackerErrorView>,
)
    requires
        are_workpads(search.matches),
        step matches Ok(SearchStepView::Found(comment)) ==> is_workpad(comment),
    ensures
        searching(search, purpose, step) matches Some(next) ==> is_sound(next),
{
    match step {
        Ok(SearchStepView::Found(comment)) => {
            lemma_settled_is_sound(search.task_id, purpose, Some(comment), false);
        },
        Ok(SearchStepView::Listed) => {
            let (delete, outcome) = repair(search.matches, search.hint, true);
            if search.matches.len() > 0 {
                if let Ok(id) = canonical(search.matches, search.hint) {
                    lemma_comment_with(search.matches, id);
                }
            }
            if let Ok((comment, repaired)) = outcome {
                lemma_settled_is_sound(search.task_id, purpose, comment, repaired);
            }
        },
        _ => {},
    }
}

proof fn lemma_step_is_sound(flow: FlowView, event: EventView, next: FlowView)
    requires
        is_sound(flow),
        follows(flow, event) == Some(next),
    ensures
        is_sound(next),
{
    match (flow, event) {
        (
            FlowView::Ask { wait: WaitView::Hinted { search, hint, purpose }, .. },
            EventView::Reply(Ok(comment)),
        ) => {
            lemma_searching_is_sound(
                search,
                purpose,
                hinted_comment(search.task_id, hint, comment),
            );
        },
        (
            FlowView::Ask { wait: WaitView::Listed { search, purpose }, .. },
            EventView::Reply(Ok(page)),
        ) => {
            if let Some(results) = opt_items(page.get("results"@)) {
                lemma_workpads_in(results);
                let found = SearchView { matches: search.matches + workpads_in(results), ..search };
                assert(are_workpads(found.matches));
                lemma_searching_is_sound(found, purpose, Ok(SearchStepView::Listed));
            }
        },
        (
            FlowView::Ask { wait: WaitView::Repairing { task_id, left, outcome, purpose }, .. },
            EventView::Reply(Ok(_)),
        ) => {
            if let Ok((comment, repaired)) = outcome {
                lemma_settled_is_sound(task_id, purpose, comment, repaired);
            }
        },
        _ => {},
    }
}

proof fn lemma_run_is_sound(
    arguments: JsonView,
    flows: Seq<FlowView>,
    events: Seq<EventView>,
    k: int,
)
    requires
        is_run(arguments, flows, events),
        0 <= k < flows.len(),
    ensures
        is_sound(flows[k]),
    decreases k,
{
    if k > 0 {
        lemma_run_is_sound(arguments, flows, events, k - 1);
        assert(follows(flows[k - 1], events[k - 1]) == Some(flows[k]));
        lemma_step_is_sound(flows[k - 1], events[k - 1], flows[k]);
    }
}

/// The pull request that decides whether a task is closed is linked in a workpad.
pub proof fn law_the_link_is_from_a_workpad(
    arguments: JsonView,
    flows: Seq<FlowView>,
    events: Seq<EventView>,
    k: int,
    task_id: Seq<char>,
    state: Seq<char>,
    pr_url: Seq<char>,
    path: Seq<char>,
)
    requires
        is_run(arguments, flows, events),
        0 <= k < flows.len(),
        flows[k] == (FlowView::AskApi { task_id, state, pr_url, path }),
    ensures
        exists|comment: JsonView| is_workpad_linking(comment, pr_url),
{
    lemma_run_is_sound(arguments, flows, events, k);
}

} // verus!
