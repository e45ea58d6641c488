//! The conversation with an agent's app server: what is sent to it, what its messages
//! mean for the turn that runs, and which events they give rise to. The caller moves
//! the lines; the steps here say what each of them asks for.
use vstd::prelude::*;
use vstd::string::*;

use crate::dynamic_tool::{metric_views, ToolPayloadMetric, GITHUB_API_TOOL, TODOIST_TOOL};
use crate::issue::{get_in, opt_truth, trimmed_text, Issue, IssueView};
use crate::json::{
    entry_views, first_of, group_json_views, insert, opt_get, opt_items, opt_json_text, opt_view,
    parse, parsed, ref_view, compact_of, to_text, views, Json, JsonView, NumberView,
};
use crate::sorting::views_of;
use crate::table::{has_key, put};
use crate::text::{
    begins, clone_opt, concat, concat3, contains, first_chars, is_among, join, joined, lowered,
    occurs, opt_str, opt_text, owned, same, signed_decimal, signed_text, split_whitespace,
    starts_with, take_chars, texts, to_ascii_lowercase, words,
};
use crate::usage::{extract_rate_limits, extract_usage, limits_in, usage_of};

verus! {

broadcast use {vstd::seq::group_seq_axioms, vstd::string::group_string_axioms};

/// What is answered to a question that only an operator could answer.
pub const NON_INTERACTIVE_ANSWER: &'static str = "This is a non-interactive session. Operator input is unavailable.";

// ---------------------------------------------------------------------------
// Events
// ---------------------------------------------------------------------------

/// Something that happened in a session. The point in time is in nanoseconds since
/// the start of 1970.
#[derive(Debug)]
pub struct CodexEvent {
    pub event: String,
    pub timestamp: i128,
    pub worker_host: Option<String>,
    pub session_id: Option<String>,
    pub thread_id: Option<String>,
    pub turn_id: Option<String>,
    pub codex_app_server_pid: Option<u32>,
    pub usage: Option<Json>,
    pub rate_limits: Option<Json>,
    pub payload: Option<Json>,
    pub raw: Option<String>,
    pub message: Option<String>,
}

/// What an event says.
pub struct EventView {
    pub event: Seq<char>,
    pub timestamp: i128,
    pub worker_host: Option<Seq<char>>,
    pub session_id: Option<Seq<char>>,
    pub thread_id: Option<Seq<char>>,
    pub turn_id: Option<Seq<char>>,
    pub codex_app_server_pid: Option<u32>,
    pub usage: Option<JsonView>,
    pub rate_limits: Option<JsonView>,
    pub payload: Option<JsonView>,
    pub raw: Option<Seq<char>>,
    pub message: Option<Seq<char>>,
}

impl View for CodexEvent {
    type V = EventView;

    open spec fn view(&self) -> EventView {
        EventView {
            event: self.event@,
            timestamp: self.timestamp,
            worker_host: opt_text(self.worker_host),
            session_id: opt_text(self.session_id),
            thread_id: opt_text(self.thread_id),
            turn_id: opt_text(self.turn_id),
            codex_app_server_pid: self.codex_app_server_pid,
            usage: opt_view(self.usage),
            rate_limits: opt_view(self.rate_limits),
            payload: opt_view(self.payload),
            raw: opt_text(self.raw),
            message: opt_text(self.message),
        }
    }
}

// ---------------------------------------------------------------------------
// Errors
// ---------------------------------------------------------------------------

/// Why a session or a turn failed.
#[derive(Debug)]
pub enum CodexError {
    CodexNotFound(String),
    InvalidWorkspaceCwd(String),
    Io(String),
    ResponseTimeout,
    TurnTimeout,
    PortExit(i32),
    ResponseError(String),
    TurnFailed(String),
    TurnCancelled(String),
    TurnInputRequired(String),
    ApprovalRequired(String),
}

/// What an error says.
pub enum CodexErrorView {
    CodexNotFound(Seq<char>),
    InvalidWorkspaceCwd(Seq<char>),
    Io(Seq<char>),
    ResponseTimeout,
    TurnTimeout,
    PortExit(i32),
    ResponseError(Seq<char>),
    TurnFailed(Seq<char>),
    TurnCancelled(Seq<char>),
    TurnInputRequired(Seq<char>),
    ApprovalRequired(Seq<char>),
}

impl View for CodexError {
    type V = CodexErrorView;

    open spec fn view(&self) -> CodexErrorView {
        match self {
            CodexError::CodexNotFound(t) => CodexErrorView::CodexNotFound(t@),
            CodexError::InvalidWorkspaceCwd(t) => CodexErrorView::InvalidWorkspaceCwd(t@),
            CodexError::Io(t) => CodexErrorView::Io(t@),
            CodexError::ResponseTimeout => CodexErrorView::ResponseTimeout,
            CodexError::TurnTimeout => CodexErrorView::TurnTimeout,
            CodexError::PortExit(n) => CodexErrorView::PortExit(*n),
            CodexError::ResponseError(t) => CodexErrorView::ResponseError(t@),
            CodexError::TurnFailed(t) => CodexErrorView::TurnFailed(t@),
            CodexError::TurnCancelled(t) => CodexErrorView::TurnCancelled(t@),
            CodexError::TurnInputRequired(t) => CodexErrorView::TurnInputRequired(t@),
            CodexError::ApprovalRequired(t) => CodexErrorView::ApprovalRequired(t@),
        }
    }
}

impl CodexErrorView {
    /// The error as it is shown.
    pub open spec fn shown(self) -> Seq<char> {
        match self {
            CodexErrorView::CodexNotFound(t) => "codex_not_found "@ + t,
            CodexErrorView::InvalidWorkspaceCwd(t) => "invalid_workspace_cwd "@ + t,
            CodexErrorView::Io(t) => "io_error "@ + t,
            CodexErrorView::ResponseTimeout => "response_timeout"@,
            CodexErrorView::TurnTimeout => "turn_timeout"@,
            CodexErrorView::PortExit(n) => "port_exit "@ + signed_decimal(n as int),
            CodexErrorView::ResponseError(t) => "response_error "@ + t,
            CodexErrorView::TurnFailed(t) => "turn_failed "@ + t,
            CodexErrorView::TurnCancelled(t) => "turn_cancelled "@ + t,
            CodexErrorView::TurnInputRequired(t) => "turn_input_required "@ + t,
            CodexErrorView::ApprovalRequired(t) => "approval_required "@ + t,
        }
    }
}

impl CodexError {
    /// The error as it is shown.
    pub fn to_text(&self) -> (r: String)
        ensures
            r@ == self@.shown(),
    {
        match self {
            CodexError::CodexNotFound(t) => concat("codex_not_found ", t.as_str()),
            CodexError::InvalidWorkspaceCwd(t) => concat("invalid_workspace_cwd ", t.as_str()),
            CodexError::Io(t) => concat("io_error ", t.as_str()),
            CodexError::ResponseTimeout => owned("response_timeout"),
            CodexError::TurnTimeout => owned("turn_timeout"),
            CodexError::PortExit(n) => {
                let code: String = signed_text(*n as i64);
                concat("port_exit ", code.as_str())
            },
            CodexError::ResponseError(t) => concat("response_error ", t.as_str()),
            CodexError::TurnFailed(t) => concat("turn_failed ", t.as_str()),
            CodexError::TurnCancelled(t) => concat("turn_cancelled ", t.as_str()),
            CodexError::TurnInputRequired(t) => concat("turn_input_required ", t.as_str()),
            CodexError::ApprovalRequired(t) => concat("approval_required ", t.as_str()),
        }
    }
}

/// The error for a process that could not be started.
pub fn spawn_error(not_found: bool, reason: String) -> (r: CodexError)
    ensures
        r@ == if not_found {
            CodexErrorView::CodexNotFound(reason@)
        } else {
            CodexErrorView::Io(reason@)
        },
{
    if not_found {
        CodexError::CodexNotFound(reason)
    } else {
        CodexError::Io(reason)
    }
}

/// The error for an app server that has gone: its exit code, or why it could not be
/// waited for.
pub fn port_exit_error(exit: Result<Option<i32>, String>) -> (r: CodexError)
    ensures
        r@ == match exit {
            Ok(Some(code)) => CodexErrorView::PortExit(code),
            Ok(None) => CodexErrorView::PortExit(-1i32),
            Err(reason) => CodexErrorView::Io(reason@),
        },
{
    match exit {
        Ok(Some(code)) => CodexError::PortExit(code),
        Ok(None) => CodexError::PortExit(-1),
        Err(reason) => CodexError::Io(reason),
    }
}

// ---------------------------------------------------------------------------
// Who an event is about
// ---------------------------------------------------------------------------

/// Who an event is about.
#[derive(Debug)]
pub struct EventIdentity {
    pub pid: Option<u32>,
    pub worker_host: Option<String>,
    pub session_id: Option<String>,
    pub thread_id: Option<String>,
    pub turn_id: Option<String>,
}

/// Who an event is about.
pub struct IdentityView {
    pub pid: Option<u32>,
    pub worker_host: Option<Seq<char>>,
    pub session_id: Option<Seq<char>>,
    pub thread_id: Option<Seq<char>>,
    pub turn_id: Option<Seq<char>>,
}

impl View for EventIdentity {
    type V = IdentityView;

    open spec fn view(&self) -> IdentityView {
        IdentityView {
            pid: self.pid,
            worker_host: opt_text(self.worker_host),
            session_id: opt_text(self.session_id),
            thread_id: opt_text(self.thread_id),
            turn_id: opt_text(self.turn_id),
        }
    }
}

impl EventIdentity {
    /// A process on a host, with no turn.
    pub fn new(pid: Option<u32>, worker_host: Option<String>) -> (r: EventIdentity)
        ensures
            r@ == (IdentityView {
                pid,
                worker_host: opt_text(worker_host),
                session_id: None,
                thread_id: None,
                turn_id: None,
            }),
    {
        EventIdentity { pid, worker_host, session_id: None, thread_id: None, turn_id: None }
    }

    /// The same process, with a turn.
    pub fn with_turn(self, session_id: String, thread_id: String, turn_id: String) -> (r:
        EventIdentity)
        ensures
            r@ == (IdentityView {
                session_id: Some(session_id@),
                thread_id: Some(thread_id@),
                turn_id: Some(turn_id@),
                ..self@
            }),
    {
        EventIdentity {
            pid: self.pid,
            worker_host: self.worker_host,
            session_id: Some(session_id),
            thread_id: Some(thread_id),
            turn_id: Some(turn_id),
        }
    }
}

/// An event that carries no message of the app server.
pub open spec fn plain_event(
    name: Seq<char>,
    now: i128,
    identity: IdentityView,
    message: Option<Seq<char>>,
    raw: Option<Seq<char>>,
) -> EventView {
    EventView {
        event: name,
        timestamp: now,
        worker_host: identity.worker_host,
        session_id: identity.session_id,
        thread_id: identity.thread_id,
        turn_id: identity.turn_id,
        codex_app_server_pid: identity.pid,
        usage: None,
        rate_limits: None,
        payload: None,
        raw,
        message,
    }
}

/// An event that carries no message of the app server.
pub fn event_with(
    name: &str,
    now: i128,
    identity: EventIdentity,
    message: Option<String>,
    raw: Option<String>,
) -> (r: CodexEvent)
    ensures
        r@ == plain_event(name@, now, identity@, opt_text(message), opt_text(raw)),
{
    CodexEvent {
        event: owned(name),
        timestamp: now,
        worker_host: identity.worker_host,
        session_id: identity.session_id,
        thread_id: identity.thread_id,
        turn_id: identity.turn_id,
        codex_app_server_pid: identity.pid,
        usage: None,
        rate_limits: None,
        payload: None,
        raw,
        message,
    }
}

/// The turn that runs.
#[derive(Debug)]
pub struct TurnContext {
    pub pid: Option<u32>,
    pub worker_host: Option<String>,
    pub session_id: String,
    pub thread_id: String,
    pub turn_id: String,
}

/// The turn that runs.
pub struct TurnView {
    pub pid: Option<u32>,
    pub worker_host: Option<Seq<char>>,
    pub session_id: Seq<char>,
    pub thread_id: Seq<char>,
    pub turn_id: Seq<char>,
}

impl View for TurnContext {
    type V = TurnView;

    open spec fn view(&self) -> TurnView {
        TurnView {
            pid: self.pid,
            worker_host: opt_text(self.worker_host),
            session_id: self.session_id@,
            thread_id: self.thread_id@,
            turn_id: self.turn_id@,
        }
    }
}

impl TurnView {
    /// Whom the events of the turn are about.
    pub open spec fn identity(self) -> IdentityView {
        IdentityView {
            pid: self.pid,
            worker_host: self.worker_host,
            session_id: Some(self.session_id),
            thread_id: Some(self.thread_id),
            turn_id: Some(self.turn_id),
        }
    }
}

impl TurnContext {
    /// Whom the events of the turn are about.
    pub fn identity(&self) -> (r: EventIdentity)
        ensures
            r@ == self@.identity(),
    {
        EventIdentity::new(self.pid, clone_opt(&self.worker_host)).with_turn(
            self.session_id.clone(),
            self.thread_id.clone(),
            self.turn_id.clone(),
        )
    }
}

/// An event of a turn about a message.
pub open spec fn turn_event(
    turn: TurnView,
    now: i128,
    name: Seq<char>,
    usage: Option<JsonView>,
    rate_limits: Option<JsonView>,
    payload: JsonView,
    raw: Option<Seq<char>>,
) -> EventView {
    EventView {
        event: name,
        timestamp: now,
        worker_host: turn.worker_host,
        session_id: Some(turn.session_id),
        thread_id: Some(turn.thread_id),
        turn_id: Some(turn.turn_id),
        codex_app_server_pid: turn.pid,
        usage,
        rate_limits,
        payload: Some(payload),
        raw,
        message: None,
    }
}

/// An event of a turn about a message.
pub fn event(
    turn: &TurnContext,
    now: i128,
    name: &str,
    usage: Option<Json>,
    rate_limits: Option<Json>,
    payload: Json,
    raw: Option<String>,
) -> (r: CodexEvent)
    ensures
        r@ == turn_event(
            turn@,
            now,
            name@,
            opt_view(usage),
            opt_view(rate_limits),
            payload@,
            opt_text(raw),
        ),
{
    CodexEvent {
        event: owned(name),
        timestamp: now,
        worker_host: clone_opt(&turn.worker_host),
        session_id: Some(turn.session_id.clone()),
        thread_id: Some(turn.thread_id.clone()),
        turn_id: Some(turn.turn_id.clone()),
        codex_app_server_pid: turn.pid,
        usage,
        rate_limits,
        payload: Some(payload),
        raw,
        message: None,
    }
}

// ---------------------------------------------------------------------------
// Answers
// ---------------------------------------------------------------------------

/// Whether requests are approved without asking.
pub open spec fn approves(policy: JsonView) -> bool {
    policy.text() == Some("never"@)
}

/// Whether requests are approved without asking.
pub fn auto_approve_requests(approval_policy: &Json) -> (r: bool)
    ensures
        r == approves(approval_policy@),
{
    match approval_policy.as_str() {
        Some(text) => same(text, "never"),
        None => false,
    }
}

/// The labels of the options, trimmed; empty ones are left out.
pub open spec fn labels_of(options: Seq<JsonView>) -> Seq<Seq<char>>
    decreases options.len(),
{
    if options.len() == 0 {
        Seq::empty()
    } else {
        let earlier = labels_of(options.drop_last());
        match trimmed_text(options.last().get("label"@)) {
            Some(label) => earlier.push(label),
            None => earlier,
        }
    }
}

fn collect_labels(options: &Vec<Json>) -> (out: Vec<String>)
    ensures
        texts(out@) == labels_of(views(options@)),
{
    let ghost all = views(options@);
    let mut out: Vec<String> = Vec::new();
    let mut i: usize = 0;
    proof {
        assert(texts(out@) =~= Seq::empty());
    }
    while i < options.len()
        invariant
            i <= options.len(),
            all == views(options@),
            texts(out@) == labels_of(all.take(i as int)),
        decreases options.len() - i,
    {
        proof {
            assert(all.take(i + 1).drop_last() =~= all.take(i as int));
            assert(all.take(i + 1).last() == options@[i as int]@);
        }
        match crate::issue::optional_trimmed_string(options[i].get("label")) {
            Some(label) => {
                let ghost had = texts(out@);
                let ghost text = label@;
                out.push(label);
                proof {
                    assert(texts(out@) =~= had.push(text));
                }
            },
            None => {},
        }
        i = i + 1;
    }
    proof {
        assert(all.take(i as int) =~= all);
    }
    out
}

/// Whether a label stands for an approval.
pub open spec fn approving(label: Seq<char>) -> bool {
    begins(lowered(label), "approve"@) || begins(lowered(label), "allow"@)
}

/// The first label that stands for an approval.
pub open spec fn first_approving(labels: Seq<Seq<char>>) -> Option<Seq<char>>
    decreases labels.len(),
{
    if labels.len() == 0 {
        None
    } else if approving(labels[0]) {
        Some(labels[0])
    } else {
        first_approving(labels.skip(1))
    }
}

/// The label of the option that approves: approval for the session before approval for
/// once, and these before any other.
pub open spec fn approval_label(options: Seq<JsonView>) -> Option<Seq<char>> {
    let labels = labels_of(options);
    if labels.contains("Approve this Session"@) {
        Some("Approve this Session"@)
    } else if labels.contains("Approve Once"@) {
        Some("Approve Once"@)
    } else {
        first_approving(labels)
    }
}

/// The label of the option that approves.
pub fn approval_option_label(options: &Vec<Json>) -> (r: Option<String>)
    ensures
        opt_text(r) == approval_label(views(options@)),
{
    let labels: Vec<String> = collect_labels(options);
    if is_among(&labels, "Approve this Session") {
        return Some(owned("Approve this Session"));
    }
    if is_among(&labels, "Approve Once") {
        return Some(owned("Approve Once"));
    }
    let ghost all = texts(labels@);
    let mut i: usize = 0;
    proof {
        assert(all.skip(0) =~= all);
    }
    while i < labels.len()
        invariant
            i <= labels.len(),
            all == texts(labels@),
            approval_label(views(options@)) == first_approving(all.skip(i as int)),
        decreases labels.len() - i,
    {
        proof {
            assert(all.skip(i as int)[0] == labels@[i as int]@);
            assert(all.skip(i as int).skip(1) =~= all.skip(i + 1));
        }
        let low: String = to_ascii_lowercase(labels[i].as_str());
        if starts_with(low.as_str(), "approve") || starts_with(low.as_str(), "allow") {
            return Some(labels[i].clone());
        }
        i = i + 1;
    }
    None
}

/// One answer to a question.
pub open spec fn answer_of(text: Seq<char>) -> JsonView {
    JsonView::Object(seq![("answers"@, JsonView::Array(seq![JsonView::Text(text)]))])
}

fn build_answer(text: &str) -> (r: Json)
    ensures
        r@ == answer_of(text@),
{
    Json::object1("answers", Json::array1(Json::text(text)))
}

/// The answers that approve every question, with the last label that was chosen. There
/// are none where a question has no identifier, no options or none that approves.
pub open spec fn approvals(questions: Seq<JsonView>) -> Option<
    (Seq<(Seq<char>, JsonView)>, Option<Seq<char>>),
>
    decreases questions.len(),
{
    if questions.len() == 0 {
        Some((Seq::empty(), None))
    } else {
        match approvals(questions.drop_last()) {
            None => None,
            Some((answers, _)) => {
                let question = questions.last();
                match opt_json_text(question.get("id"@)) {
                    None => None,
                    Some(id) => match opt_items(question.get("options"@)) {
                        None => None,
                        Some(options) => match approval_label(options) {
                            None => None,
                            Some(label) => Some((put(answers, id, answer_of(label)), Some(label))),
                        },
                    },
                }
            },
        }
    }
}

/// The answers that say that nobody is there to answer, one to each question. There are
/// none where a question has no identifier.
pub open spec fn refusals(questions: Seq<JsonView>) -> Option<Seq<(Seq<char>, JsonView)>>
    decreases questions.len(),
{
    if questions.len() == 0 {
        Some(Seq::empty())
    } else {
        match refusals(questions.drop_last()) {
            None => None,
            Some(answers) => match opt_json_text(questions.last().get("id"@)) {
                None => None,
                Some(id) => Some(put(answers, id, answer_of(NON_INTERACTIVE_ANSWER@))),
            },
        }
    }
}

/// The answers that approve every question, with the last label that was chosen.
pub open spec fn approval_answers(params: Option<JsonView>) -> Option<(JsonView, Seq<char>)> {
    match opt_items(opt_get(params, "questions"@)) {
        None => None,
        Some(questions) => match approvals(questions) {
            Some((answers, Some(label))) => Some((JsonView::Object(answers), label)),
            _ => None,
        },
    }
}

/// The answers that say that nobody is there to answer.
pub open spec fn unavailable_answers(params: Option<JsonView>) -> Option<JsonView> {
    match opt_items(opt_get(params, "questions"@)) {
        None => None,
        Some(questions) => match refusals(questions) {
            Some(answers) => if answers.len() > 0 {
                Some(JsonView::Object(answers))
            } else {
                None
            },
            None => None,
        },
    }
}

/// The first questions have approvals where all have.
proof fn lemma_approvals_of_prefix(questions: Seq<JsonView>, n: int)
    requires
        0 <= n <= questions.len(),
        approvals(questions.take(n)) is None,
    ensures
        approvals(questions) is None,
    decreases questions.len(),
{
    if n == questions.len() {
        assert(questions.take(n) =~= questions);
    } else {
        assert(questions.drop_last().take(n) =~= questions.take(n));
        lemma_approvals_of_prefix(questions.drop_last(), n);
    }
}

proof fn lemma_refusals_of_prefix(questions: Seq<JsonView>, n: int)
    requires
        0 <= n <= questions.len(),
        refusals(questions.take(n)) is None,
    ensures
        refusals(questions) is None,
    decreases questions.len(),
{
    if n == questions.len() {
        assert(questions.take(n) =~= questions);
    } else {
        assert(questions.drop_last().take(n) =~= questions.take(n));
        lemma_refusals_of_prefix(questions.drop_last(), n);
    }
}

/// The items under a key of an optional value.
fn items_in<'a>(json: Option<&'a Json>, key: &str) -> (r: Option<&'a Vec<Json>>)
    ensures
        r is Some <==> opt_items(opt_get(ref_view(json), key@)) is Some,
        r matches Some(items) ==> opt_items(opt_get(ref_view(json), key@)) == Some(views(items@)),
{
    match get_in(json, key) {
        Some(value) => value.as_array(),
        None => None,
    }
}

/// The text under a key of a value.
fn text_in<'a>(json: &'a Json, key: &str) -> (r: Option<&'a str>)
    ensures
        opt_str(r) == opt_json_text(json@.get(key@)),
{
    match json.get(key) {
        Some(value) => value.as_str(),
        None => None,
    }
}

/// The answers that approve every question, with the last label that was chosen.
pub fn build_approval_answers(params: Option<&Json>) -> (r: Option<(Json, String)>)
    ensures
        match r {
            Some((answers, label)) => approval_answers(ref_view(params)) == Some(
                (answers@, label@),
            ),
            None => approval_answers(ref_view(params)) is None,
        },
{
    broadcast use group_json_views;

    let questions: &Vec<Json> = match items_in(params, "questions") {
        Some(questions) => questions,
        None => {
            return None;
        },
    };
    let ghost all = views(questions@);
    let mut answers: Vec<(String, Json)> = Vec::new();
    let mut last: Option<String> = None;
    let mut i: usize = 0;
    proof {
        assert(entry_views(answers@) =~= Seq::empty());
    }
    while i < questions.len()
        invariant
            i <= questions.len(),
            all == views(questions@),
            opt_items(opt_get(ref_view(params), "questions"@)) == Some(all),
            approvals(all.take(i as int)) == Some((entry_views(answers@), opt_text(last))),
        decreases questions.len() - i,
    {
        proof {
            assert(all.take(i + 1).drop_last() =~= all.take(i as int));
            assert(all.take(i + 1).last() == questions@[i as int]@);
            if approvals(all.take(i + 1)) is None {
                lemma_approvals_of_prefix(all, i + 1);
            }
        }
        let id: &str = match text_in(&questions[i], "id") {
            Some(id) => id,
            None => {
                return None;
            },
        };
        let options: &Vec<Json> = match items_in(Some(&questions[i]), "options") {
            Some(options) => options,
            None => {
                return None;
            },
        };
        let label: String = match approval_option_label(options) {
            Some(label) => label,
            None => {
                return None;
            },
        };
        insert(&mut answers, owned(id), build_answer(label.as_str()));
        last = Some(label);
        i = i + 1;
    }
    proof {
        assert(all.take(i as int) =~= all);
    }
    match last {
        Some(label) => Some((Json::Object(answers), label)),
        None => None,
    }
}

/// The answers that say that nobody is there to answer.
pub fn build_unavailable_answers(params: Option<&Json>) -> (r: Option<Json>)
    ensures
        opt_view(r) == unavailable_answers(ref_view(params)),
{
    broadcast use group_json_views;

    let questions: &Vec<Json> = match items_in(params, "questions") {
        Some(questions) => questions,
        None => {
            return None;
        },
    };
    let ghost all = views(questions@);
    let mut answers: Vec<(String, Json)> = Vec::new();
    let mut i: usize = 0;
    proof {
        assert(entry_views(answers@) =~= Seq::empty());
    }
    while i < questions.len()
        invariant
            i <= questions.len(),
            all == views(questions@),
            opt_items(opt_get(ref_view(params), "questions"@)) == Some(all),
            refusals(all.take(i as int)) == Some(entry_views(answers@)),
        decreases questions.len() - i,
    {
        proof {
            assert(all.take(i + 1).drop_last() =~= all.take(i as int));
            assert(all.take(i + 1).last() == questions@[i as int]@);
            if refusals(all.take(i + 1)) is None {
                lemma_refusals_of_prefix(all, i + 1);
            }
        }
        let id: &str = match text_in(&questions[i], "id") {
            Some(id) => id,
            None => {
                return None;
            },
        };
        insert(&mut answers, owned(id), build_answer(NON_INTERACTIVE_ANSWER));
        i = i + 1;
    }
    proof {
        assert(all.take(i as int) =~= all);
        assert(entry_views(answers@).len() == answers@.len());
    }
    if answers.len() > 0 {
        Some(Json::Object(answers))
    } else {
        None
    }
}

/// The answers to a request for input, and the event that tells of them.
#[derive(Debug)]
pub struct ToolInputReply {
    pub answers: Json,
    pub event: &'static str,
    pub message: String,
}

/// The answers, the event's name and its message.
pub open spec fn input_reply(params: Option<JsonView>, approve: bool) -> Option<
    (JsonView, Seq<char>, Seq<char>),
> {
    if approve && approval_answers(params) is Some {
        let (answers, label) = approval_answers(params)->0;
        Some((answers, "approval_auto_approved"@, label))
    } else {
        match unavailable_answers(params) {
            Some(answers) => Some((answers, "tool_input_auto_answered"@, NON_INTERACTIVE_ANSWER@)),
            None => None,
        }
    }
}

/// The answers to a request for input: approvals where requests are approved without
/// asking and every question can be approved, or else that nobody is there.
pub fn build_tool_input_reply(params: Option<&Json>, auto_approve: bool) -> (r: Option<
    ToolInputReply,
>)
    ensures
        match r {
            Some(reply) => input_reply(ref_view(params), auto_approve) == Some(
                (reply.answers@, reply.event@, reply.message@),
            ),
            None => input_reply(ref_view(params), auto_approve) is None,
        },
{
    if auto_approve {
        match build_approval_answers(params) {
            Some((answers, label)) => {
                return Some(
                    ToolInputReply { answers, event: "approval_auto_approved", message: label },
                );
            },
            None => {},
        }
    }
    match build_unavailable_answers(params) {
        Some(answers) => Some(
            ToolInputReply {
                answers,
                event: "tool_input_auto_answered",
                message: owned(NON_INTERACTIVE_ANSWER),
            },
        ),
        None => None,
    }
}

// ---------------------------------------------------------------------------
// Tool calls
// ---------------------------------------------------------------------------

/// The name of the tool that is called.
pub open spec fn called_tool(params: JsonView) -> Option<Seq<char>> {
    trimmed_text(first_of(params.get("tool"@), params.get("name"@)))
}

/// The name of the tool that is called.
pub fn tool_call_name(params: &Json) -> (r: Option<String>)
    ensures
        opt_text(r) == called_tool(params@),
{
    let name: Option<&Json> = match params.get("tool") {
        Some(name) => Some(name),
        None => params.get("name"),
    };
    crate::issue::optional_trimmed_string(name)
}

/// The arguments of a tool call; none are an empty object.
pub open spec fn called_with(params: JsonView) -> JsonView {
    match params.get("arguments"@) {
        Some(arguments) => arguments,
        None => JsonView::Object(Seq::empty()),
    }
}

/// The arguments of a tool call.
pub fn tool_call_arguments(params: &Json) -> (r: Json)
    ensures
        r@ == called_with(params@),
{
    match params.get("arguments") {
        Some(arguments) => arguments.copy(),
        None => Json::empty_object(),
    }
}

/// A message with the result of the tool call that it asked for.
pub open spec fn with_tool_result(message: JsonView, result: JsonView) -> JsonView {
    match message.fields() {
        Some(fields) => JsonView::Object(put(fields, "toolResult"@, result)),
        None => JsonView::Object(put(Seq::empty(), "toolResult"@, result)),
    }
}

/// A message with the result of the tool call that it asked for.
pub fn tool_event_payload(message: &Json, result: &Json) -> (r: Json)
    ensures
        r@ == with_tool_result(message@, result@),
{
    broadcast use group_json_views;

    let mut fields: Vec<(String, Json)> = match message.as_object() {
        Some(fields) => crate::json::copy_entries(fields),
        None => Vec::new(),
    };
    proof {
        if message@.fields() is None {
            assert(entry_views(fields@) =~= Seq::empty());
        }
    }
    insert(&mut fields, owned("toolResult"), result.copy());
    Json::Object(fields)
}

/// Whether a tool call succeeded.
pub open spec fn succeeded(result: JsonView) -> bool {
    opt_truth(result.get("success"@)) == Some(true)
}

/// The name of the event that tells of a tool call.
pub open spec fn tool_event_name(tool: Seq<char>, result: JsonView) -> Seq<char> {
    if succeeded(result) {
        "tool_call_completed"@
    } else if tool == TODOIST_TOOL@ || tool == GITHUB_API_TOOL@ {
        "tool_call_failed"@
    } else {
        "unsupported_tool_call"@
    }
}

fn name_tool_event(tool: &str, result: &Json) -> (r: &'static str)
    ensures
        r@ == tool_event_name(tool@, result@),
{
    let success: bool = match result.get("success") {
        Some(Json::Bool(b)) => *b,
        _ => false,
    };
    if success {
        "tool_call_completed"
    } else if same(tool, TODOIST_TOOL) || same(tool, GITHUB_API_TOOL) {
        "tool_call_failed"
    } else {
        "unsupported_tool_call"
    }
}

/// Whether a message says that the turn waits for an operator.
pub open spec fn needs_input(method: Seq<char>, message: JsonView) -> bool {
    ||| method == "turn/input_required"@
    ||| method == "turn/needs_input"@
    ||| method == "turn/need_input"@
    ||| method == "turn/request_input"@
    ||| method == "turn/request_response"@
    ||| method == "turn/provide_input"@
    ||| method == "turn/approval_required"@
    ||| opt_truth(opt_get(message.get("params"@), "needsInput"@)) == Some(true)
}

/// Whether a message says that the turn waits for an operator.
pub fn input_required_method(method: &str, message: &Json) -> (r: bool)
    ensures
        r == needs_input(method@, message@),
{
    if same(method, "turn/input_required") || same(method, "turn/needs_input") || same(
        method,
        "turn/need_input",
    ) || same(method, "turn/request_input") || same(method, "turn/request_response") || same(
        method,
        "turn/provide_input",
    ) || same(method, "turn/approval_required") {
        return true;
    }
    match get_in(message.get("params"), "needsInput") {
        Some(Json::Bool(b)) => *b,
        _ => false,
    }
}

// ---------------------------------------------------------------------------
// Messages of a turn
// ---------------------------------------------------------------------------

/// How it goes on with a turn.
#[derive(Debug)]
pub enum TurnEnd {
    /// The turn goes on.
    GoOn,
    /// The turn is complete.
    Completed,
    /// The turn has failed.
    Failed(CodexError),
    /// The turn has failed and the worker is to be cancelled.
    Interrupted(CodexError),
}

/// How it goes on with a turn.
pub enum EndView {
    GoOn,
    Completed,
    Failed(CodexErrorView),
    Interrupted(CodexErrorView),
}

impl View for TurnEnd {
    type V = EndView;

    open spec fn view(&self) -> EndView {
        match self {
            TurnEnd::GoOn => EndView::GoOn,
            TurnEnd::Completed => EndView::Completed,
            TurnEnd::Failed(error) => EndView::Failed(error@),
            TurnEnd::Interrupted(error) => EndView::Interrupted(error@),
        }
    }
}

/// What a message asks for: first the reply is sent, and where that succeeds the events
/// are told, in this order.
#[derive(Debug)]
pub struct TurnOutcome {
    pub reply: Option<Json>,
    pub events: Vec<CodexEvent>,
    pub end: TurnEnd,
}

/// What a message asks for.
pub struct OutcomeView {
    pub reply: Option<JsonView>,
    pub events: Seq<EventView>,
    pub end: EndView,
}

impl View for TurnOutcome {
    type V = OutcomeView;

    open spec fn view(&self) -> OutcomeView {
        OutcomeView {
            reply: opt_view(self.reply),
            events: views_of(self.events@),
            end: self.end@,
        }
    }
}

/// A tool call that the app server asks for.
#[derive(Debug)]
pub struct ToolCall {
    pub request_id: Json,
    pub tool: String,
    pub arguments: Json,
    pub method: String,
    pub message: Json,
    pub raw: String,
}

/// A tool call that the app server asks for.
pub struct CallView {
    pub request_id: JsonView,
    pub tool: Seq<char>,
    pub arguments: JsonView,
    pub method: Seq<char>,
    pub message: JsonView,
    pub raw: Seq<char>,
}

impl View for ToolCall {
    type V = CallView;

    open spec fn view(&self) -> CallView {
        CallView {
            request_id: self.request_id@,
            tool: self.tool@,
            arguments: self.arguments@,
            method: self.method@,
            message: self.message@,
            raw: self.raw@,
        }
    }
}

/// What a line asks for.
#[derive(Debug)]
pub enum TurnStep {
    /// Reply, tell the events, and go on or end.
    Act(TurnOutcome),
    /// Call this tool and hand its result to `finish_tool_call`.
    CallTool(ToolCall),
    /// The app server has gone: the turn fails with its exit.
    Closed,
}

/// What a line asks for.
pub enum StepView {
    Act(OutcomeView),
    CallTool(CallView),
    Closed,
}

impl View for TurnStep {
    type V = StepView;

    open spec fn view(&self) -> StepView {
        match self {
            TurnStep::Act(outcome) => StepView::Act(outcome@),
            TurnStep::CallTool(call) => StepView::CallTool(call@),
            TurnStep::Closed => StepView::Closed,
        }
    }
}

/// The reply to a request of the app server.
pub open spec fn reply_to(id: JsonView, result: JsonView) -> JsonView {
    JsonView::Object(seq![("id"@, id), ("result"@, result)])
}

fn build_reply(id: Json, result: Json) -> (r: Json)
    ensures
        r@ == reply_to(id@, result@),
{
    Json::object2("id", id, "result", result)
}

/// What is done about a request of the app server.
#[allow(inconsistent_fields)]
pub enum RequestView {
    /// Nothing: it is no request that is known.
    Unknown,
    /// It is answered, and the turn goes on.
    Answered { reply: JsonView, event: EventView },
    /// It ends the turn.
    Refused { reply: Option<JsonView>, event: EventView, error: CodexErrorView },
    /// A tool is called.
    Tool,
}

/// An event about a request that carries what the request reports of tokens and limits.
pub open spec fn reporting_event(
    turn: TurnView,
    now: i128,
    name: Seq<char>,
    message: JsonView,
    raw: Option<Seq<char>>,
) -> EventView {
    turn_event(turn, now, name, usage_of(message), limits_in(message), message, raw)
}

fn build_reporting_event(
    turn: &TurnContext,
    now: i128,
    name: &str,
    message: &Json,
    raw: Option<String>,
) -> (r: CodexEvent)
    ensures
        r@ == reporting_event(turn@, now, name@, message@, opt_text(raw)),
{
    event(turn, now, name, extract_usage(message), extract_rate_limits(message), message.copy(), raw)
}

/// What is done about a request for approval.
pub open spec fn approval_request(
    policy: JsonView,
    turn: TurnView,
    now: i128,
    message: JsonView,
    id: JsonView,
    decision: Seq<char>,
    method: Seq<char>,
) -> RequestView {
    if approves(policy) {
        RequestView::Answered {
            reply: reply_to(id, JsonView::Object(seq![("decision"@, JsonView::Text(decision))])),
            event: reporting_event(turn, now, "approval_auto_approved"@, message, None),
        }
    } else {
        RequestView::Refused {
            reply: None,
            event: reporting_event(turn, now, "approval_required"@, message, None),
            error: CodexErrorView::ApprovalRequired(method),
        }
    }
}

/// What is done about a request of the app server.
pub open spec fn server_request(
    policy: JsonView,
    turn: TurnView,
    now: i128,
    message: JsonView,
    id: JsonView,
    method: Seq<char>,
) -> RequestView {
    if method == "item/commandExecution/requestApproval"@ || method
        == "item/fileChange/requestApproval"@ {
        approval_request(policy, turn, now, message, id, "acceptForSession"@, method)
    } else if method == "execCommandApproval"@ || method == "applyPatchApproval"@ {
        approval_request(policy, turn, now, message, id, "approved_for_session"@, method)
    } else if method == "item/tool/call"@ {
        RequestView::Tool
    } else if method == "item/tool/requestUserInput"@ {
        match input_reply(message.get("params"@), approves(policy)) {
            Some((answers, name, told)) => RequestView::Answered {
                reply: reply_to(id, JsonView::Object(seq![("answers"@, answers)])),
                event: EventView {
                    message: Some(told),
                    ..reporting_event(turn, now, name, message, None)
                },
            },
            None => RequestView::Refused {
                reply: None,
                event: turn_event(turn, now, "turn_input_required"@, None, None, message, None),
                error: CodexErrorView::TurnInputRequired(method),
            },
        }
    } else if method == "item/permissions/requestApproval"@ {
        RequestView::Refused {
            reply: Some(
                reply_to(
                    id,
                    JsonView::Object(seq![("permissions"@, JsonView::Object(Seq::empty()))]),
                ),
            ),
            event: turn_event(turn, now, "approval_required"@, None, None, message, None),
            error: CodexErrorView::ApprovalRequired(method),
        }
    } else if method == "mcpServer/elicitation/request"@ {
        RequestView::Refused {
            reply: Some(
                reply_to(
                    id,
                    JsonView::Object(seq![("action"@, JsonView::Text("decline"@))]),
                ),
            ),
            event: turn_event(turn, now, "turn_input_required"@, None, None, message, None),
            error: CodexErrorView::TurnInputRequired(method),
        }
    } else {
        RequestView::Unknown
    }
}

/// What is done about a request of the app server.
#[allow(inconsistent_fields)]
#[derive(Debug)]
pub enum RequestAnswer {
    Unknown,
    Answered { reply: Json, event: CodexEvent },
    Refused { reply: Option<Json>, event: CodexEvent, error: CodexError },
    Tool,
}

impl View for RequestAnswer {
    type V = RequestView;

    open spec fn view(&self) -> RequestView {
        match self {
            RequestAnswer::Unknown => RequestView::Unknown,
            RequestAnswer::Answered { reply, event } => RequestView::Answered {
                reply: reply@,
                event: event@,
            },
            RequestAnswer::Refused { reply, event, error } => RequestView::Refused {
                reply: opt_view(*reply),
                event: event@,
                error: error@,
            },
            RequestAnswer::Tool => RequestView::Tool,
        }
    }
}

/// What is done about a request for approval.
pub fn handle_approval_request(
    approval_policy: &Json,
    turn: &TurnContext,
    now: i128,
    message: &Json,
    request_id: Json,
    decision: &str,
    method: &str,
) -> (r: RequestAnswer)
    ensures
        r@ == approval_request(
            approval_policy@,
            turn@,
            now,
            message@,
            request_id@,
            decision@,
            method@,
        ),
{
    if auto_approve_requests(approval_policy) {
        RequestAnswer::Answered {
            reply: build_reply(request_id, Json::object1("decision", Json::text(decision))),
            event: build_reporting_event(turn, now, "approval_auto_approved", message, None),
        }
    } else {
        RequestAnswer::Refused {
            reply: None,
            event: build_reporting_event(turn, now, "approval_required", message, None),
            error: CodexError::ApprovalRequired(owned(method)),
        }
    }
}

/// What is done about a request of the app server.
pub fn handle_server_request(
    approval_policy: &Json,
    turn: &TurnContext,
    now: i128,
    message: &Json,
    request_id: Json,
    method: &str,
) -> (r: RequestAnswer)
    ensures
        r@ == server_request(approval_policy@, turn@, now, message@, request_id@, method@),
{
    if same(method, "item/commandExecution/requestApproval") || same(
        method,
        "item/fileChange/requestApproval",
    ) {
        handle_approval_request(
            approval_policy,
            turn,
            now,
            message,
            request_id,
            "acceptForSession",
            method,
        )
    } else if same(method, "execCommandApproval") || same(method, "applyPatchApproval") {
        handle_approval_request(
            approval_policy,
            turn,
            now,
            message,
            request_id,
            "approved_for_session",
            method,
        )
    } else if same(method, "item/tool/call") {
        RequestAnswer::Tool
    } else if same(method, "item/tool/requestUserInput") {
        let approve: bool = auto_approve_requests(approval_policy);
        match build_tool_input_reply(message.get("params"), approve) {
            Some(reply) => {
                let mut told: CodexEvent = build_reporting_event(
                    turn,
                    now,
                    reply.event,
                    message,
                    None,
                );
                told.message = Some(reply.message);
                RequestAnswer::Answered {
                    reply: build_reply(request_id, Json::object1("answers", reply.answers)),
                    event: told,
                }
            },
            None => RequestAnswer::Refused {
                reply: None,
                event: event(turn, now, "turn_input_required", None, None, message.copy(), None),
                error: CodexError::TurnInputRequired(owned(method)),
            },
        }
    } else if same(method, "item/permissions/requestApproval") {
        RequestAnswer::Refused {
            reply: Some(
                build_reply(request_id, Json::object1("permissions", Json::empty_object())),
            ),
            event: event(turn, now, "approval_required", None, None, message.copy(), None),
            error: CodexError::ApprovalRequired(owned(method)),
        }
    } else if same(method, "mcpServer/elicitation/request") {
        RequestAnswer::Refused {
            reply: Some(build_reply(request_id, Json::object1("action", Json::text("decline")))),
            event: event(turn, now, "turn_input_required", None, None, message.copy(), None),
            error: CodexError::TurnInputRequired(owned(method)),
        }
    } else {
        RequestAnswer::Unknown
    }
}

/// What follows once a message has been dealt with: the turn stops where it waits for an
/// operator, or goes on with a notification.
pub open spec fn settled(
    turn: TurnView,
    now: i128,
    method: Seq<char>,
    message: JsonView,
    raw: Seq<char>,
    reply: Option<JsonView>,
    earlier: Seq<EventView>,
) -> OutcomeView {
    if needs_input(method, message) {
        OutcomeView {
            reply,
            events: earlier.push(
                reporting_event(turn, now, "turn_input_required"@, message, Some(raw)),
            ),
            end: EndView::Interrupted(CodexErrorView::TurnInputRequired(method)),
        }
    } else {
        OutcomeView {
            reply,
            events: earlier.push(reporting_event(turn, now, "notification"@, message, Some(raw))),
            end: EndView::GoOn,
        }
    }
}

/// A message that ends the turn.
pub open spec fn ended(
    turn: TurnView,
    now: i128,
    name: Seq<char>,
    message: JsonView,
    raw: Seq<char>,
    end: EndView,
) -> OutcomeView {
    OutcomeView {
        reply: None,
        events: seq![reporting_event(turn, now, name, message, Some(raw))],
        end,
    }
}

/// What a message of the app server asks for while a turn runs.
pub open spec fn turn_message(
    policy: JsonView,
    turn: TurnView,
    now: i128,
    method: Seq<char>,
    message: JsonView,
    raw: Seq<char>,
) -> StepView {
    if method == "turn/completed"@ {
        StepView::Act(ended(turn, now, "turn_completed"@, message, raw, EndView::Completed))
    } else if method == "turn/failed"@ {
        StepView::Act(
            ended(
                turn,
                now,
                "turn_failed"@,
                message,
                raw,
                EndView::Failed(CodexErrorView::TurnFailed(compact_of(message))),
            ),
        )
    } else if method == "turn/cancelled"@ {
        StepView::Act(
            ended(
                turn,
                now,
                "turn_cancelled"@,
                message,
                raw,
                EndView::Failed(CodexErrorView::TurnCancelled(compact_of(message))),
            ),
        )
    } else if message.get("id"@) is Some && message.get("params"@) is Some {
        let id = message.get("id"@)->0;
        let params = message.get("params"@)->0;
        match server_request(policy, turn, now, message, id, method) {
            RequestView::Unknown => StepView::Act(
                settled(turn, now, method, message, raw, None, Seq::empty()),
            ),
            RequestView::Answered { reply, event } => StepView::Act(
                settled(turn, now, method, message, raw, Some(reply), seq![event]),
            ),
            RequestView::Refused { reply, event, error } => StepView::Act(
                OutcomeView { reply, events: seq![event], end: EndView::Failed(error) },
            ),
            RequestView::Tool => StepView::CallTool(
                CallView {
                    request_id: id,
                    tool: match called_tool(params) {
                        Some(tool) => tool,
                        None => Seq::empty(),
                    },
                    arguments: called_with(params),
                    method,
                    message,
                    raw,
                },
            ),
        }
    } else {
        StepView::Act(settled(turn, now, method, message, raw, None, Seq::empty()))
    }
}

fn settle(
    turn: &TurnContext,
    now: i128,
    method: &str,
    message: &Json,
    raw: String,
    reply: Option<Json>,
    earlier: Vec<CodexEvent>,
) -> (r: TurnOutcome)
    ensures
        r@ == settled(
            turn@,
            now,
            method@,
            message@,
            raw@,
            opt_view(reply),
            views_of(earlier@),
        ),
{
    let ghost had = views_of(earlier@);
    let mut events: Vec<CodexEvent> = earlier;
    if input_required_method(method, message) {
        let told: CodexEvent = build_reporting_event(
            turn,
            now,
            "turn_input_required",
            message,
            Some(raw),
        );
        let ghost shown = told@;
        events.push(told);
        proof {
            assert(views_of(events@) =~= had.push(shown));
        }
        TurnOutcome {
            reply,
            events,
            end: TurnEnd::Interrupted(CodexError::TurnInputRequired(owned(method))),
        }
    } else {
        let told: CodexEvent = build_reporting_event(turn, now, "notification", message, Some(raw));
        let ghost shown = told@;
        events.push(told);
        proof {
            assert(views_of(events@) =~= had.push(shown));
        }
        TurnOutcome { reply, events, end: TurnEnd::GoOn }
    }
}

fn end_turn(
    turn: &TurnContext,
    now: i128,
    name: &str,
    message: &Json,
    raw: String,
    end: TurnEnd,
) -> (r: TurnStep)
    ensures
        r@ == StepView::Act(ended(turn@, now, name@, message@, raw@, end@)),
{
    let told: CodexEvent = build_reporting_event(turn, now, name, message, Some(raw));
    let ghost shown = told@;
    let events: Vec<CodexEvent> = vec![told];
    proof {
        assert(views_of(events@) =~= seq![shown]);
    }
    TurnStep::Act(TurnOutcome { reply: None, events, end })
}

/// What a message of the app server asks for while a turn runs.
pub fn handle_turn_message(
    approval_policy: &Json,
    turn: &TurnContext,
    now: i128,
    method: &str,
    message: &Json,
    raw: String,
) -> (r: TurnStep)
    ensures
        r@ == turn_message(approval_policy@, turn@, now, method@, message@, raw@),
{
    if same(method, "turn/completed") {
        return end_turn(turn, now, "turn_completed", message, raw, TurnEnd::Completed);
    }
    if same(method, "turn/failed") {
        let error: CodexError = CodexError::TurnFailed(to_text(message));
        return end_turn(turn, now, "turn_failed", message, raw, TurnEnd::Failed(error));
    }
    if same(method, "turn/cancelled") {
        let error: CodexError = CodexError::TurnCancelled(to_text(message));
        return end_turn(turn, now, "turn_cancelled", message, raw, TurnEnd::Failed(error));
    }
    let none: Vec<CodexEvent> = Vec::new();
    proof {
        assert(views_of(none@) =~= Seq::<EventView>::empty());
    }
    match (message.get("id"), message.get("params")) {
        (Some(id), Some(params)) => match handle_server_request(
            approval_policy,
            turn,
            now,
            message,
            id.copy(),
            method,
        ) {
            RequestAnswer::Unknown => TurnStep::Act(
                settle(turn, now, method, message, raw, None, none),
            ),
            RequestAnswer::Answered { reply, event } => {
                let ghost shown = event@;
                let events: Vec<CodexEvent> = vec![event];
                proof {
                    assert(views_of(events@) =~= seq![shown]);
                }
                TurnStep::Act(settle(turn, now, method, message, raw, Some(reply), events))
            },
            RequestAnswer::Refused { reply, event, error } => {
                let ghost shown = event@;
                let events: Vec<CodexEvent> = vec![event];
                proof {
                    assert(views_of(events@) =~= seq![shown]);
                }
                TurnStep::Act(TurnOutcome { reply, events, end: TurnEnd::Failed(error) })
            },
            RequestAnswer::Tool => {
                let tool: String = match tool_call_name(params) {
                    Some(tool) => tool,
                    None => String::new(),
                };
                TurnStep::CallTool(
                    ToolCall {
                        request_id: id.copy(),
                        tool,
                        arguments: tool_call_arguments(params),
                        method: owned(method),
                        message: message.copy(),
                        raw,
                    },
                )
            },
        },
        _ => TurnStep::Act(settle(turn, now, method, message, raw, None, none)),
    }
}

/// What follows a tool call: its result goes to the app server, and an event tells of it.
pub open spec fn tool_finished(turn: TurnView, now: i128, call: CallView, result: JsonView) -> OutcomeView {
    settled(
        turn,
        now,
        call.method,
        call.message,
        call.raw,
        Some(reply_to(call.request_id, result)),
        seq![
            turn_event(
                turn,
                now,
                tool_event_name(call.tool, result),
                None,
                None,
                with_tool_result(call.message, result),
                None,
            ),
        ],
    )
}

/// What follows a tool call.
pub fn finish_tool_call(turn: &TurnContext, now: i128, call: ToolCall, result: &Json) -> (r:
    TurnOutcome)
    ensures
        r@ == tool_finished(turn@, now, call@, result@),
{
    let told: CodexEvent = event(
        turn,
        now,
        name_tool_event(call.tool.as_str(), result),
        None,
        None,
        tool_event_payload(&call.message, result),
        None,
    );
    let ghost shown = told@;
    let events: Vec<CodexEvent> = vec![told];
    proof {
        assert(views_of(events@) =~= seq![shown]);
    }
    settle(
        turn,
        now,
        call.method.as_str(),
        &call.message,
        call.raw,
        Some(build_reply(call.request_id, result.copy())),
        events,
    )
}

// ---------------------------------------------------------------------------
// Lines
// ---------------------------------------------------------------------------

/// A line that the app server wrote.
#[derive(Debug)]
pub enum RawLine {
    Stdout(String),
    StdoutMalformed(String),
    StdoutClosed,
}

/// A line that the app server wrote.
pub enum LineView {
    Stdout(Seq<char>),
    StdoutMalformed(Seq<char>),
    StdoutClosed,
}

impl View for RawLine {
    type V = LineView;

    open spec fn view(&self) -> LineView {
        match self {
            RawLine::Stdout(text) => LineView::Stdout(text@),
            RawLine::StdoutMalformed(text) => LineView::StdoutMalformed(text@),
            RawLine::StdoutClosed => LineView::StdoutClosed,
        }
    }
}

/// The bytes of a line without the line breaks at its end.
pub open spec fn line_bytes(bytes: Seq<u8>) -> Seq<u8>
    decreases bytes.len(),
{
    if bytes.len() > 0 && (bytes.last() == 10u8 || bytes.last() == 13u8) {
        line_bytes(bytes.drop_last())
    } else {
        bytes
    }
}

/// `String::from_utf8`: the text that the bytes encode, or, where they are not UTF-8, a
/// reason, of which nothing is said here.
#[verifier::external_body]
fn utf8_text(bytes: Vec<u8>) -> (r: Result<String, String>)
    ensures
        r is Ok <==> vstd::utf8::valid_utf8(bytes@),
        r matches Ok(text) ==> text@ == vstd::utf8::decode_utf8(bytes@),
{
    String::from_utf8(bytes).map_err(|error| error.to_string())
}

/// The line that was read up to and with its line break. Where nothing was read there is
/// no line any more.
pub fn read_stdout_line(buffer: Vec<u8>) -> (r: RawLine)
    ensures
        r is StdoutClosed <==> buffer@.len() == 0,
        r is StdoutMalformed <==> !vstd::utf8::valid_utf8(line_bytes(buffer@)),
        buffer@.len() > 0 && vstd::utf8::valid_utf8(line_bytes(buffer@)) ==> r@
            == LineView::Stdout(vstd::utf8::decode_utf8(line_bytes(buffer@))),
{
    let ghost all = buffer@;
    if buffer.len() == 0 {
        proof {
            assert(line_bytes(all) =~= Seq::empty());
        }
        return RawLine::StdoutClosed;
    }
    let mut bytes: Vec<u8> = buffer;
    while bytes.len() > 0 && (bytes[bytes.len() - 1] == 10 || bytes[bytes.len() - 1] == 13)
        invariant
            line_bytes(all) == line_bytes(bytes@),
        decreases bytes.len(),
    {
        proof {
            assert(bytes@.drop_last() =~= bytes@.subrange(0, bytes@.len() - 1));
        }
        bytes.pop();
    }
    match utf8_text(bytes) {
        Ok(text) => RawLine::Stdout(text),
        Err(reason) => RawLine::StdoutMalformed(reason),
    }
}

/// Whether a line of the app server's error output is worth a warning.
pub open spec fn warns(line: Seq<char>) -> bool {
    ||| occurs(lowered(line), "error"@)
    ||| occurs(lowered(line), "warn"@)
    ||| occurs(lowered(line), "failed"@)
    ||| occurs(lowered(line), "panic"@)
}

/// Whether a line of the app server's error output is worth a warning.
pub fn stderr_line_warns(line: &str) -> (r: bool)
    ensures
        r == warns(line@),
{
    let low: String = to_ascii_lowercase(line);
    contains(low.as_str(), "error") || contains(low.as_str(), "warn") || contains(
        low.as_str(),
        "failed",
    ) || contains(low.as_str(), "panic")
}

/// A value on one line of a log: its words with one space between, at most 240
/// characters.
pub fn inline_log_value(value: &str) -> (r: String)
    ensures
        r@ == first_chars(joined(words(value@), " "@), 240),
{
    let all: Vec<String> = split_whitespace(value);
    let line: String = join(&all, " ");
    take_chars(line.as_str(), 240)
}

/// The shell that runs the app server.
pub fn app_server_shell(bash_exists: bool, sh_exists: bool) -> (r: Option<&'static str>)
    ensures
        opt_str(r) == if bash_exists {
            Some("/bin/bash"@)
        } else if sh_exists {
            Some("/bin/sh"@)
        } else {
            None
        },
{
    if bash_exists {
        Some("/bin/bash")
    } else if sh_exists {
        Some("/bin/sh")
    } else {
        None
    }
}

/// What a remote shell runs: it enters the workspace that `assignment` names and starts
/// the command there.
pub fn remote_command(assignment: &str, command: &str) -> (r: String)
    ensures
        r@ == assignment@ + "\ncd \"$workspace\" && exec "@ + command@,
{
    concat3(assignment, "\ncd \"$workspace\" && exec ", command)
}

// ---------------------------------------------------------------------------
// Sessions
// ---------------------------------------------------------------------------

/// What the configuration says of the agent.
#[derive(Debug)]
pub struct CodexSettings {
    pub command: String,
    pub approval_policy: Json,
    pub thread_sandbox: Json,
    pub turn_sandbox_policy: Json,
    pub turn_timeout_ms: u64,
    pub read_timeout_ms: u64,
}

/// What the configuration says of the agent.
pub struct SettingsView {
    pub command: Seq<char>,
    pub approval_policy: JsonView,
    pub thread_sandbox: JsonView,
    pub turn_sandbox_policy: JsonView,
    pub turn_timeout_ms: u64,
    pub read_timeout_ms: u64,
}

impl View for CodexSettings {
    type V = SettingsView;

    open spec fn view(&self) -> SettingsView {
        SettingsView {
            command: self.command@,
            approval_policy: self.approval_policy@,
            thread_sandbox: self.thread_sandbox@,
            turn_sandbox_policy: self.turn_sandbox_policy@,
            turn_timeout_ms: self.turn_timeout_ms,
            read_timeout_ms: self.read_timeout_ms,
        }
    }
}

impl CodexSettings {
    /// A copy of the settings.
    pub fn copy(&self) -> (r: CodexSettings)
        ensures
            r@ == self@,
    {
        CodexSettings {
            command: self.command.clone(),
            approval_policy: self.approval_policy.copy(),
            thread_sandbox: self.thread_sandbox.copy(),
            turn_sandbox_policy: self.turn_sandbox_policy.copy(),
            turn_timeout_ms: self.turn_timeout_ms,
            read_timeout_ms: self.read_timeout_ms,
        }
    }
}

/// What starts sessions.
#[derive(Debug)]
pub struct AppServerClient {
    pub config: CodexSettings,
}

/// A session with an app server.
#[derive(Debug)]
pub struct AppServerSession {
    pub config: CodexSettings,
    pub workspace: String,
    pub worker_host: Option<String>,
    pub thread_id: String,
    pub dynamic_tool_payloads: Vec<ToolPayloadMetric>,
    pub next_request_id: u64,
    pub codex_app_server_pid: Option<u32>,
}

/// A session with an app server.
pub struct SessionView {
    pub config: SettingsView,
    pub workspace: Seq<char>,
    pub worker_host: Option<Seq<char>>,
    pub thread_id: Seq<char>,
    pub dynamic_tool_payloads: Seq<(Seq<char>, nat)>,
    pub next_request_id: u64,
    pub codex_app_server_pid: Option<u32>,
}

impl View for AppServerSession {
    type V = SessionView;

    open spec fn view(&self) -> SessionView {
        SessionView {
            config: self.config@,
            workspace: self.workspace@,
            worker_host: opt_text(self.worker_host),
            thread_id: self.thread_id@,
            dynamic_tool_payloads: metric_views(self.dynamic_tool_payloads@),
            next_request_id: self.next_request_id,
            codex_app_server_pid: self.codex_app_server_pid,
        }
    }
}

/// A turn that was completed.
#[derive(Debug)]
pub struct TurnSession {
    pub session_id: String,
    pub thread_id: String,
    pub turn_id: String,
}

impl AppServerClient {
    /// A client with these settings.
    pub fn new(config: CodexSettings) -> (r: AppServerClient)
        ensures
            r.config@ == config@,
    {
        AppServerClient { config }
    }

    /// A session in `workspace` with the process `pid`, before anything was said.
    pub fn open_session(
        &self,
        workspace: String,
        worker_host: Option<String>,
        pid: Option<u32>,
    ) -> (r: AppServerSession)
        ensures
            r@ == (SessionView {
                config: self.config@,
                workspace: workspace@,
                worker_host: opt_text(worker_host),
                thread_id: Seq::empty(),
                dynamic_tool_payloads: Seq::empty(),
                next_request_id: 10,
                codex_app_server_pid: pid,
            }),
    {
        let r: AppServerSession = AppServerSession {
            config: self.config.copy(),
            workspace,
            worker_host,
            thread_id: String::new(),
            dynamic_tool_payloads: Vec::new(),
            next_request_id: 10,
            codex_app_server_pid: pid,
        };
        proof {
            assert(r@.dynamic_tool_payloads =~= Seq::empty());
        }
        r
    }
}

/// A request to the app server.
pub open spec fn request(id: u64, method: Seq<char>, params: JsonView) -> JsonView {
    JsonView::Object(
        seq![
            ("id"@, JsonView::Number(NumberView::Unsigned(id))),
            ("method"@, JsonView::Text(method)),
            ("params"@, params),
        ],
    )
}

fn build_request(id: u64, method: &str, params: Json) -> (r: Json)
    ensures
        r@ == request(id, method@, params@),
{
    Json::object3("id", Json::unsigned(id), "method", Json::text(method), "params", params)
}

/// The number of the request that opens a session.
pub const INITIALIZE_REQUEST_ID: u64 = 1;

/// The number of the request that starts a thread.
pub const THREAD_REQUEST_ID: u64 = 2;

/// The request that opens a session, from a client of this version.
pub open spec fn initialize_message(version: Seq<char>) -> JsonView {
    request(
        INITIALIZE_REQUEST_ID,
        "initialize"@,
        JsonView::Object(
            seq![
                (
                    "capabilities"@,
                    JsonView::Object(seq![("experimentalApi"@, JsonView::Bool(true))]),
                ),
                (
                    "clientInfo"@,
                    JsonView::Object(
                        seq![
                            ("name"@, JsonView::Text("symphony-rust"@)),
                            ("version"@, JsonView::Text(version)),
                        ],
                    ),
                ),
            ],
        ),
    )
}

/// The request that opens a session, from a client of this version.
pub fn initialize_request(version: &str) -> (r: Json)
    ensures
        r@ == initialize_message(version@),
{
    build_request(
        INITIALIZE_REQUEST_ID,
        "initialize",
        Json::object2(
            "capabilities",
            Json::object1("experimentalApi", Json::Bool(true)),
            "clientInfo",
            Json::object2("name", Json::text("symphony-rust"), "version", Json::text(version)),
        ),
    )
}

/// The notice that the session has been opened.
pub fn initialized_notice() -> (r: Json)
    ensures
        r@ == JsonView::Object(
            seq![
                ("method"@, JsonView::Text("initialized"@)),
                ("params"@, JsonView::Object(Seq::empty())),
            ],
        ),
{
    Json::object2("method", Json::text("initialized"), "params", Json::empty_object())
}

/// The sandbox of a turn: where the policy names writable roots, the workspace is the
/// only one.
pub open spec fn sandbox_for(policy: JsonView, workspace: Seq<char>) -> JsonView {
    match policy {
        JsonView::Object(entries) => if has_key(entries, "writableRoots"@) {
            JsonView::Object(
                put(entries, "writableRoots"@, JsonView::Array(seq![JsonView::Text(workspace)])),
            )
        } else {
            policy
        },
        _ => policy,
    }
}

/// The sandbox of a turn.
pub fn turn_sandbox_policy_for_workspace(policy: &Json, workspace: &str) -> (r: Json)
    ensures
        r@ == sandbox_for(policy@, workspace@),
{
    broadcast use group_json_views;

    match policy {
        Json::Object(entries) => {
            if policy.has("writableRoots") {
                let mut changed: Vec<(String, Json)> = crate::json::copy_entries(entries);
                insert(
                    &mut changed,
                    owned("writableRoots"),
                    Json::array1(Json::text(workspace)),
                );
                Json::Object(changed)
            } else {
                policy.copy()
            }
        },
        _ => policy.copy(),
    }
}

/// The request that starts a thread with these tools.
pub open spec fn thread_message(session: SessionView, tools: Seq<JsonView>) -> JsonView {
    request(
        THREAD_REQUEST_ID,
        "thread/start"@,
        JsonView::Object(
            seq![
                ("approvalPolicy"@, session.config.approval_policy),
                ("cwd"@, JsonView::Text(session.workspace)),
                ("dynamicTools"@, JsonView::Array(tools)),
                ("sandbox"@, session.config.thread_sandbox),
            ],
        ),
    )
}

/// The request that starts a turn.
pub open spec fn turn_start_message(
    session: SessionView,
    prompt: Seq<char>,
    issue: IssueView,
) -> JsonView {
    request(
        session.next_request_id,
        "turn/start"@,
        JsonView::Object(
            seq![
                ("approvalPolicy"@, session.config.approval_policy),
                ("cwd"@, JsonView::Text(session.workspace)),
                (
                    "input"@,
                    JsonView::Array(
                        seq![
                            JsonView::Object(
                                seq![
                                    ("text"@, JsonView::Text(prompt)),
                                    ("type"@, JsonView::Text("text"@)),
                                ],
                            ),
                        ],
                    ),
                ),
                (
                    "sandboxPolicy"@,
                    sandbox_for(session.config.turn_sandbox_policy, session.workspace),
                ),
                ("threadId"@, JsonView::Text(session.thread_id)),
                ("title"@, JsonView::Text(issue.identifier + ": "@ + issue.title)),
            ],
        ),
    )
}

/// The identifier of the thing under `key` in a response.
pub open spec fn response_id(response: JsonView, key: Seq<char>) -> Option<Seq<char>> {
    opt_json_text(opt_get(response.get(key), "id"@))
}

fn find_response_id(response: &Json, key: &str) -> (r: Option<String>)
    ensures
        opt_text(r) == response_id(response@, key@),
{
    match get_in(response.get(key), "id") {
        Some(id) => match id.as_str() {
            Some(text) => Some(owned(text)),
            None => None,
        },
        None => None,
    }
}

/// A turn that has been started, with the event that tells of it, or why it was not.
#[allow(inconsistent_fields)]
#[derive(Debug)]
pub enum TurnStart {
    Started { turn: TurnContext, event: CodexEvent },
    Failed { error: CodexError, event: Option<CodexEvent> },
}

/// A turn that has been started, or why it was not.
#[allow(inconsistent_fields)]
pub enum StartView {
    Started { turn: TurnView, event: EventView },
    Failed { error: CodexErrorView, event: Option<EventView> },
}

impl View for TurnStart {
    type V = StartView;

    open spec fn view(&self) -> StartView {
        match self {
            TurnStart::Started { turn, event } => StartView::Started { turn: turn@, event: event@ },
            TurnStart::Failed { error, event } => StartView::Failed {
                error: error@,
                event: match *event {
                    Some(event) => Some(event@),
                    None => None,
                },
            },
        }
    }
}

impl SessionView {
    /// Whom the events of the session are about.
    pub open spec fn identity(self) -> IdentityView {
        IdentityView {
            pid: self.codex_app_server_pid,
            worker_host: self.worker_host,
            session_id: None,
            thread_id: None,
            turn_id: None,
        }
    }

    /// The turn with this identifier.
    pub open spec fn turn(self, turn_id: Seq<char>) -> TurnView {
        TurnView {
            pid: self.codex_app_server_pid,
            worker_host: self.worker_host,
            session_id: self.thread_id + "-"@ + turn_id,
            thread_id: self.thread_id,
            turn_id,
        }
    }

    /// What the response to the request for a turn means.
    pub open spec fn turn_start(
        self,
        response: Result<JsonView, CodexErrorView>,
        now: i128,
    ) -> StartView {
        match response {
            Err(error) => StartView::Failed {
                error,
                event: Some(
                    plain_event("startup_failed"@, now, self.identity(), Some(error.shown()), None),
                ),
            },
            Ok(response) => match response_id(response, "turn"@) {
                None => StartView::Failed {
                    error: CodexErrorView::ResponseError(compact_of(response)),
                    event: None,
                },
                Some(id) => StartView::Started {
                    turn: self.turn(id),
                    event: plain_event(
                        "session_started"@,
                        now,
                        self.turn(id).identity(),
                        None,
                        None,
                    ),
                },
            },
        }
    }
}

/// What a response holds.
pub open spec fn response_view(r: Result<Json, CodexError>) -> Result<JsonView, CodexErrorView> {
    match r {
        Ok(json) => Ok(json@),
        Err(error) => Err(error@),
    }
}

impl AppServerSession {
    /// Whom the events of the session are about.
    pub fn event_identity(&self) -> (r: EventIdentity)
        ensures
            r@ == self@.identity(),
    {
        EventIdentity::new(self.codex_app_server_pid, clone_opt(&self.worker_host))
    }

    /// The names and sizes of the tools that the thread was offered.
    pub fn dynamic_tool_payloads(&self) -> (r: &Vec<ToolPayloadMetric>)
        ensures
            metric_views(r@) == self@.dynamic_tool_payloads,
    {
        &self.dynamic_tool_payloads
    }

    /// A number for the next request.
    pub fn take_request_id(&mut self) -> (id: u64)
        requires
            old(self)@.next_request_id < u64::MAX,
        ensures
            id == old(self)@.next_request_id,
            final(self)@ == (SessionView {
                next_request_id: (old(self)@.next_request_id + 1) as u64,
                ..old(self)@
            }),
    {
        let id: u64 = self.next_request_id;
        self.next_request_id = id + 1;
        id
    }

    /// The request that starts a thread with these tools.
    pub fn thread_request(&self, dynamic_tools: &Vec<Json>) -> (r: Json)
        ensures
            r@ == thread_message(self@, views(dynamic_tools@)),
    {
        broadcast use group_json_views;

        let mut tools: Vec<Json> = Vec::new();
        let mut i: usize = 0;
        while i < dynamic_tools.len()
            invariant
                i <= dynamic_tools.len(),
                tools.len() == i,
                forall|j: int| 0 <= j < i ==> (#[trigger] tools@[j])@ == dynamic_tools@[j]@,
            decreases dynamic_tools.len() - i,
        {
            tools.push(dynamic_tools[i].copy());
            i = i + 1;
        }
        proof {
            assert(views(tools@) =~= views(dynamic_tools@));
        }
        build_request(
            THREAD_REQUEST_ID,
            "thread/start",
            Json::object4(
                "approvalPolicy",
                self.config.approval_policy.copy(),
                "cwd",
                Json::text(self.workspace.as_str()),
                "dynamicTools",
                Json::Array(tools),
                "sandbox",
                self.config.thread_sandbox.copy(),
            ),
        )
    }

    /// Takes in the response to the request for a thread, and the sizes of the tools that
    /// it was offered.
    pub fn thread_started(&mut self, response: &Json, dynamic_tools: &Vec<Json>) -> (r: Result<
        (),
        CodexError,
    >)
        ensures
            match response_id(response@, "thread"@) {
                Some(id) => r is Ok && final(self)@ == (SessionView {
                    thread_id: id,
                    dynamic_tool_payloads: crate::dynamic_tool::metrics_of(views(dynamic_tools@)),
                    ..old(self)@
                }),
                None => r matches Err(error) && error@ == CodexErrorView::ResponseError(
                    compact_of(response@),
                ) && final(self)@ == (SessionView {
                    dynamic_tool_payloads: crate::dynamic_tool::metrics_of(views(dynamic_tools@)),
                    ..old(self)@
                }),
            },
    {
        self.dynamic_tool_payloads = crate::dynamic_tool::tool_payload_metrics(dynamic_tools);
        match find_response_id(response, "thread") {
            Some(id) => {
                self.thread_id = id;
                Ok(())
            },
            None => Err(CodexError::ResponseError(to_text(response))),
        }
    }

    /// The request that starts a turn, and its number.
    pub fn turn_request(&mut self, prompt: &str, issue: &Issue) -> (r: (u64, Json))
        requires
            old(self)@.next_request_id < u64::MAX,
        ensures
            r.0 == old(self)@.next_request_id,
            r.1@ == turn_start_message(old(self)@, prompt@, issue@),
            final(self)@ == (SessionView {
                next_request_id: (old(self)@.next_request_id + 1) as u64,
                ..old(self)@
            }),
    {
        let id: u64 = self.take_request_id();
        let params: Json = Json::object6(
            "approvalPolicy",
            self.config.approval_policy.copy(),
            "cwd",
            Json::text(self.workspace.as_str()),
            "input",
            Json::array1(Json::object2("text", Json::text(prompt), "type", Json::text("text"))),
            "sandboxPolicy",
            turn_sandbox_policy_for_workspace(
                &self.config.turn_sandbox_policy,
                self.workspace.as_str(),
            ),
            "threadId",
            Json::text(self.thread_id.as_str()),
            "title",
            Json::Text(concat3(issue.identifier.as_str(), ": ", issue.title.as_str())),
        );
        (id, build_request(id, "turn/start", params))
    }

    /// What the response to the request for a turn means.
    pub fn turn_started(&self, response: Result<Json, CodexError>, now: i128) -> (r: TurnStart)
        ensures
            r@ == self@.turn_start(response_view(response), now),
    {
        match response {
            Err(error) => {
                let shown: String = error.to_text();
                let told: CodexEvent = event_with(
                    "startup_failed",
                    now,
                    self.event_identity(),
                    Some(shown),
                    None,
                );
                TurnStart::Failed { error, event: Some(told) }
            },
            Ok(response) => match find_response_id(&response, "turn") {
                None => TurnStart::Failed {
                    error: CodexError::ResponseError(to_text(&response)),
                    event: None,
                },
                Some(id) => {
                    let turn: TurnContext = TurnContext {
                        pid: self.codex_app_server_pid,
                        worker_host: clone_opt(&self.worker_host),
                        session_id: concat3(self.thread_id.as_str(), "-", id.as_str()),
                        thread_id: self.thread_id.clone(),
                        turn_id: id,
                    };
                    let told: CodexEvent = event_with(
                        "session_started",
                        now,
                        turn.identity(),
                        None,
                        None,
                    );
                    TurnStart::Started { turn, event: told }
                },
            },
        }
    }
}

// ---------------------------------------------------------------------------
// Waiting
// ---------------------------------------------------------------------------

/// What came of waiting for a response.
#[derive(Debug)]
pub enum ResponseInput {
    TimedOut,
    Line(RawLine),
}

/// What a line means to whoever waits for the response to a request.
#[derive(Debug)]
pub enum ResponseStep {
    /// Wait for the next line.
    Wait,
    /// The response.
    Reply(Json),
    /// The request has failed.
    Failed(CodexError),
    /// The app server has gone: the request fails with its exit.
    Closed,
}

/// What a line means to whoever waits for a response.
pub enum ResponseView {
    Wait,
    Reply(JsonView),
    Failed(CodexErrorView),
    Closed,
}

impl View for ResponseStep {
    type V = ResponseView;

    open spec fn view(&self) -> ResponseView {
        match self {
            ResponseStep::Wait => ResponseView::Wait,
            ResponseStep::Reply(json) => ResponseView::Reply(json@),
            ResponseStep::Failed(error) => ResponseView::Failed(error@),
            ResponseStep::Closed => ResponseView::Closed,
        }
    }
}

/// What a message means to whoever waits for the response to request `id`.
pub open spec fn response_in(id: u64, message: JsonView) -> ResponseView {
    let number = match message.get("id"@) {
        Some(found) => found.as_u64(),
        None => None,
    };
    if number != Some(id) {
        ResponseView::Wait
    } else {
        match message.get("result"@) {
            Some(result) => ResponseView::Reply(result),
            None => ResponseView::Failed(
                CodexErrorView::ResponseError(
                    match message.get("error"@) {
                        Some(error) => compact_of(error),
                        None => compact_of(message),
                    },
                ),
            ),
        }
    }
}

/// What a line means to whoever waits for the response to request `id`.
pub open spec fn response_line(id: u64, line: LineView) -> ResponseView {
    match line {
        LineView::Stdout(text) => match parsed(text) {
            Ok(message) => response_in(id, message),
            Err(_) => ResponseView::Wait,
        },
        LineView::StdoutMalformed(_) => ResponseView::Wait,
        LineView::StdoutClosed => ResponseView::Closed,
    }
}

/// What a message means to whoever waits for the response to request `request_id`.
pub fn read_response(request_id: u64, message: &Json) -> (r: ResponseStep)
    ensures
        r@ == response_in(request_id, message@),
{
    let number: Option<u64> = match message.get("id") {
        Some(found) => found.as_u64(),
        None => None,
    };
    let mine: bool = match number {
        Some(n) => n == request_id,
        None => false,
    };
    if !mine {
        return ResponseStep::Wait;
    }
    match message.get("result") {
        Some(result) => ResponseStep::Reply(result.copy()),
        None => {
            let reason: String = match message.get("error") {
                Some(error) => to_text(error),
                None => to_text(message),
            };
            ResponseStep::Failed(CodexError::ResponseError(reason))
        },
    }
}

/// What came of waiting for the response to request `request_id`.
pub fn await_response(request_id: u64, input: ResponseInput) -> (r: ResponseStep)
    ensures
        r@ == match input {
            ResponseInput::TimedOut => ResponseView::Failed(CodexErrorView::ResponseTimeout),
            ResponseInput::Line(line) => response_line(request_id, line@),
        },
{
    match input {
        ResponseInput::TimedOut => ResponseStep::Failed(CodexError::ResponseTimeout),
        ResponseInput::Line(RawLine::Stdout(text)) => match parse(text.as_str()) {
            Ok(message) => read_response(request_id, &message),
            Err(_) => ResponseStep::Wait,
        },
        ResponseInput::Line(RawLine::StdoutMalformed(_)) => ResponseStep::Wait,
        ResponseInput::Line(RawLine::StdoutClosed) => ResponseStep::Closed,
    }
}

/// What came of waiting while a turn runs.
#[derive(Debug)]
pub enum TurnInput {
    /// The worker was cancelled.
    Cancelled,
    /// The time for the turn is up.
    TimedOut,
    /// A line came.
    Line(RawLine),
}

/// A turn that fails without an event.
pub open spec fn turn_fails(error: CodexErrorView) -> StepView {
    StepView::Act(OutcomeView { reply: None, events: Seq::empty(), end: EndView::Failed(error) })
}

/// A turn that goes on after these events.
pub open spec fn turn_goes_on(events: Seq<EventView>) -> StepView {
    StepView::Act(OutcomeView { reply: None, events, end: EndView::GoOn })
}

/// The event about a line that is no JSON.
pub open spec fn malformed(turn: TurnView, now: i128, raw: Seq<char>) -> EventView {
    plain_event("malformed"@, now, turn.identity(), Some(raw), Some(raw))
}

/// What a line asks for while a turn runs.
pub open spec fn turn_line(policy: JsonView, turn: TurnView, now: i128, line: LineView) -> StepView {
    match line {
        LineView::Stdout(raw) => match parsed(raw) {
            Ok(message) => match opt_json_text(message.get("method"@)) {
                Some(method) => turn_message(policy, turn, now, method, message, raw),
                None => turn_goes_on(Seq::empty()),
            },
            Err(_) => turn_goes_on(seq![malformed(turn, now, raw)]),
        },
        LineView::StdoutMalformed(raw) => turn_goes_on(seq![malformed(turn, now, raw)]),
        LineView::StdoutClosed => StepView::Closed,
    }
}

/// What came of waiting asks for while a turn runs.
pub open spec fn turn_input(policy: JsonView, turn: TurnView, now: i128, input: TurnInput) -> StepView {
    match input {
        TurnInput::Cancelled => turn_fails(
            CodexErrorView::TurnCancelled("cancelled by orchestrator"@),
        ),
        TurnInput::TimedOut => turn_fails(CodexErrorView::TurnTimeout),
        TurnInput::Line(line) => turn_line(policy, turn, now, line@),
    }
}

fn fail_turn(error: CodexError) -> (r: TurnStep)
    ensures
        r@ == turn_fails(error@),
{
    let events: Vec<CodexEvent> = Vec::new();
    proof {
        assert(views_of(events@) =~= Seq::<EventView>::empty());
    }
    TurnStep::Act(TurnOutcome { reply: None, events, end: TurnEnd::Failed(error) })
}

fn note_malformed(turn: &TurnContext, now: i128, raw: String) -> (r: TurnStep)
    ensures
        r@ == turn_goes_on(seq![malformed(turn@, now, raw@)]),
{
    let told: CodexEvent = event_with(
        "malformed",
        now,
        turn.identity(),
        Some(raw.clone()),
        Some(raw),
    );
    let ghost shown = told@;
    let events: Vec<CodexEvent> = vec![told];
    proof {
        assert(views_of(events@) =~= seq![shown]);
    }
    TurnStep::Act(TurnOutcome { reply: None, events, end: TurnEnd::GoOn })
}

/// What a parsed line asks for while a turn runs.
pub fn step_on_message(
    approval_policy: &Json,
    turn: &TurnContext,
    now: i128,
    message: &Json,
    raw: String,
) -> (r: TurnStep)
    ensures
        r@ == match opt_json_text(message@.get("method"@)) {
            Some(method) => turn_message(approval_policy@, turn@, now, method, message@, raw@),
            None => turn_goes_on(Seq::empty()),
        },
{
    match text_in(message, "method") {
        Some(method) => handle_turn_message(approval_policy, turn, now, method, message, raw),
        None => {
            let events: Vec<CodexEvent> = Vec::new();
            proof {
                assert(views_of(events@) =~= Seq::<EventView>::empty());
            }
            TurnStep::Act(TurnOutcome { reply: None, events, end: TurnEnd::GoOn })
        },
    }
}

/// What came of waiting asks for while a turn runs.
pub fn run_turn_step(
    approval_policy: &Json,
    turn: &TurnContext,
    now: i128,
    input: TurnInput,
) -> (r: TurnStep)
    ensures
        r@ == turn_input(approval_policy@, turn@, now, input),
{
    match input {
        TurnInput::Cancelled => fail_turn(
            CodexError::TurnCancelled(owned("cancelled by orchestrator")),
        ),
        TurnInput::TimedOut => fail_turn(CodexError::TurnTimeout),
        TurnInput::Line(RawLine::Stdout(raw)) => match parse(raw.as_str()) {
            Ok(message) => step_on_message(approval_policy, turn, now, &message, raw),
            Err(_) => note_malformed(turn, now, raw),
        },
        TurnInput::Line(RawLine::StdoutMalformed(raw)) => note_malformed(turn, now, raw),
        TurnInput::Line(RawLine::StdoutClosed) => TurnStep::Closed,
    }
}

/// The turn, once it is complete.
pub fn completed_turn(turn: &TurnContext) -> (r: TurnSession)
    ensures
        r.session_id@ == turn@.session_id,
        r.thread_id@ == turn@.thread_id,
        r.turn_id@ == turn@.turn_id,
{
    TurnSession {
        session_id: turn.session_id.clone(),
        thread_id: turn.thread_id.clone(),
        turn_id: turn.turn_id.clone(),
    }
}

// ---------------------------------------------------------------------------
// Laws
// ---------------------------------------------------------------------------

/// A request that the app server makes is never left without an answer or an end: the
/// turn goes on only where a reply is sent, a tool is called or the request is none that
/// is known.
pub proof fn law_known_requests_are_answered(
    policy: JsonView,
    turn: TurnView,
    now: i128,
    method: Seq<char>,
    message: JsonView,
    raw: Seq<char>,
)
    requires
        message.get("id"@) is Some,
        message.get("params"@) is Some,
        server_request(policy, turn, now, message, message.get("id"@)->0, method) !is Unknown,
    ensures
        match turn_message(policy, turn, now, method, message, raw) {
            StepView::Act(outcome) => outcome.reply is Some || outcome.end !is GoOn,
            StepView::CallTool(call) => call.request_id == message.get("id"@)->0,
            StepView::Closed => false,
        },
{
}

/// Without a policy that approves, no request for approval is granted: the turn ends.
pub proof fn law_nothing_is_approved_unasked(
    policy: JsonView,
    turn: TurnView,
    now: i128,
    message: JsonView,
    id: JsonView,
    decision: Seq<char>,
    method: Seq<char>,
)
    requires
        !approves(policy),
    ensures
        approval_request(policy, turn, now, message, id, decision, method) matches
            RequestView::Refused { reply, error, .. } && reply is None && error
            == CodexErrorView::ApprovalRequired(method),
{
}

/// Only a message that says so completes a turn, and such a message always does.
pub proof fn law_turns_complete_on_word(
    policy: JsonView,
    turn: TurnView,
    now: i128,
    method: Seq<char>,
    message: JsonView,
    raw: Seq<char>,
)
    ensures
        (turn_message(policy, turn, now, method, message, raw) matches StepView::Act(outcome)
            && outcome.end is Completed) <==> method == "turn/completed"@,
{
}

/// Every message of a turn that calls no tool is told of.
pub proof fn law_messages_are_told(
    policy: JsonView,
    turn: TurnView,
    now: i128,
    method: Seq<char>,
    message: JsonView,
    raw: Seq<char>,
)
    ensures
        turn_message(policy, turn, now, method, message, raw) matches StepView::Act(outcome)
            ==> outcome.events.len() > 0 && outcome.events.last().session_id == Some(
            turn.session_id,
        ) && outcome.events.last().payload == Some(message),
{
}

/// The answers to a request for input name a question of the request each.
pub proof fn law_answers_belong_to_questions(questions: Seq<JsonView>, id: Seq<char>)
    requires
        refusals(questions) matches Some(answers) && has_key(answers, id),
    ensures
        exists|i: int|
            0 <= i < questions.len() && opt_json_text((#[trigger] questions[i]).get("id"@)) == Some(
                id,
            ),
    decreases questions.len(),
{
    let earlier = refusals(questions.drop_last())->0;
    let last = opt_json_text(questions.last().get("id"@))->0;
    let ghost n = questions.len() - 1;
    lemma_refusals_in_order(questions.drop_last());
    crate::table::lemma_put_lookup(earlier, last, answer_of(NON_INTERACTIVE_ANSWER@), id);
    if id == last {
        assert(questions[n] == questions.last());
    } else {
        law_answers_belong_to_questions(questions.drop_last(), id);
        let i = choose|i: int|
            0 <= i < questions.drop_last().len() && opt_json_text(
                (#[trigger] questions.drop_last()[i]).get("id"@),
            ) == Some(id);
        assert(questions[i] == questions.drop_last()[i]);
    }
}

proof fn lemma_refusals_in_order(questions: Seq<JsonView>)
    ensures
        refusals(questions) matches Some(answers) ==> crate::table::in_order(answers),
    decreases questions.len(),
{
    if questions.len() > 0 {
        lemma_refusals_in_order(questions.drop_last());
        match (refusals(questions.drop_last()), opt_json_text(questions.last().get("id"@))) {
            (Some(answers), Some(id)) => {
                crate::table::lemma_put_in_order(answers, id, answer_of(NON_INTERACTIVE_ANSWER@));
            },
            _ => {},
        }
    }
}

} // verus!
