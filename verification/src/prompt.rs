//! The prompts that an agent is given.
use vstd::prelude::*;
use vstd::string::*;

use crate::clock::{format_time, time_text};
use crate::issue::{CommentView, Issue, IssueComment, IssueView};
use crate::json::{
    as_stored, entry_views, group_json_views, integer, to_value, value_contents, views, Json,
    JsonView,
};
use crate::sorting::views_of;
use crate::text::{
    byte_len, concat3, decimal, len_bytes, opt_text, owned, texts, trim, trimmed, usize_text,
};

verus! {

broadcast use {vstd::seq::group_seq_axioms, vstd::string::group_string_axioms};

/// How large a prompt is, and what it is made of.
#[derive(Clone, Copy, Debug, PartialEq, Eq, Structural)]
pub struct IssuePromptMetrics {
    pub prompt_bytes: usize,
    pub workflow_template_bytes: usize,
    pub rendered_issue_context_bytes: usize,
    pub preloaded_comment_bytes: usize,
    pub preloaded_comment_count: usize,
    pub comment_preload_truncated: bool,
}

/// How large a prompt is, and what it is made of.
pub struct MetricsView {
    pub prompt_bytes: nat,
    pub workflow_template_bytes: nat,
    pub rendered_issue_context_bytes: nat,
    pub preloaded_comment_bytes: nat,
    pub preloaded_comment_count: nat,
    pub comment_preload_truncated: bool,
}

impl View for IssuePromptMetrics {
    type V = MetricsView;

    open spec fn view(&self) -> MetricsView {
        MetricsView {
            prompt_bytes: self.prompt_bytes as nat,
            workflow_template_bytes: self.workflow_template_bytes as nat,
            rendered_issue_context_bytes: self.rendered_issue_context_bytes as nat,
            preloaded_comment_bytes: self.preloaded_comment_bytes as nat,
            preloaded_comment_count: self.preloaded_comment_count as nat,
            comment_preload_truncated: self.comment_preload_truncated,
        }
    }
}

/// A prompt and its metrics.
#[derive(Debug)]
pub struct IssuePromptBuild {
    pub prompt: String,
    pub metrics: IssuePromptMetrics,
}

/// Why a prompt could not be built.
#[derive(Debug)]
pub enum PromptError {
    TemplateEmpty,
    TemplateParse(String),
    TemplateRender(String),
}

/// What a prompt error says.
pub enum PromptErrorView {
    TemplateEmpty,
    TemplateParse(Seq<char>),
    TemplateRender(Seq<char>),
}

impl View for PromptError {
    type V = PromptErrorView;

    open spec fn view(&self) -> PromptErrorView {
        match self {
            PromptError::TemplateEmpty => PromptErrorView::TemplateEmpty,
            PromptError::TemplateParse(reason) => PromptErrorView::TemplateParse(reason@),
            PromptError::TemplateRender(reason) => PromptErrorView::TemplateRender(reason@),
        }
    }
}

impl PromptErrorView {
    /// The error in words.
    pub open spec fn shown(self) -> Seq<char> {
        match self {
            PromptErrorView::TemplateEmpty => "template_empty"@,
            PromptErrorView::TemplateParse(reason) => "template_parse_error "@ + reason,
            PromptErrorView::TemplateRender(reason) => "template_render_error "@ + reason,
        }
    }
}

impl PromptError {
    /// The error in words.
    pub fn to_text(&self) -> (r: String)
        ensures
            r@ == self@.shown(),
    {
        match self {
            PromptError::TemplateEmpty => owned("template_empty"),
            PromptError::TemplateParse(reason) => crate::text::concat(
                "template_parse_error ",
                reason.as_str(),
            ),
            PromptError::TemplateRender(reason) => crate::text::concat(
                "template_render_error ",
                reason.as_str(),
            ),
        }
    }
}

// ---------------------------------------------------------------------------
// Rendering
// ---------------------------------------------------------------------------

/// What comes of rendering a template.
#[derive(Debug)]
pub enum Rendering {
    Text(String),
    ParseError(String),
    RenderError(String),
}

/// What comes of rendering a template.
pub enum RenderingView {
    Text(Seq<char>),
    ParseError(Seq<char>),
    RenderError(Seq<char>),
}

impl View for Rendering {
    type V = RenderingView;

    open spec fn view(&self) -> RenderingView {
        match self {
            Rendering::Text(text) => RenderingView::Text(text@),
            Rendering::ParseError(reason) => RenderingView::ParseError(reason@),
            Rendering::RenderError(reason) => RenderingView::RenderError(reason@),
        }
    }
}

/// What `minijinja` makes of a template and what it is given, where a variable that is
/// not defined is an error.
pub uninterp spec fn rendered(template: Seq<char>, context: JsonView) -> RenderingView;

/// `Environment::template_from_str` under `UndefinedBehavior::Strict`, then
/// `Template::render`. The result is a function of the template and the context.
#[verifier::external_body]
fn render_template(template: &str, context: &serde_json::Value) -> (r: Rendering)
    ensures
        r@ == rendered(template@, value_contents(*context)),
{
    let mut env = minijinja::Environment::new();
    env.set_undefined_behavior(minijinja::UndefinedBehavior::Strict);
    match env.template_from_str(template) {
        Err(error) => Rendering::ParseError(error.to_string()),
        Ok(parsed) => match parsed.render(minijinja::value::Value::from_serialize(context)) {
            Ok(text) => Rendering::Text(text),
            Err(error) => Rendering::RenderError(error.to_string()),
        },
    }
}

/// What a template is given: the task and the number of the attempt.
pub open spec fn context_of(issue: JsonView, attempt: Option<u32>) -> JsonView {
    JsonView::Object(
        seq![
            (
                "attempt"@,
                crate::json::opt_number(
                    match attempt {
                        Some(n) => Some(n as u64),
                        None => None,
                    },
                ),
            ),
            ("issue"@, issue),
        ],
    )
}

/// Renders a template for a task.
fn render_prompt(template: &str, issue: Json, attempt: Option<u32>) -> (r: Rendering)
    ensures
        r@ == rendered(template@, as_stored(context_of(issue@, attempt))),
{
    let number: Option<u64> = match attempt {
        Some(n) => Some(n as u64),
        None => None,
    };
    let context: Json = Json::object2(
        "attempt",
        Json::opt_unsigned(number),
        "issue",
        issue,
    );
    proof {
        assert(context@->Object_0 =~= context_of(issue@, attempt)->Object_0);
    }
    let value: serde_json::Value = to_value(&context);
    render_template(template, &value)
}

// ---------------------------------------------------------------------------
// Tasks as JSON
// ---------------------------------------------------------------------------

/// A text, or null.
pub open spec fn text_or_null(text: Option<Seq<char>>) -> JsonView {
    match text {
        Some(t) => JsonView::Text(t),
        None => JsonView::Null,
    }
}

/// A point in time as text, or null.
pub open spec fn time_or_null(at: Option<i128>) -> JsonView {
    match at {
        Some(at) => text_or_null(time_text(at)),
        None => JsonView::Null,
    }
}

/// An entry with a text, where there is one.
pub open spec fn text_entry(key: Seq<char>, text: Option<Seq<char>>) -> Seq<(Seq<char>, JsonView)> {
    match text {
        Some(t) => seq![(key, JsonView::Text(t))],
        None => Seq::empty(),
    }
}

/// An entry with a value, where there is one.
pub open spec fn json_entry(key: Seq<char>, json: Option<JsonView>) -> Seq<(Seq<char>, JsonView)> {
    match json {
        Some(j) => seq![(key, j)],
        None => Seq::empty(),
    }
}

/// A comment as JSON.
pub open spec fn comment_json(comment: CommentView) -> JsonView {
    JsonView::Object(
        text_entry("attachment_name"@, comment.attachment_name) + text_entry(
            "attachment_url"@,
            comment.attachment_url,
        ) + text_entry("author_id"@, comment.author_id) + seq![
            ("content"@, JsonView::Text(comment.content)),
        ] + seq![("id"@, JsonView::Text(comment.id))] + text_entry("posted_at"@, comment.posted_at)
            + text_entry("updated_at"@, comment.updated_at),
    )
}

/// Comments as JSON.
pub open spec fn comments_json(comments: Seq<CommentView>) -> Seq<JsonView> {
    Seq::new(comments.len(), |i: int| comment_json(comments[i]))
}

/// Texts as JSON.
pub open spec fn texts_json(all: Seq<Seq<char>>) -> Seq<JsonView> {
    Seq::new(all.len(), |i: int| JsonView::Text(all[i]))
}

/// A task as JSON. Comments and the note that they are incomplete stand there where
/// there are any.
pub open spec fn issue_json(issue: IssueView) -> JsonView {
    JsonView::Object(
        seq![("assigned_to_worker"@, JsonView::Bool(issue.assigned_to_worker))] + text_entry(
            "assignee_id"@,
            issue.assignee_id,
        ) + seq![("created_at"@, time_or_null(issue.created_at))] + json_entry(
            "deadline"@,
            issue.deadline,
        ) + seq![("description"@, text_or_null(issue.description))] + json_entry(
            "due"@,
            issue.due,
        ) + seq![
            ("id"@, JsonView::Text(issue.id)),
        ] + seq![
            ("identifier"@, JsonView::Text(issue.identifier)),
        ] + seq![("is_subtask"@, JsonView::Bool(issue.is_subtask))] + seq![
            ("labels"@, JsonView::Array(texts_json(issue.labels))),
        ] + text_entry("parent_id"@, issue.parent_id) + seq![
            (
                "priority"@,
                match issue.priority {
                    Some(n) => JsonView::Number(integer(n as int)),
                    None => JsonView::Null,
                },
            ),
        ] + text_entry("project_id"@, issue.project_id) + text_entry(
            "section_id"@,
            issue.section_id,
        ) + seq![
            ("state"@, JsonView::Text(issue.state)),
        ] + seq![("title"@, JsonView::Text(issue.title))] + json_entry(
            "todoist_comments"@,
            if issue.todoist_comments.len() > 0 {
                Some(JsonView::Array(comments_json(issue.todoist_comments)))
            } else {
                None
            },
        ) + json_entry(
            "todoist_comments_truncated"@,
            if issue.todoist_comments_truncated {
                Some(JsonView::Bool(true))
            } else {
                None
            },
        ) + seq![("updated_at"@, time_or_null(issue.updated_at))] + seq![
            ("url"@, text_or_null(issue.url)),
        ],
    )
}

fn push_entry(entries: &mut Vec<(String, Json)>, key: &str, value: Json)
    ensures
        entry_views(final(entries)@) == entry_views(old(entries)@) + seq![(key@, value@)],
{
    let ghost had = entry_views(entries@);
    entries.push((owned(key), value));
    proof {
        assert(entry_views(entries@) =~= had + seq![(key@, value@)]);
    }
}

fn push_text(entries: &mut Vec<(String, Json)>, key: &str, text: &Option<String>)
    ensures
        entry_views(final(entries)@) == entry_views(old(entries)@) + text_entry(
            key@,
            opt_text(*text),
        ),
{
    match text {
        Some(t) => {
            push_entry(entries, key, Json::Text(t.clone()));
        },
        None => {
            proof {
                assert(entry_views(entries@) + Seq::<(Seq<char>, JsonView)>::empty()
                    =~= entry_views(entries@));
            }
        },
    }
}

fn push_json(entries: &mut Vec<(String, Json)>, key: &str, json: Option<Json>)
    ensures
        entry_views(final(entries)@) == entry_views(old(entries)@) + json_entry(
            key@,
            crate::json::opt_view(json),
        ),
{
    match json {
        Some(j) => {
            push_entry(entries, key, j);
        },
        None => {
            proof {
                assert(entry_views(entries@) + Seq::<(Seq<char>, JsonView)>::empty()
                    =~= entry_views(entries@));
            }
        },
    }
}

/// A comment as JSON.
pub fn comment_to_json(comment: &IssueComment) -> (r: Json)
    ensures
        r@ == comment_json(comment@),
{
    broadcast use group_json_views;

    let mut entries: Vec<(String, Json)> = Vec::new();
    proof {
        assert(entry_views(entries@) =~= Seq::empty());
        assert(entry_views(entries@) + text_entry(
            "attachment_name"@,
            opt_text(comment.attachment_name),
        ) =~= text_entry("attachment_name"@, opt_text(comment.attachment_name)));
    }
    push_text(&mut entries, "attachment_name", &comment.attachment_name);
    push_text(&mut entries, "attachment_url", &comment.attachment_url);
    push_text(&mut entries, "author_id", &comment.author_id);
    push_entry(&mut entries, "content", Json::Text(comment.content.clone()));
    push_entry(&mut entries, "id", Json::Text(comment.id.clone()));
    push_text(&mut entries, "posted_at", &comment.posted_at);
    push_text(&mut entries, "updated_at", &comment.updated_at);
    Json::Object(entries)
}

fn comments_to_json(comments: &Vec<IssueComment>) -> (r: Json)
    ensures
        r@ == JsonView::Array(comments_json(views_of(comments@))),
{
    broadcast use group_json_views;

    let mut out: Vec<Json> = Vec::new();
    let mut i: usize = 0;
    while i < comments.len()
        invariant
            i <= comments.len(),
            out@.len() == i,
            forall|k: int| 0 <= k < i ==> (#[trigger] out@[k])@ == comment_json(comments@[k]@),
        decreases comments.len() - i,
    {
        out.push(comment_to_json(&comments[i]));
        i = i + 1;
    }
    proof {
        assert(views(out@) =~= comments_json(views_of(comments@)));
    }
    Json::Array(out)
}

/// A list of texts as JSON.
pub fn texts_to_json(all: &Vec<String>) -> (r: Json)
    ensures
        r@ == JsonView::Array(texts_json(texts(all@))),
{
    broadcast use group_json_views;

    let mut out: Vec<Json> = Vec::new();
    let mut i: usize = 0;
    while i < all.len()
        invariant
            i <= all.len(),
            out@.len() == i,
            forall|k: int| 0 <= k < i ==> (#[trigger] out@[k])@ == JsonView::Text(all@[k]@),
        decreases all.len() - i,
    {
        out.push(Json::Text(all[i].clone()));
        i = i + 1;
    }
    proof {
        assert(views(out@) =~= texts_json(texts(all@)));
    }
    Json::Array(out)
}

/// A point in time as JSON.
pub fn time_to_json(at: Option<i128>) -> (r: Json)
    ensures
        r@ == time_or_null(at),
{
    match at {
        Some(at) => {
            let text: Option<String> = format_time(at);
            Json::opt_text(&text)
        },
        None => Json::Null,
    }
}

/// A task as JSON.
pub fn issue_to_json(issue: &Issue) -> (r: Json)
    ensures
        r@ == issue_json(issue@),
{
    broadcast use group_json_views;

    let mut e: Vec<(String, Json)> = Vec::new();
    proof {
        assert(entry_views(e@) + seq![
            ("assigned_to_worker"@, JsonView::Bool(issue.assigned_to_worker)),
        ] =~= seq![("assigned_to_worker"@, JsonView::Bool(issue.assigned_to_worker))]);
    }
    push_entry(&mut e, "assigned_to_worker", Json::Bool(issue.assigned_to_worker));
    push_text(&mut e, "assignee_id", &issue.assignee_id);
    push_entry(&mut e, "created_at", time_to_json(issue.created_at));
    push_json(&mut e, "deadline", crate::json::copy_opt(&issue.deadline));
    push_entry(&mut e, "description", Json::opt_text(&issue.description));
    push_json(&mut e, "due", crate::json::copy_opt(&issue.due));
    push_entry(&mut e, "id", Json::Text(issue.id.clone()));
    push_entry(&mut e, "identifier", Json::Text(issue.identifier.clone()));
    push_entry(&mut e, "is_subtask", Json::Bool(issue.is_subtask));
    push_entry(&mut e, "labels", texts_to_json(&issue.labels));
    push_text(&mut e, "parent_id", &issue.parent_id);
    let priority: Json = match issue.priority {
        Some(n) => Json::signed(n),
        None => Json::Null,
    };
    push_entry(&mut e, "priority", priority);
    push_text(&mut e, "project_id", &issue.project_id);
    push_text(&mut e, "section_id", &issue.section_id);
    push_entry(&mut e, "state", Json::Text(issue.state.clone()));
    push_entry(&mut e, "title", Json::Text(issue.title.clone()));
    let comments: Option<Json> = if issue.todoist_comments.len() > 0 {
        Some(comments_to_json(&issue.todoist_comments))
    } else {
        None
    };
    push_json(&mut e, "todoist_comments", comments);
    let truncated: Option<Json> = if issue.todoist_comments_truncated {
        Some(Json::Bool(true))
    } else {
        None
    };
    push_json(&mut e, "todoist_comments_truncated", truncated);
    push_entry(&mut e, "updated_at", time_to_json(issue.updated_at));
    push_entry(&mut e, "url", Json::opt_text(&issue.url));
    Json::Object(e)
}

/// A task as JSON, with no comments in it.
pub open spec fn issue_json_without_comments(issue: IssueView) -> JsonView {
    let bare = IssueView {
        todoist_comments: Seq::empty(),
        todoist_comments_truncated: false,
        ..issue
    };
    let entries = issue_json(bare)->Object_0;
    JsonView::Object(
        crate::table::put(
            crate::table::put(entries, "todoist_comments"@, JsonView::Array(Seq::empty())),
            "todoist_comments_truncated"@,
            JsonView::Bool(false),
        ),
    )
}

fn issue_to_json_without_comments(issue: &Issue) -> (r: Json)
    ensures
        r@ == issue_json_without_comments(issue@),
{
    broadcast use group_json_views;

    let mut bare: Issue = issue.copy();
    bare.todoist_comments = Vec::new();
    bare.todoist_comments_truncated = false;
    proof {
        assert(bare@.todoist_comments =~= Seq::empty());
        assert(bare@ == (IssueView {
            todoist_comments: Seq::empty(),
            todoist_comments_truncated: false,
            ..issue@
        }));
    }
    let json: Json = issue_to_json(&bare);
    let none: Vec<Json> = Vec::new();
    proof {
        assert(views(none@) =~= Seq::empty());
    }
    json.with("todoist_comments", Json::Array(none)).with(
        "todoist_comments_truncated",
        Json::Bool(false),
    )
}

// ---------------------------------------------------------------------------
// Prompts
// ---------------------------------------------------------------------------

/// What a prompt build returns.
pub open spec fn build_result(r: Result<IssuePromptBuild, PromptError>) -> Result<
    (Seq<char>, MetricsView),
    PromptErrorView,
> {
    match r {
        Ok(build) => Ok((build.prompt@, build.metrics@)),
        Err(e) => Err(e@),
    }
}

/// The prompt that a template gives, once it has been rendered with the comments of the
/// task and without.
pub open spec fn assembled(
    template: Seq<char>,
    issue: IssueView,
    full: RenderingView,
    bare: RenderingView,
) -> Result<(Seq<char>, MetricsView), PromptErrorView> {
    match full {
        RenderingView::ParseError(reason) => Err(PromptErrorView::TemplateParse(reason)),
        RenderingView::RenderError(reason) => Err(PromptErrorView::TemplateRender(reason)),
        RenderingView::Text(prompt) => match bare {
            RenderingView::ParseError(reason) => Err(PromptErrorView::TemplateParse(reason)),
            RenderingView::RenderError(reason) => Err(PromptErrorView::TemplateRender(reason)),
            RenderingView::Text(context) => Ok(
                (
                    prompt,
                    MetricsView {
                        prompt_bytes: byte_len(prompt),
                        workflow_template_bytes: byte_len(template),
                        rendered_issue_context_bytes: byte_len(context),
                        preloaded_comment_bytes: if byte_len(prompt) >= byte_len(context) {
                            (byte_len(prompt) - byte_len(context)) as nat
                        } else {
                            0
                        },
                        preloaded_comment_count: issue.todoist_comments.len(),
                        comment_preload_truncated: issue.todoist_comments_truncated,
                    },
                ),
            ),
        },
    }
}

/// The prompt that a template gives, once it has been rendered with the comments of the
/// task and without.
pub fn assemble_prompt(
    template: &str,
    issue: &Issue,
    full: Rendering,
    bare: Rendering,
) -> (r: Result<IssuePromptBuild, PromptError>)
    ensures
        build_result(r) == assembled(template@, issue@, full@, bare@),
{
    let prompt: String = match full {
        Rendering::ParseError(reason) => {
            return Err(PromptError::TemplateParse(reason));
        },
        Rendering::RenderError(reason) => {
            return Err(PromptError::TemplateRender(reason));
        },
        Rendering::Text(prompt) => prompt,
    };
    let context: String = match bare {
        Rendering::ParseError(reason) => {
            return Err(PromptError::TemplateParse(reason));
        },
        Rendering::RenderError(reason) => {
            return Err(PromptError::TemplateRender(reason));
        },
        Rendering::Text(context) => context,
    };
    let prompt_bytes: usize = len_bytes(prompt.as_str());
    let context_bytes: usize = len_bytes(context.as_str());
    let metrics: IssuePromptMetrics = IssuePromptMetrics {
        prompt_bytes,
        workflow_template_bytes: len_bytes(template),
        rendered_issue_context_bytes: context_bytes,
        preloaded_comment_bytes: prompt_bytes.saturating_sub(context_bytes),
        preloaded_comment_count: issue.todoist_comments.len(),
        comment_preload_truncated: issue.todoist_comments_truncated,
    };
    Ok(IssuePromptBuild { prompt, metrics })
}

/// The first prompt for a task.
pub open spec fn issue_prompt(template: Seq<char>, issue: IssueView, attempt: Option<u32>) -> Result<
    (Seq<char>, MetricsView),
    PromptErrorView,
> {
    let source = trimmed(template);
    if source.len() == 0 {
        Err(PromptErrorView::TemplateEmpty)
    } else {
        assembled(
            source,
            issue,
            rendered(source, as_stored(context_of(issue_json(issue), attempt))),
            rendered(source, as_stored(context_of(issue_json_without_comments(issue), attempt))),
        )
    }
}

/// The first prompt for a task, without its metrics.
pub open spec fn prompt_text(template: Seq<char>, issue: IssueView, attempt: Option<u32>) -> Result<
    Seq<char>,
    PromptErrorView,
> {
    match issue_prompt(template, issue, attempt) {
        Ok((prompt, _)) => Ok(prompt),
        Err(error) => Err(error),
    }
}

/// What building a prompt gives.
pub open spec fn prompt_result(r: Result<String, PromptError>) -> Result<
    Seq<char>,
    PromptErrorView,
> {
    match r {
        Ok(prompt) => Ok(prompt@),
        Err(e) => Err(e@),
    }
}

/// The first prompt for a task, with its metrics.
pub fn build_issue_prompt_with_metrics(
    prompt_template: &str,
    issue: &Issue,
    attempt: Option<u32>,
) -> (r: Result<IssuePromptBuild, PromptError>)
    ensures
        build_result(r) == issue_prompt(prompt_template@, issue@, attempt),
{
    let source: String = trim(prompt_template);
    if source.as_str().is_empty() {
        return Err(PromptError::TemplateEmpty);
    }
    let full: Rendering = render_prompt(source.as_str(), issue_to_json(issue), attempt);
    let bare: Rendering = render_prompt(
        source.as_str(),
        issue_to_json_without_comments(issue),
        attempt,
    );
    assemble_prompt(source.as_str(), issue, full, bare)
}

/// The first prompt for a task.
pub fn build_issue_prompt(prompt_template: &str, issue: &Issue, attempt: Option<u32>) -> (r: Result<
    String,
    PromptError,
>)
    ensures
        prompt_result(r) == prompt_text(prompt_template@, issue@, attempt),
{
    match build_issue_prompt_with_metrics(prompt_template, issue, attempt) {
        Ok(build) => Ok(build.prompt),
        Err(error) => Err(error),
    }
}

/// What an agent is told when it goes on with a task.
pub open spec fn guidance(turn_number: nat, max_turns: nat) -> Seq<char> {
    "Continuation guidance:\n\n- The previous Codex turn completed normally, but the Todoist task is still in an active state.\n- This is continuation turn #"@
        + decimal(turn_number) + " of "@ + decimal(max_turns)
        + " for the current agent run.\n- Resume from the current workspace and thread state instead of restarting from scratch.\n- The original task instructions are already in the thread history, so do not restate them before acting.\n- Focus on the remaining task work and do not end the turn while the task stays active unless you are truly blocked."@
}

/// What an agent is told when it goes on with a task.
pub fn continuation_guidance(turn_number: usize, max_turns: usize) -> (r: String)
    ensures
        r@ == guidance(turn_number as nat, max_turns as nat),
{
    let turn: String = usize_text(turn_number);
    let turns: String = usize_text(max_turns);
    let mut text: String = concat3(
        "Continuation guidance:\n\n- The previous Codex turn completed normally, but the Todoist task is still in an active state.\n- This is continuation turn #",
        turn.as_str(),
        " of ",
    );
    text.append(turns.as_str());
    text.append(
        " for the current agent run.\n- Resume from the current workspace and thread state instead of restarting from scratch.\n- The original task instructions are already in the thread history, so do not restate them before acting.\n- Focus on the remaining task work and do not end the turn while the task stays active unless you are truly blocked.",
    );
    text
}

// ---------------------------------------------------------------------------
// Laws
// ---------------------------------------------------------------------------

/// The metrics of a prompt tell how long it and its template are; the comments account for
/// what it has more than its context, unless the context alone is already longer.
pub proof fn law_prompt_bytes_add_up(
    template: Seq<char>,
    issue: IssueView,
    attempt: Option<u32>,
    prompt: Seq<char>,
    m: MetricsView,
)
    requires
        issue_prompt(template, issue, attempt) == Ok::<(Seq<char>, MetricsView), PromptErrorView>(
            (prompt, m),
        ),
    ensures
        prompt_text(template, issue, attempt) == Ok::<Seq<char>, PromptErrorView>(prompt),
        m.prompt_bytes == byte_len(prompt),
        m.workflow_template_bytes == byte_len(trimmed(template)),
        m.preloaded_comment_bytes == if m.prompt_bytes > m.rendered_issue_context_bytes {
            m.prompt_bytes - m.rendered_issue_context_bytes
        } else {
            0
        },
        m.rendered_issue_context_bytes <= m.prompt_bytes ==> m.rendered_issue_context_bytes
            + m.preloaded_comment_bytes == m.prompt_bytes,
        m.preloaded_comment_count == issue.todoist_comments.len(),
        m.comment_preload_truncated == issue.todoist_comments_truncated,
{
}

} // verus!
