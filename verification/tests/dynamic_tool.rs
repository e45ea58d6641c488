use symphony::actions::{todoist_action_contract, todoist_log_scope, TodoistStep};
use symphony::dynamic_tool::{
    failure_payload, route_tool, success_payload, todoist_supported_actions, tool_error_payload,
    tool_payload_metrics, tool_specs, tool_specs_with_capabilities, total_tool_payload_bytes,
    TodoistToolSurface, ToolPayloadMetric, ToolRoute, ToolSettings, GITHUB_API_TOOL, TODOIST_TOOL,
};
use symphony::github::{
    github_api_base_url, github_api_step, github_auth_token,
    github_default_retry_delay_seconds, github_error_message, github_error_summary,
    github_pr_coordinates, github_response_summary, github_retry_after_seconds,
    github_retry_reason, github_status_retry_delay_seconds, github_token_from_env,
    inline_log_value, normalize_github_arguments, on_api_answer, on_gh_view, parse_error_body,
    pull_request_path_of, require_link, GhTokenReply, GhViewReply,
    GithubReply, GithubStep, MergeStep,
};
use symphony::issue::Issue;
use symphony::json::{parse, to_text, Json};
use symphony::todoist_flow::{
    begin, on_api, on_capabilities, on_gh, on_reply, on_task, Flow, Request, Wait,
};
use symphony::tracker::{TrackerCapabilities, TrackerError, TODOIST_COMMENT_SIZE_LIMIT};
use symphony::workpad::{
    choose_canonical_workpad_comment, compact_workpad_content, extract_github_pr_url,
    normalize_workpad_content, parse_workpad_sections, truncate_workpad_text,
    truncate_workpad_to_limit,
    try_compact_workpad_content, try_normalize_workpad_content, try_truncate_workpad_text,
};
use symphony::workpad_flow::{SearchStep, WorkpadSearch};

fn json(text: &str) -> Json {
    parse(text).expect("json")
}

/// What a test makes of the tracker. Operations that a test does not name are not expected.
trait Tracker {
    fn capabilities(&mut self) -> TrackerCapabilities {
        TrackerCapabilities::full()
    }

    fn fetch_issue(&mut self, _id: &str) -> Result<Vec<Issue>, TrackerError> {
        unreachable!()
    }

    fn list_comments(&mut self, _arguments: Json) -> Result<Json, TrackerError> {
        unreachable!()
    }

    fn get_comment(&mut self, _id: &str) -> Result<Json, TrackerError> {
        unreachable!()
    }

    fn create_comment(&mut self, _arguments: Json) -> Result<Json, TrackerError> {
        unreachable!()
    }

    fn update_comment(&mut self, _id: &str, _arguments: Json) -> Result<Json, TrackerError> {
        unreachable!()
    }

    fn delete_comment(&mut self, _id: &str) -> Result<Json, TrackerError> {
        unreachable!()
    }

    fn close_task(&mut self, _id: &str) -> Result<Json, TrackerError> {
        unreachable!()
    }

    fn other(&mut self, step: TodoistStep) -> Result<Json, TrackerError> {
        panic!("unexpected {step:?}")
    }
}

/// What a test makes of GitHub: the answer of the API, and that of the `gh` command.
struct Github {
    api: GithubReply,
    gh: GhViewReply,
}

impl Github {
    fn absent() -> Self {
        Github {
            api: GithubReply::SendFailed("unreachable".to_string()),
            gh: GhViewReply::NotRun("not installed".to_string()),
        }
    }

    fn answering(body: &str) -> Self {
        Github {
            api: GithubReply::Answered { status: 200, retry_after: None, body: body.to_string() },
            gh: GhViewReply::NotRun("not installed".to_string()),
        }
    }

    fn answer(&self, path: &str) -> Result<Json, Json> {
        let (mut attempt, mut waited) = (0, 0);
        loop {
            match github_api_step("GET", path, attempt, waited, &self.api) {
                GithubStep::Retry { attempt: next, waited_secs, .. } => {
                    attempt = next;
                    waited = waited_secs;
                }
                GithubStep::Done(answer) => return answer,
            }
        }
    }
}

fn ask(tracker: &mut dyn Tracker, request: Request) -> Result<Json, TrackerError> {
    match request {
        Request::Plain(TodoistStep::GetComment(id)) => tracker.get_comment(&id),
        Request::Plain(TodoistStep::ListComments(arguments)) => tracker.list_comments(arguments),
        Request::Plain(TodoistStep::CreateComment(arguments)) => tracker.create_comment(arguments),
        Request::Plain(step) => tracker.other(step),
        Request::GetComment(id) => tracker.get_comment(&id),
        Request::ListComments(arguments) => tracker.list_comments(arguments),
        Request::CreateComment(arguments) => tracker.create_comment(arguments),
        Request::UpdateComment { id, arguments } => tracker.update_comment(&id, arguments),
        Request::DeleteComment(id) => tracker.delete_comment(&id),
        Request::CloseTask(id) => tracker.close_task(&id),
    }
}

fn perform(tracker: &mut dyn Tracker, github: &Github, arguments: Json) -> Result<Json, TrackerError> {
    let mut flow = begin(arguments);
    loop {
        flow = match flow {
            Flow::AskCapabilities(call) => {
                on_capabilities(call, Ok(tracker.capabilities())).expect("a way on")
            }
            Flow::Ask { request, wait } => {
                let reply = ask(tracker, request);
                on_reply(wait, reply).expect("a way on")
            }
            Flow::LoadTask(task_id) => {
                let fetched = tracker.fetch_issue(&task_id);
                on_task(task_id, fetched)
            }
            Flow::AskApi { task_id, state, pr_url, path } => {
                on_api(task_id, state, pr_url, github.answer(&path))
            }
            Flow::AskGh { task_id, state, pr_url, api_error } => {
                on_gh(task_id, state, pr_url, api_error, &github.gh)
            }
            Flow::Done(answer) => return answer,
        };
    }
}

fn execute_with(tracker: &mut dyn Tracker, github: &Github, tool: &str, arguments: &str) -> Json {
    match route_tool(&Some("memory".to_string()), tool) {
        ToolRoute::Todoist => match perform(tracker, github, json(arguments)) {
            Ok(body) => success_payload(&body),
            Err(error) => failure_payload(&tool_error_payload(error)),
        },
        ToolRoute::Github => unreachable!(),
        ToolRoute::Refused(answer) => answer,
    }
}

fn execute(tracker: &mut dyn Tracker, arguments: &str) -> Json {
    execute_with(tracker, &Github::absent(), TODOIST_TOOL, arguments)
}

fn succeeded(result: &Json) -> bool {
    result.get("success").and_then(Json::as_bool).expect("success")
}

fn payload_body(result: &Json) -> Json {
    let items = result.get("contentItems").and_then(Json::as_array).expect("items");
    json(items[0].get("text").and_then(Json::as_str).expect("text"))
}

fn at<'a>(value: &'a Json, path: &[&str]) -> Option<&'a Json> {
    path.iter().try_fold(value, |value, key| match key.parse::<usize>() {
        Ok(index) => value.as_array().and_then(|items| items.get(index)),
        Err(_) => value.get(key),
    })
}

fn text_at<'a>(value: &'a Json, path: &[&str]) -> Option<&'a str> {
    at(value, path).and_then(Json::as_str)
}

fn error_message(result: &Json) -> String {
    text_at(&payload_body(result), &["error", "message"]).expect("message").to_string()
}

#[derive(Default)]
struct StubTodoistTracker {
    calls: Vec<String>,
}

impl Tracker for StubTodoistTracker {
    fn get_comment(&mut self, comment_id: &str) -> Result<Json, TrackerError> {
        let item_id = match comment_id {
            "comment-workpad" => "task-workpad",
            _ => "task-1",
        };
        Ok(Json::object3(
            "content",
            Json::text("## Codex Workpad"),
            "id",
            Json::text(comment_id),
            "item_id",
            Json::text(item_id),
        ))
    }

    fn delete_comment(&mut self, comment_id: &str) -> Result<Json, TrackerError> {
        self.calls.push(format!("delete_comment:{comment_id}"));
        Ok(Json::Null)
    }

    fn list_comments(&mut self, arguments: Json) -> Result<Json, TrackerError> {
        let task_id = arguments.get("task_id").and_then(Json::as_str).unwrap_or_default();
        self.calls.push(format!("list_comments:{task_id}"));
        Ok(match task_id {
            "task-workpad" => json(
                r###"{"results": [{
                    "id": "comment-workpad",
                    "item_id": "task-workpad",
                    "content": "## Codex Workpad\n\n<!-- symphony:workpad -->\n\nExisting",
                    "posted_at": "2026-03-11T20:00:00Z"
                }], "next_cursor": null}"###,
            ),
            _ => json(r#"{"results": [], "next_cursor": null}"#),
        })
    }

    fn create_comment(&mut self, arguments: Json) -> Result<Json, TrackerError> {
        let task_id = arguments.get("task_id").and_then(Json::as_str).unwrap_or_default();
        let content = arguments.get("content").and_then(Json::as_str).unwrap_or_default();
        self.calls.push(format!("create_comment:{task_id}"));
        Ok(Json::object3(
            "content",
            Json::text(content),
            "id",
            Json::text("comment-created"),
            "item_id",
            Json::text(task_id),
        ))
    }

    fn update_comment(&mut self, comment_id: &str, arguments: Json) -> Result<Json, TrackerError> {
        let content = arguments.get("content").and_then(Json::as_str).unwrap_or_default();
        self.calls.push(format!("update_comment:{comment_id}"));
        Ok(Json::object3(
            "content",
            Json::text(content),
            "id",
            Json::text(comment_id),
            "item_id",
            Json::text("task-workpad"),
        ))
    }

    fn other(&mut self, step: TodoistStep) -> Result<Json, TrackerError> {
        match step {
            TodoistStep::ListProjects(_) => {
                Ok(json(r#"{"results": [{"id": "proj-1"}], "next_cursor": null}"#))
            }
            TodoistStep::GetProject(id) => {
                Ok(Json::object2("id", Json::text(&id), "name", Json::text("Project")))
            }
            TodoistStep::ListActivities(_) => Ok(json(
                r#"{"events": [{"id": 1, "object_type": "item", "event_type": "updated"}], "next_cursor": null}"#,
            )),
            step => panic!("unexpected {step:?}"),
        }
    }
}

struct CapabilityTracker {
    capabilities: TrackerCapabilities,
}

impl Tracker for CapabilityTracker {
    fn capabilities(&mut self) -> TrackerCapabilities {
        self.capabilities
    }
}

struct ScopedCommentTracker {
    comment: &'static str,
}

impl Tracker for ScopedCommentTracker {
    fn get_comment(&mut self, _id: &str) -> Result<Json, TrackerError> {
        Ok(json(self.comment))
    }
}

struct DuplicateWorkpadTracker {
    calls: Vec<String>,
    comments: &'static str,
}

impl Tracker for DuplicateWorkpadTracker {
    fn list_comments(&mut self, arguments: Json) -> Result<Json, TrackerError> {
        let task_id = arguments.get("task_id").and_then(Json::as_str).unwrap_or_default();
        self.calls.push(format!("list_comments:{task_id}"));
        Ok(Json::object2("next_cursor", Json::Null, "results", json(self.comments)))
    }

    fn delete_comment(&mut self, comment_id: &str) -> Result<Json, TrackerError> {
        self.calls.push(format!("delete_comment:{comment_id}"));
        Ok(Json::Null)
    }
}

struct CloseGuardTracker {
    state: &'static str,
    workpad_content: &'static str,
    calls: Vec<String>,
}

impl CloseGuardTracker {
    fn new(state: &'static str, workpad_content: &'static str) -> Self {
        CloseGuardTracker { state, workpad_content, calls: vec![] }
    }
}

impl Tracker for CloseGuardTracker {
    fn fetch_issue(&mut self, _id: &str) -> Result<Vec<Issue>, TrackerError> {
        Ok(vec![Issue {
            id: "task-close".to_string(),
            identifier: "TD-task-close".to_string(),
            title: "Close guard".to_string(),
            state: self.state.to_string(),
            ..Issue::default()
        }])
    }

    fn list_comments(&mut self, _arguments: Json) -> Result<Json, TrackerError> {
        let comment = json(
            r#"{"id": "comment-workpad", "item_id": "task-close", "posted_at": "2026-03-12T04:00:00Z"}"#,
        )
        .with("content", Json::text(self.workpad_content));
        Ok(Json::object2("next_cursor", Json::Null, "results", Json::array1(comment)))
    }

    fn close_task(&mut self, task_id: &str) -> Result<Json, TrackerError> {
        self.calls.push(format!("close_task:{task_id}"));
        Ok(Json::Null)
    }
}

fn test_config() -> ToolSettings {
    ToolSettings {
        tracker_kind: Some("memory".to_string()),
        surface: TodoistToolSurface::Curated,
    }
}

fn extended_test_config() -> ToolSettings {
    ToolSettings {
        tracker_kind: Some("memory".to_string()),
        surface: TodoistToolSurface::Extended,
    }
}

fn todoist_spec(specs: Vec<Json>) -> Json {
    specs
        .into_iter()
        .find(|spec| text_at(spec, &["name"]) == Some(TODOIST_TOOL))
        .expect("todoist tool")
}

#[test]
fn tool_specs_default_to_curated_todoist_surface() {
    let todoist = todoist_spec(tool_specs(&test_config(), false));
    let description = text_at(&todoist, &["description"]).expect("description");
    let properties = at(&todoist, &["inputSchema", "properties"]).expect("properties");
    let action_enum = at(properties, &["action", "enum"])
        .and_then(Json::as_array)
        .expect("action enum");

    assert!(description.contains("upsert_workpad"));
    assert!(description.contains("list_activities"));
    assert!(!description.contains("list_projects"));
    assert!(!description.contains("create_project_comment"));
    assert!(!description.contains("create_reminder"));
    assert!(!properties.has("reminder_id"));
    assert!(!properties.has("uids_to_notify"));
    assert!(action_enum.iter().all(|value| value.as_str() != Some("list_projects")));
    assert!(action_enum.iter().any(|value| value.as_str() == Some("get_workpad")));
}

#[test]
fn tool_specs_extended_surface_restores_non_default_actions() {
    let todoist = todoist_spec(tool_specs(&extended_test_config(), false));
    let description = text_at(&todoist, &["description"]).expect("description");
    let properties = at(&todoist, &["inputSchema", "properties"]).expect("properties");

    assert!(description.contains("list_projects"));
    assert!(description.contains("create_project_comment"));
    assert!(description.contains("list_activities"));
    assert!(properties.has("uids_to_notify"));
    assert!(description.contains("list_activities"));
    assert!(!description.contains("create_reminder"));
    assert!(!properties.has("reminder_id"));
}

#[test]
fn tool_specs_hide_optional_capability_actions_when_tracker_capabilities_disable_them() {
    let capabilities = TrackerCapabilities { comments: true, reminders: false, activity_log: false };
    let todoist =
        todoist_spec(tool_specs_with_capabilities(&extended_test_config(), capabilities, false));
    let description = text_at(&todoist, &["description"]).expect("description");
    let properties = at(&todoist, &["inputSchema", "properties"]).expect("properties");

    assert!(description.contains("list_projects"));
    assert!(description.contains("get_workpad"));
    assert!(!description.contains("list_activities"));
    assert!(!properties.has("reminder_id"));
    assert!(!properties.has("date_from"));
}

#[test]
fn tool_payload_metrics_report_serialized_tool_sizes() {
    let specs = tool_specs(&test_config(), true);
    let metrics = tool_payload_metrics(&specs);
    let todoist = metrics
        .iter()
        .find(|metric| metric.name == TODOIST_TOOL)
        .expect("todoist metrics");

    assert!(todoist.bytes > 0);
    assert_eq!(todoist.bytes, to_text(&specs[0]).len());
    assert_eq!(
        total_tool_payload_bytes(&metrics),
        specs.iter().map(|spec| to_text(spec).len()).sum::<usize>()
    );
}

#[test]
fn tool_specs_hide_github_api_when_gh_is_installed_but_unauthenticated() {
    let reply = GhTokenReply::Failed("not logged in\n".to_string());
    let available =
        github_token_from_env(&None, &None).is_some() || github_auth_token(&reply).is_ok();
    let specs = tool_specs(&test_config(), available);

    assert!(specs.iter().all(|spec| text_at(spec, &["name"]) != Some(GITHUB_API_TOOL)));
    let specs = tool_specs(&test_config(), true);
    assert!(specs.iter().any(|spec| text_at(spec, &["name"]) == Some(GITHUB_API_TOOL)));
}

#[test]
fn execute_todoist_routes_project_and_activity_actions() {
    let mut tracker = StubTodoistTracker::default();

    let projects = execute(&mut tracker, r#"{"action": "list_projects"}"#);
    assert!(succeeded(&projects));
    assert_eq!(text_at(&payload_body(&projects), &["results", "0", "id"]), Some("proj-1"));

    let project = execute(&mut tracker, r#"{"action": "get_project", "project_id": "proj-9"}"#);
    assert_eq!(text_at(&payload_body(&project), &["id"]), Some("proj-9"));

    let comment = execute(&mut tracker, r#"{"action": "get_comment", "comment_id": "comment-7"}"#);
    assert_eq!(text_at(&payload_body(&comment), &["item_id"]), Some("task-1"));

    let project_comment = execute(
        &mut tracker,
        r#"{"action": "create_project_comment", "project_id": "proj-9", "content": "Project note"}"#,
    );
    assert_eq!(text_at(&payload_body(&project_comment), &["content"]), Some("Project note"));

    let activities = execute(
        &mut tracker,
        r#"{"action": "list_activities", "object_type": "item", "object_id": "task-1"}"#,
    );
    assert_eq!(
        text_at(&payload_body(&activities), &["events", "0", "event_type"]),
        Some("updated")
    );
}

#[test]
fn execute_todoist_workpad_actions_reuse_single_comment() {
    let mut tracker = StubTodoistTracker::default();

    let existing =
        execute(&mut tracker, r#"{"action": "get_workpad", "task_id": "task-workpad"}"#);
    let body = payload_body(&existing);
    assert_eq!(at(&body, &["found"]).and_then(Json::as_bool), Some(true));
    assert_eq!(text_at(&body, &["comment_id"]), Some("comment-workpad"));

    let updated = execute(
        &mut tracker,
        r###"{"action": "upsert_workpad", "task_id": "task-workpad", "comment_id": "comment-workpad", "content": "## Codex Workpad\n\nBody"}"###,
    );
    let body = payload_body(&updated);
    assert_eq!(at(&body, &["created"]).and_then(Json::as_bool), Some(false));
    assert!(text_at(&body, &["comment", "content"])
        .expect("content")
        .contains("<!-- symphony:workpad -->"));

    let created = execute(
        &mut tracker,
        r#"{"action": "upsert_workpad", "task_id": "task-empty", "content": "Body"}"#,
    );
    let body = payload_body(&created);
    assert_eq!(at(&body, &["created"]).and_then(Json::as_bool), Some(true));
    assert!(text_at(&body, &["comment", "content"])
        .expect("content")
        .starts_with("## Codex Workpad"));

    let deleted =
        execute(&mut tracker, r#"{"action": "delete_workpad", "task_id": "task-workpad"}"#);
    let body = payload_body(&deleted);
    assert_eq!(at(&body, &["deleted"]).and_then(Json::as_bool), Some(true));

    assert_eq!(
        tracker.calls,
        vec![
            "list_comments:task-workpad".to_string(),
            "update_comment:comment-workpad".to_string(),
            "list_comments:task-empty".to_string(),
            "create_comment:task-empty".to_string(),
            "list_comments:task-workpad".to_string(),
            "delete_comment:comment-workpad".to_string()
        ]
    );
}

#[test]
fn execute_todoist_workpad_noops_when_normalized_content_is_unchanged() {
    let mut tracker = StubTodoistTracker::default();

    let result = execute(
        &mut tracker,
        r###"{
            "action": "upsert_workpad",
            "task_id": "task-workpad",
            "content": "## Codex Workpad\n\n<!-- symphony:workpad -->\n\nExisting"
        }"###,
    );

    assert!(succeeded(&result));
    let body = payload_body(&result);
    assert_eq!(at(&body, &["created"]).and_then(Json::as_bool), Some(false));
    assert_eq!(at(&body, &["updated"]).and_then(Json::as_bool), Some(false));
    assert_eq!(tracker.calls, vec!["list_comments:task-workpad".to_string()]);
}

#[test]
fn execute_todoist_rejects_unknown_keys_per_action_contract() {
    let mut tracker = StubTodoistTracker::default();

    let result = execute(&mut tracker, r#"{"action": "list_projects", "bogus": true}"#);

    assert!(!succeeded(&result));
    assert_eq!(
        error_message(&result),
        "unsupported keys for `todoist.list_projects`: bogus"
    );
}

#[test]
fn execute_todoist_rejects_generic_comment_creation() {
    let mut tracker = StubTodoistTracker::default();

    let result = execute(
        &mut tracker,
        r#"{"action": "create_comment", "task_id": "task-1", "content": "summary"}"#,
    );

    assert!(!succeeded(&result));
    assert_eq!(
        error_message(&result),
        "Use `upsert_workpad` for task-scoped Symphony comments or `create_project_comment` for project comments."
    );
    assert!(tracker.calls.is_empty());
}

#[test]
fn execute_todoist_rejects_task_scoped_project_comment_mutations() {
    let mut tracker = ScopedCommentTracker {
        comment: r###"{
            "id": "comment-7",
            "item_id": 42,
            "content": "## Codex Workpad\n\n<!-- symphony:workpad -->"
        }"###,
    };

    let update = execute(
        &mut tracker,
        r#"{"action": "update_comment", "comment_id": "comment-7", "content": "new"}"#,
    );
    assert!(!succeeded(&update));
    assert_eq!(
        error_message(&update),
        "Use `get_workpad`, `upsert_workpad`, or `delete_workpad` for task-scoped Symphony comments."
    );

    let delete =
        execute(&mut tracker, r#"{"action": "delete_comment", "comment_id": "comment-7"}"#);
    assert!(!succeeded(&delete));
    assert_eq!(
        error_message(&delete),
        "Use `get_workpad`, `upsert_workpad`, or `delete_workpad` for task-scoped Symphony comments."
    );
}

#[test]
fn get_workpad_repairs_equivalent_duplicates() {
    let mut tracker = DuplicateWorkpadTracker {
        calls: vec![],
        comments: r###"[
            {
                "id": "comment-old",
                "item_id": "task-dupe",
                "content": "## Codex Workpad\n\n<!-- symphony:workpad -->\n\n## Status\n\nReady",
                "posted_at": "2026-03-10T20:00:00Z"
            },
            {
                "id": "comment-new",
                "item_id": "task-dupe",
                "content": "## Codex Workpad\n\n<!-- symphony:workpad -->\n\n## Status\n\nReady",
                "posted_at": "2026-03-11T20:00:00Z"
            }
        ]"###,
    };

    let result = execute(&mut tracker, r#"{"action": "get_workpad", "task_id": "task-dupe"}"#);

    assert!(succeeded(&result));
    let body = payload_body(&result);
    assert_eq!(text_at(&body, &["comment_id"]), Some("comment-new"));
    assert_eq!(at(&body, &["repaired_duplicates"]).and_then(Json::as_bool), Some(true));
    assert_eq!(
        tracker.calls,
        vec![
            "list_comments:task-dupe".to_string(),
            "delete_comment:comment-old".to_string()
        ]
    );
}

#[test]
fn get_workpad_fails_when_duplicate_contents_conflict() {
    let mut tracker = DuplicateWorkpadTracker {
        calls: vec![],
        comments: r###"[
            {
                "id": "comment-a",
                "item_id": "task-dupe",
                "content": "## Codex Workpad\n\n<!-- symphony:workpad -->\n\n## Status\n\nOne",
                "posted_at": "2026-03-10T20:00:00Z"
            },
            {
                "id": "comment-b",
                "item_id": "task-dupe",
                "content": "## Codex Workpad\n\n<!-- symphony:workpad -->\n\n## Status\n\nTwo",
                "posted_at": "2026-03-11T20:00:00Z"
            }
        ]"###,
    };

    let result = execute(&mut tracker, r#"{"action": "get_workpad", "task_id": "task-dupe"}"#);

    assert!(!succeeded(&result));
    assert_eq!(
        error_message(&result),
        "multiple workpad comments exist for task and automatic repair is unsafe. Duplicate comment ids: comment-a, comment-b"
    );
    assert_eq!(tracker.calls, vec!["list_comments:task-dupe".to_string()]);
}

const CLOSE_WORKPAD: &str =
    "## Codex Workpad\n\n<!-- symphony:workpad -->\n\nPR: https://github.com/example/repo/pull/1";

#[test]
fn close_task_requires_merging_state() {
    let mut tracker = CloseGuardTracker::new("In Progress", CLOSE_WORKPAD);

    let result = execute(&mut tracker, r#"{"action": "close_task", "task_id": "task-close"}"#);

    assert!(!succeeded(&result));
    assert_eq!(
        error_message(&result),
        "`close_task` is only allowed from `Merging`. Current state is `In Progress`."
    );
    assert!(tracker.calls.is_empty());
}

#[test]
fn close_task_requires_merged_pr_in_workpad() {
    let mut tracker = CloseGuardTracker::new("Merging", CLOSE_WORKPAD);
    let github = Github::answering(r#"{"state": "open", "merged_at": null}"#);

    let result = execute_with(
        &mut tracker,
        &github,
        TODOIST_TOOL,
        r#"{"action": "close_task", "task_id": "task-close"}"#,
    );

    assert!(!succeeded(&result));
    assert_eq!(
        error_message(&result),
        "`close_task` requires the linked PR to be merged. Current PR state is `open`."
    );
    assert!(tracker.calls.is_empty());
}

#[test]
fn close_task_accepts_merged_pr_verified_via_runtime_github_api() {
    let mut tracker = CloseGuardTracker::new("Merging", CLOSE_WORKPAD);
    let github =
        Github::answering(r#"{"state": "closed", "merged_at": "2026-03-12T14:00:00Z"}"#);

    let result = execute_with(
        &mut tracker,
        &github,
        TODOIST_TOOL,
        r#"{"action": "close_task", "task_id": "task-close"}"#,
    );

    assert!(succeeded(&result));
    assert_eq!(at(&payload_body(&result), &["closed"]).and_then(Json::as_bool), Some(true));
    assert_eq!(tracker.calls, vec!["close_task:task-close".to_string()]);
}

#[test]
fn close_task_falls_back_to_gh_when_runtime_github_api_is_unreachable() {
    let mut tracker = CloseGuardTracker::new("Merging", CLOSE_WORKPAD);
    let github = Github {
        api: GithubReply::SendFailed("connection refused".to_string()),
        gh: GhViewReply::Printed(
            r#"{"url":"https://github.com/example/repo/pull/1","state":"MERGED","mergedAt":"2026-03-12T14:00:00Z","isDraft":false}"#
                .as_bytes()
                .to_vec(),
        ),
    };

    let result = execute_with(
        &mut tracker,
        &github,
        TODOIST_TOOL,
        r#"{"action": "close_task", "task_id": "task-close"}"#,
    );

    assert!(succeeded(&result));
    assert_eq!(at(&payload_body(&result), &["closed"]).and_then(Json::as_bool), Some(true));
    assert_eq!(tracker.calls, vec!["close_task:task-close".to_string()]);
}

#[test]
fn tasks_stay_open_where_github_cannot_tell() {
    let mut tracker = CloseGuardTracker::new("Merging", CLOSE_WORKPAD);
    let result = execute(&mut tracker, r#"{"action": "close_task", "task_id": "task-close"}"#);
    assert!(!succeeded(&result));
    assert!(error_message(&result).contains("could not run `gh pr view`: not installed"));
    assert!(tracker.calls.is_empty());
    let mut tracker = CloseGuardTracker::new("Merging", "## Codex Workpad\n\n<!-- symphony:workpad -->");
    let result = execute(&mut tracker, r#"{"action": "close_task", "task_id": "task-close"}"#);
    assert_eq!(
        error_message(&result),
        "`close_task` requires a linked GitHub PR URL in the workpad comment."
    );
}

#[test]
fn extracts_github_pr_urls_from_workpad_content() {
    let content = "## Codex Workpad\n\n<!-- symphony:workpad -->\n\nTracking https://github.com/example/repo/pull/42";
    assert_eq!(
        extract_github_pr_url(content).as_deref(),
        Some("https://github.com/example/repo/pull/42")
    );
}

#[test]
fn compact_workpad_content_preserves_key_sections_within_comment_limit() {
    let repeated = "x".repeat(TODOIST_COMMENT_SIZE_LIMIT / 3);
    let content = format!(
        "## Codex Workpad\n\n<!-- symphony:workpad -->\n\n## Plan\n\n{repeated}\n\n## Acceptance Criteria\n\n{repeated}\n\n## Validation\n\n{repeated}\n\n## Notes\n\n{repeated}\n\n## Confusions\n\n{repeated}\n\n## Scratch\n\n{repeated}\n\nLinked PR: https://github.com/example/repo/pull/42"
    );

    let compacted = compact_workpad_content(&content);

    assert!(compacted.len() <= TODOIST_COMMENT_SIZE_LIMIT);
    assert!(compacted.contains("## Plan"));
    assert!(compacted.contains("## Acceptance Criteria"));
    assert!(compacted.contains("## Validation"));
    assert!(compacted.contains("## Notes"));
    assert!(compacted.contains("## Confusions"));
    assert!(compacted.contains("## Compacted History"));
    assert!(compacted.contains("https://github.com/example/repo/pull/42"));
}

#[test]
fn compacted_workpads_fit_into_a_comment() {
    let link = "https://github.com/example/repo/pull/42";
    let heading = "x".repeat(20_000);
    let content = format!("## Codex Workpad\n\n<!-- symphony:workpad -->\n\n## {heading}\n\nText");
    let compacted = compact_workpad_content(&content);
    assert_eq!(compacted.len(), TODOIST_COMMENT_SIZE_LIMIT);
    assert!(compacted.starts_with("## Codex Workpad"));
    assert!(compacted.ends_with("xxx ..."));
    let compacted = compact_workpad_content(&format!("{content} {link}"));
    assert_eq!(compacted.len(), TODOIST_COMMENT_SIZE_LIMIT);
    assert!(compacted.ends_with(&format!("xxx ...\n\nLinked PR: {link}")));
    assert_eq!(extract_github_pr_url(&compacted).as_deref(), Some(link));
    let short = format!("notes {link}");
    assert_eq!(compact_workpad_content(&short), short);
}

#[test]
fn stored_workpads_are_stored_as_they_are() {
    let heading = "x".repeat(20_000);
    let notes = [
        "Body".to_string(),
        format!("## Plan\n\n{heading}\n\n## Scratch\n"),
        format!("## {heading}\n\nhttps://github.com/o/r/pull/7"),
    ];
    for content in notes {
        let stored = normalize_workpad_content(&content);
        assert!(stored.len() <= TODOIST_COMMENT_SIZE_LIMIT);
        assert!(stored.starts_with("## Codex Workpad\n\n<!-- symphony:workpad -->"));
        assert_eq!(normalize_workpad_content(&stored), stored.trim());
    }
}

#[test]
fn workpads_are_cut_between_characters_where_they_have_to_fit() {
    let long = "\u{20ac}".repeat(6_000);
    let cut = truncate_workpad_to_limit(&long, &None);
    assert_eq!(cut, format!("{} ...", "\u{20ac}".repeat(4_998)));
    let link = Some(format!("https://github.com/o/{}/pull/1", "r".repeat(14_957)));
    let cut = truncate_workpad_to_limit(&long, &link);
    assert_eq!(cut.len(), 14_998);
    assert!(cut.starts_with("\n\nLinked PR: "));
    assert_eq!(truncate_workpad_to_limit("short", &link), "short");
}

#[test]
fn github_response_summary_includes_message_and_field_errors() {
    let summary = github_response_summary(&json(
        r#"{
            "message": "Invalid request.\n\nCheck the payload.",
            "errors": [
                {"resource": "Commit", "field": "content", "code": "invalid"},
                {"message": "path must not be empty"}
            ]
        }"#,
    ))
    .expect("summary");

    assert_eq!(
        summary,
        "Invalid request. Check the payload.; Commit:content:invalid; path must not be empty"
    );
}

#[test]
fn github_error_message_uses_response_summary_when_available() {
    let message = github_error_message(
        reqwest::StatusCode::BAD_REQUEST.as_u16(),
        &Some("Invalid request.; Commit:content:invalid".to_string()),
    );

    assert_eq!(
        message,
        "GitHub API request failed with HTTP 400: Invalid request.; Commit:content:invalid"
    );
}

#[test]
fn inline_log_value_emits_whitespace_free_token() {
    assert_eq!(
        inline_log_value(" Invalid request.\n\nCheck the payload. "),
        "Invalid|request.|Check|the|payload."
    );
}

#[test]
fn execute_todoist_maps_activity_log_availability_errors() {
    let mut tracker = CapabilityTracker {
        capabilities: TrackerCapabilities { comments: true, reminders: false, activity_log: false },
    };

    let result = execute(
        &mut tracker,
        r#"{"action": "list_activities", "object_type": "item", "object_id": "task-1"}"#,
    );

    assert!(!succeeded(&result));
    assert_eq!(
        error_message(&result),
        "Todoist activity log is unavailable for this account or plan."
    );
}

#[test]
fn calls_that_are_not_in_order_are_refused() {
    let mut tracker = StubTodoistTracker::default();
    let refused = vec![
        ("[]", "`todoist` expects an object with an `action` field"),
        (r#"{"action": " "}"#, "`todoist.action` is required"),
        (r#"{"action": "dance"}"#, "unsupported todoist action `dance`"),
        (r#"{"action": "get_task"}"#, "`todoist.task_id` is required"),
        (r#"{"action": "get_task", "task_id": " "}"#, "`todoist.task_id` is required"),
        (
            r#"{"action": "list_comments"}"#,
            "exactly one of `todoist.task_id` or `todoist.project_id` is required",
        ),
    ];
    for (arguments, message) in refused {
        let result = execute(&mut tracker, arguments);
        assert!(!succeeded(&result));
        assert_eq!(error_message(&result), message);
    }
    assert!(tracker.calls.is_empty());
}

#[test]
fn contracts_accept_what_they_require() {
    for action in todoist_supported_actions(TodoistToolSurface::Extended, TrackerCapabilities::full()) {
        let contract = todoist_action_contract(&action).expect("contract");
        assert!(contract.allowed.iter().any(|key| key == "action"));
        assert!(contract.required.iter().all(|key| contract.allowed.contains(key)), "{action}");
    }
}

#[test]
fn tools_are_routed_by_name() {
    assert!(matches!(
        route_tool(&Some("todoist".to_string()), GITHUB_API_TOOL),
        ToolRoute::Github
    ));
    match route_tool(&Some("linear".to_string()), TODOIST_TOOL) {
        ToolRoute::Refused(answer) => assert!(error_message(&answer).contains("tracker.kind=todoist")),
        other => panic!("unexpected {other:?}"),
    }
    match route_tool(&Some("todoist".to_string()), "shell") {
        ToolRoute::Refused(answer) => {
            assert_eq!(error_message(&answer), "Unsupported dynamic tool: shell.")
        }
        other => panic!("unexpected {other:?}"),
    }
}

#[test]
fn totals_do_not_overflow_on_ordinary_sizes() {
    let metrics = vec![
        ToolPayloadMetric { name: "a".to_string(), bytes: 3 },
        ToolPayloadMetric { name: "b".to_string(), bytes: 4 },
    ];
    assert_eq!(total_tool_payload_bytes(&metrics), 7);
    assert_eq!(total_tool_payload_bytes(&[]), 0);
}

#[test]
fn every_tracker_error_has_its_payload() {
    let errors = vec![
        TrackerError::MissingTrackerApiKey,
        TrackerError::MissingTrackerProjectId,
        TrackerError::TodoistProjectNotFound("p".to_string()),
        TrackerError::TodoistMissingRequiredSection("s".to_string()),
        TrackerError::TodoistAssigneeNotResolvable {
            assignee: "a".to_string(),
            project_id: "p".to_string(),
        },
        TrackerError::MissingTodoistCurrentUser,
        TrackerError::TodoistCommentsUnavailable,
        TrackerError::TodoistRemindersUnavailable,
        TrackerError::TodoistActivityLogUnavailable,
        TrackerError::TodoistCommentTooLarge { limit: 1, actual: 2 },
        TrackerError::TodoistRateLimited { retry_after: Some(3) },
        TrackerError::TodoistApiStatus { status: 500, body: Json::Null },
        TrackerError::TodoistApiRequest("r".to_string()),
        TrackerError::TodoistUnknownPayload,
        TrackerError::TrackerOperationUnsupported("u".to_string()),
        TrackerError::UnsupportedTrackerKind("k".to_string()),
        TrackerError::MissingTrackerFixturePath,
        TrackerError::MemoryFixtureIo { path: "p".to_string(), error: "e".to_string() },
        TrackerError::MemoryFixtureParse { path: "p".to_string(), error: "e".to_string() },
    ];
    for error in errors {
        let payload = tool_error_payload(error);
        assert!(!text_at(&payload, &["error", "message"]).expect("message").is_empty());
    }
}

#[test]
fn github_requests_are_normalized() {
    let request = normalize_github_arguments(&json(
        r#"{"method": " post ", "path": "/repos/a/b/pulls", "body": {"title": "t"}}"#,
    ))
    .expect("request");
    assert_eq!(request.method, "POST");
    assert_eq!(request.path, "/repos/a/b/pulls");
    assert_eq!(request.body.as_ref().map(to_text).as_deref(), Some(r#"{"title":"t"}"#));
    let request = normalize_github_arguments(&json(
        r#"{"method": "get", "path": "repos", "body": "{\"a\": 1}"}"#,
    ))
    .expect("request");
    assert_eq!(request.path, "/repos");
    assert_eq!(request.body.as_ref().map(to_text).as_deref(), Some(r#"{"a":1}"#));
    assert!(normalize_github_arguments(&json(r#"{"method": "GET", "path": " "}"#)).is_err());
    assert!(normalize_github_arguments(&json(r#"{"method": "G E", "path": "/a"}"#)).is_err());
    assert!(normalize_github_arguments(&json("[]")).is_err());
}

#[test]
fn github_tokens_come_from_the_environment_or_gh() {
    assert_eq!(
        github_token_from_env(&Some(" a ".to_string()), &Some("b".to_string())).as_deref(),
        Some("a")
    );
    assert_eq!(github_token_from_env(&None, &Some("b".to_string())).as_deref(), Some("b"));
    assert_eq!(github_token_from_env(&Some(" ".to_string()), &Some("b".to_string())), None);
    assert_eq!(
        github_auth_token(&GhTokenReply::Printed(" t\n".to_string())).ok().as_deref(),
        Some("t")
    );
    assert!(github_auth_token(&GhTokenReply::Printed(" ".to_string())).is_err());
    assert!(github_auth_token(&GhTokenReply::NotRun("x".to_string())).is_err());
    assert_eq!(github_api_base_url(&None), "https://api.github.com");
    assert_eq!(github_api_base_url(&Some(" http://x// ".to_string())), "http://x");
}

#[test]
fn github_requests_are_tried_again() {
    assert_eq!(github_default_retry_delay_seconds(0), 2);
    assert_eq!(github_default_retry_delay_seconds(1), 4);
    assert_eq!(github_retry_after_seconds(&Some("7".to_string())), Some(7));
    assert_eq!(github_retry_after_seconds(&Some("soon".to_string())), None);
    assert_eq!(github_status_retry_delay_seconds(503, None, 0, 0), Some(2));
    assert_eq!(github_status_retry_delay_seconds(404, None, 0, 0), None);
    assert_eq!(github_status_retry_delay_seconds(503, None, 2, 0), None);
    assert_eq!(github_retry_reason(429, None), "rate_limited");
    let failed = GithubReply::SendFailed("x".to_string());
    match github_api_step("GET", "/a", 0, 0, &failed) {
        GithubStep::Retry { delay_secs, attempt, waited_secs } => {
            assert_eq!((delay_secs, attempt, waited_secs), (2, 1, 2))
        }
        other => panic!("unexpected {other:?}"),
    }
    match github_api_step("GET", "/a", 2, 6, &failed) {
        GithubStep::Done(Err(error)) => assert_eq!(
            text_at(&error, &["error", "message"]),
            Some("GitHub API request failed before receiving a response.")
        ),
        other => panic!("unexpected {other:?}"),
    }
    let empty = GithubReply::Answered { status: 204, retry_after: None, body: " ".to_string() };
    match github_api_step("GET", "/a", 0, 0, &empty) {
        GithubStep::Done(Ok(body)) => assert_eq!(to_text(&body), r#"{"status":204}"#),
        other => panic!("unexpected {other:?}"),
    }
    let refused = GithubReply::Answered {
        status: 422,
        retry_after: None,
        body: r#"{"message":"no"}"#.to_string(),
    };
    match github_api_step("POST", "/a", 0, 0, &refused) {
        GithubStep::Done(Err(error)) => {
            assert_eq!(
                text_at(&error, &["error", "message"]),
                Some("GitHub API request failed with HTTP 422: no")
            );
            assert!(github_error_summary(&error).contains("HTTP 422"));
        }
        other => panic!("unexpected {other:?}"),
    }
    assert_eq!(to_text(&parse_error_body("plain")), r#"{"raw":"plain"}"#);
}

#[test]
fn pull_requests_are_found_by_their_address() {
    assert_eq!(
        github_pr_coordinates("https://github.com/a/b/pull/7"),
        Some(("a".to_string(), "b".to_string(), "7".to_string()))
    );
    assert_eq!(github_pr_coordinates("https://github.com/a/b/pull/7/files"), None);
    assert_eq!(
        pull_request_path_of("https://github.com/a/b/pull/7").expect("path"),
        "/repos/a/b/pulls/7"
    );
    assert!(pull_request_path_of("https://example.org").is_err());
    assert_eq!(extract_github_pr_url("none here"), None);
    assert!(require_link(None).is_err());
}

#[test]
fn workpads_are_stored_in_one_form() {
    assert_eq!(
        try_normalize_workpad_content("  ").as_deref(),
        Some("## Codex Workpad\n\n<!-- symphony:workpad -->")
    );
    assert_eq!(
        try_normalize_workpad_content("Body").as_deref(),
        Some("## Codex Workpad\n\n<!-- symphony:workpad -->\n\nBody")
    );
    assert_eq!(
        try_normalize_workpad_content("## Codex Workpad\n\nBody").as_deref(),
        Some("## Codex Workpad\n\n<!-- symphony:workpad -->\n\nBody")
    );
    let once = try_normalize_workpad_content("Body").expect("once");
    assert_eq!(try_normalize_workpad_content(&once), Some(once));
}

#[test]
fn workpads_are_cut_between_characters_only() {
    assert_eq!(try_truncate_workpad_text("short", 100).as_deref(), Some("short"));
    let long = "ä".repeat(TODOIST_COMMENT_SIZE_LIMIT);
    match try_compact_workpad_content(&long) {
        Some(text) => assert!(text.len() <= TODOIST_COMMENT_SIZE_LIMIT),
        None => {}
    }
    assert_eq!(
        parse_workpad_sections("intro\n## A\none\n## B\ntwo"),
        vec![
            ("A".to_string(), "intro\none".to_string()),
            ("B".to_string(), "two".to_string()),
        ]
    );
}

#[test]
fn scopes_are_logged() {
    let arguments = json(r#"{"action": "get_task", "task_id": "t", "limit": 3}"#);
    let entries = arguments.as_object().expect("entries");
    assert!(todoist_log_scope(entries).contains("task_id=t"));
    assert_eq!(todoist_log_scope(&vec![]), "scope=none");
}

#[test]
fn hints_that_lead_nowhere_are_followed_by_a_search() {
    let (search, step) = WorkpadSearch::start("task", &Some(" c ".to_string()));
    assert!(matches!(step, SearchStep::GetComment(id) if id == "c"));
    let missing = TrackerError::TodoistApiStatus { status: 404, body: Json::Null };
    assert!(matches!(search.on_hinted("c", Err(missing)), Ok(SearchStep::ListComments(_))));
    let failed = TrackerError::TodoistApiStatus { status: 500, body: Json::Null };
    assert!(search.on_hinted("c", Err(failed)).is_err());
    let foreign = json(r###"{"id": "c", "item_id": "other", "content": "## Codex Workpad\n\n<!-- symphony:workpad -->"}"###);
    match search.on_hinted("c", Ok(foreign)) {
        Err(TrackerError::TrackerOperationUnsupported(reason)) => {
            assert_eq!(reason, "workpad comment `c` belongs to task `other`, not `task`.")
        }
        other => panic!("unexpected {other:?}"),
    }
}

#[test]
fn comments_are_listed_page_by_page() {
    let (mut search, step) = WorkpadSearch::start("task", &None);
    match step {
        SearchStep::ListComments(arguments) => assert_eq!(to_text(&arguments), r#"{"task_id":"task"}"#),
        other => panic!("unexpected {other:?}"),
    }
    match search.on_page(&json(r#"{"results": [], "next_cursor": "n"}"#)).expect("page") {
        SearchStep::ListComments(arguments) => {
            assert_eq!(to_text(&arguments), r#"{"cursor":"n","task_id":"task"}"#)
        }
        other => panic!("unexpected {other:?}"),
    }
    assert!(matches!(search.on_page(&json(r#"{"results": []}"#)), Ok(SearchStep::Listed)));
    assert!(matches!(search.on_page(&json("{}")), Err(TrackerError::TodoistUnknownPayload)));
}

fn merging_task() -> Issue {
    Issue {
        id: "task".to_string(),
        identifier: "TD-1".to_string(),
        state: "Merging".to_string(),
        ..Issue::default()
    }
}

fn closing_until_the_merge() -> Flow {
    let flow = begin(json(r#"{"action": "close_task", "task_id": "task"}"#));
    let Flow::AskCapabilities(call) = flow else { panic!("unexpected {flow:?}") };
    let flow = on_capabilities(call, Err(TrackerError::TodoistUnknownPayload)).expect("a way on");
    let Flow::LoadTask(task_id) = flow else { panic!("unexpected {flow:?}") };
    let flow = on_task(task_id, Ok(vec![merging_task()]));
    let Flow::Ask { request: Request::ListComments(arguments), wait } = flow else {
        panic!("unexpected {flow:?}")
    };
    assert_eq!(to_text(&arguments), r#"{"task_id":"task"}"#);
    on_reply(
        wait,
        Ok(json(
            r###"{"results": [{
                "id": "c",
                "item_id": "task",
                "content": "## Codex Workpad\n\n<!-- symphony:workpad -->\n\nhttps://github.com/o/r/pull/7"
            }]}"###,
        )),
    )
    .expect("a way on")
}

#[test]
fn tasks_are_closed_after_the_merge() {
    let flow = closing_until_the_merge();
    let Flow::AskApi { task_id, state, pr_url, path } = flow else {
        panic!("unexpected {flow:?}")
    };
    assert_eq!(
        (task_id.as_str(), state.as_str(), pr_url.as_str(), path.as_str()),
        ("task", "Merging", "https://github.com/o/r/pull/7", "/repos/o/r/pulls/7")
    );
    let flow = on_api(task_id, state, pr_url, Ok(json(r#"{"merged_at": "2026-03-12"}"#)));
    let Flow::Ask { request: Request::CloseTask(task_id), wait } = flow else {
        panic!("unexpected {flow:?}")
    };
    assert_eq!(task_id, "task");
    match on_reply(wait, Ok(Json::Null)) {
        Some(Flow::Done(Ok(answer))) => assert_eq!(
            to_text(&answer),
            r#"{"closed":true,"pr_url":"https://github.com/o/r/pull/7","state":"Merging","task_id":"task"}"#
        ),
        other => panic!("unexpected {other:?}"),
    }
}

#[test]
fn tasks_stay_open_without_the_merge() {
    let flow = closing_until_the_merge();
    let Flow::AskApi { task_id, state, pr_url, .. } = flow else { panic!("unexpected {flow:?}") };
    match on_api(task_id, state, pr_url, Ok(json(r#"{"merged_at": null, "state": "open"}"#))) {
        Flow::Done(Err(TrackerError::TrackerOperationUnsupported(reason))) => assert_eq!(
            reason,
            "`close_task` requires the linked PR to be merged. Current PR state is `open`."
        ),
        other => panic!("unexpected {other:?}"),
    }
}

#[test]
fn gh_decides_where_the_api_fails() {
    let flow = closing_until_the_merge();
    let Flow::AskApi { task_id, state, pr_url, .. } = flow else { panic!("unexpected {flow:?}") };
    let flow = on_api(task_id, state, pr_url, Err(json(r#"{"error": {"message": "down"}}"#)));
    let Flow::AskGh { task_id, state, pr_url, api_error } = flow else {
        panic!("unexpected {flow:?}")
    };
    assert_eq!(to_text(&api_error), r#"{"error":{"message":"down"}}"#);
    let reply = GhViewReply::Printed(br#"{"mergedAt": "2026-03-12"}"#.to_vec());
    let flow = on_gh(task_id, state, pr_url, api_error, &reply);
    assert!(matches!(flow, Flow::Ask { request: Request::CloseTask(_), .. }));
}

#[test]
fn both_reasons_are_given_where_no_one_tells_of_a_merge() {
    let failed = || json(r#"{"error": {"message": "down"}}"#);
    assert!(matches!(on_api_answer(Err(failed())), MergeStep::AskGh(_)));
    assert!(matches!(on_api_answer(Ok(json(r#"{"merged_at": "x"}"#))), MergeStep::Done(Ok(()))));
    assert!(matches!(on_api_answer(Ok(json("{}"))), MergeStep::Done(Err(_))));
    let reason = |reply: GhViewReply| match on_gh_view(failed(), &reply) {
        Err(TrackerError::TrackerOperationUnsupported(reason)) => reason,
        other => panic!("unexpected {other:?}"),
    };
    assert_eq!(
        reason(GhViewReply::Printed(br#"{"state": "OPEN", "mergedAt": null}"#.to_vec())),
        "`close_task` could not verify GitHub PR merge status via runtime API (down) or `gh pr view` (`close_task` requires the linked PR to be merged. Current PR state is `OPEN`.)"
    );
    assert_eq!(
        reason(GhViewReply::Failed { status: "exit status: 1".to_string(), stderr: " no\n".to_string() }),
        "`close_task` could not verify GitHub PR merge status via runtime API (down) or `gh pr view` (no)"
    );
    let garbled = reason(GhViewReply::Printed(vec![b'"', 0xff, b'"']));
    assert!(garbled.contains("could not parse `gh pr view` output: invalid unicode code point"));
}

#[test]
fn calls_that_are_not_in_order_ask_nothing() {
    match begin(json(r#"{"action": "close_task"}"#)) {
        Flow::Done(Err(TrackerError::TrackerOperationUnsupported(_))) => {}
        other => panic!("unexpected {other:?}"),
    }
    match begin(json("[]")) {
        Flow::Done(Err(TrackerError::TrackerOperationUnsupported(reason))) => {
            assert_eq!(reason, "`todoist` expects an object with an `action` field")
        }
        other => panic!("unexpected {other:?}"),
    }
}

#[test]
fn comments_of_tasks_are_not_deleted_by_identifier() {
    let wait = Wait::ScopeOfDeleted("c".to_string());
    match on_reply(wait, Ok(json(r#"{"id": "c", "item_id": "task"}"#))) {
        Some(Flow::Done(Err(TrackerError::TrackerOperationUnsupported(_)))) => {}
        other => panic!("unexpected {other:?}"),
    }
    let wait = Wait::ScopeOfDeleted("c".to_string());
    match on_reply(wait, Ok(json(r#"{"id": "c", "item_id": null}"#))) {
        Some(Flow::Ask { request: Request::DeleteComment(id), wait: Wait::Answer }) => {
            assert_eq!(id, "c")
        }
        other => panic!("unexpected {other:?}"),
    }
}

#[test]
fn duplicates_are_deleted_one_after_the_other() {
    let flow = begin(json(r#"{"action": "get_workpad", "task_id": "task"}"#));
    let Flow::AskCapabilities(call) = flow else { panic!("unexpected {flow:?}") };
    let flow = on_capabilities(call, Ok(TrackerCapabilities::full())).expect("a way on");
    let Flow::Ask { wait, .. } = flow else { panic!("unexpected {flow:?}") };
    let page = json(
        r###"{"results": [
            {"id": "a", "item_id": "task", "content": "## Codex Workpad\n\n<!-- symphony:workpad -->", "posted_at": "2026-03-11T20:00:00Z"},
            {"id": "b", "item_id": "task", "content": "## Codex Workpad\n\n<!-- symphony:workpad -->", "posted_at": "2026-03-11T21:00:00Z"},
            {"id": "c", "item_id": "task", "content": "## Codex Workpad\n\n<!-- symphony:workpad -->", "posted_at": "2026-03-11T22:00:00Z"}
        ]}"###,
    );
    let mut flow = on_reply(wait, Ok(page)).expect("a way on");
    let mut deleted = vec![];
    while let Flow::Ask { request: Request::DeleteComment(id), wait } = flow {
        deleted.push(id);
        flow = on_reply(wait, Ok(Json::Null)).expect("a way on");
    }
    assert_eq!(deleted.len(), 2);
    match flow {
        Flow::Done(Ok(answer)) => {
            let kept = text_at(&answer, &["comment_id"]).expect("comment").to_string();
            assert!(!deleted.contains(&kept));
            assert_eq!(answer.get("repaired_duplicates").and_then(Json::as_bool), Some(true));
        }
        other => panic!("unexpected {other:?}"),
    }
}

#[test]
fn notes_are_brought_into_the_form_of_a_workpad() {
    assert_eq!(
        normalize_workpad_content(" notes "),
        "## Codex Workpad\n\n<!-- symphony:workpad -->\n\nnotes"
    );
    assert_eq!(
        normalize_workpad_content(""),
        "## Codex Workpad\n\n<!-- symphony:workpad -->"
    );
    assert_eq!(truncate_workpad_text("abc def", 4), "abc ...");
    assert_eq!(truncate_workpad_text("abc", 4), "abc");
}

#[test]
fn a_hint_decides_which_workpad_counts() {
    let comments = vec![
        json(r###"{"id": "a", "content": "## Codex Workpad\n\n<!-- symphony:workpad -->\n\nx"}"###),
        json(r###"{"id": "b", "content": "## Codex Workpad\n\n<!-- symphony:workpad -->\n\ny"}"###),
    ];
    let hinted = choose_canonical_workpad_comment(&comments, &Some(" b ".to_string()));
    assert_eq!(hinted.expect("canonical"), "b");
    assert!(choose_canonical_workpad_comment(&comments, &None).is_err());
}
