use symphony::codex::{
    app_server_shell, approval_option_label, auto_approve_requests, await_response,
    build_tool_input_reply, completed_turn, finish_tool_call, initialize_request,
    initialized_notice, inline_log_value, input_required_method, port_exit_error,
    read_stdout_line, remote_command, run_turn_step, spawn_error, stderr_line_warns,
    tool_call_arguments, tool_call_name, turn_sandbox_policy_for_workspace, AppServerClient,
    AppServerSession, CodexError, CodexEvent, CodexSettings, RawLine, ResponseInput, ResponseStep,
    TurnContext, TurnEnd, TurnInput, TurnSession, TurnStart, TurnStep, NON_INTERACTIVE_ANSWER,
};
use symphony::dynamic_tool::failure_payload;
use symphony::issue::Issue;
use symphony::json::{parse, to_text, Json};
use symphony::usage::{extract_rate_limits, extract_usage};

fn json(text: &str) -> Json {
    parse(text).expect("json")
}

#[test]
fn extracts_absolute_token_usage() {
    let usage = extract_usage(&json(
        r#"{
            "method": "thread/tokenUsage/updated",
            "params": {
                "tokenUsage": {
                    "total": {
                        "inputTokens": 10,
                        "outputTokens": 20,
                        "totalTokens": 30
                    }
                }
            }
        }"#,
    ))
    .expect("usage");
    assert_eq!(usage.get("input_tokens").and_then(Json::as_i64), Some(10));
    assert_eq!(usage.get("total_tokens").and_then(Json::as_i64), Some(30));
}

#[test]
fn ignores_unscoped_generic_usage_payloads() {
    let usage = extract_usage(&json(
        r#"{
            "method": "notification",
            "params": {
                "usage": {
                    "inputTokens": 10,
                    "outputTokens": 20,
                    "totalTokens": 30
                }
            }
        }"#,
    ));
    assert!(usage.is_none());
}

#[test]
fn extracts_turn_completed_usage_payload() {
    let usage = extract_usage(&json(
        r#"{
            "method": "turn/completed",
            "usage": {
                "inputTokens": 5,
                "outputTokens": 7,
                "totalTokens": 12
            }
        }"#,
    ))
    .expect("usage");

    assert_eq!(usage.get("input_tokens").and_then(Json::as_i64), Some(5));
    assert_eq!(usage.get("total_tokens").and_then(Json::as_i64), Some(12));
}

#[test]
fn extracts_rate_limits_payload() {
    let rate_limits = extract_rate_limits(&json(
        r#"{
            "method": "account/rateLimits/updated",
            "params": {
                "rateLimits": {
                    "primary": { "usedPercent": 75 }
                }
            }
        }"#,
    ))
    .expect("rate limits");
    assert_eq!(
        rate_limits
            .get("primary")
            .and_then(|value| value.get("usedPercent"))
            .and_then(Json::as_i64),
        Some(75)
    );
}

#[test]
fn extracts_nested_rate_limits_payload() {
    let rate_limits = extract_rate_limits(&json(
        r#"{
            "payload": {
                "wrapper": {
                    "rate_limits": {
                        "limit_id": "requests",
                        "primary": { "usedPercent": 10 }
                    }
                }
            }
        }"#,
    ))
    .expect("rate limits");

    assert_eq!(
        rate_limits
            .get("primary")
            .and_then(|value| value.get("usedPercent"))
            .and_then(Json::as_i64),
        Some(10)
    );
}

/// An app server that answers each line it is sent with the lines of its script.
struct Script {
    answers: Vec<Vec<&'static str>>,
    received: Vec<String>,
}

impl Script {
    fn send(&mut self, message: &Json) -> Vec<RawLine> {
        let index = self.received.len();
        self.received.push(to_text(message));
        match self.answers.get(index) {
            Some(lines) => lines
                .iter()
                .map(|line| read_stdout_line(format!("{line}\n").into_bytes()))
                .collect(),
            None => vec![],
        }
    }
}

fn sample_issue() -> Issue {
    Issue {
        id: "issue-1".to_string(),
        identifier: "MT-1".to_string(),
        title: "Title".to_string(),
        state: "In Progress".to_string(),
        ..Issue::default()
    }
}

fn sample_settings(approval_policy: Option<Json>) -> CodexSettings {
    CodexSettings {
        command: "codex app-server".to_string(),
        approval_policy: approval_policy.unwrap_or_else(|| json(r#""on-request""#)),
        thread_sandbox: json(r#""workspace-write""#),
        turn_sandbox_policy: json(r#"{"type": "workspaceWrite"}"#),
        turn_timeout_ms: 3_600_000,
        read_timeout_ms: 5_000,
    }
}

fn response_of(request_id: u64, lines: Vec<RawLine>) -> (Result<Json, CodexError>, Vec<RawLine>) {
    let mut lines = lines.into_iter();
    while let Some(line) = lines.next() {
        match await_response(request_id, ResponseInput::Line(line)) {
            ResponseStep::Wait => {}
            ResponseStep::Reply(reply) => return (Ok(reply), lines.collect()),
            ResponseStep::Failed(error) => return (Err(error), lines.collect()),
            ResponseStep::Closed => return (Err(port_exit_error(Ok(Some(0)))), lines.collect()),
        }
    }
    match await_response(request_id, ResponseInput::TimedOut) {
        ResponseStep::Failed(error) => (Err(error), vec![]),
        other => panic!("unexpected {other:?}"),
    }
}

fn start_session(
    script: &mut Script,
    policy: Option<Json>,
    worker_host: Option<&str>,
) -> AppServerSession {
    let client = AppServerClient::new(sample_settings(policy));
    let mut session = client.open_session(
        "/tmp/workspaces/MT-1".to_string(),
        worker_host.map(str::to_string),
        Some(42),
    );
    let lines = script.send(&initialize_request("0.1.0"));
    let (reply, _) = response_of(1, lines);
    reply.expect("initialized");
    script.send(&initialized_notice());
    let tools = vec![];
    let lines = script.send(&session.thread_request(&tools));
    let (reply, _) = response_of(2, lines);
    session.thread_started(&reply.expect("thread"), &tools).expect("thread id");
    session
}

fn run_turn(
    script: &mut Script,
    session: &mut AppServerSession,
    tool_result: Option<Json>,
    cancel: bool,
) -> (Result<TurnSession, CodexError>, Vec<CodexEvent>) {
    let mut events = vec![];
    let (id, request) = session.turn_request("Prompt", &sample_issue());
    let lines = script.send(&request);
    let (reply, mut lines) = response_of(id, lines);
    let turn: TurnContext = match session.turn_started(reply, 7) {
        TurnStart::Started { turn, event } => {
            events.push(event);
            turn
        }
        TurnStart::Failed { error, event } => {
            events.extend(event);
            return (Err(error), events);
        }
    };
    loop {
        let input = if lines.is_empty() {
            if cancel { TurnInput::Cancelled } else { TurnInput::TimedOut }
        } else {
            TurnInput::Line(lines.remove(0))
        };
        let outcome = match run_turn_step(&session.config.approval_policy, &turn, 7, input) {
            TurnStep::Act(outcome) => outcome,
            TurnStep::CallTool(call) => {
                finish_tool_call(&turn, 7, call, tool_result.as_ref().expect("tool result"))
            }
            TurnStep::Closed => return (Err(port_exit_error(Ok(Some(0)))), events),
        };
        if let Some(reply) = &outcome.reply {
            lines.extend(script.send(reply));
        }
        events.extend(outcome.events);
        match outcome.end {
            TurnEnd::GoOn => {}
            TurnEnd::Completed => return (Ok(completed_turn(&turn)), events),
            TurnEnd::Failed(error) | TurnEnd::Interrupted(error) => return (Err(error), events),
        }
    }
}

fn script(thread: &'static str, turn: Vec<&'static str>, rest: Vec<Vec<&'static str>>) -> Script {
    let mut answers = vec![vec![r#"{"id":1,"result":{}}"#], vec![], vec![thread], turn];
    answers.extend(rest);
    Script { answers, received: vec![] }
}

#[test]
fn requires_approval_when_policy_is_not_never() {
    let mut script = script(
        r#"{"id":2,"result":{"thread":{"id":"thread-approval"}}}"#,
        vec![
            r#"{"id":10,"result":{"turn":{"id":"turn-approval"}}}"#,
            r#"{"id":99,"method":"item/commandExecution/requestApproval","params":{"command":"gh pr view","cwd":"/tmp","reason":"need approval"}}"#,
        ],
        vec![],
    );
    let mut session = start_session(&mut script, None, None);
    let (result, _) = run_turn(&mut script, &mut session, None, false);
    assert!(matches!(result, Err(CodexError::ApprovalRequired(_))));
}

#[test]
fn run_turn_honors_cancellation_while_waiting_for_stream_output() {
    let mut script = script(
        r#"{"id":2,"result":{"thread":{"id":"thread-cancel"}}}"#,
        vec![r#"{"id":10,"result":{"turn":{"id":"turn-cancel"}}}"#],
        vec![],
    );
    let mut session = start_session(&mut script, Some(json(r#""never""#)), None);
    let (result, _) = run_turn(&mut script, &mut session, None, true);
    assert!(matches!(result, Err(CodexError::TurnCancelled(_))));
}

#[test]
fn auto_approves_command_execution_when_policy_is_never() {
    let mut script = script(
        r#"{"id":2,"result":{"thread":{"id":"thread-auto"}}}"#,
        vec![
            r#"{"id":10,"result":{"turn":{"id":"turn-auto"}}}"#,
            r#"{"id":99,"method":"item/commandExecution/requestApproval","params":{"command":"gh pr view","cwd":"/tmp","reason":"need approval"}}"#,
        ],
        vec![vec![r#"{"method":"turn/completed"}"#]],
    );
    let mut session = start_session(&mut script, Some(json(r#""never""#)), None);
    let (result, _) = run_turn(&mut script, &mut session, None, false);
    assert!(result.is_ok());
    let trace = script.received.join("\n");
    assert!(trace.contains(r#""id":99,"result":{"decision":"acceptForSession"}"#));
}

#[test]
fn auto_answers_tool_input_and_continues() {
    let mut script = script(
        r#"{"id":2,"result":{"thread":{"id":"thread-input"}}}"#,
        vec![
            r#"{"id":10,"result":{"turn":{"id":"turn-input"}}}"#,
            r#"{"id":111,"method":"item/tool/requestUserInput","params":{"itemId":"call-1","questions":[{"header":"Provide context","id":"freeform-1","isOther":false,"isSecret":false,"options":null,"question":"What should I post back?"}],"threadId":"thread-input","turnId":"turn-input"}}"#,
        ],
        vec![vec![r#"{"method":"turn/completed"}"#]],
    );
    let mut session = start_session(&mut script, None, None);
    let (result, events) = run_turn(&mut script, &mut session, None, false);
    assert!(result.is_ok());
    let answered = events
        .iter()
        .find(|event| event.event == "tool_input_auto_answered")
        .expect("tool input auto answered event");
    assert_eq!(answered.message.as_deref(), Some(NON_INTERACTIVE_ANSWER));
    assert!(script.received.join("\n").contains(NON_INTERACTIVE_ANSWER));
}

#[test]
fn auto_approves_tool_user_input_when_policy_is_never() {
    let mut script = script(
        r#"{"id":2,"result":{"thread":{"id":"thread-tool-approval"}}}"#,
        vec![
            r#"{"id":10,"result":{"turn":{"id":"turn-tool-approval"}}}"#,
            r#"{"id":110,"method":"item/tool/requestUserInput","params":{"itemId":"call-approval","questions":[{"header":"Approve app tool call?","id":"mcp_tool_call_approval_call-approval","isOther":false,"isSecret":false,"options":[{"description":"Run once","label":"Approve Once"},{"description":"Run and remember","label":"Approve this Session"},{"description":"Decline","label":"Deny"}],"question":"Allow this action?"}],"threadId":"thread-tool-approval","turnId":"turn-tool-approval"}}"#,
        ],
        vec![vec![r#"{"method":"turn/completed"}"#]],
    );
    let mut session = start_session(&mut script, Some(json(r#""never""#)), None);
    let (result, events) = run_turn(&mut script, &mut session, None, false);
    assert!(result.is_ok());
    let approved = events
        .iter()
        .find(|event| event.event == "approval_auto_approved")
        .expect("approval event");
    assert_eq!(approved.message.as_deref(), Some("Approve this Session"));
    assert!(script.received.join("\n").contains(
        r#""mcp_tool_call_approval_call-approval":{"answers":["Approve this Session"]}"#
    ));
}

#[test]
fn emits_tool_call_failed_for_failed_dynamic_tool_results() {
    let mut script = script(
        r#"{"id":2,"result":{"thread":{"id":"thread-tool"}}}"#,
        vec![
            r#"{"id":10,"result":{"turn":{"id":"turn-tool"}}}"#,
            r#"{"id":103,"method":"item/tool/call","params":{"name":"todoist","callId":"call-1","threadId":"thread-tool","turnId":"turn-tool","arguments":{"action":"get_current_user"}}}"#,
        ],
        vec![vec![r#"{"method":"turn/completed"}"#]],
    );
    let mut session = start_session(&mut script, Some(json(r#""never""#)), None);
    let failure = failure_payload(&json(r#"{"error": {"message": "boom"}}"#));
    let (result, events) = run_turn(&mut script, &mut session, Some(failure), false);
    assert!(result.is_ok());
    assert!(events.iter().any(|event| event.event == "tool_call_failed"));
    let trace = script.received.join("\n");
    assert!(trace.contains(r#""id":103"#));
    assert!(trace.contains(r#""success":false"#));
}

#[test]
fn start_session_on_host_uses_ssh_launch_and_emits_worker_host_metadata() {
    let mut script = script(
        r#"{"id":2,"result":{"thread":{"id":"thread-remote"}}}"#,
        vec![
            r#"{"id":10,"result":{"turn":{"id":"turn-remote"}}}"#,
            r#"{"method":"turn/completed"}"#,
        ],
        vec![],
    );
    let mut session = start_session(&mut script, None, Some("builder-1"));
    let (result, events) = run_turn(&mut script, &mut session, None, false);
    let turn = result.expect("turn");
    assert_eq!(turn.session_id, "thread-remote-turn-remote");
    assert!(!events.is_empty());
    assert!(events.iter().all(|event| event.worker_host.as_deref() == Some("builder-1")));
    assert_eq!(
        remote_command("workspace=/srv/x", "codex app-server").contains("codex app-server"),
        true
    );
}

#[test]
fn every_error_is_told_in_words() {
    let all = vec![
        (CodexError::CodexNotFound("a".to_string()), "codex_not_found a"),
        (CodexError::InvalidWorkspaceCwd("a".to_string()), "invalid_workspace_cwd a"),
        (CodexError::Io("a".to_string()), "io_error a"),
        (CodexError::ResponseTimeout, "response_timeout"),
        (CodexError::TurnTimeout, "turn_timeout"),
        (CodexError::PortExit(3), "port_exit 3"),
        (CodexError::ResponseError("a".to_string()), "response_error a"),
        (CodexError::TurnFailed("a".to_string()), "turn_failed a"),
        (CodexError::TurnCancelled("a".to_string()), "turn_cancelled a"),
        (CodexError::TurnInputRequired("a".to_string()), "turn_input_required a"),
        (CodexError::ApprovalRequired("a".to_string()), "approval_required a"),
    ];
    for (error, text) in all {
        assert_eq!(error.to_text(), text);
    }
}

#[test]
fn starting_and_ending_a_process_can_fail() {
    assert!(matches!(spawn_error(true, "x".to_string()), CodexError::CodexNotFound(_)));
    assert!(matches!(spawn_error(false, "x".to_string()), CodexError::Io(reason) if reason == "x"));
    assert!(matches!(port_exit_error(Ok(Some(2))), CodexError::PortExit(2)));
    assert!(matches!(port_exit_error(Ok(None)), CodexError::PortExit(-1)));
}

#[test]
fn turns_end_as_the_app_server_says() {
    let policy = json(r#""never""#);
    let turn = TurnContext {
        pid: None,
        worker_host: None,
        session_id: "s".to_string(),
        thread_id: "t".to_string(),
        turn_id: "u".to_string(),
    };
    let end = |line: &str| match run_turn_step(
        &policy,
        &turn,
        1,
        TurnInput::Line(RawLine::Stdout(line.to_string())),
    ) {
        TurnStep::Act(outcome) => (outcome.end, outcome.events),
        other => panic!("unexpected {other:?}"),
    };
    let (failed, events) = end(r#"{"method":"turn/failed","params":{}}"#);
    assert!(matches!(failed, TurnEnd::Failed(CodexError::TurnFailed(_))));
    assert_eq!(events[0].event, "turn_failed");
    let (cancelled, _) = end(r#"{"method":"turn/cancelled"}"#);
    assert!(matches!(cancelled, TurnEnd::Failed(CodexError::TurnCancelled(_))));
    let (on, events) = end("not json");
    assert!(matches!(on, TurnEnd::GoOn));
    assert_eq!(events[0].event, "malformed");
    assert_eq!(events[0].timestamp, 1);
    assert_eq!(events[0].session_id.as_deref(), Some("s"));
    assert!(matches!(
        run_turn_step(&policy, &turn, 1, TurnInput::Line(RawLine::StdoutClosed)),
        TurnStep::Closed
    ));
    match run_turn_step(&policy, &turn, 1, TurnInput::TimedOut) {
        TurnStep::Act(outcome) => assert!(matches!(outcome.end, TurnEnd::Failed(CodexError::TurnTimeout))),
        other => panic!("unexpected {other:?}"),
    }
}

#[test]
fn responses_belong_to_requests() {
    let line = |text: &str| ResponseInput::Line(RawLine::Stdout(text.to_string()));
    assert!(matches!(await_response(5, line(r#"{"id":4,"result":{}}"#)), ResponseStep::Wait));
    assert!(matches!(await_response(5, line("noise")), ResponseStep::Wait));
    match await_response(5, line(r#"{"id":5,"result":{"a":1}}"#)) {
        ResponseStep::Reply(reply) => assert_eq!(to_text(&reply), r#"{"a":1}"#),
        other => panic!("unexpected {other:?}"),
    }
    match await_response(5, line(r#"{"id":5,"error":{"code":1}}"#)) {
        ResponseStep::Failed(CodexError::ResponseError(reason)) => assert_eq!(reason, r#"{"code":1}"#),
        other => panic!("unexpected {other:?}"),
    }
    assert!(matches!(
        await_response(5, ResponseInput::TimedOut),
        ResponseStep::Failed(CodexError::ResponseTimeout)
    ));
}

#[test]
fn lines_are_read_as_text() {
    assert!(matches!(read_stdout_line(b"abc\r\n".to_vec()), RawLine::Stdout(line) if line == "abc"));
    assert!(matches!(read_stdout_line(vec![]), RawLine::StdoutClosed));
    assert!(matches!(read_stdout_line(vec![0xff, b'\n']), RawLine::StdoutMalformed(_)));
    assert!(stderr_line_warns("an ERROR occurred"));
    assert!(!stderr_line_warns("all is well"));
    assert_eq!(inline_log_value("  a \n b "), "a b");
    assert_eq!(inline_log_value(&"x".repeat(300)).chars().count(), 240);
}

#[test]
fn shells_and_policies_are_chosen() {
    assert_eq!(app_server_shell(true, true), Some("/bin/bash"));
    assert_eq!(app_server_shell(false, true), Some("/bin/sh"));
    assert_eq!(app_server_shell(false, false), None);
    assert!(auto_approve_requests(&json(r#""never""#)));
    assert!(!auto_approve_requests(&json(r#""on-request""#)));
    assert!(!auto_approve_requests(&json(r#"{"reject": {}}"#)));
    let policy = turn_sandbox_policy_for_workspace(&json(r#"{"writableRoots":["/x"]}"#), "/w");
    assert_eq!(
        policy.get("writableRoots").map(to_text).as_deref(),
        Some(r#"["/w"]"#)
    );
    let policy = turn_sandbox_policy_for_workspace(&json(r#"{"type":"readOnly"}"#), "/w");
    assert_eq!(to_text(&policy), r#"{"type":"readOnly"}"#);
}

#[test]
fn tool_calls_are_read() {
    let params = json(r#"{"tool": " todoist ", "arguments": {"a": 1}}"#);
    assert_eq!(tool_call_name(&params).as_deref(), Some("todoist"));
    assert_eq!(to_text(&tool_call_arguments(&params)), r#"{"a":1}"#);
    assert_eq!(tool_call_name(&json(r#"{"tool": " "}"#)), None);
    assert_eq!(to_text(&tool_call_arguments(&json("{}"))), "{}");
}

#[test]
fn labels_of_approvals_are_found() {
    let options = vec![json(r#"{"label": "Deny"}"#), json(r#"{"label": "Approve Once"}"#)];
    assert_eq!(approval_option_label(&options).as_deref(), Some("Approve Once"));
    assert_eq!(approval_option_label(&vec![json(r#"{"label": "Deny"}"#)]), None);
    assert!(build_tool_input_reply(None, true).is_none());
    assert!(build_tool_input_reply(Some(&json(r#"{"questions": []}"#)), true).is_none());
}

#[test]
fn turns_that_need_input_are_known() {
    assert!(input_required_method("turn/input_required", &json("{}")));
    assert!(!input_required_method("item/started", &json("{}")));
}
