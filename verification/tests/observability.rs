use chrono::{TimeZone, Utc};
use symphony::dashboard::render_dashboard_html;
use symphony::display::strip_ansi_sequences;
use symphony::humanize::{
    limit_number_sources, message_rate_limits, summarize_codex_message, LimitNumbers,
};
use symphony::issue::Issue;
use symphony::json::{parse, to_text, Json};
use symphony::observability::{
    dashboard_url, humanize_blocking_reason, todoist_project_url, AgentLimitsPayload,
    LinksPayload, PresentContext, Presenter, RunningEntryPayload, SnapshotStatus, StatePayload,
    ThroughputPayload, WorkflowPayload,
};
use symphony::orchestrator::{RecentEvent, TokenSnapshot};
use symphony::snapshot::{
    AttemptDetail, IssueDetail, PollingSnapshot, RetryDetail, RetrySnapshot, RunningDetail,
    RunningSnapshot, Snapshot, SnapshotCounts, SnapshotTotals, WorkspaceDetail,
};
use symphony::terminal::{
    format_polling_status, format_retry_row, format_running_row, periodic_rerender_due,
    render_offline_status, render_snapshot_unavailable_status, render_terminal_dashboard,
    state_color, Screen, RUNNING_ID_WIDTH, RUNNING_PID_WIDTH, RUNNING_RUNTIME_WIDTH,
    RUNNING_SESSION_WIDTH, RUNNING_STATE_WIDTH, RUNNING_TOKENS_WIDTH,
};
use symphony::throughput::{sparkline, TokenRate, TokenSamples};
use symphony::tracker::TrackerRateBudget;

fn json(text: &str) -> Json {
    parse(text).expect("json")
}

fn nanos(year: i32, month: u32, day: u32, hour: u32, minute: u32, second: u32) -> i128 {
    let at = Utc.with_ymd_and_hms(year, month, day, hour, minute, second).unwrap();
    i128::from(at.timestamp()) * 1_000_000_000
}

fn no_numbers() -> LimitNumbers {
    LimitNumbers {
        primary_used_percent: None,
        secondary_used_percent: None,
        credits_balance: None,
    }
}

fn summarize(event: Option<&str>, message: Option<&str>) -> Option<String> {
    summarize_codex_message(event, message, &no_numbers())
}

fn summarize_message_payload(payload: &str) -> Option<String> {
    let payload = json(payload);
    let event = payload.get("event").and_then(Json::as_str);
    let message = payload.get("message").map(to_text);
    summarize(event, message.as_deref())
}

fn tokens_per_second(rate: &TokenRate) -> f64 {
    if rate.elapsed_ms <= 0 {
        0.0
    } else {
        rate.tokens as f64 / (rate.elapsed_ms as f64 / 1_000.0)
    }
}

fn tps_graph(samples: &TokenSamples, now_ms: i64, current_tokens: u64) -> String {
    let averages = samples
        .graph_rates(now_ms, current_tokens)
        .iter()
        .map(|rates| {
            if rates.is_empty() {
                0.0
            } else {
                rates.iter().map(tokens_per_second).sum::<f64>() / rates.len() as f64
            }
        })
        .collect::<Vec<_>>();
    let max_tps = averages.iter().copied().fold(0.0f64, f64::max).max(1.0);
    let heights = averages
        .iter()
        .map(|value| ((value / max_tps) * 7.0).round() as usize)
        .collect::<Vec<_>>();
    sparkline(&heights)
}

fn sample_payload() -> StatePayload {
    StatePayload {
        generated_at: nanos(2026, 3, 11, 0, 0, 0),
        snapshot_status: SnapshotStatus::Fresh,
        snapshot_age_ms: None,
        error: None,
        counts: SnapshotCounts { running: 1, retrying: 1 },
        agent_limits: AgentLimitsPayload { max_concurrent_agents: 10 },
        running: vec![RunningEntryPayload {
            issue_id: "issue-123".to_string(),
            issue_identifier: "ABC-123".to_string(),
            title: "Review Todoist-native observability".to_string(),
            state: "In Progress".to_string(),
            url: Some("https://app.todoist.com/app/task/issue-123".to_string()),
            project_url: Some("https://app.todoist.com/app/project/proj".to_string()),
            labels: vec!["frontend".to_string(), "todoist".to_string()],
            due: Some(json(r#"{"date": "2026-03-12", "string": "tomorrow"}"#)),
            deadline: Some(json(r#"{"date": "2026-03-14"}"#)),
            worker_host: Some("ssh-a".to_string()),
            session_id: Some("sess-123".to_string()),
            app_server_pid: Some(4242),
            turn_count: 2,
            last_event: Some("item/tool/requestUserInput".to_string()),
            last_message: Some("tool requires user input: Need approval?".to_string()),
            started_at: nanos(2026, 3, 10, 23, 59, 0),
            last_event_at: Some(nanos(2026, 3, 11, 0, 0, 0)),
            runtime_ms: 60_000,
            workspace: "/tmp/symphony-http-tests/ABC-123".to_string(),
            tokens: TokenSnapshot { input_tokens: 11, output_tokens: 7, total_tokens: 18 },
        }],
        retrying: vec![RetrySnapshot {
            issue_id: "issue-456".to_string(),
            issue_identifier: "ABC-456".to_string(),
            attempt: 2,
            due_at: nanos(2026, 3, 11, 0, 1, 0),
            worker_host: Some("ssh-b".to_string()),
            workspace_location: Some("/srv/symphony/ABC-456".to_string()),
            error: Some("boom".to_string()),
            error_stage: None,
            error_kind: None,
        }],
        codex_totals: SnapshotTotals {
            tokens: TokenSnapshot { input_tokens: 11, output_tokens: 7, total_tokens: 18 },
            running_ms: 12_500,
        },
        rate_limits: Some(json(
            r#"{
                "primary": { "remaining": 10, "limit": 100, "reset_in_seconds": 30 },
                "secondary": { "remaining": 40, "limit": 50, "reset_in_seconds": 12 },
                "credits": { "has_credits": true, "balance": 42.0 }
            }"#,
        )),
        todoist_rate_budget: Some(TrackerRateBudget {
            service: "todoist".to_string(),
            limit: Some(300),
            remaining: Some(24),
            reset_at: Some(nanos(2026, 3, 11, 0, 5, 0)),
            reset_in_seconds: Some(300),
            retry_after_seconds: None,
            throttled_until: None,
            throttled_for_seconds: None,
            next_request_at: Some(nanos(2026, 3, 11, 0, 0, 1)),
            next_request_in_seconds: Some(1),
            observed_at: Some(nanos(2026, 3, 11, 0, 0, 0)),
        }),
        polling: PollingSnapshot {
            checking: false,
            next_poll_in_ms: Some(5_000),
            poll_interval_ms: 5_000,
        },
        workflow: WorkflowPayload {
            path: "/tmp/symphony-http-tests/WORKFLOW.md".to_string(),
            dispatch_status: "ready",
            blocking_reason: None,
            using_last_good: false,
        },
        links: LinksPayload {
            project_url: Some("https://app.todoist.com/app/project/proj".to_string()),
            dashboard_url: Some("http://127.0.0.1:4000/".to_string()),
        },
        throughput: ThroughputPayload {
            tps_5s: "18.2".to_string(),
            graph_10m: "▁▂▃▄▅▆▇█".to_string(),
        },
    }
}

/// The sample as it is sent to the page.
fn sample_state_json() -> &'static str {
    r#"{"generated_at":"2026-03-11T00:00:00Z","running":[{"issue_identifier":"ABC-123","worker_host":"ssh-a"}],"retrying":[{"issue_identifier":"ABC-456","workspace_location":"/srv/symphony/ABC-456"}]}"#
}

#[test]
fn dashboard_url_normalizes_wildcard_hosts() {
    assert_eq!(
        dashboard_url("0.0.0.0", Some(0), Some(43_123)).as_deref(),
        Some("http://127.0.0.1:43123/")
    );
    assert_eq!(
        dashboard_url("::1", Some(4_000), None).as_deref(),
        Some("http://[::1]:4000/")
    );
}

#[test]
fn render_offline_status_marks_app_offline() {
    let rendered = render_offline_status();
    assert!(rendered.contains("app_status=offline"));
}

#[test]
fn summarize_codex_message_humanizes_turn_completed_usage() {
    let message = to_text(&json(
        r#"{
            "method": "turn/completed",
            "params": {
                "turn": { "status": "completed" },
                "usage": {
                    "inputTokens": 12,
                    "outputTokens": 3,
                    "totalTokens": 15
                }
            }
        }"#,
    ));

    assert_eq!(
        summarize(None, Some(&message)).as_deref(),
        Some("turn completed (completed) (in 12, out 3, total 15)")
    );
}

#[test]
fn terminal_dashboard_renders_live_sections() {
    let payload = sample_payload();
    let rendered = render_terminal_dashboard(&payload, &no_numbers(), Some(132), payload.generated_at);
    assert!(rendered.contains("SYMPHONY STATUS"));
    assert!(rendered.contains("Graph: "));
    assert!(rendered.contains("ABC-123"));
    assert!(rendered.contains("Backoff queue"));
    assert!(rendered.contains("Todoist Budget"));
    assert!(rendered.contains("24/300 remaining"));
}

#[test]
fn dashboard_html_bootstraps_sse_without_page_reload() {
    let html = render_dashboard_html(sample_state_json());
    assert!(html.contains("new EventSource('/api/v1/stream')"));
    assert!(html.contains("stream.addEventListener('state', handleStreamPayload);"));
    assert!(html.contains("\"generated_at\":\"2026-03-11T00:00:00Z\""));
    assert!(!html.contains("&quot;generated_at&quot;"));
    assert!(html.contains("window.setInterval(updateRuntimeClocks, 1000)"));
    assert!(!html.contains("window.location.reload"));
    assert!(html.contains("Todoist Budget"));
    assert!(html.contains("todoist-rate-budget-json"));
}

#[test]
fn dashboard_html_mentions_todoist_task_links_and_metadata() {
    let html = render_dashboard_html(sample_state_json());
    assert!(html.contains("Open task"));
    assert!(html.contains("Project board"));
    assert!(html.contains("\"worker_host\":\"ssh-a\""));
    assert!(html.contains("\"workspace_location\":\"/srv/symphony/ABC-456\""));
    assert!(html.contains("Due "));
    assert!(html.contains("Deadline "));
}

#[test]
fn dashboard_html_shows_errors() {
    let html = render_dashboard_html(r#"{"error":{"code":"snapshot_unavailable"}}"#);
    assert!(html.contains("id=\"error-card\""));
    assert!(html.contains("snapshot_unavailable"));
    assert!(html.contains("Todoist Operations Dashboard"));
}

#[test]
fn dashboard_html_keeps_the_state_in_its_element() {
    let html = render_dashboard_html("</script><b>&");
    assert!(html.contains("\\u003c/script\\u003e\\u003cb\\u003e\\u0026"));
    assert!(!html.contains("</script><b>"));
}

#[test]
fn present_issue_detail_includes_todoist_tracked_metadata() {
    let detail = IssueDetail {
        issue_identifier: "TD-123".to_string(),
        issue_id: Some("123".to_string()),
        status: "running".to_string(),
        tracked_issue: Some(Issue {
            id: "123".to_string(),
            identifier: "TD-123".to_string(),
            title: "Ship Todoist-native dashboard".to_string(),
            state: "In Progress".to_string(),
            url: Some("https://app.todoist.com/app/task/123".to_string()),
            labels: vec!["frontend".to_string(), "todoist".to_string()],
            project_id: Some("proj-1".to_string()),
            due: Some(json(r#"{"date": "2026-03-12", "string": "tomorrow"}"#)),
            deadline: Some(json(r#"{"date": "2026-03-14"}"#)),
            ..Issue::default()
        }),
        workspace: WorkspaceDetail {
            path: "/tmp/symphony/TD-123".to_string(),
            worker_host: Some("ssh-a".to_string()),
        },
        attempts: AttemptDetail { restart_count: 0, current_retry_attempt: None },
        running: None,
        retry: None,
        recent_events: Vec::new(),
        last_error: None,
        last_error_stage: None,
        last_error_kind: None,
    };
    let payload = Presenter::present_issue_detail(detail, 0, &no_numbers(), &vec![]);

    let tracked_issue = &payload.tracked_issue;
    assert_eq!(
        tracked_issue.get("title").and_then(Json::as_str),
        Some("Ship Todoist-native dashboard")
    );
    assert_eq!(
        tracked_issue.get("project_url").and_then(Json::as_str),
        Some("https://app.todoist.com/app/project/proj-1")
    );
    assert_eq!(
        tracked_issue
            .get("labels")
            .and_then(Json::as_array)
            .and_then(|labels| labels[0].as_str()),
        Some("frontend")
    );
    assert_eq!(
        tracked_issue.get("due").and_then(|due| due.get("date")).and_then(Json::as_str),
        Some("2026-03-12")
    );
    assert_eq!(payload.workspace.worker_host.as_deref(), Some("ssh-a"));
}

#[test]
fn summarize_codex_message_strips_ansi_and_control_bytes() {
    let payload = "cmd: \u{1b}[31mRED\u{1b}[0m \u{1b}]8;;https://example.com\u{1b}\\Open PR\u{1b}]8;;\u{1b}\\\u{0} after\nline";
    assert_eq!(
        summarize(Some("notification"), Some(payload)).as_deref(),
        Some("cmd: RED Open PR after line")
    );
}

#[test]
fn strip_ansi_sequences_removes_csi_osc_and_single_char_escapes() {
    let payload = "before \u{1b}[31mRED\u{1b}[0m \u{1b}]0;Symphony Dashboard\u{7}\u{1b}]8;;https://example.com\u{1b}\\Open PR\u{1b}]8;;\u{1b}\\ \u{1b}7after";

    assert_eq!(strip_ansi_sequences(payload), "before RED Open PR after");
}

#[test]
fn humanizes_full_codex_event_set() {
    let event_cases = vec![
        (
            r#"{"method": "turn/started", "params": {"turn": {"id": "turn-1"}}}"#,
            "turn started",
        ),
        (
            r#"{"method": "turn/completed", "params": {"turn": {"status": "completed"}}}"#,
            "turn completed",
        ),
        (
            r#"{"method": "turn/diff/updated", "params": {"diff": "line1\nline2"}}"#,
            "turn diff updated",
        ),
        (
            r#"{"method": "turn/plan/updated", "params": {"plan": [{"step":"a"},{"step":"b"}]}}"#,
            "plan updated",
        ),
        (
            r#"{"method": "thread/tokenUsage/updated", "params": {"usage": {"input_tokens": 8, "output_tokens": 3, "total_tokens": 11}}}"#,
            "thread token usage updated",
        ),
        (
            r#"{"method": "item/started", "params": {"item": {"type": "commandExecution", "status": "running"}}}"#,
            "item started: command execution",
        ),
        (
            r#"{"method": "item/completed", "params": {"item": {"type": "fileChange", "status": "completed"}}}"#,
            "item completed: file change",
        ),
        (
            r#"{"method": "item/agentMessage/delta", "params": {"delta": "hello"}}"#,
            "agent message streaming",
        ),
        (
            r#"{"method": "item/plan/delta", "params": {"delta": "step"}}"#,
            "plan streaming",
        ),
        (
            r#"{"method": "item/reasoning/summaryTextDelta", "params": {"summaryText": "thinking"}}"#,
            "reasoning summary streaming",
        ),
        (
            r#"{"method": "item/reasoning/summaryPartAdded", "params": {"summaryText": "section"}}"#,
            "reasoning summary section added",
        ),
        (
            r#"{"method": "item/reasoning/textDelta", "params": {"textDelta": "reason"}}"#,
            "reasoning text streaming",
        ),
        (
            r#"{"method": "item/commandExecution/outputDelta", "params": {"outputDelta": "ok"}}"#,
            "command output streaming",
        ),
        (
            r#"{"method": "item/fileChange/outputDelta", "params": {"outputDelta": "changed"}}"#,
            "file change output streaming",
        ),
        (
            r#"{"method": "item/commandExecution/requestApproval", "params": {"parsedCmd": "git status"}}"#,
            "command approval requested",
        ),
        (
            r#"{"method": "item/fileChange/requestApproval", "params": {"fileChangeCount": 2}}"#,
            "file change approval requested",
        ),
        (
            r#"{"method": "item/tool/call", "params": {"tool": "todoist"}}"#,
            "dynamic tool call requested",
        ),
        (
            r#"{"method": "item/tool/requestUserInput", "params": {"question": "Continue?"}}"#,
            "tool requires user input: Continue?",
        ),
        (
            r#"{"method": "codex/event/exec_command_begin", "params": {"msg": {"command": "git status --short"}}}"#,
            "git status --short",
        ),
        (
            r#"{"method": "codex/event/agent_message_content_delta", "params": {"msg": {"content": "structured update"}}}"#,
            "agent message content streaming",
        ),
    ];

    for (payload, expected_fragment) in event_cases {
        let text = summarize(None, Some(&to_text(&json(payload)))).expect("summary");
        assert!(
            text.contains(expected_fragment),
            "expected {expected_fragment:?} in {text:?}"
        );
    }
}

#[test]
fn humanizes_dynamic_tool_wrapper_events() {
    let completed = r#"{
        "event": "tool_call_completed",
        "message": {
            "payload": {"method": "item/tool/call", "params": {"name": "todoist", "arguments": {"action": "move_task"}}}
        }
    }"#;
    let failed = r#"{
        "event": "tool_call_failed",
        "message": {
            "payload": {"method": "item/tool/call", "params": {"tool": "todoist", "arguments": {"action": "close_task"}}}
        }
    }"#;
    let unsupported = r#"{
        "event": "unsupported_tool_call",
        "message": {
            "payload": {"method": "item/tool/call", "params": {"tool": "unknown_tool"}}
        }
    }"#;

    assert_eq!(
        summarize_message_payload(completed).as_deref(),
        Some("dynamic tool call completed (todoist:move_task)")
    );
    assert_eq!(
        summarize_message_payload(failed).as_deref(),
        Some("dynamic tool call failed (todoist:close_task)")
    );
    assert_eq!(
        summarize_message_payload(unsupported).as_deref(),
        Some("unsupported dynamic tool call rejected (unknown_tool)")
    );
}

#[test]
fn humanizes_nested_codex_payload_envelopes() {
    let wrapped = r#"{
        "event": "notification",
        "message": {
            "payload": {
                "method": "turn/completed",
                "params": {
                    "turn": {"status": "completed"},
                    "usage": {"input_tokens": "10", "output_tokens": 2, "total_tokens": 12}
                }
            },
            "raw": "{\"method\":\"turn/completed\"}"
        }
    }"#;

    let text = summarize_message_payload(wrapped).expect("summary");
    assert!(text.contains("turn completed"));
    assert!(text.contains("in 10"));
}

#[test]
fn uses_shell_command_line_as_exec_command_status_text() {
    let payload = r#"{
        "event": "notification",
        "message": {
            "method": "codex/event/exec_command_begin",
            "params": {"msg": {"command": "git status --short"}}
        }
    }"#;

    assert_eq!(summarize_message_payload(payload).as_deref(), Some("git status --short"));
}

#[test]
fn formats_auto_approval_updates_from_codex() {
    let payload = r#"{
        "event": "approval_auto_approved",
        "message": {
            "payload": {
                "method": "item/commandExecution/requestApproval",
                "params": {"parsedCmd": "cargo test"}
            },
            "decision": "acceptForSession"
        }
    }"#;

    let text = summarize_message_payload(payload).expect("summary");
    assert!(text.contains("command approval requested"));
    assert!(text.contains("auto-approved"));
}

#[test]
fn formats_auto_answered_tool_input_updates_from_codex() {
    let payload = r#"{
        "event": "tool_input_auto_answered",
        "message": {
            "payload": {
                "method": "item/tool/requestUserInput",
                "params": {"question": "Continue?"}
            },
            "answer": "This is a non-interactive session. Operator input is unavailable."
        }
    }"#;

    let text = summarize_message_payload(payload).expect("summary");
    assert!(text.contains("tool requires user input"));
    assert!(text.contains("auto-answered"));
}

#[test]
fn enriches_wrapper_reasoning_and_message_streaming_events_with_payload_context() {
    let reasoning = r#"{
        "event": "notification",
        "message": {
            "method": "codex/event/agent_reasoning",
            "params": {
                "msg": {
                    "payload": {"summaryText": "compare Todoist activity history against workpad state"}
                }
            }
        }
    }"#;
    let message_delta = r#"{
        "event": "notification",
        "message": {
            "method": "codex/event/agent_message_delta",
            "params": {
                "msg": {
                    "payload": {"delta": "refreshing Todoist workpad comment"}
                }
            }
        }
    }"#;
    let fallback_reasoning = r#"{
        "event": "notification",
        "message": {
            "method": "codex/event/agent_reasoning",
            "params": { "msg": {"payload": {}} }
        }
    }"#;

    let reasoning_text = summarize_message_payload(reasoning).expect("summary");
    let message_text = summarize_message_payload(message_delta).expect("summary");
    let fallback_text = summarize_message_payload(fallback_reasoning).expect("summary");

    assert!(reasoning_text
        .contains("reasoning update: compare Todoist activity history against workpad state"));
    assert!(message_text.contains("agent message streaming: refreshing Todoist workpad comment"));
    assert_eq!(fallback_text, "reasoning update");
}

#[test]
fn running_row_expands_to_requested_terminal_width() {
    let entry = sample_payload().running.into_iter().next().expect("entry");
    let running_event_width = 52;
    let row = format_running_row(&entry, running_event_width);
    let plain = strip_ansi_sequences(&row);
    let expected_width = 8
        + RUNNING_ID_WIDTH
        + RUNNING_STATE_WIDTH
        + RUNNING_SESSION_WIDTH
        + RUNNING_PID_WIDTH
        + RUNNING_RUNTIME_WIDTH
        + running_event_width
        + RUNNING_TOKENS_WIDTH;

    assert_eq!(plain.chars().count(), expected_width);
    assert!(plain.contains("tool requires user input"));
}

#[test]
fn running_row_sanitizes_escape_sequences_in_last_message() {
    let mut entry = sample_payload().running.into_iter().next().expect("entry");
    entry.last_message = Some(
        "cmd: \u{1b}[31mRED\u{1b}[0m \u{1b}]8;;https://example.com\u{1b}\\Open PR\u{1b}]8;;\u{1b}\\\u{0} after\nline"
            .to_string(),
    );

    let row = format_running_row(&entry, 52);
    let plain = strip_ansi_sequences(&row);

    assert!(plain.contains("cmd: RED Open PR after line"));
    assert!(!plain.contains('\u{1b}'));
    assert!(!plain.contains('\u{0}'));
}

#[test]
fn tps_graph_matches_steady_throughput_snapshot() {
    let mut samples = TokenSamples::new();
    let now_ms = 600_000;
    let current_tokens = 6_000;
    for timestamp in (0..=575_000).rev().step_by(25_000) {
        samples.capture_token_sample(timestamp, (timestamp / 100) as u64);
    }

    assert_eq!(tps_graph(&samples, now_ms, current_tokens), "████████████████████████");
}

#[test]
fn rates_run_from_the_oldest_sample_of_the_window() {
    let mut samples = TokenSamples::new();
    samples.capture_token_sample(4_999, 7);
    samples.capture_token_sample(6_000, 0);
    samples.capture_token_sample(9_000, 90);
    assert_eq!(tokens_per_second(&samples.rolling_rate(10_000, 100)), 25.0);
    assert_eq!(tokens_per_second(&samples.rolling_rate(14_000, 140)), 10.0);
    let alone = samples.rolling_rate(20_000, 140);
    assert_eq!((alone.tokens, alone.elapsed_ms), (0, 0));
}

#[test]
fn graphs_end_with_the_present() {
    let mut samples = TokenSamples::new();
    samples.capture_token_sample(575_000, 5_750);
    let columns = samples.graph_rates(600_000, 6_000);
    assert_eq!(columns[23].len(), 1);
    assert_eq!((columns[23][0].tokens, columns[23][0].elapsed_ms), (250, 25_000));
    samples.capture_token_sample(600_000, 6_000);
    let columns = samples.graph_rates(600_000, 6_000);
    assert_eq!(columns[23].len(), 2);
    assert_eq!((columns[23][0].tokens, columns[23][0].elapsed_ms), (250, 25_000));
    assert_eq!((columns[23][1].tokens, columns[23][1].elapsed_ms), (0, 0));
}

#[test]
fn computes_rolling_tps_and_stable_graph() {
    let mut samples = TokenSamples::new();
    samples.capture_token_sample(9_000, 20);
    samples.capture_token_sample(9_500, 30);
    assert_eq!(tokens_per_second(&samples.rolling_rate(10_000, 40)), 20.0);

    let mut graph_samples = TokenSamples::new();
    let now_ms = 600_000;
    let mut current_tokens = 0u64;
    for timestamp in (0..=now_ms).step_by(25_000) {
        current_tokens += 500;
        graph_samples.capture_token_sample(timestamp, current_tokens);
    }
    let first = tps_graph(&graph_samples, now_ms, current_tokens);
    let second = tps_graph(&graph_samples, now_ms + 1_000, current_tokens + 20);
    assert_eq!(first.chars().count(), 24);
    assert_eq!(second.chars().count(), 24);
    assert_eq!(
        first.chars().take(23).collect::<String>(),
        second.chars().take(23).collect::<String>()
    );
}

#[test]
fn humanizes_known_blocking_reasons() {
    assert_eq!(
        humanize_blocking_reason("workflow_front_matter_not_a_map"),
        "workflow front matter must decode to a map"
    );
    assert_eq!(
        humanize_blocking_reason("todoist_comments_unavailable"),
        "Todoist comments are unavailable on this account"
    );
    assert_eq!(
        humanize_blocking_reason("todoist_project_not_found proj-123"),
        "configured Todoist project was not found"
    );
}

#[test]
fn terminal_dashboard_skips_non_interactive_sessions() {
    assert!(!Screen::is_shown(true, false));
    assert!(!Screen::is_shown(false, true));
    assert!(Screen::is_shown(true, true));
}

#[test]
fn terminal_dashboard_coalesces_rapid_updates() {
    let ms = 1_000_000;
    let mut screen = Screen::new();
    let mut renders = 0;
    assert!(screen.needs_content(0));
    assert!(screen.needs_drawing("first", 0));
    screen.drawn("first".to_string(), 0);
    renders += 1;
    screen.mark_dirty();
    screen.mark_dirty();
    screen.mark_dirty();
    assert!(screen.needs_content(25 * ms));
    if screen.needs_drawing("second", 25 * ms) {
        screen.drawn("second".to_string(), 25 * ms);
        renders += 1;
    }
    assert!(!screen.needs_content(50 * ms));
    assert_eq!(renders, 2);
}

#[test]
fn idle_screens_are_redrawn_once_a_second() {
    let second = 1_000_000_000;
    assert!(periodic_rerender_due(None, 0));
    assert!(!periodic_rerender_due(Some(second), second + second - 1));
    assert!(periodic_rerender_due(Some(second), second + second));
    assert!(!periodic_rerender_due(Some(second), 0));
    let mut screen = Screen::new();
    screen.drawn("same".to_string(), second);
    assert!(!screen.needs_drawing("same", second + 1));
    assert!(screen.needs_drawing("same", second + second));
    assert!(screen.needs_drawing("other", second + 1));
}

#[test]
fn reasons_that_are_not_known_stand_for_themselves() {
    let known = vec![
        ("todoist_missing_required_section Done", "Todoist workflow is missing a required section"),
        ("todoist_comment_too_large 1", "Todoist workpad comment exceeds the 15,000 character limit"),
        ("todoist_rate_limited", "Todoist rate limit reached; retrying after the server hint"),
        ("todoist_api_status 500", "Todoist API returned a non-success status"),
        ("todoist_api_request x", "Todoist API request failed before a response was received"),
        ("missing_tracker_api_key", "Todoist API token is missing"),
        ("missing_tracker_project_id", "Todoist project id is missing"),
        ("missing_tracker_kind", "tracker kind is missing"),
        ("missing_codex_command", "codex command is missing"),
        ("todoist_missing_current_user", "Todoist current user lookup failed"),
        ("todoist_reminders_unavailable", "Todoist reminders are unavailable on this account"),
        ("todoist_unknown_payload", "Todoist returned an unexpected payload shape"),
        ("something else", "something else"),
    ];
    for (reason, words) in known {
        assert_eq!(humanize_blocking_reason(reason), words);
    }
}

#[test]
fn addresses_are_written_out() {
    assert_eq!(todoist_project_url("p"), "https://app.todoist.com/app/project/p");
    assert_eq!(dashboard_url(" [::] ", Some(80), None).as_deref(), Some("http://127.0.0.1:80/"));
    assert_eq!(dashboard_url("[fe80::1]", Some(80), None).as_deref(), Some("http://[fe80::1]:80/"));
    assert_eq!(dashboard_url("example.org", Some(80), Some(0)), None);
    assert_eq!(dashboard_url("example.org", None, None), None);
}

fn context(validation_error: Option<&str>, dispatch_error: Option<&str>) -> PresentContext {
    PresentContext {
        workflow_path: "WORKFLOW.md".to_string(),
        validation_error: validation_error.map(str::to_string),
        dispatch_error: dispatch_error.map(str::to_string),
        project_id: Some("proj".to_string()),
        server_host: None,
        server_port: Some(4000),
        bound_port: None,
        max_concurrent_agents: 3,
    }
}

fn throughput() -> ThroughputPayload {
    ThroughputPayload { tps_5s: "0.0".to_string(), graph_10m: String::new() }
}

fn sample_snapshot() -> Snapshot {
    Snapshot {
        generated_at: 61_000_000_000,
        counts: SnapshotCounts { running: 1, retrying: 0 },
        running: vec![RunningSnapshot {
            issue_id: "1".to_string(),
            issue_identifier: "A-1".to_string(),
            title: "Title".to_string(),
            state: "Todo".to_string(),
            url: None,
            project_id: Some("proj".to_string()),
            labels: vec![],
            due: None,
            deadline: None,
            worker_host: None,
            session_id: None,
            codex_app_server_pid: None,
            turn_count: 1,
            last_event: Some("notification".to_string()),
            last_message: Some(r#"{"method":"turn/started","params":{}}"#.to_string()),
            started_at: 1_000_000_000,
            last_event_at: None,
            workspace: "/w".to_string(),
            tokens: TokenSnapshot { input_tokens: 1, output_tokens: 2, total_tokens: 3 },
        }],
        retrying: vec![],
        codex_totals: SnapshotTotals {
            tokens: TokenSnapshot { input_tokens: 1, output_tokens: 2, total_tokens: 3 },
            running_ms: 60_000,
        },
        rate_limits: None,
        todoist_rate_budget: None,
        polling: PollingSnapshot { checking: true, next_poll_in_ms: None, poll_interval_ms: 5_000 },
    }
}

#[test]
fn states_are_presented_with_their_links() {
    let payload = Presenter::present_state(
        sample_snapshot(),
        context(None, None),
        &vec![no_numbers()],
        throughput(),
    );
    assert_eq!(payload.workflow.dispatch_status, "ready");
    assert!(!payload.workflow.using_last_good);
    assert_eq!(payload.snapshot_status, SnapshotStatus::Fresh);
    assert_eq!(
        payload.links.project_url.as_deref(),
        Some("https://app.todoist.com/app/project/proj")
    );
    assert_eq!(payload.links.dashboard_url.as_deref(), Some("http://127.0.0.1:4000/"));
    assert_eq!(payload.running[0].runtime_ms, 60_000);
    assert_eq!(payload.running[0].last_message.as_deref(), Some("turn started"));
    assert_eq!(
        payload.running[0].project_url.as_deref(),
        Some("https://app.todoist.com/app/project/proj")
    );
}

#[test]
fn dispatch_is_blocked_by_the_first_reason() {
    let payload = Presenter::present_state(
        sample_snapshot(),
        context(Some("invalid"), Some("not ready")),
        &vec![no_numbers()],
        throughput(),
    );
    assert_eq!(payload.workflow.dispatch_status, "blocked");
    assert_eq!(payload.workflow.blocking_reason.as_deref(), Some("invalid"));
    assert!(payload.workflow.using_last_good);
    let payload = Presenter::present_state(
        sample_snapshot(),
        context(None, Some("not ready")),
        &vec![no_numbers()],
        throughput(),
    );
    assert_eq!(payload.workflow.blocking_reason.as_deref(), Some("not ready"));
    assert!(!payload.workflow.using_last_good);
}

#[test]
fn running_tasks_are_presented_in_detail() {
    let detail = IssueDetail {
        issue_identifier: "A-1".to_string(),
        issue_id: Some("1".to_string()),
        status: "running".to_string(),
        tracked_issue: None,
        workspace: WorkspaceDetail { path: "/w".to_string(), worker_host: None },
        attempts: AttemptDetail { restart_count: 1, current_retry_attempt: Some(2) },
        running: Some(RunningDetail {
            worker_host: None,
            session_id: None,
            codex_app_server_pid: Some(7),
            turn_count: 4,
            state: "Todo".to_string(),
            started_at: 2_000_000_000,
            last_event: Some("turn_completed".to_string()),
            last_message: None,
            last_event_at: None,
            tokens: TokenSnapshot { input_tokens: 0, output_tokens: 0, total_tokens: 0 },
        }),
        retry: Some(RetryDetail {
            attempt: 2,
            due_at: 5,
            worker_host: None,
            workspace_location: None,
            error: Some("boom".to_string()),
            error_stage: None,
            error_kind: None,
        }),
        recent_events: vec![RecentEvent {
            at: 3,
            event: "notification".to_string(),
            message: Some("plain  words".to_string()),
        }],
        last_error: Some("boom".to_string()),
        last_error_stage: None,
        last_error_kind: None,
    };
    let payload =
        Presenter::present_issue_detail(detail, 5_000_000_000, &no_numbers(), &vec![no_numbers()]);
    let running = payload.running.expect("running");
    assert_eq!(running.runtime_ms, 3_000);
    assert_eq!(running.app_server_pid, Some(7));
    assert_eq!(payload.recent_events[0].message.as_deref(), Some("plain words"));
    assert_eq!(payload.retry.expect("retry").error.as_deref(), Some("boom"));
    assert_eq!(payload.attempts.current_retry_attempt, Some(2));
    assert_eq!(to_text(&payload.tracked_issue), "{}");
    assert!(payload.logs.codex_session_logs.is_empty());
}

#[test]
fn presenters_measure_once_a_second() {
    let mut presenter = Presenter::new();
    let first = presenter.measure(&sample_snapshot());
    assert!(first.rate.is_some());
    assert_eq!(first.columns.len(), 24);
    let second = presenter.measure(&sample_snapshot());
    assert!(second.rate.is_none());
    let mut later = sample_snapshot();
    later.generated_at = 62_000_000_000;
    later.codex_totals.tokens.total_tokens = 13;
    let rate = presenter.measure(&later).rate.expect("rate");
    assert_eq!((rate.tokens, rate.elapsed_ms), (10, 1_000));
    assert_eq!(presenter.token_samples.samples.len(), 3);
}

#[test]
fn states_that_cannot_be_had_are_reported() {
    let payload = Presenter::present_snapshot_failure(7, context(None, None), throughput());
    assert_eq!(payload.snapshot_status, SnapshotStatus::Unavailable);
    let error = payload.error.expect("error");
    assert_eq!(error.code, "snapshot_unavailable");
    assert_eq!(error.message, "Orchestrator snapshot unavailable");
    assert_eq!(payload.generated_at, 7);
    assert!(payload.running.is_empty());
}

#[test]
fn the_whole_dashboard_is_drawn() {
    let mut payload = sample_payload();
    payload.rate_limits = None;
    payload.links.dashboard_url = None;
    let plain = strip_ansi_sequences(&render_terminal_dashboard(
        &payload,
        &no_numbers(),
        Some(10),
        payload.generated_at,
    ));
    let lines = plain.lines().collect::<Vec<_>>();
    assert_eq!(lines[0], "╭─ SYMPHONY STATUS");
    assert_eq!(lines[1], "│ Agents: 1/10");
    assert_eq!(lines[2], "│ Throughput: 18.2 tps");
    assert_eq!(lines[3], "│ Runtime: 00:13");
    assert_eq!(lines[4], "│ Tokens: in 11 | out 7 | total 18");
    assert_eq!(lines[5], "│ Codex Limits: n/a");
    assert_eq!(lines[7], "│ Project: https://app.todoist.com/app/project/proj");
    assert_eq!(lines[8], "│ Next refresh: 5s");
    assert_eq!(lines[9], "│ Graph: ▁▂▃▄▅▆▇█");
    assert_eq!(lines[10], "├─ Running");
    assert!(lines[13].starts_with("│ ────────── "));
    assert!(lines[14].starts_with("│ ABC-123    in progress    sess-123       4242     01:00 / 2t"));
    assert_eq!(lines[16], "├─ Backoff queue");
    assert_eq!(
        lines[18],
        "│  ABC-456 attempt=2 worker=ssh-b due_in=60s error=boom"
    );
    assert_eq!(lines[19], "╰─");
    assert_eq!(lines.len(), 20);
}

#[test]
fn empty_lists_are_named() {
    let mut payload = sample_payload();
    payload.running = vec![];
    payload.retrying = vec![];
    let plain = strip_ansi_sequences(&render_terminal_dashboard(
        &payload,
        &no_numbers(),
        None,
        payload.generated_at,
    ));
    assert!(plain.contains("│  No active agents"));
    assert!(plain.contains("│  Retry queue is empty"));
    assert!(render_snapshot_unavailable_status().contains("Orchestrator snapshot unavailable"));
}

#[test]
fn waits_are_rounded_up() {
    let mut entry = sample_payload().retrying.remove(0);
    entry.due_at = 1_000_001_000_000;
    entry.worker_host = None;
    entry.error = None;
    let row = strip_ansi_sequences(&format_retry_row(&entry, 1_000_000_000_000));
    assert_eq!(row, "│  ABC-456 attempt=2 worker=local due_in=1s error=none");
    let row = strip_ansi_sequences(&format_retry_row(&entry, 2_000_000_000_000));
    assert!(row.contains("due_in=0s"));
    let polling = PollingSnapshot { checking: false, next_poll_in_ms: Some(1), poll_interval_ms: 1 };
    assert_eq!(format_polling_status(&polling), "1s");
    let polling = PollingSnapshot { checking: false, next_poll_in_ms: None, poll_interval_ms: 1 };
    assert_eq!(format_polling_status(&polling), "n/a");
    let polling = PollingSnapshot { checking: true, next_poll_in_ms: None, poll_interval_ms: 1 };
    assert_eq!(format_polling_status(&polling), "checking now…");
}

#[test]
fn states_have_their_colours() {
    assert_eq!(state_color("In Progress"), "\u{1b}[32m");
    assert_eq!(state_color("Rework"), "\u{1b}[33m");
    assert_eq!(state_color(" Human Review "), "\u{1b}[35m");
    assert_eq!(state_color("Backlog"), "\u{1b}[34m");
}

#[test]
fn rate_limits_of_messages_are_found() {
    let message = r#"{"method":"account/rateLimits/updated","params":{"rateLimits":{"primary":{"usedPercent":12.5}}}}"#;
    let limits = message_rate_limits(Some(message)).expect("limits");
    let sources = limit_number_sources(&limits);
    assert_eq!(sources.primary_used_percent.as_ref().map(to_text).as_deref(), Some("12.5"));
    assert!(sources.secondary_used_percent.is_none());
    let numbers = LimitNumbers {
        primary_used_percent: Some("12.5".to_string()),
        secondary_used_percent: None,
        credits_balance: None,
    };
    let text = summarize_codex_message(None, Some(message), &numbers).expect("summary");
    assert!(text.contains("12.5"), "{}", text);
    assert!(message_rate_limits(Some("no json")).is_none());
}
