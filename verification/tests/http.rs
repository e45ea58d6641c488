use axum::http::StatusCode;
use symphony::http::{
    api_issue, api_method_not_allowed, api_not_found, api_refresh, bind_address,
    state_payload_status, ISSUE_ROUTE,
};
use symphony::json::to_text;
use symphony::observability::{
    AgentLimitsPayload, ErrorPayload, LinksPayload, SnapshotStatus, StatePayload,
    ThroughputPayload, WorkflowPayload,
};
use symphony::orchestrator::{OrchestratorHandleError, TokenSnapshot};
use symphony::snapshot::{PollingSnapshot, SnapshotCounts, SnapshotTotals};

#[test]
fn issue_route_uses_supported_capture_syntax() {
    let _app: axum::Router<()> =
        axum::Router::new().route(ISSUE_ROUTE, axum::routing::get(|| async {}));
}

fn payload(snapshot_status: SnapshotStatus) -> StatePayload {
    StatePayload {
        generated_at: i128::from(chrono::Utc::now().timestamp()) * 1_000_000_000,
        snapshot_status,
        snapshot_age_ms: Some(8_000),
        error: Some(ErrorPayload {
            code: "snapshot_stale",
            message: "Using stale orchestrator snapshot",
        }),
        counts: SnapshotCounts { running: 0, retrying: 0 },
        agent_limits: AgentLimitsPayload { max_concurrent_agents: 1 },
        running: Vec::new(),
        retrying: Vec::new(),
        codex_totals: SnapshotTotals {
            tokens: TokenSnapshot { input_tokens: 0, output_tokens: 0, total_tokens: 0 },
            running_ms: 0,
        },
        rate_limits: None,
        todoist_rate_budget: None,
        polling: PollingSnapshot { checking: true, next_poll_in_ms: None, poll_interval_ms: 5_000 },
        workflow: WorkflowPayload {
            path: "WORKFLOW.md".to_string(),
            dispatch_status: "ready",
            blocking_reason: None,
            using_last_good: false,
        },
        links: LinksPayload { project_url: None, dashboard_url: None },
        throughput: ThroughputPayload { tps_5s: "0.0".to_string(), graph_10m: String::new() },
    }
}

#[test]
fn state_payload_status_keeps_stale_snapshots_on_http_200() {
    assert_eq!(
        state_payload_status(&payload(SnapshotStatus::Stale)),
        StatusCode::OK.as_u16()
    );
}

#[test]
fn states_that_cannot_be_had_are_no_success() {
    assert_eq!(
        state_payload_status(&payload(SnapshotStatus::Unavailable)),
        StatusCode::SERVICE_UNAVAILABLE.as_u16()
    );
    assert_eq!(state_payload_status(&payload(SnapshotStatus::Fresh)), 200);
}

#[test]
fn refused_requests_are_told_why() {
    let reply = api_method_not_allowed();
    assert_eq!(reply.status, StatusCode::METHOD_NOT_ALLOWED.as_u16());
    assert_eq!(
        to_text(&reply.body),
        r#"{"error":{"code":"method_not_allowed","message":"Method not allowed"}}"#
    );
    let reply = api_not_found();
    assert_eq!(reply.status, StatusCode::NOT_FOUND.as_u16());
    assert_eq!(
        to_text(&reply.body),
        r#"{"error":{"code":"not_found","message":"Route not found"}}"#
    );
    let reply = api_issue(Ok(None)).unwrap_err();
    assert_eq!(reply.status, 404);
    assert_eq!(
        to_text(&reply.body),
        r#"{"error":{"code":"issue_not_found","message":"issue not found"}}"#
    );
    let reply = api_issue(Err(OrchestratorHandleError::TimedOut)).unwrap_err();
    assert_eq!(reply.status, 503);
    assert_eq!(
        to_text(&reply.body),
        r#"{"error":{"code":"issue_unavailable","message":"issue detail unavailable"}}"#
    );
    let reply = api_refresh(Err(OrchestratorHandleError::Unavailable)).unwrap_err();
    assert_eq!(reply.status, 503);
    assert_eq!(
        to_text(&reply.body),
        r#"{"error":{"code":"refresh_unavailable","message":"refresh unavailable"}}"#
    );
}

#[test]
fn servers_are_bound_to_a_host_and_a_port() {
    assert_eq!(bind_address("127.0.0.1", 80), "127.0.0.1:80");
}
