use clap::{Arg, ArgAction, Command};
use symphony::cli::{
    acknowledgement_banner, component_exit_detail, default_workflow_path, next_shutdown_stage,
    require_guardrails_acknowledgement, server_address, startup_summary, workflow_path, Args,
    ShutdownReason, ShutdownStage, StartupSettings, ACKNOWLEDGEMENT_FLAG,
};

fn parse(words: &[&str]) -> Args {
    let matches = Command::new("symphony")
        .arg(
            Arg::new("acknowledge_preview")
                .long(ACKNOWLEDGEMENT_FLAG)
                .action(ArgAction::SetTrue),
        )
        .arg(Arg::new("port").long("port").value_parser(clap::builder::RangedU64ValueParser::<u16>::new()))
        .arg(Arg::new("host").long("host"))
        .arg(Arg::new("logs_root").long("logs-root"))
        .arg(Arg::new("workflow_path").value_name("WORKFLOW.md"))
        .try_get_matches_from(words)
        .expect("args");
    Args {
        acknowledge_preview: matches.get_flag("acknowledge_preview"),
        port: matches.get_one::<u16>("port").copied(),
        host: matches.get_one::<String>("host").cloned(),
        logs_root: matches.get_one::<String>("logs_root").cloned(),
        workflow_path: matches.get_one::<String>("workflow_path").cloned(),
    }
}

#[test]
fn acknowledgement_flag_is_required() {
    let args = parse(&["symphony"]);
    let error = require_guardrails_acknowledgement(&args).expect_err("ack required");
    assert!(error.contains("Codex will run without any guardrails."));
    assert!(error.contains(ACKNOWLEDGEMENT_FLAG));
}

#[test]
fn acknowledgement_flag_allows_startup() {
    let args = parse(&[
        "symphony",
        "--i-understand-that-this-will-be-running-without-the-usual-guardrails",
        "--logs-root",
        "/tmp/logs",
        "./WORKFLOW.md",
    ]);
    assert!(require_guardrails_acknowledgement(&args).is_ok());
    assert_eq!(args.logs_root.as_deref(), Some("/tmp/logs"));
}

#[test]
fn acknowledgement_banner_mentions_flag() {
    let banner = acknowledgement_banner();
    assert!(banner.contains("Symphony Rust is not a supported product"));
    assert!(banner.contains(ACKNOWLEDGEMENT_FLAG));
}

#[test]
fn the_banner_is_a_box() {
    let banner = acknowledgement_banner();
    let rows = banner.lines().collect::<Vec<_>>();
    assert_eq!(rows.len(), 8);
    let width = rows[0].chars().count();
    assert_eq!(width, 111);
    assert!(rows.iter().all(|row| row.chars().count() == width));
    assert!(rows[0].starts_with('╭') && rows[0].ends_with('╮'));
    assert!(rows[7].starts_with('╰') && rows[7].ends_with('╯'));
    assert!(rows[3].starts_with("│ Codex will run without any guardrails.  "));
}

#[test]
fn startup_summary_includes_runtime_context() {
    let settings = StartupSettings {
        tracker_kind: Some("todoist".to_string()),
        tracker_project_id: Some("proj-1".to_string()),
        tracker_label: Some("symphony-live".to_string()),
        tracker_assignee: Some("user-1".to_string()),
        active_states: vec!["Todo".to_string(), "In Progress".to_string()],
        terminal_states: vec!["Canceled".to_string()],
        workspace_root: "/tmp/symphony-workspaces".to_string(),
        polling_interval_ms: 15_000,
        observability_refresh_ms: 1_000,
        observability_render_interval_ms: 16,
        ssh_hosts: vec!["worker-a".to_string(), "worker-b".to_string()],
        max_concurrent_agents: 10,
    };

    let summary = startup_summary(
        "/tmp/symphony/WORKFLOW.live.md",
        &settings,
        "127.0.0.1",
        Some(3000),
    );

    assert!(summary.contains("runtime_start status=initialized"));
    assert!(summary.contains("workflow_path=/tmp/symphony/WORKFLOW.live.md"));
    assert!(summary.contains("tracker_project_id=proj-1"));
    assert!(summary.contains("tracker_label=symphony-live"));
    assert!(summary.contains("active_states=Todo|In Progress"));
    assert!(summary.contains("terminal_states=Canceled"));
    assert!(summary.contains("worker_hosts=worker-a|worker-b"));
    assert!(summary.contains("port=3000"));
}

#[test]
fn settings_that_are_missing_are_named() {
    let settings = StartupSettings {
        tracker_kind: None,
        tracker_project_id: None,
        tracker_label: None,
        tracker_assignee: None,
        active_states: vec![],
        terminal_states: vec![],
        workspace_root: "/w".to_string(),
        polling_interval_ms: 1,
        observability_refresh_ms: 2,
        observability_render_interval_ms: 3,
        ssh_hosts: vec![],
        max_concurrent_agents: 4,
    };
    assert_eq!(
        startup_summary("W", &settings, "h", None),
        "runtime_start status=initialized workflow_path=W tracker_kind=unknown tracker_project_id=n/a tracker_label=none tracker_assignee=none active_states= terminal_states= workspace_root=/w polling_interval_ms=1 observability_refresh_ms=2 observability_render_interval_ms=3 host=h port=disabled worker_hosts=local max_concurrent_agents=4"
    );
}

#[test]
fn default_workflow_path_uses_current_directory() {
    assert_eq!(default_workflow_path(Some("/srv/app")), "/srv/app/WORKFLOW.md");
    assert_eq!(default_workflow_path(Some("/")), "/WORKFLOW.md");
    assert_eq!(default_workflow_path(None), "./WORKFLOW.md");
    assert_eq!(workflow_path(&parse(&["symphony", "a.md"]), Some("/srv")), "a.md");
    assert_eq!(workflow_path(&parse(&["symphony"]), Some("/srv")), "/srv/WORKFLOW.md");
}

#[test]
fn arguments_come_before_the_configuration() {
    let args = parse(&["symphony", "--port", "1", "--host", "a"]);
    assert_eq!(
        server_address(&args, &Some("b".to_string()), Some(2)),
        ("a".to_string(), Some(1))
    );
    let args = parse(&["symphony"]);
    assert_eq!(
        server_address(&args, &Some("b".to_string()), Some(2)),
        ("b".to_string(), Some(2))
    );
    assert_eq!(server_address(&args, &None, None), ("127.0.0.1".to_string(), None));
}

#[test]
fn ends_are_told_where_nobody_asked_for_them() {
    let all = vec![
        (ShutdownReason::Interrupt, "signal", "received_interrupt", None),
        (ShutdownReason::Terminate, "signal", "received_sigterm", None),
        (
            ShutdownReason::InterruptListenerFailed("x".to_string()),
            "signal",
            "x",
            Some("Symphony stopped unexpectedly: interrupt listener failed: x"),
        ),
        (
            ShutdownReason::OrchestratorExited("x".to_string()),
            "orchestrator",
            "x",
            Some("Symphony stopped unexpectedly: orchestrator exited: x"),
        ),
        (
            ShutdownReason::HttpServerExited("x".to_string()),
            "http_server",
            "x",
            Some("Symphony stopped unexpectedly: HTTP server exited: x"),
        ),
        (
            ShutdownReason::WorkflowWatcherExited("x".to_string()),
            "workflow_watcher",
            "x",
            Some("Symphony stopped unexpectedly: workflow watcher exited: x"),
        ),
    ];
    for (reason, component, detail, message) in all {
        assert_eq!(reason.component(), component);
        assert_eq!(reason.detail(), detail);
        assert_eq!(reason.user_message().as_deref(), message);
        assert_eq!(reason.is_unexpected(), message.is_some());
        assert_eq!(reason.outcome().is_err(), message.is_some());
        let status = if message.is_some() { "unexpected" } else { "requested" };
        assert_eq!(
            reason.log_line(),
            format!("runtime_shutdown status={status} component={component} detail={detail}")
        );
    }
    assert_eq!(
        component_exit_detail("HTTP server", Ok(())),
        "HTTP server stopped without an explicit shutdown request"
    );
    assert_eq!(component_exit_detail("HTTP server", Err("x".to_string())), "x");
}

#[test]
fn shutdown_sequence_runs_in_expected_order() {
    let mut stages = vec![];
    let mut last = None;
    while let Some(stage) = next_shutdown_stage(last) {
        stages.push(stage);
        last = Some(stage);
    }
    assert_eq!(
        stages,
        vec![
            ShutdownStage::Terminal,
            ShutdownStage::Http,
            ShutdownStage::Watcher,
            ShutdownStage::Orchestrator,
        ]
    );
}
