use symphony::codex::{CodexError, CodexEvent};
use symphony::issue::Issue;
use symphony::json::{parse, to_text, Json};
use symphony::orchestrator::{
    available_slots, begin_tick, candidate_issue, capture_tracker_rate_budget,
    cleanup_issue_workspace_hosts, end_tick, find_issue, handle_retry_issue, handle_worker_exit,
    integrate_worker_runtime_info, integrate_worker_update, next_attempt_fits, next_attempts_fit,
    next_in_queue, next_version, plan_dispatch, reconcile_stalled_runs, refresh, refresh_runtime_config,
    retry_delay_ms,
    run_tick_step, running_ids, schedule_retry, select_worker_host, should_dispatch_issue,
    sort_issues_for_dispatch, start_dispatch, startup_cleanup_hosts, state_slots_available,
    take_retry, terminate_running_issue, worker_update_fits, DispatchPlan, QueueStep,
    ReconcileAction, Reconciliation, RetryEntry, RetryRequest, RetryStep, RunningEntry,
    RuntimeSettings, SkipReason, State, TickAction, TickEvent, TokenSnapshot, WorkerSelection,
};
use symphony::snapshot::{
    build_issue_detail, build_snapshot, can_build_issue_detail, can_build_snapshot,
    issue_detail_host,
};
use symphony::worker::{
    candidate_worker_hosts, codex_worker_error, finish_worker,
    guarded_close_transition_may_be_in_flight,
    should_cleanup_terminal_workspace_after_guarded_close, todoist_close_task_succeeded,
    tracker_worker_error, workspace_worker_error, FailoverStep, StartupFailover,
    WorkerDisposition, WorkerError, WorkerErrorKind, WorkerErrorStage, WorkerRun, WorkerStep,
};
use symphony::worker_flow::{
    on_after_run, on_before_run, on_failed_start, on_fetch, on_first_fetch, on_removed,
    on_session, on_stopped, on_template, on_tracker, on_turn, on_workspace, start, WorkerFlow,
};

fn json(text: &str) -> Json {
    parse(text).expect("json")
}

fn settings(ssh_hosts: &[&str], per_host: Option<usize>) -> RuntimeSettings {
    RuntimeSettings {
        poll_interval_ms: 5_000,
        max_concurrent_agents: 10,
        max_retry_backoff_ms: 60_000,
        ssh_hosts: ssh_hosts.iter().map(|host| host.to_string()).collect(),
        max_concurrent_agents_per_host: per_host,
    }
}

fn empty_state() -> State {
    State::start(&settings(&[], None), "config".to_string(), None)
}

fn states(names: &[&str]) -> Vec<String> {
    names.iter().map(|name| name.to_string()).collect()
}

fn issue(id: &str, identifier: &str, state: &str) -> Issue {
    Issue {
        id: id.to_string(),
        identifier: identifier.to_string(),
        title: "Title".to_string(),
        state: state.to_string(),
        assigned_to_worker: true,
        ..Issue::default()
    }
}

fn no_tokens() -> TokenSnapshot {
    TokenSnapshot { input_tokens: 0, output_tokens: 0, total_tokens: 0 }
}

fn running_entry(issue: Issue, workspace: &str, worker_host: Option<&str>) -> RunningEntry {
    RunningEntry {
        identifier: issue.identifier.clone(),
        issue,
        workspace_path: workspace.to_string(),
        workspace_location: workspace.to_string(),
        worker_host: worker_host.map(str::to_string),
        session_id: None,
        last_codex_message: None,
        last_codex_event: None,
        last_codex_timestamp: None,
        codex_app_server_pid: None,
        codex_tokens: no_tokens(),
        last_reported_tokens: no_tokens(),
        turn_count: 0,
        retry_attempt: 0,
        started_at: 0,
        terminal_transition_permitted: false,
        recent_events: Vec::new(),
    }
}

fn retry_entry(identifier: &str, tracked_issue: Option<Issue>) -> RetryEntry {
    RetryEntry {
        attempt: 2,
        due_at: 30_000_000_000,
        identifier: identifier.to_string(),
        tracked_issue,
        worker_host: None,
        workspace_location: None,
        error: None,
        error_stage: None,
        error_kind: None,
    }
}

#[test]
fn sorts_issues_by_priority_then_created_at() {
    let now = 1_000_000_000;
    let issues = vec![
        Issue {
            id: "2".to_string(),
            identifier: "B".to_string(),
            title: "b".to_string(),
            state: "Todo".to_string(),
            priority: Some(2),
            created_at: Some(now),
            ..Issue::default()
        },
        Issue {
            id: "1".to_string(),
            identifier: "A".to_string(),
            title: "a".to_string(),
            state: "Todo".to_string(),
            priority: Some(1),
            created_at: Some(now + 1_000_000_000),
            ..Issue::default()
        },
    ];

    let issues = sort_issues_for_dispatch(issues);
    assert_eq!(issues[0].id, "1");
}

#[test]
fn todo_issue_with_required_fields_is_a_candidate() {
    let issue = Issue {
        id: "1".to_string(),
        identifier: "A".to_string(),
        title: "a".to_string(),
        state: "Todo".to_string(),
        ..Issue::default()
    };

    assert!(candidate_issue(&issue, &states(&["todo"]), &states(&["done"])));
}

#[test]
fn snapshot_reports_counts() {
    let state = empty_state();
    assert!(can_build_snapshot(&state, 0, 0));
    let snapshot = build_snapshot(&state, 0, 0);
    assert_eq!(snapshot.counts.running, 0);
    assert_eq!(snapshot.counts.retrying, 0);
}

#[test]
fn worker_host_selection_prefers_least_loaded_host_and_honors_affinity() {
    let mut state = empty_state();
    refresh_runtime_config(&mut state, &settings(&["ssh-a", "ssh-b"], Some(2)));
    state.running.insert(
        "issue-1".to_string(),
        running_entry(issue("issue-1", "ABC-1", "In Progress"), "/tmp/workspace-a", Some("ssh-a")),
    );

    assert!(matches!(
        select_worker_host(&state, &None),
        WorkerSelection::Remote(host) if host == "ssh-b"
    ));
    assert!(matches!(
        select_worker_host(&state, &Some("ssh-a".to_string())),
        WorkerSelection::Remote(host) if host == "ssh-a"
    ));

    state.running.insert(
        "issue-2".to_string(),
        running_entry(issue("issue-2", "ABC-2", "In Progress"), "/tmp/workspace-a-2", Some("ssh-a")),
    );

    assert!(matches!(
        select_worker_host(&state, &Some("ssh-a".to_string())),
        WorkerSelection::Remote(host) if host == "ssh-b"
    ));
}

#[test]
fn candidate_worker_hosts_prefers_affinity_then_remaining_hosts() {
    let hosts = states(&["ssh-a", "ssh-b", "ssh-a"]);

    assert_eq!(
        candidate_worker_hosts(&hosts, &Some("ssh-b".to_string())),
        vec![Some("ssh-b".to_string()), Some("ssh-a".to_string())]
    );
    assert_eq!(
        candidate_worker_hosts(&hosts, &None),
        vec![Some("ssh-a".to_string()), Some("ssh-b".to_string())]
    );
    assert_eq!(candidate_worker_hosts(&vec![], &None), vec![None]);
}

#[test]
fn startup_host_failover_tries_next_worker_host() {
    let mut attempts = Vec::new();
    let (mut failover, mut step) =
        StartupFailover::new(vec![Some("ssh-a".to_string()), Some("ssh-b".to_string())]).first();
    let started = loop {
        match step {
            FailoverStep::Try(host) => {
                attempts.push(host.as_deref().unwrap_or("local").to_string());
                if host.as_deref() != Some("ssh-a") {
                    break host;
                }
                let error = WorkerError::new(
                    WorkerErrorStage::SessionStart,
                    WorkerErrorKind::SessionFailure,
                    Some("ssh-a".to_string()),
                    "ssh-a unavailable".to_string(),
                );
                let (next, following) = failover.failed(error);
                failover = next.expect("another host");
                step = following;
            }
            FailoverStep::GiveUp(error) => panic!("unexpected {error:?}"),
        }
    };

    assert_eq!(started.as_deref(), Some("ssh-b"));
    assert_eq!(attempts, vec!["ssh-a".to_string(), "ssh-b".to_string()]);
}

#[test]
fn failover_gives_up_after_the_last_host() {
    let (failover, _) = StartupFailover::new(vec![Some("ssh-a".to_string())]).first();
    let error = WorkerError::new(
        WorkerErrorStage::SessionStart,
        WorkerErrorKind::SessionFailure,
        Some("ssh-a".to_string()),
        "down".to_string(),
    );
    match failover.failed(error) {
        (None, FailoverStep::GiveUp(error)) => {
            assert_eq!(error.kind, WorkerErrorKind::StartupFailoverExhausted);
            assert!(error.message.contains("down"), "{}", error.message);
        }
        other => panic!("unexpected {other:?}"),
    }
    let (failover, _) = StartupFailover::new(vec![Some("a".to_string()), Some("b".to_string())]).first();
    let error = WorkerError::new(
        WorkerErrorStage::TurnRun,
        WorkerErrorKind::TurnFailure,
        None,
        "late".to_string(),
    );
    assert!(matches!(failover.failed(error), (None, FailoverStep::GiveUp(error)) if error.message.contains("late")));
}

#[test]
fn integrate_worker_runtime_info_updates_host_and_workspace() {
    let mut state = empty_state();
    state.running.insert(
        "issue-1".to_string(),
        running_entry(issue("issue-1", "ABC-1", "In Progress"), "/tmp/original", Some("ssh-a")),
    );

    integrate_worker_runtime_info(
        &mut state,
        "issue-1",
        Some("ssh-b".to_string()),
        "/srv/symphony/ABC-1".to_string(),
        "/srv/symphony/ABC-1".to_string(),
    );

    let running = state.running.get("issue-1").expect("running entry");
    assert_eq!(running.worker_host.as_deref(), Some("ssh-b"));
    assert_eq!(running.workspace_path, "/srv/symphony/ABC-1");
    assert_eq!(running.workspace_location, "/srv/symphony/ABC-1");
}

#[test]
fn snapshot_includes_worker_host_and_workspace_affinity() {
    let mut state = empty_state();
    let mut entry =
        running_entry(issue("issue-1", "ABC-1", "In Progress"), "/tmp/workspace-a", Some("ssh-a"));
    entry.workspace_location = "/srv/symphony/ABC-1".to_string();
    state.running.insert("issue-1".to_string(), entry);
    state.retry_attempts.insert(
        "issue-2".to_string(),
        RetryEntry {
            worker_host: Some("ssh-b".to_string()),
            workspace_location: Some("/srv/symphony/ABC-2".to_string()),
            error: Some("boom".to_string()),
            ..retry_entry("ABC-2", None)
        },
    );

    assert!(can_build_snapshot(&state, 1_000_000_007, 0));
    let snapshot = build_snapshot(&state, 1_000_000_007, 0);
    assert_eq!(snapshot.running[0].worker_host.as_deref(), Some("ssh-a"));
    assert_eq!(snapshot.running[0].workspace, "/srv/symphony/ABC-1");
    assert_eq!(snapshot.retrying[0].worker_host.as_deref(), Some("ssh-b"));
    assert_eq!(
        snapshot.retrying[0].workspace_location.as_deref(),
        Some("/srv/symphony/ABC-2")
    );
    assert_eq!(snapshot.retrying[0].due_at, 31_000_000_007);
    assert_eq!(snapshot.codex_totals.running_ms, 1_000);
}

#[test]
fn detects_guarded_todoist_close_task_events() {
    let payload = json(
        r#"{
            "params": {
                "name": "todoist",
                "arguments": {
                    "action": "close_task",
                    "task_id": "task-1"
                }
            },
            "toolResult": {
                "success": true
            }
        }"#,
    );

    assert!(todoist_close_task_succeeded(Some(&payload), "task-1"));
    assert!(!todoist_close_task_succeeded(Some(&payload), "task-2"));
    assert!(!todoist_close_task_succeeded(None, "task-1"));
}

#[test]
fn guarded_close_cleanup_only_triggers_for_terminal_or_missing_issue_state() {
    let terminal_states = states(&["done"]);
    let done_issue = Issue { state: "Done".to_string(), ..Issue::default() };
    let merging_issue = Issue { state: "Merging".to_string(), ..Issue::default() };

    assert!(should_cleanup_terminal_workspace_after_guarded_close(
        true,
        Some(&done_issue),
        &terminal_states,
    ));
    assert!(should_cleanup_terminal_workspace_after_guarded_close(
        true,
        None,
        &terminal_states,
    ));
    assert!(!should_cleanup_terminal_workspace_after_guarded_close(
        true,
        Some(&merging_issue),
        &terminal_states,
    ));
    assert!(!should_cleanup_terminal_workspace_after_guarded_close(
        false,
        Some(&done_issue),
        &terminal_states,
    ));
}

#[test]
fn merging_state_is_treated_as_a_possible_guarded_close_in_flight() {
    let merging_issue = Issue { state: "Merging".to_string(), ..Issue::default() };
    let review_issue = Issue { state: "Human Review".to_string(), ..Issue::default() };

    assert!(guarded_close_transition_may_be_in_flight(&merging_issue));
    assert!(!guarded_close_transition_may_be_in_flight(&review_issue));
}

fn reconcile(state: &mut State, issues: Vec<Issue>, restored: bool) -> Vec<String> {
    let active = states(&["todo", "in progress"]);
    let terminal = states(&["cancelled"]);
    let ids = running_ids(state);
    let mut reconciliation = Reconciliation::begin(&ids, issues);
    let mut told = Vec::new();
    loop {
        match reconciliation.step(state, &active, &terminal, restored, 0) {
            ReconcileAction::Restore(issue) => told.push(format!("restore {}", issue.id)),
            ReconcileAction::Stop(stopped) => {
                told.push(format!("stop {} {}", stopped.issue_id, stopped.cleanup_workspace))
            }
            ReconcileAction::Next => {}
            ReconcileAction::Done => return told,
        }
    }
}

#[test]
fn active_rerouted_issue_stops_running_agent() {
    let mut state = empty_state();
    let running = issue("1", "ABC-1", "In Progress");
    state.running.insert("1".to_string(), running_entry(running.copy(), "/tmp/workspace", None));
    state.claimed.insert("1".to_string(), ());

    let rerouted = Issue {
        assigned_to_worker: false,
        assignee_id: Some("user-2".to_string()),
        ..running
    };
    assert!(reconcile_stalled_runs(&mut state, 300_000, 0, 0).is_empty());
    assert_eq!(reconcile(&mut state, vec![rerouted], false), vec!["stop 1 false".to_string()]);

    assert_eq!(state.running.len(), 0);
    assert!(!state.claimed.contains_key("1"));
}

#[test]
fn finished_tasks_are_stopped_with_their_workspace() {
    let mut state = empty_state();
    state.running.insert(
        "1".to_string(),
        running_entry(issue("1", "ABC-1", "In Progress"), "/tmp/workspace", None),
    );
    state.claimed.insert("1".to_string(), ());
    let told = reconcile(&mut state, vec![issue("1", "ABC-1", "Cancelled")], false);
    assert_eq!(told, vec!["restore 1".to_string(), "stop 1 true".to_string()]);
    assert_eq!(state.running.len(), 0);
}

#[test]
fn finished_tasks_that_are_made_active_again_run_on() {
    let mut state = empty_state();
    state.running.insert(
        "1".to_string(),
        running_entry(issue("1", "ABC-1", "In Progress"), "/tmp/workspace", None),
    );
    let told = reconcile(&mut state, vec![issue("1", "ABC-1", "Cancelled")], true);
    assert_eq!(told, vec!["restore 1".to_string()]);
    assert_eq!(state.running.len(), 1);
}

#[test]
fn terminal_retry_issue_cleans_up_workspace() {
    let finished = issue("1", "ABC-1", "Done");
    let mut state = empty_state();
    state.claimed.insert("1".to_string(), ());
    state.retry_attempts.insert(
        "1".to_string(),
        RetryEntry {
            attempt: 1,
            workspace_location: Some("/tmp/ABC-1".to_string()),
            ..retry_entry("ABC-1", Some(finished.copy()))
        },
    );

    let entry = take_retry(&mut state, "1").expect("retry entry");
    let polled = find_issue(vec![finished], "1");
    match handle_retry_issue(
        &mut state,
        "1",
        entry,
        Ok(polled),
        10,
        &states(&["todo", "in progress"]),
        &states(&["done"]),
        &vec![],
        0,
    ) {
        RetryStep::Cleanup { issue, hosts } => {
            assert_eq!(issue.identifier, "ABC-1");
            assert_eq!(hosts, vec![None]);
        }
        other => panic!("unexpected {other:?}"),
    }
    assert!(!state.claimed.contains_key("1"));
}

#[test]
fn retries_are_dispatched_or_tried_again() {
    let active = states(&["todo"]);
    let terminal = states(&["done"]);
    let mut state = empty_state();
    state.claimed.insert("1".to_string(), ());
    let entry = RetryEntry {
        worker_host: Some("ssh-a".to_string()),
        ..retry_entry("ABC-1", None)
    };
    match handle_retry_issue(
        &mut state,
        "1",
        entry,
        Ok(Some(issue("1", "ABC-1", "Todo"))),
        10,
        &active,
        &terminal,
        &vec![],
        0,
    ) {
        RetryStep::Dispatch { issue, attempt, preferred_worker_host } => {
            assert_eq!(issue.id, "1");
            assert_eq!(attempt, 2);
            assert_eq!(preferred_worker_host.as_deref(), Some("ssh-a"));
        }
        other => panic!("unexpected {other:?}"),
    }
    match handle_retry_issue(
        &mut state,
        "1",
        retry_entry("ABC-1", None),
        Err("offline".to_string()),
        10,
        &active,
        &terminal,
        &vec![],
        0,
    ) {
        RetryStep::Requeued(timer) => assert_eq!(timer.issue_id, "1"),
        other => panic!("unexpected {other:?}"),
    }
    let requeued = state.retry_attempts.get("1").expect("entry");
    assert_eq!(requeued.attempt, 3);
    assert!(requeued.error.as_deref().is_some_and(|error| error.contains("offline")));
    assert!(matches!(
        handle_retry_issue(
            &mut state,
            "1",
            retry_entry("ABC-1", None),
            Ok(None),
            10,
            &active,
            &terminal,
            &vec![],
            0,
        ),
        RetryStep::Released
    ));
    assert!(!state.claimed.contains_key("1"));
}

#[test]
fn issue_detail_includes_retry_issue_id() {
    let mut state = empty_state();
    state.retry_attempts.insert(
        "issue-1".to_string(),
        RetryEntry {
            attempt: 2,
            due_at: 0,
            identifier: "ABC-1".to_string(),
            tracked_issue: Some(Issue {
                id: "issue-1".to_string(),
                identifier: "ABC-1".to_string(),
                title: "Retry me".to_string(),
                state: "Rework".to_string(),
                labels: vec!["backend".to_string()],
                url: Some("https://app.todoist.com/app/task/issue-1".to_string()),
                project_id: Some("proj-1".to_string()),
                ..Issue::default()
            }),
            worker_host: Some("ssh-a".to_string()),
            workspace_location: Some("/srv/symphony/ABC-1".to_string()),
            error: Some("boom".to_string()),
            error_stage: Some("session_start".to_string()),
            error_kind: Some("session_failure".to_string()),
        },
    );

    assert_eq!(issue_detail_host(&state, "ABC-1").as_deref(), Some("ssh-a"));
    let detail =
        build_issue_detail(&state, "ABC-1", "/tmp/symphony-tests/ABC-1", 0, 0).expect("detail");
    assert_eq!(detail.issue_id.as_deref(), Some("issue-1"));
    assert_eq!(
        detail.tracked_issue.as_ref().and_then(|issue| issue.project_id.as_deref()),
        Some("proj-1")
    );
    assert_eq!(detail.workspace.worker_host.as_deref(), Some("ssh-a"));
    assert_eq!(detail.workspace.path, "/srv/symphony/ABC-1");
    assert_eq!(detail.last_error_stage.as_deref(), Some("session_start"));
    assert_eq!(detail.last_error_kind.as_deref(), Some("session_failure"));
    assert!(build_issue_detail(&state, "ABC-9", "/tmp", 0, 0).is_none());
    state.retry_attempts.insert(
        "9".to_string(),
        RetryEntry { due_at: u128::MAX, ..retry_entry("ABC-8", None) },
    );
    assert!(!can_build_snapshot(&state, 0, 0));
    assert!(can_build_issue_detail(&state, "ABC-1", 0, 0));
    assert!(!can_build_issue_detail(&state, "ABC-8", 0, 0));
}

fn state_with_run(run: &Issue, worker_host: Option<&str>) -> State {
    let mut state = empty_state();
    let mut entry = running_entry(run.copy(), "/tmp/workspace", worker_host);
    entry.session_id = Some("session-1".to_string());
    entry.turn_count = 1;
    state.running.insert(run.id.clone(), entry);
    state.claimed.insert(run.id.clone(), ());
    state
}

#[test]
fn quiesced_worker_exit_clears_claim_without_retry() {
    let run = Issue { title: "Review ready".to_string(), ..issue("issue-1", "ABC-1", "In Progress") };
    let mut state = state_with_run(&run, None);
    let quiesced = Issue { state: "Human Review".to_string(), ..run.copy() };

    assert!(next_attempt_fits(&state, "issue-1"));
    let timer = handle_worker_exit(
        &mut state,
        "issue-1",
        Ok(WorkerDisposition::Quiesced { issue: Some(quiesced) }),
        0,
        0,
    );

    assert!(timer.is_none());
    assert!(!state.claimed.contains_key("issue-1"));
    assert!(!state.retry_attempts.contains_key("issue-1"));
    assert_eq!(state.running.len(), 0);
}

#[test]
fn continuation_retry_tracks_latest_issue_state() {
    let run = Issue { title: "Merge ready".to_string(), ..issue("issue-1", "ABC-1", "In Progress") };
    let mut state = state_with_run(&run, Some("ssh-a"));
    let continued = Issue { state: "Merging".to_string(), ..run.copy() };

    let timer = handle_worker_exit(
        &mut state,
        "issue-1",
        Ok(WorkerDisposition::Continue { issue: continued }),
        0,
        0,
    )
    .expect("timer");

    assert_eq!(timer.delay_ms, 1_000);
    let retry = state
        .retry_attempts
        .get("issue-1")
        .expect("continuation retry should be queued");
    assert_eq!(
        retry.tracked_issue.as_ref().map(|issue| issue.state.as_str()),
        Some("Merging")
    );
    assert_eq!(retry.worker_host.as_deref(), Some("ssh-a"));
}

#[test]
fn worker_failure_retry_captures_structured_error_fields() {
    let run = Issue { title: "Retry me".to_string(), ..issue("issue-1", "ABC-1", "In Progress") };
    let mut state = state_with_run(&run, Some("ssh-a"));
    handle_worker_exit(
        &mut state,
        "issue-1",
        Err(WorkerError::new(
            WorkerErrorStage::SessionStart,
            WorkerErrorKind::SessionFailure,
            Some("ssh-a".to_string()),
            "ssh died".to_string(),
        )),
        0,
        0,
    );

    let retry = state.retry_attempts.get("issue-1").expect("retry should be queued");
    assert_eq!(retry.error_stage.as_deref(), Some("session_start"));
    assert_eq!(retry.error_kind.as_deref(), Some("session_failure"));
    assert!(retry.error.as_deref().is_some_and(|error| error.contains("ssh died")));
    assert!(state.claimed.contains_key("issue-1"));
}

#[test]
fn dispatch_issue_clears_claim_when_revalidate_fails_before_start() {
    let mut state = empty_state();
    state.claimed.insert("issue-1".to_string(), ());

    let plan = plan_dispatch(
        &mut state,
        "issue-1",
        Err("missing_tracker_api_key".to_string()),
        &None,
        &states(&["todo"]),
        &states(&["done"]),
    );

    assert!(matches!(plan, DispatchPlan::Skip(SkipReason::TrackerFailed(_))));
    assert!(
        !state.claimed.contains_key("issue-1"),
        "dispatch should release the claim when it cannot start a worker"
    );
    assert!(!state.running.contains_key("issue-1"));
}

#[test]
fn dispatch_starts_workers_on_fresh_tasks() {
    let active = states(&["todo"]);
    let terminal = states(&["done"]);
    let mut state = empty_state();
    match plan_dispatch(
        &mut state,
        "1",
        Ok(vec![issue("1", "ABC-1", "Todo")]),
        &None,
        &active,
        &terminal,
    ) {
        DispatchPlan::Start { issue, worker_host } => {
            assert_eq!(worker_host, None);
            start_dispatch(&mut state, issue, Some(3), worker_host, "/w/ABC-1".to_string(), 7);
        }
        other => panic!("unexpected {other:?}"),
    }
    let running = state.running.get("1").expect("running");
    assert_eq!(running.retry_attempt, 3);
    assert_eq!(running.started_at, 7);
    assert!(state.claimed.contains_key("1"));
    assert_eq!(available_slots(&state), 9);
    assert!(matches!(
        plan_dispatch(&mut state, "2", Ok(vec![]), &None, &active, &terminal),
        DispatchPlan::Skip(SkipReason::MissingAfterRevalidate)
    ));
    assert!(matches!(
        plan_dispatch(
            &mut state,
            "2",
            Ok(vec![issue("2", "ABC-2", "Done")]),
            &None,
            &active,
            &terminal
        ),
        DispatchPlan::Skip(SkipReason::StaleCandidate)
    ));
    state.worker_runtime.ssh_hosts = states(&["ssh-a"]);
    state.worker_runtime.max_concurrent_agents_per_host = Some(0);
    assert!(matches!(
        plan_dispatch(
            &mut state,
            "2",
            Ok(vec![issue("2", "ABC-2", "Todo")]),
            &None,
            &active,
            &terminal
        ),
        DispatchPlan::Skip(SkipReason::NoWorkerCapacity)
    ));
}

#[test]
fn startup_cleanup_skips_local_workspace_sweep_when_remote_workers_are_configured() {
    assert_eq!(
        startup_cleanup_hosts(&states(&["ssh-a", "ssh-b"])),
        vec![Some("ssh-a".to_string()), Some("ssh-b".to_string())]
    );
    assert_eq!(startup_cleanup_hosts(&vec![]), vec![None]);
    assert_eq!(
        cleanup_issue_workspace_hosts(&Some("ssh-a".to_string()), true, &states(&["ssh-b"])),
        vec![Some("ssh-a".to_string())]
    );
}

#[test]
fn run_tick_reuses_startup_validation_and_shared_tracker_metadata_when_config_is_unchanged() {
    let mut state = empty_state();
    state.validated_startup_config = None;
    let mut validations = 0;
    for _ in 0..2 {
        begin_tick(&mut state, &settings(&[], None));
        assert!(state.poll_check_in_progress);
        let mut action = run_tick_step(&mut state, "config", TickEvent::Workflow(None));
        loop {
            let event = match action {
                TickAction::CheckConfig => TickEvent::Config(Ok(())),
                TickAction::BuildTracker => TickEvent::Tracker(Ok(())),
                TickAction::ValidateStartup => {
                    validations += 1;
                    TickEvent::Validated(Ok(()))
                }
                TickAction::FetchCandidates => {
                    TickEvent::Candidates(Ok(vec![issue("1", "A", "Todo")]))
                }
                TickAction::Dispatch(issues) => {
                    assert_eq!(issues.len(), 1);
                    break;
                }
                TickAction::Finish(reason) => panic!("unexpected {reason:?}"),
            };
            action = run_tick_step(&mut state, "config", event);
        }
        assert_eq!(end_tick(&mut state, 0), 5_000);
        assert!(!state.poll_check_in_progress);
    }
    assert_eq!(validations, 1);
    assert_eq!(state.validated_startup_config.as_deref(), Some("config"));
}

#[test]
fn workflow_reload_updates_validated_config_without_refetching_unrelated_metadata() {
    let mut state = empty_state();
    assert!(matches!(
        run_tick_step(&mut state, "other", TickEvent::Tracker(Ok(()))),
        TickAction::ValidateStartup
    ));
    assert!(matches!(
        run_tick_step(&mut state, "other", TickEvent::Validated(Ok(()))),
        TickAction::FetchCandidates
    ));
    assert_eq!(state.validated_startup_config.as_deref(), Some("other"));
    assert!(matches!(
        run_tick_step(&mut state, "other", TickEvent::Tracker(Ok(()))),
        TickAction::FetchCandidates
    ));
}

#[test]
fn ticks_end_where_something_is_amiss() {
    let mut state = empty_state();
    let ends = |action: TickAction| matches!(action, TickAction::Finish(Some(_)));
    assert!(ends(run_tick_step(&mut state, "c", TickEvent::Workflow(Some("bad".to_string())))));
    assert!(ends(run_tick_step(&mut state, "c", TickEvent::Config(Err("bad".to_string())))));
    assert!(ends(run_tick_step(&mut state, "c", TickEvent::Tracker(Err("bad".to_string())))));
    assert!(ends(run_tick_step(&mut state, "c", TickEvent::Validated(Err("bad".to_string())))));
    assert!(ends(run_tick_step(&mut state, "c", TickEvent::Candidates(Err("bad".to_string())))));
    assert_eq!(state.validated_startup_config.as_deref(), Some("config"));
}

#[test]
fn queues_stop_where_no_slot_is_left() {
    let active = states(&["todo"]);
    let terminal = states(&["done"]);
    let mut state = empty_state();
    assert_eq!(
        next_in_queue(&state, 10, &issue("1", "A", "Todo"), &active, &terminal),
        QueueStep::Dispatch
    );
    assert_eq!(
        next_in_queue(&state, 10, &issue("1", "A", "Done"), &active, &terminal),
        QueueStep::Skip
    );
    state.claimed.insert("1".to_string(), ());
    assert!(!should_dispatch_issue(&state, 10, &issue("1", "A", "Todo"), &active, &terminal));
    state.max_concurrent_agents = 0;
    assert_eq!(
        next_in_queue(&state, 10, &issue("2", "A", "Todo"), &active, &terminal),
        QueueStep::Stop
    );
    assert!(!state_slots_available(&state, 0, &issue("2", "A", "Todo")));
}

#[test]
fn delays_grow_up_to_their_bound() {
    assert_eq!(retry_delay_ms(1, true, 60_000), 1_000);
    assert_eq!(retry_delay_ms(1, false, 60_000), 10_000);
    assert_eq!(retry_delay_ms(2, false, 60_000), 20_000);
    assert_eq!(retry_delay_ms(3, false, 60_000), 40_000);
    assert_eq!(retry_delay_ms(4, false, 60_000), 60_000);
    assert_eq!(retry_delay_ms(u32::MAX, false, 300_000), 300_000);
}

#[test]
fn retries_replace_each_other() {
    let mut state = empty_state();
    let request = |attempt: u32| RetryRequest {
        issue_id: "1".to_string(),
        attempt,
        identifier: "A".to_string(),
        tracked_issue: None,
        worker_host: None,
        workspace_location: None,
        error: None,
        error_stage: None,
        error_kind: None,
        continuation: false,
    };
    let timer = schedule_retry(&mut state, request(1), 5);
    assert!(!timer.replaces);
    assert_eq!(timer.delay_ms, 10_000);
    assert_eq!(state.retry_attempts.get("1").expect("entry").due_at, 10_000_000_005);
    assert!(schedule_retry(&mut state, request(2), 5).replaces);
    assert_eq!(take_retry(&mut state, "1").expect("entry").attempt, 2);
    assert!(take_retry(&mut state, "1").is_none());
}

fn usage_event(timestamp: i128, total: u64) -> CodexEvent {
    CodexEvent {
        event: "notification".to_string(),
        timestamp,
        worker_host: None,
        session_id: Some("s-1".to_string()),
        thread_id: None,
        turn_id: None,
        codex_app_server_pid: Some(9),
        usage: Some(json(&format!(
            r#"{{"input_tokens": {total}, "output_tokens": 0, "total_tokens": {total}}}"#
        ))),
        rate_limits: Some(json(r#"{"primary": {"usedPercent": 1}}"#)),
        payload: None,
        raw: Some("raw".to_string()),
        message: None,
    }
}

#[test]
fn reports_are_charged_once() {
    let run = issue("1", "A", "Todo");
    let mut state = state_with_run(&run, None);
    for (timestamp, total) in [(1, 10), (2, 10), (3, 25)] {
        let event = usage_event(timestamp, total);
        assert!(worker_update_fits(&state, "1", &event));
        integrate_worker_update(&mut state, "1", event);
    }
    assert_eq!(state.codex_totals.tokens.total_tokens, 25);
    let running = state.running.get("1").expect("running");
    assert_eq!(running.codex_tokens.total_tokens, 25);
    assert_eq!(running.codex_app_server_pid, Some(9));
    assert_eq!(running.last_codex_timestamp, Some(3));
    assert_eq!(running.recent_events.len(), 3);
    assert_eq!(
        state.codex_rate_limits.as_ref().map(to_text).as_deref(),
        Some(r#"{"primary":{"usedPercent":1}}"#)
    );
}

#[test]
fn silent_workers_are_stopped_and_tried_again() {
    let run = issue("1", "A", "Todo");
    let mut state = state_with_run(&run, None);
    assert!(next_attempts_fit(&state));
    assert!(reconcile_stalled_runs(&mut state, 0, 1_000_000_000_000, 0).is_empty());
    assert!(reconcile_stalled_runs(&mut state, 1_000, 1_000_999_999, 0).is_empty());
    let stalled = reconcile_stalled_runs(&mut state, 1_000, 1_001_000_000, 0);
    assert_eq!(stalled.len(), 1);
    assert_eq!(stalled[0].timer.issue_id, "1");
    assert_eq!(state.running.len(), 0);
    let retry = state.retry_attempts.get("1").expect("retry");
    assert!(retry.error.as_deref().is_some_and(|error| error.contains("stalled")), "{:?}", retry.error);
}

#[test]
fn terminated_workers_are_charged_for_their_time() {
    let run = issue("1", "A", "Todo");
    let mut state = state_with_run(&run, Some("ssh-a"));
    let stopped = terminate_running_issue(&mut state, "1", true, 2_500_000_000).expect("stopped");
    assert!(stopped.cleanup_workspace);
    assert_eq!(stopped.worker_host.as_deref(), Some("ssh-a"));
    assert_eq!(state.codex_totals.ended_ms, 2_500);
    assert!(terminate_running_issue(&mut state, "1", true, 2_500_000_000).is_none());
}

#[test]
fn refreshes_are_coalesced() {
    let mut state = empty_state();
    assert!(!refresh(&state, 3, 0).coalesced || state.next_poll_due_at.is_some());
    state.poll_check_in_progress = true;
    let response = refresh(&state, 3, 0);
    assert!(response.queued);
    assert!(response.coalesced);
    assert_eq!(response.requested_at, 3);
    assert_eq!(response.operations, vec!["poll".to_string(), "reconcile".to_string()]);
    assert_eq!(next_version(u64::MAX), 0);
    assert_eq!(next_version(4), 5);
    capture_tracker_rate_budget(&mut state, None);
    assert!(state.todoist_rate_budget.is_none());
}

#[test]
fn errors_of_workers_are_told_apart() {
    let error = workspace_worker_error(WorkerErrorStage::BeforeRun, None, "x".to_string());
    assert_eq!(error.kind, WorkerErrorKind::HookFailure);
    let error = workspace_worker_error(WorkerErrorStage::WorkspaceCreate, None, "x".to_string());
    assert_eq!(error.kind, WorkerErrorKind::WorkspaceFailure);
    let error = tracker_worker_error(WorkerErrorStage::StateRefresh, None, "x".to_string());
    assert_eq!(error.kind, WorkerErrorKind::TrackerFailure);
    let kinds = vec![
        (CodexError::ApprovalRequired("x".to_string()), WorkerErrorKind::ApprovalRequired),
        (CodexError::TurnInputRequired("x".to_string()), WorkerErrorKind::InputRequired),
        (CodexError::TurnCancelled("x".to_string()), WorkerErrorKind::Cancellation),
        (CodexError::TurnTimeout, WorkerErrorKind::TurnFailure),
    ];
    for (error, kind) in kinds {
        assert_eq!(codex_worker_error(WorkerErrorStage::TurnRun, None, &error).kind, kind);
    }
    let error = codex_worker_error(WorkerErrorStage::SessionStart, None, &CodexError::ResponseTimeout);
    assert_eq!(error.kind, WorkerErrorKind::SessionFailure);
    assert!(error.startup_failover_eligible());
    assert_eq!(error.stage_name(), "session_start");
    assert_eq!(error.kind_name(), "session_failure");
}

#[test]
fn workers_go_on_while_their_task_is_active() {
    let active = states(&["todo"]);
    let task = issue("1", "A", "Todo");
    let run = WorkerRun::begin(
        &task,
        Ok(vec![issue("1", "A", "Todo")]),
        2,
        states(&["done"]),
        None,
    )
    .expect("run");
    let run = match run.next_turn(false) {
        WorkerStep::Turn(run) => run,
        other => panic!("unexpected {other:?}"),
    };
    assert_eq!(run.turn_number, 1);
    assert_eq!(run.turn_prompt("Work on {{ issue.identifier }}", None).expect("prompt"), "Work on A");
    let run = match run.after_turn(Ok(vec![issue("1", "A", "Todo")]), &active) {
        WorkerStep::Turn(run) => run,
        other => panic!("unexpected {other:?}"),
    };
    let run = match run.next_turn(false) {
        WorkerStep::Turn(run) => run,
        other => panic!("unexpected {other:?}"),
    };
    assert_eq!(run.turn_number, 2);
    assert!(run.turn_prompt("Work", None).expect("prompt").contains("continuation turn #2 of 2"));
    let run = match run.after_turn(Ok(vec![issue("1", "A", "Todo")]), &active) {
        WorkerStep::Turn(run) => run,
        other => panic!("unexpected {other:?}"),
    };
    match run.next_turn(false) {
        WorkerStep::Finished { disposition: WorkerDisposition::Continue { issue }, cleanup } => {
            assert_eq!(issue.id, "1");
            assert!(!cleanup);
        }
        other => panic!("unexpected {other:?}"),
    }
}

#[test]
fn workers_stop_where_their_task_is_done() {
    let task = issue("1", "A", "Merging");
    let mut run = WorkerRun::begin(
        &task,
        Ok(vec![issue("1", "A", "Merging")]),
        3,
        states(&["done"]),
        None,
    )
    .expect("run");
    run.observe(Some(&json(
        r#"{"params": {"name": "todoist", "arguments": {"action": "close_task", "task_id": "1"}}, "toolResult": {"success": true}}"#,
    )));
    assert!(run.guarded_close_observed);
    match run.after_turn(Ok(vec![issue("1", "A", "Done")]), &states(&["todo", "merging"])) {
        WorkerStep::Finished { disposition, cleanup } => {
            assert!(cleanup);
            assert!(matches!(disposition, WorkerDisposition::Quiesced { issue: Some(_) }));
            let failed = finish_worker(disposition, Err("busy".to_string()), None).unwrap_err();
            assert_eq!(failed.stage, WorkerErrorStage::Cleanup);
        }
        other => panic!("unexpected {other:?}"),
    }
    let run = WorkerRun::begin(&task, Ok(vec![]), 3, states(&["done"]), None).expect("run");
    assert!(matches!(
        run.after_turn(Err("offline".to_string()), &states(&["todo"])),
        WorkerStep::Failed(error) if error.stage == WorkerErrorStage::StateRefresh
    ));
    let run = WorkerRun::begin(&task, Ok(vec![]), 3, states(&["done"]), None).expect("run");
    assert!(matches!(
        run.next_turn(true),
        WorkerStep::Failed(error) if error.kind == WorkerErrorKind::Cancellation
    ));
    assert!(WorkerRun::begin(&task, Err("offline".to_string()), 3, states(&["done"]), None).is_err());
}

fn working_task(state: &str) -> Issue {
    Issue {
        id: "task".to_string(),
        identifier: "TD-1".to_string(),
        title: "Title".to_string(),
        state: state.to_string(),
        ..Issue::default()
    }
}

fn session_running(hosts: &[&str]) -> WorkerFlow {
    let hosts = hosts.iter().map(|host| host.to_string()).collect::<Vec<_>>();
    let flow = start(Ok(()), &hosts, &None);
    let WorkerFlow::CreateWorkspace(starting) = flow else { panic!("unexpected {flow:?}") };
    let flow = on_workspace(starting, Ok(()));
    let WorkerFlow::RunBeforeRun(starting) = flow else { panic!("unexpected {flow:?}") };
    let flow = on_before_run(starting, Ok(()));
    let WorkerFlow::StartSession(starting) = flow else { panic!("unexpected {flow:?}") };
    on_session(starting, Ok(()))
}

fn first_turn(max_turns: usize) -> WorkerFlow {
    let flow = session_running(&[]);
    let WorkerFlow::FetchTask { worker_host } = flow else { panic!("unexpected {flow:?}") };
    assert_eq!(worker_host, None);
    let flow = on_first_fetch(
        worker_host,
        &working_task("Todo"),
        Ok(vec![working_task("In Progress")]),
        max_turns,
        vec!["done".to_string()],
        false,
    );
    let WorkerFlow::ReadTemplate(run) = flow else { panic!("unexpected {flow:?}") };
    on_template(run, "Work on {{ issue.identifier }}", None)
}

/// The steps from the end of the turns on, and what the worker hands back.
fn ending_of(
    mut flow: WorkerFlow,
    removed: Result<(), String>,
) -> (Vec<&'static str>, Result<WorkerDisposition, WorkerError>) {
    let mut steps = vec![];
    loop {
        flow = match flow {
            WorkerFlow::StopSession(ending) => {
                steps.push("stop");
                on_stopped(ending)
            }
            WorkerFlow::RunAfterRun(ending) => {
                steps.push("after_run");
                on_after_run(ending)
            }
            WorkerFlow::RemoveWorkspace { disposition, worker_host } => {
                steps.push("remove");
                on_removed(disposition, worker_host, removed.clone())
            }
            WorkerFlow::Done(result) => return (steps, result),
            other => panic!("unexpected {other:?}"),
        };
    }
}

#[test]
fn workers_stop_their_session_whatever_happens() {
    let flow = first_turn(2);
    let WorkerFlow::RunTurn { run, prompt } = flow else { panic!("unexpected {flow:?}") };
    assert_eq!(prompt, "Work on TD-1");
    let (steps, result) = ending_of(on_turn(run, Err(CodexError::TurnTimeout)), Ok(()));
    assert_eq!(steps, ["stop", "after_run"]);
    assert_eq!(result.unwrap_err().stage, WorkerErrorStage::TurnRun);

    let flow = first_turn(2);
    let WorkerFlow::RunTurn { run, .. } = flow else { panic!("unexpected {flow:?}") };
    let flow = on_turn(run, Ok(()));
    let WorkerFlow::RefreshTracker(run) = flow else { panic!("unexpected {flow:?}") };
    let (steps, result) = ending_of(on_tracker(run, Err("no key".to_string())), Ok(()));
    assert_eq!(steps, ["stop", "after_run"]);
    assert_eq!(result.unwrap_err().stage, WorkerErrorStage::TrackerBuild);
}

#[test]
fn workers_run_the_turns_that_they_may() {
    let mut flow = first_turn(2);
    let mut prompts = vec![];
    loop {
        flow = match flow {
            WorkerFlow::RunTurn { run, prompt } => {
                prompts.push(prompt);
                on_turn(run, Ok(()))
            }
            WorkerFlow::RefreshTracker(run) => on_tracker(run, Ok(())),
            WorkerFlow::FetchAgain(run) => on_fetch(
                run,
                Ok(vec![working_task("In Progress")]),
                &vec!["in progress".to_string()],
                false,
            ),
            WorkerFlow::ReadTemplate(run) => on_template(run, "unused", None),
            other => {
                flow = other;
                break;
            }
        };
    }
    assert_eq!(prompts.len(), 2);
    let (steps, result) = ending_of(flow, Ok(()));
    assert_eq!(steps, ["stop", "after_run"]);
    assert!(matches!(result, Ok(WorkerDisposition::Continue { .. })));
}

#[test]
fn workers_remove_the_workspace_of_a_closed_task() {
    let after_close = |seen: bool| {
        let flow = first_turn(2);
        let WorkerFlow::RunTurn { mut run, .. } = flow else { panic!("unexpected {flow:?}") };
        if seen {
            run.observe(Some(&json(
                r#"{"params": {"name": "todoist", "arguments": {"action": "close_task", "task_id": "task"}}, "toolResult": {"success": true}}"#,
            )));
        }
        let flow = on_turn(run, Ok(()));
        let WorkerFlow::RefreshTracker(run) = flow else { panic!("unexpected {flow:?}") };
        let flow = on_tracker(run, Ok(()));
        let WorkerFlow::FetchAgain(run) = flow else { panic!("unexpected {flow:?}") };
        on_fetch(run, Ok(vec![working_task("Done")]), &vec!["in progress".to_string()], false)
    };
    let (steps, result) = ending_of(after_close(true), Ok(()));
    assert_eq!(steps, ["stop", "after_run", "remove"]);
    assert!(matches!(result, Ok(WorkerDisposition::Quiesced { issue: Some(_) })));
    let (_, result) = ending_of(after_close(true), Err("busy".to_string()));
    assert_eq!(result.unwrap_err().stage, WorkerErrorStage::Cleanup);
    let (steps, _) = ending_of(after_close(false), Ok(()));
    assert_eq!(steps, ["stop", "after_run"]);
}

#[test]
fn failed_starts_are_tidied_up_before_the_next_host() {
    let hosts = vec!["a".to_string(), "b".to_string()];
    let flow = start(Ok(()), &hosts, &None);
    let WorkerFlow::CreateWorkspace(starting) = flow else { panic!("unexpected {flow:?}") };
    assert_eq!(starting.worker_host.as_deref(), Some("a"));
    let flow = on_workspace(starting, Ok(()));
    let WorkerFlow::RunBeforeRun(starting) = flow else { panic!("unexpected {flow:?}") };
    let flow = on_before_run(starting, Err("hook".to_string()));
    let WorkerFlow::AbandonStart { starting, error } = flow else { panic!("unexpected {flow:?}") };
    assert_eq!(error.stage, WorkerErrorStage::BeforeRun);
    let flow = on_failed_start(starting, error);
    let WorkerFlow::CreateWorkspace(starting) = flow else { panic!("unexpected {flow:?}") };
    assert_eq!(starting.worker_host.as_deref(), Some("b"));
    match on_workspace(starting, Err("disk".to_string())) {
        WorkerFlow::Done(Err(error)) => {
            assert_eq!(error.kind, WorkerErrorKind::StartupFailoverExhausted)
        }
        other => panic!("unexpected {other:?}"),
    }
    match start(Err("no key".to_string()), &hosts, &None) {
        WorkerFlow::Done(Err(error)) => assert_eq!(error.stage, WorkerErrorStage::TrackerBuild),
        other => panic!("unexpected {other:?}"),
    }
}
