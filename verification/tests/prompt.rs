use symphony::issue::{Issue, IssueComment};
use symphony::json::{parse, to_text};
use symphony::prompt::{
    assemble_prompt, build_issue_prompt, build_issue_prompt_with_metrics, continuation_guidance,
    issue_to_json, PromptError, Rendering,
};

#[test]
fn renders_issue_and_attempt() {
    let issue = Issue {
        id: "1".to_string(),
        identifier: "ABC-1".to_string(),
        title: "Title".to_string(),
        state: "Todo".to_string(),
        ..Issue::default()
    };

    let prompt = build_issue_prompt(
        "{{ issue.identifier }} attempt={{ attempt }}",
        &issue,
        Some(2),
    )
    .expect("render prompt");
    assert_eq!(prompt, "ABC-1 attempt=2");
}

#[test]
fn fails_unknown_variables_in_strict_mode() {
    let issue = Issue {
        id: "1".to_string(),
        identifier: "ABC-1".to_string(),
        title: "Title".to_string(),
        state: "Todo".to_string(),
        ..Issue::default()
    };

    let error = build_issue_prompt("{{ missing }}", &issue, None).unwrap_err();
    assert!(matches!(error, PromptError::TemplateRender(_)));
}

#[test]
fn rejects_empty_templates() {
    let issue = Issue {
        id: "1".to_string(),
        identifier: "ABC-1".to_string(),
        title: "Title".to_string(),
        state: "Todo".to_string(),
        ..Issue::default()
    };

    let error = build_issue_prompt("   ", &issue, None).unwrap_err();
    assert!(matches!(error, PromptError::TemplateEmpty));
}

#[test]
fn guarded_optional_issue_fields_render_when_omitted() {
    let template = r#"
URL: {% if issue.url is defined and issue.url %}{{ issue.url }}{% else %}n/a{% endif %}
Assignee: {% if issue.assignee_id is defined and issue.assignee_id %}{{ issue.assignee_id }}{% else %}unassigned{% endif %}
Due: {% if issue.due is defined and issue.due %}{{ issue.due }}{% else %}none{% endif %}
Deadline: {% if issue.deadline is defined and issue.deadline %}{{ issue.deadline }}{% else %}none{% endif %}
"#;
    let issue = Issue {
        id: "1".to_string(),
        identifier: "ABC-1".to_string(),
        title: "Title".to_string(),
        state: "Todo".to_string(),
        ..Issue::default()
    };

    let prompt = build_issue_prompt(template, &issue, None).expect("render prompt");
    assert!(prompt.contains("URL: n/a"));
    assert!(prompt.contains("Assignee: unassigned"));
    assert!(prompt.contains("Due: none"));
    assert!(prompt.contains("Deadline: none"));
}

#[test]
fn renders_preloaded_todoist_comments_when_present() {
    let template = "{% for comment in issue.todoist_comments %}{{ comment.author_id }}={{ comment.content }}\n{% endfor %}";
    let issue = Issue {
        id: "1".to_string(),
        identifier: "ABC-1".to_string(),
        title: "Title".to_string(),
        state: "Rework".to_string(),
        todoist_comments: vec![IssueComment {
            id: "comment-1".to_string(),
            author_id: Some("user-1".to_string()),
            content: "Please keep the original diff and add docs.".to_string(),
            ..IssueComment::default()
        }],
        ..Issue::default()
    };

    let prompt = build_issue_prompt(template, &issue, None).expect("render prompt");
    assert!(prompt.contains("user-1=Please keep the original diff and add docs."));
}

#[test]
fn measures_prompt_comment_contribution() {
    let template = "A={{ issue.identifier }}\n{% for comment in issue.todoist_comments %}C={{ comment.content }}\n{% endfor %}";
    let issue = Issue {
        id: "1".to_string(),
        identifier: "ABC-1".to_string(),
        title: "Title".to_string(),
        state: "Rework".to_string(),
        todoist_comments: vec![IssueComment {
            id: "comment-1".to_string(),
            content: "Please keep the original diff and add docs.".to_string(),
            ..IssueComment::default()
        }],
        ..Issue::default()
    };

    let built = build_issue_prompt_with_metrics(template, &issue, None).expect("render");
    assert!(built.metrics.prompt_bytes > 0);
    assert!(built.metrics.workflow_template_bytes > 0);
    assert!(built.metrics.rendered_issue_context_bytes > 0);
    assert!(built.metrics.preloaded_comment_bytes > 0);
    assert_eq!(built.metrics.preloaded_comment_count, 1);
    assert!(!built.metrics.comment_preload_truncated);
}

#[test]
fn reports_comment_preload_truncation_flag() {
    let issue = Issue {
        id: "1".to_string(),
        identifier: "ABC-1".to_string(),
        title: "Title".to_string(),
        state: "Rework".to_string(),
        todoist_comments_truncated: true,
        ..Issue::default()
    };

    let built =
        build_issue_prompt_with_metrics("{{ issue.identifier }}", &issue, None).expect("render");
    assert!(built.metrics.comment_preload_truncated);
}

#[test]
fn broken_templates_are_reported() {
    let error = build_issue_prompt("{% if %}", &Issue::default(), None).unwrap_err();
    assert!(matches!(error, PromptError::TemplateParse(_)));
    assert!(error.to_text().starts_with("template_parse_error "), "{}", error.to_text());
}

#[test]
fn prompts_are_measured_exactly() {
    let issue = Issue {
        identifier: "ABC-1".to_string(),
        todoist_comments: vec![
            IssueComment { id: "a".to_string(), content: "1234".to_string(), ..IssueComment::default() },
            IssueComment { id: "b".to_string(), content: "56".to_string(), ..IssueComment::default() },
        ],
        ..Issue::default()
    };
    let template = "{{ issue.identifier }}{% for c in issue.todoist_comments %}[{{ c.content }}]{% endfor %}";
    let built = build_issue_prompt_with_metrics(template, &issue, None).expect("render");
    assert_eq!(built.prompt, "ABC-1[1234][56]");
    assert_eq!(built.metrics.prompt_bytes, 15);
    assert_eq!(built.metrics.workflow_template_bytes, template.len());
    assert_eq!(built.metrics.preloaded_comment_bytes, 10);
    assert_eq!(built.metrics.preloaded_comment_count, 2);
}

#[test]
fn renderings_are_assembled_without_a_template_engine() {
    let issue = Issue { identifier: "A".to_string(), ..Issue::default() };
    let failed = assemble_prompt(
        "template",
        &issue,
        Rendering::RenderError("boom".to_string()),
        Rendering::Text("bare".to_string()),
    )
    .unwrap_err();
    assert!(matches!(failed, PromptError::TemplateRender(reason) if reason == "boom"));
    let built = assemble_prompt(
        "template",
        &issue,
        Rendering::Text("full text".to_string()),
        Rendering::Text("bare".to_string()),
    )
    .expect("prompt");
    assert_eq!(built.prompt, "full text");
    assert_eq!(built.metrics.preloaded_comment_bytes, 5);
}

#[test]
fn issues_are_written_as_json() {
    let issue = Issue {
        id: "1".to_string(),
        identifier: "ABC-1".to_string(),
        title: "Title".to_string(),
        state: "Todo".to_string(),
        created_at: Some(1_773_403_200_000_000_000),
        due: Some(parse(r#"{"date": "2026-03-13"}"#).expect("due")),
        labels: vec!["a".to_string()],
        ..Issue::default()
    };
    let json = issue_to_json(&issue);
    assert_eq!(json.get("created_at").and_then(|at| at.as_str()), Some("2026-03-13T12:00:00Z"));
    assert_eq!(json.get("due").map(to_text).as_deref(), Some(r#"{"date":"2026-03-13"}"#));
    assert_eq!(json.get("labels").map(to_text).as_deref(), Some(r#"["a"]"#));
}

#[test]
fn continuation_guidance_counts_the_turns() {
    let guidance = continuation_guidance(2, 20);
    assert!(guidance.contains("#2 of 20"), "{}", guidance);
}
