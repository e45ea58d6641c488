use symphony::issue::{
    is_todoist_workpad_content, normalize_state_name, optional_trimmed_string,
    todoist_review_comment_from_value, todoist_review_comments_from_values, truncate_text, Issue,
    TodoistPromptCommentLimits,
};
use symphony::json::{parse, Json};

fn ample_limits() -> TodoistPromptCommentLimits {
    TodoistPromptCommentLimits { max_comments: 20, max_comment_chars: 2_000, max_total_chars: 20_000 }
}

fn json(text: &str) -> Json {
    parse(text).expect("json")
}

#[test]
fn todoist_review_comments_exclude_workpad_comments() {
    let values = vec![
        json(
            r###"{
                "id": "comment-human",
                "posted_uid": "user-1",
                "posted_at": "2026-03-13T12:00:00Z",
                "content": "Please keep the original diff."
            }"###,
        ),
        json(
            r###"{
                "id": "comment-workpad",
                "item_id": "task-1",
                "content": "## Codex Workpad\n\n<!-- symphony:workpad -->\n\nTracked state"
            }"###,
        ),
    ];

    let (comments, truncated) =
        todoist_review_comments_from_values(&values, &ample_limits());
    assert!(!truncated);
    assert_eq!(comments.len(), 1);
    assert_eq!(comments[0].id, "comment-human");
    assert_eq!(comments[0].content, "Please keep the original diff.");
}

#[test]
fn todoist_review_comments_capture_attachment_metadata() {
    let name = ["spec", "md"].join(".");
    let url = format!("https://files.example/{name}");
    let values = vec![json(
        r#"{
            "id": "comment-attachment",
            "posted_uid": "user-2",
            "content": "Reference this spec."
        }"#,
    )
    .with(
        "file_attachment",
        Json::object2("file_name", Json::text(&name), "file_url", Json::text(&url)),
    )];

    let (comments, truncated) =
        todoist_review_comments_from_values(&values, &ample_limits());
    assert!(!truncated);
    assert_eq!(comments.len(), 1);
    assert_eq!(comments[0].attachment_name.as_deref(), Some(name.as_str()));
    assert_eq!(comments[0].attachment_url.as_deref(), Some(url.as_str()));
}

#[test]
fn todoist_review_comments_respect_configured_limits() {
    let values = vec![
        json(
            r#"{
                "id": "comment-1",
                "posted_uid": "user-1",
                "posted_at": "2026-03-13T12:00:00Z",
                "content": "abcdef"
            }"#,
        ),
        json(
            r#"{
                "id": "comment-2",
                "posted_uid": "user-2",
                "posted_at": "2026-03-13T13:00:00Z",
                "content": "ghijkl"
            }"#,
        ),
    ];

    let (comments, truncated) = todoist_review_comments_from_values(
        &values,
        &TodoistPromptCommentLimits {
            max_comments: 1,
            max_comment_chars: 4,
            max_total_chars: 4,
        },
    );

    assert!(truncated);
    assert_eq!(comments.len(), 1);
    assert_eq!(comments[0].id, "comment-2");
    assert_eq!(comments[0].content, "ghij...");
}

#[test]
fn state_names_are_compared_in_one_form() {
    assert_eq!(normalize_state_name("  In Progress "), "in progress");
    assert_eq!(normalize_state_name("DONE"), "done");
    let issue = Issue { state: " Todo".to_string(), ..Issue::default() };
    assert_eq!(issue.state_key(), "todo");
}

#[test]
fn comments_without_content_or_attachment_are_left_out() {
    assert!(todoist_review_comment_from_value(&json(r#"{"id": "c", "content": "  "}"#)).is_none());
    assert!(todoist_review_comment_from_value(&json(r#"{"content": "text"}"#)).is_none());
    let comment = todoist_review_comment_from_value(&json(r#"{"id": "c", "content": " text "}"#))
        .expect("comment");
    assert_eq!(comment.content, "text");
}

#[test]
fn long_texts_are_cut_with_dots() {
    assert_eq!(truncate_text("abc", 3), "abc");
    assert_eq!(truncate_text("abcd", 3), "abc...");
    assert_eq!(truncate_text("äöü!", 3), "äöü...");
}

#[test]
fn workpads_are_known_by_their_marks() {
    assert!(is_todoist_workpad_content("<!-- symphony:workpad -->"));
    assert!(!is_todoist_workpad_content("just a remark"));
}

#[test]
fn blank_texts_count_as_missing() {
    assert_eq!(optional_trimmed_string(Some(&json(r#""  a b ""#))), Some("a b".to_string()));
    assert_eq!(optional_trimmed_string(Some(&json(r#""  ""#))), None);
    assert_eq!(optional_trimmed_string(Some(&json("1"))), None);
    assert_eq!(optional_trimmed_string(None), None);
}
