//! What an agent is told of its task.
use vstd::prelude::*;

use crate::clock::time_text;
use crate::issue::{
    capped, comment_before, comment_size, fitting, latest_comments, prompt_comments,
    review_comment, review_comments, shortened, shortened_comment, total_size, CommentView,
    IssueComment, IssueView, TodoistPromptCommentLimits,
};
use crate::json::{as_stored, integer, JsonView, NumberView};
use crate::prompt::{
    comment_json, comments_json, context_of, issue_json, issue_json_without_comments, issue_prompt,
    json_entry, rendered, text_entry, text_or_null, texts_json, time_or_null, PromptErrorView,
    RenderingView,
};
use crate::sorting::ranked;
use crate::text::{before, begins, occurs, trimmed, trimmed_start};

verus! {

broadcast use vstd::seq::group_seq_axioms;

/// A text that is not blank, without the blanks around it.
pub open spec fn words_of(json: Option<JsonView>) -> Option<Seq<char>> {
    match json {
        Some(JsonView::Text(text)) => if trimmed(text).len() > 0 {
            Some(trimmed(text))
        } else {
            None
        },
        _ => None,
    }
}

/// An identifier: a text that is not blank, or a number as it is written.
pub open spec fn name_of(json: Option<JsonView>) -> Option<Seq<char>> {
    match json {
        Some(JsonView::Number(n)) => Some(n.written()),
        _ => words_of(json),
    }
}

/// The value under a key of a value that may be missing.
pub open spec fn under(json: Option<JsonView>, key: Seq<char>) -> Option<JsonView> {
    match json {
        Some(json) => json.get(key),
        None => None,
    }
}

/// The first of several texts that is there.
pub open spec fn first_text(texts: Seq<Option<Seq<char>>>) -> Option<Seq<char>>
    decreases texts.len(),
{
    if texts.len() == 0 {
        None
    } else if texts[0] is Some {
        texts[0]
    } else {
        first_text(texts.skip(1))
    }
}

/// A comment of the tracker is shown to an agent exactly where it is not deleted, says
/// something, is no workpad and has an identifier; what is shown is what it says.
pub proof fn law_comments_are_shown_as_written(value: JsonView)
    ensures
        ({
            let content = words_of(value.get("content"@));
            let file = value.get("file_attachment"@);
            match review_comment(value) {
                Some(comment) => {
                    &&& value.get("is_deleted"@) != Some(JsonView::Bool(true))
                    &&& content == Some(comment.content)
                    &&& !occurs(comment.content, "<!-- symphony:workpad -->"@)
                    &&& !begins(trimmed_start(comment.content), "## Codex Workpad"@)
                    &&& name_of(value.get("id"@)) == Some(comment.id)
                    &&& comment.author_id == name_of(value.get("posted_uid"@))
                    &&& comment.posted_at == words_of(value.get("posted_at"@))
                    &&& comment.updated_at == words_of(value.get("updated_at"@))
                    &&& comment.attachment_name == first_text(
                        seq![words_of(under(file, "file_name"@)), words_of(under(file, "name"@))],
                    )
                    &&& comment.attachment_url == first_text(
                        seq![
                            words_of(under(file, "file_url"@)),
                            words_of(under(file, "download_url"@)),
                            words_of(under(file, "url"@)),
                        ],
                    )
                },
                None => {
                    ||| value.get("is_deleted"@) == Some(JsonView::Bool(true))
                    ||| content is None
                    ||| occurs(content->0, "<!-- symphony:workpad -->"@)
                    ||| begins(trimmed_start(content->0), "## Codex Workpad"@)
                    ||| name_of(value.get("id"@)) is None
                },
            }
        }),
{
    reveal_with_fuel(first_text, 4);
    let file = value.get("file_attachment"@);
    let names = seq![words_of(under(file, "file_name"@)), words_of(under(file, "name"@))];
    assert(names.skip(1) =~= seq![words_of(under(file, "name"@))]);
    let links = seq![
        words_of(under(file, "file_url"@)),
        words_of(under(file, "download_url"@)),
        words_of(under(file, "url"@)),
    ];
    assert(links.skip(1) =~= seq![
        words_of(under(file, "download_url"@)),
        words_of(under(file, "url"@)),
    ]);
    assert(links.skip(1).skip(1) =~= seq![words_of(under(file, "url"@))]);
}

/// Of all the comments those that are shown are taken, and no others.
pub proof fn law_comments_are_all_considered(values: Seq<JsonView>, comment: CommentView)
    ensures
        review_comments(values).contains(comment) <==> exists|i: int|
            0 <= i < values.len() && review_comment(#[trigger] values[i]) == Some(comment),
        review_comments(values).len() <= values.len(),
    decreases values.len(),
{
    if values.len() > 0 {
        let n = values.len() - 1;
        let front = values.drop_last();
        law_comments_are_all_considered(front, comment);
        assert(values[n] == values.last());
        let earlier = review_comments(front);
        let all = review_comments(values);
        if all.contains(comment) {
            let k = choose|k: int| 0 <= k < all.len() && all[k] == comment;
            if k < earlier.len() {
                assert(earlier[k] == comment);
                let i = choose|i: int|
                    0 <= i < front.len() && review_comment(#[trigger] front[i]) == Some(comment);
                assert(review_comment(values[i]) == Some(comment));
            } else {
                assert(review_comment(values[n]) == Some(comment));
            }
        }
        if exists|i: int|
            0 <= i < values.len() && review_comment(#[trigger] values[i]) == Some(comment) {
            let i = choose|i: int|
                0 <= i < values.len() && review_comment(#[trigger] values[i]) == Some(comment);
            if i < n {
                assert(review_comment(front[i]) == Some(comment));
                let k = choose|k: int| 0 <= k < earlier.len() && earlier[k] == comment;
                assert(all[k] == comment);
            } else {
                assert(all[earlier.len() as int] == comment);
            }
        }
    }
}

/// Comments are ordered by when they were posted, and then by their identifier.
pub proof fn law_comments_are_ordered_by_time(a: CommentView, b: CommentView)
    ensures
        ({
            let x = match a.posted_at {
                Some(at) => at,
                None => ""@,
            };
            let y = match b.posted_at {
                Some(at) => at,
                None => ""@,
            };
            comment_before(a, b) <==> before(x, y) || (x == y && before(a.id, b.id))
        }),
{
}

proof fn lemma_whole(
    comments: Seq<CommentView>,
    used: nat,
    any: bool,
    limits: TodoistPromptCommentLimits,
)
    ensures
        !fitting(comments, used, any, limits).1 ==> fitting(comments, used, any, limits).0
            == comments,
    decreases comments.len(),
{
    if comments.len() > 0 {
        let whole = comments.last();
        let comment = shortened_comment(whole, limits.max_comment_chars as nat);
        let total = capped(used + comment_size(comment));
        lemma_whole(comments.drop_last(), total, true, limits);
        if !fitting(comments, used, any, limits).1 {
            assert(comment == whole);
            assert(comments.drop_last().push(comments.last()) =~= comments);
        }
    }
}

proof fn lemma_all_fit(
    comments: Seq<CommentView>,
    used: nat,
    any: bool,
    limits: TodoistPromptCommentLimits,
)
    requires
        forall|i: int|
            0 <= i < comments.len() ==> (#[trigger] comments[i]).content.len()
                <= limits.max_comment_chars,
        used + total_size(comments) <= limits.max_total_chars,
    ensures
        !fitting(comments, used, any, limits).1,
    decreases comments.len(),
{
    if comments.len() > 0 {
        let whole = comments.last();
        assert(comments[comments.len() - 1] == whole);
        let front = comments.drop_last();
        assert(forall|i: int| 0 <= i < front.len() ==> front[i] == #[trigger] comments[i]);
        let comment = shortened_comment(whole, limits.max_comment_chars as nat);
        assert(comment == whole);
        lemma_all_fit(front, used + comment_size(whole), true, limits);
    }
}

proof fn lemma_fitting_members(
    comments: Seq<CommentView>,
    used: nat,
    any: bool,
    limits: TodoistPromptCommentLimits,
    i: int,
)
    requires
        0 <= i < fitting(comments, used, any, limits).0.len(),
    ensures
        exists|k: int|
            0 <= k < comments.len() && fitting(comments, used, any, limits).0[i]
                == shortened_comment(#[trigger] comments[k], limits.max_comment_chars as nat),
    decreases comments.len(),
{
    let comment = shortened_comment(comments.last(), limits.max_comment_chars as nat);
    let total = capped(used + comment_size(comment));
    let front = comments.drop_last();
    assert(comments[comments.len() - 1] == comments.last());
    if any && total > limits.max_total_chars {
        lemma_fitting_members(front, used, any, limits, i);
        let k = choose|k: int|
            0 <= k < front.len() && fitting(front, used, any, limits).0[i] == shortened_comment(
                #[trigger] front[k],
                limits.max_comment_chars as nat,
            );
        assert(comments[k] == front[k]);
    } else if i < fitting(front, total, true, limits).0.len() {
        lemma_fitting_members(front, total, true, limits, i);
        let k = choose|k: int|
            0 <= k < front.len() && fitting(front, total, true, limits).0[i] == shortened_comment(
                #[trigger] front[k],
                limits.max_comment_chars as nat,
            );
        assert(comments[k] == front[k]);
    }
}

/// All comments are shown whole, in their order, exactly where that is said; and it is
/// said wherever they keep to the limits. The latest comment is always shown, if only in
/// part, and nothing is shown that is no comment.
pub proof fn law_the_latest_comments_are_shown(
    values: Seq<JsonView>,
    limits: TodoistPromptCommentLimits,
)
    ensures
        ({
            let all = ranked::<IssueComment>(review_comments(values));
            let (shown, less) = prompt_comments(values, limits);
            &&& !less ==> shown == all
            &&& all.len() <= limits.max_comments && total_size(all) <= limits.max_total_chars && (
            forall|i: int|
                0 <= i < all.len() ==> (#[trigger] all[i]).content.len()
                    <= limits.max_comment_chars) ==> !less
            &&& all.len() > 0 && limits.max_comments > 0 ==> shown.len() > 0 && shown.last()
                == shortened_comment(all.last(), limits.max_comment_chars as nat)
            &&& forall|i: int|
                0 <= i < shown.len() ==> exists|k: int|
                    0 <= k < all.len() && #[trigger] shown[i] == shortened_comment(
                        #[trigger] all[k],
                        limits.max_comment_chars as nat,
                    )
        }),
{
    let all = ranked::<IssueComment>(review_comments(values));
    let picked = latest_comments(all, limits.max_comments as nat);
    let (shown, less) = prompt_comments(values, limits);
    lemma_whole(picked, 0, false, limits);
    if all.len() <= limits.max_comments && total_size(all) <= limits.max_total_chars && (forall|
        i: int,
    |
        0 <= i < all.len() ==> (#[trigger] all[i]).content.len() <= limits.max_comment_chars) {
        lemma_all_fit(picked, 0, false, limits);
    }
    assert forall|i: int| 0 <= i < shown.len() implies exists|k: int|
        0 <= k < all.len() && #[trigger] shown[i] == shortened_comment(
            #[trigger] all[k],
            limits.max_comment_chars as nat,
        ) by {
        lemma_fitting_members(picked, 0, false, limits, i);
        let k = choose|k: int|
            0 <= k < picked.len() && fitting(picked, 0, false, limits).0[i] == shortened_comment(
                #[trigger] picked[k],
                limits.max_comment_chars as nat,
            );
        let j = if all.len() > limits.max_comments {
            k + all.len() - limits.max_comments
        } else {
            k
        };
        assert(all[j] == picked[k]);
    }
    if all.len() > 0 && limits.max_comments > 0 {
        assert(picked.last() == all.last());
    }
}

/// A text that is too long is cut and ends in three dots; any other is kept.
pub proof fn law_long_comments_are_cut(value: Seq<char>, max: nat)
    ensures
        value.len() <= max ==> shortened(value, max) == value,
        value.len() > max ==> shortened(value, max) == value.take(max as int) + "..."@,
{
}

/// What a template is filled with: the task, and which attempt this is.
pub proof fn law_templates_are_filled(issue: JsonView, attempt: Option<u32>)
    ensures
        context_of(issue, attempt) == JsonView::Object(
            seq![
                (
                    "attempt"@,
                    match attempt {
                        Some(n) => JsonView::Number(NumberView::Unsigned(n as u64)),
                        None => JsonView::Null,
                    },
                ),
                ("issue"@, issue),
            ],
        ),
{
    assert(context_of(issue, attempt)->Object_0 =~= seq![
        (
            "attempt"@,
            match attempt {
                Some(n) => JsonView::Number(NumberView::Unsigned(n as u64)),
                None => JsonView::Null,
            },
        ),
        ("issue"@, issue),
    ]);
}

/// A prompt is the template, filled with the task as it is and the number of the attempt.
/// A blank template or one that cannot be filled gives none.
pub proof fn law_prompts_are_filled_templates(
    template: Seq<char>,
    issue: IssueView,
    attempt: Option<u32>,
)
    ensures
        ({
            let full = rendered(
                trimmed(template),
                as_stored(context_of(issue_json(issue), attempt)),
            );
            let bare = rendered(
                trimmed(template),
                as_stored(context_of(issue_json_without_comments(issue), attempt)),
            );
            match issue_prompt(template, issue, attempt) {
                Ok((prompt, _)) => trimmed(template).len() > 0 && full == RenderingView::Text(
                    prompt,
                ) && bare is Text,
                Err(PromptErrorView::TemplateEmpty) => trimmed(template).len() == 0,
                Err(PromptErrorView::TemplateParse(reason)) => trimmed(template).len() > 0 && (full
                    == RenderingView::ParseError(reason) || (full is Text && bare
                    == RenderingView::ParseError(reason))),
                Err(PromptErrorView::TemplateRender(reason)) => trimmed(template).len() > 0 && (full
                    == RenderingView::RenderError(reason) || (full is Text && bare
                    == RenderingView::RenderError(reason))),
            }
        }),
        PromptErrorView::TemplateEmpty.shown() == "template_empty"@,
{
}

/// Whether a JSON object has this entry.
pub open spec fn holds(json: JsonView, key: Seq<char>, value: JsonView) -> bool {
    json matches JsonView::Object(entries) && entries.contains((key, value))
}

proof fn lemma_in_sum<T>(a: Seq<T>, b: Seq<T>, x: T)
    ensures
        a.contains(x) || b.contains(x) ==> (a + b).contains(x),
{
    if a.contains(x) {
        let k = choose|k: int| 0 <= k < a.len() && a[k] == x;
        assert((a + b)[k] == x);
    } else if b.contains(x) {
        let k = choose|k: int| 0 <= k < b.len() && b[k] == x;
        assert((a + b)[a.len() + k] == x);
    }
}

proof fn lemma_task_entry(issue: IssueView, x: (Seq<char>, JsonView))
    requires
        seq![("assigned_to_worker"@, JsonView::Bool(issue.assigned_to_worker))].contains(x)
            || text_entry("assignee_id"@, issue.assignee_id).contains(x)
            || seq![("created_at"@, time_or_null(issue.created_at))].contains(x)
            || json_entry("deadline"@, issue.deadline).contains(x)
            || seq![("description"@, text_or_null(issue.description))].contains(x)
            || json_entry("due"@, issue.due).contains(x)
            || seq![("id"@, JsonView::Text(issue.id))].contains(x)
            || seq![("identifier"@, JsonView::Text(issue.identifier))].contains(x)
            || seq![("is_subtask"@, JsonView::Bool(issue.is_subtask))].contains(x)
            || seq![("labels"@, JsonView::Array(texts_json(issue.labels)))].contains(x)
            || text_entry("parent_id"@, issue.parent_id).contains(x)
            || seq![("priority"@, match issue.priority { Some(n) => JsonView::Number(integer(n as int)), None => JsonView::Null })].contains(x)
            || text_entry("project_id"@, issue.project_id).contains(x)
            || text_entry("section_id"@, issue.section_id).contains(x)
            || seq![("state"@, JsonView::Text(issue.state))].contains(x)
            || seq![("title"@, JsonView::Text(issue.title))].contains(x)
            || json_entry("todoist_comments"@, if issue.todoist_comments.len() > 0 { Some(JsonView::Array(comments_json(issue.todoist_comments))) } else { None }).contains(x)
            || json_entry("todoist_comments_truncated"@, if issue.todoist_comments_truncated { Some(JsonView::Bool(true)) } else { None }).contains(x)
            || seq![("updated_at"@, time_or_null(issue.updated_at))].contains(x)
            || seq![("url"@, text_or_null(issue.url))].contains(x),
    ensures
        (issue_json(issue)->Object_0).contains(x),
{
    let s0 = seq![("assigned_to_worker"@, JsonView::Bool(issue.assigned_to_worker))];
    let p1 = text_entry("assignee_id"@, issue.assignee_id);
    let s1 = s0 + p1;
    lemma_in_sum(s0, p1, x);
    let p2 = seq![("created_at"@, time_or_null(issue.created_at))];
    let s2 = s1 + p2;
    lemma_in_sum(s1, p2, x);
    let p3 = json_entry("deadline"@, issue.deadline);
    let s3 = s2 + p3;
    lemma_in_sum(s2, p3, x);
    let p4 = seq![("description"@, text_or_null(issue.description))];
    let s4 = s3 + p4;
    lemma_in_sum(s3, p4, x);
    let p5 = json_entry("due"@, issue.due);
    let s5 = s4 + p5;
    lemma_in_sum(s4, p5, x);
    let p6 = seq![("id"@, JsonView::Text(issue.id))];
    let s6 = s5 + p6;
    lemma_in_sum(s5, p6, x);
    let p7 = seq![("identifier"@, JsonView::Text(issue.identifier))];
    let s7 = s6 + p7;
    lemma_in_sum(s6, p7, x);
    let p8 = seq![("is_subtask"@, JsonView::Bool(issue.is_subtask))];
    let s8 = s7 + p8;
    lemma_in_sum(s7, p8, x);
    let p9 = seq![("labels"@, JsonView::Array(texts_json(issue.labels)))];
    let s9 = s8 + p9;
    lemma_in_sum(s8, p9, x);
    let p10 = text_entry("parent_id"@, issue.parent_id);
    let s10 = s9 + p10;
    lemma_in_sum(s9, p10, x);
    let p11 = seq![("priority"@, match issue.priority { Some(n) => JsonView::Number(integer(n as int)), None => JsonView::Null })];
    let s11 = s10 + p11;
    lemma_in_sum(s10, p11, x);
    let p12 = text_entry("project_id"@, issue.project_id);
    let s12 = s11 + p12;
    lemma_in_sum(s11, p12, x);
    let p13 = text_entry("section_id"@, issue.section_id);
    let s13 = s12 + p13;
    lemma_in_sum(s12, p13, x);
    let p14 = seq![("state"@, JsonView::Text(issue.state))];
    let s14 = s13 + p14;
    lemma_in_sum(s13, p14, x);
    let p15 = seq![("title"@, JsonView::Text(issue.title))];
    let s15 = s14 + p15;
    lemma_in_sum(s14, p15, x);
    let p16 = json_entry("todoist_comments"@, if issue.todoist_comments.len() > 0 { Some(JsonView::Array(comments_json(issue.todoist_comments))) } else { None });
    let s16 = s15 + p16;
    lemma_in_sum(s15, p16, x);
    let p17 = json_entry("todoist_comments_truncated"@, if issue.todoist_comments_truncated { Some(JsonView::Bool(true)) } else { None });
    let s17 = s16 + p17;
    lemma_in_sum(s16, p17, x);
    let p18 = seq![("updated_at"@, time_or_null(issue.updated_at))];
    let s18 = s17 + p18;
    lemma_in_sum(s17, p18, x);
    let p19 = seq![("url"@, text_or_null(issue.url))];
    let s19 = s18 + p19;
    lemma_in_sum(s18, p19, x);
    assert(issue_json(issue)->Object_0 == s19);
}

proof fn lemma_one<T>(x: T)
    ensures
        seq![x].contains(x),
{
    assert(seq![x][0] == x);
}

/// A template sees what the task is called, what it is about and where it stands.
pub proof fn law_templates_see_the_task(issue: IssueView)
    ensures
        holds(issue_json(issue), "id"@, JsonView::Text(issue.id)),
        holds(issue_json(issue), "identifier"@, JsonView::Text(issue.identifier)),
        holds(issue_json(issue), "title"@, JsonView::Text(issue.title)),
        holds(issue_json(issue), "state"@, JsonView::Text(issue.state)),
        issue.description matches Some(text) ==> holds(
            issue_json(issue),
            "description"@,
            JsonView::Text(text),
        ),
        issue.description is None ==> holds(issue_json(issue), "description"@, JsonView::Null),
        issue.url matches Some(text) ==> holds(issue_json(issue), "url"@, JsonView::Text(text)),
        issue.url is None ==> holds(issue_json(issue), "url"@, JsonView::Null),
        holds(issue_json(issue), "assigned_to_worker"@, JsonView::Bool(issue.assigned_to_worker)),
        holds(issue_json(issue), "is_subtask"@, JsonView::Bool(issue.is_subtask)),
        issue.priority matches Some(n) ==> holds(
            issue_json(issue),
            "priority"@,
            JsonView::Number(
                if n < 0 {
                    NumberView::Negative(n)
                } else {
                    NumberView::Unsigned(n as u64)
                },
            ),
        ),
        issue.priority is None ==> holds(issue_json(issue), "priority"@, JsonView::Null),
{
    let a = ("id"@, JsonView::Text(issue.id));
    let b = ("identifier"@, JsonView::Text(issue.identifier));
    let c = ("title"@, JsonView::Text(issue.title));
    let d = ("state"@, JsonView::Text(issue.state));
    let e = ("description"@, text_or_null(issue.description));
    let f = ("url"@, text_or_null(issue.url));
    let g = ("assigned_to_worker"@, JsonView::Bool(issue.assigned_to_worker));
    let h = ("is_subtask"@, JsonView::Bool(issue.is_subtask));
    let i = (
        "priority"@,
        match issue.priority {
            Some(n) => JsonView::Number(integer(n as int)),
            None => JsonView::Null,
        },
    );
    lemma_one(a);
    lemma_one(b);
    lemma_one(c);
    lemma_one(d);
    lemma_one(e);
    lemma_one(f);
    lemma_one(g);
    lemma_one(h);
    lemma_one(i);
    lemma_task_entry(issue, a);
    lemma_task_entry(issue, b);
    lemma_task_entry(issue, c);
    lemma_task_entry(issue, d);
    lemma_task_entry(issue, e);
    lemma_task_entry(issue, f);
    lemma_task_entry(issue, g);
    lemma_task_entry(issue, h);
    lemma_task_entry(issue, i);
}

/// A template sees where the task belongs, when it is due and what was said of it, where
/// any of this is known.
pub proof fn law_templates_see_what_is_known(issue: IssueView)
    ensures
        issue.assignee_id matches Some(text) ==> holds(
            issue_json(issue),
            "assignee_id"@,
            JsonView::Text(text),
        ),
        issue.parent_id matches Some(text) ==> holds(
            issue_json(issue),
            "parent_id"@,
            JsonView::Text(text),
        ),
        issue.project_id matches Some(text) ==> holds(
            issue_json(issue),
            "project_id"@,
            JsonView::Text(text),
        ),
        issue.section_id matches Some(text) ==> holds(
            issue_json(issue),
            "section_id"@,
            JsonView::Text(text),
        ),
        issue.due matches Some(json) ==> holds(issue_json(issue), "due"@, json),
        issue.deadline matches Some(json) ==> holds(issue_json(issue), "deadline"@, json),
        issue.todoist_comments.len() > 0 ==> holds(
            issue_json(issue),
            "todoist_comments"@,
            JsonView::Array(
                issue.todoist_comments.map_values(|comment: CommentView| comment_json(comment)),
            ),
        ),
        issue.todoist_comments_truncated ==> holds(
            issue_json(issue),
            "todoist_comments_truncated"@,
            JsonView::Bool(true),
        ),
        holds(
            issue_json(issue),
            "labels"@,
            JsonView::Array(issue.labels.map_values(|label: Seq<char>| JsonView::Text(label))),
        ),
        issue.created_at matches Some(at) && time_text(at) is Some ==> holds(
            issue_json(issue),
            "created_at"@,
            JsonView::Text(time_text(issue.created_at->0)->0),
        ),
        issue.updated_at matches Some(at) && time_text(at) is Some ==> holds(
            issue_json(issue),
            "updated_at"@,
            JsonView::Text(time_text(issue.updated_at->0)->0),
        ),
{
    assert(texts_json(issue.labels) =~= issue.labels.map_values(
        |label: Seq<char>| JsonView::Text(label),
    ));
    assert(comments_json(issue.todoist_comments) =~= issue.todoist_comments.map_values(
        |comment: CommentView| comment_json(comment),
    ));
    let a = ("labels"@, JsonView::Array(texts_json(issue.labels)));
    let b = ("created_at"@, time_or_null(issue.created_at));
    let c = ("updated_at"@, time_or_null(issue.updated_at));
    lemma_one(a);
    lemma_one(b);
    lemma_one(c);
    lemma_task_entry(issue, a);
    lemma_task_entry(issue, b);
    lemma_task_entry(issue, c);
    lemma_known_text(issue, "assignee_id"@, issue.assignee_id);
    lemma_known_text(issue, "parent_id"@, issue.parent_id);
    lemma_known_text(issue, "project_id"@, issue.project_id);
    lemma_known_text(issue, "section_id"@, issue.section_id);
    if let Some(json) = issue.due {
        lemma_one(("due"@, json));
        lemma_task_entry(issue, ("due"@, json));
    }
    if let Some(json) = issue.deadline {
        lemma_one(("deadline"@, json));
        lemma_task_entry(issue, ("deadline"@, json));
    }
    if issue.todoist_comments.len() > 0 {
        let x = ("todoist_comments"@, JsonView::Array(comments_json(issue.todoist_comments)));
        lemma_one(x);
        lemma_task_entry(issue, x);
    }
    if issue.todoist_comments_truncated {
        let x = ("todoist_comments_truncated"@, JsonView::Bool(true));
        lemma_one(x);
        lemma_task_entry(issue, x);
    }
}

proof fn lemma_known_text(issue: IssueView, key: Seq<char>, text: Option<Seq<char>>)
    requires
        key == "assignee_id"@ && text == issue.assignee_id || key == "parent_id"@ && text
            == issue.parent_id || key == "project_id"@ && text == issue.project_id || key
            == "section_id"@ && text == issue.section_id,
    ensures
        text matches Some(t) ==> (issue_json(issue)->Object_0).contains((key, JsonView::Text(t))),
{
    if let Some(t) = text {
        lemma_one((key, JsonView::Text(t)));
        lemma_task_entry(issue, (key, JsonView::Text(t)));
    }
}

/// A template sees every comment with its author, its times and what is attached to it.
pub proof fn law_templates_see_the_comments(comment: CommentView)
    ensures
        holds(comment_json(comment), "id"@, JsonView::Text(comment.id)),
        holds(comment_json(comment), "content"@, JsonView::Text(comment.content)),
        comment.author_id matches Some(text) ==> holds(
            comment_json(comment),
            "author_id"@,
            JsonView::Text(text),
        ),
        comment.posted_at matches Some(text) ==> holds(
            comment_json(comment),
            "posted_at"@,
            JsonView::Text(text),
        ),
        comment.updated_at matches Some(text) ==> holds(
            comment_json(comment),
            "updated_at"@,
            JsonView::Text(text),
        ),
        comment.attachment_name matches Some(text) ==> holds(
            comment_json(comment),
            "attachment_name"@,
            JsonView::Text(text),
        ),
        comment.attachment_url matches Some(text) ==> holds(
            comment_json(comment),
            "attachment_url"@,
            JsonView::Text(text),
        ),
{
    lemma_comment_entry(comment, ("id"@, JsonView::Text(comment.id)));
    lemma_comment_entry(comment, ("content"@, JsonView::Text(comment.content)));
    if let Some(text) = comment.author_id {
        lemma_comment_entry(comment, ("author_id"@, JsonView::Text(text)));
    }
    if let Some(text) = comment.posted_at {
        lemma_comment_entry(comment, ("posted_at"@, JsonView::Text(text)));
    }
    if let Some(text) = comment.updated_at {
        lemma_comment_entry(comment, ("updated_at"@, JsonView::Text(text)));
    }
    if let Some(text) = comment.attachment_name {
        lemma_comment_entry(comment, ("attachment_name"@, JsonView::Text(text)));
    }
    if let Some(text) = comment.attachment_url {
        lemma_comment_entry(comment, ("attachment_url"@, JsonView::Text(text)));
    }
}

proof fn lemma_comment_entry(comment: CommentView, x: (Seq<char>, JsonView))
    requires
        x == ("id"@, JsonView::Text(comment.id)) || x == (
            "content"@,
            JsonView::Text(comment.content),
        ) || text_entry("attachment_name"@, comment.attachment_name) == seq![x] || text_entry(
            "attachment_url"@,
            comment.attachment_url,
        ) == seq![x] || text_entry("author_id"@, comment.author_id) == seq![x] || text_entry(
            "posted_at"@,
            comment.posted_at,
        ) == seq![x] || text_entry("updated_at"@, comment.updated_at) == seq![x],
    ensures
        (comment_json(comment)->Object_0).contains(x),
{
    lemma_one(x);
    let s0 = text_entry("attachment_name"@, comment.attachment_name);
    let p1 = text_entry("attachment_url"@, comment.attachment_url);
    let s1 = s0 + p1;
    lemma_in_sum(s0, p1, x);
    let p2 = text_entry("author_id"@, comment.author_id);
    let s2 = s1 + p2;
    lemma_in_sum(s1, p2, x);
    let p3 = seq![("content"@, JsonView::Text(comment.content))];
    let s3 = s2 + p3;
    lemma_in_sum(s2, p3, x);
    let p4 = seq![("id"@, JsonView::Text(comment.id))];
    let s4 = s3 + p4;
    lemma_in_sum(s3, p4, x);
    let p5 = text_entry("posted_at"@, comment.posted_at);
    let s5 = s4 + p5;
    lemma_in_sum(s4, p5, x);
    let p6 = text_entry("updated_at"@, comment.updated_at);
    lemma_in_sum(s5, p6, x);
    assert(comment_json(comment)->Object_0 == s5 + p6);
}

} // verus!
