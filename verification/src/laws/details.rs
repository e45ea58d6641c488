//! Smaller parts: what is handed on, listed and worded on the way.
use vstd::prelude::*;

use crate::actions::{log_names, log_parts};
use crate::codex::initialize_message;
use crate::github::{coordinates, entry_summary, log_detail, present_parts};
use crate::humanize::{budget_words, listed, with_part};
use crate::issue::IssueView;
use crate::json::{JsonView, NumberView};
use crate::pattern::first_captures;
use crate::prompt::{issue_json, issue_json_without_comments, PromptErrorView};
use crate::table::{in_order, lemma_put_in_order, lemma_put_lookup, lookup};
use crate::text::{decimal, joined, lowered, trimmed};
use crate::todoist_flow::{searching, settled, usable_capabilities, PurposeView};
use crate::tracker::{RateBudgetView, TrackerCapabilities, TrackerError};
use crate::workpad::{comment_id, comment_ids, section_named};
use crate::workpad_flow::{SearchStepView, SearchView};

verus! {

broadcast use vstd::seq::group_seq_axioms;

/// A session is opened by a client of this name and version that knows the newer calls.
pub proof fn law_sessions_are_opened_by_name(version: Seq<char>)
    ensures
        initialize_message(version) == JsonView::Object(
            seq![
                ("id"@, JsonView::Number(NumberView::Unsigned(1))),
                ("method"@, JsonView::Text("initialize"@)),
                (
                    "params"@,
                    JsonView::Object(
                        seq![
                            (
                                "capabilities"@,
                                JsonView::Object(seq![("experimentalApi"@, JsonView::Bool(true))]),
                            ),
                            (
                                "clientInfo"@,
                                JsonView::Object(
                                    seq![
                                        ("name"@, JsonView::Text("symphony-rust"@)),
                                        ("version"@, JsonView::Text(version)),
                                    ],
                                ),
                            ),
                        ],
                    ),
                ),
            ],
        ),
{
}

/// What a call is about is logged by the identifiers that it names, in this order.
pub proof fn law_calls_are_logged_by_identifier(
    entries: Seq<(Seq<char>, JsonView)>,
    names: Seq<Seq<char>>,
    name: Seq<char>,
)
    ensures
        log_names() == seq![
            "task_id"@,
            "project_id"@,
            "section_id"@,
            "comment_id"@,
            "object_id"@,
            "origin_task_id"@,
        ],
        log_parts(entries, Seq::empty()) == Seq::<Seq<char>>::empty(),
        log_parts(entries, names.push(name)) == match lookup(entries, name) {
            Some(JsonView::Text(text)) if trimmed(text).len() > 0 => log_parts(entries, names).push(
                name + "="@ + trimmed(text),
            ),
            Some(JsonView::Number(n)) if n.written().len() > 0 => log_parts(entries, names).push(
                name + "="@ + n.written(),
            ),
            _ => log_parts(entries, names),
        },
{
    assert(names.push(name).drop_last() =~= names);
    assert(names.push(name).last() == name);
}

/// An error of the code host is summed up by what it says of its resource, field, code and
/// message, as far as it says any of it.
pub proof fn law_errors_are_summed_up(error: JsonView, names: Seq<Seq<char>>, name: Seq<char>)
    ensures
        present_parts(error, Seq::empty()) == Seq::<Seq<char>>::empty(),
        present_parts(error, names.push(name)) == match error.get(name) {
            Some(JsonView::Text(text)) if trimmed(text).len() > 0 => present_parts(
                error,
                names,
            ).push(trimmed(text)),
            _ => present_parts(error, names),
        },
        match error {
            JsonView::Text(text) => entry_summary(error) == if trimmed(text).len() > 0 {
                Some(log_detail(trimmed(text), 120))
            } else {
                None
            },
            JsonView::Object(_) => ({
                let parts = present_parts(
                    error,
                    seq!["resource"@, "field"@, "code"@, "message"@],
                );
                entry_summary(error) == if parts.len() > 0 {
                    Some(log_detail(joined(parts, ":"@), 120))
                } else {
                    None
                }
            }),
            _ => entry_summary(error) is None,
        },
{
    assert(names.push(name).drop_last() =~= names);
    assert(names.push(name).last() == name);
}

/// A request is named by its owner, its repository and its number, in this order.
pub proof fn law_requests_are_named_by_three_parts(pr_url: Seq<char>)
    ensures
        match first_captures(crate::github::PR_COORDINATES_PATTERN@, pr_url) {
            Some(groups) if groups.len() == 3 => coordinates(pr_url) == Some(
                (groups[0], groups[1], groups[2]),
            ),
            _ => coordinates(pr_url) is None,
        },
{
}

/// The identifiers of comments are listed in their order.
pub proof fn law_identifiers_are_listed(comments: Seq<JsonView>, comment: JsonView)
    ensures
        comment_ids(Seq::empty()) == Seq::<Seq<char>>::empty(),
        comment_ids(comments.push(comment)) == match comment_id(comment) {
            Some(id) => comment_ids(comments).push(id),
            None => comment_ids(comments),
        },
{
    assert(comments.push(comment).drop_last() =~= comments);
    assert(comments.push(comment).last() == comment);
}

/// A section is the first of its name, whatever the case of the name.
pub proof fn law_sections_are_found_by_name(
    sections: Seq<(Seq<char>, Seq<char>)>,
    name: Seq<char>,
    i: int,
)
    requires
        0 <= i <= sections.len(),
        forall|j: int| 0 <= j < i ==> lowered((#[trigger] sections[j]).0) != lowered(name),
        i < sections.len() ==> lowered(sections[i].0) == lowered(name),
    ensures
        section_named(sections, name) == if i < sections.len() {
            Some(sections[i].1)
        } else {
            None
        },
    decreases sections.len(),
{
    if i > 0 {
        let rest = sections.skip(1);
        assert(lowered(sections[0].0) != lowered(name));
        assert forall|j: int| 0 <= j < i - 1 implies lowered((#[trigger] rest[j]).0) != lowered(
            name,
        ) by {
            assert(rest[j] == sections[j + 1]);
        }
        if i < sections.len() {
            assert(rest[i - 1] == sections[i]);
        }
        law_sections_are_found_by_name(rest, name, i - 1);
    }
}

/// A tracker that cannot say what it is capable of is taken to be capable of everything.
pub proof fn law_unknown_capabilities_are_granted(
    capabilities: TrackerCapabilities,
    error: TrackerError,
)
    ensures
        usable_capabilities(Ok(capabilities)) == capabilities,
        usable_capabilities(Err(error)).comments,
        usable_capabilities(Err(error)).reminders,
        usable_capabilities(Err(error)).activity_log,
{
}

/// A workpad that was hinted at is used without a repair.
pub proof fn law_hinted_workpads_are_not_repaired(
    search: SearchView,
    purpose: PurposeView,
    comment: JsonView,
)
    ensures
        searching(search, purpose, Ok(SearchStepView::Found(comment))) == Some(
            settled(search.task_id, purpose, Some(comment), false),
        ),
{
}

/// A prompt without comments is made from the task as it is, but with no comments.
pub proof fn law_comments_can_be_left_out(issue: IssueView, key: Seq<char>)
    requires
        in_order(
            issue_json(
                IssueView {
                    todoist_comments: Seq::empty(),
                    todoist_comments_truncated: false,
                    ..issue
                },
            )->Object_0,
        ),
    ensures
        ({
            let bare = issue_json(
                IssueView {
                    todoist_comments: Seq::empty(),
                    todoist_comments_truncated: false,
                    ..issue
                },
            )->Object_0;
            issue_json_without_comments(issue) matches JsonView::Object(told) && lookup(told, key)
                == if key == "todoist_comments_truncated"@ {
                Some(JsonView::Bool(false))
            } else if key == "todoist_comments"@ {
                Some(JsonView::Array(Seq::empty()))
            } else {
                lookup(bare, key)
            }
        }),
{
    let bare = issue_json(
        IssueView {
            todoist_comments: Seq::empty(),
            todoist_comments_truncated: false,
            ..issue
        },
    )->Object_0;
    let none = JsonView::Array(Seq::<JsonView>::empty());
    lemma_put_in_order(bare, "todoist_comments"@, none);
    lemma_put_lookup(bare, "todoist_comments"@, none, key);
    lemma_put_lookup(
        crate::table::put(bare, "todoist_comments"@, none),
        "todoist_comments_truncated"@,
        JsonView::Bool(false),
        key,
    );
}

/// How a prompt that could not be made is told of.
pub proof fn law_prompt_failures_are_shown(reason: Seq<char>)
    ensures
        PromptErrorView::TemplateEmpty.shown() == "template_empty"@,
        PromptErrorView::TemplateParse(reason).shown() == "template_parse_error "@ + reason,
        PromptErrorView::TemplateRender(reason).shown() == "template_render_error "@ + reason,
{
}

/// What is listed is joined, and nothing is said to be not available.
pub proof fn law_lists_are_joined(parts: Seq<Seq<char>>)
    ensures
        listed(parts) == if parts.len() == 0 {
            "n/a"@
        } else {
            joined(parts, "; "@)
        },
{
}

/// A part of a rate budget in seconds.
pub open spec fn in_seconds(label: Seq<char>, seconds: Option<u64>) -> Option<Seq<char>> {
    match seconds {
        Some(n) => Some(label + decimal(n as nat) + "s"@),
        None => None,
    }
}

/// The budget of the tracker tells what is left of it, when it is full again, how long
/// requests are held back, and when the next may go out.
pub proof fn law_budgets_are_told(budget: RateBudgetView)
    ensures
        ({
            let left = match (budget.remaining, budget.limit) {
                (Some(remaining), Some(limit)) => Some(
                    decimal(remaining as nat) + "/"@ + decimal(limit as nat) + " remaining"@,
                ),
                (None, Some(limit)) => Some("limit "@ + decimal(limit as nat)),
                _ => None,
            };
            let held = match budget.throttled_for_seconds {
                Some(n) => in_seconds("throttled "@, Some(n)),
                None => in_seconds("retry_after "@, budget.retry_after_seconds),
            };
            budget_words(budget) == listed(
                with_part(
                    with_part(
                        with_part(
                            with_part(Seq::empty(), left),
                            in_seconds("reset "@, budget.reset_in_seconds),
                        ),
                        held,
                    ),
                    in_seconds("next slot "@, budget.next_request_in_seconds),
                ),
            )
        }),
{
}

} // verus!
