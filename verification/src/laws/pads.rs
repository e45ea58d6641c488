//! The workpad of a task: what is stored as one, how it is found again, and what is asked
//! of the tracker to read, write and delete it.
use vstd::prelude::*;

use crate::actions::TodoistStepView;
use crate::json::JsonView;
use crate::text::{
    after_prefix, before, begins, byte_len, joined, lemma_before_irreflexive, lowered, occurs,
    trimmed, trimmed_start,
};
use crate::todoist_flow::{
    opened, page_read, repairing, replied, search_started, searching, settled, FlowView,
    PurposeView, RequestView, WaitView,
};
use crate::tracker::TrackerErrorView;
use crate::workpad::{
    all_equivalent, canonical, changed_at, comment_id, comment_ids, cut_text, history_lines,
    is_workpad, kept_lines, latest, normalized, pr_url_in, preferred_names, section_named,
    with_marker,
};
use crate::workpad_flow::{
    comment_with, delete_reply, duplicates_of, hinted_comment, raw_id, read_reply, repair,
    workpads_in, SearchStepView, SearchView,
};

verus! {

broadcast use vstd::seq::group_seq_axioms;

/// The refusal of an operation with this text.
pub open spec fn refusal(text: Seq<char>) -> TrackerErrorView {
    TrackerErrorView::TrackerOperationUnsupported(text)
}

/// The text that stands in a comment.
pub open spec fn content_of(comment: JsonView) -> Option<Seq<char>> {
    match comment.get("content"@) {
        Some(JsonView::Text(content)) => Some(content),
        _ => None,
    }
}

/// The text under a key of a comment.
pub open spec fn text_of(comment: JsonView, key: Seq<char>) -> Option<Seq<char>> {
    match comment.get(key) {
        Some(JsonView::Text(text)) => Some(text),
        _ => None,
    }
}

/// What is stored for a text that is not too long is the text itself under a header and a
/// marker; neither is put in twice.
pub proof fn law_short_workpads_are_stored_whole(content: Seq<char>)
    requires
        byte_len(with_marker(content)) <= 15_000,
    ensures
        ({
            let t = trimmed(content);
            let head = "## Codex Workpad"@ + "\n\n"@ + "<!-- symphony:workpad -->"@;
            normalized(content) == Some(
                if t.len() == 0 {
                    head
                } else if occurs(t, "<!-- symphony:workpad -->"@) {
                    t
                } else {
                    match after_prefix(t, "## Codex Workpad"@) {
                        Some(rest) => head + rest,
                        None => head + "\n\n"@ + t,
                    }
                },
            )
        }),
{
    let t = trimmed(content);
    assert("## Codex Workpad"@ + "\n\n"@ + "<!-- symphony:workpad -->"@ + "\n\n"@ + t =~= (
    "## Codex Workpad"@ + "\n\n"@ + "<!-- symphony:workpad -->"@) + "\n\n"@ + t);
}

/// A comment is a workpad exactly where it holds the marker or starts with the header.
pub proof fn law_workpads_are_marked(comment: JsonView)
    ensures
        is_workpad(comment) <==> match content_of(comment) {
            Some(content) => occurs(content, "<!-- symphony:workpad -->"@) || begins(
                trimmed_start(content),
                "## Codex Workpad"@,
            ),
            None => false,
        },
{
}

/// A workpad is looked for under the identifier that is hinted at, or else among all the
/// comments of the task.
pub proof fn law_workpads_are_looked_for(
    task_id: Seq<char>,
    hint: Option<Seq<char>>,
    purpose: PurposeView,
)
    ensures
        match search_started(task_id, hint, purpose) {
            FlowView::Ask { request: RequestView::GetComment(id), wait: WaitView::Hinted {
                search,
                hint: asked,
                purpose: kept,
            } } => hint is Some && id == trimmed(hint->0) && id.len() > 0 && asked == id
                && search.task_id == task_id && search.hint == hint && search.matches.len() == 0
                && kept == purpose,
            FlowView::Ask { request: RequestView::ListComments(arguments), wait: WaitView::Listed {
                search,
                purpose: kept,
            } } => (hint is None || trimmed(hint->0).len() == 0) && arguments == JsonView::Object(
                seq![("task_id"@, JsonView::Text(task_id))],
            ) && search.task_id == task_id && search.hint == hint && search.matches.len() == 0
                && kept == purpose,
            _ => false,
        },
{
}

/// A comment that was hinted at is used only where it is a workpad of this very task.
pub proof fn law_hinted_comments_are_checked(
    task_id: Seq<char>,
    hint: Seq<char>,
    comment: JsonView,
)
    ensures
        hinted_comment(task_id, hint, comment) == if !is_workpad(comment) {
            Err(
                refusal(
                    "comment_id `"@ + hint + "` does not reference a Symphony workpad comment."@,
                ),
            )
        } else {
            match owner_of(comment) {
                None => Err(refusal("workpad comment `"@ + hint + "` is missing `item_id`."@)),
                Some(owner) => if owner == task_id {
                    Ok(SearchStepView::Found(comment))
                } else {
                    Err(
                        refusal(
                            "workpad comment `"@ + hint + "` belongs to task `"@ + owner
                                + "`, not `"@ + task_id + "`."@,
                        ),
                    )
                },
            }
        },
{
}

/// The task that a comment belongs to.
pub open spec fn owner_of(comment: JsonView) -> Option<Seq<char>> {
    match comment.get("item_id"@) {
        Some(JsonView::Text(text)) => if trimmed(text).len() > 0 {
            Some(trimmed(text))
        } else {
            None
        },
        Some(JsonView::Number(n)) => Some(n.written()),
        _ => None,
    }
}

/// Of a page of comments exactly the workpads are kept, in their order.
pub proof fn law_pages_are_searched(comments: Seq<JsonView>)
    ensures
        workpads_in(comments) == comments.filter(|comment: JsonView| is_workpad(comment)),
    decreases comments.len(),
{
    reveal(Seq::filter);
    if comments.len() > 0 {
        law_pages_are_searched(comments.drop_last());
    }
}

/// Pages are read as long as there is another one: each adds its workpads to those that
/// were found. After the last the one that counts is settled on.
pub proof fn law_every_page_is_read(search: SearchView, purpose: PurposeView, page: JsonView)
    ensures
        ({
            let results = match page.get("results"@) {
                Some(JsonView::Array(results)) => Some(results),
                _ => None,
            };
            let found = SearchView {
                task_id: search.task_id,
                hint: search.hint,
                matches: search.matches + workpads_in(results->0),
            };
            page_read(search, purpose, page) == match (results, text_of(page, "next_cursor"@)) {
                (None, _) => Some(FlowView::Done(Err(TrackerErrorView::TodoistUnknownPayload))),
                (Some(_), Some(cursor)) => Some(
                    FlowView::Ask {
                        request: RequestView::ListComments(
                            JsonView::Object(
                                seq![
                                    ("cursor"@, JsonView::Text(cursor)),
                                    ("task_id"@, JsonView::Text(search.task_id)),
                                ],
                            ),
                        ),
                        wait: WaitView::Listed { search: found, purpose },
                    },
                ),
                (Some(_), None) => searching(found, purpose, Ok(SearchStepView::Listed)),
            }
        }),
{
}

/// Of several workpads the one that is hinted at counts; without a hint the one that was
/// changed last does, but only where all say the same. Otherwise nothing is touched.
pub proof fn law_the_right_workpad_counts(comments: Seq<JsonView>, hint: Option<Seq<char>>)
    requires
        comments.len() > 0,
    ensures
        comments.len() == 1 ==> canonical(comments, hint) == (match comment_id(comments[0]) {
            Some(id) => Ok::<Seq<char>, TrackerErrorView>(id),
            None => Err(refusal("existing workpad comment is missing an `id`"@)),
        }),
        comments.len() > 1 && is_hint(comments, hint) ==> canonical(comments, hint) == Ok::<
            Seq<char>,
            TrackerErrorView,
        >(trimmed(hint->0)),
        comments.len() > 1 && !is_hint(comments, hint) && !all_equivalent(comments) ==> canonical(
            comments,
            hint,
        ) == Err::<Seq<char>, TrackerErrorView>(
            refusal(
                "multiple workpad comments exist for task and automatic repair is unsafe. Duplicate comment ids: "@
                    + joined(comment_ids(comments), ", "@),
            ),
        ),
        comments.len() > 1 && !is_hint(comments, hint) && all_equivalent(comments) ==> exists|
            k: int,
        |
            0 <= k < comments.len() && #[trigger] is_newest(comments, k) && canonical(
                comments,
                hint,
            ) == (match comment_id(comments[k]) {
                Some(id) => Ok::<Seq<char>, TrackerErrorView>(id),
                None => Err(refusal("existing workpad comment is missing an `id`"@)),
            }),
{
    if comments.len() > 1 && !is_hint(comments, hint) && all_equivalent(comments) {
        lemma_newest(comments);
        assert(is_newest(comments, latest(comments)));
    }
}

/// Whether the hint names one of the comments.
pub open spec fn is_hint(comments: Seq<JsonView>, hint: Option<Seq<char>>) -> bool {
    hint is Some && trimmed(hint->0).len() > 0 && exists|i: int|
        0 <= i < comments.len() && comment_id(#[trigger] comments[i]) == Some(trimmed(hint->0))
}

/// When a comment was changed last, or, where that is not said, when it was posted.
pub open spec fn last_change(comment: JsonView) -> Seq<char> {
    match (text_of(comment, "updated_at"@), text_of(comment, "posted_at"@)) {
        (Some(at), _) => at,
        (None, Some(at)) => at,
        (None, None) => ""@,
    }
}

/// Whether no comment was changed after this one, nor at the same time and listed later.
pub open spec fn is_newest(comments: Seq<JsonView>, k: int) -> bool {
    &&& forall|i: int|
        0 <= i < comments.len() ==> !before(
            last_change(comments[k]),
            last_change(#[trigger] comments[i]),
        )
    &&& forall|i: int|
        k < i < comments.len() ==> before(
            last_change(#[trigger] comments[i]),
            last_change(comments[k]),
        )
}

proof fn lemma_newest(comments: Seq<JsonView>)
    requires
        comments.len() > 0,
    ensures
        0 <= latest(comments) < comments.len(),
        is_newest(comments, latest(comments)),
    decreases comments.len(),
{
    assert(forall|c: JsonView| #[trigger] last_change(c) == changed_at(c));
    if comments.len() == 1 {
        lemma_before_irreflexive(last_change(comments[0]));
    } else {
        let front = comments.drop_last();
        lemma_newest(front);
        let best = latest(front);
        let n = comments.len() - 1;
        assert(forall|i: int| 0 <= i < n ==> front[i] == #[trigger] comments[i]);
        let k = latest(comments);
        assert forall|i: int| 0 <= i < comments.len() implies !before(
            last_change(comments[k]),
            last_change(#[trigger] comments[i]),
        ) by {
            if k == n {
                if i == n {
                    lemma_before_irreflexive(last_change(comments[n]));
                } else {
                    assert(front[i] == comments[i]);
                    let a = last_change(comments[n]);
                    let b = last_change(comments[i]);
                    let c = last_change(comments[best]);
                    if before(a, b) {
                        assert(!before(c, b));
                        crate::text::lemma_before_total(c, b);
                        if before(b, c) {
                            crate::text::lemma_before_transitive(a, b, c);
                        }
                    }
                }
            } else if i == n {
                let a = last_change(comments[n]);
                let c = last_change(comments[best]);
                if before(c, a) {
                    crate::text::lemma_before_transitive(a, c, a);
                    lemma_before_irreflexive(a);
                }
            } else {
                assert(front[i] == comments[i]);
            }
        }
        assert forall|i: int| k < i < comments.len() implies before(
            last_change(#[trigger] comments[i]),
            last_change(comments[k]),
        ) by {
            if i < n {
                assert(front[i] == comments[i]);
            }
        }
    }
}

/// The identifiers of the comments other than this one.
pub open spec fn others_of(comments: Seq<JsonView>, id: Seq<char>) -> Seq<Option<Seq<char>>>
    decreases comments.len(),
{
    comments.map_values(|comment: JsonView| comment_id(comment)).filter(
        |found: Option<Seq<char>>| found != Some(id),
    )
}

proof fn lemma_others(comments: Seq<JsonView>, id: Seq<char>)
    requires
        forall|i: int| 0 <= i < comments.len() ==> comment_id(#[trigger] comments[i]) is Some,
    ensures
        duplicates_of(comments, id).1,
        duplicates_of(comments, id).0.map_values(|other: Seq<char>| Some(other)) == others_of(
            comments,
            id,
        ),
    decreases comments.len(),
{
    let name = |comment: JsonView| comment_id(comment);
    let differs = |found: Option<Seq<char>>| found != Some(id);
    let some = |other: Seq<char>| Some(other);
    reveal(Seq::filter);
    if comments.len() == 0 {
        assert(comments.map_values(name) =~= Seq::empty());
        assert(duplicates_of(comments, id).0.map_values(some) =~= Seq::empty());
    } else {
        let rest = comments.skip(1);
        assert forall|i: int| 0 <= i < rest.len() implies comment_id(#[trigger] rest[i]) is Some by {
            assert(rest[i] == comments[i + 1]);
        }
        lemma_others(rest, id);
        let head = seq![comment_id(comments[0])];
        assert(comments.map_values(name) =~= head + rest.map_values(name));
        lemma_filter_of_sum(head, rest.map_values(name), differs);
        assert(head.filter(differs) =~= if differs(head[0]) {
            head
        } else {
            Seq::empty()
        }) by {
            assert(head.drop_last() =~= Seq::empty());
            assert(head.drop_last().filter(differs) =~= Seq::empty());
        }
        let here = duplicates_of(comments, id).0;
        let later = duplicates_of(rest, id).0;
        if comment_id(comments[0]) == Some(id) {
            assert(here.map_values(some) =~= head.filter(differs) + later.map_values(some));
        } else {
            assert(here =~= seq![comment_id(comments[0])->0] + later);
            assert(here.map_values(some) =~= head.filter(differs) + later.map_values(some));
        }
    }
}

proof fn lemma_filter_of_sum(
    a: Seq<Option<Seq<char>>>,
    b: Seq<Option<Seq<char>>>,
    keep: spec_fn(Option<Seq<char>>) -> bool,
)
    ensures
        (a + b).filter(keep) == a.filter(keep) + b.filter(keep),
    decreases b.len(),
{
    reveal(Seq::filter);
    if b.len() == 0 {
        assert(a + b =~= a);
        assert(a.filter(keep) + b.filter(keep) =~= a.filter(keep));
    } else {
        lemma_filter_of_sum(a, b.drop_last(), keep);
        assert((a + b).drop_last() =~= a + b.drop_last());
        assert((a + b).last() == b.last());
        assert((a + b).filter(keep) =~= a.filter(keep) + b.filter(keep));
    }
}

/// Where a task has several workpads, every one but the one that counts is deleted, and
/// that one is told of with word of the repair. A single one is left as it is.
pub proof fn law_duplicates_are_deleted(matches: Seq<JsonView>, hint: Option<Seq<char>>)
    requires
        forall|i: int| 0 <= i < matches.len() ==> comment_id(#[trigger] matches[i]) is Some,
    ensures
        matches.len() == 0 ==> repair(matches, hint, true) == (
            Seq::<Seq<char>>::empty(),
            Ok::<(Option<JsonView>, bool), TrackerErrorView>((None, false)),
        ),
        matches.len() > 0 ==> match canonical(matches, hint) {
            Err(error) => repair(matches, hint, true) == (
                Seq::<Seq<char>>::empty(),
                Err::<(Option<JsonView>, bool), TrackerErrorView>(error),
            ),
            Ok(id) => {
                let (deleted, outcome) = repair(matches, hint, true);
                &&& matches.len() == 1 ==> deleted.len() == 0
                &&& matches.len() > 1 ==> deleted.map_values(|other: Seq<char>| Some(other))
                    == others_of(matches, id)
                &&& outcome == Ok::<(Option<JsonView>, bool), TrackerErrorView>(
                    (comment_with(matches, id), matches.len() > 1),
                )
            },
        },
{
    if matches.len() > 0 {
        match canonical(matches, hint) {
            Ok(id) => {
                lemma_others(matches, id);
            },
            Err(_) => {},
        }
    }
}

/// The comment with an identifier is the first that has it.
pub proof fn law_comments_are_found_by_identifier(comments: Seq<JsonView>, id: Seq<char>)
    ensures
        match comment_with(comments, id) {
            Some(comment) => exists|i: int|
                0 <= i < comments.len() && #[trigger] comments[i] == comment && comment_id(comment)
                    == Some(id) && forall|j: int|
                    0 <= j < i ==> comment_id(#[trigger] comments[j]) != Some(id),
            None => forall|i: int|
                0 <= i < comments.len() ==> comment_id(#[trigger] comments[i]) != Some(id),
        },
    decreases comments.len(),
{
    if comments.len() > 0 && comment_id(comments[0]) != Some(id) {
        let rest = comments.skip(1);
        law_comments_are_found_by_identifier(rest, id);
        assert(forall|i: int| 1 <= i < comments.len() ==> #[trigger] comments[i] == rest[i - 1]);
        match comment_with(rest, id) {
            Some(comment) => {
                let i = choose|i: int|
                    0 <= i < rest.len() && #[trigger] rest[i] == comment && comment_id(comment)
                        == Some(id) && forall|j: int|
                        0 <= j < i ==> comment_id(#[trigger] rest[j]) != Some(id);
                assert(comments[i + 1] == comment);
                assert forall|j: int| 0 <= j < i + 1 implies comment_id(#[trigger] comments[j])
                    != Some(id) by {
                    if j > 0 {
                        assert(rest[j - 1] == comments[j]);
                    }
                }
            },
            None => {},
        }
    }
}

/// Duplicates are deleted one after the other before anything else is done.
pub proof fn law_repairs_come_first(
    task_id: Seq<char>,
    left: Seq<Seq<char>>,
    comment: Option<JsonView>,
    repaired: bool,
    error: TrackerErrorView,
    purpose: PurposeView,
)
    ensures
        ({
            let outcome = Ok::<(Option<JsonView>, bool), TrackerErrorView>((comment, repaired));
            repairing(task_id, left, outcome, purpose) == if left.len() > 0 {
                FlowView::Ask {
                    request: RequestView::DeleteComment(left[0]),
                    wait: WaitView::Repairing {
                        task_id,
                        left: left.skip(1),
                        outcome,
                        purpose,
                    },
                }
            } else {
                settled(task_id, purpose, comment, repaired)
            }
        }),
        left.len() == 0 ==> repairing(
            task_id,
            left,
            Err::<(Option<JsonView>, bool), TrackerErrorView>(error),
            purpose,
        ) == FlowView::Done(Err(error)),
{
}

/// A workpad that is read is given back whole, with its identifier and whether there is
/// one at all.
pub proof fn law_workpads_are_read(task_id: Seq<char>, comment: JsonView, repaired: bool)
    ensures
        settled(task_id, PurposeView::Read, Some(comment), repaired) == FlowView::Done(
            Ok(
                JsonView::Object(
                    seq![
                        ("comment"@, comment),
                        ("comment_id"@, own_id(comment)),
                        ("found"@, JsonView::Bool(true)),
                        ("repaired_duplicates"@, JsonView::Bool(repaired)),
                        ("task_id"@, JsonView::Text(task_id)),
                    ],
                ),
            ),
        ),
        settled(task_id, PurposeView::Read, None, repaired) == FlowView::Done(
            Ok(
                JsonView::Object(
                    seq![
                        ("comment"@, JsonView::Null),
                        ("comment_id"@, JsonView::Null),
                        ("found"@, JsonView::Bool(false)),
                        ("repaired_duplicates"@, JsonView::Bool(repaired)),
                        ("task_id"@, JsonView::Text(task_id)),
                    ],
                ),
            ),
        ),
{
    assert(raw_id(Some(comment)) == own_id(comment));
    assert(read_reply(task_id, Some(comment), repaired)->Object_0 =~= seq![
        ("comment"@, comment),
        ("comment_id"@, own_id(comment)),
        ("found"@, JsonView::Bool(true)),
        ("repaired_duplicates"@, JsonView::Bool(repaired)),
        ("task_id"@, JsonView::Text(task_id)),
    ]);
    assert(read_reply(task_id, None, repaired)->Object_0 =~= seq![
        ("comment"@, JsonView::Null),
        ("comment_id"@, JsonView::Null),
        ("found"@, JsonView::Bool(false)),
        ("repaired_duplicates"@, JsonView::Bool(repaired)),
        ("task_id"@, JsonView::Text(task_id)),
    ]);
}

/// The identifier of a comment as it stands there.
pub open spec fn own_id(comment: JsonView) -> JsonView {
    match comment.get("id"@) {
        Some(id) => id,
        None => JsonView::Null,
    }
}

/// A workpad is created where there is none, changed where it says something else, and
/// left alone where it says the same already. What is sent is exactly the new text.
pub proof fn law_workpads_are_written(
    task_id: Seq<char>,
    content: Seq<char>,
    comment: JsonView,
    repaired: bool,
)
    ensures
        settled(task_id, PurposeView::Write { content }, None, repaired) == (FlowView::Ask {
            request: RequestView::CreateComment(
                JsonView::Object(
                    seq![
                        ("content"@, JsonView::Text(content)),
                        ("task_id"@, JsonView::Text(task_id)),
                    ],
                ),
            ),
            wait: WaitView::Written { task_id, created: true, repaired },
        }),
        ({
            let flow = settled(task_id, PurposeView::Write { content }, Some(comment), repaired);
            if content_of(comment) is Some && trimmed(content_of(comment)->0) == content {
                flow == FlowView::Done(
                    Ok(
                        JsonView::Object(
                            seq![
                                ("comment"@, comment),
                                ("comment_id"@, own_id(comment)),
                                ("created"@, JsonView::Bool(false)),
                                ("repaired_duplicates"@, JsonView::Bool(repaired)),
                                ("task_id"@, JsonView::Text(task_id)),
                                ("updated"@, JsonView::Bool(false)),
                            ],
                        ),
                    ),
                )
            } else {
                match text_of(comment, "id"@) {
                    Some(id) => flow == (FlowView::Ask {
                        request: RequestView::UpdateComment {
                            id,
                            arguments: JsonView::Object(
                                seq![("content"@, JsonView::Text(content))],
                            ),
                        },
                        wait: WaitView::Written { task_id, created: false, repaired },
                    }),
                    None => flow == FlowView::Done(
                        Err(refusal("existing workpad comment is missing an `id`"@)),
                    ),
                }
            }
        }),
{
    assert(raw_id(Some(comment)) == own_id(comment));
}

/// A workpad that is there is deleted by its identifier; where there is none, nothing is
/// asked of the tracker.
pub proof fn law_workpads_are_deleted(
    task_id: Seq<char>,
    comment: JsonView,
    repaired: bool,
)
    ensures
        settled(task_id, PurposeView::Delete, None, repaired) == FlowView::Done(
            Ok(
                JsonView::Object(
                    seq![
                        ("comment_id"@, JsonView::Null),
                        ("deleted"@, JsonView::Bool(false)),
                        ("repaired_duplicates"@, JsonView::Bool(repaired)),
                        ("task_id"@, JsonView::Text(task_id)),
                    ],
                ),
            ),
        ),
        settled(task_id, PurposeView::Delete, Some(comment), repaired) == match text_of(
            comment,
            "id"@,
        ) {
            Some(id) => FlowView::Ask {
                request: RequestView::DeleteComment(id),
                wait: WaitView::Deleted { task_id, id, repaired },
            },
            None => FlowView::Done(
                Err(refusal("existing workpad comment is missing an `id`"@)),
            ),
        },
{
    assert(delete_reply(task_id, None, repaired)->Object_0 =~= seq![
        ("comment_id"@, JsonView::Null),
        ("deleted"@, JsonView::Bool(false)),
        ("repaired_duplicates"@, JsonView::Bool(repaired)),
        ("task_id"@, JsonView::Text(task_id)),
    ]);
}

/// A task is closed only after its workpad was found, and after the merge of the request
/// that the workpad links was asked for.
pub proof fn law_closing_reads_the_workpad(
    task_id: Seq<char>,
    state: Seq<char>,
    comment: JsonView,
    repaired: bool,
)
    ensures
        settled(task_id, PurposeView::Close { state }, None, repaired) == FlowView::Done(
            Err(refusal("`close_task` requires the persistent task workpad comment."@)),
        ),
        match settled(task_id, PurposeView::Close { state }, Some(comment), repaired) {
            FlowView::AskApi { task_id: asked, state: kept, pr_url, path } => {
                &&& asked == task_id
                &&& kept == state
                &&& content_of(comment) is Some
                &&& pr_url_in(content_of(comment)->0) == Some(pr_url)
                &&& crate::github::coordinates(pr_url) matches Some((owner, repo, number)) && path
                    == "/repos/"@ + owner + "/"@ + repo + "/pulls/"@ + number
            },
            FlowView::Done(Err(error)) => {
                ||| content_of(comment) is None && error == refusal(
                    "`close_task` requires readable workpad content."@,
                )
                ||| content_of(comment) is Some && pr_url_in(content_of(comment)->0) is None
                    && error == refusal(
                    "`close_task` requires a linked GitHub PR URL in the workpad comment."@,
                )
                ||| content_of(comment) is Some && pr_url_in(content_of(comment)->0) is Some
                    && crate::github::coordinates(pr_url_in(content_of(comment)->0)->0) is None
            },
            _ => false,
        },
{
}

/// What comes of the tracker's reply: the answer is handed back as it is, a comment of a
/// task is neither changed nor deleted by its identifier, and what was written, deleted or
/// closed is reported.
pub proof fn law_replies_are_followed(reply: JsonView, id: Seq<char>, arguments: JsonView)
    ensures
        replied(WaitView::Answer, Ok::<JsonView, TrackerErrorView>(reply)) == Some(
            FlowView::Done(Ok(reply)),
        ),
        replied(WaitView::ScopeOfDeleted(id), Ok::<JsonView, TrackerErrorView>(reply)) == Some(
            if owner_of(reply) is Some {
                FlowView::Done(Err(refusal(scope_text())))
            } else {
                FlowView::Ask { request: RequestView::DeleteComment(id), wait: WaitView::Answer }
            },
        ),
        replied(
            WaitView::ScopeOfUpdated { id, arguments },
            Ok::<JsonView, TrackerErrorView>(reply),
        ) == Some(
            if owner_of(reply) is Some {
                FlowView::Done(Err(refusal(scope_text())))
            } else {
                FlowView::Ask {
                    request: RequestView::UpdateComment { id, arguments },
                    wait: WaitView::Answer,
                }
            },
        ),
{
}

/// What is said where a comment of a task is to be changed by its identifier.
pub open spec fn scope_text() -> Seq<char> {
    "Use `get_workpad`, `upsert_workpad`, or `delete_workpad` for task-scoped Symphony comments."@
}

/// What was written, deleted or closed is reported with the task it was for.
pub proof fn law_changes_are_reported(
    task_id: Seq<char>,
    id: Seq<char>,
    state: Seq<char>,
    pr_url: Seq<char>,
    created: bool,
    repaired: bool,
    reply: JsonView,
)
    ensures
        replied(
            WaitView::Written { task_id, created, repaired },
            Ok::<JsonView, TrackerErrorView>(reply),
        ) == Some(
            FlowView::Done(
                Ok(
                    JsonView::Object(
                        seq![
                            ("comment"@, reply),
                            ("comment_id"@, own_id(reply)),
                            ("created"@, JsonView::Bool(created)),
                            ("repaired_duplicates"@, JsonView::Bool(repaired)),
                            ("task_id"@, JsonView::Text(task_id)),
                        ],
                    ),
                ),
            ),
        ),
        replied(
            WaitView::Deleted { task_id, id, repaired },
            Ok::<JsonView, TrackerErrorView>(reply),
        ) == Some(
            FlowView::Done(
                Ok(
                    JsonView::Object(
                        seq![
                            ("comment_id"@, JsonView::Text(id)),
                            ("deleted"@, JsonView::Bool(true)),
                            ("repaired_duplicates"@, JsonView::Bool(repaired)),
                            ("task_id"@, JsonView::Text(task_id)),
                        ],
                    ),
                ),
            ),
        ),
        replied(
            WaitView::Closed { task_id, state, pr_url },
            Ok::<JsonView, TrackerErrorView>(reply),
        ) == Some(
            FlowView::Done(
                Ok(
                    JsonView::Object(
                        seq![
                            ("closed"@, JsonView::Bool(true)),
                            ("pr_url"@, JsonView::Text(pr_url)),
                            ("state"@, JsonView::Text(state)),
                            ("task_id"@, JsonView::Text(task_id)),
                        ],
                    ),
                ),
            ),
        ),
{
    assert(raw_id(Some(reply)) == own_id(reply));
    assert(delete_reply(task_id, Some(id), repaired)->Object_0 =~= seq![
        ("comment_id"@, JsonView::Text(id)),
        ("deleted"@, JsonView::Bool(true)),
        ("repaired_duplicates"@, JsonView::Bool(repaired)),
        ("task_id"@, JsonView::Text(task_id)),
    ]);
}

/// A failure of the tracker ends the call with that failure, but for a hint to a comment
/// that is gone: then all the comments of the task are searched.
pub proof fn law_failures_end_the_call(
    wait: WaitView,
    error: TrackerErrorView,
    search: SearchView,
    hint: Seq<char>,
    purpose: PurposeView,
)
    ensures
        wait !is Hinted ==> replied(wait, Err::<JsonView, TrackerErrorView>(error)) == Some(
            FlowView::Done(Err(error)),
        ),
        replied(
            WaitView::Hinted { search, hint, purpose },
            Err::<JsonView, TrackerErrorView>(error),
        ) == Some(
            match error {
                TrackerErrorView::TodoistApiStatus { status: 404, .. } => FlowView::Ask {
                    request: RequestView::ListComments(
                        JsonView::Object(seq![("task_id"@, JsonView::Text(search.task_id))]),
                    ),
                    wait: WaitView::Listed { search, purpose },
                },
                _ => FlowView::Done(Err(error)),
            },
        ),
{
}

/// A step that was planned is taken: most are asked of the tracker as they are, a comment
/// is looked at before it is changed or deleted, a workpad is looked for, and a task is
/// loaded before it is closed.
pub proof fn law_planned_steps_are_taken(
    id: Seq<char>,
    arguments: JsonView,
    error: TrackerErrorView,
    step: TodoistStepView,
)
    ensures
        opened(Err::<TodoistStepView, TrackerErrorView>(error)) == Some(FlowView::Done(Err(error))),
        opened(Ok::<TodoistStepView, TrackerErrorView>(TodoistStepView::DeleteComment(id))) == Some(
            FlowView::Ask {
                request: RequestView::GetComment(id),
                wait: WaitView::ScopeOfDeleted(id),
            },
        ),
        opened(
            Ok::<TodoistStepView, TrackerErrorView>(
                TodoistStepView::UpdateComment { id, arguments },
            ),
        ) == Some(
            FlowView::Ask {
                request: RequestView::GetComment(id),
                wait: WaitView::ScopeOfUpdated { id, arguments },
            },
        ),
        opened(Ok::<TodoistStepView, TrackerErrorView>(TodoistStepView::GetWorkpad(id))) == Some(
            search_started(id, None, PurposeView::Read),
        ),
        opened(Ok::<TodoistStepView, TrackerErrorView>(TodoistStepView::DeleteWorkpad(id))) == Some(
            search_started(id, None, PurposeView::Delete),
        ),
        opened(Ok::<TodoistStepView, TrackerErrorView>(TodoistStepView::CloseTask(id))) == Some(
            FlowView::LoadTask(id),
        ),
        step !is DeleteComment && step !is UpdateComment && step !is GetWorkpad
            && step !is UpsertWorkpad && step !is DeleteWorkpad && step !is CloseTask ==> opened(
            Ok::<TodoistStepView, TrackerErrorView>(step),
        ) == Some(FlowView::Ask { request: RequestView::Plain(step), wait: WaitView::Answer }),
{
}

/// A text is cut only where it is too long, and then ends in dots.
pub proof fn law_long_texts_are_cut(text: Seq<char>, max: nat)
    ensures
        byte_len(text) <= max ==> cut_text(text, max) == Some(text),
        byte_len(text) > max ==> (cut_text(text, max) matches Some(cut) ==> cut.len() >= 4
            && cut.skip(cut.len() - 4) == " ..."@),
{
    reveal_strlit(" ...");
    assert(" ..."@.len() == 4);
    if byte_len(text) > max {
        if let Some(cut) = cut_text(text, max) {
            assert(cut.skip(cut.len() - 4) =~= " ..."@);
        }
    }
}

/// A workpad that is too long keeps the sections that matter, each under its heading, in
/// this order.
pub proof fn law_compacting_keeps_the_sections(
    sections: Seq<(Seq<char>, Seq<char>)>,
    names: Seq<Seq<char>>,
    n: int,
)
    requires
        0 <= n < names.len(),
        section_named(sections, names[n]) is Some,
        kept_lines(sections, names) is Some,
    ensures
        preferred_names() == seq![
            "Plan"@,
            "Acceptance Criteria"@,
            "Status"@,
            "Blockers"@,
            "Validation"@,
            "Notes"@,
            "Handoff"@,
            "Confusions"@,
        ],
        exists|k: int|
            0 <= k && k + 3 < (kept_lines(sections, names)->0).len() && (
            #[trigger] (kept_lines(sections, names)->0)[k + 1]) == "## "@ + names[n] && (
            kept_lines(sections, names)->0)[k + 3] == cut_text(
                trimmed(section_named(sections, names[n])->0),
                2200,
            )->0,
    decreases names.len(),
{
    let all = kept_lines(sections, names)->0;
    let earlier = kept_lines(sections, names.drop_last())->0;
    if n == names.len() - 1 {
        let k = earlier.len() as int;
        assert(all[k + 1] == "## "@ + names[n]);
    } else {
        assert(names.drop_last()[n] == names[n]);
        law_compacting_keeps_the_sections(sections, names.drop_last(), n);
        let k = choose|k: int|
            0 <= k && k + 3 < earlier.len() && (#[trigger] earlier[k + 1]) == "## "@ + names[n]
                && earlier[k + 3] == cut_text(
                trimmed(section_named(sections, names[n])->0),
                2200,
            )->0;
        assert(all[k + 1] == earlier[k + 1]);
        assert(all[k + 3] == earlier[k + 3]);
    }
}

/// Of the other sections of a workpad that is too long a line each is left.
pub proof fn law_compacting_tells_of_the_rest(
    sections: Seq<(Seq<char>, Seq<char>)>,
    names: Seq<Seq<char>>,
    n: int,
)
    requires
        0 <= n < sections.len(),
        history_lines(sections, names) is Some,
        forall|i: int| 0 <= i < names.len() ==> lowered(sections[n].0) != lowered(#[trigger] names[i]),
    ensures
        (history_lines(sections, names)->0).contains(
            "- "@ + sections[n].0 + ": "@ + cut_text(trimmed(sections[n].1), 160)->0,
        ),
    decreases sections.len(),
{
    let all = history_lines(sections, names)->0;
    let earlier = history_lines(sections.drop_last(), names)->0;
    let line = "- "@ + sections[n].0 + ": "@ + cut_text(trimmed(sections[n].1), 160)->0;
    if n == sections.len() - 1 {
        assert(all[earlier.len() as int] == line);
    } else {
        assert(sections.drop_last()[n] == sections[n]);
        law_compacting_tells_of_the_rest(sections.drop_last(), names, n);
        let k = choose|k: int| 0 <= k < earlier.len() && earlier[k] == line;
        assert(all[k] == line);
    }
}

} // verus!
