//! How the workpad of a task is found, repaired, read, written and deleted. Each step
//! says which tracker operation comes next; the caller performs it and hands back the
//! reply.
use vstd::prelude::*;
use vstd::string::*;

use crate::json::{id_string, id_text, opt_items, opt_json_text, opt_view, views, Json, JsonView};
use crate::text::{concat3, opt_is, opt_text, owned, same, texts, trim, trimmed};
use crate::tracker::{unsupported, unsupported_view, TrackerError, TrackerErrorView};
use crate::workpad::{
    all_storable, canonical, comment_content, comment_id, contents_decide, hint_of, is_workpad,
    is_workpad_comment, try_choose_canonical_workpad_comment, usable_hint, workpad_comment_id,
};

verus! {

broadcast use {vstd::seq::group_seq_axioms, vstd::string::group_string_axioms};

/// The search for the workpad of a task.
#[derive(Debug)]
pub struct WorkpadSearch {
    pub task_id: String,
    pub hint: Option<String>,
    pub matches: Vec<Json>,
}

/// The search for the workpad of a task.
pub struct SearchView {
    pub task_id: Seq<char>,
    pub hint: Option<Seq<char>>,
    pub matches: Seq<JsonView>,
}

impl View for WorkpadSearch {
    type V = SearchView;

    open spec fn view(&self) -> SearchView {
        SearchView {
            task_id: self.task_id@,
            hint: opt_text(self.hint),
            matches: views(self.matches@),
        }
    }
}

/// What the search asks of the tracker.
#[derive(Debug)]
pub enum SearchStep {
    /// Get the comment with this identifier.
    GetComment(String),
    /// List comments with these arguments.
    ListComments(Json),
    /// The comment that was hinted at is the workpad.
    Found(Json),
    /// All comments have been seen.
    Listed,
}

/// What a search step asks for.
pub enum SearchStepView {
    GetComment(Seq<char>),
    ListComments(JsonView),
    Found(JsonView),
    Listed,
}

impl View for SearchStep {
    type V = SearchStepView;

    open spec fn view(&self) -> SearchStepView {
        match self {
            SearchStep::GetComment(id) => SearchStepView::GetComment(id@),
            SearchStep::ListComments(arguments) => SearchStepView::ListComments(arguments@),
            SearchStep::Found(comment) => SearchStepView::Found(comment@),
            SearchStep::Listed => SearchStepView::Listed,
        }
    }
}

/// The workpad that a search ended with.
#[derive(Debug)]
pub struct WorkpadCommentResolution {
    pub comment: Option<Json>,
    pub repaired_duplicates: bool,
}

/// What is left to do once all comments have been seen: delete the duplicates, one
/// after the other, then take the outcome.
#[derive(Debug)]
pub struct RepairPlan {
    pub delete: Vec<String>,
    pub outcome: Result<WorkpadCommentResolution, TrackerError>,
}

/// What a step returns.
pub open spec fn step_result(r: Result<SearchStep, TrackerError>) -> Result<
    SearchStepView,
    TrackerErrorView,
> {
    match r {
        Ok(step) => Ok(step@),
        Err(e) => Err(e@),
    }
}

/// What the outcome of a search holds.
pub open spec fn resolution_result(r: Result<WorkpadCommentResolution, TrackerError>) -> Result<
    (Option<JsonView>, bool),
    TrackerErrorView,
> {
    match r {
        Ok(resolution) => Ok((opt_view(resolution.comment), resolution.repaired_duplicates)),
        Err(e) => Err(e@),
    }
}

/// The arguments that list the comments of a task from a cursor on.
pub open spec fn list_arguments(task_id: Seq<char>, cursor: Option<Seq<char>>) -> JsonView {
    match cursor {
        Some(c) => JsonView::Object(
            seq![("cursor"@, JsonView::Text(c)), ("task_id"@, JsonView::Text(task_id))],
        ),
        None => JsonView::Object(seq![("task_id"@, JsonView::Text(task_id))]),
    }
}

/// The arguments that list the comments of a task from a cursor on.
pub fn build_list_arguments(task_id: &str, cursor: Option<&str>) -> (r: Json)
    ensures
        r@ == list_arguments(task_id@, crate::text::opt_str(cursor)),
{
    match cursor {
        Some(c) => Json::object2("cursor", Json::text(c), "task_id", Json::text(task_id)),
        None => Json::object1("task_id", Json::text(task_id)),
    }
}

/// What a comment that was hinted at means: it has to be a workpad of the task.
pub open spec fn hinted_comment(task_id: Seq<char>, hint: Seq<char>, comment: JsonView) -> Result<
    SearchStepView,
    TrackerErrorView,
> {
    if !is_workpad(comment) {
        Err(
            unsupported_view(
                "comment_id `"@ + hint + "` does not reference a Symphony workpad comment."@,
            ),
        )
    } else {
        match id_text(comment.get("item_id"@)) {
            None => Err(
                unsupported_view("workpad comment `"@ + hint + "` is missing `item_id`."@),
            ),
            Some(owner) => if owner == task_id {
                Ok(SearchStepView::Found(comment))
            } else {
                Err(
                    unsupported_view(
                        "workpad comment `"@ + hint + "` belongs to task `"@ + owner + "`, not `"@
                            + task_id + "`."@,
                    ),
                )
            },
        }
    }
}

/// The workpads among the comments.
pub open spec fn workpads_in(comments: Seq<JsonView>) -> Seq<JsonView>
    decreases comments.len(),
{
    if comments.len() == 0 {
        Seq::empty()
    } else if is_workpad(comments.last()) {
        workpads_in(comments.drop_last()).push(comments.last())
    } else {
        workpads_in(comments.drop_last())
    }
}

/// The first comment with that identifier.
pub open spec fn comment_with(comments: Seq<JsonView>, id: Seq<char>) -> Option<JsonView>
    decreases comments.len(),
{
    if comments.len() == 0 {
        None
    } else if comment_id(comments[0]) == Some(id) {
        Some(comments[0])
    } else {
        comment_with(comments.skip(1), id)
    }
}

/// The identifiers of the comments other than `id`, up to the first that has none,
/// and whether every one has one.
pub open spec fn duplicates_of(comments: Seq<JsonView>, id: Seq<char>) -> (Seq<Seq<char>>, bool)
    decreases comments.len(),
{
    if comments.len() == 0 {
        (Seq::empty(), true)
    } else if comment_id(comments[0]) == Some(id) {
        duplicates_of(comments.skip(1), id)
    } else {
        match comment_id(comments[0]) {
            None => (Seq::empty(), false),
            Some(other) => {
                let (rest, complete) = duplicates_of(comments.skip(1), id);
                (seq![other] + rest, complete)
            },
        }
    }
}

/// What a search ends with: the comments to delete and the outcome.
pub open spec fn repair(matches: Seq<JsonView>, hint: Option<Seq<char>>, repair_duplicates: bool) -> (
    Seq<Seq<char>>,
    Result<(Option<JsonView>, bool), TrackerErrorView>,
) {
    if matches.len() == 0 {
        (Seq::empty(), Ok((None, false)))
    } else {
        match canonical(matches, hint) {
            Err(e) => (Seq::empty(), Err(e)),
            Ok(id) => if repair_duplicates && matches.len() > 1 {
                let (others, complete) = duplicates_of(matches, id);
                if complete {
                    (others, Ok((comment_with(matches, id), true)))
                } else {
                    (
                        others,
                        Err(unsupported_view("duplicate workpad comment is missing an `id`"@)),
                    )
                }
            } else {
                (Seq::empty(), Ok((comment_with(matches, id), false)))
            },
        }
    }
}

/// The first comment with that identifier.
fn find_comment(comments: &Vec<Json>, id: &str) -> (r: Option<Json>)
    ensures
        opt_view(r) == comment_with(views(comments@), id@),
{
    let ghost all = views(comments@);
    let mut i: usize = 0;
    proof {
        assert(all.skip(0) =~= all);
    }
    while i < comments.len()
        invariant
            i <= comments.len(),
            all == views(comments@),
            comment_with(all, id@) == comment_with(all.skip(i as int), id@),
        decreases comments.len() - i,
    {
        proof {
            assert(all.skip(i as int)[0] == comments@[i as int]@);
            assert(all.skip(i as int).skip(1) =~= all.skip(i + 1));
        }
        let found: Option<String> = workpad_comment_id(&comments[i]);
        if opt_is(&found, id) {
            return Some(comments[i].copy());
        }
        i = i + 1;
    }
    None
}

/// The identifiers of the duplicates, and whether every one has one.
fn find_duplicates(comments: &Vec<Json>, id: &str) -> (r: (Vec<String>, bool))
    ensures
        (texts(r.0@), r.1) == duplicates_of(views(comments@), id@),
{
    let ghost all = views(comments@);
    let ghost whole = duplicates_of(all, id@);
    let mut out: Vec<String> = Vec::new();
    let mut i: usize = 0;
    proof {
        assert(all.skip(0) =~= all);
        assert(texts(out@) + whole.0 =~= whole.0);
    }
    while i < comments.len()
        invariant
            i <= comments.len(),
            all == views(comments@),
            whole == duplicates_of(all, id@),
            whole.0 == texts(out@) + duplicates_of(all.skip(i as int), id@).0,
            whole.1 == duplicates_of(all.skip(i as int), id@).1,
        decreases comments.len() - i,
    {
        proof {
            assert(all.skip(i as int)[0] == comments@[i as int]@);
            assert(all.skip(i as int).skip(1) =~= all.skip(i + 1));
        }
        let found: Option<String> = workpad_comment_id(&comments[i]);
        if !opt_is(&found, id) {
            match found {
                None => {
                    proof {
                        assert(texts(out@) + Seq::<Seq<char>>::empty() =~= texts(out@));
                    }
                    return (out, false);
                },
                Some(other) => {
                    let ghost had = texts(out@);
                    out.push(other);
                    proof {
                        let rest = duplicates_of(all.skip(i + 1), id@).0;
                        assert(texts(out@) =~= had.push(other@));
                        assert(texts(out@) + rest =~= had + (seq![other@] + rest));
                    }
                },
            }
        }
        i = i + 1;
    }
    proof {
        assert(all.skip(i as int) =~= Seq::empty());
        assert(texts(out@) + Seq::<Seq<char>>::empty() =~= texts(out@));
    }
    (out, true)
}

impl WorkpadSearch {
    /// Starts the search: with the comment that is hinted at, if any, or else with the
    /// first comments of the task.
    pub fn start(task_id: &str, hint: &Option<String>) -> (r: (WorkpadSearch, SearchStep))
        ensures
            r.0.task_id@ == task_id@,
            opt_text(r.0.hint) == opt_text(*hint),
            views(r.0.matches@) == Seq::<JsonView>::empty(),
            r.1@ == match hint_of(opt_text(*hint)) {
                Some(h) => SearchStepView::GetComment(h),
                None => SearchStepView::ListComments(list_arguments(task_id@, None)),
            },
    {
        let matches: Vec<Json> = Vec::new();
        proof {
            assert(views(matches@) =~= Seq::<JsonView>::empty());
        }
        let search: WorkpadSearch = WorkpadSearch {
            task_id: owned(task_id),
            hint: crate::text::clone_opt(hint),
            matches,
        };
        let step: SearchStep = match usable_hint(hint) {
            Some(h) => SearchStep::GetComment(h),
            None => SearchStep::ListComments(build_list_arguments(task_id, None)),
        };
        (search, step)
    }

    /// Takes the reply to getting the comment that was hinted at. Where it is gone, the
    /// comments of the task are listed instead.
    pub fn on_hinted(&self, hint: &str, reply: Result<Json, TrackerError>) -> (r: Result<
        SearchStep,
        TrackerError,
    >)
        ensures
            step_result(r) == match reply {
                Ok(comment) => hinted_comment(self.task_id@, hint@, comment@),
                Err(e) => match e@ {
                    TrackerErrorView::TodoistApiStatus { status: 404, .. } => Ok(
                        SearchStepView::ListComments(list_arguments(self.task_id@, None)),
                    ),
                    error => Err(error),
                },
            },
    {
        let comment: Json = match reply {
            Ok(comment) => comment,
            Err(TrackerError::TodoistApiStatus { status, body }) => {
                if status == 404 {
                    return Ok(
                        SearchStep::ListComments(build_list_arguments(self.task_id.as_str(), None)),
                    );
                }
                return Err(TrackerError::TodoistApiStatus { status, body });
            },
            Err(error) => {
                return Err(error);
            },
        };
        if !is_workpad_comment(&comment) {
            let message: String = concat3(
                "comment_id `",
                hint,
                "` does not reference a Symphony workpad comment.",
            );
            return Err(unsupported(message));
        }
        match id_string(comment.get("item_id")) {
            None => {
                let message: String = concat3("workpad comment `", hint, "` is missing `item_id`.");
                Err(unsupported(message))
            },
            Some(owner) => {
                if same(owner.as_str(), self.task_id.as_str()) {
                    Ok(SearchStep::Found(comment))
                } else {
                    let mut message: String = concat3(
                        "workpad comment `",
                        hint,
                        "` belongs to task `",
                    );
                    message.append(owner.as_str());
                    message.append("`, not `");
                    message.append(self.task_id.as_str());
                    message.append("`.");
                    Err(unsupported(message))
                }
            },
        }
    }

    /// Takes a page of comments: keeps its workpads and goes on where the page says so.
    pub fn on_page(&mut self, page: &Json) -> (r: Result<SearchStep, TrackerError>)
        ensures
            final(self).task_id == old(self).task_id,
            final(self).hint == old(self).hint,
            match opt_items(page@.get("results"@)) {
                None => step_result(r) == Err::<SearchStepView, TrackerErrorView>(
                    TrackerErrorView::TodoistUnknownPayload,
                ) && final(self).matches@ == old(self).matches@,
                Some(results) => step_result(r) == Ok::<SearchStepView, TrackerErrorView>(
                    match opt_json_text(page@.get("next_cursor"@)) {
                        Some(cursor) => SearchStepView::ListComments(
                            list_arguments(old(self).task_id@, Some(cursor)),
                        ),
                        None => SearchStepView::Listed,
                    },
                ) && views(final(self).matches@) == views(old(self).matches@) + workpads_in(
                    results,
                ),
            },
    {
        let results: &Vec<Json> = match page.get("results") {
            Some(results) => match results.as_array() {
                Some(results) => results,
                None => {
                    return Err(TrackerError::TodoistUnknownPayload);
                },
            },
            None => {
                return Err(TrackerError::TodoistUnknownPayload);
            },
        };
        let ghost all = views(results@);
        let ghost had = views(self.matches@);
        let mut i: usize = 0;
        proof {
            assert(had + workpads_in(all.take(0)) =~= had);
        }
        while i < results.len()
            invariant
                i <= results.len(),
                all == views(results@),
                self.task_id == old(self).task_id,
                self.hint == old(self).hint,
                views(self.matches@) == had + workpads_in(all.take(i as int)),
            decreases results.len() - i,
        {
            proof {
                assert(all.take(i + 1).drop_last() =~= all.take(i as int));
                assert(all.take(i + 1).last() == results@[i as int]@);
            }
            if is_workpad_comment(&results[i]) {
                let comment: Json = results[i].copy();
                let ghost now = self.matches@;
                self.matches.push(comment);
                proof {
                    assert(views(self.matches@) =~= views(now).push(comment@));
                    assert((had + workpads_in(all.take(i as int))).push(comment@) =~= had
                        + workpads_in(all.take(i as int)).push(comment@));
                }
            }
            i = i + 1;
        }
        proof {
            assert(all.take(i as int) =~= all);
        }
        let cursor: Option<&str> = match page.get("next_cursor") {
            Some(cursor) => cursor.as_str(),
            None => None,
        };
        match cursor {
            Some(c) => Ok(
                SearchStep::ListComments(build_list_arguments(self.task_id.as_str(), Some(c))),
            ),
            None => Ok(SearchStep::Listed),
        }
    }

    /// Ends the search. There is no result where the stored form of a comment decides
    /// which one counts and has none.
    pub fn finish(&self, repair_duplicates: bool) -> (r: Option<RepairPlan>)
        ensures
            r is Some <==> (self.matches@.len() > 0 && contents_decide(
                views(self.matches@),
                opt_text(self.hint),
            ) ==> all_storable(views(self.matches@))),
            r matches Some(plan) ==> (texts(plan.delete@), resolution_result(plan.outcome))
                == repair(views(self.matches@), opt_text(self.hint), repair_duplicates),
    {
        let none: Vec<String> = Vec::new();
        proof {
            assert(texts(none@) =~= Seq::<Seq<char>>::empty());
        }
        if self.matches.len() == 0 {
            return Some(
                RepairPlan {
                    delete: none,
                    outcome: Ok(
                        WorkpadCommentResolution { comment: None, repaired_duplicates: false },
                    ),
                },
            );
        }
        let id: String = match try_choose_canonical_workpad_comment(&self.matches, &self.hint) {
            None => {
                return None;
            },
            Some(Err(error)) => {
                return Some(RepairPlan { delete: none, outcome: Err(error) });
            },
            Some(Ok(id)) => id,
        };
        let comment: Option<Json> = find_comment(&self.matches, id.as_str());
        if repair_duplicates && self.matches.len() > 1 {
            let (delete, complete) = find_duplicates(&self.matches, id.as_str());
            let outcome: Result<WorkpadCommentResolution, TrackerError> = if complete {
                Ok(WorkpadCommentResolution { comment, repaired_duplicates: true })
            } else {
                Err(unsupported(owned("duplicate workpad comment is missing an `id`")))
            };
            Some(RepairPlan { delete, outcome })
        } else {
            Some(
                RepairPlan {
                    delete: none,
                    outcome: Ok(WorkpadCommentResolution { comment, repaired_duplicates: false }),
                },
            )
        }
    }
}

// ---------------------------------------------------------------------------
// Reading, writing and deleting
// ---------------------------------------------------------------------------

/// The identifier of a comment as the tracker gave it, or null.
pub open spec fn raw_id(comment: Option<JsonView>) -> JsonView {
    match comment {
        Some(c) => match c.get("id"@) {
            Some(id) => id,
            None => JsonView::Null,
        },
        None => JsonView::Null,
    }
}

fn copy_raw_id(comment: &Option<Json>) -> (r: Json)
    ensures
        r@ == raw_id(opt_view(*comment)),
{
    match comment {
        Some(c) => match c.get("id") {
            Some(id) => id.copy(),
            None => Json::Null,
        },
        None => Json::Null,
    }
}

/// What reading the workpad returns.
pub open spec fn read_reply(
    task_id: Seq<char>,
    comment: Option<JsonView>,
    repaired: bool,
) -> JsonView {
    JsonView::Object(
        seq![
            (
                "comment"@,
                match comment {
                    Some(c) => c,
                    None => JsonView::Null,
                },
            ),
            ("comment_id"@, raw_id(comment)),
            ("found"@, JsonView::Bool(comment is Some)),
            ("repaired_duplicates"@, JsonView::Bool(repaired)),
            ("task_id"@, JsonView::Text(task_id)),
        ],
    )
}

/// What reading the workpad returns.
pub fn get_workpad(task_id: &str, resolved: WorkpadCommentResolution) -> (r: Json)
    ensures
        r@ == read_reply(task_id@, opt_view(resolved.comment), resolved.repaired_duplicates),
{
    let id: Json = copy_raw_id(&resolved.comment);
    let (found, comment): (bool, Json) = match resolved.comment {
        Some(c) => (true, c),
        None => (false, Json::Null),
    };
    let r: Json = Json::object5(
        "comment",
        comment,
        "comment_id",
        id,
        "found",
        Json::Bool(found),
        "repaired_duplicates",
        Json::Bool(resolved.repaired_duplicates),
        "task_id",
        Json::text(task_id),
    );
    proof {
        assert(r@->Object_0 =~= read_reply(
            task_id@,
            opt_view(resolved.comment),
            resolved.repaired_duplicates,
        )->Object_0);
    }
    r
}

/// What writing the workpad asks of the tracker.
#[derive(Debug)]
pub enum UpsertStep {
    /// Nothing: the workpad already holds the notes. This is the reply.
    Unchanged(Json),
    /// Update this comment with these arguments.
    Update { comment_id: String, arguments: Json },
    /// Create a comment with these arguments.
    Create(Json),
}

/// What an upsert step asks for.
pub enum UpsertStepView {
    Unchanged(JsonView),
    Update { comment_id: Seq<char>, arguments: JsonView },
    Create(JsonView),
}

impl View for UpsertStep {
    type V = UpsertStepView;

    open spec fn view(&self) -> UpsertStepView {
        match self {
            UpsertStep::Unchanged(reply) => UpsertStepView::Unchanged(reply@),
            UpsertStep::Update { comment_id, arguments } => UpsertStepView::Update {
                comment_id: comment_id@,
                arguments: arguments@,
            },
            UpsertStep::Create(arguments) => UpsertStepView::Create(arguments@),
        }
    }
}

/// What an upsert step returns.
pub open spec fn upsert_result(r: Result<UpsertStep, TrackerError>) -> Result<
    UpsertStepView,
    TrackerErrorView,
> {
    match r {
        Ok(step) => Ok(step@),
        Err(e) => Err(e@),
    }
}

/// What the tracker is asked in order that the workpad holds `content`: nothing where
/// it already does, an update where there is one, a new comment otherwise.
pub open spec fn upsert(
    task_id: Seq<char>,
    content: Seq<char>,
    existing: Option<JsonView>,
    repaired: bool,
) -> Result<UpsertStepView, TrackerErrorView> {
    match existing {
        None => Ok(
            UpsertStepView::Create(
                JsonView::Object(
                    seq![
                        ("content"@, JsonView::Text(content)),
                        ("task_id"@, JsonView::Text(task_id)),
                    ],
                ),
            ),
        ),
        Some(comment) => if comment_content(comment) is Some && trimmed(comment_content(comment)->0)
            == content {
            Ok(
                UpsertStepView::Unchanged(
                    JsonView::Object(
                        seq![
                            ("comment"@, comment),
                            ("comment_id"@, raw_id(existing)),
                            ("created"@, JsonView::Bool(false)),
                            ("repaired_duplicates"@, JsonView::Bool(repaired)),
                            ("task_id"@, JsonView::Text(task_id)),
                            ("updated"@, JsonView::Bool(false)),
                        ],
                    ),
                ),
            )
        } else {
            match opt_json_text(comment.get("id"@)) {
                None => Err(unsupported_view("existing workpad comment is missing an `id`"@)),
                Some(id) => Ok(
                    UpsertStepView::Update {
                        comment_id: id,
                        arguments: JsonView::Object(seq![("content"@, JsonView::Text(content))]),
                    },
                ),
            }
        },
    }
}

/// What the tracker is asked in order that the workpad holds `content`, which is in
/// the form in which a workpad is stored.
pub fn upsert_workpad(
    task_id: &str,
    content: &str,
    resolved: WorkpadCommentResolution,
) -> (r: Result<UpsertStep, TrackerError>)
    ensures
        upsert_result(r) == upsert(
            task_id@,
            content@,
            opt_view(resolved.comment),
            resolved.repaired_duplicates,
        ),
{
    let id: Json = copy_raw_id(&resolved.comment);
    match resolved.comment {
        None => Ok(
            UpsertStep::Create(
                Json::object2("content", Json::text(content), "task_id", Json::text(task_id)),
            ),
        ),
        Some(comment) => {
            let unchanged: bool = match comment.get("content") {
                Some(current) => match current.as_str() {
                    Some(text) => {
                        let t: String = trim(text);
                        same(t.as_str(), content)
                    },
                    None => false,
                },
                None => false,
            };
            if unchanged {
                return Ok(
                    UpsertStep::Unchanged(
                        Json::object6(
                            "comment",
                            comment,
                            "comment_id",
                            id,
                            "created",
                            Json::Bool(false),
                            "repaired_duplicates",
                            Json::Bool(resolved.repaired_duplicates),
                            "task_id",
                            Json::text(task_id),
                            "updated",
                            Json::Bool(false),
                        ),
                    ),
                );
            }
            let comment_id: Option<&str> = match comment.get("id") {
                Some(id) => id.as_str(),
                None => None,
            };
            match comment_id {
                None => Err(unsupported(owned("existing workpad comment is missing an `id`"))),
                Some(id) => Ok(
                    UpsertStep::Update {
                        comment_id: owned(id),
                        arguments: Json::object1("content", Json::text(content)),
                    },
                ),
            }
        },
    }
}

/// What writing the workpad returns once the tracker has the comment.
pub open spec fn write_reply(
    task_id: Seq<char>,
    created: bool,
    comment: JsonView,
    repaired: bool,
) -> JsonView {
    JsonView::Object(
        seq![
            ("comment"@, comment),
            ("comment_id"@, raw_id(Some(comment))),
            ("created"@, JsonView::Bool(created)),
            ("repaired_duplicates"@, JsonView::Bool(repaired)),
            ("task_id"@, JsonView::Text(task_id)),
        ],
    )
}

/// What writing the workpad returns once the tracker has the comment.
pub fn upserted_workpad(task_id: &str, created: bool, comment: Json, repaired: bool) -> (r: Json)
    ensures
        r@ == write_reply(task_id@, created, comment@, repaired),
{
    let id: Json = match comment.get("id") {
        Some(id) => id.copy(),
        None => Json::Null,
    };
    Json::object5(
        "comment",
        comment,
        "comment_id",
        id,
        "created",
        Json::Bool(created),
        "repaired_duplicates",
        Json::Bool(repaired),
        "task_id",
        Json::text(task_id),
    )
}

/// What deleting the workpad returns.
pub open spec fn delete_reply(task_id: Seq<char>, deleted: Option<Seq<char>>, repaired: bool) -> JsonView {
    JsonView::Object(
        seq![
            (
                "comment_id"@,
                match deleted {
                    Some(id) => JsonView::Text(id),
                    None => JsonView::Null,
                },
            ),
            ("deleted"@, JsonView::Bool(deleted is Some)),
            ("repaired_duplicates"@, JsonView::Bool(repaired)),
            ("task_id"@, JsonView::Text(task_id)),
        ],
    )
}

/// What deleting the workpad returns: once the comment `deleted` is gone, or where there
/// was none.
pub fn deleted_workpad(task_id: &str, deleted: &Option<String>, repaired: bool) -> (r: Json)
    ensures
        r@ == delete_reply(task_id@, opt_text(*deleted), repaired),
{
    let gone: bool = deleted.is_some();
    let r: Json = Json::object4(
        "comment_id",
        Json::opt_text(deleted),
        "deleted",
        Json::Bool(gone),
        "repaired_duplicates",
        Json::Bool(repaired),
        "task_id",
        Json::text(task_id),
    );
    proof {
        assert(r@->Object_0 =~= delete_reply(task_id@, opt_text(*deleted), repaired)->Object_0);
    }
    r
}

/// Which comment has to be deleted in order that the workpad is gone: none where there
/// is no workpad.
pub fn delete_workpad(resolved: &WorkpadCommentResolution) -> (r: Result<
    Option<String>,
    TrackerError,
>)
    ensures
        match opt_view(resolved.comment) {
            None => r == Ok::<Option<String>, TrackerError>(None),
            Some(comment) => match opt_json_text(comment.get("id"@)) {
                Some(id) => r matches Ok(found) && opt_text(found) == Some(id),
                None => r matches Err(e) && e@ == unsupported_view(
                    "existing workpad comment is missing an `id`"@,
                ),
            },
        },
{
    match &resolved.comment {
        None => Ok(None),
        Some(comment) => {
            let id: Option<&str> = match comment.get("id") {
                Some(id) => id.as_str(),
                None => None,
            };
            match id {
                Some(id) => Ok(Some(owned(id))),
                None => Err(unsupported(owned("existing workpad comment is missing an `id`"))),
            }
        },
    }
}

// ---------------------------------------------------------------------------
// Laws
// ---------------------------------------------------------------------------

/// No duplicate that is deleted is the comment that counts.
pub proof fn law_repair_spares_the_canonical_comment(comments: Seq<JsonView>, id: Seq<char>, i: int)
    requires
        0 <= i < duplicates_of(comments, id).0.len(),
    ensures
        duplicates_of(comments, id).0[i] != id,
    decreases comments.len(),
{
    if comment_id(comments[0]) == Some(id) {
        law_repair_spares_the_canonical_comment(comments.skip(1), id, i);
    } else if i > 0 {
        law_repair_spares_the_canonical_comment(comments.skip(1), id, i - 1);
    }
}

/// Once the tracker holds `content`, writing it again asks nothing of the tracker.
pub proof fn law_writing_twice_asks_nothing(
    task_id: Seq<char>,
    content: Seq<char>,
    comment: JsonView,
    repaired: bool,
)
    requires
        comment_content(comment) == Some(content),
        trimmed(content) == content,
    ensures
        upsert(task_id, content, Some(comment), repaired) matches Ok(
            UpsertStepView::Unchanged(_),
        ),
{
}

} // verus!
