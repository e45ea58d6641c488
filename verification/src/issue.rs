//! Tasks of the tracker and the review comments on them.
use vstd::prelude::*;
use vstd::string::*;

use crate::json::{
    copy_opt, id_string, id_text, opt_get, opt_json_text, opt_view, ref_view, views, Json, JsonView,
};
use crate::sorting::{is_ranking, ranked, sort, views_of, Ranked};
use crate::text::{
    before, begins, chars_of, clone_all, clone_opt, concat, contains, is_before,
    lemma_before_irreflexive, lemma_before_total, lemma_before_transitive, lemma_trimmed_end,
    lemma_trimmed_start, lowered, occurs, opt_text, owned, same, starts_with, take_chars, texts,
    to_ascii_lowercase, trim, trim_start, trimmed, trimmed_end, trimmed_start,
};
use crate::workpad::{WORKPAD_HEADER, WORKPAD_MARKER};

verus! {

broadcast use {vstd::seq::group_seq_axioms, vstd::string::group_string_axioms};

/// A comment on a task.
#[derive(Debug)]
pub struct IssueComment {
    pub id: String,
    pub author_id: Option<String>,
    pub posted_at: Option<String>,
    pub updated_at: Option<String>,
    pub content: String,
    pub attachment_name: Option<String>,
    pub attachment_url: Option<String>,
}

/// What a comment holds.
pub struct CommentView {
    pub id: Seq<char>,
    pub author_id: Option<Seq<char>>,
    pub posted_at: Option<Seq<char>>,
    pub updated_at: Option<Seq<char>>,
    pub content: Seq<char>,
    pub attachment_name: Option<Seq<char>>,
    pub attachment_url: Option<Seq<char>>,
}

impl View for IssueComment {
    type V = CommentView;

    open spec fn view(&self) -> CommentView {
        CommentView {
            id: self.id@,
            author_id: opt_text(self.author_id),
            posted_at: opt_text(self.posted_at),
            updated_at: opt_text(self.updated_at),
            content: self.content@,
            attachment_name: opt_text(self.attachment_name),
            attachment_url: opt_text(self.attachment_url),
        }
    }
}

impl IssueComment {
    /// A copy of the comment.
    pub fn copy(&self) -> (r: IssueComment)
        ensures
            r@ == self@,
    {
        IssueComment {
            id: self.id.clone(),
            author_id: clone_opt(&self.author_id),
            posted_at: clone_opt(&self.posted_at),
            updated_at: clone_opt(&self.updated_at),
            content: self.content.clone(),
            attachment_name: clone_opt(&self.attachment_name),
            attachment_url: clone_opt(&self.attachment_url),
        }
    }
}

impl Default for IssueComment {
    fn default() -> (r: IssueComment)
        ensures
            r@ == (CommentView {
                id: Seq::empty(),
                author_id: None,
                posted_at: None,
                updated_at: None,
                content: Seq::empty(),
                attachment_name: None,
                attachment_url: None,
            }),
    {
        IssueComment {
            id: String::new(),
            author_id: None,
            posted_at: None,
            updated_at: None,
            content: String::new(),
            attachment_name: None,
            attachment_url: None,
        }
    }
}

/// A tracked task. Points in time are nanoseconds since the start of 1970.
#[derive(Debug)]
pub struct Issue {
    pub id: String,
    pub identifier: String,
    pub title: String,
    pub description: Option<String>,
    pub priority: Option<i64>,
    pub state: String,
    pub url: Option<String>,
    pub labels: Vec<String>,
    pub created_at: Option<i128>,
    pub updated_at: Option<i128>,
    pub project_id: Option<String>,
    pub section_id: Option<String>,
    pub parent_id: Option<String>,
    pub is_subtask: bool,
    pub due: Option<Json>,
    pub deadline: Option<Json>,
    pub assignee_id: Option<String>,
    pub assigned_to_worker: bool,
    pub todoist_comments: Vec<IssueComment>,
    pub todoist_comments_truncated: bool,
}

/// What a task holds.
pub struct IssueView {
    pub id: Seq<char>,
    pub identifier: Seq<char>,
    pub title: Seq<char>,
    pub description: Option<Seq<char>>,
    pub priority: Option<i64>,
    pub state: Seq<char>,
    pub url: Option<Seq<char>>,
    pub labels: Seq<Seq<char>>,
    pub created_at: Option<i128>,
    pub updated_at: Option<i128>,
    pub project_id: Option<Seq<char>>,
    pub section_id: Option<Seq<char>>,
    pub parent_id: Option<Seq<char>>,
    pub is_subtask: bool,
    pub due: Option<JsonView>,
    pub deadline: Option<JsonView>,
    pub assignee_id: Option<Seq<char>>,
    pub assigned_to_worker: bool,
    pub todoist_comments: Seq<CommentView>,
    pub todoist_comments_truncated: bool,
}

impl View for Issue {
    type V = IssueView;

    open spec fn view(&self) -> IssueView {
        IssueView {
            id: self.id@,
            identifier: self.identifier@,
            title: self.title@,
            description: opt_text(self.description),
            priority: self.priority,
            state: self.state@,
            url: opt_text(self.url),
            labels: texts(self.labels@),
            created_at: self.created_at,
            updated_at: self.updated_at,
            project_id: opt_text(self.project_id),
            section_id: opt_text(self.section_id),
            parent_id: opt_text(self.parent_id),
            is_subtask: self.is_subtask,
            due: opt_view(self.due),
            deadline: opt_view(self.deadline),
            assignee_id: opt_text(self.assignee_id),
            assigned_to_worker: self.assigned_to_worker,
            todoist_comments: views_of(self.todoist_comments@),
            todoist_comments_truncated: self.todoist_comments_truncated,
        }
    }
}

/// An issue with nothing filled in.
pub open spec fn blank_issue() -> IssueView {
    IssueView {
        id: Seq::empty(),
        identifier: Seq::empty(),
        title: Seq::empty(),
        description: None,
        priority: None,
        state: Seq::empty(),
        url: None,
        labels: Seq::empty(),
        created_at: None,
        updated_at: None,
        project_id: None,
        section_id: None,
        parent_id: None,
        is_subtask: false,
        due: None,
        deadline: None,
        assignee_id: None,
        assigned_to_worker: false,
        todoist_comments: Seq::empty(),
        todoist_comments_truncated: false,
    }
}

impl Default for Issue {
    fn default() -> (r: Issue)
        ensures
            r@ == blank_issue(),
    {
        let r: Issue = Issue {
            id: String::new(),
            identifier: String::new(),
            title: String::new(),
            description: None,
            priority: None,
            state: String::new(),
            url: None,
            labels: Vec::new(),
            created_at: None,
            updated_at: None,
            project_id: None,
            section_id: None,
            parent_id: None,
            is_subtask: false,
            due: None,
            deadline: None,
            assignee_id: None,
            assigned_to_worker: false,
            todoist_comments: Vec::new(),
            todoist_comments_truncated: false,
        };
        proof {
            assert(r@.labels =~= Seq::empty());
            assert(r@.todoist_comments =~= Seq::empty());
        }
        r
    }
}

/// The form of a state's name by which states are compared.
pub open spec fn state_name(state: Seq<char>) -> Seq<char> {
    lowered(trimmed(state))
}

/// The form of a state's name by which states are compared.
pub fn normalize_state_name(value: &str) -> (r: String)
    ensures
        r@ == state_name(value@),
{
    let t: String = trim(value);
    to_ascii_lowercase(t.as_str())
}

impl Issue {
    /// The form of the task's state by which states are compared.
    pub fn state_key(&self) -> (r: String)
        ensures
            r@ == state_name(self.state@),
    {
        normalize_state_name(self.state.as_str())
    }

    /// A copy of the task.
    pub fn copy(&self) -> (r: Issue)
        ensures
            r@ == self@,
    {
        let labels: Vec<String> = clone_all(&self.labels);
        let comments: Vec<IssueComment> = copy_comments(&self.todoist_comments);
        Issue {
            id: self.id.clone(),
            identifier: self.identifier.clone(),
            title: self.title.clone(),
            description: clone_opt(&self.description),
            priority: self.priority,
            state: self.state.clone(),
            url: clone_opt(&self.url),
            labels,
            created_at: self.created_at,
            updated_at: self.updated_at,
            project_id: clone_opt(&self.project_id),
            section_id: clone_opt(&self.section_id),
            parent_id: clone_opt(&self.parent_id),
            is_subtask: self.is_subtask,
            due: copy_opt(&self.due),
            deadline: copy_opt(&self.deadline),
            assignee_id: clone_opt(&self.assignee_id),
            assigned_to_worker: self.assigned_to_worker,
            todoist_comments: comments,
            todoist_comments_truncated: self.todoist_comments_truncated,
        }
    }
}

/// A copy of a list of comments.
pub fn copy_comments(comments: &Vec<IssueComment>) -> (out: Vec<IssueComment>)
    ensures
        views_of(out@) == views_of(comments@),
{
    let mut out: Vec<IssueComment> = Vec::new();
    let mut i: usize = 0;
    while i < comments.len()
        invariant
            i <= comments.len(),
            out@.len() == i,
            forall|k: int| 0 <= k < i ==> (#[trigger] out@[k])@ == comments@[k]@,
        decreases comments.len() - i,
    {
        out.push(comments[i].copy());
        i = i + 1;
    }
    proof {
        assert(views_of(out@) =~= views_of(comments@));
    }
    out
}

/// A state's name does not change when it is normalised twice.
pub proof fn law_state_name_is_idempotent(state: Seq<char>)
    ensures
        state_name(state_name(state)) == state_name(state),
{
    let t = trimmed(state);
    let low = lowered(t);
    lemma_trimmed_start(state);
    lemma_trimmed_end(trimmed_start(state));
    if t.len() > 0 {
        assert(t[0] == trimmed_start(state)[0]);
        assert(low[0] == crate::text::ascii_lower(t[0]));
        assert(low.last() == crate::text::ascii_lower(t.last()));
    }
    assert(trimmed_start(low) == low);
    assert(trimmed_end(low) == low);
    assert(lowered(low) =~= low);
}

// ---------------------------------------------------------------------------
// Review comments
// ---------------------------------------------------------------------------

/// How much of the comments a prompt takes in.
#[derive(Clone, Copy, Debug, PartialEq, Eq, Structural)]
pub struct TodoistPromptCommentLimits {
    pub max_comments: usize,
    pub max_comment_chars: usize,
    pub max_total_chars: usize,
}

/// The rank of a comment: when it was posted, then its identifier.
pub open spec fn comment_before(a: CommentView, b: CommentView) -> bool {
    let x = posted(a);
    let y = posted(b);
    before(x, y) || (x == y && before(a.id, b.id))
}

/// When a comment was posted; nothing is the empty text.
pub open spec fn posted(comment: CommentView) -> Seq<char> {
    match comment.posted_at {
        Some(at) => at,
        None => ""@,
    }
}

impl Ranked for IssueComment {
    open spec fn ranks_before(a: CommentView, b: CommentView) -> bool {
        comment_before(a, b)
    }

    fn comes_before(&self, other: &Self) -> (r: bool) {
        let x: &str = match &self.posted_at {
            Some(at) => at.as_str(),
            None => "",
        };
        let y: &str = match &other.posted_at {
            Some(at) => at.as_str(),
            None => "",
        };
        is_before(x, y) || (same(x, y) && is_before(self.id.as_str(), other.id.as_str()))
    }
}

/// What comes first among comments is an order: no two come before each other, and of
/// three that are not out of order, the first and the last are not either.
pub proof fn law_comment_order_is_an_order()
    ensures
        is_ranking::<IssueComment>(),
{
    assert forall|a: CommentView, b: CommentView|
        comment_before(a, b) implies !comment_before(b, a) by {
        lemma_pair_order(posted(a), a.id, posted(b), b.id);
    }
    assert forall|a: CommentView, b: CommentView, c: CommentView|
        !comment_before(b, a) && !comment_before(c, b) implies !comment_before(c, a) by {
        lemma_pair_negatively_transitive(
            posted(a),
            a.id,
            posted(b),
            b.id,
            posted(c),
            c.id,
        );
    }
}

/// Two keys, one after the other, do not come before each other.
pub proof fn lemma_pair_order(x1: Seq<char>, x2: Seq<char>, y1: Seq<char>, y2: Seq<char>)
    requires
        before(x1, y1) || (x1 == y1 && before(x2, y2)),
    ensures
        !(before(y1, x1) || (y1 == x1 && before(y2, x2))),
{
    lemma_before_irreflexive(x1);
    lemma_before_irreflexive(x2);
    if before(x1, y1) && before(y1, x1) {
        lemma_before_transitive(x1, y1, x1);
    }
    if before(x2, y2) && before(y2, x2) {
        lemma_before_transitive(x2, y2, x2);
    }
}

/// What does not come before a key, and what does not come before that.
pub proof fn lemma_pair_negatively_transitive(
    a1: Seq<char>,
    a2: Seq<char>,
    b1: Seq<char>,
    b2: Seq<char>,
    c1: Seq<char>,
    c2: Seq<char>,
)
    requires
        !(before(b1, a1) || (b1 == a1 && before(b2, a2))),
        !(before(c1, b1) || (c1 == b1 && before(c2, b2))),
    ensures
        !(before(c1, a1) || (c1 == a1 && before(c2, a2))),
{
    if a1 != b1 {
        lemma_before_total(a1, b1);
    }
    if b1 != c1 {
        lemma_before_total(b1, c1);
    }
    if before(a1, b1) && before(b1, c1) {
        lemma_before_transitive(a1, b1, c1);
    }
    if a2 != b2 {
        lemma_before_total(a2, b2);
    }
    if b2 != c2 {
        lemma_before_total(b2, c2);
    }
    if before(a2, b2) && before(b2, c2) {
        lemma_before_transitive(a2, b2, c2);
    }
    lemma_before_irreflexive(a1);
    lemma_before_irreflexive(a2);
    if before(a1, c1) && before(c1, a1) {
        lemma_before_transitive(a1, c1, a1);
    }
    if before(a2, c2) && before(c2, a2) {
        lemma_before_transitive(a2, c2, a2);
    }
}

/// A text without surrounding whitespace; an empty one is none.
pub open spec fn trimmed_text(json: Option<JsonView>) -> Option<Seq<char>> {
    match opt_json_text(json) {
        Some(t) => if trimmed(t).len() > 0 {
            Some(trimmed(t))
        } else {
            None
        },
        None => None,
    }
}

/// A text without surrounding whitespace; an empty one is none.
pub fn optional_trimmed_string(json: Option<&Json>) -> (r: Option<String>)
    ensures
        opt_text(r) == trimmed_text(ref_view(json)),
{
    match json {
        Some(value) => match value.as_str() {
            Some(text) => {
                let t: String = trim(text);
                if t.as_str().is_empty() {
                    None
                } else {
                    Some(t)
                }
            },
            None => None,
        },
        None => None,
    }
}

/// Whether a comment's content is that of a workpad.
pub open spec fn workpad_content(content: Seq<char>) -> bool {
    occurs(content, WORKPAD_MARKER@) || begins(trimmed_start(content), WORKPAD_HEADER@)
}

/// Whether a comment's content is that of a workpad.
pub fn is_todoist_workpad_content(content: &str) -> (r: bool)
    ensures
        r == workpad_content(content@),
{
    if contains(content, WORKPAD_MARKER) {
        true
    } else {
        let start: String = trim_start(content);
        starts_with(start.as_str(), WORKPAD_HEADER)
    }
}

/// The first of two optional texts that is there.
pub open spec fn either(a: Option<Seq<char>>, b: Option<Seq<char>>) -> Option<Seq<char>> {
    match a {
        Some(_) => a,
        None => b,
    }
}

/// The review comment that a value stands for. Deleted comments, empty ones, workpads
/// and comments without an identifier are none.
pub open spec fn review_comment(value: JsonView) -> Option<CommentView> {
    if opt_truth(value.get("is_deleted"@)) == Some(true) {
        None
    } else {
        match trimmed_text(value.get("content"@)) {
            None => None,
            Some(content) => if workpad_content(content) {
                None
            } else {
                match id_text(value.get("id"@)) {
                    None => None,
                    Some(id) => {
                        let file = value.get("file_attachment"@);
                        Some(
                            CommentView {
                                id,
                                author_id: id_text(value.get("posted_uid"@)),
                                posted_at: trimmed_text(value.get("posted_at"@)),
                                updated_at: trimmed_text(value.get("updated_at"@)),
                                content,
                                attachment_name: either(
                                    trimmed_text(opt_get(file, "file_name"@)),
                                    trimmed_text(opt_get(file, "name"@)),
                                ),
                                attachment_url: either(
                                    trimmed_text(opt_get(file, "file_url"@)),
                                    either(
                                        trimmed_text(opt_get(file, "download_url"@)),
                                        trimmed_text(opt_get(file, "url"@)),
                                    ),
                                ),
                            },
                        )
                    },
                }
            },
        }
    }
}

/// The truth value of an optional value.
pub open spec fn opt_truth(json: Option<JsonView>) -> Option<bool> {
    match json {
        Some(j) => j.truth(),
        None => None,
    }
}

/// The value under `key` of an optional value.
pub fn get_in<'a>(json: Option<&'a Json>, key: &str) -> (r: Option<&'a Json>)
    ensures
        ref_view(r) == opt_get(ref_view(json), key@),
{
    match json {
        Some(value) => value.get(key),
        None => None,
    }
}

/// The review comment that a value stands for.
pub fn todoist_review_comment_from_value(value: &Json) -> (r: Option<IssueComment>)
    ensures
        match r {
            Some(comment) => review_comment(value@) == Some(comment@),
            None => review_comment(value@) is None,
        },
{
    let deleted: bool = match value.get("is_deleted") {
        Some(Json::Bool(b)) => *b,
        _ => false,
    };
    if deleted {
        return None;
    }
    let content: String = match optional_trimmed_string(value.get("content")) {
        Some(content) => content,
        None => {
            return None;
        },
    };
    if is_todoist_workpad_content(content.as_str()) {
        return None;
    }
    let id: String = match id_string(value.get("id")) {
        Some(id) => id,
        None => {
            return None;
        },
    };
    let file: Option<&Json> = value.get("file_attachment");
    let attachment_name: Option<String> = match optional_trimmed_string(
        get_in(file, "file_name"),
    ) {
        Some(name) => Some(name),
        None => optional_trimmed_string(get_in(file, "name")),
    };
    let attachment_url: Option<String> = match optional_trimmed_string(get_in(file, "file_url")) {
        Some(url) => Some(url),
        None => match optional_trimmed_string(get_in(file, "download_url")) {
            Some(url) => Some(url),
            None => optional_trimmed_string(get_in(file, "url")),
        },
    };
    Some(
        IssueComment {
            id,
            author_id: id_string(value.get("posted_uid")),
            posted_at: optional_trimmed_string(value.get("posted_at")),
            updated_at: optional_trimmed_string(value.get("updated_at")),
            content,
            attachment_name,
            attachment_url,
        },
    )
}

/// The review comments that values stand for, in their order.
pub open spec fn review_comments(values: Seq<JsonView>) -> Seq<CommentView>
    decreases values.len(),
{
    if values.len() == 0 {
        Seq::empty()
    } else {
        match review_comment(values.last()) {
            Some(comment) => review_comments(values.drop_last()).push(comment),
            None => review_comments(values.drop_last()),
        }
    }
}

fn collect_review_comments(values: &Vec<Json>) -> (out: Vec<IssueComment>)
    ensures
        views_of(out@) == review_comments(views(values@)),
{
    let ghost all = views(values@);
    let mut out: Vec<IssueComment> = Vec::new();
    let mut i: usize = 0;
    proof {
        assert(views_of(out@) =~= Seq::empty());
    }
    while i < values.len()
        invariant
            i <= values.len(),
            all == views(values@),
            views_of(out@) == review_comments(all.take(i as int)),
        decreases values.len() - i,
    {
        proof {
            assert(all.take(i + 1).drop_last() =~= all.take(i as int));
            assert(all.take(i + 1).last() == values@[i as int]@);
        }
        match todoist_review_comment_from_value(&values[i]) {
            Some(comment) => {
                let ghost had = views_of(out@);
                out.push(comment);
                proof {
                    assert(views_of(out@) =~= had.push(comment@));
                }
            },
            None => {},
        }
        i = i + 1;
    }
    proof {
        assert(all.take(i as int) =~= all);
    }
    out
}

/// The first `max` characters, marked with an ellipsis where there are more.
pub open spec fn shortened(value: Seq<char>, max: nat) -> Seq<char> {
    if value.len() > max {
        value.take(max as int) + "..."@
    } else {
        value
    }
}

/// The first `max` characters, marked with an ellipsis where there are more.
pub fn truncate_text(value: &str, max: usize) -> (r: String)
    ensures
        r@ == shortened(value@, max as nat),
{
    let chars: Vec<char> = chars_of(value);
    if chars.len() > max {
        let head: String = take_chars(value, max);
        concat(head.as_str(), "...")
    } else {
        owned(value)
    }
}

/// A sum that stays at the largest `usize`.
pub open spec fn capped(n: nat) -> nat {
    if n > usize::MAX {
        usize::MAX as nat
    } else {
        n
    }
}

/// The number of characters of an optional text.
pub open spec fn opt_len(text: Option<Seq<char>>) -> nat {
    match text {
        Some(t) => t.len(),
        None => 0,
    }
}

/// How many characters a comment takes.
pub open spec fn comment_size(comment: CommentView) -> nat {
    capped(
        capped(comment.content.len() + opt_len(comment.attachment_name)) + opt_len(
            comment.attachment_url,
        ),
    )
}

/// A comment whose content has been shortened.
pub open spec fn shortened_comment(comment: CommentView, max: nat) -> CommentView {
    CommentView { content: shortened(comment.content, max), ..comment }
}

/// The comments that fit, from the latest on: the latest one always does, each other
/// one as long as the characters do not run out. Says too whether anything was left
/// out or shortened.
pub open spec fn fitting(
    comments: Seq<CommentView>,
    used: nat,
    any: bool,
    limits: TodoistPromptCommentLimits,
) -> (Seq<CommentView>, bool)
    decreases comments.len(),
{
    if comments.len() == 0 {
        (Seq::empty(), false)
    } else {
        let whole = comments.last();
        let comment = shortened_comment(whole, limits.max_comment_chars as nat);
        let cut = whole.content.len() > limits.max_comment_chars;
        let total = capped(used + comment_size(comment));
        if any && total > limits.max_total_chars {
            (fitting(comments.drop_last(), used, any, limits).0, true)
        } else {
            let (rest, more) = fitting(comments.drop_last(), total, true, limits);
            (rest.push(comment), cut || more)
        }
    }
}

/// The latest comments, at most `max` of them.
pub open spec fn latest_comments(comments: Seq<CommentView>, max: nat) -> Seq<CommentView> {
    if comments.len() > max {
        comments.skip(comments.len() - max)
    } else {
        comments
    }
}

/// The review comments that a prompt takes in, and whether any were left out or
/// shortened.
pub open spec fn prompt_comments(values: Seq<JsonView>, limits: TodoistPromptCommentLimits) -> (
    Seq<CommentView>,
    bool,
) {
    let all = ranked::<IssueComment>(review_comments(values));
    let (picked, less) = fitting(
        latest_comments(all, limits.max_comments as nat),
        0,
        false,
        limits,
    );
    (picked, less || all.len() > limits.max_comments)
}

fn count_opt(text: &Option<String>) -> (n: usize)
    ensures
        n == opt_len(opt_text(*text)),
{
    match text {
        Some(t) => {
            let chars: Vec<char> = chars_of(t.as_str());
            chars.len()
        },
        None => 0,
    }
}

/// The review comments that a prompt takes in, and whether any were left out or
/// shortened.
pub fn todoist_review_comments_from_values(
    values: &Vec<Json>,
    limits: &TodoistPromptCommentLimits,
) -> (r: (Vec<IssueComment>, bool))
    ensures
        (views_of(r.0@), r.1) == prompt_comments(views(values@), *limits),
{
    let collected: Vec<IssueComment> = collect_review_comments(values);
    let mut comments: Vec<IssueComment> = sort(collected);
    let ghost all = views_of(comments@);
    let mut truncated: bool = false;
    if comments.len() > limits.max_comments {
        let at: usize = comments.len() - limits.max_comments;
        comments = comments.split_off(at);
        truncated = true;
    }
    let ghost left = latest_comments(all, limits.max_comments as nat);
    let ghost dropped = truncated;
    proof {
        assert(views_of(comments@) =~= left);
    }
    let ghost target = fitting(left, 0, false, *limits);
    let mut total: usize = 0;
    let mut picked: Vec<IssueComment> = Vec::new();
    proof {
        assert(left.take(left.len() as int) =~= left);
        assert(target.0 + views_of(picked@).reverse() =~= target.0);
    }
    while comments.len() > 0
        invariant
            views_of(comments@) == left.take(comments@.len() as int),
            comments@.len() <= left.len(),
            target == fitting(left, 0, false, *limits),
            target.0 == fitting(
                left.take(comments@.len() as int),
                total as nat,
                picked@.len() > 0,
                *limits,
            ).0 + views_of(picked@).reverse(),
            (truncated || fitting(
                left.take(comments@.len() as int),
                total as nat,
                picked@.len() > 0,
                *limits,
            ).1) == (dropped || target.1),
            dropped ==> truncated,
        decreases comments.len(),
    {
        let ghost now = left.take(comments@.len() as int);
        let ghost was_picked = views_of(picked@);
        let ghost n = comments@.len() as int;
        let mut comment: IssueComment = match comments.pop() {
            Some(comment) => comment,
            None => IssueComment::default(),
        };
        proof {
            assert(now.last() == comment@);
            assert(now.drop_last() =~= left.take(n - 1));
            assert(views_of(comments@) =~= left.take(n - 1));
        }
        let ghost whole = comment@;
        let chars: Vec<char> = chars_of(comment.content.as_str());
        let ghost cut = chars@.len() > limits.max_comment_chars;
        let shorten: bool = chars.len() > limits.max_comment_chars;
        comment.content = truncate_text(comment.content.as_str(), limits.max_comment_chars);
        proof {
            assert(comment@ == shortened_comment(whole, limits.max_comment_chars as nat));
        }
        let kept: Vec<char> = chars_of(comment.content.as_str());
        let name_size: usize = count_opt(&comment.attachment_name);
        let url_size: usize = count_opt(&comment.attachment_url);
        let size: usize = kept.len().saturating_add(name_size).saturating_add(url_size);
        let sum: usize = total.saturating_add(size);
        if picked.len() > 0 && sum > limits.max_total_chars {
            truncated = true;
        } else {
            if shorten {
                truncated = true;
            }
            total = sum;
            picked.push(comment);
            proof {
                let rest = fitting(left.take(n - 1), sum as nat, true, *limits).0;
                assert(views_of(picked@) =~= was_picked.push(comment@));
                assert(rest.push(comment@) + was_picked.reverse() =~= rest + views_of(
                    picked@,
                ).reverse());
            }
        }
    }
    proof {
        assert(left.take(0) =~= Seq::empty());
        assert(Seq::<CommentView>::empty() + views_of(picked@).reverse() =~= views_of(
            picked@,
        ).reverse());
    }
    let ghost chosen = views_of(picked@);
    let mut out: Vec<IssueComment> = Vec::new();
    while picked.len() > 0
        invariant
            picked@.len() <= chosen.len(),
            views_of(picked@) == chosen.take(picked@.len() as int),
            views_of(out@) == chosen.reverse().take(chosen.len() - picked@.len()),
        decreases picked.len(),
    {
        let ghost n = picked@.len() as int;
        let ghost had = views_of(out@);
        match picked.pop() {
            Some(comment) => {
                proof {
                    assert(chosen.take(n).last() == comment@);
                    assert(views_of(picked@) =~= chosen.take(n - 1));
                }
                out.push(comment);
                proof {
                    assert(views_of(out@) =~= had.push(comment@));
                    assert(chosen.reverse().take(chosen.len() - n + 1)
                        =~= chosen.reverse().take(chosen.len() - n).push(chosen[n - 1]));
                }
            },
            None => {},
        }
    }
    proof {
        assert(chosen.reverse().take(chosen.len() as int) =~= chosen.reverse());
    }
    (out, truncated)
}

// ---------------------------------------------------------------------------
// Laws
// ---------------------------------------------------------------------------

/// A prompt never takes in more comments than the limit says.
pub proof fn law_prompt_comments_respect_the_count(
    values: Seq<JsonView>,
    limits: TodoistPromptCommentLimits,
)
    ensures
        prompt_comments(values, limits).0.len() <= limits.max_comments,
{
    let all = ranked::<IssueComment>(review_comments(values));
    lemma_fitting_count(latest_comments(all, limits.max_comments as nat), 0, false, limits);
}

proof fn lemma_fitting_count(
    comments: Seq<CommentView>,
    used: nat,
    any: bool,
    limits: TodoistPromptCommentLimits,
)
    ensures
        fitting(comments, used, any, limits).0.len() <= comments.len(),
    decreases comments.len(),
{
    if comments.len() > 0 {
        let comment = shortened_comment(comments.last(), limits.max_comment_chars as nat);
        let total = capped(used + comment_size(comment));
        lemma_fitting_count(comments.drop_last(), used, any, limits);
        lemma_fitting_count(comments.drop_last(), total, true, limits);
    }
}

/// No comment of a prompt is longer than the limit says, but for its ellipsis.
pub proof fn law_prompt_comments_respect_the_length(
    values: Seq<JsonView>,
    limits: TodoistPromptCommentLimits,
    i: int,
)
    requires
        0 <= i < prompt_comments(values, limits).0.len(),
    ensures
        prompt_comments(values, limits).0[i].content.len() <= limits.max_comment_chars + 3,
{
    let all = ranked::<IssueComment>(review_comments(values));
    lemma_fitting_length(latest_comments(all, limits.max_comments as nat), 0, false, limits, i);
}

proof fn lemma_fitting_length(
    comments: Seq<CommentView>,
    used: nat,
    any: bool,
    limits: TodoistPromptCommentLimits,
    i: int,
)
    requires
        0 <= i < fitting(comments, used, any, limits).0.len(),
    ensures
        fitting(comments, used, any, limits).0[i].content.len() <= limits.max_comment_chars + 3,
    decreases comments.len(),
{
    let comment = shortened_comment(comments.last(), limits.max_comment_chars as nat);
    let total = capped(used + comment_size(comment));
    reveal_strlit("...");
    if any && total > limits.max_total_chars {
        lemma_fitting_length(comments.drop_last(), used, any, limits, i);
    } else if i < fitting(comments.drop_last(), total, true, limits).0.len() {
        lemma_fitting_length(comments.drop_last(), total, true, limits, i);
    }
}

/// How many characters comments take together.
pub open spec fn total_size(comments: Seq<CommentView>) -> nat
    decreases comments.len(),
{
    if comments.len() == 0 {
        0
    } else {
        total_size(comments.drop_last()) + comment_size(comments.last())
    }
}

proof fn lemma_fitting_total(
    comments: Seq<CommentView>,
    used: nat,
    limits: TodoistPromptCommentLimits,
)
    requires
        used <= usize::MAX,
    ensures
        fitting(comments, used, true, limits).0.len() > 0 ==> capped(
            used + total_size(fitting(comments, used, true, limits).0),
        ) <= limits.max_total_chars,
    decreases comments.len(),
{
    if comments.len() > 0 {
        let comment = shortened_comment(comments.last(), limits.max_comment_chars as nat);
        let total = capped(used + comment_size(comment));
        if total > limits.max_total_chars {
            lemma_fitting_total(comments.drop_last(), used, limits);
        } else {
            let rest = fitting(comments.drop_last(), total, true, limits).0;
            lemma_fitting_total(comments.drop_last(), total, limits);
            assert(rest.push(comment).drop_last() =~= rest);
        }
    }
}

/// Where a prompt takes in more than the latest comment, all of them together stay
/// within the limit.
pub proof fn law_prompt_comments_respect_the_total(
    values: Seq<JsonView>,
    limits: TodoistPromptCommentLimits,
)
    ensures
        prompt_comments(values, limits).0.len() > 1 ==> capped(
            total_size(prompt_comments(values, limits).0),
        ) <= limits.max_total_chars,
{
    let all = ranked::<IssueComment>(review_comments(values));
    let left = latest_comments(all, limits.max_comments as nat);
    if left.len() > 0 {
        let comment = shortened_comment(left.last(), limits.max_comment_chars as nat);
        let total = capped(0 + comment_size(comment));
        let rest = fitting(left.drop_last(), total, true, limits).0;
        lemma_fitting_total(left.drop_last(), total, limits);
        assert(rest.push(comment).drop_last() =~= rest);
    }
}

/// A workpad is never among the review comments.
pub proof fn law_workpads_are_no_review_comments(value: JsonView)
    requires
        trimmed_text(value.get("content"@)) is Some,
        workpad_content(trimmed_text(value.get("content"@))->0),
    ensures
        review_comment(value) is None,
{
}

} // verus!
