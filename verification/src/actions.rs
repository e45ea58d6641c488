//! The actions of the Todoist tool: which arguments each accepts, and which tracker
//! operation it stands for.
use vstd::prelude::*;
use vstd::string::*;

use crate::json::{
    entry_views, get_entry, id_string, id_text, insert, opt_json_text, remove, Json, JsonView,
};
use crate::table::{has_key, lookup, put, without};
use crate::text::{concat3, is_among, join, joined, opt_text, owned, same, texts, trim, trimmed};
use crate::tracker::{
    text_result, unit_result, unsupported, unsupported_view, TrackerCapabilities, TrackerError,
    TrackerErrorView,
};

verus! {

broadcast use {vstd::seq::group_seq_axioms, vstd::string::group_string_axioms};

/// What a Todoist action accepts and what it cannot do without.
#[derive(Debug)]
pub struct ActionContract {
    pub allowed: Vec<String>,
    pub required: Vec<String>,
}

/// The arguments that an action accepts and those that it requires.
pub open spec fn contract_of(action: Seq<char>) -> Option<(Seq<Seq<char>>, Seq<Seq<char>>)> {
    if action == "list_projects"@ || action == "get_current_user"@ || action == "list_labels"@ {
        Some((
            seq!["action"@, "cursor"@, "limit"@],
            Seq::empty(),
        ))
    } else if action == "get_project"@ {
        Some((
            seq!["action"@, "project_id"@],
            seq!["project_id"@],
        ))
    } else if action == "list_collaborators"@ || action == "list_sections"@ {
        Some((
            seq!["action"@, "project_id"@, "cursor"@, "limit"@],
            Seq::empty(),
        ))
    } else if action == "list_tasks"@ {
        Some((
            seq!["action"@, "project_id"@, "section_id"@, "parent_id"@, "label"@, "ids"@, "filter"@, "lang"@, "cursor"@, "limit"@],
            Seq::empty(),
        ))
    } else if action == "get_task"@ {
        Some((
            seq!["action"@, "task_id"@],
            seq!["task_id"@],
        ))
    } else if action == "get_section"@ {
        Some((
            seq!["action"@, "section_id"@],
            seq!["section_id"@],
        ))
    } else if action == "get_comment"@ || action == "delete_comment"@ {
        Some((
            seq!["action"@, "comment_id"@],
            seq!["comment_id"@],
        ))
    } else if action == "list_comments"@ {
        Some((
            seq!["action"@, "task_id"@, "project_id"@, "cursor"@, "limit"@],
            Seq::empty(),
        ))
    } else if action == "create_comment"@ {
        Some((
            seq!["action"@, "task_id"@, "project_id"@, "content"@, "attachment"@, "uids_to_notify"@],
            seq!["content"@],
        ))
    } else if action == "get_workpad"@ || action == "delete_workpad"@ || action == "close_task"@ || action == "reopen_task"@ {
        Some((
            seq!["action"@, "task_id"@],
            seq!["task_id"@],
        ))
    } else if action == "upsert_workpad"@ {
        Some((
            seq!["action"@, "task_id"@, "comment_id"@, "content"@],
            seq!["task_id"@, "content"@],
        ))
    } else if action == "create_project_comment"@ {
        Some((
            seq!["action"@, "project_id"@, "content"@, "attachment"@, "uids_to_notify"@],
            seq!["project_id"@, "content"@],
        ))
    } else if action == "update_comment"@ {
        Some((
            seq!["action"@, "comment_id"@, "content"@],
            seq!["comment_id"@, "content"@],
        ))
    } else if action == "update_task"@ {
        Some((
            seq!["action"@, "task_id"@, "content"@, "description"@, "labels"@, "assignee_id"@, "priority"@, "due"@, "deadline"@, "section_id"@, "project_id"@],
            seq!["task_id"@],
        ))
    } else if action == "move_task"@ {
        Some((
            seq!["action"@, "task_id"@, "project_id"@, "section_id"@, "parent_id"@],
            seq!["task_id"@],
        ))
    } else if action == "create_task"@ {
        Some((
            seq!["action"@, "content"@, "description"@, "labels"@, "assignee_id"@, "priority"@, "due"@, "deadline"@, "project_id"@, "section_id"@, "parent_id"@, "origin_task_id"@],
            seq!["content"@],
        ))
    } else if action == "list_activities"@ {
        Some((
            seq!["action"@, "object_type"@, "object_id"@, "event_type"@, "object_event_types"@, "parent_project_id"@, "parent_item_id"@, "date_from"@, "date_to"@, "include_parent_object"@, "include_child_objects"@, "annotate_notes"@, "annotate_parents"@, "initiator_id_null"@, "initiator_id"@, "workspace_id"@, "cursor"@, "limit"@],
            Seq::empty(),
        ))
    } else {
        None
    }
}

/// The contract of an action.
pub fn todoist_action_contract(action: &str) -> (r: Result<ActionContract, TrackerError>)
    ensures
        match r {
            Ok(contract) => contract_of(action@) == Some(
                (texts(contract.allowed@), texts(contract.required@)),
            ),
            Err(e) => contract_of(action@) is None && e@ == unsupported_view(
                "unsupported todoist action `"@ + action@ + "`"@,
            ),
        },
{
    if same(action, "list_projects") || same(action, "get_current_user") || same(action, "list_labels") {
        let allowed: Vec<String> = vec![owned("action"), owned("cursor"), owned("limit")];
        let required: Vec<String> = vec![];
        proof {
            assert(texts(allowed@) =~= seq!["action"@, "cursor"@, "limit"@]);
            assert(texts(required@) =~= Seq::empty());
        }
        Ok(ActionContract { allowed, required })
    } else if same(action, "get_project") {
        let allowed: Vec<String> = vec![owned("action"), owned("project_id")];
        let required: Vec<String> = vec![owned("project_id")];
        proof {
            assert(texts(allowed@) =~= seq!["action"@, "project_id"@]);
            assert(texts(required@) =~= seq!["project_id"@]);
        }
        Ok(ActionContract { allowed, required })
    } else if same(action, "list_collaborators") || same(action, "list_sections") {
        let allowed: Vec<String> = vec![owned("action"), owned("project_id"), owned("cursor"), owned("limit")];
        let required: Vec<String> = vec![];
        proof {
            assert(texts(allowed@) =~= seq!["action"@, "project_id"@, "cursor"@, "limit"@]);
            assert(texts(required@) =~= Seq::empty());
        }
        Ok(ActionContract { allowed, required })
    } else if same(action, "list_tasks") {
        let allowed: Vec<String> = vec![owned("action"), owned("project_id"), owned("section_id"), owned("parent_id"), owned("label"), owned("ids"), owned("filter"), owned("lang"), owned("cursor"), owned("limit")];
        let required: Vec<String> = vec![];
        proof {
            assert(texts(allowed@) =~= seq!["action"@, "project_id"@, "section_id"@, "parent_id"@, "label"@, "ids"@, "filter"@, "lang"@, "cursor"@, "limit"@]);
            assert(texts(required@) =~= Seq::empty());
        }
        Ok(ActionContract { allowed, required })
    } else if same(action, "get_task") {
        let allowed: Vec<String> = vec![owned("action"), owned("task_id")];
        let required: Vec<String> = vec![owned("task_id")];
        proof {
            assert(texts(allowed@) =~= seq!["action"@, "task_id"@]);
            assert(texts(required@) =~= seq!["task_id"@]);
        }
        Ok(ActionContract { allowed, required })
    } else if same(action, "get_section") {
        let allowed: Vec<String> = vec![owned("action"), owned("section_id")];
        let required: Vec<String> = vec![owned("section_id")];
        proof {
            assert(texts(allowed@) =~= seq!["action"@, "section_id"@]);
            assert(texts(required@) =~= seq!["section_id"@]);
        }
        Ok(ActionContract { allowed, required })
    } else if same(action, "get_comment") || same(action, "delete_comment") {
        let allowed: Vec<String> = vec![owned("action"), owned("comment_id")];
        let required: Vec<String> = vec![owned("comment_id")];
        proof {
            assert(texts(allowed@) =~= seq!["action"@, "comment_id"@]);
            assert(texts(required@) =~= seq!["comment_id"@]);
        }
        Ok(ActionContract { allowed, required })
    } else if same(action, "list_comments") {
        let allowed: Vec<String> = vec![owned("action"), owned("task_id"), owned("project_id"), owned("cursor"), owned("limit")];
        let required: Vec<String> = vec![];
        proof {
            assert(texts(allowed@) =~= seq!["action"@, "task_id"@, "project_id"@, "cursor"@, "limit"@]);
            assert(texts(required@) =~= Seq::empty());
        }
        Ok(ActionContract { allowed, required })
    } else if same(action, "create_comment") {
        let allowed: Vec<String> = vec![owned("action"), owned("task_id"), owned("project_id"), owned("content"), owned("attachment"), owned("uids_to_notify")];
        let required: Vec<String> = vec![owned("content")];
        proof {
            assert(texts(allowed@) =~= seq!["action"@, "task_id"@, "project_id"@, "content"@, "attachment"@, "uids_to_notify"@]);
            assert(texts(required@) =~= seq!["content"@]);
        }
        Ok(ActionContract { allowed, required })
    } else if same(action, "get_workpad") || same(action, "delete_workpad") || same(action, "close_task") || same(action, "reopen_task") {
        let allowed: Vec<String> = vec![owned("action"), owned("task_id")];
        let required: Vec<String> = vec![owned("task_id")];
        proof {
            assert(texts(allowed@) =~= seq!["action"@, "task_id"@]);
            assert(texts(required@) =~= seq!["task_id"@]);
        }
        Ok(ActionContract { allowed, required })
    } else if same(action, "upsert_workpad") {
        let allowed: Vec<String> = vec![owned("action"), owned("task_id"), owned("comment_id"), owned("content")];
        let required: Vec<String> = vec![owned("task_id"), owned("content")];
        proof {
            assert(texts(allowed@) =~= seq!["action"@, "task_id"@, "comment_id"@, "content"@]);
            assert(texts(required@) =~= seq!["task_id"@, "content"@]);
        }
        Ok(ActionContract { allowed, required })
    } else if same(action, "create_project_comment") {
        let allowed: Vec<String> = vec![owned("action"), owned("project_id"), owned("content"), owned("attachment"), owned("uids_to_notify")];
        let required: Vec<String> = vec![owned("project_id"), owned("content")];
        proof {
            assert(texts(allowed@) =~= seq!["action"@, "project_id"@, "content"@, "attachment"@, "uids_to_notify"@]);
            assert(texts(required@) =~= seq!["project_id"@, "content"@]);
        }
        Ok(ActionContract { allowed, required })
    } else if same(action, "update_comment") {
        let allowed: Vec<String> = vec![owned("action"), owned("comment_id"), owned("content")];
        let required: Vec<String> = vec![owned("comment_id"), owned("content")];
        proof {
            assert(texts(allowed@) =~= seq!["action"@, "comment_id"@, "content"@]);
            assert(texts(required@) =~= seq!["comment_id"@, "content"@]);
        }
        Ok(ActionContract { allowed, required })
    } else if same(action, "update_task") {
        let allowed: Vec<String> = vec![owned("action"), owned("task_id"), owned("content"), owned("description"), owned("labels"), owned("assignee_id"), owned("priority"), owned("due"), owned("deadline"), owned("section_id"), owned("project_id")];
        let required: Vec<String> = vec![owned("task_id")];
        proof {
            assert(texts(allowed@) =~= seq!["action"@, "task_id"@, "content"@, "description"@, "labels"@, "assignee_id"@, "priority"@, "due"@, "deadline"@, "section_id"@, "project_id"@]);
            assert(texts(required@) =~= seq!["task_id"@]);
        }
        Ok(ActionContract { allowed, required })
    } else if same(action, "move_task") {
        let allowed: Vec<String> = vec![owned("action"), owned("task_id"), owned("project_id"), owned("section_id"), owned("parent_id")];
        let required: Vec<String> = vec![owned("task_id")];
        proof {
            assert(texts(allowed@) =~= seq!["action"@, "task_id"@, "project_id"@, "section_id"@, "parent_id"@]);
            assert(texts(required@) =~= seq!["task_id"@]);
        }
        Ok(ActionContract { allowed, required })
    } else if same(action, "create_task") {
        let allowed: Vec<String> = vec![owned("action"), owned("content"), owned("description"), owned("labels"), owned("assignee_id"), owned("priority"), owned("due"), owned("deadline"), owned("project_id"), owned("section_id"), owned("parent_id"), owned("origin_task_id")];
        let required: Vec<String> = vec![owned("content")];
        proof {
            assert(texts(allowed@) =~= seq!["action"@, "content"@, "description"@, "labels"@, "assignee_id"@, "priority"@, "due"@, "deadline"@, "project_id"@, "section_id"@, "parent_id"@, "origin_task_id"@]);
            assert(texts(required@) =~= seq!["content"@]);
        }
        Ok(ActionContract { allowed, required })
    } else if same(action, "list_activities") {
        let allowed: Vec<String> = vec![owned("action"), owned("object_type"), owned("object_id"), owned("event_type"), owned("object_event_types"), owned("parent_project_id"), owned("parent_item_id"), owned("date_from"), owned("date_to"), owned("include_parent_object"), owned("include_child_objects"), owned("annotate_notes"), owned("annotate_parents"), owned("initiator_id_null"), owned("initiator_id"), owned("workspace_id"), owned("cursor"), owned("limit")];
        let required: Vec<String> = vec![];
        proof {
            assert(texts(allowed@) =~= seq!["action"@, "object_type"@, "object_id"@, "event_type"@, "object_event_types"@, "parent_project_id"@, "parent_item_id"@, "date_from"@, "date_to"@, "include_parent_object"@, "include_child_objects"@, "annotate_notes"@, "annotate_parents"@, "initiator_id_null"@, "initiator_id"@, "workspace_id"@, "cursor"@, "limit"@]);
            assert(texts(required@) =~= Seq::empty());
        }
        Ok(ActionContract { allowed, required })
    } else {
        let message: String = concat3("unsupported todoist action `", action, "`");
        Err(unsupported(message))
    }
}

/// The error that a required argument is missing.
pub open spec fn required_error(field: Seq<char>) -> TrackerErrorView {
    unsupported_view("`todoist."@ + field + "` is required"@)
}

fn missing_argument(field: &str) -> (r: TrackerError)
    ensures
        r@ == required_error(field@),
{
    let message: String = concat3("`todoist.", field, "` is required");
    unsupported(message)
}

/// The identifier under a key that cannot be done without.
pub open spec fn id_argument(
    entries: Seq<(Seq<char>, JsonView)>,
    key: Seq<char>,
) -> Result<Seq<char>, TrackerErrorView> {
    match id_text(lookup(entries, key)) {
        Some(id) => Ok(id),
        None => Err(required_error(key)),
    }
}

/// The identifier under a key that cannot be done without.
pub fn required_id(map: &Vec<(String, Json)>, key: &str) -> (r: Result<String, TrackerError>)
    ensures
        text_result(r) == id_argument(entry_views(map@), key@),
{
    match id_string(get_entry(map, key)) {
        Some(id) => Ok(id),
        None => Err(missing_argument(key)),
    }
}

/// The identifier under a key, if there is one.
pub fn optional_id(map: &Vec<(String, Json)>, key: &str) -> (r: Option<String>)
    ensures
        opt_text(r) == id_text(lookup(entry_views(map@), key@)),
{
    id_string(get_entry(map, key))
}

/// A text without surrounding whitespace; an empty one is none.
pub open spec fn nonempty(text: Option<Seq<char>>) -> Option<Seq<char>> {
    match text {
        Some(t) => if trimmed(t).len() > 0 {
            Some(trimmed(t))
        } else {
            None
        },
        None => None,
    }
}

/// The text under a key, without surrounding whitespace, if it is not empty.
pub fn nonempty_text(map: &Vec<(String, Json)>, key: &str) -> (r: Option<String>)
    ensures
        opt_text(r) == nonempty(opt_json_text(lookup(entry_views(map@), key@))),
{
    match get_entry(map, key) {
        Some(value) => match value.as_str() {
            Some(text) => {
                let t: String = trim(text);
                if t.as_str().is_empty() {
                    None
                } else {
                    Some(t)
                }
            },
            None => None,
        },
        None => None,
    }
}

/// The text under a key that cannot be done without.
pub open spec fn text_argument(
    entries: Seq<(Seq<char>, JsonView)>,
    key: Seq<char>,
) -> Result<Seq<char>, TrackerErrorView> {
    match nonempty(opt_json_text(lookup(entries, key))) {
        Some(text) => Ok(text),
        None => Err(required_error(key)),
    }
}

/// The text under a key that cannot be done without.
pub fn required_string(map: &Vec<(String, Json)>, key: &str) -> (r: Result<String, TrackerError>)
    ensures
        text_result(r) == text_argument(entry_views(map@), key@),
{
    match nonempty_text(map, key) {
        Some(text) => Ok(text),
        None => Err(missing_argument(key)),
    }
}

/// The keys that are not among those allowed, in their order.
pub open spec fn unknown_keys(
    entries: Seq<(Seq<char>, JsonView)>,
    allowed: Seq<Seq<char>>,
) -> Seq<Seq<char>>
    decreases entries.len(),
{
    if entries.len() == 0 {
        Seq::empty()
    } else if allowed.contains(entries.last().0) {
        unknown_keys(entries.drop_last(), allowed)
    } else {
        unknown_keys(entries.drop_last(), allowed).push(entries.last().0)
    }
}

/// The error about arguments that an action does not accept.
pub open spec fn unknown_keys_error(
    entries: Seq<(Seq<char>, JsonView)>,
    unknown: Seq<Seq<char>>,
) -> TrackerErrorView {
    unsupported_view(
        "unsupported keys for `todoist."@ + (match opt_json_text(lookup(entries, "action"@)) {
            Some(action) => action,
            None => "unknown"@,
        }) + "`: "@ + joined(unknown, ", "@),
    )
}

/// Refuses arguments that an action does not accept.
pub fn reject_unknown_keys(args: &Vec<(String, Json)>, allowed: &Vec<String>) -> (r: Result<
    (),
    TrackerError,
>)
    ensures
        unit_result(r) == ({
            let unknown = unknown_keys(entry_views(args@), texts(allowed@));
            if unknown.len() == 0 {
                Ok(())
            } else {
                Err(unknown_keys_error(entry_views(args@), unknown))
            }
        }),
{
    let ghost all = entry_views(args@);
    let mut unknown: Vec<String> = Vec::new();
    let mut i: usize = 0;
    proof {
        assert(texts(unknown@) =~= Seq::empty());
    }
    while i < args.len()
        invariant
            i <= args.len(),
            all == entry_views(args@),
            texts(unknown@) == unknown_keys(all.take(i as int), texts(allowed@)),
        decreases args.len() - i,
    {
        proof {
            assert(all.take(i + 1).drop_last() =~= all.take(i as int));
            assert(all.take(i + 1).last().0 == args@[i as int].0@);
        }
        if !is_among(allowed, args[i].0.as_str()) {
            let ghost had = texts(unknown@);
            unknown.push(args[i].0.clone());
            proof {
                assert(texts(unknown@) =~= had.push(args@[i as int].0@));
            }
        }
        i = i + 1;
    }
    proof {
        assert(all.take(i as int) =~= all);
        assert(texts(unknown@).len() == unknown@.len());
    }
    if unknown.len() == 0 {
        return Ok(());
    }
    let action: &str = match get_entry(args, "action") {
        Some(value) => match value.as_str() {
            Some(action) => action,
            None => "unknown",
        },
        None => "unknown",
    };
    let list: String = join(&unknown, ", ");
    let mut message: String = concat3("unsupported keys for `todoist.", action, "`: ");
    message.append(list.as_str());
    Err(unsupported(message))
}

/// The first required argument that is not there.
pub open spec fn first_missing(
    entries: Seq<(Seq<char>, JsonView)>,
    required: Seq<Seq<char>>,
) -> Option<Seq<char>>
    decreases required.len(),
{
    if required.len() == 0 {
        None
    } else if !has_key(entries, required[0]) {
        Some(required[0])
    } else {
        first_missing(entries, required.skip(1))
    }
}

fn find_missing(args: &Vec<(String, Json)>, required: &Vec<String>) -> (r: Option<String>)
    ensures
        opt_text(r) == first_missing(entry_views(args@), texts(required@)),
{
    let ghost all = texts(required@);
    let mut i: usize = 0;
    proof {
        assert(all.skip(0) =~= all);
    }
    while i < required.len()
        invariant
            i <= required.len(),
            all == texts(required@),
            first_missing(entry_views(args@), all) == first_missing(
                entry_views(args@),
                all.skip(i as int),
            ),
        decreases required.len() - i,
    {
        proof {
            assert(all.skip(i as int)[0] == required@[i as int]@);
            assert(all.skip(i as int).skip(1) =~= all.skip(i + 1));
        }
        match get_entry(args, required[i].as_str()) {
            Some(_) => {},
            None => {
                return Some(required[i].clone());
            },
        }
        i = i + 1;
    }
    None
}

/// Whether exactly one of a task and a project is given.
pub open spec fn one_target(entries: Seq<(Seq<char>, JsonView)>) -> bool {
    has_key(entries, "task_id"@) != has_key(entries, "project_id"@)
}

pub open spec fn target_error() -> TrackerErrorView {
    unsupported_view(
        "exactly one of `todoist.task_id` or `todoist.project_id` is required"@,
    )
}

/// Refuses comment arguments that do not name exactly one of a task and a project.
pub fn require_exactly_one_comment_target(args: &Vec<(String, Json)>) -> (r: Result<
    (),
    TrackerError,
>)
    ensures
        unit_result(r) == if one_target(entry_views(args@)) {
            Ok(())
        } else {
            Err(target_error())
        },
{
    let task: bool = get_entry(args, "task_id").is_some();
    let project: bool = get_entry(args, "project_id").is_some();
    if task != project {
        Ok(())
    } else {
        Err(
            unsupported(
                owned("exactly one of `todoist.task_id` or `todoist.project_id` is required"),
            ),
        )
    }
}

/// Whether the arguments of an action are in order.
pub open spec fn validated(entries: Seq<(Seq<char>, JsonView)>, action: Seq<char>) -> Result<
    (),
    TrackerErrorView,
> {
    match contract_of(action) {
        None => Err(unsupported_view("unsupported todoist action `"@ + action + "`"@)),
        Some((allowed, required)) => {
            let unknown = unknown_keys(entries, allowed);
            if unknown.len() > 0 {
                Err(unknown_keys_error(entries, unknown))
            } else {
                match first_missing(entries, required) {
                    Some(field) => Err(required_error(field)),
                    None => if action == "list_comments"@ && !one_target(entries) {
                        Err(target_error())
                    } else {
                        Ok(())
                    },
                }
            }
        },
    }
}

/// Checks the arguments of an action.
pub fn validate_todoist_action_arguments(args: &Vec<(String, Json)>, action: &str) -> (r: Result<
    (),
    TrackerError,
>)
    ensures
        unit_result(r) == validated(entry_views(args@), action@),
{
    let contract: ActionContract = match todoist_action_contract(action) {
        Ok(contract) => contract,
        Err(error) => {
            return Err(error);
        },
    };
    match reject_unknown_keys(args, &contract.allowed) {
        Ok(()) => {},
        Err(error) => {
            return Err(error);
        },
    }
    match find_missing(args, &contract.required) {
        Some(field) => {
            return Err(missing_argument(field.as_str()));
        },
        None => {},
    }
    if same(action, "list_comments") {
        return require_exactly_one_comment_target(args);
    }
    Ok(())
}

/// Whether an action works on comments.
pub open spec fn needs_comments(action: Seq<char>) -> bool {
    action == "get_comment"@ || action == "list_comments"@ || action == "create_project_comment"@
        || action == "update_comment"@ || action == "delete_comment"@ || action == "get_workpad"@
        || action == "upsert_workpad"@ || action == "delete_workpad"@
}

/// Whether the account can do what an action needs.
pub open spec fn capability(action: Seq<char>, capabilities: TrackerCapabilities) -> Result<
    (),
    TrackerErrorView,
> {
    if needs_comments(action) && !capabilities.comments {
        Err(TrackerErrorView::TodoistCommentsUnavailable)
    } else if action == "list_activities"@ && !capabilities.activity_log {
        Err(TrackerErrorView::TodoistActivityLogUnavailable)
    } else {
        Ok(())
    }
}

/// Checks that the account can do what an action needs.
pub fn ensure_action_capability(action: &str, capabilities: TrackerCapabilities) -> (r: Result<
    (),
    TrackerError,
>)
    ensures
        unit_result(r) == capability(action@, capabilities),
{
    let comments: bool = same(action, "get_comment") || same(action, "list_comments") || same(
        action,
        "create_project_comment",
    ) || same(action, "update_comment") || same(action, "delete_comment") || same(
        action,
        "get_workpad",
    ) || same(action, "upsert_workpad") || same(action, "delete_workpad");
    if comments && !capabilities.comments {
        Err(TrackerError::TodoistCommentsUnavailable)
    } else if same(action, "list_activities") && !capabilities.activity_log {
        Err(TrackerError::TodoistActivityLogUnavailable)
    } else {
        Ok(())
    }
}

/// What a call is logged under: the identifiers that it names.
pub open spec fn log_parts(
    entries: Seq<(Seq<char>, JsonView)>,
    names: Seq<Seq<char>>,
) -> Seq<Seq<char>>
    decreases names.len(),
{
    if names.len() == 0 {
        Seq::empty()
    } else {
        let earlier = log_parts(entries, names.drop_last());
        let id = match lookup(entries, names.last()) {
            Some(JsonView::Text(t)) => trimmed(t),
            Some(JsonView::Number(n)) => n.written(),
            _ => Seq::empty(),
        };
        if id.len() > 0 {
            earlier.push(names.last() + "="@ + id)
        } else {
            earlier
        }
    }
}

/// The identifiers that a call is logged under.
pub open spec fn log_names() -> Seq<Seq<char>> {
    seq![
        "task_id"@,
        "project_id"@,
        "section_id"@,
        "comment_id"@,
        "object_id"@,
        "origin_task_id"@,
    ]
}

/// What a call is logged under.
pub fn todoist_log_scope(args: &Vec<(String, Json)>) -> (r: String)
    ensures
        r@ == ({
            let parts = log_parts(entry_views(args@), log_names());
            if parts.len() == 0 {
                "scope=none"@
            } else {
                joined(parts, " "@)
            }
        }),
{
    let names: Vec<String> = vec![
        owned("task_id"),
        owned("project_id"),
        owned("section_id"),
        owned("comment_id"),
        owned("object_id"),
        owned("origin_task_id"),
    ];
    let ghost all = texts(names@);
    let mut parts: Vec<String> = Vec::new();
    let mut i: usize = 0;
    proof {
        assert(all =~= log_names());
        assert(texts(parts@) =~= Seq::empty());
    }
    while i < names.len()
        invariant
            i <= names.len(),
            all == texts(names@),
            texts(parts@) == log_parts(entry_views(args@), all.take(i as int)),
        decreases names.len() - i,
    {
        proof {
            assert(all.take(i + 1).drop_last() =~= all.take(i as int));
            assert(all.take(i + 1).last() == names@[i as int]@);
        }
        let id: String = match get_entry(args, names[i].as_str()) {
            Some(Json::Text(t)) => trim(t.as_str()),
            Some(Json::Number(n)) => n.to_text(),
            _ => String::new(),
        };
        if !id.as_str().is_empty() {
            let ghost had = texts(parts@);
            let part: String = concat3(names[i].as_str(), "=", id.as_str());
            parts.push(part);
            proof {
                assert(texts(parts@) =~= had.push(part@));
            }
        }
        i = i + 1;
    }
    proof {
        assert(all.take(i as int) =~= all);
        assert(texts(parts@).len() == parts@.len());
    }
    if parts.len() == 0 {
        owned("scope=none")
    } else {
        join(&parts, " ")
    }
}

/// The tracker operation that a call of the Todoist tool stands for.
#[derive(Debug)]
pub enum TodoistStep {
    ListProjects(Json),
    GetProject(String),
    GetCurrentUser,
    ListCollaborators(Json),
    ListTasks(Json),
    GetTask(String),
    ListSections(Json),
    GetSection(String),
    ListLabels(Json),
    GetComment(String),
    /// Delete this comment, once it is known to belong to a project.
    DeleteComment(String),
    ListComments(Json),
    /// Read the workpad of the task.
    GetWorkpad(String),
    /// Write the workpad of the task.
    UpsertWorkpad { task_id: String, content: String, comment_id: Option<String> },
    /// Delete the workpad of the task.
    DeleteWorkpad(String),
    CreateComment(Json),
    /// Update this comment, once it is known to belong to a project.
    UpdateComment { id: String, arguments: Json },
    UpdateTask { id: String, arguments: Json },
    MoveTask { id: String, arguments: Json },
    /// Close the task, once its pull request is known to be merged.
    CloseTask(String),
    ReopenTask(String),
    CreateTask(Json),
    ListActivities(Json),
}

/// What a step stands for.
pub enum TodoistStepView {
    ListProjects(JsonView),
    GetProject(Seq<char>),
    GetCurrentUser,
    ListCollaborators(JsonView),
    ListTasks(JsonView),
    GetTask(Seq<char>),
    ListSections(JsonView),
    GetSection(Seq<char>),
    ListLabels(JsonView),
    GetComment(Seq<char>),
    DeleteComment(Seq<char>),
    ListComments(JsonView),
    GetWorkpad(Seq<char>),
    UpsertWorkpad { task_id: Seq<char>, content: Seq<char>, comment_id: Option<Seq<char>> },
    DeleteWorkpad(Seq<char>),
    CreateComment(JsonView),
    UpdateComment { id: Seq<char>, arguments: JsonView },
    UpdateTask { id: Seq<char>, arguments: JsonView },
    MoveTask { id: Seq<char>, arguments: JsonView },
    CloseTask(Seq<char>),
    ReopenTask(Seq<char>),
    CreateTask(JsonView),
    ListActivities(JsonView),
}

impl View for TodoistStep {
    type V = TodoistStepView;

    open spec fn view(&self) -> TodoistStepView {
        match self {
            TodoistStep::ListProjects(x) => TodoistStepView::ListProjects(x@),
            TodoistStep::GetProject(x) => TodoistStepView::GetProject(x@),
            TodoistStep::GetCurrentUser => TodoistStepView::GetCurrentUser,
            TodoistStep::ListCollaborators(x) => TodoistStepView::ListCollaborators(x@),
            TodoistStep::ListTasks(x) => TodoistStepView::ListTasks(x@),
            TodoistStep::GetTask(x) => TodoistStepView::GetTask(x@),
            TodoistStep::ListSections(x) => TodoistStepView::ListSections(x@),
            TodoistStep::GetSection(x) => TodoistStepView::GetSection(x@),
            TodoistStep::ListLabels(x) => TodoistStepView::ListLabels(x@),
            TodoistStep::GetComment(x) => TodoistStepView::GetComment(x@),
            TodoistStep::DeleteComment(x) => TodoistStepView::DeleteComment(x@),
            TodoistStep::ListComments(x) => TodoistStepView::ListComments(x@),
            TodoistStep::GetWorkpad(x) => TodoistStepView::GetWorkpad(x@),
            TodoistStep::UpsertWorkpad { task_id, content, comment_id } => TodoistStepView::UpsertWorkpad {
                task_id: task_id@,
                content: content@,
                comment_id: opt_text(*comment_id),
            },
            TodoistStep::DeleteWorkpad(x) => TodoistStepView::DeleteWorkpad(x@),
            TodoistStep::CreateComment(x) => TodoistStepView::CreateComment(x@),
            TodoistStep::UpdateComment { id, arguments } => TodoistStepView::UpdateComment { id: id@, arguments: arguments@ },
            TodoistStep::UpdateTask { id, arguments } => TodoistStepView::UpdateTask { id: id@, arguments: arguments@ },
            TodoistStep::MoveTask { id, arguments } => TodoistStepView::MoveTask { id: id@, arguments: arguments@ },
            TodoistStep::CloseTask(x) => TodoistStepView::CloseTask(x@),
            TodoistStep::ReopenTask(x) => TodoistStepView::ReopenTask(x@),
            TodoistStep::CreateTask(x) => TodoistStepView::CreateTask(x@),
            TodoistStep::ListActivities(x) => TodoistStepView::ListActivities(x@),
        }
    }
}

/// What planning a step returns.
pub open spec fn step_result(r: Result<TodoistStep, TrackerError>) -> Result<
    TodoistStepView,
    TrackerErrorView,
> {
    match r {
        Ok(step) => Ok(step@),
        Err(e) => Err(e@),
    }
}

/// The arguments of a project comment: the project as a text, and no task.
pub open spec fn project_comment(
    entries: Seq<(Seq<char>, JsonView)>,
    project_id: Seq<char>,
) -> JsonView {
    JsonView::Object(put(without(entries, "task_id"@), "project_id"@, JsonView::Text(project_id)))
}

pub open spec fn generic_comment_error() -> TrackerErrorView {
    unsupported_view(
        "Use `upsert_workpad` for task-scoped Symphony comments or `create_project_comment` for project comments."@,
    )
}

/// The error that refuses comments that belong to no one.
pub fn reject_generic_comment_creation() -> (r: TrackerError)
    ensures
        r@ == generic_comment_error(),
{
    unsupported(
        owned(
            "Use `upsert_workpad` for task-scoped Symphony comments or `create_project_comment` for project comments.",
        ),
    )
}

/// The tracker operation that an action with its arguments stands for.
pub open spec fn step_of(action: Seq<char>, entries: Seq<(Seq<char>, JsonView)>) -> Result<
    TodoistStepView,
    TrackerErrorView,
> {
    if action == "list_projects"@ {
        Ok(TodoistStepView::ListProjects(JsonView::Object(entries)))
    } else if action == "get_project"@ {
        match id_argument(entries, "project_id"@) {
            Ok(id) => Ok(TodoistStepView::GetProject(id)),
            Err(e) => Err(e),
        }
    } else if action == "get_current_user"@ {
        Ok(TodoistStepView::GetCurrentUser)
    } else if action == "list_collaborators"@ {
        Ok(TodoistStepView::ListCollaborators(JsonView::Object(entries)))
    } else if action == "list_tasks"@ {
        Ok(TodoistStepView::ListTasks(JsonView::Object(entries)))
    } else if action == "get_task"@ {
        match id_argument(entries, "task_id"@) {
            Ok(id) => Ok(TodoistStepView::GetTask(id)),
            Err(e) => Err(e),
        }
    } else if action == "list_sections"@ {
        Ok(TodoistStepView::ListSections(JsonView::Object(entries)))
    } else if action == "get_section"@ {
        match id_argument(entries, "section_id"@) {
            Ok(id) => Ok(TodoistStepView::GetSection(id)),
            Err(e) => Err(e),
        }
    } else if action == "list_labels"@ {
        Ok(TodoistStepView::ListLabels(JsonView::Object(entries)))
    } else if action == "get_comment"@ {
        match id_argument(entries, "comment_id"@) {
            Ok(id) => Ok(TodoistStepView::GetComment(id)),
            Err(e) => Err(e),
        }
    } else if action == "delete_comment"@ {
        match id_argument(entries, "comment_id"@) {
            Ok(id) => Ok(TodoistStepView::DeleteComment(id)),
            Err(e) => Err(e),
        }
    } else if action == "list_comments"@ {
        Ok(TodoistStepView::ListComments(JsonView::Object(entries)))
    } else if action == "get_workpad"@ {
        match id_argument(entries, "task_id"@) {
            Ok(id) => Ok(TodoistStepView::GetWorkpad(id)),
            Err(e) => Err(e),
        }
    } else if action == "upsert_workpad"@ {
        match (id_argument(entries, "task_id"@), text_argument(entries, "content"@)) {
            (Err(e), _) => Err(e),
            (Ok(_), Err(e)) => Err(e),
            (Ok(task_id), Ok(content)) => Ok(
                TodoistStepView::UpsertWorkpad {
                    task_id,
                    content,
                    comment_id: id_text(lookup(entries, "comment_id"@)),
                },
            ),
        }
    } else if action == "delete_workpad"@ {
        match id_argument(entries, "task_id"@) {
            Ok(id) => Ok(TodoistStepView::DeleteWorkpad(id)),
            Err(e) => Err(e),
        }
    } else if action == "create_project_comment"@ {
        match id_argument(entries, "project_id"@) {
            Ok(id) => Ok(TodoistStepView::CreateComment(project_comment(entries, id))),
            Err(e) => Err(e),
        }
    } else if action == "create_comment"@ {
        Err(generic_comment_error())
    } else if action == "update_comment"@ {
        match id_argument(entries, "comment_id"@) {
            Ok(id) => Ok(TodoistStepView::UpdateComment { id, arguments: JsonView::Object(entries) }),
            Err(e) => Err(e),
        }
    } else if action == "update_task"@ {
        match id_argument(entries, "task_id"@) {
            Ok(id) => Ok(TodoistStepView::UpdateTask { id, arguments: JsonView::Object(entries) }),
            Err(e) => Err(e),
        }
    } else if action == "move_task"@ {
        match id_argument(entries, "task_id"@) {
            Ok(id) => Ok(TodoistStepView::MoveTask { id, arguments: JsonView::Object(entries) }),
            Err(e) => Err(e),
        }
    } else if action == "close_task"@ {
        match id_argument(entries, "task_id"@) {
            Ok(id) => Ok(TodoistStepView::CloseTask(id)),
            Err(e) => Err(e),
        }
    } else if action == "reopen_task"@ {
        match id_argument(entries, "task_id"@) {
            Ok(id) => Ok(TodoistStepView::ReopenTask(id)),
            Err(e) => Err(e),
        }
    } else if action == "create_task"@ {
        Ok(TodoistStepView::CreateTask(JsonView::Object(entries)))
    } else if action == "list_activities"@ {
        Ok(TodoistStepView::ListActivities(JsonView::Object(entries)))
    } else {
        Err(unsupported_view("unsupported todoist action `"@ + action + "`"@))
    }
}

/// A call of the Todoist tool whose arguments are in order.
#[derive(Debug)]
pub struct TodoistCall {
    pub action: String,
    pub arguments: Vec<(String, Json)>,
}

/// The action that the arguments name.
pub open spec fn action_named(arguments: JsonView) -> Option<Seq<char>> {
    nonempty(opt_json_text(arguments.get("action"@)))
}

/// Whether a call of the Todoist tool can be made.
pub open spec fn call_accepted(arguments: JsonView) -> Result<(), TrackerErrorView> {
    match arguments.fields() {
        None => Err(unsupported_view("`todoist` expects an object with an `action` field"@)),
        Some(entries) => match action_named(arguments) {
            None => Err(unsupported_view("`todoist.action` is required"@)),
            Some(action) => validated(entries, action),
        },
    }
}

/// Checks a call of the Todoist tool.
pub fn begin_todoist(arguments: Json) -> (r: Result<TodoistCall, TrackerError>)
    ensures
        match r {
            Ok(call) => call_accepted(arguments@) == Ok::<(), TrackerErrorView>(()) && action_named(
                arguments@,
            ) == Some(call.action@) && arguments@.fields() == Some(entry_views(call.arguments@)),
            Err(e) => call_accepted(arguments@) == Err::<(), TrackerErrorView>(e@),
        },
{
    broadcast use crate::json::group_json_views;

    let entries: Vec<(String, Json)> = match arguments {
        Json::Object(entries) => entries,
        _ => {
            return Err(unsupported(owned("`todoist` expects an object with an `action` field")));
        },
    };
    let action: String = match nonempty_text(&entries, "action") {
        Some(action) => action,
        None => {
            return Err(unsupported(owned("`todoist.action` is required")));
        },
    };
    match validate_todoist_action_arguments(&entries, action.as_str()) {
        Ok(()) => Ok(TodoistCall { action, arguments: entries }),
        Err(error) => Err(error),
    }
}

/// The tracker operation that a call stands for, where the account can do it.
pub open spec fn planned(
    action: Seq<char>,
    entries: Seq<(Seq<char>, JsonView)>,
    capabilities: TrackerCapabilities,
) -> Result<TodoistStepView, TrackerErrorView> {
    match capability(action, capabilities) {
        Err(e) => Err(e),
        Ok(()) => step_of(action, entries),
    }
}

/// The tracker operation that a call stands for, where the account can do it.
pub fn plan_todoist(call: TodoistCall, capabilities: TrackerCapabilities) -> (r: Result<
    TodoistStep,
    TrackerError,
>)
    ensures
        step_result(r) == planned(call.action@, entry_views(call.arguments@), capabilities),
{
    broadcast use crate::json::group_json_views;

    let action: &str = call.action.as_str();
    match ensure_action_capability(action, capabilities) {
        Ok(()) => {},
        Err(error) => {
            return Err(error);
        },
    }
    if same(action, "list_projects") {
        Ok(TodoistStep::ListProjects(Json::Object(call.arguments)))
    } else if same(action, "get_project") {
        match required_id(&call.arguments, "project_id") {
            Ok(id) => Ok(TodoistStep::GetProject(id)),
            Err(error) => Err(error),
        }
    } else if same(action, "get_current_user") {
        Ok(TodoistStep::GetCurrentUser)
    } else if same(action, "list_collaborators") {
        Ok(TodoistStep::ListCollaborators(Json::Object(call.arguments)))
    } else if same(action, "list_tasks") {
        Ok(TodoistStep::ListTasks(Json::Object(call.arguments)))
    } else if same(action, "get_task") {
        match required_id(&call.arguments, "task_id") {
            Ok(id) => Ok(TodoistStep::GetTask(id)),
            Err(error) => Err(error),
        }
    } else if same(action, "list_sections") {
        Ok(TodoistStep::ListSections(Json::Object(call.arguments)))
    } else if same(action, "get_section") {
        match required_id(&call.arguments, "section_id") {
            Ok(id) => Ok(TodoistStep::GetSection(id)),
            Err(error) => Err(error),
        }
    } else if same(action, "list_labels") {
        Ok(TodoistStep::ListLabels(Json::Object(call.arguments)))
    } else if same(action, "get_comment") {
        match required_id(&call.arguments, "comment_id") {
            Ok(id) => Ok(TodoistStep::GetComment(id)),
            Err(error) => Err(error),
        }
    } else if same(action, "delete_comment") {
        match required_id(&call.arguments, "comment_id") {
            Ok(id) => Ok(TodoistStep::DeleteComment(id)),
            Err(error) => Err(error),
        }
    } else if same(action, "list_comments") {
        Ok(TodoistStep::ListComments(Json::Object(call.arguments)))
    } else if same(action, "get_workpad") {
        match required_id(&call.arguments, "task_id") {
            Ok(id) => Ok(TodoistStep::GetWorkpad(id)),
            Err(error) => Err(error),
        }
    } else if same(action, "upsert_workpad") {
        match required_id(&call.arguments, "task_id") {
            Err(error) => Err(error),
            Ok(task_id) => match required_string(&call.arguments, "content") {
                Err(error) => Err(error),
                Ok(content) => Ok(
                    TodoistStep::UpsertWorkpad {
                        task_id,
                        content,
                        comment_id: optional_id(&call.arguments, "comment_id"),
                    },
                ),
            },
        }
    } else if same(action, "delete_workpad") {
        match required_id(&call.arguments, "task_id") {
            Ok(id) => Ok(TodoistStep::DeleteWorkpad(id)),
            Err(error) => Err(error),
        }
    } else if same(action, "create_project_comment") {
        match required_id(&call.arguments, "project_id") {
            Ok(id) => {
                let mut arguments: Vec<(String, Json)> = call.arguments;
                remove(&mut arguments, "task_id");
                insert(&mut arguments, owned("project_id"), Json::Text(id));
                Ok(TodoistStep::CreateComment(Json::Object(arguments)))
            },
            Err(error) => Err(error),
        }
    } else if same(action, "create_comment") {
        Err(reject_generic_comment_creation())
    } else if same(action, "update_comment") {
        match required_id(&call.arguments, "comment_id") {
            Ok(id) => Ok(TodoistStep::UpdateComment { id, arguments: Json::Object(call.arguments) }),
            Err(error) => Err(error),
        }
    } else if same(action, "update_task") {
        match required_id(&call.arguments, "task_id") {
            Ok(id) => Ok(TodoistStep::UpdateTask { id, arguments: Json::Object(call.arguments) }),
            Err(error) => Err(error),
        }
    } else if same(action, "move_task") {
        match required_id(&call.arguments, "task_id") {
            Ok(id) => Ok(TodoistStep::MoveTask { id, arguments: Json::Object(call.arguments) }),
            Err(error) => Err(error),
        }
    } else if same(action, "close_task") {
        match required_id(&call.arguments, "task_id") {
            Ok(id) => Ok(TodoistStep::CloseTask(id)),
            Err(error) => Err(error),
        }
    } else if same(action, "reopen_task") {
        match required_id(&call.arguments, "task_id") {
            Ok(id) => Ok(TodoistStep::ReopenTask(id)),
            Err(error) => Err(error),
        }
    } else if same(action, "create_task") {
        Ok(TodoistStep::CreateTask(Json::Object(call.arguments)))
    } else if same(action, "list_activities") {
        Ok(TodoistStep::ListActivities(Json::Object(call.arguments)))
    } else {
        let message: String = concat3("unsupported todoist action `", action, "`");
        Err(unsupported(message))
    }
}

/// Whether a comment belongs to a project and not to a task.
pub open spec fn project_scoped(comment: JsonView) -> Result<(), TrackerErrorView> {
    if id_text(comment.get("item_id"@)) is Some {
        Err(
            unsupported_view(
                "Use `get_workpad`, `upsert_workpad`, or `delete_workpad` for task-scoped Symphony comments."@,
            ),
        )
    } else {
        Ok(())
    }
}

/// Refuses a comment that belongs to a task.
pub fn ensure_comment_is_project_scoped(comment: &Json) -> (r: Result<(), TrackerError>)
    ensures
        unit_result(r) == project_scoped(comment@),
{
    match id_string(comment.get("item_id")) {
        Some(_) => Err(
            unsupported(
                owned(
                    "Use `get_workpad`, `upsert_workpad`, or `delete_workpad` for task-scoped Symphony comments.",
                ),
            ),
        ),
        None => Ok(()),
    }
}

// ---------------------------------------------------------------------------
// Laws
// ---------------------------------------------------------------------------

/// The arguments that an action accepts.
pub open spec fn accepted_by(action: Seq<char>) -> Seq<Seq<char>> {
    match contract_of(action) {
        Some((allowed, _)) => allowed,
        None => Seq::empty(),
    }
}

/// The arguments that an action requires.
pub open spec fn required_by(action: Seq<char>) -> Seq<Seq<char>> {
    match contract_of(action) {
        Some((_, required)) => required,
        None => Seq::empty(),
    }
}

/// Every action accepts its own name and whatever it requires.
pub proof fn law_contracts_allow_what_they_require(action: Seq<char>)
    requires
        contract_of(action) is Some,
    ensures
        accepted_by(action).contains("action"@),
        forall|i: int|
            0 <= i < required_by(action).len() ==> accepted_by(action).contains(
                #[trigger] required_by(action)[i],
            ),
{
}

proof fn lemma_no_unknown_keys(entries: Seq<(Seq<char>, JsonView)>, allowed: Seq<Seq<char>>, i: int)
    requires
        unknown_keys(entries, allowed).len() == 0,
        0 <= i < entries.len(),
    ensures
        allowed.contains(entries[i].0),
    decreases entries.len(),
{
    if i < entries.len() - 1 {
        lemma_no_unknown_keys(entries.drop_last(), allowed, i);
        assert(entries.drop_last()[i] == entries[i]);
    }
}

proof fn lemma_nothing_missing(
    entries: Seq<(Seq<char>, JsonView)>,
    required: Seq<Seq<char>>,
    i: int,
)
    requires
        first_missing(entries, required) is None,
        0 <= i < required.len(),
    ensures
        has_key(entries, required[i]),
    decreases required.len(),
{
    if i > 0 {
        lemma_nothing_missing(entries, required.skip(1), i - 1);
        assert(required.skip(1)[i - 1] == required[i]);
    }
}

/// Arguments that pass hold nothing that the action does not accept, and everything that
/// it requires.
pub proof fn law_checked_arguments_fit(entries: Seq<(Seq<char>, JsonView)>, action: Seq<char>)
    requires
        validated(entries, action) == Ok::<(), TrackerErrorView>(()),
    ensures
        contract_of(action) is Some,
        forall|i: int|
            0 <= i < entries.len() ==> accepted_by(action).contains(
                (#[trigger] entries[i]).0,
            ),
        forall|i: int|
            0 <= i < required_by(action).len() ==> has_key(
                entries,
                #[trigger] required_by(action)[i],
            ),
{
    let allowed = accepted_by(action);
    let required = required_by(action);
    assert forall|i: int| 0 <= i < entries.len() implies allowed.contains(
        (#[trigger] entries[i]).0,
    ) by {
        lemma_no_unknown_keys(entries, allowed, i);
    }
    assert forall|i: int| 0 <= i < required.len() implies has_key(
        entries,
        #[trigger] required[i],
    ) by {
        lemma_nothing_missing(entries, required, i);
    }
}

/// Whether a required argument can be used: an identifier, or a text that is not blank.
pub open spec fn is_usable(entries: Seq<(Seq<char>, JsonView)>, key: Seq<char>) -> bool {
    if key == "content"@ {
        text_argument(entries, key) is Ok
    } else {
        id_argument(entries, key) is Ok
    }
}

/// What tells the names of actions apart: their length and some of their characters.
pub open spec fn name_mark(s: Seq<char>) -> (nat, char, char) {
    (s.len(), s[0], s[7])
}

pub proof fn lemma_name_marks()
    ensures
        name_mark("list_projects"@) == (13nat, 'l', 'o'),
        name_mark("get_project"@) == (11nat, 'g', 'j'),
        name_mark("get_current_user"@) == (16nat, 'g', 'r'),
        name_mark("list_collaborators"@) == (18nat, 'l', 'l'),
        name_mark("list_tasks"@) == (10nat, 'l', 's'),
        name_mark("get_task"@) == (8nat, 'g', 'k'),
        name_mark("list_sections"@) == (13nat, 'l', 'c'),
        name_mark("get_section"@) == (11nat, 'g', 't'),
        name_mark("list_labels"@) == (11nat, 'l', 'b'),
        name_mark("get_comment"@) == (11nat, 'g', 'm'),
        name_mark("delete_comment"@) == (14nat, 'd', 'c'),
        name_mark("list_comments"@) == (13nat, 'l', 'm'),
        name_mark("get_workpad"@) == (11nat, 'g', 'k'),
        name_mark("upsert_workpad"@) == (14nat, 'u', 'w'),
        name_mark("delete_workpad"@) == (14nat, 'd', 'w'),
        name_mark("create_project_comment"@) == (22nat, 'c', 'p'),
        name_mark("create_comment"@) == (14nat, 'c', 'c'),
        name_mark("update_comment"@) == (14nat, 'u', 'c'),
        name_mark("update_task"@) == (11nat, 'u', 't'),
        name_mark("move_task"@) == (9nat, 'm', 's'),
        name_mark("close_task"@) == (10nat, 'c', 'a'),
        name_mark("reopen_task"@) == (11nat, 'r', 't'),
        name_mark("create_task"@) == (11nat, 'c', 't'),
        name_mark("list_activities"@) == (15nat, 'l', 't'),
{
    reveal_strlit("list_projects");
    assert("list_projects"@.len() == 13);
    reveal_strlit("get_project");
    assert("get_project"@.len() == 11);
    reveal_strlit("get_current_user");
    assert("get_current_user"@.len() == 16);
    reveal_strlit("list_collaborators");
    assert("list_collaborators"@.len() == 18);
    reveal_strlit("list_tasks");
    assert("list_tasks"@.len() == 10);
    reveal_strlit("get_task");
    assert("get_task"@.len() == 8);
    reveal_strlit("list_sections");
    assert("list_sections"@.len() == 13);
    reveal_strlit("get_section");
    assert("get_section"@.len() == 11);
    reveal_strlit("list_labels");
    assert("list_labels"@.len() == 11);
    reveal_strlit("get_comment");
    assert("get_comment"@.len() == 11);
    reveal_strlit("delete_comment");
    assert("delete_comment"@.len() == 14);
    reveal_strlit("list_comments");
    assert("list_comments"@.len() == 13);
    reveal_strlit("get_workpad");
    assert("get_workpad"@.len() == 11);
    reveal_strlit("upsert_workpad");
    assert("upsert_workpad"@.len() == 14);
    reveal_strlit("delete_workpad");
    assert("delete_workpad"@.len() == 14);
    reveal_strlit("create_project_comment");
    assert("create_project_comment"@.len() == 22);
    reveal_strlit("create_comment");
    assert("create_comment"@.len() == 14);
    reveal_strlit("update_comment");
    assert("update_comment"@.len() == 14);
    reveal_strlit("update_task");
    assert("update_task"@.len() == 11);
    reveal_strlit("move_task");
    assert("move_task"@.len() == 9);
    reveal_strlit("close_task");
    assert("close_task"@.len() == 10);
    reveal_strlit("reopen_task");
    assert("reopen_task"@.len() == 11);
    reveal_strlit("create_task");
    assert("create_task"@.len() == 11);
    reveal_strlit("list_activities");
    assert("list_activities"@.len() == 15);
}

/// An action that is known, with required arguments that can be used, is carried out; only
/// comments on tasks at large are not made.
pub proof fn law_known_actions_are_carried_out(
    entries: Seq<(Seq<char>, JsonView)>,
    action: Seq<char>,
)
    requires
        contract_of(action) is Some,
        action != "create_comment"@,
        forall|i: int|
            0 <= i < required_by(action).len() ==> is_usable(
                entries,
                #[trigger] required_by(action)[i],
            ),
    ensures
        step_of(action, entries) is Ok,
{
    let required = required_by(action);
    lemma_name_marks();
    reveal_strlit("content");
    reveal_strlit("task_id");
    reveal_strlit("project_id");
    reveal_strlit("section_id");
    reveal_strlit("comment_id");
    assert("task_id"@[0] != "content"@[0]);
    assert("project_id"@[0] != "content"@[0]);
    assert("section_id"@[0] != "content"@[0]);
    assert("comment_id"@.len() != "content"@.len());
    assert(required.len() > 0 ==> is_usable(entries, required[0]));
    assert(required.len() > 1 ==> is_usable(entries, required[1]));
}

/// An action that is not known is refused as such.
pub proof fn law_other_actions_are_refused(entries: Seq<(Seq<char>, JsonView)>, action: Seq<char>)
    requires
        contract_of(action) is None,
    ensures
        validated(entries, action) is Err,
        step_of(action, entries) == Err::<TodoistStepView, TrackerErrorView>(
            unsupported_view("unsupported todoist action `"@ + action + "`"@),
        ),
{
}

} // verus!
