//! The tool for tasks does what its actions are named after, to what it is given.
use vstd::prelude::*;

use crate::actions::{
    action_named, call_accepted, capability, first_missing, lemma_name_marks, planned, project_scoped, unknown_keys, validated, TodoistStepView,
};
use crate::json::JsonView;
use crate::table::{has_key, in_order, lemma_put_lookup, lookup};
use crate::text::trimmed;
use crate::tracker::{TrackerCapabilities, TrackerErrorView};

verus! {

/// The identifier under a key: a text that is not blank, without the blanks around it,
/// or a number as it is written.
pub open spec fn given_id(entries: Seq<(Seq<char>, JsonView)>, key: Seq<char>) -> Option<Seq<char>> {
    match lookup(entries, key) {
        Some(JsonView::Text(t)) => if trimmed(t).len() > 0 {
            Some(trimmed(t))
        } else {
            None
        },
        Some(JsonView::Number(n)) => Some(n.written()),
        _ => None,
    }
}

/// The refusal of a call without this argument.
pub open spec fn is_missing(r: Result<TodoistStepView, TrackerErrorView>, key: Seq<char>) -> bool {
    r == Err::<TodoistStepView, TrackerErrorView>(
        TrackerErrorView::TrackerOperationUnsupported("`todoist."@ + key + "` is required"@),
    )
}

/// Whether the entries have only these keys, and all of those that are required.
pub open spec fn fits(
    entries: Seq<(Seq<char>, JsonView)>,
    allowed: Seq<Seq<char>>,
    required: Seq<Seq<char>>,
) -> bool {
    &&& forall|i: int| 0 <= i < entries.len() ==> allowed.contains((#[trigger] entries[i]).0)
    &&& forall|i: int| 0 <= i < required.len() ==> has_key(entries, #[trigger] required[i])
}

proof fn lemma_all_known(entries: Seq<(Seq<char>, JsonView)>, allowed: Seq<Seq<char>>)
    ensures
        unknown_keys(entries, allowed).len() == 0 <==> (forall|i: int|
            0 <= i < entries.len() ==> allowed.contains((#[trigger] entries[i]).0)),
    decreases entries.len(),
{
    if entries.len() > 0 {
        lemma_all_known(entries.drop_last(), allowed);
        let n = entries.len() - 1;
        assert(entries[n] == entries.last());
        assert(forall|i: int| 0 <= i < n ==> entries.drop_last()[i] == #[trigger] entries[i]);
        if unknown_keys(entries, allowed).len() == 0 {
            assert forall|i: int| 0 <= i < entries.len() implies allowed.contains(
                (#[trigger] entries[i]).0,
            ) by {
                if i < n {
                    assert(entries.drop_last()[i] == entries[i]);
                }
            }
        }
    }
}

proof fn lemma_all_there(entries: Seq<(Seq<char>, JsonView)>, required: Seq<Seq<char>>)
    ensures
        first_missing(entries, required) is None <==> (forall|i: int|
            0 <= i < required.len() ==> has_key(entries, #[trigger] required[i])),
        first_missing(entries, required) matches Some(field) ==> !has_key(entries, field),
    decreases required.len(),
{
    if required.len() > 0 {
        lemma_all_there(entries, required.skip(1));
        assert(forall|i: int| 1 <= i < required.len() ==> required.skip(1)[i - 1] == #[trigger] required[i]);
        assert(forall|i: int|
            0 <= i < required.skip(1).len() ==> #[trigger] required.skip(1)[i] == required[i + 1]);
    }
}

proof fn lemma_fits(
    entries: Seq<(Seq<char>, JsonView)>,
    allowed: Seq<Seq<char>>,
    required: Seq<Seq<char>>,
)
    ensures
        fits(entries, allowed, required) <==> unknown_keys(entries, allowed).len() == 0
            && first_missing(entries, required) is None,
{
    lemma_all_known(entries, allowed);
    lemma_all_there(entries, required);
}

/// An action on a task does to the task that is named what the action is named after. It
/// is refused where no task is named.
pub proof fn law_task_actions_act_on_the_task(
    entries: Seq<(Seq<char>, JsonView)>,
    capabilities: TrackerCapabilities,
)
    ensures
        match given_id(entries, "task_id"@) {
            Some(id) => {
                &&& planned("get_task"@, entries, capabilities) == Ok::<
                    TodoistStepView,
                    TrackerErrorView,
                >(TodoistStepView::GetTask(id))
                &&& planned("update_task"@, entries, capabilities) == Ok::<
                    TodoistStepView,
                    TrackerErrorView,
                >(TodoistStepView::UpdateTask { id, arguments: JsonView::Object(entries) })
                &&& planned("move_task"@, entries, capabilities) == Ok::<
                    TodoistStepView,
                    TrackerErrorView,
                >(TodoistStepView::MoveTask { id, arguments: JsonView::Object(entries) })
                &&& planned("close_task"@, entries, capabilities) == Ok::<
                    TodoistStepView,
                    TrackerErrorView,
                >(TodoistStepView::CloseTask(id))
                &&& planned("reopen_task"@, entries, capabilities) == Ok::<
                    TodoistStepView,
                    TrackerErrorView,
                >(TodoistStepView::ReopenTask(id))
            },
            None => {
                &&& is_missing(planned("get_task"@, entries, capabilities), "task_id"@)
                &&& is_missing(planned("update_task"@, entries, capabilities), "task_id"@)
                &&& is_missing(planned("move_task"@, entries, capabilities), "task_id"@)
                &&& is_missing(planned("close_task"@, entries, capabilities), "task_id"@)
                &&& is_missing(planned("reopen_task"@, entries, capabilities), "task_id"@)
            },
        },
{
    lemma_name_marks();
}

/// An action on a project or a section reads the one that is named. It is refused where
/// none is named.
pub proof fn law_project_actions_act_on_the_project(
    entries: Seq<(Seq<char>, JsonView)>,
    capabilities: TrackerCapabilities,
)
    ensures
        match given_id(entries, "project_id"@) {
            Some(id) => planned("get_project"@, entries, capabilities) == Ok::<
                TodoistStepView,
                TrackerErrorView,
            >(TodoistStepView::GetProject(id)),
            None => is_missing(planned("get_project"@, entries, capabilities), "project_id"@),
        },
        match given_id(entries, "section_id"@) {
            Some(id) => planned("get_section"@, entries, capabilities) == Ok::<
                TodoistStepView,
                TrackerErrorView,
            >(TodoistStepView::GetSection(id)),
            None => is_missing(planned("get_section"@, entries, capabilities), "section_id"@),
        },
{
    lemma_name_marks();
}

/// An action that names nothing in particular hands its arguments on as they are.
pub proof fn law_lists_are_asked_for_as_given(
    entries: Seq<(Seq<char>, JsonView)>,
    capabilities: TrackerCapabilities,
)
    ensures
        planned("list_projects"@, entries, capabilities) == Ok::<TodoistStepView, TrackerErrorView>(
            TodoistStepView::ListProjects(JsonView::Object(entries)),
        ),
        planned("get_current_user"@, entries, capabilities) == Ok::<
            TodoistStepView,
            TrackerErrorView,
        >(TodoistStepView::GetCurrentUser),
        planned("list_collaborators"@, entries, capabilities) == Ok::<
            TodoistStepView,
            TrackerErrorView,
        >(TodoistStepView::ListCollaborators(JsonView::Object(entries))),
        planned("list_tasks"@, entries, capabilities) == Ok::<TodoistStepView, TrackerErrorView>(
            TodoistStepView::ListTasks(JsonView::Object(entries)),
        ),
        planned("list_sections"@, entries, capabilities) == Ok::<TodoistStepView, TrackerErrorView>(
            TodoistStepView::ListSections(JsonView::Object(entries)),
        ),
        planned("list_labels"@, entries, capabilities) == Ok::<TodoistStepView, TrackerErrorView>(
            TodoistStepView::ListLabels(JsonView::Object(entries)),
        ),
        planned("create_task"@, entries, capabilities) == Ok::<TodoistStepView, TrackerErrorView>(
            TodoistStepView::CreateTask(JsonView::Object(entries)),
        ),
        planned("list_activities"@, entries, capabilities) == if capabilities.activity_log {
            Ok::<TodoistStepView, TrackerErrorView>(
                TodoistStepView::ListActivities(JsonView::Object(entries)),
            )
        } else {
            Err(TrackerErrorView::TodoistActivityLogUnavailable)
        },
{
    lemma_name_marks();
}

/// Where the tracker has comments, an action on a comment does to the comment that is
/// named what the action is named after. Where it has none, every such action is refused
/// for that reason.
pub proof fn law_comment_actions_act_on_the_comment(
    entries: Seq<(Seq<char>, JsonView)>,
    capabilities: TrackerCapabilities,
)
    ensures
        capabilities.comments ==> planned("list_comments"@, entries, capabilities) == Ok::<
            TodoistStepView,
            TrackerErrorView,
        >(TodoistStepView::ListComments(JsonView::Object(entries))),
        capabilities.comments ==> match given_id(entries, "comment_id"@) {
            Some(id) => {
                &&& planned("get_comment"@, entries, capabilities) == Ok::<
                    TodoistStepView,
                    TrackerErrorView,
                >(TodoistStepView::GetComment(id))
                &&& planned("delete_comment"@, entries, capabilities) == Ok::<
                    TodoistStepView,
                    TrackerErrorView,
                >(TodoistStepView::DeleteComment(id))
                &&& planned("update_comment"@, entries, capabilities) == Ok::<
                    TodoistStepView,
                    TrackerErrorView,
                >(TodoistStepView::UpdateComment { id, arguments: JsonView::Object(entries) })
            },
            None => {
                &&& is_missing(planned("get_comment"@, entries, capabilities), "comment_id"@)
                &&& is_missing(planned("delete_comment"@, entries, capabilities), "comment_id"@)
                &&& is_missing(planned("update_comment"@, entries, capabilities), "comment_id"@)
            },
        },
        !capabilities.comments ==> {
            &&& planned("list_comments"@, entries, capabilities)
                == Err::<TodoistStepView, TrackerErrorView>(
                TrackerErrorView::TodoistCommentsUnavailable,
            )
            &&& planned("get_comment"@, entries, capabilities)
                == Err::<TodoistStepView, TrackerErrorView>(
                TrackerErrorView::TodoistCommentsUnavailable,
            )
            &&& planned("delete_comment"@, entries, capabilities)
                == Err::<TodoistStepView, TrackerErrorView>(
                TrackerErrorView::TodoistCommentsUnavailable,
            )
            &&& planned("update_comment"@, entries, capabilities)
                == Err::<TodoistStepView, TrackerErrorView>(
                TrackerErrorView::TodoistCommentsUnavailable,
            )
            &&& planned("create_project_comment"@, entries, capabilities)
                == Err::<TodoistStepView, TrackerErrorView>(
                TrackerErrorView::TodoistCommentsUnavailable,
            )
        },
{
    lemma_name_marks();
}

/// Where the tracker has comments, an action on the workpad of a task does to the task's
/// workpad what the action is named after, and what is written there is the text that was
/// given, without the blanks around it. Where it has none, every such action is refused
/// for that reason.
pub proof fn law_workpad_actions_act_on_the_task(
    entries: Seq<(Seq<char>, JsonView)>,
    capabilities: TrackerCapabilities,
)
    ensures
        capabilities.comments ==> match given_id(entries, "task_id"@) {
            Some(id) => {
                &&& planned("get_workpad"@, entries, capabilities) == Ok::<
                    TodoistStepView,
                    TrackerErrorView,
                >(TodoistStepView::GetWorkpad(id))
                &&& planned("delete_workpad"@, entries, capabilities) == Ok::<
                    TodoistStepView,
                    TrackerErrorView,
                >(TodoistStepView::DeleteWorkpad(id))
                &&& match lookup(entries, "content"@) {
                    Some(JsonView::Text(text)) if trimmed(text).len() > 0 => planned(
                        "upsert_workpad"@,
                        entries,
                        capabilities,
                    ) == Ok::<TodoistStepView, TrackerErrorView>(
                        TodoistStepView::UpsertWorkpad {
                            task_id: id,
                            content: trimmed(text),
                            comment_id: given_id(entries, "comment_id"@),
                        },
                    ),
                    _ => is_missing(
                        planned("upsert_workpad"@, entries, capabilities),
                        "content"@,
                    ),
                }
            },
            None => {
                &&& is_missing(planned("get_workpad"@, entries, capabilities), "task_id"@)
                &&& is_missing(planned("delete_workpad"@, entries, capabilities), "task_id"@)
                &&& is_missing(planned("upsert_workpad"@, entries, capabilities), "task_id"@)
            },
        },
        !capabilities.comments ==> {
            &&& planned("get_workpad"@, entries, capabilities)
                == Err::<TodoistStepView, TrackerErrorView>(
                TrackerErrorView::TodoistCommentsUnavailable,
            )
            &&& planned("delete_workpad"@, entries, capabilities)
                == Err::<TodoistStepView, TrackerErrorView>(
                TrackerErrorView::TodoistCommentsUnavailable,
            )
            &&& planned("upsert_workpad"@, entries, capabilities)
                == Err::<TodoistStepView, TrackerErrorView>(
                TrackerErrorView::TodoistCommentsUnavailable,
            )
        },
{
    lemma_name_marks();
}

/// A comment on a project is created with the arguments that were given, under the
/// project that is named and never under a task. A comment that may belong to a task is
/// not created at all.
pub proof fn law_project_comments_stay_with_the_project(
    entries: Seq<(Seq<char>, JsonView)>,
    capabilities: TrackerCapabilities,
    key: Seq<char>,
)
    requires
        in_order(entries),
        capabilities.comments,
    ensures
        match given_id(entries, "project_id"@) {
            Some(id) => match planned("create_project_comment"@, entries, capabilities) {
                Ok(TodoistStepView::CreateComment(JsonView::Object(sent))) => lookup(sent, key)
                    == if key == "project_id"@ {
                    Some(JsonView::Text(id))
                } else if key == "task_id"@ {
                    None
                } else {
                    lookup(entries, key)
                },
                _ => false,
            },
            None => is_missing(
                planned("create_project_comment"@, entries, capabilities),
                "project_id"@,
            ),
        },
        planned("create_comment"@, entries, capabilities) == Err::<
            TodoistStepView,
            TrackerErrorView,
        >(
            TrackerErrorView::TrackerOperationUnsupported(
                "Use `upsert_workpad` for task-scoped Symphony comments or `create_project_comment` for project comments."@,
            ),
        ),
{
    lemma_name_marks();
    reveal_strlit("task_id");
    reveal_strlit("project_id");
    assert("task_id"@.len() == 7);
    assert("project_id"@.len() == 10);
    crate::table::lemma_without_in_order(entries, "task_id"@);
    crate::table::lemma_without_lookup(entries, "task_id"@, key);
    match given_id(entries, "project_id"@) {
        Some(id) => {
            lemma_put_lookup(
                crate::table::without(entries, "task_id"@),
                "project_id"@,
                JsonView::Text(id),
                key,
            );
        },
        None => {},
    }
}

/// Which arguments the actions on projects, their sections, labels and people take.
pub proof fn law_project_actions_take_these(entries: Seq<(Seq<char>, JsonView)>)
    ensures
        (validated(entries, "list_projects"@) is Ok) <==> fits(
            entries,
            seq!["action"@, "cursor"@, "limit"@],
            Seq::empty(),
        ),
        (validated(entries, "get_project"@) is Ok) <==> fits(
            entries,
            seq!["action"@, "project_id"@],
            seq!["project_id"@],
        ),
        (validated(entries, "get_current_user"@) is Ok) <==> fits(
            entries,
            seq!["action"@, "cursor"@, "limit"@],
            Seq::empty(),
        ),
        (validated(entries, "list_collaborators"@) is Ok) <==> fits(
            entries,
            seq!["action"@, "project_id"@, "cursor"@, "limit"@],
            Seq::empty(),
        ),
        (validated(entries, "list_sections"@) is Ok) <==> fits(
            entries,
            seq!["action"@, "project_id"@, "cursor"@, "limit"@],
            Seq::empty(),
        ),
        (validated(entries, "get_section"@) is Ok) <==> fits(
            entries,
            seq!["action"@, "section_id"@],
            seq!["section_id"@],
        ),
        (validated(entries, "list_labels"@) is Ok) <==> fits(
            entries,
            seq!["action"@, "cursor"@, "limit"@],
            Seq::empty(),
        ),
        (validated(entries, "list_activities"@) is Ok) <==> fits(
            entries,
            seq!["action"@, "object_type"@, "object_id"@, "event_type"@, "object_event_types"@, "parent_project_id"@, "parent_item_id"@, "date_from"@, "date_to"@, "include_parent_object"@, "include_child_objects"@, "annotate_notes"@, "annotate_parents"@, "initiator_id_null"@, "initiator_id"@, "workspace_id"@, "cursor"@, "limit"@],
            Seq::empty(),
        ),
{
    lemma_name_marks();
    lemma_fits(
        entries,
        seq!["action"@, "cursor"@, "limit"@],
        Seq::empty(),
    );
    lemma_fits(
        entries,
        seq!["action"@, "project_id"@],
        seq!["project_id"@],
    );
    lemma_fits(
        entries,
        seq!["action"@, "cursor"@, "limit"@],
        Seq::empty(),
    );
    lemma_fits(
        entries,
        seq!["action"@, "project_id"@, "cursor"@, "limit"@],
        Seq::empty(),
    );
    lemma_fits(
        entries,
        seq!["action"@, "project_id"@, "cursor"@, "limit"@],
        Seq::empty(),
    );
    lemma_fits(
        entries,
        seq!["action"@, "section_id"@],
        seq!["section_id"@],
    );
    lemma_fits(
        entries,
        seq!["action"@, "cursor"@, "limit"@],
        Seq::empty(),
    );
    lemma_fits(
        entries,
        seq!["action"@, "object_type"@, "object_id"@, "event_type"@, "object_event_types"@, "parent_project_id"@, "parent_item_id"@, "date_from"@, "date_to"@, "include_parent_object"@, "include_child_objects"@, "annotate_notes"@, "annotate_parents"@, "initiator_id_null"@, "initiator_id"@, "workspace_id"@, "cursor"@, "limit"@],
        Seq::empty(),
    );
}

/// Which arguments the actions on tasks take.
pub proof fn law_task_actions_take_these(entries: Seq<(Seq<char>, JsonView)>)
    ensures
        (validated(entries, "list_tasks"@) is Ok) <==> fits(
            entries,
            seq!["action"@, "project_id"@, "section_id"@, "parent_id"@, "label"@, "ids"@, "filter"@, "lang"@, "cursor"@, "limit"@],
            Seq::empty(),
        ),
        (validated(entries, "get_task"@) is Ok) <==> fits(
            entries,
            seq!["action"@, "task_id"@],
            seq!["task_id"@],
        ),
        (validated(entries, "update_task"@) is Ok) <==> fits(
            entries,
            seq!["action"@, "task_id"@, "content"@, "description"@, "labels"@, "assignee_id"@, "priority"@, "due"@, "deadline"@, "section_id"@, "project_id"@],
            seq!["task_id"@],
        ),
        (validated(entries, "move_task"@) is Ok) <==> fits(
            entries,
            seq!["action"@, "task_id"@, "project_id"@, "section_id"@, "parent_id"@],
            seq!["task_id"@],
        ),
        (validated(entries, "close_task"@) is Ok) <==> fits(
            entries,
            seq!["action"@, "task_id"@],
            seq!["task_id"@],
        ),
        (validated(entries, "reopen_task"@) is Ok) <==> fits(
            entries,
            seq!["action"@, "task_id"@],
            seq!["task_id"@],
        ),
        (validated(entries, "create_task"@) is Ok) <==> fits(
            entries,
            seq!["action"@, "content"@, "description"@, "labels"@, "assignee_id"@, "priority"@, "due"@, "deadline"@, "project_id"@, "section_id"@, "parent_id"@, "origin_task_id"@],
            seq!["content"@],
        ),
{
    lemma_name_marks();
    lemma_fits(
        entries,
        seq!["action"@, "project_id"@, "section_id"@, "parent_id"@, "label"@, "ids"@, "filter"@, "lang"@, "cursor"@, "limit"@],
        Seq::empty(),
    );
    lemma_fits(
        entries,
        seq!["action"@, "task_id"@],
        seq!["task_id"@],
    );
    lemma_fits(
        entries,
        seq!["action"@, "task_id"@, "content"@, "description"@, "labels"@, "assignee_id"@, "priority"@, "due"@, "deadline"@, "section_id"@, "project_id"@],
        seq!["task_id"@],
    );
    lemma_fits(
        entries,
        seq!["action"@, "task_id"@, "project_id"@, "section_id"@, "parent_id"@],
        seq!["task_id"@],
    );
    lemma_fits(
        entries,
        seq!["action"@, "task_id"@],
        seq!["task_id"@],
    );
    lemma_fits(
        entries,
        seq!["action"@, "task_id"@],
        seq!["task_id"@],
    );
    lemma_fits(
        entries,
        seq!["action"@, "content"@, "description"@, "labels"@, "assignee_id"@, "priority"@, "due"@, "deadline"@, "project_id"@, "section_id"@, "parent_id"@, "origin_task_id"@],
        seq!["content"@],
    );
}

/// Which arguments the actions on comments and workpads take.
pub proof fn law_comment_actions_take_these(entries: Seq<(Seq<char>, JsonView)>)
    ensures
        (validated(entries, "get_comment"@) is Ok) <==> fits(
            entries,
            seq!["action"@, "comment_id"@],
            seq!["comment_id"@],
        ),
        (validated(entries, "delete_comment"@) is Ok) <==> fits(
            entries,
            seq!["action"@, "comment_id"@],
            seq!["comment_id"@],
        ),
        (validated(entries, "create_comment"@) is Ok) <==> fits(
            entries,
            seq!["action"@, "task_id"@, "project_id"@, "content"@, "attachment"@, "uids_to_notify"@],
            seq!["content"@],
        ),
        (validated(entries, "create_project_comment"@) is Ok) <==> fits(
            entries,
            seq!["action"@, "project_id"@, "content"@, "attachment"@, "uids_to_notify"@],
            seq!["project_id"@, "content"@],
        ),
        (validated(entries, "update_comment"@) is Ok) <==> fits(
            entries,
            seq!["action"@, "comment_id"@, "content"@],
            seq!["comment_id"@, "content"@],
        ),
        (validated(entries, "get_workpad"@) is Ok) <==> fits(
            entries,
            seq!["action"@, "task_id"@],
            seq!["task_id"@],
        ),
        (validated(entries, "upsert_workpad"@) is Ok) <==> fits(
            entries,
            seq!["action"@, "task_id"@, "comment_id"@, "content"@],
            seq!["task_id"@, "content"@],
        ),
        (validated(entries, "delete_workpad"@) is Ok) <==> fits(
            entries,
            seq!["action"@, "task_id"@],
            seq!["task_id"@],
        ),
        (validated(entries, "list_comments"@) is Ok) <==> fits(
            entries,
            seq!["action"@, "task_id"@, "project_id"@, "cursor"@, "limit"@],
            Seq::empty(),
        ) && has_key(entries, "task_id"@) != has_key(entries, "project_id"@),
{
    lemma_name_marks();
    lemma_fits(
        entries,
        seq!["action"@, "comment_id"@],
        seq!["comment_id"@],
    );
    lemma_fits(
        entries,
        seq!["action"@, "comment_id"@],
        seq!["comment_id"@],
    );
    lemma_fits(
        entries,
        seq!["action"@, "task_id"@, "project_id"@, "content"@, "attachment"@, "uids_to_notify"@],
        seq!["content"@],
    );
    lemma_fits(
        entries,
        seq!["action"@, "project_id"@, "content"@, "attachment"@, "uids_to_notify"@],
        seq!["project_id"@, "content"@],
    );
    lemma_fits(
        entries,
        seq!["action"@, "comment_id"@, "content"@],
        seq!["comment_id"@, "content"@],
    );
    lemma_fits(
        entries,
        seq!["action"@, "task_id"@],
        seq!["task_id"@],
    );
    lemma_fits(
        entries,
        seq!["action"@, "task_id"@, "comment_id"@, "content"@],
        seq!["task_id"@, "content"@],
    );
    lemma_fits(
        entries,
        seq!["action"@, "task_id"@],
        seq!["task_id"@],
    );
    lemma_fits(
        entries,
        seq!["action"@, "task_id"@, "project_id"@, "cursor"@, "limit"@],
        Seq::empty(),
    );
}

/// The keys that no argument of the action has are named, in the order in which they were
/// given, and nothing else is.
pub proof fn law_unknown_arguments_are_named(
    entries: Seq<(Seq<char>, JsonView)>,
    allowed: Seq<Seq<char>>,
)
    ensures
        unknown_keys(entries, allowed) == entries.filter(
            |e: (Seq<char>, JsonView)| !allowed.contains(e.0),
        ).map_values(|e: (Seq<char>, JsonView)| e.0),
    decreases entries.len(),
{
    reveal(Seq::filter);
    let odd = |e: (Seq<char>, JsonView)| !allowed.contains(e.0);
    let key = |e: (Seq<char>, JsonView)| e.0;
    if entries.len() > 0 {
        law_unknown_arguments_are_named(entries.drop_last(), allowed);
        assert(entries.filter(odd).map_values(key) =~= if odd(entries.last()) {
            entries.drop_last().filter(odd).map_values(key).push(entries.last().0)
        } else {
            entries.drop_last().filter(odd).map_values(key)
        });
    } else {
        assert(entries.filter(odd).map_values(key) =~= Seq::empty());
    }
}

/// A call is taken up only where its arguments are an object that names an action in a
/// text that is not blank, and fit the action. Otherwise it says what is wrong.
pub proof fn law_calls_name_their_action(arguments: JsonView)
    ensures
        match arguments {
            JsonView::Object(entries) => match lookup(entries, "action"@) {
                Some(JsonView::Text(text)) if trimmed(text).len() > 0 => {
                    &&& action_named(arguments) == Some(trimmed(text))
                    &&& call_accepted(arguments) == validated(entries, trimmed(text))
                },
                _ => call_accepted(arguments) == Err::<(), TrackerErrorView>(
                    TrackerErrorView::TrackerOperationUnsupported("`todoist.action` is required"@),
                ),
            },
            _ => call_accepted(arguments) == Err::<(), TrackerErrorView>(
                TrackerErrorView::TrackerOperationUnsupported(
                    "`todoist` expects an object with an `action` field"@,
                ),
            ),
        },
{
}

/// Where several arguments are required, the first that is missing is named.
pub proof fn law_missing_arguments_are_named(entries: Seq<(Seq<char>, JsonView)>)
    requires
        fits(
            entries,
            seq!["action"@, "task_id"@, "comment_id"@, "content"@],
            Seq::empty(),
        ),
    ensures
        validated(entries, "upsert_workpad"@) == if !has_key(entries, "task_id"@) {
            Err::<(), TrackerErrorView>(
                TrackerErrorView::TrackerOperationUnsupported(
                    "`todoist."@ + "task_id"@ + "` is required"@,
                ),
            )
        } else if !has_key(entries, "content"@) {
            Err(
                TrackerErrorView::TrackerOperationUnsupported(
                    "`todoist."@ + "content"@ + "` is required"@,
                ),
            )
        } else {
            Ok(())
        },
{
    lemma_name_marks();
    lemma_fits(entries, seq!["action"@, "task_id"@, "comment_id"@, "content"@], Seq::empty());
    let required = seq!["task_id"@, "content"@];
    reveal_with_fuel(first_missing, 3);
    assert(required.skip(1) =~= seq!["content"@]);
    assert(seq!["content"@].skip(1) =~= Seq::<Seq<char>>::empty());
}

/// A comment is a project's own exactly where it names no task.
pub proof fn law_comments_of_tasks_are_told_apart(comment: JsonView)
    ensures
        match comment {
            JsonView::Object(entries) => (project_scoped(comment) is Ok) <==> given_id(
                entries,
                "item_id"@,
            ) is None,
            _ => project_scoped(comment) is Ok,
        },
        project_scoped(comment) matches Err(error) ==> error
            == TrackerErrorView::TrackerOperationUnsupported(
            "Use `get_workpad`, `upsert_workpad`, or `delete_workpad` for task-scoped Symphony comments."@,
        ),
{
}

/// Comments and the activity log are all that an action can want of the tracker.
pub proof fn law_capable_trackers_refuse_nothing(
    action: Seq<char>,
    capabilities: TrackerCapabilities,
)
    ensures
        capabilities.comments && capabilities.activity_log ==> capability(action, capabilities)
            is Ok,
        capability(action, capabilities) matches Err(error) ==> {
            ||| error == TrackerErrorView::TodoistCommentsUnavailable && !capabilities.comments
            ||| error == TrackerErrorView::TodoistActivityLogUnavailable
                && !capabilities.activity_log && action == "list_activities"@
        },
{
}

} // verus!
