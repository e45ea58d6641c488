//! What tools an agent is offered, and what it is told of them.
use vstd::prelude::*;

use crate::dynamic_tool::{
    accepted, action_schema, allowed_by, curated_actions, description_of, extended_actions,
    field_entry, field_schema, github_tool, metrics_of, offered_tools, payload, properties_of, schema_of, supported_actions,
    tracker_error_body, unsupported_tool, FieldKind, TodoistToolSurface,
};
use crate::json::{compact_of, pretty_of, JsonView, NumberView};
use crate::text::{byte_len, decimal};
use crate::tracker::{TrackerCapabilities, TrackerErrorView};

verus! {

broadcast use vstd::seq::group_seq_axioms;

/// The actions that are always offered.
pub open spec fn is_usual(action: Seq<char>) -> bool {
    ||| action == "list_tasks"@
    ||| action == "get_task"@
    ||| action == "list_sections"@
    ||| action == "list_comments"@
    ||| action == "get_workpad"@
    ||| action == "upsert_workpad"@
    ||| action == "delete_workpad"@
    ||| action == "update_task"@
    ||| action == "move_task"@
    ||| action == "close_task"@
    ||| action == "reopen_task"@
    ||| action == "create_task"@
}

/// The actions that are offered only where more were asked for.
pub open spec fn is_extra(action: Seq<char>) -> bool {
    ||| action == "list_projects"@
    ||| action == "get_project"@
    ||| action == "get_current_user"@
    ||| action == "list_collaborators"@
    ||| action == "get_section"@
    ||| action == "list_labels"@
    ||| action == "get_comment"@
    ||| action == "create_project_comment"@
    ||| action == "update_comment"@
    ||| action == "delete_comment"@
}

/// An action is offered exactly where it is a usual one, where it is one of the others and
/// these were asked for, or where it reads the activity log and there is one.
pub proof fn law_offered_actions(
    surface: TodoistToolSurface,
    capabilities: TrackerCapabilities,
    action: Seq<char>,
)
    ensures
        supported_actions(surface, capabilities).contains(action) <==> {
            ||| is_usual(action)
            ||| is_extra(action) && surface == TodoistToolSurface::Extended
            ||| action == "list_activities"@ && capabilities.activity_log
        },
{
    let all = supported_actions(surface, capabilities);
    let usual = curated_actions();
    let extra = extended_actions();
    let n = usual.len() as int;
    assert(usual[0] == "list_tasks"@);
    assert(all[0] == usual[0]);
    assert(usual[1] == "get_task"@);
    assert(all[1] == usual[1]);
    assert(usual[2] == "list_sections"@);
    assert(all[2] == usual[2]);
    assert(usual[3] == "list_comments"@);
    assert(all[3] == usual[3]);
    assert(usual[4] == "get_workpad"@);
    assert(all[4] == usual[4]);
    assert(usual[5] == "upsert_workpad"@);
    assert(all[5] == usual[5]);
    assert(usual[6] == "delete_workpad"@);
    assert(all[6] == usual[6]);
    assert(usual[7] == "update_task"@);
    assert(all[7] == usual[7]);
    assert(usual[8] == "move_task"@);
    assert(all[8] == usual[8]);
    assert(usual[9] == "close_task"@);
    assert(all[9] == usual[9]);
    assert(usual[10] == "reopen_task"@);
    assert(all[10] == usual[10]);
    assert(usual[11] == "create_task"@);
    assert(all[11] == usual[11]);
    if surface == TodoistToolSurface::Extended {
        assert(extra[0] == "list_projects"@);
        assert(all[12] == extra[0]);
        assert(extra[1] == "get_project"@);
        assert(all[13] == extra[1]);
        assert(extra[2] == "get_current_user"@);
        assert(all[14] == extra[2]);
        assert(extra[3] == "list_collaborators"@);
        assert(all[15] == extra[3]);
        assert(extra[4] == "get_section"@);
        assert(all[16] == extra[4]);
        assert(extra[5] == "list_labels"@);
        assert(all[17] == extra[5]);
        assert(extra[6] == "get_comment"@);
        assert(all[18] == extra[6]);
        assert(extra[7] == "create_project_comment"@);
        assert(all[19] == extra[7]);
        assert(extra[8] == "update_comment"@);
        assert(all[20] == extra[8]);
        assert(extra[9] == "delete_comment"@);
        assert(all[21] == extra[9]);
    }
    if capabilities.activity_log {
        assert(all[all.len() - 1] == "list_activities"@);
    }
}

/// Whether a property of this name is described, with these types or with any.
pub open spec fn is_described(
    properties: Seq<(Seq<char>, JsonView)>,
    name: Seq<char>,
    types: Option<Seq<JsonView>>,
) -> bool {
    exists|i: int|
        0 <= i < properties.len() && (#[trigger] properties[i]).0 == name && match (
            types,
            properties[i].1,
        ) {
            (None, JsonView::Object(told)) => told.len() == 1 && told[0].0 == "description"@
                && told[0].1 is Text,
            (Some(types), JsonView::Object(told)) => told.len() == 2 && told[0].0 == "description"@
                && told[0].1 is Text && told[1] == ("type"@, JsonView::Array(types)),
            _ => false,
        }
}

/// A text or nothing.
pub open spec fn a_text() -> Option<Seq<JsonView>> {
    Some(seq![JsonView::Text("string"@), JsonView::Text("null"@)])
}

/// A text, a number or nothing.
pub open spec fn a_text_or_number() -> Option<Seq<JsonView>> {
    Some(seq![JsonView::Text("string"@), JsonView::Text("number"@), JsonView::Text("null"@)])
}

/// An integer or nothing.
pub open spec fn an_integer() -> Option<Seq<JsonView>> {
    Some(seq![JsonView::Text("integer"@), JsonView::Text("null"@)])
}

/// A truth value or nothing.
pub open spec fn a_truth() -> Option<Seq<JsonView>> {
    Some(seq![JsonView::Text("boolean"@), JsonView::Text("null"@)])
}

proof fn lemma_described(
    front: Seq<(Seq<char>, JsonView)>,
    part: Seq<(Seq<char>, JsonView)>,
    name: Seq<char>,
    types: Option<Seq<JsonView>>,
)
    ensures
        is_described(front, name, types) || is_described(part, name, types) ==> is_described(
            front + part,
            name,
            types,
        ),
{
    let all = front + part;
    assert(forall|i: int| 0 <= i < front.len() ==> all[i] == #[trigger] front[i]);
    assert(forall|i: int| 0 <= i < part.len() ==> all[front.len() + i] == #[trigger] part[i]);
}

proof fn lemma_field(
    actions: Seq<Seq<char>>,
    name: Seq<char>,
    kind: FieldKind,
    description: Seq<char>,
)
    ensures
        accepted(actions, name) ==> is_described(
            field_entry(actions, name, kind, description),
            name,
            match kind {
                FieldKind::Text => a_text(),
                FieldKind::TextOrNumber => a_text_or_number(),
                FieldKind::Integer => an_integer(),
                FieldKind::Truth => a_truth(),
                FieldKind::Any => None,
            },
        ),
{
    if accepted(actions, name) {
        let part = field_entry(actions, name, kind, description);
        assert(part[0] == (name, field_schema(kind, description)));
    }
}

proof fn lemma_described_in_all(
    actions: Seq<Seq<char>>,
    name: Seq<char>,
    types: Option<Seq<JsonView>>,
)
    requires
        is_described(field_entry(actions, "annotate_notes"@, FieldKind::Truth, "Whether Todoist should annotate note activity results."@), name, types)
            || is_described(field_entry(actions, "annotate_parents"@, FieldKind::Truth, "Whether Todoist should annotate parent objects in activity results."@), name, types)
            || is_described(field_entry(actions, "assignee_id"@, FieldKind::TextOrNumber, "Todoist assignee id for create_task or update_task."@), name, types)
            || is_described(field_entry(actions, "attachment"@, FieldKind::Any, "Optional Todoist comment attachment object."@), name, types)
            || is_described(field_entry(actions, "comment_id"@, FieldKind::TextOrNumber, "Comment identifier for get_comment, update_comment, delete_comment, or as an optional workpad hint for upsert_workpad."@), name, types)
            || is_described(field_entry(actions, "content"@, FieldKind::Text, "Primary content for create_task, create_project_comment, update_comment, or upsert_workpad."@), name, types)
            || is_described(field_entry(actions, "cursor"@, FieldKind::Text, "Cursor for paginated list actions."@), name, types)
            || is_described(field_entry(actions, "date_from"@, FieldKind::Text, "RFC3339 lower bound for list_activities."@), name, types)
            || is_described(field_entry(actions, "date_to"@, FieldKind::Text, "RFC3339 exclusive upper bound for list_activities."@), name, types)
            || is_described(field_entry(actions, "deadline"@, FieldKind::Any, "Todoist deadline object for create_task or update_task."@), name, types)
            || is_described(field_entry(actions, "description"@, FieldKind::Text, "Todoist task description for create_task or update_task."@), name, types)
            || is_described(field_entry(actions, "due"@, FieldKind::Any, "Todoist due object for create_task or update_task."@), name, types)
            || is_described(field_entry(actions, "event_type"@, FieldKind::Text, "Todoist activity event type such as `added`, `updated`, `completed`, or `moved`."@), name, types)
            || is_described(field_entry(actions, "filter"@, FieldKind::Text, "Todoist filter query for list_tasks. When provided, Symphony uses `/tasks/filter`."@), name, types)
            || is_described(field_entry(actions, "ids"@, FieldKind::Any, "Comma-separated task ids or an array of task ids for list_tasks."@), name, types)
            || is_described(field_entry(actions, "include_child_objects"@, FieldKind::Truth, "Whether Todoist should expand child objects in activity results."@), name, types)
            || is_described(field_entry(actions, "include_parent_object"@, FieldKind::Truth, "Whether Todoist should expand the parent object in activity results."@), name, types)
            || is_described(field_entry(actions, "initiator_id"@, FieldKind::Any, "Single initiator id or array of initiator ids for list_activities."@), name, types)
            || is_described(field_entry(actions, "initiator_id_null"@, FieldKind::Truth, "Filter activities by whether the initiator is absent (`true`) or present (`false`)."@), name, types)
            || is_described(field_entry(actions, "label"@, FieldKind::Text, "Todoist label name for list_tasks filtering."@), name, types)
            || is_described(field_entry(actions, "labels"@, FieldKind::Any, "Todoist label names for create_task or update_task."@), name, types)
            || is_described(field_entry(actions, "lang"@, FieldKind::Text, "IETF language tag for Todoist filter queries."@), name, types)
            || is_described(field_entry(actions, "limit"@, FieldKind::Integer, "Requested page size for paginated list actions."@), name, types)
            || is_described(field_entry(actions, "object_event_types"@, FieldKind::Any, "Single value or array using Todoist `object_type:event_type` syntax, for example `item:completed`."@), name, types)
            || is_described(field_entry(actions, "object_id"@, FieldKind::TextOrNumber, "Activity-log object identifier, used with object_type."@), name, types)
            || is_described(field_entry(actions, "object_type"@, FieldKind::Text, "Activity-log object type such as `project`, `item`, or `note`."@), name, types)
            || is_described(field_entry(actions, "origin_task_id"@, FieldKind::TextOrNumber, "Optional source task id for follow-up task creation; Symphony records it as `TD-<task_id>` in the new task description."@), name, types)
            || is_described(field_entry(actions, "parent_id"@, FieldKind::TextOrNumber, "Parent task identifier for subtask listing, creation, or task reparenting."@), name, types)
            || is_described(field_entry(actions, "parent_item_id"@, FieldKind::TextOrNumber, "Activity-log parent task identifier."@), name, types)
            || is_described(field_entry(actions, "parent_project_id"@, FieldKind::TextOrNumber, "Activity-log parent project identifier."@), name, types)
            || is_described(field_entry(actions, "priority"@, FieldKind::Integer, "Todoist task priority from 1 (normal) to 4 (urgent)."@), name, types)
            || is_described(field_entry(actions, "project_id"@, FieldKind::TextOrNumber, "Optional project identifier; defaults to tracker.project_id where applicable. Do not send this for task comment actions."@), name, types)
            || is_described(field_entry(actions, "section_id"@, FieldKind::TextOrNumber, "Section identifier for get/update section-based actions."@), name, types)
            || is_described(field_entry(actions, "task_id"@, FieldKind::TextOrNumber, "Task identifier for get/update/move/close/reopen task actions."@), name, types)
            || is_described(field_entry(actions, "uids_to_notify"@, FieldKind::Any, "Optional list of Todoist user ids to notify for comment creation."@), name, types)
            || is_described(field_entry(actions, "workspace_id"@, FieldKind::Any, "Optional Todoist workspace id filter for list_activities."@), name, types),
    ensures
        is_described(properties_of(actions), name, types),
{
    let s0 = seq![("action"@, action_schema(actions))];
    let p1 = field_entry(actions, "annotate_notes"@, FieldKind::Truth, "Whether Todoist should annotate note activity results."@);
    let s1 = s0 + p1;
    lemma_described(s0, p1, name, types);
    let p2 = field_entry(actions, "annotate_parents"@, FieldKind::Truth, "Whether Todoist should annotate parent objects in activity results."@);
    let s2 = s1 + p2;
    lemma_described(s1, p2, name, types);
    let p3 = field_entry(actions, "assignee_id"@, FieldKind::TextOrNumber, "Todoist assignee id for create_task or update_task."@);
    let s3 = s2 + p3;
    lemma_described(s2, p3, name, types);
    let p4 = field_entry(actions, "attachment"@, FieldKind::Any, "Optional Todoist comment attachment object."@);
    let s4 = s3 + p4;
    lemma_described(s3, p4, name, types);
    let p5 = field_entry(actions, "comment_id"@, FieldKind::TextOrNumber, "Comment identifier for get_comment, update_comment, delete_comment, or as an optional workpad hint for upsert_workpad."@);
    let s5 = s4 + p5;
    lemma_described(s4, p5, name, types);
    let p6 = field_entry(actions, "content"@, FieldKind::Text, "Primary content for create_task, create_project_comment, update_comment, or upsert_workpad."@);
    let s6 = s5 + p6;
    lemma_described(s5, p6, name, types);
    let p7 = field_entry(actions, "cursor"@, FieldKind::Text, "Cursor for paginated list actions."@);
    let s7 = s6 + p7;
    lemma_described(s6, p7, name, types);
    let p8 = field_entry(actions, "date_from"@, FieldKind::Text, "RFC3339 lower bound for list_activities."@);
    let s8 = s7 + p8;
    lemma_described(s7, p8, name, types);
    let p9 = field_entry(actions, "date_to"@, FieldKind::Text, "RFC3339 exclusive upper bound for list_activities."@);
    let s9 = s8 + p9;
    lemma_described(s8, p9, name, types);
    let p10 = field_entry(actions, "deadline"@, FieldKind::Any, "Todoist deadline object for create_task or update_task."@);
    let s10 = s9 + p10;
    lemma_described(s9, p10, name, types);
    let p11 = field_entry(actions, "description"@, FieldKind::Text, "Todoist task description for create_task or update_task."@);
    let s11 = s10 + p11;
    lemma_described(s10, p11, name, types);
    let p12 = field_entry(actions, "due"@, FieldKind::Any, "Todoist due object for create_task or update_task."@);
    let s12 = s11 + p12;
    lemma_described(s11, p12, name, types);
    let p13 = field_entry(actions, "event_type"@, FieldKind::Text, "Todoist activity event type such as `added`, `updated`, `completed`, or `moved`."@);
    let s13 = s12 + p13;
    lemma_described(s12, p13, name, types);
    let p14 = field_entry(actions, "filter"@, FieldKind::Text, "Todoist filter query for list_tasks. When provided, Symphony uses `/tasks/filter`."@);
    let s14 = s13 + p14;
    lemma_described(s13, p14, name, types);
    let p15 = field_entry(actions, "ids"@, FieldKind::Any, "Comma-separated task ids or an array of task ids for list_tasks."@);
    let s15 = s14 + p15;
    lemma_described(s14, p15, name, types);
    let p16 = field_entry(actions, "include_child_objects"@, FieldKind::Truth, "Whether Todoist should expand child objects in activity results."@);
    let s16 = s15 + p16;
    lemma_described(s15, p16, name, types);
    let p17 = field_entry(actions, "include_parent_object"@, FieldKind::Truth, "Whether Todoist should expand the parent object in activity results."@);
    let s17 = s16 + p17;
    lemma_described(s16, p17, name, types);
    let p18 = field_entry(actions, "initiator_id"@, FieldKind::Any, "Single initiator id or array of initiator ids for list_activities."@);
    let s18 = s17 + p18;
    lemma_described(s17, p18, name, types);
    let p19 = field_entry(actions, "initiator_id_null"@, FieldKind::Truth, "Filter activities by whether the initiator is absent (`true`) or present (`false`)."@);
    let s19 = s18 + p19;
    lemma_described(s18, p19, name, types);
    let p20 = field_entry(actions, "label"@, FieldKind::Text, "Todoist label name for list_tasks filtering."@);
    let s20 = s19 + p20;
    lemma_described(s19, p20, name, types);
    let p21 = field_entry(actions, "labels"@, FieldKind::Any, "Todoist label names for create_task or update_task."@);
    let s21 = s20 + p21;
    lemma_described(s20, p21, name, types);
    let p22 = field_entry(actions, "lang"@, FieldKind::Text, "IETF language tag for Todoist filter queries."@);
    let s22 = s21 + p22;
    lemma_described(s21, p22, name, types);
    let p23 = field_entry(actions, "limit"@, FieldKind::Integer, "Requested page size for paginated list actions."@);
    let s23 = s22 + p23;
    lemma_described(s22, p23, name, types);
    let p24 = field_entry(actions, "object_event_types"@, FieldKind::Any, "Single value or array using Todoist `object_type:event_type` syntax, for example `item:completed`."@);
    let s24 = s23 + p24;
    lemma_described(s23, p24, name, types);
    let p25 = field_entry(actions, "object_id"@, FieldKind::TextOrNumber, "Activity-log object identifier, used with object_type."@);
    let s25 = s24 + p25;
    lemma_described(s24, p25, name, types);
    let p26 = field_entry(actions, "object_type"@, FieldKind::Text, "Activity-log object type such as `project`, `item`, or `note`."@);
    let s26 = s25 + p26;
    lemma_described(s25, p26, name, types);
    let p27 = field_entry(actions, "origin_task_id"@, FieldKind::TextOrNumber, "Optional source task id for follow-up task creation; Symphony records it as `TD-<task_id>` in the new task description."@);
    let s27 = s26 + p27;
    lemma_described(s26, p27, name, types);
    let p28 = field_entry(actions, "parent_id"@, FieldKind::TextOrNumber, "Parent task identifier for subtask listing, creation, or task reparenting."@);
    let s28 = s27 + p28;
    lemma_described(s27, p28, name, types);
    let p29 = field_entry(actions, "parent_item_id"@, FieldKind::TextOrNumber, "Activity-log parent task identifier."@);
    let s29 = s28 + p29;
    lemma_described(s28, p29, name, types);
    let p30 = field_entry(actions, "parent_project_id"@, FieldKind::TextOrNumber, "Activity-log parent project identifier."@);
    let s30 = s29 + p30;
    lemma_described(s29, p30, name, types);
    let p31 = field_entry(actions, "priority"@, FieldKind::Integer, "Todoist task priority from 1 (normal) to 4 (urgent)."@);
    let s31 = s30 + p31;
    lemma_described(s30, p31, name, types);
    let p32 = field_entry(actions, "project_id"@, FieldKind::TextOrNumber, "Optional project identifier; defaults to tracker.project_id where applicable. Do not send this for task comment actions."@);
    let s32 = s31 + p32;
    lemma_described(s31, p32, name, types);
    let p33 = field_entry(actions, "section_id"@, FieldKind::TextOrNumber, "Section identifier for get/update section-based actions."@);
    let s33 = s32 + p33;
    lemma_described(s32, p33, name, types);
    let p34 = field_entry(actions, "task_id"@, FieldKind::TextOrNumber, "Task identifier for get/update/move/close/reopen task actions."@);
    let s34 = s33 + p34;
    lemma_described(s33, p34, name, types);
    let p35 = field_entry(actions, "uids_to_notify"@, FieldKind::Any, "Optional list of Todoist user ids to notify for comment creation."@);
    let s35 = s34 + p35;
    lemma_described(s34, p35, name, types);
    let p36 = field_entry(actions, "workspace_id"@, FieldKind::Any, "Optional Todoist workspace id filter for list_activities."@);
    let s36 = s35 + p36;
    lemma_described(s35, p36, name, types);
    assert(properties_of(actions) == s36);
}

/// Every argument that some offered action accepts is described, with the types that it
/// may have.
pub proof fn law_accepted_arguments_are_described(actions: Seq<Seq<char>>)
    ensures
        accepted(actions, "annotate_notes"@) ==> is_described(
            properties_of(actions),
            "annotate_notes"@,
            a_truth(),
        ),
        accepted(actions, "annotate_parents"@) ==> is_described(
            properties_of(actions),
            "annotate_parents"@,
            a_truth(),
        ),
        accepted(actions, "assignee_id"@) ==> is_described(
            properties_of(actions),
            "assignee_id"@,
            a_text_or_number(),
        ),
        accepted(actions, "attachment"@) ==> is_described(
            properties_of(actions),
            "attachment"@,
            None,
        ),
        accepted(actions, "comment_id"@) ==> is_described(
            properties_of(actions),
            "comment_id"@,
            a_text_or_number(),
        ),
        accepted(actions, "content"@) ==> is_described(
            properties_of(actions),
            "content"@,
            a_text(),
        ),
        accepted(actions, "cursor"@) ==> is_described(
            properties_of(actions),
            "cursor"@,
            a_text(),
        ),
        accepted(actions, "date_from"@) ==> is_described(
            properties_of(actions),
            "date_from"@,
            a_text(),
        ),
        accepted(actions, "date_to"@) ==> is_described(
            properties_of(actions),
            "date_to"@,
            a_text(),
        ),
        accepted(actions, "deadline"@) ==> is_described(
            properties_of(actions),
            "deadline"@,
            None,
        ),
        accepted(actions, "description"@) ==> is_described(
            properties_of(actions),
            "description"@,
            a_text(),
        ),
        accepted(actions, "due"@) ==> is_described(
            properties_of(actions),
            "due"@,
            None,
        ),
        accepted(actions, "event_type"@) ==> is_described(
            properties_of(actions),
            "event_type"@,
            a_text(),
        ),
        accepted(actions, "filter"@) ==> is_described(
            properties_of(actions),
            "filter"@,
            a_text(),
        ),
        accepted(actions, "ids"@) ==> is_described(
            properties_of(actions),
            "ids"@,
            None,
        ),
        accepted(actions, "include_child_objects"@) ==> is_described(
            properties_of(actions),
            "include_child_objects"@,
            a_truth(),
        ),
        accepted(actions, "include_parent_object"@) ==> is_described(
            properties_of(actions),
            "include_parent_object"@,
            a_truth(),
        ),
        accepted(actions, "initiator_id"@) ==> is_described(
            properties_of(actions),
            "initiator_id"@,
            None,
        ),
        accepted(actions, "initiator_id_null"@) ==> is_described(
            properties_of(actions),
            "initiator_id_null"@,
            a_truth(),
        ),
        accepted(actions, "label"@) ==> is_described(
            properties_of(actions),
            "label"@,
            a_text(),
        ),
        accepted(actions, "labels"@) ==> is_described(
            properties_of(actions),
            "labels"@,
            None,
        ),
        accepted(actions, "lang"@) ==> is_described(
            properties_of(actions),
            "lang"@,
            a_text(),
        ),
        accepted(actions, "limit"@) ==> is_described(
            properties_of(actions),
            "limit"@,
            an_integer(),
        ),
        accepted(actions, "object_event_types"@) ==> is_described(
            properties_of(actions),
            "object_event_types"@,
            None,
        ),
        accepted(actions, "object_id"@) ==> is_described(
            properties_of(actions),
            "object_id"@,
            a_text_or_number(),
        ),
        accepted(actions, "object_type"@) ==> is_described(
            properties_of(actions),
            "object_type"@,
            a_text(),
        ),
        accepted(actions, "origin_task_id"@) ==> is_described(
            properties_of(actions),
            "origin_task_id"@,
            a_text_or_number(),
        ),
        accepted(actions, "parent_id"@) ==> is_described(
            properties_of(actions),
            "parent_id"@,
            a_text_or_number(),
        ),
        accepted(actions, "parent_item_id"@) ==> is_described(
            properties_of(actions),
            "parent_item_id"@,
            a_text_or_number(),
        ),
        accepted(actions, "parent_project_id"@) ==> is_described(
            properties_of(actions),
            "parent_project_id"@,
            a_text_or_number(),
        ),
        accepted(actions, "priority"@) ==> is_described(
            properties_of(actions),
            "priority"@,
            an_integer(),
        ),
        accepted(actions, "project_id"@) ==> is_described(
            properties_of(actions),
            "project_id"@,
            a_text_or_number(),
        ),
        accepted(actions, "section_id"@) ==> is_described(
            properties_of(actions),
            "section_id"@,
            a_text_or_number(),
        ),
        accepted(actions, "task_id"@) ==> is_described(
            properties_of(actions),
            "task_id"@,
            a_text_or_number(),
        ),
        accepted(actions, "uids_to_notify"@) ==> is_described(
            properties_of(actions),
            "uids_to_notify"@,
            None,
        ),
        accepted(actions, "workspace_id"@) ==> is_described(
            properties_of(actions),
            "workspace_id"@,
            None,
        ),
{
    lemma_field(actions, "annotate_notes"@, FieldKind::Truth, "Whether Todoist should annotate note activity results."@);
    if accepted(actions, "annotate_notes"@) {
        lemma_described_in_all(actions, "annotate_notes"@, a_truth());
    }
    lemma_field(actions, "annotate_parents"@, FieldKind::Truth, "Whether Todoist should annotate parent objects in activity results."@);
    if accepted(actions, "annotate_parents"@) {
        lemma_described_in_all(actions, "annotate_parents"@, a_truth());
    }
    lemma_field(actions, "assignee_id"@, FieldKind::TextOrNumber, "Todoist assignee id for create_task or update_task."@);
    if accepted(actions, "assignee_id"@) {
        lemma_described_in_all(actions, "assignee_id"@, a_text_or_number());
    }
    lemma_field(actions, "attachment"@, FieldKind::Any, "Optional Todoist comment attachment object."@);
    if accepted(actions, "attachment"@) {
        lemma_described_in_all(actions, "attachment"@, None);
    }
    lemma_field(actions, "comment_id"@, FieldKind::TextOrNumber, "Comment identifier for get_comment, update_comment, delete_comment, or as an optional workpad hint for upsert_workpad."@);
    if accepted(actions, "comment_id"@) {
        lemma_described_in_all(actions, "comment_id"@, a_text_or_number());
    }
    lemma_field(actions, "content"@, FieldKind::Text, "Primary content for create_task, create_project_comment, update_comment, or upsert_workpad."@);
    if accepted(actions, "content"@) {
        lemma_described_in_all(actions, "content"@, a_text());
    }
    lemma_field(actions, "cursor"@, FieldKind::Text, "Cursor for paginated list actions."@);
    if accepted(actions, "cursor"@) {
        lemma_described_in_all(actions, "cursor"@, a_text());
    }
    lemma_field(actions, "date_from"@, FieldKind::Text, "RFC3339 lower bound for list_activities."@);
    if accepted(actions, "date_from"@) {
        lemma_described_in_all(actions, "date_from"@, a_text());
    }
    lemma_field(actions, "date_to"@, FieldKind::Text, "RFC3339 exclusive upper bound for list_activities."@);
    if accepted(actions, "date_to"@) {
        lemma_described_in_all(actions, "date_to"@, a_text());
    }
    lemma_field(actions, "deadline"@, FieldKind::Any, "Todoist deadline object for create_task or update_task."@);
    if accepted(actions, "deadline"@) {
        lemma_described_in_all(actions, "deadline"@, None);
    }
    lemma_field(actions, "description"@, FieldKind::Text, "Todoist task description for create_task or update_task."@);
    if accepted(actions, "description"@) {
        lemma_described_in_all(actions, "description"@, a_text());
    }
    lemma_field(actions, "due"@, FieldKind::Any, "Todoist due object for create_task or update_task."@);
    if accepted(actions, "due"@) {
        lemma_described_in_all(actions, "due"@, None);
    }
    lemma_field(actions, "event_type"@, FieldKind::Text, "Todoist activity event type such as `added`, `updated`, `completed`, or `moved`."@);
    if accepted(actions, "event_type"@) {
        lemma_described_in_all(actions, "event_type"@, a_text());
    }
    lemma_field(actions, "filter"@, FieldKind::Text, "Todoist filter query for list_tasks. When provided, Symphony uses `/tasks/filter`."@);
    if accepted(actions, "filter"@) {
        lemma_described_in_all(actions, "filter"@, a_text());
    }
    lemma_field(actions, "ids"@, FieldKind::Any, "Comma-separated task ids or an array of task ids for list_tasks."@);
    if accepted(actions, "ids"@) {
        lemma_described_in_all(actions, "ids"@, None);
    }
    lemma_field(actions, "include_child_objects"@, FieldKind::Truth, "Whether Todoist should expand child objects in activity results."@);
    if accepted(actions, "include_child_objects"@) {
        lemma_described_in_all(actions, "include_child_objects"@, a_truth());
    }
    lemma_field(actions, "include_parent_object"@, FieldKind::Truth, "Whether Todoist should expand the parent object in activity results."@);
    if accepted(actions, "include_parent_object"@) {
        lemma_described_in_all(actions, "include_parent_object"@, a_truth());
    }
    lemma_field(actions, "initiator_id"@, FieldKind::Any, "Single initiator id or array of initiator ids for list_activities."@);
    if accepted(actions, "initiator_id"@) {
        lemma_described_in_all(actions, "initiator_id"@, None);
    }
    lemma_field(actions, "initiator_id_null"@, FieldKind::Truth, "Filter activities by whether the initiator is absent (`true`) or present (`false`)."@);
    if accepted(actions, "initiator_id_null"@) {
        lemma_described_in_all(actions, "initiator_id_null"@, a_truth());
    }
    lemma_field(actions, "label"@, FieldKind::Text, "Todoist label name for list_tasks filtering."@);
    if accepted(actions, "label"@) {
        lemma_described_in_all(actions, "label"@, a_text());
    }
    lemma_field(actions, "labels"@, FieldKind::Any, "Todoist label names for create_task or update_task."@);
    if accepted(actions, "labels"@) {
        lemma_described_in_all(actions, "labels"@, None);
    }
    lemma_field(actions, "lang"@, FieldKind::Text, "IETF language tag for Todoist filter queries."@);
    if accepted(actions, "lang"@) {
        lemma_described_in_all(actions, "lang"@, a_text());
    }
    lemma_field(actions, "limit"@, FieldKind::Integer, "Requested page size for paginated list actions."@);
    if accepted(actions, "limit"@) {
        lemma_described_in_all(actions, "limit"@, an_integer());
    }
    lemma_field(actions, "object_event_types"@, FieldKind::Any, "Single value or array using Todoist `object_type:event_type` syntax, for example `item:completed`."@);
    if accepted(actions, "object_event_types"@) {
        lemma_described_in_all(actions, "object_event_types"@, None);
    }
    lemma_field(actions, "object_id"@, FieldKind::TextOrNumber, "Activity-log object identifier, used with object_type."@);
    if accepted(actions, "object_id"@) {
        lemma_described_in_all(actions, "object_id"@, a_text_or_number());
    }
    lemma_field(actions, "object_type"@, FieldKind::Text, "Activity-log object type such as `project`, `item`, or `note`."@);
    if accepted(actions, "object_type"@) {
        lemma_described_in_all(actions, "object_type"@, a_text());
    }
    lemma_field(actions, "origin_task_id"@, FieldKind::TextOrNumber, "Optional source task id for follow-up task creation; Symphony records it as `TD-<task_id>` in the new task description."@);
    if accepted(actions, "origin_task_id"@) {
        lemma_described_in_all(actions, "origin_task_id"@, a_text_or_number());
    }
    lemma_field(actions, "parent_id"@, FieldKind::TextOrNumber, "Parent task identifier for subtask listing, creation, or task reparenting."@);
    if accepted(actions, "parent_id"@) {
        lemma_described_in_all(actions, "parent_id"@, a_text_or_number());
    }
    lemma_field(actions, "parent_item_id"@, FieldKind::TextOrNumber, "Activity-log parent task identifier."@);
    if accepted(actions, "parent_item_id"@) {
        lemma_described_in_all(actions, "parent_item_id"@, a_text_or_number());
    }
    lemma_field(actions, "parent_project_id"@, FieldKind::TextOrNumber, "Activity-log parent project identifier."@);
    if accepted(actions, "parent_project_id"@) {
        lemma_described_in_all(actions, "parent_project_id"@, a_text_or_number());
    }
    lemma_field(actions, "priority"@, FieldKind::Integer, "Todoist task priority from 1 (normal) to 4 (urgent)."@);
    if accepted(actions, "priority"@) {
        lemma_described_in_all(actions, "priority"@, an_integer());
    }
    lemma_field(actions, "project_id"@, FieldKind::TextOrNumber, "Optional project identifier; defaults to tracker.project_id where applicable. Do not send this for task comment actions."@);
    if accepted(actions, "project_id"@) {
        lemma_described_in_all(actions, "project_id"@, a_text_or_number());
    }
    lemma_field(actions, "section_id"@, FieldKind::TextOrNumber, "Section identifier for get/update section-based actions."@);
    if accepted(actions, "section_id"@) {
        lemma_described_in_all(actions, "section_id"@, a_text_or_number());
    }
    lemma_field(actions, "task_id"@, FieldKind::TextOrNumber, "Task identifier for get/update/move/close/reopen task actions."@);
    if accepted(actions, "task_id"@) {
        lemma_described_in_all(actions, "task_id"@, a_text_or_number());
    }
    lemma_field(actions, "uids_to_notify"@, FieldKind::Any, "Optional list of Todoist user ids to notify for comment creation."@);
    if accepted(actions, "uids_to_notify"@) {
        lemma_described_in_all(actions, "uids_to_notify"@, None);
    }
    lemma_field(actions, "workspace_id"@, FieldKind::Any, "Optional Todoist workspace id filter for list_activities."@);
    if accepted(actions, "workspace_id"@) {
        lemma_described_in_all(actions, "workspace_id"@, None);
    }
}

/// Whether a name is one of the arguments that are described.
pub open spec fn is_argument(name: Seq<char>) -> bool {
    ||| name == "annotate_notes"@
    ||| name == "annotate_parents"@
    ||| name == "assignee_id"@
    ||| name == "attachment"@
    ||| name == "comment_id"@
    ||| name == "content"@
    ||| name == "cursor"@
    ||| name == "date_from"@
    ||| name == "date_to"@
    ||| name == "deadline"@
    ||| name == "description"@
    ||| name == "due"@
    ||| name == "event_type"@
    ||| name == "filter"@
    ||| name == "ids"@
    ||| name == "include_child_objects"@
    ||| name == "include_parent_object"@
    ||| name == "initiator_id"@
    ||| name == "initiator_id_null"@
    ||| name == "label"@
    ||| name == "labels"@
    ||| name == "lang"@
    ||| name == "limit"@
    ||| name == "object_event_types"@
    ||| name == "object_id"@
    ||| name == "object_type"@
    ||| name == "origin_task_id"@
    ||| name == "parent_id"@
    ||| name == "parent_item_id"@
    ||| name == "parent_project_id"@
    ||| name == "priority"@
    ||| name == "project_id"@
    ||| name == "section_id"@
    ||| name == "task_id"@
    ||| name == "uids_to_notify"@
    ||| name == "workspace_id"@
}

/// No action accepts an argument that an agent could not know of.
pub proof fn law_actions_accept_known_arguments(action: Seq<char>, name: Seq<char>)
    requires
        allowed_by(action).contains(name),
    ensures
        name == "action"@ || is_argument(name),
{
    let all = allowed_by(action);
    let k = choose|k: int| 0 <= k < all.len() && all[k] == name;
    assert(all[k] == name);
}

/// The description of a tool for tasks asks for an action by name, lists those that are
/// offered, and allows no arguments but those that are described.
pub proof fn law_tools_ask_for_an_action(actions: Seq<Seq<char>>)
    ensures
        match schema_of(actions) {
            JsonView::Object(told) => {
                &&& told.contains(("additionalProperties"@, JsonView::Bool(false)))
                &&& told.contains(("required"@, JsonView::Array(seq![JsonView::Text("action"@)])))
                &&& told.contains(("type"@, JsonView::Text("object"@)))
                &&& told.contains(("properties"@, JsonView::Object(properties_of(actions))))
            },
            _ => false,
        },
        properties_of(actions).len() > 0,
        properties_of(actions)[0].0 == "action"@,
        properties_of(actions)[0].1 matches JsonView::Object(told) && told.contains(
            ("type"@, JsonView::Text("string"@)),
        ),
{
    let told = schema_of(actions)->Object_0;
    assert(told[0] == ("additionalProperties"@, JsonView::Bool(false)));
    assert(told[1] == ("properties"@, JsonView::Object(properties_of(actions))));
    assert(told[2] == ("required"@, JsonView::Array(seq![JsonView::Text("action"@)])));
    assert(told[3] == ("type"@, JsonView::Text("object"@)));
    let named = action_schema(actions)->Object_0;
    assert(named[2] == ("type"@, JsonView::Text("string"@)));
}

/// The tool for tasks is offered exactly where there is a tracker of a kind that it
/// serves, and the tool for the code host exactly where there is a token for it.
pub proof fn law_tools_are_offered_where_they_work(
    kind: Option<Seq<char>>,
    surface: TodoistToolSurface,
    capabilities: TrackerCapabilities,
)
    ensures
        ({
            let tasks = kind == Some("todoist"@) || kind == Some("memory"@);
            let fewer = offered_tools(kind, surface, capabilities, false);
            let more = offered_tools(kind, surface, capabilities, true);
            &&& fewer.len() == if tasks {
                1nat
            } else {
                0nat
            }
            &&& more == fewer.push(github_tool())
            &&& tasks ==> fewer[0] == JsonView::Object(
                seq![
                    (
                        "description"@,
                        JsonView::Text(description_of(supported_actions(surface, capabilities))),
                    ),
                    ("inputSchema"@, schema_of(supported_actions(surface, capabilities))),
                    ("name"@, JsonView::Text("todoist"@)),
                ],
            )
        }),
{
}

/// The tool for the code host goes by its name.
pub proof fn law_the_host_tool_is_named()
    ensures
        is_named(github_tool(), "github_api"@),
{
}

/// Whether a tool goes by this name.
pub open spec fn is_named(tool: JsonView, name: Seq<char>) -> bool {
    tool matches JsonView::Object(told) && told.len() == 3 && told[2] == (
        "name"@,
        JsonView::Text(name),
    )
}

/// What a tool gives back is one text, and whether it succeeded.
pub proof fn law_results_are_texts(success: bool, body: JsonView)
    ensures
        payload(success, body) == JsonView::Object(
            seq![
                (
                    "contentItems"@,
                    JsonView::Array(
                        seq![
                            JsonView::Object(
                                seq![
                                    ("text"@, JsonView::Text(pretty_of(body))),
                                    ("type"@, JsonView::Text("inputText"@)),
                                ],
                            ),
                        ],
                    ),
                ),
                ("success"@, JsonView::Bool(success)),
            ],
        ),
{
}

/// A tool that is none of the two is refused, and both are named.
pub proof fn law_unknown_tools_are_refused(tool: Seq<char>)
    ensures
        unsupported_tool(tool) == JsonView::Object(
            seq![
                (
                    "error"@,
                    JsonView::Object(
                        seq![
                            (
                                "message"@,
                                JsonView::Text("Unsupported dynamic tool: "@ + tool + "."@),
                            ),
                            (
                                "supportedTools"@,
                                JsonView::Array(
                                    seq![
                                        JsonView::Text("todoist"@),
                                        JsonView::Text("github_api"@),
                                    ],
                                ),
                            ),
                        ],
                    ),
                ),
            ],
        ),
{
}

/// The sizes of tools are those of their descriptions, one to each that has a name.
pub proof fn law_tools_are_measured(specs: Seq<JsonView>)
    requires
        forall|i: int|
            0 <= i < specs.len() ==> ((#[trigger] specs[i]).get("name"@) matches Some(
                JsonView::Text(_),
            )),
    ensures
        metrics_of(specs).len() == specs.len(),
        forall|i: int|
            0 <= i < specs.len() ==> (#[trigger] specs[i]).get("name"@) == Some(
                JsonView::Text(metrics_of(specs)[i].0),
            ) && metrics_of(specs)[i].1 == byte_len(compact_of(specs[i])),
    decreases specs.len(),
{
    if specs.len() > 0 {
        let front = specs.drop_last();
        assert(forall|i: int| 0 <= i < front.len() ==> front[i] == #[trigger] specs[i]);
        law_tools_are_measured(front);
        assert(specs[specs.len() - 1] == specs.last());
        assert forall|i: int| 0 <= i < specs.len() implies (#[trigger] specs[i]).get("name"@)
            == Some(JsonView::Text(metrics_of(specs)[i].0)) && metrics_of(specs)[i].1 == byte_len(
            compact_of(specs[i]),
        ) by {
            if i < front.len() {
                assert(front[i] == specs[i]);
            }
        }
    }
}

/// Whether an error says this, and nothing else.
pub open spec fn is_error(json: JsonView, message: Seq<char>) -> bool {
    json == JsonView::Object(
        seq![("error"@, JsonView::Object(seq![("message"@, JsonView::Text(message))]))],
    )
}

/// Whether an error says this, for this reason.
pub open spec fn is_error_for(json: JsonView, message: Seq<char>, reason: Seq<char>) -> bool {
    json == JsonView::Object(
        seq![
            (
                "error"@,
                JsonView::Object(
                    seq![
                        ("message"@, JsonView::Text(message)),
                        ("reason"@, JsonView::Text(reason)),
                    ],
                ),
            ),
        ],
    )
}

/// What an agent is told of a failure of the tracker names what failed.
pub proof fn law_tracker_failures_are_worded(a: Seq<char>, b: Seq<char>)
    ensures
        is_error(
            tracker_error_body(TrackerErrorView::MissingTrackerApiKey),
            "Symphony is missing Todoist auth. Set tracker.api_key in WORKFLOW.md or export TODOIST_API_TOKEN."@,
        ),
        is_error(
            tracker_error_body(TrackerErrorView::MissingTrackerProjectId),
            "Symphony is missing tracker.project_id."@,
        ),
        is_error(
            tracker_error_body(TrackerErrorView::TodoistProjectNotFound(a)),
            "Todoist project `"@ + a + "` was not found."@,
        ),
        is_error(
            tracker_error_body(TrackerErrorView::TodoistMissingRequiredSection(a)),
            "Todoist section `"@ + a + "` is required by WORKFLOW.md but was not found."@,
        ),
        is_error(
            tracker_error_body(
                TrackerErrorView::TodoistAssigneeNotResolvable { assignee: a, project_id: b },
            ),
            "Todoist assignee `"@ + a + "` is not valid for project `"@ + b + "`."@,
        ),
        is_error(
            tracker_error_body(TrackerErrorView::MissingTodoistCurrentUser),
            "Todoist current user could not be resolved."@,
        ),
        is_error(
            tracker_error_body(TrackerErrorView::TodoistCommentsUnavailable),
            "Todoist comments are unavailable for this account or plan."@,
        ),
        is_error(
            tracker_error_body(TrackerErrorView::TodoistRemindersUnavailable),
            "Todoist reminders are unavailable for this account or plan."@,
        ),
        is_error(
            tracker_error_body(TrackerErrorView::TodoistActivityLogUnavailable),
            "Todoist activity log is unavailable for this account or plan."@,
        ),
        is_error_for(
            tracker_error_body(TrackerErrorView::TodoistApiRequest(a)),
            "Todoist API request failed before receiving a successful response."@,
            a,
        ),
        is_error(
            tracker_error_body(TrackerErrorView::TodoistUnknownPayload),
            "Todoist API returned a payload Symphony could not decode."@,
        ),
        is_error(tracker_error_body(TrackerErrorView::TrackerOperationUnsupported(a)), a),
        is_error(
            tracker_error_body(TrackerErrorView::UnsupportedTrackerKind(a)),
            "Unsupported tracker kind `"@ + a + "`."@,
        ),
        is_error(
            tracker_error_body(TrackerErrorView::MissingTrackerFixturePath),
            "The memory tracker requires tracker.fixture_path."@,
        ),
        is_error_for(
            tracker_error_body(TrackerErrorView::MemoryFixtureIo { path: a, error: b }),
            "Failed to read memory fixture `"@ + a + "`."@,
            b,
        ),
        is_error_for(
            tracker_error_body(TrackerErrorView::MemoryFixtureParse { path: a, error: b }),
            "Failed to parse memory fixture `"@ + a + "`."@,
            b,
        ),
{
}

/// A failure that comes with numbers is told with them.
pub proof fn law_limits_of_the_tracker_are_told(
    limit: usize,
    actual: usize,
    seconds: u64,
    status: u16,
    body: JsonView,
)
    ensures
        tracker_error_body(TrackerErrorView::TodoistCommentTooLarge { limit, actual })
            == JsonView::Object(
            seq![
                (
                    "error"@,
                    JsonView::Object(
                        seq![
                            ("actual"@, JsonView::Number(NumberView::Unsigned(actual as u64))),
                            ("limit"@, JsonView::Number(NumberView::Unsigned(limit as u64))),
                            (
                                "message"@,
                                JsonView::Text(
                                    "Todoist comment content exceeds the "@ + decimal(limit as nat)
                                        + "-character limit."@,
                                ),
                            ),
                        ],
                    ),
                ),
            ],
        ),
        tracker_error_body(TrackerErrorView::TodoistRateLimited { retry_after: Some(seconds) })
            == JsonView::Object(
            seq![
                (
                    "error"@,
                    JsonView::Object(
                        seq![
                            ("message"@, JsonView::Text("Todoist request was rate limited."@)),
                            ("retry_after"@, JsonView::Number(NumberView::Unsigned(seconds))),
                        ],
                    ),
                ),
            ],
        ),
        tracker_error_body(TrackerErrorView::TodoistApiStatus { status, body }) == JsonView::Object(
            seq![
                (
                    "error"@,
                    JsonView::Object(
                        seq![
                            ("body"@, body),
                            (
                                "message"@,
                                JsonView::Text(
                                    "Todoist API request failed with HTTP "@ + decimal(
                                        status as nat,
                                    ) + "."@,
                                ),
                            ),
                            ("status"@, JsonView::Number(NumberView::Unsigned(status as u64))),
                        ],
                    ),
                ),
            ],
        ),
{
}

} // verus!
