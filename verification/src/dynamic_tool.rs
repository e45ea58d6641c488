//! The tools that an agent is offered: what they are called, what they take, and how
//! their results are handed back.
use vstd::prelude::*;
use vstd::string::*;

use crate::actions::{contract_of, todoist_action_contract, ActionContract};
use crate::json::{
    compact_of, deepest, entry_views, group_json_views, is_plain, opt_json_text, opt_number,
    pretty_of, reads_as, to_pretty_text, to_text, views, Json, JsonView, NumberView,
};
use crate::table::{keys, keys_of, lemma_key_slot, put, put_entry};
use crate::text::{
    byte_len, concat3, is_among, decimal, decimal_text, join, joined, len_bytes, opt_is, opt_text,
    owned, same, texts, usize_text,
};
use crate::tracker::{TrackerCapabilities, TrackerError, TrackerErrorView};

verus! {

broadcast use {vstd::seq::group_seq_axioms, vstd::string::group_string_axioms};

pub const GITHUB_API_TOOL: &'static str = "github_api";

pub const TODOIST_TOOL: &'static str = "todoist";

/// How many Todoist actions an agent is offered.
#[derive(Clone, Copy, Debug, PartialEq, Eq, Structural)]
pub enum TodoistToolSurface {
    Curated,
    Extended,
}

/// What the configuration says of the tools.
#[derive(Clone, Debug)]
pub struct ToolSettings {
    pub tracker_kind: Option<String>,
    pub surface: TodoistToolSurface,
}

/// How many bytes the description of a tool takes.
#[derive(Clone, Debug, PartialEq, Eq)]
pub struct ToolPayloadMetric {
    pub name: String,
    pub bytes: usize,
}

/// The actions that are always offered.
pub open spec fn curated_actions() -> Seq<Seq<char>> {
    seq![
        "list_tasks"@,
        "get_task"@,
        "list_sections"@,
        "list_comments"@,
        "get_workpad"@,
        "upsert_workpad"@,
        "delete_workpad"@,
        "update_task"@,
        "move_task"@,
        "close_task"@,
        "reopen_task"@,
        "create_task"@,
    ]
}

/// The actions that the extended surface adds.
pub open spec fn extended_actions() -> Seq<Seq<char>> {
    seq![
        "list_projects"@,
        "get_project"@,
        "get_current_user"@,
        "list_collaborators"@,
        "get_section"@,
        "list_labels"@,
        "get_comment"@,
        "create_project_comment"@,
        "update_comment"@,
        "delete_comment"@,
    ]
}

/// The actions that are offered.
pub open spec fn supported_actions(
    surface: TodoistToolSurface,
    capabilities: TrackerCapabilities,
) -> Seq<Seq<char>> {
    let base = if surface == TodoistToolSurface::Extended {
        curated_actions() + extended_actions()
    } else {
        curated_actions()
    };
    if capabilities.activity_log {
        base.push("list_activities"@)
    } else {
        base
    }
}

/// The actions that are offered.
pub fn todoist_supported_actions(
    surface: TodoistToolSurface,
    capabilities: TrackerCapabilities,
) -> (r: Vec<String>)
    ensures
        texts(r@) == supported_actions(surface, capabilities),
{
    let mut actions: Vec<String> = vec![
        owned("list_tasks"),
        owned("get_task"),
        owned("list_sections"),
        owned("list_comments"),
        owned("get_workpad"),
        owned("upsert_workpad"),
        owned("delete_workpad"),
        owned("update_task"),
        owned("move_task"),
        owned("close_task"),
        owned("reopen_task"),
        owned("create_task"),
    ];
    proof {
        assert(texts(actions@) =~= curated_actions());
    }
    if surface == TodoistToolSurface::Extended {
        let mut more: Vec<String> = vec![
            owned("list_projects"),
            owned("get_project"),
            owned("get_current_user"),
            owned("list_collaborators"),
            owned("get_section"),
            owned("list_labels"),
            owned("get_comment"),
            owned("create_project_comment"),
            owned("update_comment"),
            owned("delete_comment"),
        ];
        proof {
            assert(texts(more@) =~= extended_actions());
        }
        let ghost a = texts(actions@);
        let ghost b = texts(more@);
        actions.append(&mut more);
        proof {
            assert(texts(actions@) =~= a + b);
        }
    }
    if capabilities.activity_log {
        let ghost a = texts(actions@);
        actions.push(owned("list_activities"));
        proof {
            assert(texts(actions@) =~= a.push("list_activities"@));
        }
    }
    actions
}

/// The description of the Todoist tool.
pub open spec fn description_of(actions: Seq<Seq<char>>) -> Seq<char> {
    "Run one structured Todoist API v1 action using Symphony's configured tracker auth.\nSupported actions for this session: "@
        + joined(actions, ", "@)
        + ".\nGuardrails:\n- Use `get_workpad`, `upsert_workpad`, and `delete_workpad` for the single task workpad.\n- Do not use generic task-comment creation for Symphony notes. Project comments, when exposed, are for true project-level notes only.\n- `close_task` is guarded and normally only succeeds from `Merging` after the linked GitHub PR is confirmed merged.\n- Keep calls narrow: one Todoist action per tool call."@
}

/// The description of the Todoist tool.
pub fn todoist_tool_description(
    surface: TodoistToolSurface,
    capabilities: TrackerCapabilities,
) -> (r: String)
    ensures
        r@ == description_of(supported_actions(surface, capabilities)),
{
    let actions: Vec<String> = todoist_supported_actions(surface, capabilities);
    let list: String = join(&actions, ", ");
    concat3(
        "Run one structured Todoist API v1 action using Symphony's configured tracker auth.\nSupported actions for this session: ",
        list.as_str(),
        ".\nGuardrails:\n- Use `get_workpad`, `upsert_workpad`, and `delete_workpad` for the single task workpad.\n- Do not use generic task-comment creation for Symphony notes. Project comments, when exposed, are for true project-level notes only.\n- `close_task` is guarded and normally only succeeds from `Merging` after the linked GitHub PR is confirmed merged.\n- Keep calls narrow: one Todoist action per tool call.",
    )
}

/// The texts in order, each once.
pub open spec fn ordered_set(all: Seq<Seq<char>>) -> Seq<(Seq<char>, ())>
    decreases all.len(),
{
    if all.len() == 0 {
        Seq::empty()
    } else {
        put(ordered_set(all.drop_last()), all.last(), ())
    }
}

/// A list of texts as an array.
pub open spec fn text_array(all: Seq<Seq<char>>) -> JsonView {
    JsonView::Array(Seq::new(all.len(), |i: int| JsonView::Text(all[i])))
}

/// The texts in order, each once, as an array.
fn ordered_array(all: &Vec<String>) -> (r: Json)
    ensures
        r@ == text_array(keys(ordered_set(texts(all@)))),
{
    broadcast use group_json_views;

    let ghost given = texts(all@);
    let mut entries: Vec<(String, ())> = Vec::new();
    let mut i: usize = 0;
    proof {
        assert(unit_entries(entries@) =~= Seq::empty());
    }
    while i < all.len()
        invariant
            i <= all.len(),
            given == texts(all@),
            unit_entries(entries@) == ordered_set(given.take(i as int)),
        decreases all.len() - i,
    {
        let ghost was = entries@;
        proof {
            assert(given.take(i + 1).drop_last() =~= given.take(i as int));
            assert(given.take(i + 1).last() == all@[i as int]@);
            assert(keys(unit_entries(was)) =~= keys_of(was));
            lemma_key_slot(keys_of(was), all@[i as int]@);
        }
        put_entry(&mut entries, all[i].clone(), ());
        proof {
            assert(unit_entries(entries@) =~= put(unit_entries(was), all@[i as int]@, ()));
        }
        i = i + 1;
    }
    proof {
        assert(given.take(i as int) =~= given);
    }
    let mut out: Vec<Json> = Vec::new();
    let mut j: usize = 0;
    while j < entries.len()
        invariant
            j <= entries.len(),
            out@.len() == j,
            forall|k: int| 0 <= k < j ==> (#[trigger] out@[k])@ == JsonView::Text(entries@[k].0@),
        decreases entries.len() - j,
    {
        out.push(Json::Text(entries[j].0.clone()));
        j = j + 1;
    }
    proof {
        let names = keys(ordered_set(given));
        assert(views(out@) =~= text_array(names)->Array_0);
    }
    Json::Array(out)
}

/// What entries without values hold.
pub open spec fn unit_entries(entries: Seq<(String, ())>) -> Seq<(Seq<char>, ())> {
    Seq::new(entries.len(), |i: int| (entries[i].0@, ()))
}

/// Whether one of the actions accepts an argument.
pub open spec fn accepted(actions: Seq<Seq<char>>, field: Seq<char>) -> bool {
    exists|i: int|
        0 <= i < actions.len() && allowed_by(#[trigger] actions[i]).contains(field)
}

/// The arguments that an action accepts.
pub open spec fn allowed_by(action: Seq<char>) -> Seq<Seq<char>> {
    match contract_of(action) {
        Some((allowed, _)) => allowed,
        None => Seq::empty(),
    }
}

/// Whether one of the actions accepts an argument.
fn any_accepts(contracts: &Vec<ActionContract>, field: &str) -> (r: bool)
    ensures
        r == exists|i: int|
            0 <= i < contracts@.len() && texts((#[trigger] contracts@[i]).allowed@).contains(field@),
{
    let mut i: usize = 0;
    while i < contracts.len()
        invariant
            i <= contracts.len(),
            forall|k: int|
                0 <= k < i ==> !texts((#[trigger] contracts@[k]).allowed@).contains(field@),
        decreases contracts.len() - i,
    {
        if is_among(&contracts[i].allowed, field) {
            return true;
        }
        i = i + 1;
    }
    false
}

/// The kinds of value that an argument takes.
#[derive(Clone, Copy, Debug, PartialEq, Eq, Structural)]
pub enum FieldKind {
    Text,
    TextOrNumber,
    Integer,
    Truth,
    Any,
}

/// The names of the types that an argument may have.
pub open spec fn type_names(kind: FieldKind) -> Seq<JsonView> {
    match kind {
        FieldKind::Text => seq![JsonView::Text("string"@), JsonView::Text("null"@)],
        FieldKind::TextOrNumber => seq![
            JsonView::Text("string"@),
            JsonView::Text("number"@),
            JsonView::Text("null"@),
        ],
        FieldKind::Integer => seq![JsonView::Text("integer"@), JsonView::Text("null"@)],
        FieldKind::Truth => seq![JsonView::Text("boolean"@), JsonView::Text("null"@)],
        FieldKind::Any => Seq::empty(),
    }
}

/// The schema of an argument.
pub open spec fn field_schema(kind: FieldKind, description: Seq<char>) -> JsonView {
    if kind == FieldKind::Any {
        JsonView::Object(seq![("description"@, JsonView::Text(description))])
    } else {
        JsonView::Object(
            seq![
                ("description"@, JsonView::Text(description)),
                ("type"@, JsonView::Array(type_names(kind))),
            ],
        )
    }
}

fn type_list(kind: FieldKind) -> (r: Vec<Json>)
    ensures
        views(r@) == type_names(kind),
{
    let list: Vec<Json> = match kind {
        FieldKind::Text => vec![Json::text("string"), Json::text("null")],
        FieldKind::TextOrNumber => vec![
            Json::text("string"),
            Json::text("number"),
            Json::text("null"),
        ],
        FieldKind::Integer => vec![Json::text("integer"), Json::text("null")],
        FieldKind::Truth => vec![Json::text("boolean"), Json::text("null")],
        FieldKind::Any => Vec::new(),
    };
    proof {
        assert(views(list@) =~= type_names(kind));
    }
    list
}

/// The schema of an argument, where one of the actions accepts it.
pub open spec fn field_entry(
    actions: Seq<Seq<char>>,
    name: Seq<char>,
    kind: FieldKind,
    description: Seq<char>,
) -> Seq<(Seq<char>, JsonView)> {
    if accepted(actions, name) {
        seq![(name, field_schema(kind, description))]
    } else {
        Seq::empty()
    }
}

/// Adds the schema of an argument, where one of the actions accepts it.
fn add_field(
    properties: &mut Vec<(String, Json)>,
    contracts: &Vec<ActionContract>,
    actions: Ghost<Seq<Seq<char>>>,
    name: &str,
    kind: FieldKind,
    description: &str,
)
    requires
        contracts_of(contracts@, actions@),
    ensures
        entry_views(final(properties)@) == entry_views(old(properties)@) + field_entry(
            actions@,
            name@,
            kind,
            description@,
        ),
{
    broadcast use group_json_views;

    let ghost had = entry_views(properties@);
    let wanted: bool = any_accepts(contracts, name);
    proof {
        if wanted {
            let i = choose|i: int|
                0 <= i < contracts@.len() && texts((#[trigger] contracts@[i]).allowed@).contains(
                    name@,
                );
            assert(allowed_by(actions@[i]).contains(name@));
        } else if accepted(actions@, name@) {
            let i = choose|i: int|
                0 <= i < actions@.len() && allowed_by(#[trigger] actions@[i]).contains(name@);
            assert(contract_of(actions@[i]) is Some);
            assert(texts(contracts@[i].allowed@).contains(name@));
        }
    }
    if wanted {
        let schema: Json = match kind {
            FieldKind::Any => Json::object1("description", Json::text(description)),
            _ => Json::object2(
                "description",
                Json::text(description),
                "type",
                Json::Array(type_list(kind)),
            ),
        };
        proof {
            assert(schema@->Object_0 =~= field_schema(kind, description@)->Object_0);
        }
        properties.push((owned(name), schema));
        proof {
            assert(entry_views(properties@) =~= had + seq![
                (name@, field_schema(kind, description@)),
            ]);
        }
    } else {
        proof {
            assert(had + Seq::<(Seq<char>, JsonView)>::empty() =~= had);
        }
    }
}

/// Whether the contracts are those of the actions, one by one.
pub open spec fn contracts_of(contracts: Seq<ActionContract>, actions: Seq<Seq<char>>) -> bool {
    &&& contracts.len() == actions.len()
    &&& forall|i: int|
        0 <= i < actions.len() ==> contract_of(#[trigger] actions[i]) == Some(
            (texts(contracts[i].allowed@), texts(contracts[i].required@)),
        )
}

/// The schema of the argument that names the action.
pub open spec fn action_schema(actions: Seq<Seq<char>>) -> JsonView {
    JsonView::Object(
        seq![
            ("description"@, JsonView::Text("Todoist action to execute for this session."@)),
            ("enum"@, text_array(keys(ordered_set(actions)))),
            ("type"@, JsonView::Text("string"@)),
        ],
    )
}

/// The schemas of the arguments that the actions accept.
pub open spec fn properties_of(actions: Seq<Seq<char>>) -> Seq<(Seq<char>, JsonView)> {
    seq![("action"@, action_schema(actions))]
        + field_entry(actions, "annotate_notes"@, FieldKind::Truth, "Whether Todoist should annotate note activity results."@)
        + field_entry(actions, "annotate_parents"@, FieldKind::Truth, "Whether Todoist should annotate parent objects in activity results."@)
        + field_entry(actions, "assignee_id"@, FieldKind::TextOrNumber, "Todoist assignee id for create_task or update_task."@)
        + field_entry(actions, "attachment"@, FieldKind::Any, "Optional Todoist comment attachment object."@)
        + field_entry(actions, "comment_id"@, FieldKind::TextOrNumber, "Comment identifier for get_comment, update_comment, delete_comment, or as an optional workpad hint for upsert_workpad."@)
        + field_entry(actions, "content"@, FieldKind::Text, "Primary content for create_task, create_project_comment, update_comment, or upsert_workpad."@)
        + field_entry(actions, "cursor"@, FieldKind::Text, "Cursor for paginated list actions."@)
        + field_entry(actions, "date_from"@, FieldKind::Text, "RFC3339 lower bound for list_activities."@)
        + field_entry(actions, "date_to"@, FieldKind::Text, "RFC3339 exclusive upper bound for list_activities."@)
        + field_entry(actions, "deadline"@, FieldKind::Any, "Todoist deadline object for create_task or update_task."@)
        + field_entry(actions, "description"@, FieldKind::Text, "Todoist task description for create_task or update_task."@)
        + field_entry(actions, "due"@, FieldKind::Any, "Todoist due object for create_task or update_task."@)
        + field_entry(actions, "event_type"@, FieldKind::Text, "Todoist activity event type such as `added`, `updated`, `completed`, or `moved`."@)
        + field_entry(actions, "filter"@, FieldKind::Text, "Todoist filter query for list_tasks. When provided, Symphony uses `/tasks/filter`."@)
        + field_entry(actions, "ids"@, FieldKind::Any, "Comma-separated task ids or an array of task ids for list_tasks."@)
        + field_entry(actions, "include_child_objects"@, FieldKind::Truth, "Whether Todoist should expand child objects in activity results."@)
        + field_entry(actions, "include_parent_object"@, FieldKind::Truth, "Whether Todoist should expand the parent object in activity results."@)
        + field_entry(actions, "initiator_id"@, FieldKind::Any, "Single initiator id or array of initiator ids for list_activities."@)
        + field_entry(actions, "initiator_id_null"@, FieldKind::Truth, "Filter activities by whether the initiator is absent (`true`) or present (`false`)."@)
        + field_entry(actions, "label"@, FieldKind::Text, "Todoist label name for list_tasks filtering."@)
        + field_entry(actions, "labels"@, FieldKind::Any, "Todoist label names for create_task or update_task."@)
        + field_entry(actions, "lang"@, FieldKind::Text, "IETF language tag for Todoist filter queries."@)
        + field_entry(actions, "limit"@, FieldKind::Integer, "Requested page size for paginated list actions."@)
        + field_entry(actions, "object_event_types"@, FieldKind::Any, "Single value or array using Todoist `object_type:event_type` syntax, for example `item:completed`."@)
        + field_entry(actions, "object_id"@, FieldKind::TextOrNumber, "Activity-log object identifier, used with object_type."@)
        + field_entry(actions, "object_type"@, FieldKind::Text, "Activity-log object type such as `project`, `item`, or `note`."@)
        + field_entry(actions, "origin_task_id"@, FieldKind::TextOrNumber, "Optional source task id for follow-up task creation; Symphony records it as `TD-<task_id>` in the new task description."@)
        + field_entry(actions, "parent_id"@, FieldKind::TextOrNumber, "Parent task identifier for subtask listing, creation, or task reparenting."@)
        + field_entry(actions, "parent_item_id"@, FieldKind::TextOrNumber, "Activity-log parent task identifier."@)
        + field_entry(actions, "parent_project_id"@, FieldKind::TextOrNumber, "Activity-log parent project identifier."@)
        + field_entry(actions, "priority"@, FieldKind::Integer, "Todoist task priority from 1 (normal) to 4 (urgent)."@)
        + field_entry(actions, "project_id"@, FieldKind::TextOrNumber, "Optional project identifier; defaults to tracker.project_id where applicable. Do not send this for task comment actions."@)
        + field_entry(actions, "section_id"@, FieldKind::TextOrNumber, "Section identifier for get/update section-based actions."@)
        + field_entry(actions, "task_id"@, FieldKind::TextOrNumber, "Task identifier for get/update/move/close/reopen task actions."@)
        + field_entry(actions, "uids_to_notify"@, FieldKind::Any, "Optional list of Todoist user ids to notify for comment creation."@)
        + field_entry(actions, "workspace_id"@, FieldKind::Any, "Optional Todoist workspace id filter for list_activities."@)
}

/// The schema of what the Todoist tool takes.
pub open spec fn schema_of(actions: Seq<Seq<char>>) -> JsonView {
    JsonView::Object(
        seq![
            ("additionalProperties"@, JsonView::Bool(false)),
            ("properties"@, JsonView::Object(properties_of(actions))),
            ("required"@, JsonView::Array(seq![JsonView::Text("action"@)])),
            ("type"@, JsonView::Text("object"@)),
        ],
    )
}

/// Every action that is offered has a contract.
pub proof fn law_supported_actions_have_contracts(
    surface: TodoistToolSurface,
    capabilities: TrackerCapabilities,
    i: int,
)
    requires
        0 <= i < supported_actions(surface, capabilities).len(),
    ensures
        contract_of(supported_actions(surface, capabilities)[i]) is Some,
{
}

/// The contracts of the actions that are offered.
fn supported_contracts(
    surface: TodoistToolSurface,
    capabilities: TrackerCapabilities,
) -> (r: Vec<ActionContract>)
    ensures
        contracts_of(r@, supported_actions(surface, capabilities)),
{
    let actions: Vec<String> = todoist_supported_actions(surface, capabilities);
    let ghost all = supported_actions(surface, capabilities);
    let mut out: Vec<ActionContract> = Vec::new();
    let mut i: usize = 0;
    while i < actions.len()
        invariant
            i <= actions.len(),
            out@.len() == i,
            all == texts(actions@),
            all == supported_actions(surface, capabilities),
            forall|k: int|
                0 <= k < i ==> contract_of(#[trigger] all[k]) == Some(
                    (texts(out@[k].allowed@), texts(out@[k].required@)),
                ),
        decreases actions.len() - i,
    {
        proof {
            assert(all[i as int] == actions@[i as int]@);
            law_supported_actions_have_contracts(surface, capabilities, i as int);
        }
        match todoist_action_contract(actions[i].as_str()) {
            Ok(contract) => {
                out.push(contract);
            },
            Err(_) => {
                proof {
                    assert(false);
                }
            },
        }
        i = i + 1;
    }
    out
}

/// The schema of what the Todoist tool takes.
pub fn todoist_input_schema(
    surface: TodoistToolSurface,
    capabilities: TrackerCapabilities,
) -> (r: Json)
    ensures
        r@ == schema_of(supported_actions(surface, capabilities)),
{
    broadcast use group_json_views;

    let actions: Vec<String> = todoist_supported_actions(surface, capabilities);
    let ghost all = supported_actions(surface, capabilities);
    let contracts: Vec<ActionContract> = supported_contracts(surface, capabilities);
    let action: Json = Json::object3(
        "description",
        Json::text("Todoist action to execute for this session."),
        "enum",
        ordered_array(&actions),
        "type",
        Json::text("string"),
    );
    let mut properties: Vec<(String, Json)> = Vec::new();
    properties.push((owned("action"), action));
    proof {
        assert(entry_views(properties@) =~= seq![("action"@, action_schema(all))]);
    }
    add_field(
        &mut properties,
        &contracts,
        Ghost(all),
        "annotate_notes",
        FieldKind::Truth,
        "Whether Todoist should annotate note activity results.",
    );
    add_field(
        &mut properties,
        &contracts,
        Ghost(all),
        "annotate_parents",
        FieldKind::Truth,
        "Whether Todoist should annotate parent objects in activity results.",
    );
    add_field(
        &mut properties,
        &contracts,
        Ghost(all),
        "assignee_id",
        FieldKind::TextOrNumber,
        "Todoist assignee id for create_task or update_task.",
    );
    add_field(
        &mut properties,
        &contracts,
        Ghost(all),
        "attachment",
        FieldKind::Any,
        "Optional Todoist comment attachment object.",
    );
    add_field(
        &mut properties,
        &contracts,
        Ghost(all),
        "comment_id",
        FieldKind::TextOrNumber,
        "Comment identifier for get_comment, update_comment, delete_comment, or as an optional workpad hint for upsert_workpad.",
    );
    add_field(
        &mut properties,
        &contracts,
        Ghost(all),
        "content",
        FieldKind::Text,
        "Primary content for create_task, create_project_comment, update_comment, or upsert_workpad.",
    );
    add_field(
        &mut properties,
        &contracts,
        Ghost(all),
        "cursor",
        FieldKind::Text,
        "Cursor for paginated list actions.",
    );
    add_field(
        &mut properties,
        &contracts,
        Ghost(all),
        "date_from",
        FieldKind::Text,
        "RFC3339 lower bound for list_activities.",
    );
    add_field(
        &mut properties,
        &contracts,
        Ghost(all),
        "date_to",
        FieldKind::Text,
        "RFC3339 exclusive upper bound for list_activities.",
    );
    add_field(
        &mut properties,
        &contracts,
        Ghost(all),
        "deadline",
        FieldKind::Any,
        "Todoist deadline object for create_task or update_task.",
    );
    add_field(
        &mut properties,
        &contracts,
        Ghost(all),
        "description",
        FieldKind::Text,
        "Todoist task description for create_task or update_task.",
    );
    add_field(
        &mut properties,
        &contracts,
        Ghost(all),
        "due",
        FieldKind::Any,
        "Todoist due object for create_task or update_task.",
    );
    add_field(
        &mut properties,
        &contracts,
        Ghost(all),
        "event_type",
        FieldKind::Text,
        "Todoist activity event type such as `added`, `updated`, `completed`, or `moved`.",
    );
    add_field(
        &mut properties,
        &contracts,
        Ghost(all),
        "filter",
        FieldKind::Text,
        "Todoist filter query for list_tasks. When provided, Symphony uses `/tasks/filter`.",
    );
    add_field(
        &mut properties,
        &contracts,
        Ghost(all),
        "ids",
        FieldKind::Any,
        "Comma-separated task ids or an array of task ids for list_tasks.",
    );
    add_field(
        &mut properties,
        &contracts,
        Ghost(all),
        "include_child_objects",
        FieldKind::Truth,
        "Whether Todoist should expand child objects in activity results.",
    );
    add_field(
        &mut properties,
        &contracts,
        Ghost(all),
        "include_parent_object",
        FieldKind::Truth,
        "Whether Todoist should expand the parent object in activity results.",
    );
    add_field(
        &mut properties,
        &contracts,
        Ghost(all),
        "initiator_id",
        FieldKind::Any,
        "Single initiator id or array of initiator ids for list_activities.",
    );
    add_field(
        &mut properties,
        &contracts,
        Ghost(all),
        "initiator_id_null",
        FieldKind::Truth,
        "Filter activities by whether the initiator is absent (`true`) or present (`false`).",
    );
    add_field(
        &mut properties,
        &contracts,
        Ghost(all),
        "label",
        FieldKind::Text,
        "Todoist label name for list_tasks filtering.",
    );
    add_field(
        &mut properties,
        &contracts,
        Ghost(all),
        "labels",
        FieldKind::Any,
        "Todoist label names for create_task or update_task.",
    );
    add_field(
        &mut properties,
        &contracts,
        Ghost(all),
        "lang",
        FieldKind::Text,
        "IETF language tag for Todoist filter queries.",
    );
    add_field(
        &mut properties,
        &contracts,
        Ghost(all),
        "limit",
        FieldKind::Integer,
        "Requested page size for paginated list actions.",
    );
    add_field(
        &mut properties,
        &contracts,
        Ghost(all),
        "object_event_types",
        FieldKind::Any,
        "Single value or array using Todoist `object_type:event_type` syntax, for example `item:completed`.",
    );
    add_field(
        &mut properties,
        &contracts,
        Ghost(all),
        "object_id",
        FieldKind::TextOrNumber,
        "Activity-log object identifier, used with object_type.",
    );
    add_field(
        &mut properties,
        &contracts,
        Ghost(all),
        "object_type",
        FieldKind::Text,
        "Activity-log object type such as `project`, `item`, or `note`.",
    );
    add_field(
        &mut properties,
        &contracts,
        Ghost(all),
        "origin_task_id",
        FieldKind::TextOrNumber,
        "Optional source task id for follow-up task creation; Symphony records it as `TD-<task_id>` in the new task description.",
    );
    add_field(
        &mut properties,
        &contracts,
        Ghost(all),
        "parent_id",
        FieldKind::TextOrNumber,
        "Parent task identifier for subtask listing, creation, or task reparenting.",
    );
    add_field(
        &mut properties,
        &contracts,
        Ghost(all),
        "parent_item_id",
        FieldKind::TextOrNumber,
        "Activity-log parent task identifier.",
    );
    add_field(
        &mut properties,
        &contracts,
        Ghost(all),
        "parent_project_id",
        FieldKind::TextOrNumber,
        "Activity-log parent project identifier.",
    );
    add_field(
        &mut properties,
        &contracts,
        Ghost(all),
        "priority",
        FieldKind::Integer,
        "Todoist task priority from 1 (normal) to 4 (urgent).",
    );
    add_field(
        &mut properties,
        &contracts,
        Ghost(all),
        "project_id",
        FieldKind::TextOrNumber,
        "Optional project identifier; defaults to tracker.project_id where applicable. Do not send this for task comment actions.",
    );
    add_field(
        &mut properties,
        &contracts,
        Ghost(all),
        "section_id",
        FieldKind::TextOrNumber,
        "Section identifier for get/update section-based actions.",
    );
    add_field(
        &mut properties,
        &contracts,
        Ghost(all),
        "task_id",
        FieldKind::TextOrNumber,
        "Task identifier for get/update/move/close/reopen task actions.",
    );
    add_field(
        &mut properties,
        &contracts,
        Ghost(all),
        "uids_to_notify",
        FieldKind::Any,
        "Optional list of Todoist user ids to notify for comment creation.",
    );
    add_field(
        &mut properties,
        &contracts,
        Ghost(all),
        "workspace_id",
        FieldKind::Any,
        "Optional Todoist workspace id filter for list_activities.",
    );
    Json::object4(
        "additionalProperties",
        Json::Bool(false),
        "properties",
        Json::Object(properties),
        "required",
        Json::array1(Json::text("action")),
        "type",
        Json::text("object"),
    )
}

/// The description of the GitHub tool.
pub const GITHUB_API_TOOL_DESCRIPTION: &'static str = "Execute a GitHub REST API request using host-side auth from Symphony's runtime.\nUse this when `gh` transport is flaky inside Codex sessions but the host can still reach GitHub.\nCreate pull requests with POST `/repos/{owner}/{repo}/pulls` and JSON body fields `title`, `head`, `base`, `body`.\nAdd labels with POST `/repos/{owner}/{repo}/issues/{number}/labels` and body `{ \"labels\": [\"symphony\"] }`.\nRead pull requests with GET `/repos/{owner}/{repo}/pulls/{number}`.\nRead CI checks with GET `/repos/{owner}/{repo}/commits/{sha}/check-runs`.";

/// The GitHub tool as an agent sees it.
pub open spec fn github_tool() -> JsonView {
    JsonView::Object(
        seq![
            ("description"@, JsonView::Text(GITHUB_API_TOOL_DESCRIPTION@)),
            (
                "inputSchema"@,
                JsonView::Object(
                    seq![
                        ("additionalProperties"@, JsonView::Bool(false)),
                        (
                            "properties"@,
                            JsonView::Object(
                                seq![
                                    (
                                        "body"@,
                                        JsonView::Object(
                                            seq![
                                                (
                                                    "description"@,
                                                    JsonView::Text(
                                                        "Optional JSON body for POST/PATCH/PUT requests."@,
                                                    ),
                                                ),
                                            ],
                                        ),
                                    ),
                                    (
                                        "method"@,
                                        described(
                                            "HTTP method to send to the GitHub REST API (GET, POST, PATCH, PUT, DELETE)."@,
                                        ),
                                    ),
                                    (
                                        "path"@,
                                        described(
                                            "API path beginning with `/`, for example `/repos/owner/repo/pulls`."@,
                                        ),
                                    ),
                                ],
                            ),
                        ),
                        (
                            "required"@,
                            JsonView::Array(
                                seq![JsonView::Text("method"@), JsonView::Text("path"@)],
                            ),
                        ),
                        ("type"@, JsonView::Text("object"@)),
                    ],
                ),
            ),
            ("name"@, JsonView::Text(GITHUB_API_TOOL@)),
        ],
    )
}

/// The schema of a text with a description.
pub open spec fn described(description: Seq<char>) -> JsonView {
    JsonView::Object(
        seq![
            ("description"@, JsonView::Text(description)),
            ("type"@, JsonView::Text("string"@)),
        ],
    )
}

fn describe(description: &str) -> (r: Json)
    ensures
        r@ == described(description@),
{
    Json::object2("description", Json::text(description), "type", Json::text("string"))
}

fn build_github_tool() -> (r: Json)
    ensures
        r@ == github_tool(),
{
    broadcast use group_json_views;

    let properties: Json = Json::object3(
        "body",
        Json::object1(
            "description",
            Json::text("Optional JSON body for POST/PATCH/PUT requests."),
        ),
        "method",
        describe("HTTP method to send to the GitHub REST API (GET, POST, PATCH, PUT, DELETE)."),
        "path",
        describe("API path beginning with `/`, for example `/repos/owner/repo/pulls`."),
    );
    let required: Vec<Json> = vec![Json::text("method"), Json::text("path")];
    proof {
        assert(views(required@) =~= seq![JsonView::Text("method"@), JsonView::Text("path"@)]);
    }
    let schema: Json = Json::object4(
        "additionalProperties",
        Json::Bool(false),
        "properties",
        properties,
        "required",
        Json::Array(required),
        "type",
        Json::text("object"),
    );
    Json::object3(
        "description",
        Json::text(GITHUB_API_TOOL_DESCRIPTION),
        "inputSchema",
        schema,
        "name",
        Json::text(GITHUB_API_TOOL),
    )
}

/// Whether the tracker is one that the Todoist tool works on.
pub open spec fn serves_todoist(kind: Option<Seq<char>>) -> bool {
    kind == Some("todoist"@) || kind == Some("memory"@)
}

/// Whether the tracker is one that the Todoist tool works on.
pub fn is_todoist_kind(kind: &Option<String>) -> (r: bool)
    ensures
        r == serves_todoist(opt_text(*kind)),
{
    opt_is(kind, "todoist") || opt_is(kind, "memory")
}

/// The tools that an agent is offered.
pub open spec fn offered_tools(
    kind: Option<Seq<char>>,
    surface: TodoistToolSurface,
    capabilities: TrackerCapabilities,
    github_available: bool,
) -> Seq<JsonView> {
    let actions = supported_actions(surface, capabilities);
    let todoist = if serves_todoist(kind) {
        seq![
            JsonView::Object(
                seq![
                    ("description"@, JsonView::Text(description_of(actions))),
                    ("inputSchema"@, schema_of(actions)),
                    ("name"@, JsonView::Text(TODOIST_TOOL@)),
                ],
            ),
        ]
    } else {
        Seq::empty()
    };
    if github_available {
        todoist.push(github_tool())
    } else {
        todoist
    }
}

/// The tools that an agent is offered, where it is known what the account can do and
/// whether GitHub can be reached.
pub fn tool_specs_with_capabilities(
    settings: &ToolSettings,
    capabilities: TrackerCapabilities,
    github_available: bool,
) -> (r: Vec<Json>)
    ensures
        views(r@) == offered_tools(
            opt_text(settings.tracker_kind),
            settings.surface,
            capabilities,
            github_available,
        ),
{
    let mut specs: Vec<Json> = Vec::new();
    proof {
        assert(views(specs@) =~= Seq::empty());
    }
    if is_todoist_kind(&settings.tracker_kind) {
        let description: String = todoist_tool_description(settings.surface, capabilities);
        let tool: Json = Json::object3(
            "description",
            Json::Text(description),
            "inputSchema",
            todoist_input_schema(settings.surface, capabilities),
            "name",
            Json::text(TODOIST_TOOL),
        );
        specs.push(tool);
        proof {
            assert(views(specs@) =~= seq![tool@]);
        }
    }
    if github_available {
        let ghost had = views(specs@);
        let tool: Json = build_github_tool();
        specs.push(tool);
        proof {
            assert(views(specs@) =~= had.push(tool@));
        }
    }
    specs
}

/// The tools that an agent is offered, where nothing is known to be missing.
pub fn tool_specs(settings: &ToolSettings, github_available: bool) -> (r: Vec<Json>)
    ensures
        views(r@) == offered_tools(
            opt_text(settings.tracker_kind),
            settings.surface,
            TrackerCapabilities { comments: true, reminders: true, activity_log: true },
            github_available,
        ),
{
    tool_specs_with_capabilities(settings, TrackerCapabilities::full(), github_available)
}

// ---------------------------------------------------------------------------
// Sizes
// ---------------------------------------------------------------------------

/// What a list of metrics holds.
pub open spec fn metric_views(metrics: Seq<ToolPayloadMetric>) -> Seq<(Seq<char>, nat)> {
    Seq::new(metrics.len(), |i: int| (metrics[i].name@, metrics[i].bytes as nat))
}

/// The name and the size of each tool that has a name.
pub open spec fn metrics_of(specs: Seq<JsonView>) -> Seq<(Seq<char>, nat)>
    decreases specs.len(),
{
    if specs.len() == 0 {
        Seq::empty()
    } else {
        let earlier = metrics_of(specs.drop_last());
        match opt_json_text(specs.last().get("name"@)) {
            Some(name) => earlier.push((name, byte_len(compact_of(specs.last())))),
            None => earlier,
        }
    }
}

/// The name and the size of each tool that has a name.
pub fn tool_payload_metrics(specs: &Vec<Json>) -> (r: Vec<ToolPayloadMetric>)
    ensures
        metric_views(r@) == metrics_of(views(specs@)),
{
    let ghost all = views(specs@);
    let mut out: Vec<ToolPayloadMetric> = Vec::new();
    let mut i: usize = 0;
    proof {
        assert(metric_views(out@) =~= Seq::empty());
    }
    while i < specs.len()
        invariant
            i <= specs.len(),
            all == views(specs@),
            metric_views(out@) == metrics_of(all.take(i as int)),
        decreases specs.len() - i,
    {
        proof {
            assert(all.take(i + 1).drop_last() =~= all.take(i as int));
            assert(all.take(i + 1).last() == specs@[i as int]@);
        }
        let name: Option<&str> = match specs[i].get("name") {
            Some(name) => name.as_str(),
            None => None,
        };
        match name {
            Some(name) => {
                let text: String = to_text(&specs[i]);
                let bytes: usize = len_bytes(text.as_str());
                let ghost had = metric_views(out@);
                out.push(ToolPayloadMetric { name: owned(name), bytes });
                proof {
                    assert(metric_views(out@) =~= had.push((name@, bytes as nat)));
                }
            },
            None => {},
        }
        i = i + 1;
    }
    proof {
        assert(all.take(i as int) =~= all);
    }
    out
}

/// The sum of the sizes.
pub open spec fn total_bytes(metrics: Seq<ToolPayloadMetric>) -> nat
    decreases metrics.len(),
{
    if metrics.len() == 0 {
        0
    } else {
        total_bytes(metrics.drop_last()) + metrics.last().bytes as nat
    }
}

/// The first sizes add up to no more than all of them.
proof fn lemma_total_bytes_take(metrics: Seq<ToolPayloadMetric>, n: int)
    requires
        0 <= n <= metrics.len(),
    ensures
        total_bytes(metrics.take(n)) <= total_bytes(metrics),
    decreases metrics.len(),
{
    if n == metrics.len() {
        assert(metrics.take(n) =~= metrics);
    } else {
        assert(metrics.drop_last().take(n) =~= metrics.take(n));
        lemma_total_bytes_take(metrics.drop_last(), n);
    }
}

/// The sum of the sizes, which has to fit into a `usize`.
pub fn total_tool_payload_bytes(metrics: &[ToolPayloadMetric]) -> (total: usize)
    requires
        total_bytes(metrics@) <= usize::MAX,
    ensures
        total == total_bytes(metrics@),
{
    let mut total: usize = 0;
    let mut i: usize = 0;
    while i < metrics.len()
        invariant
            i <= metrics.len(),
            total == total_bytes(metrics@.take(i as int)),
            total_bytes(metrics@) <= usize::MAX,
        decreases metrics.len() - i,
    {
        proof {
            assert(metrics@.take(i + 1).drop_last() =~= metrics@.take(i as int));
            lemma_total_bytes_take(metrics@, i + 1);
        }
        total = total + metrics[i].bytes;
        i = i + 1;
    }
    proof {
        assert(metrics@.take(i as int) =~= metrics@);
    }
    total
}

// ---------------------------------------------------------------------------
// Results
// ---------------------------------------------------------------------------

/// What a tool hands back: whether it succeeded, and its result as indented JSON.
pub open spec fn payload(success: bool, body: JsonView) -> JsonView {
    JsonView::Object(
        seq![
            (
                "contentItems"@,
                JsonView::Array(
                    seq![
                        JsonView::Object(
                            seq![
                                ("text"@, JsonView::Text(pretty_of(body))),
                                ("type"@, JsonView::Text("inputText"@)),
                            ],
                        ),
                    ],
                ),
            ),
            ("success"@, JsonView::Bool(success)),
        ],
    )
}

fn build_payload(success: bool, body: &Json) -> (r: Json)
    ensures
        r@ == payload(success, body@),
        is_plain(body@, deepest()) ==> reads_as(pretty_of(body@), body@),
{
    let text: String = to_pretty_text(body);
    Json::object2(
        "contentItems",
        Json::array1(Json::object2("text", Json::Text(text), "type", Json::text("inputText"))),
        "success",
        Json::Bool(success),
    )
}

/// What a tool that succeeded hands back. The text in it reads as a plain body.
pub fn success_payload(body: &Json) -> (r: Json)
    ensures
        r@ == payload(true, body@),
        is_plain(body@, deepest()) ==> reads_as(pretty_of(body@), body@),
{
    build_payload(true, body)
}

/// What a tool that failed hands back. The text in it reads as a plain body.
pub fn failure_payload(body: &Json) -> (r: Json)
    ensures
        r@ == payload(false, body@),
        is_plain(body@, deepest()) ==> reads_as(pretty_of(body@), body@),
{
    build_payload(false, body)
}

/// An error with nothing but a message.
pub open spec fn error_body(message: Seq<char>) -> JsonView {
    JsonView::Object(
        seq![("error"@, JsonView::Object(seq![("message"@, JsonView::Text(message))]))],
    )
}

/// An error with nothing but a message.
pub fn build_error(message: &str) -> (r: Json)
    ensures
        r@ == error_body(message@),
{
    Json::object1("error", Json::object1("message", Json::text(message)))
}

/// An error with a message and a reason.
pub open spec fn reason_body(message: Seq<char>, reason: Seq<char>) -> JsonView {
    JsonView::Object(
        seq![
            (
                "error"@,
                JsonView::Object(
                    seq![
                        ("message"@, JsonView::Text(message)),
                        ("reason"@, JsonView::Text(reason)),
                    ],
                ),
            ),
        ],
    )
}

/// An error with a message and a reason.
pub fn build_reason(message: &str, reason: &str) -> (r: Json)
    ensures
        r@ == reason_body(message@, reason@),
{
    Json::object1(
        "error",
        Json::object2("message", Json::text(message), "reason", Json::text(reason)),
    )
}

/// Who answers a call of a tool.
#[derive(Debug)]
pub enum ToolRoute {
    /// The Todoist tool.
    Todoist,
    /// The GitHub tool.
    Github,
    /// No one: this is handed back.
    Refused(Json),
}

/// Who answers a call of the tool `tool`.
pub fn route_tool(kind: &Option<String>, tool: &str) -> (r: ToolRoute)
    ensures
        match r {
            ToolRoute::Todoist => tool@ == TODOIST_TOOL@ && serves_todoist(opt_text(*kind)),
            ToolRoute::Github => tool@ != TODOIST_TOOL@ && tool@ == GITHUB_API_TOOL@,
            ToolRoute::Refused(reply) => if tool@ == TODOIST_TOOL@ {
                !serves_todoist(opt_text(*kind)) && reply@ == payload(
                    false,
                    error_body(
                        "Symphony is not configured with tracker.kind=todoist or tracker.kind=memory for this session."@,
                    ),
                )
            } else {
                tool@ != GITHUB_API_TOOL@ && reply@ == payload(false, unsupported_tool(tool@))
            },
        },
{
    if same(tool, TODOIST_TOOL) {
        if is_todoist_kind(kind) {
            ToolRoute::Todoist
        } else {
            let body: Json = build_error(
                "Symphony is not configured with tracker.kind=todoist or tracker.kind=memory for this session.",
            );
            ToolRoute::Refused(failure_payload(&body))
        }
    } else if same(tool, GITHUB_API_TOOL) {
        ToolRoute::Github
    } else {
        let message: String = concat3("Unsupported dynamic tool: ", tool, ".");
        let names: Vec<Json> = vec![Json::text(TODOIST_TOOL), Json::text(GITHUB_API_TOOL)];
        proof {
            assert(views(names@) =~= seq![
                JsonView::Text(TODOIST_TOOL@),
                JsonView::Text(GITHUB_API_TOOL@),
            ]);
        }
        broadcast use group_json_views;

        let body: Json = Json::object1(
            "error",
            Json::object2("message", Json::Text(message), "supportedTools", Json::Array(names)),
        );
        ToolRoute::Refused(failure_payload(&body))
    }
}

/// The error about a tool that does not exist.
pub open spec fn unsupported_tool(tool: Seq<char>) -> JsonView {
    JsonView::Object(
        seq![
            (
                "error"@,
                JsonView::Object(
                    seq![
                        ("message"@, JsonView::Text("Unsupported dynamic tool: "@ + tool + "."@)),
                        (
                            "supportedTools"@,
                            JsonView::Array(
                                seq![
                                    JsonView::Text(TODOIST_TOOL@),
                                    JsonView::Text(GITHUB_API_TOOL@),
                                ],
                            ),
                        ),
                    ],
                ),
            ),
        ],
    )
}

/// What an agent is told of a tracker error.
pub open spec fn tracker_error_body(error: TrackerErrorView) -> JsonView {
    match error {
        TrackerErrorView::MissingTrackerApiKey => error_body(
            "Symphony is missing Todoist auth. Set tracker.api_key in WORKFLOW.md or export TODOIST_API_TOKEN."@,
        ),
        TrackerErrorView::MissingTrackerProjectId => error_body(
            "Symphony is missing tracker.project_id."@,
        ),
        TrackerErrorView::TodoistProjectNotFound(project_id) => error_body(
            "Todoist project `"@ + project_id + "` was not found."@,
        ),
        TrackerErrorView::TodoistMissingRequiredSection(section) => error_body(
            "Todoist section `"@ + section + "` is required by WORKFLOW.md but was not found."@,
        ),
        TrackerErrorView::TodoistAssigneeNotResolvable { assignee, project_id } => error_body(
            "Todoist assignee `"@ + assignee + "` is not valid for project `"@ + project_id
                + "`."@,
        ),
        TrackerErrorView::MissingTodoistCurrentUser => error_body(
            "Todoist current user could not be resolved."@,
        ),
        TrackerErrorView::TodoistCommentsUnavailable => error_body(
            "Todoist comments are unavailable for this account or plan."@,
        ),
        TrackerErrorView::TodoistRemindersUnavailable => error_body(
            "Todoist reminders are unavailable for this account or plan."@,
        ),
        TrackerErrorView::TodoistActivityLogUnavailable => error_body(
            "Todoist activity log is unavailable for this account or plan."@,
        ),
        TrackerErrorView::TodoistCommentTooLarge { limit, actual } => JsonView::Object(
            seq![
                (
                    "error"@,
                    JsonView::Object(
                        seq![
                            (
                                "actual"@,
                                JsonView::Number(NumberView::Unsigned(actual as u64)),
                            ),
                            ("limit"@, JsonView::Number(NumberView::Unsigned(limit as u64))),
                            (
                                "message"@,
                                JsonView::Text(
                                    "Todoist comment content exceeds the "@ + decimal(
                                        limit as nat,
                                    ) + "-character limit."@,
                                ),
                            ),
                        ],
                    ),
                ),
            ],
        ),
        TrackerErrorView::TodoistRateLimited { retry_after } => JsonView::Object(
            seq![
                (
                    "error"@,
                    JsonView::Object(
                        seq![
                            ("message"@, JsonView::Text("Todoist request was rate limited."@)),
                            (
                                "retry_after"@,
                                opt_number(retry_after),
                            ),
                        ],
                    ),
                ),
            ],
        ),
        TrackerErrorView::TodoistApiStatus { status, body } => JsonView::Object(
            seq![
                (
                    "error"@,
                    JsonView::Object(
                        seq![
                            ("body"@, body),
                            (
                                "message"@,
                                JsonView::Text(
                                    "Todoist API request failed with HTTP "@ + decimal(
                                        status as nat,
                                    ) + "."@,
                                ),
                            ),
                            (
                                "status"@,
                                JsonView::Number(NumberView::Unsigned(status as u64)),
                            ),
                        ],
                    ),
                ),
            ],
        ),
        TrackerErrorView::TodoistApiRequest(reason) => reason_body(
            "Todoist API request failed before receiving a successful response."@,
            reason,
        ),
        TrackerErrorView::TodoistUnknownPayload => error_body(
            "Todoist API returned a payload Symphony could not decode."@,
        ),
        TrackerErrorView::TrackerOperationUnsupported(reason) => error_body(reason),
        TrackerErrorView::UnsupportedTrackerKind(kind) => error_body(
            "Unsupported tracker kind `"@ + kind + "`."@,
        ),
        TrackerErrorView::MissingTrackerFixturePath => error_body(
            "The memory tracker requires tracker.fixture_path."@,
        ),
        TrackerErrorView::MemoryFixtureIo { path, error } => reason_body(
            "Failed to read memory fixture `"@ + path + "`."@,
            error,
        ),
        TrackerErrorView::MemoryFixtureParse { path, error } => reason_body(
            "Failed to parse memory fixture `"@ + path + "`."@,
            error,
        ),
    }
}

/// What an agent is told of a tracker error.
pub fn tool_error_payload(error: TrackerError) -> (r: Json)
    ensures
        r@ == tracker_error_body(error@),
{
    match error {
        TrackerError::MissingTrackerApiKey => build_error(
            "Symphony is missing Todoist auth. Set tracker.api_key in WORKFLOW.md or export TODOIST_API_TOKEN.",
        ),
        TrackerError::MissingTrackerProjectId => build_error(
            "Symphony is missing tracker.project_id.",
        ),
        TrackerError::TodoistProjectNotFound(project_id) => {
            let message: String = concat3(
                "Todoist project `",
                project_id.as_str(),
                "` was not found.",
            );
            build_error(message.as_str())
        },
        TrackerError::TodoistMissingRequiredSection(section) => {
            let message: String = concat3(
                "Todoist section `",
                section.as_str(),
                "` is required by WORKFLOW.md but was not found.",
            );
            build_error(message.as_str())
        },
        TrackerError::TodoistAssigneeNotResolvable { assignee, project_id } => {
            let mut message: String = concat3(
                "Todoist assignee `",
                assignee.as_str(),
                "` is not valid for project `",
            );
            message.append(project_id.as_str());
            message.append("`.");
            build_error(message.as_str())
        },
        TrackerError::MissingTodoistCurrentUser => build_error(
            "Todoist current user could not be resolved.",
        ),
        TrackerError::TodoistCommentsUnavailable => build_error(
            "Todoist comments are unavailable for this account or plan.",
        ),
        TrackerError::TodoistRemindersUnavailable => build_error(
            "Todoist reminders are unavailable for this account or plan.",
        ),
        TrackerError::TodoistActivityLogUnavailable => build_error(
            "Todoist activity log is unavailable for this account or plan.",
        ),
        TrackerError::TodoistCommentTooLarge { limit, actual } => {
            let size: String = usize_text(limit);
            let message: String = concat3(
                "Todoist comment content exceeds the ",
                size.as_str(),
                "-character limit.",
            );
            Json::object1(
                "error",
                Json::object3(
                    "actual",
                    Json::unsigned(actual as u64),
                    "limit",
                    Json::unsigned(limit as u64),
                    "message",
                    Json::Text(message),
                ),
            )
        },
        TrackerError::TodoistRateLimited { retry_after } => {
            let seconds: Json = Json::opt_unsigned(retry_after);
            Json::object1(
                "error",
                Json::object2(
                    "message",
                    Json::text("Todoist request was rate limited."),
                    "retry_after",
                    seconds,
                ),
            )
        },
        TrackerError::TodoistApiStatus { status, body } => {
            let code: String = decimal_text(status as u64);
            let message: String = concat3(
                "Todoist API request failed with HTTP ",
                code.as_str(),
                ".",
            );
            Json::object1(
                "error",
                Json::object3(
                    "body",
                    body,
                    "message",
                    Json::Text(message),
                    "status",
                    Json::unsigned(status as u64),
                ),
            )
        },
        TrackerError::TodoistApiRequest(reason) => build_reason(
            "Todoist API request failed before receiving a successful response.",
            reason.as_str(),
        ),
        TrackerError::TodoistUnknownPayload => build_error(
            "Todoist API returned a payload Symphony could not decode.",
        ),
        TrackerError::TrackerOperationUnsupported(reason) => build_error(reason.as_str()),
        TrackerError::UnsupportedTrackerKind(kind) => {
            let message: String = concat3("Unsupported tracker kind `", kind.as_str(), "`.");
            build_error(message.as_str())
        },
        TrackerError::MissingTrackerFixturePath => build_error(
            "The memory tracker requires tracker.fixture_path.",
        ),
        TrackerError::MemoryFixtureIo { path, error } => {
            let message: String = concat3("Failed to read memory fixture `", path.as_str(), "`.");
            build_reason(message.as_str(), error.as_str())
        },
        TrackerError::MemoryFixtureParse { path, error } => {
            let message: String = concat3("Failed to parse memory fixture `", path.as_str(), "`.");
            build_reason(message.as_str(), error.as_str())
        },
    }
}

} // verus!
