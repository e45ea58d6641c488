//! What an app server asks for while a turn runs is answered as it should be, and what it
//! says ends the turn when it should.
use vstd::prelude::*;

use crate::codex::{
    response_in, response_line, sandbox_for, thread_message, tool_finished, turn_input, turn_line,
    turn_message, turn_start_message, warns, CallView, CodexErrorView, EndView, EventView, LineView,
    OutcomeView, ResponseView, SessionView, StartView, StepView, TurnInput, TurnView,
};
use crate::issue::IssueView;
use crate::json::{compact_of, parsed, JsonView, NumberView};
use crate::table::{has_key, in_order, lemma_put_lookup, lookup};
use crate::text::{lowered, occurs, trimmed};
use crate::usage::{limits_in, usage_of};

verus! {

/// What tells the names of messages apart: their length and one of their characters.
pub open spec fn method_mark(s: Seq<char>) -> (nat, char) {
    (s.len(), s[7])
}

pub proof fn lemma_method_marks()
    ensures
        method_mark("turn/completed"@) == (14nat, 'm'),
        method_mark("turn/failed"@) == (11nat, 'i'),
        method_mark("turn/cancelled"@) == (14nat, 'n'),
        method_mark("item/commandExecution/requestApproval"@) == (37nat, 'm'),
        method_mark("item/fileChange/requestApproval"@) == (31nat, 'l'),
        method_mark("execCommandApproval"@) == (19nat, 'm'),
        method_mark("applyPatchApproval"@) == (18nat, 't'),
        method_mark("item/tool/call"@) == (14nat, 'o'),
        method_mark("item/tool/requestUserInput"@) == (26nat, 'o'),
        method_mark("item/permissions/requestApproval"@) == (32nat, 'r'),
        method_mark("mcpServer/elicitation/request"@) == (29nat, 'e'),
        method_mark("turn/input_required"@) == (19nat, 'p'),
        method_mark("turn/needs_input"@) == (16nat, 'e'),
        method_mark("turn/need_input"@) == (15nat, 'e'),
        method_mark("turn/request_input"@) == (18nat, 'q'),
        method_mark("turn/request_response"@) == (21nat, 'q'),
        method_mark("turn/provide_input"@) == (18nat, 'o'),
        method_mark("turn/approval_required"@) == (22nat, 'p'),
{
    reveal_strlit("turn/completed");
    assert("turn/completed"@.len() == 14);
    reveal_strlit("turn/failed");
    assert("turn/failed"@.len() == 11);
    reveal_strlit("turn/cancelled");
    assert("turn/cancelled"@.len() == 14);
    reveal_strlit("item/commandExecution/requestApproval");
    assert("item/commandExecution/requestApproval"@.len() == 37);
    reveal_strlit("item/fileChange/requestApproval");
    assert("item/fileChange/requestApproval"@.len() == 31);
    reveal_strlit("execCommandApproval");
    assert("execCommandApproval"@.len() == 19);
    reveal_strlit("applyPatchApproval");
    assert("applyPatchApproval"@.len() == 18);
    reveal_strlit("item/tool/call");
    assert("item/tool/call"@.len() == 14);
    reveal_strlit("item/tool/requestUserInput");
    assert("item/tool/requestUserInput"@.len() == 26);
    reveal_strlit("item/permissions/requestApproval");
    assert("item/permissions/requestApproval"@.len() == 32);
    reveal_strlit("mcpServer/elicitation/request");
    assert("mcpServer/elicitation/request"@.len() == 29);
    reveal_strlit("turn/input_required");
    assert("turn/input_required"@.len() == 19);
    reveal_strlit("turn/needs_input");
    assert("turn/needs_input"@.len() == 16);
    reveal_strlit("turn/need_input");
    assert("turn/need_input"@.len() == 15);
    reveal_strlit("turn/request_input");
    assert("turn/request_input"@.len() == 18);
    reveal_strlit("turn/request_response");
    assert("turn/request_response"@.len() == 21);
    reveal_strlit("turn/provide_input");
    assert("turn/provide_input"@.len() == 18);
    reveal_strlit("turn/approval_required");
    assert("turn/approval_required"@.len() == 22);
}

/// Whether a message says in its parameters that an operator is waited for.
pub open spec fn says_it_waits(message: JsonView) -> bool {
    match message.get("params"@) {
        Some(params) => params.get("needsInput"@) == Some(JsonView::Bool(true)),
        None => false,
    }
}

/// Whether a message is named like one that waits for an operator.
pub open spec fn is_named_waiting(method: Seq<char>) -> bool {
    ||| method == "turn/input_required"@
    ||| method == "turn/needs_input"@
    ||| method == "turn/need_input"@
    ||| method == "turn/request_input"@
    ||| method == "turn/request_response"@
    ||| method == "turn/provide_input"@
    ||| method == "turn/approval_required"@
}

/// Whether a message is named like one that ends the turn.
pub open spec fn is_named_ending(method: Seq<char>) -> bool {
    ||| method == "turn/completed"@
    ||| method == "turn/failed"@
    ||| method == "turn/cancelled"@
}

/// Whether a request of this name is one that is known.
pub open spec fn is_named_request(method: Seq<char>) -> bool {
    ||| method == "item/commandExecution/requestApproval"@
    ||| method == "item/fileChange/requestApproval"@
    ||| method == "execCommandApproval"@
    ||| method == "applyPatchApproval"@
    ||| method == "item/tool/call"@
    ||| method == "item/tool/requestUserInput"@
    ||| method == "item/permissions/requestApproval"@
    ||| method == "mcpServer/elicitation/request"@
}

/// Whether a message is a request with this number and these parameters.
pub open spec fn is_request(message: JsonView, id: JsonView, params: JsonView) -> bool {
    message.get("id"@) == Some(id) && message.get("params"@) == Some(params)
}

/// Whether an event is of the turn, at this time, under this name, about this message.
pub open spec fn tells_of(
    event: EventView,
    turn: TurnView,
    now: i128,
    name: Seq<char>,
    message: JsonView,
) -> bool {
    &&& event.event == name
    &&& event.timestamp == now
    &&& event.worker_host == turn.worker_host
    &&& event.codex_app_server_pid == turn.pid
    &&& event.session_id == Some(turn.session_id)
    &&& event.thread_id == Some(turn.thread_id)
    &&& event.turn_id == Some(turn.turn_id)
    &&& event.payload == Some(message)
}

/// Whether an event also carries what the message reports of tokens and limits.
pub open spec fn reports(event: EventView, message: JsonView) -> bool {
    event.usage == usage_of(message) && event.rate_limits == limits_in(message)
}

/// Whether the last event of a turn that goes on tells of the message and of the line
/// that it came in.
pub open spec fn is_noted(
    outcome: OutcomeView,
    turn: TurnView,
    now: i128,
    method: Seq<char>,
    message: JsonView,
    raw: Seq<char>,
) -> bool {
    let last = outcome.events.last();
    let waits = is_named_waiting(method) || says_it_waits(message);
    &&& outcome.events.len() > 0
    &&& last.raw == Some(raw)
    &&& last.message is None
    &&& reports(last, message)
    &&& tells_of(
        last,
        turn,
        now,
        if waits {
            "turn_input_required"@
        } else {
            "notification"@
        },
        message,
    )
    &&& outcome.end == if waits {
        EndView::Interrupted(CodexErrorView::TurnInputRequired(method))
    } else {
        EndView::GoOn
    }
}

/// A request to approve a command, a change of files or a patch is granted for the session
/// where the policy is never to ask: the reply has the number of the request and says so
/// in the words of that request. Under any other policy nothing is replied and the turn
/// ends with the name of the request.
pub proof fn law_approvals_follow_the_policy(
    policy: JsonView,
    turn: TurnView,
    now: i128,
    method: Seq<char>,
    message: JsonView,
    raw: Seq<char>,
    id: JsonView,
    params: JsonView,
)
    requires
        method == "item/commandExecution/requestApproval"@ || method
            == "item/fileChange/requestApproval"@ || method == "execCommandApproval"@ || method
            == "applyPatchApproval"@,
        is_request(message, id, params),
    ensures
        match turn_message(policy, turn, now, method, message, raw) {
            StepView::Act(outcome) => if policy == JsonView::Text("never"@) {
                &&& outcome.reply == Some(
                    JsonView::Object(
                        seq![
                            ("id"@, id),
                            (
                                "result"@,
                                JsonView::Object(
                                    seq![
                                        (
                                            "decision"@,
                                            JsonView::Text(
                                                if method == "execCommandApproval"@ || method
                                                    == "applyPatchApproval"@ {
                                                    "approved_for_session"@
                                                } else {
                                                    "acceptForSession"@
                                                },
                                            ),
                                        ),
                                    ],
                                ),
                            ),
                        ],
                    ),
                )
                &&& outcome.events.len() == 2
                &&& tells_of(
                    outcome.events[0],
                    turn,
                    now,
                    "approval_auto_approved"@,
                    message,
                )
                &&& reports(outcome.events[0], message)
                &&& is_noted(outcome, turn, now, method, message, raw)
            } else {
                &&& outcome.reply is None
                &&& outcome.end == EndView::Failed(CodexErrorView::ApprovalRequired(method))
                &&& outcome.events.len() == 1
                &&& tells_of(outcome.events[0], turn, now, "approval_required"@, message)
                &&& reports(outcome.events[0], message)
            },
            _ => false,
        },
{
    lemma_method_marks();
}

/// A request for more permissions is never granted, whatever the policy: none are given
/// and the turn ends.
pub proof fn law_permissions_are_not_given(
    policy: JsonView,
    turn: TurnView,
    now: i128,
    message: JsonView,
    raw: Seq<char>,
    id: JsonView,
    params: JsonView,
)
    requires
        is_request(message, id, params),
    ensures
        match turn_message(policy, turn, now, "item/permissions/requestApproval"@, message, raw) {
            StepView::Act(outcome) => {
                &&& outcome.reply == Some(
                    JsonView::Object(
                        seq![
                            ("id"@, id),
                            (
                                "result"@,
                                JsonView::Object(
                                    seq![("permissions"@, JsonView::Object(Seq::empty()))],
                                ),
                            ),
                        ],
                    ),
                )
                &&& outcome.end == EndView::Failed(
                    CodexErrorView::ApprovalRequired("item/permissions/requestApproval"@),
                )
                &&& outcome.events.len() == 1
                &&& tells_of(outcome.events[0], turn, now, "approval_required"@, message)
            },
            _ => false,
        },
{
    lemma_method_marks();
}

/// A request of another server for input is declined, whatever the policy, and the turn
/// ends.
pub proof fn law_elicitations_are_declined(
    policy: JsonView,
    turn: TurnView,
    now: i128,
    message: JsonView,
    raw: Seq<char>,
    id: JsonView,
    params: JsonView,
)
    requires
        is_request(message, id, params),
    ensures
        match turn_message(policy, turn, now, "mcpServer/elicitation/request"@, message, raw) {
            StepView::Act(outcome) => {
                &&& outcome.reply == Some(
                    JsonView::Object(
                        seq![
                            ("id"@, id),
                            (
                                "result"@,
                                JsonView::Object(seq![("action"@, JsonView::Text("decline"@))]),
                            ),
                        ],
                    ),
                )
                &&& outcome.end == EndView::Failed(
                    CodexErrorView::TurnInputRequired("mcpServer/elicitation/request"@),
                )
                &&& outcome.events.len() == 1
                &&& tells_of(outcome.events[0], turn, now, "turn_input_required"@, message)
            },
            _ => false,
        },
{
    lemma_method_marks();
}

/// A request for a tool calls the tool that it names, with the arguments that it gives,
/// and remembers which request to reply to.
pub proof fn law_tools_are_called_by_name(
    policy: JsonView,
    turn: TurnView,
    now: i128,
    message: JsonView,
    raw: Seq<char>,
    id: JsonView,
    params: JsonView,
)
    requires
        is_request(message, id, params),
    ensures
        match turn_message(policy, turn, now, "item/tool/call"@, message, raw) {
            StepView::CallTool(call) => {
                &&& call.request_id == id
                &&& call.message == message
                &&& call.raw == raw
                &&& call.method == "item/tool/call"@
                &&& call.arguments == (match params.get("arguments"@) {
                    Some(arguments) => arguments,
                    None => JsonView::Object(Seq::empty()),
                })
                &&& match (params.get("tool"@), params.get("name"@)) {
                    (Some(JsonView::Text(tool)), _) => call.tool == trimmed(tool),
                    (None, Some(JsonView::Text(name))) => call.tool == trimmed(name),
                    _ => call.tool == Seq::<char>::empty(),
                }
            },
            _ => false,
        },
{
    lemma_method_marks();
    match (params.get("tool"@), params.get("name"@)) {
        (Some(JsonView::Text(tool)), _) => {
            if trimmed(tool).len() == 0 {
                assert(trimmed(tool) =~= Seq::empty());
            }
        },
        (None, Some(JsonView::Text(name))) => {
            if trimmed(name).len() == 0 {
                assert(trimmed(name) =~= Seq::empty());
            }
        },
        _ => {},
    }
}

/// The result of a tool call goes back under the number of the request, and is told of
/// together with it: as completed only where the result says that it succeeded.
pub proof fn law_tool_results_are_returned(
    turn: TurnView,
    now: i128,
    call: CallView,
    entries: Seq<(Seq<char>, JsonView)>,
    result: JsonView,
    key: Seq<char>,
)
    requires
        call.message == JsonView::Object(entries),
        in_order(entries),
    ensures
        ({
            let outcome = tool_finished(turn, now, call, result);
            &&& outcome.reply == Some(
                JsonView::Object(seq![("id"@, call.request_id), ("result"@, result)]),
            )
            &&& outcome.events.len() == 2
            &&& is_noted(outcome, turn, now, call.method, call.message, call.raw)
            &&& match outcome.events[0].payload {
                Some(JsonView::Object(told)) => {
                    &&& lookup(told, key) == if key == "toolResult"@ {
                        Some(result)
                    } else {
                        lookup(entries, key)
                    }
                    &&& tells_of(
                        outcome.events[0],
                        turn,
                        now,
                        if result.get("success"@) == Some(JsonView::Bool(true)) {
                            "tool_call_completed"@
                        } else if call.tool == "todoist"@ || call.tool == "github_api"@ {
                            "tool_call_failed"@
                        } else {
                            "unsupported_tool_call"@
                        },
                        JsonView::Object(told),
                    )
                },
                _ => false,
            }
        }),
{
    lemma_put_lookup(entries, "toolResult"@, result, key);
}

/// A message that a turn has completed completes it; one that it has failed or was
/// cancelled fails it, with what the message says. Each is told of, and nothing is
/// replied.
pub proof fn law_turns_end_as_they_are_said_to(
    policy: JsonView,
    turn: TurnView,
    now: i128,
    message: JsonView,
    raw: Seq<char>,
)
    ensures
        match turn_message(policy, turn, now, "turn/completed"@, message, raw) {
            StepView::Act(outcome) => {
                &&& outcome.reply is None
                &&& outcome.end == EndView::Completed
                &&& outcome.events.len() == 1
                &&& tells_of(outcome.events[0], turn, now, "turn_completed"@, message)
                &&& reports(outcome.events[0], message)
                &&& outcome.events[0].raw == Some(raw)
            },
            _ => false,
        },
        match turn_message(policy, turn, now, "turn/failed"@, message, raw) {
            StepView::Act(outcome) => {
                &&& outcome.reply is None
                &&& outcome.end == EndView::Failed(CodexErrorView::TurnFailed(compact_of(message)))
                &&& outcome.events.len() == 1
                &&& tells_of(outcome.events[0], turn, now, "turn_failed"@, message)
                &&& reports(outcome.events[0], message)
                &&& outcome.events[0].raw == Some(raw)
            },
            _ => false,
        },
        match turn_message(policy, turn, now, "turn/cancelled"@, message, raw) {
            StepView::Act(outcome) => {
                &&& outcome.reply is None
                &&& outcome.end == EndView::Failed(
                    CodexErrorView::TurnCancelled(compact_of(message)),
                )
                &&& outcome.events.len() == 1
                &&& tells_of(outcome.events[0], turn, now, "turn_cancelled"@, message)
                &&& reports(outcome.events[0], message)
                &&& outcome.events[0].raw == Some(raw)
            },
            _ => false,
        },
{
    lemma_method_marks();
}

/// Any other message is told of once, with nothing replied. The turn goes on, unless the
/// message says that an operator is waited for: it is then interrupted.
pub proof fn law_other_messages_are_noted(
    policy: JsonView,
    turn: TurnView,
    now: i128,
    method: Seq<char>,
    message: JsonView,
    raw: Seq<char>,
)
    requires
        !is_named_ending(method),
        is_named_request(method) ==> message.get("id"@) is None || message.get("params"@) is None,
    ensures
        match turn_message(policy, turn, now, method, message, raw) {
            StepView::Act(outcome) => {
                &&& outcome.reply is None
                &&& outcome.events.len() == 1
                &&& is_noted(outcome, turn, now, method, message, raw)
            },
            _ => false,
        },
{
}

/// A cancelled worker fails its turn, and so does one whose time is up. A line that is no
/// message of the app server is told of or passed over, and the turn goes on. The end of
/// the output ends the turn.
pub proof fn law_turns_are_not_ended_by_noise(
    policy: JsonView,
    turn: TurnView,
    now: i128,
    line: LineView,
)
    ensures
        turn_input(policy, turn, now, TurnInput::Cancelled) == StepView::Act(
            OutcomeView {
                reply: None,
                events: Seq::empty(),
                end: EndView::Failed(CodexErrorView::TurnCancelled("cancelled by orchestrator"@)),
            },
        ),
        turn_input(policy, turn, now, TurnInput::TimedOut) == StepView::Act(
            OutcomeView {
                reply: None,
                events: Seq::empty(),
                end: EndView::Failed(CodexErrorView::TurnTimeout),
            },
        ),
        match line {
            LineView::StdoutClosed => turn_line(policy, turn, now, line) is Closed,
            LineView::StdoutMalformed(raw) => is_malformed(
                turn_line(policy, turn, now, line),
                turn,
                now,
                raw,
            ),
            LineView::Stdout(raw) => match parsed(raw) {
                Err(_) => is_malformed(turn_line(policy, turn, now, line), turn, now, raw),
                Ok(message) => match message.get("method"@) {
                    Some(JsonView::Text(method)) => turn_line(policy, turn, now, line)
                        == turn_message(policy, turn, now, method, message, raw),
                    _ => turn_line(policy, turn, now, line) == StepView::Act(
                        OutcomeView { reply: None, events: Seq::empty(), end: EndView::GoOn },
                    ),
                },
            },
        },
{
}

/// Whether a step only tells of a line that could not be read.
pub open spec fn is_malformed(step: StepView, turn: TurnView, now: i128, raw: Seq<char>) -> bool {
    match step {
        StepView::Act(outcome) => {
            &&& outcome.reply is None
            &&& outcome.end is GoOn
            &&& outcome.events.len() == 1
            &&& outcome.events[0].event == "malformed"@
            &&& outcome.events[0].timestamp == now
            &&& outcome.events[0].session_id == Some(turn.session_id)
            &&& outcome.events[0].thread_id == Some(turn.thread_id)
            &&& outcome.events[0].turn_id == Some(turn.turn_id)
            &&& outcome.events[0].worker_host == turn.worker_host
            &&& outcome.events[0].codex_app_server_pid == turn.pid
            &&& outcome.events[0].raw == Some(raw)
            &&& outcome.events[0].message == Some(raw)
            &&& outcome.events[0].payload is None
        },
        _ => false,
    }
}

/// Whoever waits for the response to a request waits on through every line but the one
/// with its number, and takes from that one the result, or the error that stands there in
/// its place.
pub proof fn law_responses_are_told_by_number(id: u64, message: JsonView, line: LineView)
    ensures
        message.get("id"@) != Some(JsonView::Number(NumberView::Unsigned(id))) ==> response_in(
            id,
            message,
        ) is Wait,
        message.get("id"@) == Some(JsonView::Number(NumberView::Unsigned(id))) ==> response_in(
            id,
            message,
        ) == match (message.get("result"@), message.get("error"@)) {
            (Some(result), _) => ResponseView::Reply(result),
            (None, Some(error)) => ResponseView::Failed(
                CodexErrorView::ResponseError(compact_of(error)),
            ),
            (None, None) => ResponseView::Failed(
                CodexErrorView::ResponseError(compact_of(message)),
            ),
        },
        match line {
            LineView::StdoutClosed => response_line(id, line) is Closed,
            LineView::StdoutMalformed(_) => response_line(id, line) is Wait,
            LineView::Stdout(text) => match parsed(text) {
                Ok(told) => response_line(id, line) == response_in(id, told),
                Err(_) => response_line(id, line) is Wait,
            },
        },
{
}

/// A turn works only in its workspace: where its sandbox names directories that may be
/// written to, the workspace is the only one, and nothing else of the sandbox changes.
pub proof fn law_turns_write_to_their_workspace(
    entries: Seq<(Seq<char>, JsonView)>,
    workspace: Seq<char>,
    key: Seq<char>,
)
    requires
        in_order(entries),
    ensures
        match sandbox_for(JsonView::Object(entries), workspace) {
            JsonView::Object(used) => lookup(used, key) == if key == "writableRoots"@ && has_key(
                entries,
                key,
            ) {
                Some(JsonView::Array(seq![JsonView::Text(workspace)]))
            } else {
                lookup(entries, key)
            },
            _ => false,
        },
{
    lemma_put_lookup(
        entries,
        "writableRoots"@,
        JsonView::Array(seq![JsonView::Text(workspace)]),
        key,
    );
}

/// A thread is started in the workspace of its session, under the session's policy and
/// sandbox, and is offered the tools that were given.
pub proof fn law_threads_start_in_their_workspace(session: SessionView, tools: Seq<JsonView>)
    ensures
        thread_message(session, tools) == JsonView::Object(
            seq![
                ("id"@, JsonView::Number(NumberView::Unsigned(2))),
                ("method"@, JsonView::Text("thread/start"@)),
                (
                    "params"@,
                    JsonView::Object(
                        seq![
                            ("approvalPolicy"@, session.config.approval_policy),
                            ("cwd"@, JsonView::Text(session.workspace)),
                            ("dynamicTools"@, JsonView::Array(tools)),
                            ("sandbox"@, session.config.thread_sandbox),
                        ],
                    ),
                ),
            ],
        ),
{
}

/// A turn is started on the thread of its session, in its workspace and under its policy,
/// with the prompt as its only input and the task as its title.
pub proof fn law_turns_start_on_their_thread(
    session: SessionView,
    prompt: Seq<char>,
    issue: IssueView,
)
    ensures
        turn_start_message(session, prompt, issue) == JsonView::Object(
            seq![
                ("id"@, JsonView::Number(NumberView::Unsigned(session.next_request_id))),
                ("method"@, JsonView::Text("turn/start"@)),
                (
                    "params"@,
                    JsonView::Object(
                        seq![
                            ("approvalPolicy"@, session.config.approval_policy),
                            ("cwd"@, JsonView::Text(session.workspace)),
                            (
                                "input"@,
                                JsonView::Array(
                                    seq![
                                        JsonView::Object(
                                            seq![
                                                ("text"@, JsonView::Text(prompt)),
                                                ("type"@, JsonView::Text("text"@)),
                                            ],
                                        ),
                                    ],
                                ),
                            ),
                            (
                                "sandboxPolicy"@,
                                sandbox_for(session.config.turn_sandbox_policy, session.workspace),
                            ),
                            ("threadId"@, JsonView::Text(session.thread_id)),
                            ("title"@, JsonView::Text(issue.identifier + ": "@ + issue.title)),
                        ],
                    ),
                ),
            ],
        ),
{
}

/// A turn has started exactly where the response names it, and is then known by the
/// thread and that name. Where the request failed, the failure is told of.
pub proof fn law_turns_are_known_by_thread_and_turn(
    session: SessionView,
    response: Result<JsonView, CodexErrorView>,
    now: i128,
)
    ensures
        match (session.turn_start(response, now), response) {
            (StartView::Started { turn, event }, Ok(told)) => {
                &&& told.get("turn"@) is Some
                &&& told.get("turn"@)->0.get("id"@) == Some(JsonView::Text(turn.turn_id))
                &&& turn.thread_id == session.thread_id
                &&& turn.session_id == session.thread_id + "-"@ + turn.turn_id
                &&& turn.worker_host == session.worker_host
                &&& turn.pid == session.codex_app_server_pid
                &&& event.event == "session_started"@
                &&& event.timestamp == now
                &&& event.session_id == Some(turn.session_id)
                &&& event.thread_id == Some(turn.thread_id)
                &&& event.turn_id == Some(turn.turn_id)
                &&& event.worker_host == turn.worker_host
                &&& event.codex_app_server_pid == turn.pid
            },
            (StartView::Failed { error, event }, Ok(told)) => {
                &&& !(told.get("turn"@) is Some && told.get("turn"@)->0.get("id"@) is Some
                    && told.get("turn"@)->0.get("id"@)->0 is Text)
                &&& error == CodexErrorView::ResponseError(compact_of(told))
                &&& event is None
            },
            (StartView::Failed { error, event }, Err(reason)) => {
                &&& error == reason
                &&& event is Some
                &&& event->0.event == "startup_failed"@
                &&& event->0.timestamp == now
                &&& event->0.message == Some(reason.shown())
                &&& event->0.worker_host == session.worker_host
                &&& event->0.codex_app_server_pid == session.codex_app_server_pid
                &&& event->0.session_id is None
            },
            (StartView::Started { .. }, Err(_)) => false,
        },
{
}

/// How a failure is shown: its kind, and what is said of it.
pub proof fn law_failures_are_shown(text: Seq<char>)
    ensures
        CodexErrorView::CodexNotFound(text).shown() == "codex_not_found "@ + text,
        CodexErrorView::InvalidWorkspaceCwd(text).shown() == "invalid_workspace_cwd "@ + text,
        CodexErrorView::Io(text).shown() == "io_error "@ + text,
        CodexErrorView::ResponseTimeout.shown() == "response_timeout"@,
        CodexErrorView::TurnTimeout.shown() == "turn_timeout"@,
        CodexErrorView::ResponseError(text).shown() == "response_error "@ + text,
        CodexErrorView::TurnFailed(text).shown() == "turn_failed "@ + text,
        CodexErrorView::TurnCancelled(text).shown() == "turn_cancelled "@ + text,
        CodexErrorView::TurnInputRequired(text).shown() == "turn_input_required "@ + text,
        CodexErrorView::ApprovalRequired(text).shown() == "approval_required "@ + text,
{
}

/// A line of error output is worth a warning exactly where one of four words stands in
/// it, however it is capitalised.
pub proof fn law_trouble_is_warned_of(line: Seq<char>)
    ensures
        warns(line) <==> occurs(lowered(line), "error"@) || occurs(lowered(line), "warn"@)
            || occurs(lowered(line), "failed"@) || occurs(lowered(line), "panic"@),
{
}

} // verus!
