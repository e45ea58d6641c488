//! What an agent does is told in plain words, and each thing in its own.
use vstd::prelude::*;

use crate::display::{cut_short, inlined, replaced};
use crate::humanize::{
    action_in, bucket_words, command_in, credits_words, delta_in, error_words,
    item_words, limits_words, method_words, named_event_words, payload_words, reason_words,
    signed_in, summary_of, text_at, tool_in, tool_words, unsigned_in, unwrapped, usage_words,
    value_at, wrapped_type, wrapper_words, NumbersView,
};
use crate::json::JsonView;
use crate::text::{begins, decimal, signed_decimal};

verus! {

broadcast use vstd::seq::group_seq_axioms;

/// What tells the names of messages apart.
spec fn message_mark(s: Seq<char>) -> (nat, char, char) {
    (s.len(), s[s.len() - 3], s[s.len() - 11])
}

proof fn lemma_message_marks()
    ensures
        message_mark("thread/started"@) == (14nat, 't', 'e'),
        message_mark("turn/started"@) == (12nat, 't', 'u'),
        message_mark("turn/completed"@) == (14nat, 't', 'n'),
        message_mark("turn/failed"@) == (11nat, 'l', 't'),
        message_mark("turn/cancelled"@) == (14nat, 'l', 'n'),
        message_mark("turn/diff/updated"@) == (17nat, 't', 'i'),
        message_mark("turn/plan/updated"@) == (17nat, 't', 'l'),
        message_mark("thread/tokenUsage/updated"@) == (25nat, 't', 'a'),
        message_mark("item/started"@) == (12nat, 't', 't'),
        message_mark("item/completed"@) == (14nat, 't', 'm'),
        message_mark("item/agentMessage/delta"@) == (23nat, 'l', 's'),
        message_mark("item/plan/delta"@) == (15nat, 'l', '/'),
        message_mark("item/reasoning/summaryTextDelta"@) == (31nat, 'l', 'r'),
        message_mark("item/reasoning/summaryPartAdded"@) == (31nat, 'd', 'r'),
        message_mark("item/reasoning/textDelta"@) == (24nat, 'l', 'g'),
        message_mark("item/commandExecution/outputDelta"@) == (33nat, 'l', 'o'),
        message_mark("item/fileChange/outputDelta"@) == (27nat, 'l', 'o'),
        message_mark("item/commandExecution/requestApproval"@) == (37nat, 'v', 'e'),
        message_mark("item/fileChange/requestApproval"@) == (31nat, 'v', 'e'),
        message_mark("item/tool/requestUserInput"@) == (26nat, 'p', 's'),
        message_mark("tool/requestUserInput"@) == (21nat, 'p', 's'),
        message_mark("account/updated"@) == (15nat, 't', 'u'),
        message_mark("account/rateLimits/updated"@) == (26nat, 't', 'i'),
        message_mark("account/chatgptAuthTokens/refresh"@) == (33nat, 'e', 'e'),
        message_mark("item/tool/call"@) == (14nat, 'a', 'm'),
{
    reveal_strlit("thread/started");
    assert("thread/started"@.len() == 14);
    reveal_strlit("turn/started");
    assert("turn/started"@.len() == 12);
    reveal_strlit("turn/completed");
    assert("turn/completed"@.len() == 14);
    reveal_strlit("turn/failed");
    assert("turn/failed"@.len() == 11);
    reveal_strlit("turn/cancelled");
    assert("turn/cancelled"@.len() == 14);
    reveal_strlit("turn/diff/updated");
    assert("turn/diff/updated"@.len() == 17);
    reveal_strlit("turn/plan/updated");
    assert("turn/plan/updated"@.len() == 17);
    reveal_strlit("thread/tokenUsage/updated");
    assert("thread/tokenUsage/updated"@.len() == 25);
    reveal_strlit("item/started");
    assert("item/started"@.len() == 12);
    reveal_strlit("item/completed");
    assert("item/completed"@.len() == 14);
    reveal_strlit("item/agentMessage/delta");
    assert("item/agentMessage/delta"@.len() == 23);
    reveal_strlit("item/plan/delta");
    assert("item/plan/delta"@.len() == 15);
    reveal_strlit("item/reasoning/summaryTextDelta");
    assert("item/reasoning/summaryTextDelta"@.len() == 31);
    reveal_strlit("item/reasoning/summaryPartAdded");
    assert("item/reasoning/summaryPartAdded"@.len() == 31);
    reveal_strlit("item/reasoning/textDelta");
    assert("item/reasoning/textDelta"@.len() == 24);
    reveal_strlit("item/commandExecution/outputDelta");
    assert("item/commandExecution/outputDelta"@.len() == 33);
    reveal_strlit("item/fileChange/outputDelta");
    assert("item/fileChange/outputDelta"@.len() == 27);
    reveal_strlit("item/commandExecution/requestApproval");
    assert("item/commandExecution/requestApproval"@.len() == 37);
    reveal_strlit("item/fileChange/requestApproval");
    assert("item/fileChange/requestApproval"@.len() == 31);
    reveal_strlit("item/tool/requestUserInput");
    assert("item/tool/requestUserInput"@.len() == 26);
    reveal_strlit("tool/requestUserInput");
    assert("tool/requestUserInput"@.len() == 21);
    reveal_strlit("account/updated");
    assert("account/updated"@.len() == 15);
    reveal_strlit("account/rateLimits/updated");
    assert("account/rateLimits/updated"@.len() == 26);
    reveal_strlit("account/chatgptAuthTokens/refresh");
    assert("account/chatgptAuthTokens/refresh"@.len() == 33);
    reveal_strlit("item/tool/call");
    assert("item/tool/call"@.len() == 14);
}

/// What tells the names of events apart.
spec fn event_mark(s: Seq<char>) -> (nat, char, char) {
    (s.len(), s[0], s[1])
}

proof fn lemma_event_marks()
    ensures
        event_mark("session_started"@) == (15nat, 's', 'e'),
        event_mark("turn_input_required"@) == (19nat, 't', 'u'),
        event_mark("approval_auto_approved"@) == (22nat, 'a', 'p'),
        event_mark("tool_input_auto_answered"@) == (24nat, 't', 'o'),
        event_mark("tool_call_completed"@) == (19nat, 't', 'o'),
        event_mark("tool_call_failed"@) == (16nat, 't', 'o'),
        event_mark("unsupported_tool_call"@) == (21nat, 'u', 'n'),
        event_mark("turn_ended_with_error"@) == (21nat, 't', 'u'),
        event_mark("startup_failed"@) == (14nat, 's', 't'),
        event_mark("turn_failed"@) == (11nat, 't', 'u'),
        event_mark("turn_cancelled"@) == (14nat, 't', 'u'),
        event_mark("malformed"@) == (9nat, 'm', 'a'),
{
    reveal_strlit("session_started");
    assert("session_started"@.len() == 15);
    reveal_strlit("turn_input_required");
    assert("turn_input_required"@.len() == 19);
    reveal_strlit("approval_auto_approved");
    assert("approval_auto_approved"@.len() == 22);
    reveal_strlit("tool_input_auto_answered");
    assert("tool_input_auto_answered"@.len() == 24);
    reveal_strlit("tool_call_completed");
    assert("tool_call_completed"@.len() == 19);
    reveal_strlit("tool_call_failed");
    assert("tool_call_failed"@.len() == 16);
    reveal_strlit("unsupported_tool_call");
    assert("unsupported_tool_call"@.len() == 21);
    reveal_strlit("turn_ended_with_error");
    assert("turn_ended_with_error"@.len() == 21);
    reveal_strlit("startup_failed");
    assert("startup_failed"@.len() == 14);
    reveal_strlit("turn_failed");
    assert("turn_failed"@.len() == 11);
    reveal_strlit("turn_cancelled");
    assert("turn_cancelled"@.len() == 14);
    reveal_strlit("malformed");
    assert("malformed"@.len() == 9);
}

/// What tells the names of wrapped events apart.
spec fn inner_mark(s: Seq<char>) -> (nat, char, char) {
    (s.len(), s[0], s[1])
}

proof fn lemma_inner_marks()
    ensures
        inner_mark("mcp_startup_update"@) == (18nat, 'm', 'c'),
        inner_mark("mcp_startup_complete"@) == (20nat, 'm', 'c'),
        inner_mark("task_started"@) == (12nat, 't', 'a'),
        inner_mark("user_message"@) == (12nat, 'u', 's'),
        inner_mark("item_started"@) == (12nat, 'i', 't'),
        inner_mark("item_completed"@) == (14nat, 'i', 't'),
        inner_mark("agent_message_delta"@) == (19nat, 'a', 'g'),
        inner_mark("agent_message_content_delta"@) == (27nat, 'a', 'g'),
        inner_mark("agent_reasoning"@) == (15nat, 'a', 'g'),
        inner_mark("agent_reasoning_delta"@) == (21nat, 'a', 'g'),
        inner_mark("reasoning_content_delta"@) == (23nat, 'r', 'e'),
        inner_mark("agent_reasoning_section_break"@) == (29nat, 'a', 'g'),
        inner_mark("turn_diff"@) == (9nat, 't', 'u'),
        inner_mark("exec_command_begin"@) == (18nat, 'e', 'x'),
        inner_mark("exec_command_end"@) == (16nat, 'e', 'x'),
        inner_mark("exec_command_output_delta"@) == (25nat, 'e', 'x'),
        inner_mark("mcp_tool_call_begin"@) == (19nat, 'm', 'c'),
        inner_mark("mcp_tool_call_end"@) == (17nat, 'm', 'c'),
        inner_mark("token_count"@) == (11nat, 't', 'o'),
{
    reveal_strlit("mcp_startup_update");
    assert("mcp_startup_update"@.len() == 18);
    reveal_strlit("mcp_startup_complete");
    assert("mcp_startup_complete"@.len() == 20);
    reveal_strlit("task_started");
    assert("task_started"@.len() == 12);
    reveal_strlit("user_message");
    assert("user_message"@.len() == 12);
    reveal_strlit("item_started");
    assert("item_started"@.len() == 12);
    reveal_strlit("item_completed");
    assert("item_completed"@.len() == 14);
    reveal_strlit("agent_message_delta");
    assert("agent_message_delta"@.len() == 19);
    reveal_strlit("agent_message_content_delta");
    assert("agent_message_content_delta"@.len() == 27);
    reveal_strlit("agent_reasoning");
    assert("agent_reasoning"@.len() == 15);
    reveal_strlit("agent_reasoning_delta");
    assert("agent_reasoning_delta"@.len() == 21);
    reveal_strlit("reasoning_content_delta");
    assert("reasoning_content_delta"@.len() == 23);
    reveal_strlit("agent_reasoning_section_break");
    assert("agent_reasoning_section_break"@.len() == 29);
    reveal_strlit("turn_diff");
    assert("turn_diff"@.len() == 9);
    reveal_strlit("exec_command_begin");
    assert("exec_command_begin"@.len() == 18);
    reveal_strlit("exec_command_end");
    assert("exec_command_end"@.len() == 16);
    reveal_strlit("exec_command_output_delta");
    assert("exec_command_output_delta"@.len() == 25);
    reveal_strlit("mcp_tool_call_begin");
    assert("mcp_tool_call_begin"@.len() == 19);
    reveal_strlit("mcp_tool_call_end");
    assert("mcp_tool_call_end"@.len() == 17);
    reveal_strlit("token_count");
    assert("token_count"@.len() == 11);
}

/// A label with more in brackets, where there is more.
pub open spec fn bracketed(label: Seq<char>, more: Option<Seq<char>>) -> Seq<char> {
    match more {
        Some(more) => label + " ("@ + more + ")"@,
        None => label,
    }
}

/// A label with more behind a colon, where there is more.
pub open spec fn continued(label: Seq<char>, more: Option<Seq<char>>) -> Seq<char> {
    match more {
        Some(more) => label + ": "@ + more,
        None => label,
    }
}

/// A text on one line, where there is one.
pub open spec fn on_one_line(text: Option<Seq<char>>) -> Option<Seq<char>> {
    match text {
        Some(text) => Some(inlined(text)),
        None => None,
    }
}

/// How turns and threads are told of: that they started, with their names; how they ended,
/// with what went wrong or what they used.
pub proof fn law_turns_are_told_in_words(payload: Option<JsonView>, numbers: NumbersView)
    ensures
        method_words("thread/started"@, payload, numbers) == bracketed(
            "thread started"@,
            text_at(payload, "params.thread.id|params.threadId|thread_id"@),
        ),
        method_words("turn/started"@, payload, numbers) == bracketed(
            "turn started"@,
            text_at(payload, "params.turn.id|params.turnId|turn_id"@),
        ),
        method_words("turn/completed"@, payload, numbers) == bracketed(
            "turn completed"@ + " ("@ + (match text_at(
                payload,
                "params.turn.status|params.status|status"@,
            ) {
                Some(status) => status,
                None => "completed"@,
            }) + ")"@,
            usage_words(value_at(payload, "params.usage|params.tokenUsage|usage|tokenUsage"@)),
        ),
        method_words("turn/failed"@, payload, numbers) == continued(
            "turn failed"@,
            on_one_line(text_at(payload, "params.error.message|error.message"@)),
        ),
        method_words("turn/cancelled"@, payload, numbers) == "turn cancelled"@,
        method_words("thread/tokenUsage/updated"@, payload, numbers) == bracketed(
            "thread token usage updated"@,
            usage_words(
                value_at(
                    payload,
                    "params.tokenUsage.total|params.tokenUsage|tokenUsage.total|tokenUsage|usage"@,
                ),
            ),
        ),
        begins(method_words("turn/diff/updated"@, payload, numbers), "turn diff updated"@),
        begins(method_words("turn/plan/updated"@, payload, numbers), "plan updated"@),
{
    lemma_message_marks();
    lemma_begins_itself("turn diff updated"@);
    lemma_begins_itself("plan updated"@);
}

proof fn lemma_begins_itself(label: Seq<char>)
    ensures
        begins(label, label),
        forall|more: Seq<char>|
            begins(#[trigger] crate::humanize::noted(label, more), label),
{
    assert(label.take(label.len() as int) =~= label);
    assert(label.subrange(0, label.len() as int) =~= label);
    assert forall|more: Seq<char>| begins(
        #[trigger] crate::humanize::noted(label, more),
        label,
    ) by {
        let all = crate::humanize::noted(label, more);
        assert(all.take(label.len() as int) =~= label);
        assert(all.subrange(0, label.len() as int) =~= label);
    }
}

/// How the parts of a turn are told of while they stream in.
pub proof fn law_streams_are_told_in_words(payload: Option<JsonView>, numbers: NumbersView)
    ensures
        method_words("item/agentMessage/delta"@, payload, numbers) == continued(
            "agent message streaming"@,
            delta_in(payload),
        ),
        method_words("item/plan/delta"@, payload, numbers) == continued(
            "plan streaming"@,
            delta_in(payload),
        ),
        method_words("item/reasoning/summaryTextDelta"@, payload, numbers) == continued(
            "reasoning summary streaming"@,
            delta_in(payload),
        ),
        method_words("item/reasoning/summaryPartAdded"@, payload, numbers) == continued(
            "reasoning summary section added"@,
            delta_in(payload),
        ),
        method_words("item/reasoning/textDelta"@, payload, numbers) == continued(
            "reasoning text streaming"@,
            delta_in(payload),
        ),
        method_words("item/commandExecution/outputDelta"@, payload, numbers) == continued(
            "command output streaming"@,
            delta_in(payload),
        ),
        method_words("item/fileChange/outputDelta"@, payload, numbers) == continued(
            "file change output streaming"@,
            delta_in(payload),
        ),
{
    lemma_message_marks();
}

/// How requests of an agent, its account and its tools are told of.
pub proof fn law_requests_are_told_in_words(payload: Option<JsonView>, numbers: NumbersView)
    ensures
        method_words("item/commandExecution/requestApproval"@, payload, numbers) == bracketed(
            "command approval requested"@,
            command_in(payload),
        ),
        ({
            let files = signed_in(
                value_at(payload, "params.fileChangeCount|params.changeCount"@),
            );
            method_words("item/fileChange/requestApproval"@, payload, numbers) == bracketed(
                "file change approval requested"@,
                if files is Some && files->0 > 0 {
                    Some(signed_decimal(files->0 as int) + " files"@)
                } else {
                    None
                },
            )
        }),
        method_words("item/tool/requestUserInput"@, payload, numbers) == continued(
            "tool requires user input"@,
            on_one_line(text_at(payload, "params.question|params.prompt|question|prompt"@)),
        ),
        method_words("tool/requestUserInput"@, payload, numbers) == method_words(
            "item/tool/requestUserInput"@,
            payload,
            numbers,
        ),
        method_words("account/updated"@, payload, numbers) == "account updated"@ + " ("@ + ("auth "@
            + (match text_at(payload, "params.authMode|authMode"@) {
            Some(mode) => mode,
            None => "unknown"@,
        })) + ")"@,
        method_words("account/rateLimits/updated"@, payload, numbers) == "rate limits updated: "@ + (
        match value_at(payload, "params.rateLimits|rateLimits"@) {
            Some(limits) => limits_words(limits, numbers),
            None => "n/a"@,
        }),
        method_words("account/chatgptAuthTokens/refresh"@, payload, numbers)
            == "account auth token refresh requested"@,
        method_words("item/tool/call"@, payload, numbers) == bracketed(
            "dynamic tool call requested"@,
            tool_in(payload),
        ),
        method_words("item/started"@, payload, numbers) == item_words("started"@, payload),
        method_words("item/completed"@, payload, numbers) == item_words("completed"@, payload),
{
    lemma_message_marks();
}

/// How events of a session are told of.
pub proof fn law_events_are_told_in_words(
    message: Option<JsonView>,
    payload: Option<JsonView>,
    numbers: NumbersView,
)
    ensures
        named_event_words("session_started"@, message, payload, numbers) == Some(
            bracketed("session started"@, text_at(payload, "session_id|sessionId"@)),
        ),
        named_event_words("turn_input_required"@, message, payload, numbers) == Some(
            "turn blocked: waiting for user input"@,
        ),
        named_event_words("approval_auto_approved"@, message, payload, numbers) == Some(
            continued(
                match text_at(payload, "method"@) {
                    Some(method) => method_words(method, payload, numbers) + " (auto-approved)"@,
                    None => "approval request auto-approved"@,
                },
                on_one_line(text_at(message, "decision"@)),
            ),
        ),
        named_event_words("tool_input_auto_answered"@, message, payload, numbers) == Some(
            continued(
                method_words("item/tool/requestUserInput"@, payload, numbers)
                    + " (auto-answered)"@,
                on_one_line(text_at(message, "answer"@)),
            ),
        ),
        named_event_words("tool_call_completed"@, message, payload, numbers) == Some(
            tool_words("dynamic tool call completed"@, payload),
        ),
        named_event_words("tool_call_failed"@, message, payload, numbers) == Some(
            tool_words("dynamic tool call failed"@, payload),
        ),
        named_event_words("unsupported_tool_call"@, message, payload, numbers) == Some(
            tool_words("unsupported dynamic tool call rejected"@, payload),
        ),
        named_event_words("turn_ended_with_error"@, message, payload, numbers) == Some(
            "turn ended with error: "@ + reason_words(message, payload),
        ),
        named_event_words("startup_failed"@, message, payload, numbers) == Some(
            "startup failed: "@ + reason_words(message, payload),
        ),
        named_event_words("turn_failed"@, message, payload, numbers) == Some(
            method_words("turn/failed"@, payload, numbers),
        ),
        named_event_words("turn_cancelled"@, message, payload, numbers) == Some(
            "turn cancelled"@,
        ),
        named_event_words("malformed"@, message, payload, numbers) == Some(
            "malformed JSON event from codex"@,
        ),
{
    lemma_event_marks();
}

/// A tool is told of by its name and, where it has one, its action.
pub proof fn law_tools_are_told_by_name(base: Seq<char>, payload: Option<JsonView>)
    ensures
        tool_words(base, payload) == bracketed(
            base,
            match (tool_in(payload), action_in(payload)) {
                (Some(tool), Some(action)) => Some(tool + ":"@ + action),
                (Some(tool), None) => Some(tool),
                (None, _) => None,
            },
        ),
{
}

/// How wrapped events are told of.
pub proof fn law_wrapped_events_are_told_in_words(payload: Option<JsonView>)
    ensures
        wrapper_words("mcp_startup_complete"@, payload) == "mcp startup complete"@,
        wrapper_words("task_started"@, payload) == "task started"@,
        wrapper_words("user_message"@, payload) == "user message received"@,
        wrapper_words("item_started"@, payload) == bracketed("item started"@, wrapped_type(payload)),
        wrapper_words("item_completed"@, payload) == bracketed(
            "item completed"@,
            wrapped_type(payload),
        ),
        wrapper_words("agent_message_delta"@, payload) == continued(
            "agent message streaming"@,
            delta_in(payload),
        ),
        wrapper_words("agent_message_content_delta"@, payload) == continued(
            "agent message content streaming"@,
            delta_in(payload),
        ),
        wrapper_words("agent_reasoning"@, payload) == continued(
            "reasoning update"@,
            delta_in(payload),
        ),
        wrapper_words("agent_reasoning_delta"@, payload) == continued(
            "reasoning streaming"@,
            delta_in(payload),
        ),
        wrapper_words("reasoning_content_delta"@, payload) == continued(
            "reasoning content streaming"@,
            delta_in(payload),
        ),
        wrapper_words("agent_reasoning_section_break"@, payload) == "reasoning section break"@,
        wrapper_words("turn_diff"@, payload) == "turn diff updated"@,
        wrapper_words("exec_command_begin"@, payload) == (match command_in(payload) {
            Some(command) => command,
            None => "command started"@,
        }),
        wrapper_words("exec_command_end"@, payload) == bracketed(
            "command completed"@,
            match signed_in(
                value_at(payload, "params.msg.exit_code|params.msg.exitCode|exit_code|exitCode"@),
            ) {
                Some(code) => Some("exit "@ + signed_decimal(code as int)),
                None => None,
            },
        ),
        wrapper_words("exec_command_output_delta"@, payload) == "command output streaming"@,
        wrapper_words("mcp_tool_call_begin"@, payload) == "mcp tool call started"@,
        wrapper_words("mcp_tool_call_end"@, payload) == "mcp tool call completed"@,
        begins(wrapper_words("token_count"@, payload), "token count update"@),
{
    lemma_inner_marks();
    lemma_begins_itself("token count update"@);
}

/// What is said of an event is what its name calls for; where its name calls for nothing,
/// what its message says, or else its name. It is cut where it is long.
pub proof fn law_events_are_summed_up(
    event: Option<Seq<char>>,
    message: Option<Seq<char>>,
    json: Option<JsonView>,
    numbers: NumbersView,
)
    ensures
        ({
            let inner = match json {
                Some(json) => Some(unwrapped(json)),
                None => None,
            };
            let named = match event {
                Some(name) => named_event_words(name, json, inner, numbers),
                None => None,
            };
            summary_of(event, message, json, numbers) == match (named, inner, message, event) {
                (Some(words), _, _, _) => Some(cut_short(words, 140)),
                (None, Some(inner), _, _) => Some(cut_short(payload_words(inner, numbers), 140)),
                (None, None, Some(message), _) => Some(cut_short(inlined(message), 140)),
                (None, None, None, Some(name)) => Some(cut_short(replaced(name, '_', " "@), 140)),
                (None, None, None, None) => None,
            }
        }),
{
}

/// What a message says, by what it holds: a method, a session, an error, or itself.
pub proof fn law_messages_are_told_by_what_they_hold(payload: JsonView, numbers: NumbersView)
    ensures
        ({
            let method = text_at(Some(payload), "method"@);
            let session = text_at(Some(payload), "session_id|sessionId"@);
            &&& method is Some ==> payload_words(payload, numbers) == method_words(
                method->0,
                Some(payload),
                numbers,
            )
            &&& method is None && session is Some ==> payload_words(payload, numbers)
                == "session started"@ + " ("@ + session->0 + ")"@
            &&& method is None && session is None && payload.get("error"@) is Some
                ==> payload_words(payload, numbers) == "error: "@ + error_words(
                payload.get("error"@)->0,
            )
        }),
        unwrapped(payload) == payload || payload.get("payload"@) == Some(unwrapped(payload)),
        payload.get("method"@) is Some ==> unwrapped(payload) == payload,
        payload.get("session_id"@) is Some ==> unwrapped(payload) == payload,
        payload.get("reason"@) is Some ==> unwrapped(payload) == payload,
        payload.get("payload"@) is Some && payload.get("method"@) is None && payload.get(
            "session_id"@,
        ) is None && payload.get("reason"@) is None ==> payload.get("payload"@) == Some(
            unwrapped(payload),
        ),
{
}

/// How full a bucket of a rate limit is, and when it is empty again.
pub proof fn law_buckets_are_told(
    bucket: JsonView,
    used_percent: Option<Seq<char>>,
)
    ensures
        ({
            let remaining = unsigned_in(value_at(Some(bucket), "remaining"@));
            let limit = unsigned_in(value_at(Some(bucket), "limit"@));
            let reset = unsigned_in(value_at(Some(bucket), "resetInSeconds|reset_in_seconds"@));
            let how_full = match (used_percent, remaining, limit) {
                (Some(percent), _, _) => Some(percent + "% used"@),
                (None, Some(remaining), Some(limit)) => Some(
                    decimal(remaining as nat) + "/"@ + decimal(limit as nat) + " remaining"@,
                ),
                _ => None,
            };
            bucket_words(Some(bucket), used_percent) == match (how_full, reset) {
                (Some(words), Some(seconds)) => Some(
                    words + ", reset "@ + decimal(seconds as nat) + "s"@,
                ),
                (words, _) => words,
            }
        }),
        bucket_words(None, used_percent) is None,
{
}

/// What is told of credits: that they have no end, how many there are, or that there are
/// none.
pub proof fn law_credits_are_told(credits: Option<JsonView>, balance: Option<Seq<char>>)
    ensures
        ({
            let unlimited = value_at(credits, "unlimited"@);
            let has = value_at(credits, "has_credits"@);
            credits_words(credits, balance) == match (unlimited, has, balance) {
                (Some(JsonView::Bool(true)), _, _) => Some("credits unlimited"@),
                (_, Some(JsonView::Bool(true)), Some(balance)) => Some("credits "@ + balance),
                (_, Some(JsonView::Bool(false)), _) => Some("credits exhausted"@),
                _ => None,
            }
        }),
{
}

} // verus!
