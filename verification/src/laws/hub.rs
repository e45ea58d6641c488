//! What is asked of the code host, how often, and when a task counts as merged.
use vstd::prelude::*;

use crate::github::{
    after_api, after_gh, auth_token, base_url, closable, close_content, close_link, closed_reply,
    default_delay, doublings, env_token, error_line, error_parts, gh_payload, is_transient,
    next_step, pull_path, request_body, request_of, response_summary, status_delay, status_message,
    task_with, tells_merge, transport_delay, without_slashes, GhTokenReply, GhViewReply,
    GithubReply, GithubStepView, MergeStepView,
};
use crate::issue::IssueView;
use crate::json::{compact_of, parsed, parsed_bytes, JsonView, NumberView};
use crate::table::lookup;
use crate::text::{decimal, lowered, raised, trimmed, unsigned_value};
use crate::tracker::TrackerErrorView;

verus! {

broadcast use vstd::seq::group_seq_axioms;

/// A text that is not blank, without the blanks around it.
pub open spec fn told_text(json: Option<JsonView>) -> Option<Seq<char>> {
    match json {
        Some(JsonView::Text(text)) => if trimmed(text).len() > 0 {
            Some(trimmed(text))
        } else {
            None
        },
        _ => None,
    }
}

/// Whether an error has this message and, where one is given, this reason.
pub open spec fn says(error: JsonView, message: Seq<char>, reason: Option<Seq<char>>) -> bool {
    error == match reason {
        None => JsonView::Object(
            seq![("error"@, JsonView::Object(seq![("message"@, JsonView::Text(message))]))],
        ),
        Some(reason) => JsonView::Object(
            seq![
                (
                    "error"@,
                    JsonView::Object(
                        seq![
                            ("message"@, JsonView::Text(message)),
                            ("reason"@, JsonView::Text(reason)),
                        ],
                    ),
                ),
            ],
        ),
    }
}

/// A request is sent with the method that is named, in capitals, to the path that is named,
/// from the root, with the body that is given. It is refused without a method or a path.
pub proof fn law_requests_are_sent_as_given(arguments: JsonView)
    ensures
        match arguments {
            JsonView::Object(entries) => match (
                told_text(lookup(entries, "method"@)),
                told_text(lookup(entries, "path"@)),
            ) {
                (None, _) => request_of(arguments) matches Err(error) && says(
                    error,
                    "`github_api.method` is required."@,
                    None,
                ),
                (Some(method), path) => if crate::github::is_method(raised(method)) {
                    match path {
                        None => request_of(arguments) matches Err(error) && says(
                            error,
                            "`github_api.path` is required."@,
                            None,
                        ),
                        Some(path) => request_of(arguments) matches Ok((named, to, body)) && named
                            == raised(method) && to == (if path[0] == '/' {
                            path
                        } else {
                            "/"@ + path
                        }) && body == request_body(lookup(entries, "body"@)),
                    }
                } else {
                    request_of(arguments) matches Err(error) && says(
                        error,
                        "`github_api.method` must be a valid HTTP method."@,
                        Some("invalid HTTP method"@),
                    )
                },
            },
            _ => request_of(arguments) matches Err(error) && says(
                error,
                "`github_api` expects an object with `method`, `path`, and optional `body`."@,
                None,
            ),
        },
{
    reveal_strlit("/");
    assert("/"@.len() == 1);
    match arguments {
        JsonView::Object(entries) => match told_text(lookup(entries, "path"@)) {
            Some(path) => {
                assert(crate::text::begins(path, "/"@) <==> path[0] == '/') by {
                    if path[0] == '/' {
                        assert(path.take(1) =~= "/"@);
                        assert(path.subrange(0, 1) =~= "/"@);
                    }
                    if crate::text::begins(path, "/"@) {
                        assert("/"@[0] == '/');
                        assert(path[0] == path.take(1)[0]);
                    }
                }
            },
            None => {},
        },
        _ => {},
    }
}

/// A body is sent as it is given; a text that is itself JSON is sent as what it stands
/// for, and a blank one not at all.
pub proof fn law_bodies_are_sent_as_given(given: JsonView)
    ensures
        request_body(None) is None,
        match given {
            JsonView::Null => request_body(Some(given)) is None,
            JsonView::Text(raw) => if trimmed(raw).len() == 0 {
                request_body(Some(given)) is None
            } else {
                match parsed(trimmed(raw)) {
                    Ok(json) => request_body(Some(given)) == Some(json),
                    Err(_) => request_body(Some(given)) == Some(given),
                }
            },
            _ => request_body(Some(given)) == Some(given),
        },
{
}

/// The time before a request is sent again doubles from two seconds with every attempt, up
/// to a minute.
pub proof fn law_delays_double(attempt: nat)
    ensures
        default_delay(attempt) <= 60,
        attempt == 0 ==> default_delay(attempt) == 2,
        default_delay(attempt + 1) == if 2 * default_delay(attempt) < 60 {
            2 * default_delay(attempt)
        } else {
            60
        },
{
    reveal_with_fuel(doublings, 7);
    if attempt < 5 {
        assert(doublings(attempt + 1) == 2 * doublings(attempt));
    }
    assert(doublings(0) == 1);
    assert(doublings(1) == 2);
    assert(doublings(2) == 4);
    assert(doublings(3) == 8);
    assert(doublings(4) == 16);
    assert(doublings(5) == 32);
}

/// A request is sent again after a failure on the way or a passing trouble of the host,
/// twice at most, and only while all its waits stay within three minutes. The host may say
/// how long to wait, up to a minute.
pub proof fn law_passing_trouble_is_waited_out(
    status: u16,
    retry_after: Option<u64>,
    attempt: nat,
    waited: nat,
)
    ensures
        is_transient(status) <==> status == 408 || status == 425 || status == 429 || status == 500
            || status == 502 || status == 503 || status == 504,
        transport_delay(attempt, waited) == if attempt < 2 && waited + default_delay(attempt)
            <= 180 {
            Some(default_delay(attempt))
        } else {
            None
        },
        ({
            let asked = match retry_after {
                Some(seconds) => seconds as nat,
                None => default_delay(attempt),
            };
            let wait = if asked < 60 {
                asked
            } else {
                60
            };
            status_delay(status, retry_after, attempt, waited) == if is_transient(status) && attempt
                < 2 && waited + wait <= 180 {
                Some(
                    if wait == 0 {
                        1nat
                    } else {
                        wait
                    },
                )
            } else {
                None
            }
        }),
{
}

/// A request that failed on the way is tried again or given up with the reason; one whose
/// reply could not be read is given up.
pub proof fn law_lost_requests_are_reported(
    method: Seq<char>,
    path: Seq<char>,
    attempt: nat,
    waited: nat,
    reason: String,
)
    ensures
        match next_step(method, path, attempt, waited, GithubReply::SendFailed(reason)) {
            GithubStepView::Retry { delay_secs, attempt: next, waited_secs } => transport_delay(
                attempt,
                waited,
            ) == Some(delay_secs) && next == attempt + 1 && waited_secs == waited + delay_secs,
            GithubStepView::Done(Err(error)) => transport_delay(attempt, waited) is None
                && is_request_failure(
                error,
                "GitHub API request failed before receiving a response."@,
                reason@,
                method,
                path,
            ),
            GithubStepView::Done(Ok(_)) => false,
        },
        match next_step(method, path, attempt, waited, GithubReply::BodyFailed(reason)) {
            GithubStepView::Done(Err(error)) => is_request_failure(
                error,
                "GitHub API response body could not be read."@,
                reason@,
                method,
                path,
            ),
            _ => false,
        },
{
}

/// Whether an error names a request and says why it failed.
pub open spec fn is_request_failure(
    error: JsonView,
    message: Seq<char>,
    reason: Seq<char>,
    method: Seq<char>,
    path: Seq<char>,
) -> bool {
    error == JsonView::Object(
        seq![
            (
                "error"@,
                JsonView::Object(
                    seq![
                        ("message"@, JsonView::Text(message)),
                        ("method"@, JsonView::Text(method)),
                        ("path"@, JsonView::Text(path)),
                        ("reason"@, JsonView::Text(reason)),
                    ],
                ),
            ),
        ],
    )
}

/// What a body holds: the JSON that it is, or the text that it is where it is none.
pub open spec fn is_body(json: JsonView, body: Seq<char>) -> bool {
    if trimmed(body).len() == 0 {
        json == JsonView::Object(Seq::empty())
    } else {
        json == match parsed(body) {
            Ok(json) => json,
            Err(_) => JsonView::Object(seq![("raw"@, JsonView::Text(body))]),
        }
    }
}

/// An answer of the host counts as a success exactly where its status is from 200 to 299,
/// and then gives what the body holds. Any other is tried again where that may help, or is
/// reported with the request, the status and what the host said.
pub proof fn law_answers_are_taken_by_status(
    method: Seq<char>,
    path: Seq<char>,
    attempt: nat,
    waited: nat,
    status: u16,
    retry_after: Option<String>,
    body: String,
)
    ensures
        ({
            let reply = GithubReply::Answered { status, retry_after, body };
            let delay = status_delay(
                status,
                match retry_after {
                    Some(text) => unsigned_value(text@),
                    None => None,
                },
                attempt,
                waited,
            );
            match next_step(method, path, attempt, waited, reply) {
                GithubStepView::Done(Ok(json)) => {
                    &&& 200 <= status <= 299
                    &&& trimmed(body@).len() > 0 ==> is_body(json, body@)
                    &&& trimmed(body@).len() == 0 ==> json == JsonView::Object(
                        seq![("status"@, JsonView::Number(NumberView::Unsigned(status as u64)))],
                    )
                },
                GithubStepView::Retry { delay_secs, attempt: next, waited_secs } => {
                    &&& !(200 <= status <= 299)
                    &&& delay == Some(delay_secs)
                    &&& next == attempt + 1
                    &&& waited_secs == waited + delay_secs
                },
                GithubStepView::Done(Err(error)) => {
                    &&& !(200 <= status <= 299)
                    &&& delay is None
                    &&& error matches JsonView::Object(outer) && outer.len() == 1 && outer[0].0
                        == "error"@ && (outer[0].1 matches JsonView::Object(told) && told.len() == 6
                        && told[0] == (
                        "message"@,
                        JsonView::Text(status_message(status, response_summary(told[3].1))),
                    ) && told[1] == ("method"@, JsonView::Text(method)) && told[2] == (
                        "path"@,
                        JsonView::Text(path),
                    ) && told[3].0 == "response"@ && is_body(told[3].1, body@) && told[4] == (
                        "response_summary"@,
                        match response_summary(told[3].1) {
                            Some(summary) => JsonView::Text(summary),
                            None => JsonView::Null,
                        },
                    ) && told[5] == (
                        "status"@,
                        JsonView::Number(NumberView::Unsigned(status as u64)),
                    ))
                },
            }
        }),
{
}

/// A refused request is reported with its status and, where the host said something, with
/// what it said.
pub proof fn law_refusals_are_worded(status: u16, summary: Option<Seq<char>>)
    ensures
        status_message(status, summary) == (match summary {
            Some(text) if text.len() > 0 => "GitHub API request failed with HTTP "@ + decimal(
                status as nat,
            ) + ": "@ + text,
            _ => "GitHub API request failed with HTTP "@ + decimal(status as nat) + "."@,
        }),
{
}

/// Of several errors in a reply the first two are told and the others counted.
pub proof fn law_many_errors_are_counted(errors: Seq<JsonView>)
    ensures
        errors.len() > 2 ==> error_parts(Some(errors)).len() > 0 && error_parts(Some(errors)).last()
            == decimal((errors.len() - 2) as nat) + " more error(s)"@,
        errors.len() <= 2 ==> error_parts(Some(errors)).len() <= errors.len(),
        errors.len() == 0 ==> error_parts(Some(errors)).len() == 0,
        error_parts(None).len() == 0,
{
}

/// A request counts as merged exactly where the host names a time of merging. The word of
/// the host decides; only where it could not be asked is the command line asked instead,
/// and its word decides.
pub proof fn law_merges_are_taken_on_word(
    payload: JsonView,
    api_error: JsonView,
    reply: GhViewReply,
)
    ensures
        tells_merge(payload) <==> match (payload.get("merged_at"@), payload.get("mergedAt"@)) {
            (Some(at), _) => at != JsonView::Null,
            (None, Some(at)) => at != JsonView::Null,
            (None, None) => false,
        },
        after_api(Ok::<JsonView, JsonView>(payload)) == MergeStepView::Done(
            if tells_merge(payload) {
                Ok(())
            } else {
                Err(TrackerErrorView::TrackerOperationUnsupported(unmerged_text(payload)))
            },
        ),
        after_api(Err::<JsonView, JsonView>(api_error)) == MergeStepView::AskGh(api_error),
        after_gh(api_error, reply) == match gh_payload(reply) {
            Ok(seen) => if tells_merge(seen) {
                Ok(())
            } else {
                Err(
                    TrackerErrorView::TrackerOperationUnsupported(
                        unverified_text(api_error, unmerged_text(seen)),
                    ),
                )
            },
            Err(reason) => Err(
                TrackerErrorView::TrackerOperationUnsupported(unverified_text(api_error, reason)),
            ),
        },
{
}

/// What is said of a request that is not merged: its state, or that it is open.
pub open spec fn unmerged_text(payload: JsonView) -> Seq<char> {
    "`close_task` requires the linked PR to be merged. Current PR state is `"@ + (
    match payload.get("state"@) {
        Some(JsonView::Text(state)) => state,
        _ => "OPEN"@,
    }) + "`."@
}

/// What is said where neither the host nor the command line could tell of a merge.
pub open spec fn unverified_text(api_error: JsonView, reason: Seq<char>) -> Seq<char> {
    "`close_task` could not verify GitHub PR merge status via runtime API ("@ + error_line(
        api_error,
    ) + ") or `gh pr view` ("@ + reason + ")"@
}

/// What the command line says of a request: what it printed, or why it printed nothing.
pub proof fn law_the_command_line_is_read(reason: String, status: String, stdout: Vec<u8>)
    ensures
        gh_payload(GhViewReply::NotRun(reason)) == Err::<JsonView, Seq<char>>(
            "could not run `gh pr view`: "@ + reason@,
        ),
        gh_payload(GhViewReply::Failed { status, stderr: reason }) == Err::<JsonView, Seq<char>>(
            if trimmed(reason@).len() == 0 {
                "exit status "@ + status@
            } else {
                trimmed(reason@)
            },
        ),
        gh_payload(GhViewReply::Printed(stdout)) == match parsed_bytes(stdout@) {
            Ok(json) => Ok(json),
            Err(why) => Err("could not parse `gh pr view` output: "@ + why),
        },
{
}

/// How an error of the host is told in one line.
pub proof fn law_errors_of_the_host_are_told(error: JsonView)
    ensures
        error_line(error) == match error.get("error"@) {
            None => compact_of(error),
            Some(details) => {
                let message = match details.get("message"@) {
                    Some(JsonView::Text(message)) => message,
                    _ => "unknown GitHub API error"@,
                };
                match details.get("reason"@) {
                    Some(JsonView::Text(reason)) if reason.len() > 0 => message + ": "@ + reason,
                    _ => message,
                }
            },
        },
{
}

proof fn lemma_task_with(issues: Seq<IssueView>, id: Seq<char>)
    ensures
        match task_with(issues, id) {
            Some(issue) => exists|i: int|
                0 <= i < issues.len() && #[trigger] issues[i] == issue && issue.id == id && forall|
                    j: int,
                |
                    0 <= j < i ==> (#[trigger] issues[j]).id != id,
            None => forall|i: int| 0 <= i < issues.len() ==> (#[trigger] issues[i]).id != id,
        },
    decreases issues.len(),
{
    if issues.len() > 0 && issues[0].id != id {
        let rest = issues.skip(1);
        lemma_task_with(rest, id);
        assert(forall|i: int| 1 <= i < issues.len() ==> #[trigger] issues[i] == rest[i - 1]);
        match task_with(rest, id) {
            Some(issue) => {
                let i = choose|i: int|
                    0 <= i < rest.len() && #[trigger] rest[i] == issue && issue.id == id && forall|
                        j: int,
                    |
                        0 <= j < i ==> (#[trigger] rest[j]).id != id;
                assert(issues[i + 1] == issue);
                assert forall|j: int| 0 <= j < i + 1 implies (#[trigger] issues[j]).id != id by {
                    if j > 0 {
                        assert(rest[j - 1] == issues[j]);
                    }
                }
            },
            None => {},
        }
    }
}

/// A task may be closed exactly where the tracker returns it in the state of merging,
/// however that is written. Otherwise it is said that it could not be loaded, or in which
/// state it is.
pub proof fn law_tasks_are_closed_while_merging(
    issues: Seq<IssueView>,
    task_id: Seq<char>,
    i: int,
)
    requires
        0 <= i <= issues.len(),
        forall|j: int| 0 <= j < i ==> (#[trigger] issues[j]).id != task_id,
        i < issues.len() ==> issues[i].id == task_id,
    ensures
        closable(issues, task_id) == if i == issues.len() {
            Err(
                TrackerErrorView::TrackerOperationUnsupported(
                    "`close_task` could not load Todoist task `"@ + task_id + "`"@,
                ),
            )
        } else if lowered(trimmed(issues[i].state)) == "merging"@ {
            Ok(issues[i].state)
        } else {
            Err(
                TrackerErrorView::TrackerOperationUnsupported(
                    "`close_task` is only allowed from `Merging`. Current state is `"@
                        + issues[i].state + "`."@,
                ),
            )
        },
{
    lemma_task_with(issues, task_id);
    if let Some(found) = task_with(issues, task_id) {
        let k = choose|k: int|
            0 <= k < issues.len() && #[trigger] issues[k] == found && found.id == task_id && forall|
                j: int,
            |
                0 <= j < k ==> (#[trigger] issues[j]).id != task_id;
        if k < i {
            assert(issues[k].id != task_id);
        } else if i < k {
            assert(issues[i].id != task_id);
        }
    } else if i < issues.len() {
        assert(issues[i].id != task_id);
    }
}

/// A task is closed only with a workpad that can be read and that links a request, and
/// the merge of exactly that request is asked for.
pub proof fn law_closing_needs_a_linked_request(
    comment: JsonView,
    owner: Seq<char>,
    repo: Seq<char>,
    number: Seq<char>,
    pr_url: Seq<char>,
)
    ensures
        close_content(None) == Err::<Seq<char>, TrackerErrorView>(
            TrackerErrorView::TrackerOperationUnsupported(
                "`close_task` requires the persistent task workpad comment."@,
            ),
        ),
        close_link(Some(pr_url)) == Ok::<Seq<char>, TrackerErrorView>(pr_url),
        close_link(None) == Err::<Seq<char>, TrackerErrorView>(
            TrackerErrorView::TrackerOperationUnsupported(
                "`close_task` requires a linked GitHub PR URL in the workpad comment."@,
            ),
        ),
        pull_path(Some((owner, repo, number)), pr_url) == Ok::<Seq<char>, TrackerErrorView>(
            "/repos/"@ + owner + "/"@ + repo + "/pulls/"@ + number,
        ),
        pull_path(None, pr_url) == Err::<Seq<char>, TrackerErrorView>(
            TrackerErrorView::TrackerOperationUnsupported(
                "`close_task` requires a valid GitHub PR URL in the workpad comment: "@ + pr_url,
            ),
        ),
{
}

/// The reply to a closed task names the task, the request that was merged and the state
/// that the task was in.
pub proof fn law_closing_is_reported(task_id: Seq<char>, pr_url: Seq<char>, state: Seq<char>)
    ensures
        closed_reply(task_id, pr_url, state) == JsonView::Object(
            seq![
                ("closed"@, JsonView::Bool(true)),
                ("pr_url"@, JsonView::Text(pr_url)),
                ("state"@, JsonView::Text(state)),
                ("task_id"@, JsonView::Text(task_id)),
            ],
        ),
{
}

/// Which token authorises requests: the one of the command line's own variable before the
/// general one, and otherwise what the command line prints.
pub proof fn law_tokens_are_found(gh: Option<Seq<char>>, github: Option<Seq<char>>, reply: GhTokenReply)
    ensures
        env_token(gh, github) == match (gh, github) {
            (Some(token), _) => if trimmed(token).len() > 0 {
                Some(trimmed(token))
            } else {
                None
            },
            (None, Some(token)) => if trimmed(token).len() > 0 {
                Some(trimmed(token))
            } else {
                None
            },
            (None, None) => None,
        },
        match (reply, auth_token(reply)) {
            (GhTokenReply::Printed(stdout), Ok(token)) => token == trimmed(stdout@) && token.len()
                > 0,
            (GhTokenReply::Printed(stdout), Err(error)) => trimmed(stdout@).len() == 0 && says(
                error,
                "GitHub API tool received an empty auth token."@,
                None,
            ),
            (GhTokenReply::NotRun(reason), Err(error)) => says(
                error,
                "GitHub API tool is unavailable because no auth token could be found."@,
                Some(reason@),
            ),
            (GhTokenReply::Failed(stderr), Err(error)) => says(
                error,
                "GitHub API tool could not retrieve a host auth token from `gh auth token`."@,
                Some(trimmed(stderr@)),
            ),
            _ => false,
        },
{
}

proof fn lemma_without_slashes(s: Seq<char>)
    ensures
        without_slashes(s).len() <= s.len(),
        without_slashes(s) == s.take(without_slashes(s).len() as int),
        without_slashes(s).len() > 0 ==> without_slashes(s).last() != '/',
        forall|i: int| without_slashes(s).len() <= i < s.len() ==> s[i] == '/',
    decreases s.len(),
{
    if s.len() > 0 && s.last() == '/' {
        let front = s.drop_last();
        lemma_without_slashes(front);
        let n = without_slashes(s).len() as int;
        assert(front.take(n) =~= s.take(n));
        assert forall|i: int| n <= i < s.len() implies s[i] == '/' by {
            if i < front.len() {
                assert(front[i] == s[i]);
            }
        }
    } else {
        assert(s.take(s.len() as int) =~= s);
    }
}

/// Requests go to the address that is configured, without the slashes at its end, or else
/// to the public one.
pub proof fn law_requests_go_to_the_configured_host(configured: Seq<char>)
    ensures
        base_url(None) == "https://api.github.com"@,
        base_url(Some(configured)) == "https://api.github.com"@ || ({
            let url = base_url(Some(configured));
            let whole = trimmed(configured);
            &&& url.len() <= whole.len()
            &&& url == whole.take(url.len() as int)
            &&& url.len() > 0 && url.last() != '/'
            &&& forall|i: int| url.len() <= i < whole.len() ==> whole[i] == '/'
        }),
        base_url(Some(configured)) == "https://api.github.com"@ && trimmed(configured).len() > 0
            && trimmed(configured)[0] != '/' ==> without_slashes(trimmed(configured))
            == "https://api.github.com"@,
{
    lemma_without_slashes(trimmed(configured));
}

} // verus!
