//! What is answered over HTTP.
use vstd::prelude::*;
use vstd::string::*;

use crate::json::{Json, JsonView};
use crate::observability::{SnapshotStatus, StatePayload, StatePayloadView};
use crate::orchestrator::{OrchestratorHandleError, RefreshResponse};
use crate::snapshot::IssueDetail;
use crate::text::{concat3, decimal, decimal_text};

verus! {

broadcast use {vstd::seq::group_seq_axioms, vstd::string::group_string_axioms};

/// Where the page is found.
pub const DASHBOARD_ROUTE: &'static str = "/";

/// Where the state is found.
pub const STATE_ROUTE: &'static str = "/api/v1/state";

/// Where changes of the state are streamed.
pub const STREAM_ROUTE: &'static str = "/api/v1/stream";

/// Where one task is found.
pub const ISSUE_ROUTE: &'static str = "/api/v1/{identifier}";

/// Where a poll can be asked for.
pub const REFRESH_ROUTE: &'static str = "/api/v1/refresh";

pub const STATUS_OK: u16 = 200;

pub const STATUS_ACCEPTED: u16 = 202;

pub const STATUS_NOT_FOUND: u16 = 404;

pub const STATUS_METHOD_NOT_ALLOWED: u16 = 405;

pub const STATUS_SERVICE_UNAVAILABLE: u16 = 503;

/// An answer: its status and its body.
#[derive(Debug)]
pub struct Reply {
    pub status: u16,
    pub body: Json,
}

/// An answer: its status and its body.
pub struct ReplyView {
    pub status: u16,
    pub body: JsonView,
}

impl View for Reply {
    type V = ReplyView;

    open spec fn view(&self) -> ReplyView {
        ReplyView { status: self.status, body: self.body@ }
    }
}

/// An answer that says what is wrong.
pub open spec fn refusal(status: u16, code: Seq<char>, message: Seq<char>) -> ReplyView {
    ReplyView {
        status,
        body: JsonView::Object(
            seq![
                (
                    "error"@,
                    JsonView::Object(
                        seq![
                            ("code"@, JsonView::Text(code)),
                            ("message"@, JsonView::Text(message)),
                        ],
                    ),
                ),
            ],
        ),
    }
}

fn refuse(status: u16, code: &str, message: &str) -> (r: Reply)
    ensures
        r@ == refusal(status, code@, message@),
{
    let error: Json = Json::object2("code", Json::text(code), "message", Json::text(message));
    Reply { status, body: Json::object1("error", error) }
}

/// The answer to a request with a method that is not known there.
pub fn api_method_not_allowed() -> (r: Reply)
    ensures
        r@ == refusal(405, "method_not_allowed"@, "Method not allowed"@),
{
    refuse(STATUS_METHOD_NOT_ALLOWED, "method_not_allowed", "Method not allowed")
}

/// The answer to a request for what does not exist.
pub fn api_not_found() -> (r: Reply)
    ensures
        r@ == refusal(404, "not_found"@, "Route not found"@),
{
    refuse(STATUS_NOT_FOUND, "not_found", "Route not found")
}

/// What is answered to a request for one task: what is known of it, or why not.
pub fn api_issue(outcome: Result<Option<IssueDetail>, OrchestratorHandleError>) -> (r: Result<
    IssueDetail,
    Reply,
>)
    ensures
        match outcome {
            Ok(Some(detail)) => r == Ok::<IssueDetail, Reply>(detail),
            Ok(None) => (r matches Err(reply) && reply@ == refusal(
                404,
                "issue_not_found"@,
                "issue not found"@,
            )),
            Err(_) => (r matches Err(reply) && reply@ == refusal(
                503,
                "issue_unavailable"@,
                "issue detail unavailable"@,
            )),
        },
{
    match outcome {
        Ok(Some(detail)) => Ok(detail),
        Ok(None) => Err(refuse(STATUS_NOT_FOUND, "issue_not_found", "issue not found")),
        Err(_) => Err(
            refuse(STATUS_SERVICE_UNAVAILABLE, "issue_unavailable", "issue detail unavailable"),
        ),
    }
}

/// What is answered to a request for a poll: that it will be made, or why not.
pub fn api_refresh(outcome: Result<RefreshResponse, OrchestratorHandleError>) -> (r: Result<
    (u16, RefreshResponse),
    Reply,
>)
    ensures
        match outcome {
            Ok(response) => r == Ok::<(u16, RefreshResponse), Reply>((202, response)),
            Err(_) => (r matches Err(reply) && reply@ == refusal(
                503,
                "refresh_unavailable"@,
                "refresh unavailable"@,
            )),
        },
{
    match outcome {
        Ok(response) => Ok((STATUS_ACCEPTED, response)),
        Err(_) => Err(
            refuse(STATUS_SERVICE_UNAVAILABLE, "refresh_unavailable", "refresh unavailable"),
        ),
    }
}

/// The status of an answer that holds the state: an older state is still an answer.
pub open spec fn payload_status(payload: StatePayloadView) -> u16 {
    if payload.snapshot_status == SnapshotStatus::Unavailable {
        503
    } else {
        200
    }
}

/// The status of an answer that holds the state.
pub fn state_payload_status(payload: &StatePayload) -> (r: u16)
    ensures
        r == payload_status(payload@),
{
    if payload.snapshot_status == SnapshotStatus::Unavailable {
        STATUS_SERVICE_UNAVAILABLE
    } else {
        STATUS_OK
    }
}

/// Where the server takes calls.
pub fn bind_address(host: &str, port: u16) -> (r: String)
    ensures
        r@ == host@ + ":"@ + decimal(port as nat),
{
    let port: String = decimal_text(port as u64);
    concat3(host, ":", port.as_str())
}

} // verus!
