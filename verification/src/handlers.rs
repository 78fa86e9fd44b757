//! The replies of the service's two endpoints, as values: the transport
//! around the library turns them into HTTP responses and log lines.

use crate::json::{json_model, null_value, text_value, JsonModel};
use crate::payload::{username_of, validate_payload};
use vstd::prelude::*;

verus! {

/// The status of a reply to a request to create a user.
#[derive(Clone, Copy, Debug, PartialEq, Eq, Structural)]
pub enum Status {
    /// The user was created.
    Created,
    /// The payload was not a well-formed request.
    BadRequest,
}

impl Status {
    /// The HTTP status code that stands for this status.
    pub open spec fn number(self) -> int {
        match self {
            Status::Created => 201,
            Status::BadRequest => 400,
        }
    }

    /// The HTTP status code that stands for this status.
    pub fn code(self) -> (code: u16)
        ensures
            code == self.number(),
    {
        match self {
            Status::Created => 201,
            Status::BadRequest => 400,
        }
    }
}

/// The reply to a request to create a user: the status, the JSON body, and
/// the line to write to the log, if the request calls for one.
pub struct Reply<'a> {
    pub status: Status,
    pub body: serde_json::Value,
    pub log_line: Option<&'a str>,
}

/// The text that the root endpoint answers with.
pub open spec fn greeting() -> Seq<char> {
    "Hello, World!"@
}

/// Answers a request to the root endpoint: always the same greeting.
pub fn root() -> (text: &'static str)
    ensures
        text@ == greeting(),
{
    "Hello, World!"
}

/// What the reply to `payload` must be.  A payload that carries a user name is
/// answered with `Created`, the name as a JSON string, and the name as the log
/// line; any other with `BadRequest`, a JSON null, and no log line.
pub open spec fn replies_to(payload: JsonModel, reply: Reply) -> bool {
    match username_of(payload) {
        Some(name) => {
            &&& reply.status == Status::Created
            &&& json_model(reply.body) == JsonModel::Text(name)
            &&& reply.log_line matches Some(line) && line@ == name
        },
        None => {
            &&& reply.status == Status::BadRequest
            &&& json_model(reply.body) == JsonModel::Null
            &&& reply.log_line is None
        },
    }
}

/// Answers a request to create a user whose body was parsed to `payload`.
pub fn create_user<'a>(payload: &'a serde_json::Value) -> (reply: Reply<'a>)
    ensures
        replies_to(json_model(*payload), reply),
{
    let result = validate_payload(payload);
    if result.is_none() {
        return Reply { status: Status::BadRequest, body: null_value(), log_line: None };
    }
    let payload = result.unwrap();
    Reply {
        status: Status::Created,
        body: text_value(payload.username),
        log_line: Some(payload.username),
    }
}

} // verus!
