//! The decisions of the REST endpoints: which module a request names, what
//! is sent to it, and what the caller is answered.

use vstd::prelude::*;
use crate::protocol::{Command, Message, ReplyOutcome, Response};
use crate::text::{concat2, concat3, owned};

verus! {

/// The body of a command request: the action and its payload.
#[derive(Debug)]
pub struct CommandPayload {
    pub action: String,
    pub payload: serde_json::Value,
}

/// A failed request: the HTTP status and the text of the error.
#[derive(Debug)]
pub struct RestError {
    pub status: u16,
    pub message: String,
}

/// The answer when no module carries the name `name`: 404.
pub fn module_not_found(name: &str) -> (res: RestError)
    ensures
        res.status == 404,
        res.message@ == "Module '"@ + name@ + "' not found"@,
{
    RestError { status: 404, message: concat3("Module '", name, "' not found") }
}

/// The answer when the module `name` has no IPC connection: 502.
pub fn module_not_connected(name: &str) -> (res: RestError)
    ensures
        res.status == 502,
        res.message@ == "Module '"@ + name@ + "' is not connected or not running"@,
{
    RestError { status: 502, message: concat3("Module '", name, "' is not connected or not running") }
}

/// The answer when the command could not be handed to the module's
/// connection, for the reason `why`: 500.
pub fn command_not_sent(why: &str) -> (res: RestError)
    ensures
        res.status == 500,
        res.message@ == "Failed to send IPC message to module: "@ + why@,
{
    RestError { status: 500, message: concat2("Failed to send IPC message to module: ", why) }
}

/// The command that a request with this body becomes under `request_id`.
pub fn command_for(request_id: String, body: CommandPayload) -> (res: Message)
    ensures
        res == Message::Command(Command { id: request_id, action: body.action, payload: body.payload }),
{
    Message::Command(Command { id: request_id, action: body.action, payload: body.payload })
}

/// The answer to a command request once the wait for the module is over:
/// the module's response, 502 when its connection closed first, 504 when it
/// did not answer in time.
pub fn command_result(outcome: ReplyOutcome) -> (res: Result<Response, RestError>)
    ensures
        match outcome {
            ReplyOutcome::Answered(r) => res == Ok::<Response, RestError>(r),
            ReplyOutcome::Closed => res matches Err(e) && e.status == 502
                && e.message@ == "Connection to module closed before response was received"@,
            ReplyOutcome::TimedOut => res matches Err(e) && e.status == 504
                && e.message@ == "Module did not respond within the timeout period"@,
        },
{
    match outcome {
        ReplyOutcome::Answered(r) => Ok(r),
        ReplyOutcome::Closed => Err(RestError {
            status: 502,
            message: owned("Connection to module closed before response was received"),
        }),
        ReplyOutcome::TimedOut => Err(RestError {
            status: 504,
            message: owned("Module did not respond within the timeout period"),
        }),
    }
}

} // verus!
