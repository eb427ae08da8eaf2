//! The messages that the host and its modules exchange over IPC.

use vstd::prelude::*;
use crate::module::{UiComponent, UiComponentView, strings_view, components_view};

verus! {

#[verifier::external_type_specification]
#[verifier::external_body]
pub struct ExJsonValue(serde_json::Value);

/// `serde_json::Value::clone`, which serde_json derives: the copy is the same
/// JSON value.
pub assume_specification[<serde_json::Value as Clone>::clone](v: &serde_json::Value) -> (res: serde_json::Value)
    ensures
        res == *v,
;

/// A module announces itself: its name, version and what it offers.
#[derive(Debug, Clone)]
pub struct RegisterRequest {
    pub name: String,
    pub version: String,
    pub capabilities: Vec<String>,
    pub ui_components: Vec<UiComponent>,
}

pub struct RegisterRequestView {
    pub name: Seq<char>,
    pub version: Seq<char>,
    pub capabilities: Seq<Seq<char>>,
    pub ui_components: Seq<UiComponentView>,
}

impl View for RegisterRequest {
    type V = RegisterRequestView;

    open spec fn view(&self) -> RegisterRequestView {
        RegisterRequestView {
            name: self.name@,
            version: self.version@,
            capabilities: strings_view(self.capabilities@),
            ui_components: components_view(self.ui_components@),
        }
    }
}

/// A module's sign of life; the id is the 128 bits of the module's UUID.
#[derive(Debug, Clone)]
pub struct Heartbeat {
    pub module_id: u128,
}

/// Something a module reports under a topic.
#[derive(Debug, Clone)]
pub struct Event {
    pub topic: String,
    pub data: serde_json::Value,
}

/// A request for a module to perform an action.
#[derive(Debug, Clone)]
pub struct Command {
    pub id: String,
    pub action: String,
    pub payload: serde_json::Value,
}

/// The answer to the command or registration with the same id.
#[derive(Debug, Clone)]
pub struct Response {
    pub id: String,
    pub success: bool,
    pub message: String,
    pub data: Option<serde_json::Value>,
}

/// One message of the IPC protocol.
#[derive(Debug, Clone)]
pub enum Message {
    Register(RegisterRequest),
    Heartbeat(Heartbeat),
    Event(Event),
    Command(Command),
    Response(Response),
}

/// An event of a registered module, as the host passes it on to its
/// subscribers.
#[derive(Debug, Clone)]
pub struct ModuleEvent {
    pub module: String,
    pub topic: String,
    pub data: serde_json::Value,
}


/// What came of waiting for a module's answer to a command: the answer,
/// the module's connection closed first, or the wait timed out.
#[derive(Debug)]
pub enum ReplyOutcome {
    Answered(Response),
    Closed,
    TimedOut,
}

impl ReplyOutcome {
    /// Whether the host must itself forget the waiting request: only after a
    /// timeout, since an answer or a closed connection already removed it.
    pub fn forgets_pending(&self) -> (res: bool)
        ensures
            res == (*self is TimedOut),
    {
        match self {
            ReplyOutcome::TimedOut => true,
            _ => false,
        }
    }
}

} // verus!
