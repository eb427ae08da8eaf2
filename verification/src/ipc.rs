//! One IPC connection with a module, as a state machine: the host hands it
//! each message that arrives and performs the action it answers with.

use vstd::prelude::*;
use crate::protocol::{Command, Message, ModuleEvent, RegisterRequest, Response};
use crate::text::owned;

verus! {

/// What the host does with one message of a module.
pub enum IpcAction {
    /// Register or refresh the module, keep this connection as the module's,
    /// and send it `reply`.
    Register { request: RegisterRequest, reply: Message },
    /// Note that the module is alive.
    Heartbeat { module_id: u128 },
    /// Pass the event on to the subscribers.
    Publish(ModuleEvent),
    /// Hand the response to whoever waits for its id.
    Deliver(Response),
    /// Refuse the command: modules cannot command the host.
    RejectCommand(Command),
    /// Nothing to do.
    Ignore,
}

/// The answer to a successful registration.
pub open spec fn is_registration_reply(r: Response) -> bool {
    &&& r.id@ == "register"@
    &&& r.success
    &&& r.message@ == "Registered successfully"@
    &&& r.data is None
}

/// The answer to a successful registration.
pub fn registration_reply() -> (res: Response)
    ensures
        is_registration_reply(res),
{
    Response {
        id: owned("register"),
        success: true,
        message: owned("Registered successfully"),
        data: None,
    }
}

/// An IPC connection: the name under which its module registered last, if
/// it did.
pub struct IpcSession {
    registered: Option<String>,
}

impl View for IpcSession {
    type V = Option<Seq<char>>;

    closed spec fn view(&self) -> Option<Seq<char>> {
        match self.registered {
            Some(n) => Some(n@),
            None => None,
        }
    }
}

impl IpcSession {
    /// A connection that has not registered.
    pub fn new() -> (res: Self)
        ensures
            res@ is None,
    {
        IpcSession { registered: None }
    }

    /// The name under which the module of this connection registered last.
    pub fn registered_module(&self) -> (res: Option<&str>)
        ensures
            match res {
                Some(n) => self@ == Some(n@),
                None => self@ is None,
            },
    {
        match &self.registered {
            Some(n) => Some(n.as_str()),
            None => None,
        }
    }

    /// What to do with `msg`. A registration names the connection after the
    /// module; events are passed on under that name, and dropped before the
    /// module registered; responses go to whoever waits for them; commands
    /// from a module are refused.
    pub fn on_message(&mut self, msg: Message) -> (res: IpcAction)
        ensures
            match msg {
                Message::Register(req) => {
                    &&& final(self)@ == Some(req.name@)
                    &&& res matches IpcAction::Register { request, reply }
                    &&& request == req
                    &&& reply matches Message::Response(r) && is_registration_reply(r)
                },
                Message::Heartbeat(hb) => {
                    &&& final(self)@ == old(self)@
                    &&& res == (IpcAction::Heartbeat { module_id: hb.module_id })
                },
                Message::Event(evt) => {
                    &&& final(self)@ == old(self)@
                    &&& match old(self)@ {
                        Some(name) => res matches IpcAction::Publish(e) && e.module@ == name
                            && e.topic == evt.topic && e.data == evt.data,
                        None => res is Ignore,
                    }
                },
                Message::Response(r) => final(self)@ == old(self)@ && res == IpcAction::Deliver(r),
                Message::Command(c) => final(self)@ == old(self)@ && res == IpcAction::RejectCommand(c),
            },
    {
        match msg {
            Message::Register(req) => {
                self.registered = Some(req.name.clone());
                IpcAction::Register {
                    request: req,
                    reply: Message::Response(registration_reply()),
                }
            },
            Message::Heartbeat(hb) => IpcAction::Heartbeat { module_id: hb.module_id },
            Message::Event(evt) => {
                match &self.registered {
                    Some(name) => IpcAction::Publish(ModuleEvent {
                        module: name.clone(),
                        topic: evt.topic,
                        data: evt.data,
                    }),
                    None => IpcAction::Ignore,
                }
            },
            Message::Response(r) => IpcAction::Deliver(r),
            Message::Command(c) => IpcAction::RejectCommand(c),
        }
    }

    /// The connection is closed: the name of its module, if it registered,
    /// whose connection is to be dropped and which is then stopped.
    pub fn on_close(self) -> (res: Option<String>)
        ensures
            match res {
                Some(n) => self@ == Some(n@),
                None => self@ is None,
            },
    {
        self.registered
    }
}

} // verus!
