//! A WebSocket client of the host: the topics it subscribed to, which events
//! reach it, and what it is told.

use vstd::prelude::*;
use vstd::hash_set::StringHashSet;
use crate::protocol::{Command, Message, ModuleEvent, ReplyOutcome};
use crate::text::{concat2, concat3};

verus! {

/// What a WebSocket client sends.
#[derive(Debug)]
pub enum ClientWsMessage {
    Subscribe { topic: String },
    Unsubscribe { topic: String },
    Command { id: String, module: String, action: String, payload: serde_json::Value },
}

/// What the host sends a WebSocket client.
#[derive(Debug)]
#[allow(inconsistent_fields)]
pub enum ServerWsMessage {
    Event { module: String, topic: String, data: serde_json::Value },
    Response {
        id: String,
        module: String,
        success: bool,
        message: String,
        data: Option<serde_json::Value>,
    },
    Error { message: String },
}

/// What the host does with a message of a WebSocket client.
#[derive(Debug)]
pub enum WsAction {
    /// The client subscribed to the topic.
    Subscribed(String),
    /// The client unsubscribed from the topic.
    Unsubscribed(String),
    /// Send `command` to the module `module`, and answer the client under `id`.
    Dispatch { id: String, module: String, command: Message },
}

/// The subscription key of one topic of one module.
pub open spec fn topic_key(module: Seq<char>, topic: Seq<char>) -> Seq<char> {
    module + "/"@ + topic
}

/// Whether a client with these subscriptions receives an event of `module`
/// under `topic`: it subscribed to that topic of that module, to every topic
/// of that module, or to everything.
pub open spec fn receives(subs: Set<Seq<char>>, module: Seq<char>, topic: Seq<char>) -> bool {
    ||| subs.contains(topic_key(module, topic))
    ||| subs.contains(module + "/*"@)
    ||| subs.contains("*"@)
}

/// The subscriptions of one WebSocket client.
pub struct WsSession {
    subscriptions: StringHashSet,
}

impl View for WsSession {
    type V = Set<Seq<char>>;

    closed spec fn view(&self) -> Set<Seq<char>> {
        self.subscriptions@
    }
}

impl WsSession {
    /// A client without subscriptions.
    pub fn new() -> (res: Self)
        ensures
            res@ == Set::<Seq<char>>::empty(),
    {
        WsSession { subscriptions: StringHashSet::new() }
    }

    /// Whether the client subscribed to exactly this key.
    pub fn is_subscribed(&self, key: &str) -> (res: bool)
        ensures
            res == self@.contains(key@),
    {
        self.subscriptions.contains(key)
    }

    /// What to do with a message of the client. Subscribing and
    /// unsubscribing change the subscriptions; a command is dispatched to
    /// its module under the client's id.
    pub fn on_client_message(&mut self, msg: ClientWsMessage) -> (res: WsAction)
        ensures
            match msg {
                ClientWsMessage::Subscribe { topic } => {
                    &&& final(self)@ == old(self)@.insert(topic@)
                    &&& res matches WsAction::Subscribed(t) && t@ == topic@
                },
                ClientWsMessage::Unsubscribe { topic } => {
                    &&& final(self)@ == old(self)@.remove(topic@)
                    &&& res matches WsAction::Unsubscribed(t) && t@ == topic@
                },
                ClientWsMessage::Command { id, module, action, payload } => {
                    &&& final(self)@ == old(self)@
                    &&& res matches WsAction::Dispatch { id: i, module: m, command }
                    &&& i@ == id@
                    &&& m@ == module@
                    &&& command matches Message::Command(c)
                    &&& c.id@ == id@
                    &&& c.action == action
                    &&& c.payload == payload
                },
            },
    {
        match msg {
            ClientWsMessage::Subscribe { topic } => {
                let t = topic.clone();
                self.subscriptions.insert(topic);
                WsAction::Subscribed(t)
            },
            ClientWsMessage::Unsubscribe { topic } => {
                self.subscriptions.remove(topic.as_str());
                WsAction::Unsubscribed(topic)
            },
            ClientWsMessage::Command { id, module, action, payload } => {
                let command = Message::Command(Command { id: id.clone(), action, payload });
                WsAction::Dispatch { id, module, command }
            },
        }
    }

    /// Whether the client receives an event of `module` under `topic`.
    pub fn wants(&self, module: &str, topic: &str) -> (res: bool)
        ensures
            res == receives(self@, module@, topic@),
    {
        let specific = concat3(module, "/", topic);
        let wildcard = concat2(module, "/*");
        self.subscriptions.contains(specific.as_str())
            || self.subscriptions.contains(wildcard.as_str())
            || self.subscriptions.contains("*")
    }

    /// The event as the client is sent it, if it receives it.
    pub fn forward(&self, evt: ModuleEvent) -> (res: Option<ServerWsMessage>)
        ensures
            match res {
                Some(msg) => {
                    &&& receives(self@, evt.module@, evt.topic@)
                    &&& msg == (ServerWsMessage::Event { module: evt.module, topic: evt.topic, data: evt.data })
                },
                None => !receives(self@, evt.module@, evt.topic@),
            },
    {
        if self.wants(evt.module.as_str(), evt.topic.as_str()) {
            Some(ServerWsMessage::Event { module: evt.module, topic: evt.topic, data: evt.data })
        } else {
            None
        }
    }
}

/// What the client is told of its command `id` to `module` once the wait
/// for the module's answer is over.
pub fn command_reply(id: String, module: String, outcome: ReplyOutcome) -> (res: ServerWsMessage)
    ensures
        match outcome {
            ReplyOutcome::Answered(r) => res == (ServerWsMessage::Response {
                id,
                module,
                success: r.success,
                message: r.message,
                data: r.data,
            }),
            ReplyOutcome::Closed => res matches ServerWsMessage::Error { message }
                && message@ == "Module '"@ + module@ + "' disconnected during request processing"@,
            ReplyOutcome::TimedOut => res matches ServerWsMessage::Error { message }
                && message@ == "Module '"@ + module@ + "' response timeout"@,
        },
{
    match outcome {
        ReplyOutcome::Answered(r) => ServerWsMessage::Response {
            id,
            module,
            success: r.success,
            message: r.message,
            data: r.data,
        },
        ReplyOutcome::Closed => ServerWsMessage::Error {
            message: concat3("Module '", module.as_str(), "' disconnected during request processing"),
        },
        ReplyOutcome::TimedOut => ServerWsMessage::Error {
            message: concat3("Module '", module.as_str(), "' response timeout"),
        },
    }
}

/// What the client is told when its command names a module that is not
/// connected.
pub fn not_connected(module: &str) -> (res: ServerWsMessage)
    ensures
        res matches ServerWsMessage::Error { message } && message@ == "Module '"@ + module@ + "' is not connected"@,
{
    ServerWsMessage::Error { message: concat3("Module '", module, "' is not connected") }
}

/// What the client is told when its command could not be handed to the
/// module's connection, for the reason `why`.
pub fn send_failed(why: &str) -> (res: ServerWsMessage)
    ensures
        res matches ServerWsMessage::Error { message } && message@ == "Failed to send IPC message to module: "@ + why@,
{
    ServerWsMessage::Error { message: concat2("Failed to send IPC message to module: ", why) }
}

/// What the client is told when its message does not parse, for the reason
/// `why`.
pub fn invalid_format(why: &str) -> (res: ServerWsMessage)
    ensures
        res matches ServerWsMessage::Error { message } && message@ == "Invalid message format: "@ + why@,
{
    ServerWsMessage::Error { message: concat2("Invalid message format: ", why) }
}


/// A client that subscribed to one topic of one module receives that
/// module's events under that topic.
pub proof fn lemma_subscribed_topic_received(subs: Set<Seq<char>>, module: Seq<char>, topic: Seq<char>)
    ensures
        receives(subs.insert(topic_key(module, topic)), module, topic),
{
}

/// A client that subscribed to every topic of a module receives all of that
/// module's events.
pub proof fn lemma_module_wildcard_received(subs: Set<Seq<char>>, module: Seq<char>, topic: Seq<char>)
    ensures
        receives(subs.insert(module + "/*"@), module, topic),
{
}

/// A client that subscribed to `*` receives every event.
pub proof fn lemma_everything_received(subs: Set<Seq<char>>, module: Seq<char>, topic: Seq<char>)
    ensures
        receives(subs.insert("*"@), module, topic),
{
}

/// A client without subscriptions receives nothing.
pub proof fn lemma_nothing_without_subscriptions(module: Seq<char>, topic: Seq<char>)
    ensures
        !receives(Set::empty(), module, topic),
{
}

/// After unsubscribing from one topic of a module, a client still receives
/// that module's events under that topic exactly when it subscribed to every
/// topic of the module (under another key than the one it dropped) or to
/// everything.
pub proof fn lemma_unsubscribed_topic(subs: Set<Seq<char>>, module: Seq<char>, topic: Seq<char>)
    ensures
        receives(subs.remove(topic_key(module, topic)), module, topic) <==> (
            (topic_key(module, topic) != module + "/*"@ && subs.contains(module + "/*"@))
            || subs.contains("*"@)),
{
    reveal_strlit("*");
    reveal_strlit("/");
    let key = topic_key(module, topic);
    assert(key.len() >= 1);
    if key == "*"@ {
        assert(key.len() == 1);
        assert(module.len() == 0);
        assert(key[0] == '/');
        assert(("*"@)[0] == '*');
    }
}

} // verus!
