use alpee_core::protocol::{Message, ModuleEvent, ReplyOutcome, Response};
use alpee_core::ws::{
    command_reply, invalid_format, not_connected, send_failed, ClientWsMessage, ServerWsMessage,
    WsAction, WsSession,
};
use serde_json::Value;

fn obj(key: &str, value: serde_json::Value) -> serde_json::Value {
    serde_json::Value::from_iter([(key.to_string(), value)])
}

fn subscribe(s: &mut WsSession, topic: &str) {
    s.on_client_message(ClientWsMessage::Subscribe { topic: topic.to_string() });
}

fn error_text(m: ServerWsMessage) -> String {
    match m {
        ServerWsMessage::Error { message } => message,
        _ => panic!("expected an error"),
    }
}

#[test]
fn new_client_wants_nothing() {
    let s = WsSession::new();
    assert!(!s.wants("weather", "temp"));
}

#[test]
fn exact_topic_subscription() {
    let mut s = WsSession::new();
    subscribe(&mut s, "weather/temp");
    assert!(s.is_subscribed("weather/temp"));
    assert!(s.wants("weather", "temp"));
    assert!(!s.wants("weather", "wind"));
    assert!(!s.wants("clock", "temp"));
}

#[test]
fn module_wildcard_subscription() {
    let mut s = WsSession::new();
    subscribe(&mut s, "weather/*");
    assert!(s.wants("weather", "temp"));
    assert!(s.wants("weather", "wind"));
    assert!(!s.wants("clock", "tick"));
}

#[test]
fn global_wildcard_subscription() {
    let mut s = WsSession::new();
    subscribe(&mut s, "*");
    assert!(s.wants("weather", "temp"));
    assert!(s.wants("clock", "tick"));
}

#[test]
fn unsubscribing_stops_delivery() {
    let mut s = WsSession::new();
    subscribe(&mut s, "weather/temp");
    match s.on_client_message(ClientWsMessage::Unsubscribe { topic: "weather/temp".to_string() }) {
        WsAction::Unsubscribed(t) => assert_eq!(t, "weather/temp"),
        _ => panic!("expected an unsubscription"),
    }
    assert!(!s.wants("weather", "temp"));
}

#[test]
fn unsubscribing_one_topic_keeps_the_module_wildcard() {
    let mut s = WsSession::new();
    subscribe(&mut s, "weather/temp");
    subscribe(&mut s, "weather/*");
    s.on_client_message(ClientWsMessage::Unsubscribe { topic: "weather/temp".to_string() });
    assert!(s.wants("weather", "temp"));
}

#[test]
fn forward_builds_the_event_for_subscribers_only() {
    let mut s = WsSession::new();
    subscribe(&mut s, "weather/temp");
    let evt = ModuleEvent { module: "weather".to_string(), topic: "temp".to_string(), data: Value::from(21) };
    match s.forward(evt) {
        Some(ServerWsMessage::Event { module, topic, data }) => {
            assert_eq!(module, "weather");
            assert_eq!(topic, "temp");
            assert_eq!(data, Value::from(21));
        }
        _ => panic!("expected an event"),
    }
    let other = ModuleEvent { module: "clock".to_string(), topic: "tick".to_string(), data: Value::from(1) };
    assert!(s.forward(other).is_none());
}

#[test]
fn command_is_dispatched_under_the_client_id() {
    let mut s = WsSession::new();
    let msg = ClientWsMessage::Command {
        id: "req-1".to_string(),
        module: "weather".to_string(),
        action: "ping".to_string(),
        payload: obj("x", Value::from(1)),
    };
    match s.on_client_message(msg) {
        WsAction::Dispatch { id, module, command } => {
            assert_eq!(id, "req-1");
            assert_eq!(module, "weather");
            match command {
                Message::Command(c) => {
                    assert_eq!(c.id, "req-1");
                    assert_eq!(c.action, "ping");
                    assert_eq!(c.payload, obj("x", Value::from(1)));
                }
                _ => panic!("expected a command"),
            }
        }
        _ => panic!("expected a dispatch"),
    }
}

#[test]
fn replies_to_the_client() {
    let answered = command_reply(
        "req-1".to_string(),
        "weather".to_string(),
        ReplyOutcome::Answered(Response {
            id: "req-1".to_string(),
            success: true,
            message: "pong".to_string(),
            data: Some(obj("reply", Value::from("pong_data"))),
        }),
    );
    match answered {
        ServerWsMessage::Response { id, module, success, message, data } => {
            assert_eq!(id, "req-1");
            assert_eq!(module, "weather");
            assert!(success);
            assert_eq!(message, "pong");
            assert_eq!(data, Some(obj("reply", Value::from("pong_data"))));
        }
        _ => panic!("expected a response"),
    }
    assert_eq!(
        error_text(command_reply("r".to_string(), "weather".to_string(), ReplyOutcome::Closed)),
        "Module 'weather' disconnected during request processing"
    );
    assert_eq!(
        error_text(command_reply("r".to_string(), "weather".to_string(), ReplyOutcome::TimedOut)),
        "Module 'weather' response timeout"
    );
}

#[test]
fn error_messages() {
    assert_eq!(error_text(not_connected("weather")), "Module 'weather' is not connected");
    assert_eq!(error_text(send_failed("channel closed")), "Failed to send IPC message to module: channel closed");
    assert_eq!(error_text(invalid_format("missing field `type`")), "Invalid message format: missing field `type`");
}

#[test]
fn only_timeouts_forget_the_pending_request() {
    assert!(ReplyOutcome::TimedOut.forgets_pending());
    assert!(!ReplyOutcome::Closed.forgets_pending());
    let r = Response { id: "x".to_string(), success: false, message: String::new(), data: None };
    assert!(!ReplyOutcome::Answered(r).forgets_pending());
}
