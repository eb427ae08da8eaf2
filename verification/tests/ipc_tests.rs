use alpee_core::ipc::{registration_reply, IpcAction, IpcSession};
use alpee_core::module::UiComponent;
use alpee_core::protocol::{Command, Event, Heartbeat, Message, RegisterRequest, Response};
use serde_json::Value;

fn obj(key: &str, value: serde_json::Value) -> serde_json::Value {
    serde_json::Value::from_iter([(key.to_string(), value)])
}

fn register(name: &str) -> Message {
    Message::Register(RegisterRequest {
        name: name.to_string(),
        version: "0.1.0".to_string(),
        capabilities: vec!["ping".to_string()],
        ui_components: vec![UiComponent {
            name: "p".to_string(),
            component_type: "panel".to_string(),
            endpoint: "/ui/p".to_string(),
        }],
    })
}

fn event(topic: &str) -> Message {
    Message::Event(Event { topic: topic.to_string(), data: obj("v", Value::from(1)) })
}

#[test]
fn registration_reply_text() {
    let r = registration_reply();
    assert_eq!(r.id, "register");
    assert!(r.success);
    assert_eq!(r.message, "Registered successfully");
    assert!(r.data.is_none());
}

#[test]
fn registration_names_the_session_and_answers() {
    let mut s = IpcSession::new();
    assert_eq!(s.registered_module(), None);
    match s.on_message(register("weather")) {
        IpcAction::Register { request, reply } => {
            assert_eq!(request.name, "weather");
            match reply {
                Message::Response(r) => {
                    assert_eq!(r.id, "register");
                    assert!(r.success);
                }
                _ => panic!("expected a response"),
            }
        }
        _ => panic!("expected a registration"),
    }
    assert_eq!(s.registered_module(), Some("weather"));
}

#[test]
fn events_before_registration_are_dropped() {
    let mut s = IpcSession::new();
    assert!(matches!(s.on_message(event("temp")), IpcAction::Ignore));
}

#[test]
fn events_after_registration_carry_the_module_name() {
    let mut s = IpcSession::new();
    s.on_message(register("weather"));
    match s.on_message(event("temp")) {
        IpcAction::Publish(e) => {
            assert_eq!(e.module, "weather");
            assert_eq!(e.topic, "temp");
            assert_eq!(e.data, obj("v", Value::from(1)));
        }
        _ => panic!("expected an event"),
    }
}

#[test]
fn reregistration_renames_the_session() {
    let mut s = IpcSession::new();
    s.on_message(register("a"));
    s.on_message(register("b"));
    match s.on_message(event("t")) {
        IpcAction::Publish(e) => assert_eq!(e.module, "b"),
        _ => panic!("expected an event"),
    }
    assert_eq!(s.on_close(), Some("b".to_string()));
}

#[test]
fn heartbeats_responses_and_commands() {
    let mut s = IpcSession::new();
    assert!(matches!(
        s.on_message(Message::Heartbeat(Heartbeat { module_id: 77 })),
        IpcAction::Heartbeat { module_id: 77 }
    ));
    match s.on_message(Message::Response(Response {
        id: "r1".to_string(),
        success: true,
        message: "ok".to_string(),
        data: None,
    })) {
        IpcAction::Deliver(r) => assert_eq!(r.id, "r1"),
        _ => panic!("expected a delivery"),
    }
    match s.on_message(Message::Command(Command {
        id: "c1".to_string(),
        action: "stop".to_string(),
        payload: Value::Null,
    })) {
        IpcAction::RejectCommand(c) => assert_eq!(c.action, "stop"),
        _ => panic!("expected a refusal"),
    }
    assert_eq!(s.registered_module(), None);
}

#[test]
fn closing_an_unregistered_session_names_nothing() {
    let s = IpcSession::new();
    assert_eq!(s.on_close(), None);
}
