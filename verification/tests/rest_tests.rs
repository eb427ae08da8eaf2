use alpee_core::protocol::{Message, ReplyOutcome, Response};
use alpee_core::rest::{
    command_for, command_not_sent, command_result, module_not_connected, module_not_found,
    CommandPayload,
};
use serde_json::Value;

fn obj(key: &str, value: serde_json::Value) -> serde_json::Value {
    serde_json::Value::from_iter([(key.to_string(), value)])
}

#[test]
fn not_found_is_404() {
    let e = module_not_found("weather");
    assert_eq!(e.status, 404);
    assert_eq!(e.message, "Module 'weather' not found");
}

#[test]
fn not_connected_is_502() {
    let e = module_not_connected("weather");
    assert_eq!(e.status, 502);
    assert_eq!(e.message, "Module 'weather' is not connected or not running");
}

#[test]
fn send_failure_is_500() {
    let e = command_not_sent("channel closed");
    assert_eq!(e.status, 500);
    assert_eq!(e.message, "Failed to send IPC message to module: channel closed");
}

#[test]
fn command_carries_the_request_id_action_and_payload() {
    let body = CommandPayload { action: "ping".to_string(), payload: obj("n", Value::from(3)) };
    match command_for("id-7".to_string(), body) {
        Message::Command(c) => {
            assert_eq!(c.id, "id-7");
            assert_eq!(c.action, "ping");
            assert_eq!(c.payload, obj("n", Value::from(3)));
        }
        _ => panic!("expected a command"),
    }
}

#[test]
fn command_results() {
    let r = Response { id: "id-7".to_string(), success: true, message: "pong".to_string(), data: None };
    let ok = command_result(ReplyOutcome::Answered(r)).unwrap();
    assert_eq!(ok.id, "id-7");
    assert_eq!(ok.message, "pong");
    let closed = command_result(ReplyOutcome::Closed).unwrap_err();
    assert_eq!(closed.status, 502);
    assert_eq!(closed.message, "Connection to module closed before response was received");
    let late = command_result(ReplyOutcome::TimedOut).unwrap_err();
    assert_eq!(late.status, 504);
    assert_eq!(late.message, "Module did not respond within the timeout period");
}
