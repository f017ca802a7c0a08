//! The bridge as a state machine: requests and their responses, timeouts,
//! cancellation, handlers, and the queue before and after the channel is
//! there.

use ipc_bridge::ipc::bridge::{Completion, Expired, IPCBridge, Inbound, Outbound, RequestSent};
use ipc_bridge::ipc::{parse_stdin_message, IPCError, IPCMessage, IPCMessageType};
use serde_json::Value;
use std::cell::RefCell;
use std::rc::Rc;

type Outcome = Result<Value, String>;
type Callback = Box<dyn FnOnce(Outcome)>;
type Handler = Box<dyn Fn(Value)>;
type Bridge = IPCBridge<Callback, Handler>;

const SEC: u64 = 1_000_000_000;

fn json(text: &str) -> Value {
    serde_json::from_str(text).expect("test payload is JSON")
}

/// A callback that notes down each outcome it is called with.
fn recorder() -> (Rc<RefCell<Vec<Outcome>>>, Callback) {
    let seen = Rc::new(RefCell::new(Vec::new()));
    let sink = Rc::clone(&seen);
    (seen, Box::new(move |outcome| sink.borrow_mut().push(outcome)))
}

fn written(outbound: Outbound) -> String {
    match outbound {
        Outbound::Write(line) => line,
        Outbound::Queued => panic!("queued, not written"),
    }
}

fn completion_of(inbound: Inbound<Callback>) -> (IPCMessage, Option<Completion<Callback>>) {
    match inbound {
        Inbound::Message { message, completion } => (message, completion),
        Inbound::Blank => panic!("blank"),
        Inbound::Malformed(e) => panic!("malformed: {:?}", e),
    }
}

fn response_line(id: &str, payload: &str, error: &str) -> String {
    format!(
        r#"{{"id":"{}","msg_type":"response","event":"get_data","payload":{},"error":{}}}"#,
        id, payload, error
    )
}

fn drain(bridge: &mut Bridge) -> Vec<String> {
    let mut lines = Vec::new();
    while let Some(line) = bridge.flush_message_queue() {
        lines.push(line);
        bridge.flush_confirmed();
    }
    lines
}

#[test]
fn new_bridge_is_empty() {
    let bridge: Bridge = IPCBridge::new();
    assert_eq!(bridge.pending_request_count(), 0);
    assert_eq!(bridge.queue_size(), 0);
    assert_eq!(bridge.request_timeout_secs(), 30);
    assert!(!bridge.is_attached());
    let bridge: Bridge = IPCBridge::default();
    assert_eq!(bridge.request_timeout_secs(), 30);
    assert!(!bridge.is_attached());
}

#[test]
fn happy_path_request() {
    let mut bridge: Bridge = IPCBridge::new();
    bridge.set_stdin();
    let (seen, callback) = recorder();
    let RequestSent { id, outbound } = bridge.request("get_data", json("{}"), callback, 0).unwrap();
    assert!(id.starts_with("req_"));
    assert_eq!(bridge.pending_request_count(), 1);

    let line = written(outbound);
    let request = parse_stdin_message(&line).unwrap();
    assert_eq!(request.id, Some(id.clone()));
    assert_eq!(request.msg_type, IPCMessageType::Request);
    assert_eq!(request.event, "get_data");
    assert_eq!(request.payload, json("{}"));

    let reply = response_line(&id, r#"{"result":42}"#, "null");
    let (message, completion) = completion_of(bridge.handle_stdout_line(&reply));
    assert_eq!(message.id, Some(id));
    let Completion { callback, result } = completion.expect("the response answers the request");
    callback(result);
    assert_eq!(*seen.borrow(), vec![Ok(json(r#"{"result":42}"#))]);
    assert_eq!(bridge.pending_request_count(), 0);
}

#[test]
fn response_with_error_fails_the_request() {
    let mut bridge: Bridge = IPCBridge::new();
    let (seen, callback) = recorder();
    let sent = bridge.request_at("get_data", json("{}"), 30, callback, 0, 7).unwrap();
    assert_eq!(sent.id, "req_7");
    let reply = response_line("req_7", r#"{"ignored":true}"#, "\"boom\"");
    let (_, completion) = completion_of(bridge.handle_stdout_line(&reply));
    let Completion { callback, result } = completion.unwrap();
    callback(result);
    assert_eq!(*seen.borrow(), vec![Err("boom".to_string())]);
}

#[test]
fn unknown_response_id_is_dropped() {
    let mut bridge: Bridge = IPCBridge::new();
    let (seen, callback) = recorder();
    bridge.request_at("get_data", json("{}"), 30, callback, 0, 7).unwrap();
    let reply = response_line("req_8", "1", "null");
    let (message, completion) = completion_of(bridge.handle_stdout_line(&reply));
    assert!(completion.is_none());
    assert_eq!(message.id, Some("req_8".to_string()));
    assert_eq!(bridge.pending_request_count(), 1);
    assert!(seen.borrow().is_empty());
    // The listener goes on: the next line is taken in as usual.
    let reply = response_line("req_7", "1", "null");
    assert!(completion_of(bridge.handle_stdout_line(&reply)).1.is_some());
}

#[test]
fn only_responses_answer_requests() {
    let mut bridge: Bridge = IPCBridge::new();
    let (_, callback) = recorder();
    bridge.request_at("get_data", json("{}"), 30, callback, 0, 7).unwrap();
    for kind in ["event", "request"] {
        let line =
            format!(r#"{{"id":"req_7","msg_type":"{}","event":"get_data","payload":1}}"#, kind);
        assert!(completion_of(bridge.handle_stdout_line(&line)).1.is_none());
    }
    // A response without id is no message at all.
    let line = r#"{"msg_type":"response","event":"get_data","payload":1}"#;
    assert!(matches!(
        bridge.handle_stdout_line(line),
        Inbound::Malformed(IPCError::ParseError(_))
    ));
    assert_eq!(bridge.pending_request_count(), 1);
}

#[test]
fn blank_and_malformed_lines_change_nothing() {
    let mut bridge: Bridge = IPCBridge::new();
    let (_, callback) = recorder();
    bridge.request_at("get_data", json("{}"), 30, callback, 0, 7).unwrap();
    assert!(matches!(bridge.handle_stdout_line(""), Inbound::Blank));
    assert!(matches!(bridge.handle_stdout_line(" \t\u{a0}"), Inbound::Blank));
    match bridge.handle_stdout_line("not json") {
        Inbound::Malformed(IPCError::ParseError(detail)) => {
            assert!(detail.starts_with("Failed to parse message: "));
            assert!(detail.ends_with(" - Input: not json"));
        }
        _ => panic!("not refused"),
    }
    assert!(matches!(
        bridge.handle_stdout_line(r#"{"id":"req_7","msg_type":"response"}"#),
        Inbound::Malformed(IPCError::ParseError(_))
    ));
    assert_eq!(bridge.pending_request_count(), 1);
    assert_eq!(bridge.queue_size(), 1);
}

#[test]
fn a_request_is_resolved_once_by_its_response() {
    let mut bridge: Bridge = IPCBridge::new();
    let (seen, callback) = recorder();
    bridge.request_at("get_data", json("{}"), 30, callback, 0, 7).unwrap();
    let reply = response_line("req_7", "1", "null");
    let Completion { callback, result } =
        completion_of(bridge.handle_stdout_line(&reply)).1.unwrap();
    callback(result);
    // The same response again, a cancellation and a late sweep find nothing.
    assert!(completion_of(bridge.handle_stdout_line(&reply)).1.is_none());
    assert!(!bridge.cancel_request("req_7"));
    assert!(bridge.check_timeouts(1000 * SEC).is_empty());
    assert_eq!(seen.borrow().len(), 1);
}

#[test]
fn a_cancelled_request_is_never_answered() {
    let mut bridge: Bridge = IPCBridge::new();
    let (seen, callback) = recorder();
    bridge.request_at("get_data", json("{}"), 30, callback, 0, 7).unwrap();
    assert!(bridge.cancel_request("req_7"));
    assert_eq!(bridge.pending_request_count(), 0);
    let reply = response_line("req_7", "1", "null");
    assert!(completion_of(bridge.handle_stdout_line(&reply)).1.is_none());
    assert!(bridge.check_timeouts(1000 * SEC).is_empty());
    assert!(!bridge.cancel_request("req_7"));
    assert!(seen.borrow().is_empty());
}

#[test]
fn a_timed_out_request_is_answered_once() {
    let mut bridge: Bridge = IPCBridge::new();
    let (seen, callback) = recorder();
    bridge.request_at("get_data", json("{}"), 30, callback, 0, 7).unwrap();
    let mut expired = bridge.check_timeouts(31 * SEC);
    assert_eq!(expired.len(), 1);
    let Expired { id, callback, error } = expired.remove(0);
    assert_eq!(id, "req_7");
    assert!(matches!(error, IPCError::Timeout(_)));
    assert_eq!(error.to_string(), "Request timeout: 30s");
    callback(Err(error.to_string()));
    let reply = response_line("req_7", "1", "null");
    assert!(completion_of(bridge.handle_stdout_line(&reply)).1.is_none());
    assert!(!bridge.cancel_request("req_7"));
    assert!(bridge.check_timeouts(32 * SEC).is_empty());
    assert_eq!(*seen.borrow(), vec![Err("Request timeout: 30s".to_string())]);
}

#[test]
fn a_timeout_is_exact_to_the_nanosecond() {
    let mut bridge: Bridge = IPCBridge::new();
    let (_, callback) = recorder();
    bridge.request_at("get_data", json("{}"), 2, callback, 1000, 7).unwrap();
    assert!(bridge.check_timeouts(0).is_empty());
    assert!(bridge.check_timeouts(1000).is_empty());
    assert!(bridge.check_timeouts(1000 + 2 * SEC - 1).is_empty());
    assert!(bridge.check_timeouts(1000 + 2 * SEC).is_empty());
    let expired = bridge.check_timeouts(1000 + 2 * SEC + 1);
    assert_eq!(expired.len(), 1);
    assert_eq!(expired[0].error.to_string(), "Request timeout: 2s");
    assert_eq!(bridge.pending_request_count(), 0);
}

#[test]
fn a_timeout_of_zero_needs_time_to_pass() {
    let mut bridge: Bridge = IPCBridge::new();
    let (_, callback) = recorder();
    bridge.request_at("get_data", json("{}"), 0, callback, 50, 7).unwrap();
    assert!(bridge.check_timeouts(50).is_empty());
    assert_eq!(bridge.check_timeouts(51).len(), 1);
}

#[test]
fn the_longest_timeout_does_not_overflow() {
    let mut bridge: Bridge = IPCBridge::new();
    let (_, callback) = recorder();
    bridge.request_at("get_data", json("{}"), u64::MAX, callback, 0, 7).unwrap();
    assert!(bridge.check_timeouts(u64::MAX).is_empty());
    assert_eq!(bridge.pending_request_count(), 1);
}

#[test]
fn a_sweep_hands_back_the_overdue_oldest_first() {
    let mut bridge: Bridge = IPCBridge::new();
    for (stamp, timeout) in [(1u128, 10u64), (2, 60), (3, 5), (4, 60), (5, 20)] {
        let (_, callback) = recorder();
        bridge.request_at("get_data", json("{}"), timeout, callback, 0, stamp).unwrap();
    }
    let expired = bridge.check_timeouts(21 * SEC);
    let ids: Vec<&str> = expired.iter().map(|e| e.id.as_str()).collect();
    assert_eq!(ids, vec!["req_1", "req_3", "req_5"]);
    let texts: Vec<String> = expired.iter().map(|e| e.error.to_string()).collect();
    assert_eq!(
        texts,
        vec!["Request timeout: 10s", "Request timeout: 5s", "Request timeout: 20s"]
    );
    assert_eq!(bridge.pending_request_count(), 2);
    assert!(bridge.cancel_request("req_2"));
    assert!(bridge.cancel_request("req_4"));
}

#[test]
fn the_default_timeout_is_the_bridges() {
    let mut bridge: Bridge = IPCBridge::with_timeout(1);
    let (_, callback) = recorder();
    bridge.request("get_data", json("{}"), callback, 0).unwrap();
    assert!(bridge.check_timeouts(SEC).is_empty());
    let expired = bridge.check_timeouts(SEC + 1);
    assert_eq!(expired.len(), 1);
    assert_eq!(expired[0].error.to_string(), "Request timeout: 1s");
}

#[test]
fn request_ids_are_never_made_twice() {
    let mut bridge: Bridge = IPCBridge::new();
    let mut ids = Vec::new();
    // The clock stands still, runs on, and jumps back.
    for stamp in [5u128, 5, 5, 9, 2, 0] {
        let (_, callback) = recorder();
        ids.push(bridge.request_at("e", json("{}"), 30, callback, 0, stamp).unwrap().id);
    }
    assert_eq!(ids, vec!["req_5", "req_6", "req_7", "req_9", "req_10", "req_11"]);
    // Not even after the request is gone.
    assert!(bridge.cancel_request("req_11"));
    let (_, callback) = recorder();
    assert_eq!(bridge.request_at("e", json("{}"), 30, callback, 0, 11).unwrap().id, "req_12");
}

#[test]
fn requests_from_the_clock_differ() {
    let mut bridge: Bridge = IPCBridge::new();
    let mut ids = Vec::new();
    for _ in 0..100 {
        let (_, callback) = recorder();
        ids.push(bridge.request("e", json("{}"), callback, 0).unwrap().id);
    }
    assert_eq!(bridge.pending_request_count(), 100);
    let mut unique = ids.clone();
    unique.sort();
    unique.dedup();
    assert_eq!(unique.len(), 100);
    for id in &ids {
        assert!(id.starts_with("req_"));
        assert!(bridge.cancel_request(id));
    }
}

#[test]
fn used_up_ids_are_an_error() {
    let mut bridge: Bridge = IPCBridge::new();
    let (_, callback) = recorder();
    let r = bridge.request_at("e", json("{}"), 30, callback, 0, u128::MAX);
    match r {
        Err(IPCError::Other(detail)) => assert_eq!(detail, "Request ids are used up"),
        _ => panic!("not refused"),
    }
    assert_eq!(bridge.pending_request_count(), 0);
    assert_eq!(bridge.queue_size(), 0);
    let (_, callback) = recorder();
    let sent = bridge.request_at("e", json("{}"), 30, callback, 0, u128::MAX - 1).unwrap();
    assert_eq!(sent.id, "req_340282366920938463463374607431768211454");
    let (_, callback) = recorder();
    assert!(matches!(
        bridge.request_at("e", json("{}"), 30, callback, 0, 0),
        Err(IPCError::Other(_))
    ));
    assert_eq!(bridge.pending_request_count(), 1);
}

#[test]
fn emit_without_channel_queues() {
    let mut bridge: Bridge = IPCBridge::new();
    assert!(matches!(bridge.emit("ping", json("1")), Ok(Outbound::Queued)));
    assert_eq!(bridge.queue_size(), 1);
    assert_eq!(bridge.pending_request_count(), 0);
}

#[test]
fn emit_with_channel_hands_out_the_line() {
    let mut bridge: Bridge = IPCBridge::new();
    bridge.set_stdin();
    assert!(bridge.is_attached());
    let line = written(bridge.emit("ping", json(r#"{"n":1}"#)).unwrap());
    assert_eq!(
        line,
        "{\"error\":null,\"event\":\"ping\",\"id\":null,\"msg_type\":\"event\",\"payload\":{\"n\":1}}\n"
    );
    assert_eq!(bridge.queue_size(), 0);
}

#[test]
fn send_to_node_takes_any_message() {
    let mut bridge: Bridge = IPCBridge::new();
    let msg = IPCMessage::error_response("a", "e", "bad");
    assert!(matches!(bridge.send_to_node(msg), Ok(Outbound::Queued)));
    bridge.set_stdin();
    let msg = IPCMessage::response("a", "e", json("1"));
    let line = written(bridge.send_to_node(msg).unwrap());
    assert_eq!(
        line,
        "{\"error\":null,\"event\":\"e\",\"id\":\"a\",\"msg_type\":\"response\",\"payload\":1}\n"
    );
    assert_eq!(bridge.queue_size(), 1);
}

#[test]
fn queued_messages_leave_in_the_order_sent() {
    let mut bridge: Bridge = IPCBridge::new();
    for n in 0..5 {
        assert!(matches!(bridge.emit("count", json(&n.to_string())), Ok(Outbound::Queued)));
    }
    let (_, callback) = recorder();
    let sent = bridge.request_at("get_data", json("{}"), 30, callback, 0, 1).unwrap();
    assert!(matches!(sent.outbound, Outbound::Queued));
    bridge.queue_message(IPCMessage::event("last", Value::Null));
    assert_eq!(bridge.queue_size(), 7);
    assert_eq!(bridge.flush_message_queue(), None);

    bridge.set_stdin();
    let lines = drain(&mut bridge);
    assert_eq!(bridge.queue_size(), 0);
    let names: Vec<(String, Value)> = lines
        .iter()
        .map(|line| {
            assert!(line.ends_with('\n'));
            let msg = parse_stdin_message(line).unwrap();
            (msg.event, msg.payload)
        })
        .collect();
    assert_eq!(
        names,
        vec![
            ("count".to_string(), json("0")),
            ("count".to_string(), json("1")),
            ("count".to_string(), json("2")),
            ("count".to_string(), json("3")),
            ("count".to_string(), json("4")),
            ("get_data".to_string(), json("{}")),
            ("last".to_string(), Value::Null),
        ]
    );
    // What is sent from now on is written at once.
    assert!(matches!(bridge.emit("count", json("5")), Ok(Outbound::Write(_))));
    assert_eq!(bridge.flush_message_queue(), None);
}

#[test]
fn a_failed_write_keeps_the_message_first() {
    let mut bridge: Bridge = IPCBridge::new();
    bridge.emit("a", json("1")).unwrap();
    bridge.emit("b", json("2")).unwrap();
    bridge.set_stdin();
    let first = bridge.flush_message_queue().unwrap();
    assert!(first.contains("\"event\":\"a\""));
    // The write fails: nothing is confirmed, and the drain stops.
    assert_eq!(bridge.queue_size(), 2);
    // The next attempt resumes with the same message.
    assert_eq!(bridge.flush_message_queue(), Some(first));
    bridge.flush_confirmed();
    assert_eq!(bridge.queue_size(), 1);
    let second = bridge.flush_message_queue().unwrap();
    assert!(second.contains("\"event\":\"b\""));
    bridge.flush_confirmed();
    assert_eq!(bridge.queue_size(), 0);
    assert_eq!(bridge.flush_message_queue(), None);
}

#[test]
fn confirming_nothing_changes_nothing() {
    let mut bridge: Bridge = IPCBridge::new();
    bridge.emit("a", json("1")).unwrap();
    bridge.flush_confirmed();
    assert_eq!(bridge.queue_size(), 1);
    bridge.set_stdin();
    bridge.flush_confirmed();
    assert_eq!(bridge.queue_size(), 1);
    assert!(bridge.flush_message_queue().is_some());
    bridge.flush_confirmed();
    bridge.flush_confirmed();
    assert_eq!(bridge.queue_size(), 0);
}

#[test]
fn handlers_are_found_in_the_order_registered() {
    let mut bridge: IPCBridge<Callback, u32> = IPCBridge::new();
    assert!(bridge.handlers_for("tick").is_empty());
    bridge.on("tick", 1);
    bridge.on("tock", 2);
    bridge.on("tick", 3);
    bridge.on("tick", 1);
    assert_eq!(bridge.handlers_for("tick"), vec![&1, &3, &1]);
    assert_eq!(bridge.handlers_for("tock"), vec![&2]);
    assert!(bridge.handlers_for("Tick").is_empty());
    assert!(bridge.handlers_for("").is_empty());
}

#[test]
fn handlers_hear_every_message_of_their_event() {
    let mut bridge: Bridge = IPCBridge::new();
    let heard = Rc::new(RefCell::new(Vec::new()));
    for tag in ["first", "second"] {
        let sink = Rc::clone(&heard);
        bridge.on("get_data", Box::new(move |payload| sink.borrow_mut().push((tag, payload))));
    }
    let (_, callback) = recorder();
    bridge.request_at("get_data", json("{}"), 30, callback, 0, 7).unwrap();
    // A response that answers a request is handed to the handlers too.
    let reply = response_line("req_7", "42", "null");
    let (message, completion) = completion_of(bridge.handle_stdout_line(&reply));
    assert!(completion.is_some());
    for handler in bridge.handlers_for(&message.event) {
        handler(message.payload.clone());
    }
    assert_eq!(*heard.borrow(), vec![("first", json("42")), ("second", json("42"))]);
    let line = r#"{"msg_type":"event","event":"other","payload":1}"#;
    let (message, _) = completion_of(bridge.handle_stdout_line(line));
    assert!(bridge.handlers_for(&message.event).is_empty());
}

#[test]
fn a_request_without_channel_still_waits() {
    let mut bridge: Bridge = IPCBridge::new();
    let (seen, callback) = recorder();
    let sent = bridge.request_with_timeout("get_data", json("{}"), 5, callback, 0).unwrap();
    assert!(matches!(sent.outbound, Outbound::Queued));
    assert_eq!(bridge.pending_request_count(), 1);
    assert_eq!(bridge.queue_size(), 1);
    let reply = response_line(&sent.id, "true", "null");
    let Completion { callback, result } =
        completion_of(bridge.handle_stdout_line(&reply)).1.unwrap();
    callback(result);
    assert_eq!(*seen.borrow(), vec![Ok(json("true"))]);
}
