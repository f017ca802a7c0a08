//! The codec, line by line: what goes out, what comes in, and what is
//! refused.

use ipc_bridge::ipc::codec::{message_from_value, message_to_value};
use ipc_bridge::ipc::{
    encode_message_for_stdin, parse_stdin_message, IPCError, IPCMessage, IPCMessageType,
};
use serde_json::Value;

fn json(text: &str) -> Value {
    serde_json::from_str(text).expect("test payload is JSON")
}

fn refusal(line: &str) -> String {
    match parse_stdin_message(line) {
        Err(IPCError::ParseError(detail)) => detail,
        Err(other) => panic!("refused with {:?}", other),
        Ok(msg) => panic!("accepted as {:?}", msg),
    }
}

fn same(a: &IPCMessage, b: &IPCMessage) -> bool {
    a.id == b.id
        && a.msg_type == b.msg_type
        && a.event == b.event
        && a.payload == b.payload
        && a.error == b.error
}

#[test]
fn event_line_is_exact() {
    let msg = IPCMessage::event("ping", json(r#"{"n": 1}"#));
    assert_eq!(
        encode_message_for_stdin(&msg).unwrap(),
        "{\"error\":null,\"event\":\"ping\",\"id\":null,\"msg_type\":\"event\",\"payload\":{\"n\":1}}\n"
    );
}

#[test]
fn request_line_is_exact() {
    let msg = IPCMessage::request("req-1", "get_data", json("{}"));
    assert_eq!(
        encode_message_for_stdin(&msg).unwrap(),
        "{\"error\":null,\"event\":\"get_data\",\"id\":\"req-1\",\"msg_type\":\"request\",\"payload\":{}}\n"
    );
}

#[test]
fn response_line_is_exact() {
    let msg = IPCMessage::response("req-1", "get_data", json("[1,2]"));
    assert_eq!(
        encode_message_for_stdin(&msg).unwrap(),
        "{\"error\":null,\"event\":\"get_data\",\"id\":\"req-1\",\"msg_type\":\"response\",\"payload\":[1,2]}\n"
    );
}

#[test]
fn error_response_line_has_null_payload() {
    let msg = IPCMessage::error_response("req-1", "get_data", "it \"broke\"");
    assert_eq!(msg.payload, Value::Null);
    assert_eq!(
        encode_message_for_stdin(&msg).unwrap(),
        "{\"error\":\"it \\\"broke\\\"\",\"event\":\"get_data\",\"id\":\"req-1\",\"msg_type\":\"response\",\"payload\":null}\n"
    );
}

#[test]
fn line_ends_with_one_line_feed() {
    let msg = IPCMessage::event("multi\nline", json(r#""a\nb""#));
    let line = encode_message_for_stdin(&msg).unwrap();
    assert!(line.ends_with('\n'));
    assert_eq!(line.matches('\n').count(), 1);
}

#[test]
fn round_trip_of_every_shape() {
    let messages = vec![
        IPCMessage::event("e", Value::Null),
        IPCMessage::event(" ", json("{}")),
        IPCMessage::request(" ", "r", json("0")),
        IPCMessage::request("id with spaces", "get_data", json(r#"{"a":[true,false,null]}"#)),
        IPCMessage::response("req_17", "get_data", json(r#"{"result":42}"#)),
        IPCMessage::error_response("req_17", "get_data", ""),
        IPCMessage::error_response("req_17", "get_data", "Something went wrong"),
        IPCMessage {
            id: Some("x".to_string()),
            msg_type: IPCMessageType::Event,
            event: "unicode \u{e9}\u{4e2d}\u{1f600}".to_string(),
            payload: json(r#"{"text":"é \" \\ \n","n":-12,"big":18446744073709551615}"#),
            error: Some("both payload and error".to_string()),
        },
    ];
    for msg in &messages {
        let line = encode_message_for_stdin(msg).unwrap();
        let back = parse_stdin_message(&line).unwrap();
        assert!(same(msg, &back), "{:?} came back as {:?}", msg, back);
    }
}

#[test]
fn round_trip_through_the_object() {
    let msg = IPCMessage::response("req_1", "get_data", json(r#"{"k":"v"}"#));
    let object = message_to_value(&msg);
    assert_eq!(
        object,
        json(r#"{"id":"req_1","msg_type":"response","event":"get_data","payload":{"k":"v"},"error":null}"#)
    );
    let back = message_from_value(&object).unwrap();
    assert!(same(&msg, &back));
}

#[test]
fn empty_line_is_refused() {
    assert_eq!(refusal(""), "Empty message");
}

#[test]
fn blank_lines_are_refused() {
    assert_eq!(refusal(" "), "Empty message");
    assert_eq!(refusal("\n"), "Empty message");
    assert_eq!(refusal(" \t\r\n"), "Empty message");
    assert_eq!(refusal("\u{a0}\u{2003}\u{3000}"), "Empty message");
}

#[test]
fn text_that_is_not_json_is_refused() {
    assert_eq!(
        refusal("not json"),
        "Failed to parse message: expected ident at line 1 column 2 - Input: not json"
    );
    assert_eq!(
        refusal("  {\"id\": \n"),
        "Failed to parse message: EOF while parsing a value at line 1 column 6 - Input: {\"id\":"
    );
}

#[test]
fn trailing_text_is_refused() {
    let detail = refusal(r#"{"msg_type":"event","event":"e","payload":1} x"#);
    assert!(detail.starts_with("Failed to parse message: trailing characters"));
}

#[test]
fn white_space_around_the_line_does_not_count() {
    let line = "\u{a0}\t {\"msg_type\":\"event\",\"event\":\"e\",\"payload\":1} \u{2028}\r\n";
    let msg = parse_stdin_message(line).unwrap();
    assert_eq!(msg.event, "e");
    assert_eq!(msg.payload, json("1"));
}

#[test]
fn white_space_inside_the_line_is_kept() {
    let line = r#"{"msg_type":"event","event":"  e  ","payload":"  p  "}"#;
    let msg = parse_stdin_message(line).unwrap();
    assert_eq!(msg.event, "  e  ");
    assert_eq!(msg.payload, json(r#""  p  ""#));
}

#[test]
fn id_and_error_may_be_missing_or_null() {
    let missing = parse_stdin_message(r#"{"msg_type":"event","event":"e","payload":{}}"#).unwrap();
    assert_eq!(missing.id, None);
    assert_eq!(missing.error, None);
    let null = parse_stdin_message(
        r#"{"id":null,"msg_type":"event","event":"e","payload":{},"error":null}"#,
    )
    .unwrap();
    assert_eq!(null.id, None);
    assert_eq!(null.error, None);
    let empty = parse_stdin_message(
        r#"{"id":"","msg_type":"event","event":"e","payload":{},"error":""}"#,
    )
    .unwrap();
    assert_eq!(empty.id, Some(String::new()));
    assert_eq!(empty.error, Some(String::new()));
}

#[test]
fn payload_may_be_null_but_not_missing() {
    let null = parse_stdin_message(r#"{"msg_type":"event","event":"e","payload":null}"#).unwrap();
    assert_eq!(null.payload, Value::Null);
    assert_eq!(
        refusal(r#"{"msg_type":"event","event":"e"}"#),
        "Failed to parse message: missing field `payload` - Input: {\"msg_type\":\"event\",\"event\":\"e\"}"
    );
}

#[test]
fn members_of_the_wrong_type_are_refused() {
    let tail = |line: &str| format!(" - Input: {}", line);
    let line = r#"{"id":7,"msg_type":"event","event":"e","payload":1}"#;
    assert_eq!(
        refusal(line),
        format!("Failed to parse message: invalid type for field `id`, expected a string{}", tail(line))
    );
    let line = r#"{"msg_type":"event","event":null,"payload":1}"#;
    assert_eq!(
        refusal(line),
        format!(
            "Failed to parse message: invalid type for field `event`, expected a string{}",
            tail(line)
        )
    );
    let line = r#"{"msg_type":["event"],"event":"e","payload":1}"#;
    assert_eq!(
        refusal(line),
        format!(
            "Failed to parse message: invalid type for field `msg_type`, expected a string{}",
            tail(line)
        )
    );
    let line = r#"{"msg_type":"event","event":"e","payload":1,"error":false}"#;
    assert_eq!(
        refusal(line),
        format!(
            "Failed to parse message: invalid type for field `error`, expected a string{}",
            tail(line)
        )
    );
}

#[test]
fn missing_members_are_refused_in_order() {
    assert_eq!(
        refusal("{}"),
        "Failed to parse message: missing field `msg_type` - Input: {}"
    );
    assert_eq!(
        refusal(r#"{"msg_type":"event"}"#),
        "Failed to parse message: missing field `event` - Input: {\"msg_type\":\"event\"}"
    );
    // The id is looked at first.
    assert_eq!(
        refusal(r#"{"id":1}"#),
        "Failed to parse message: invalid type for field `id`, expected a string - Input: {\"id\":1}"
    );
}

#[test]
fn unknown_kinds_are_refused() {
    let line = r#"{"msg_type":"Event","event":"e","payload":1}"#;
    assert_eq!(
        refusal(line),
        format!(
            "Failed to parse message: unknown variant `Event`, expected one of `event`, `request`, `response` - Input: {}",
            line
        )
    );
}

#[test]
fn values_that_are_no_object_are_refused() {
    assert_eq!(refusal("[]"), "Failed to parse message: missing field `msg_type` - Input: []");
    assert_eq!(refusal("42"), "Failed to parse message: missing field `msg_type` - Input: 42");
    assert_eq!(
        refusal("\"event\""),
        "Failed to parse message: missing field `msg_type` - Input: \"event\""
    );
    assert_eq!(refusal("null"), "Failed to parse message: missing field `msg_type` - Input: null");
}

#[test]
fn other_members_are_passed_over() {
    let msg = parse_stdin_message(
        r#"{"extra":[1],"msg_type":"request","event":"e","payload":{"p":1},"id":"a","more":{}}"#,
    )
    .unwrap();
    assert_eq!(msg.id, Some("a".to_string()));
    assert_eq!(msg.msg_type, IPCMessageType::Request);
    assert_eq!(msg.payload, json(r#"{"p":1}"#));
}

#[test]
fn every_kind_is_read() {
    for (name, kind) in [
        ("event", IPCMessageType::Event),
        ("request", IPCMessageType::Request),
        ("response", IPCMessageType::Response),
    ] {
        let line = format!(r#"{{"id":"a","msg_type":"{}","event":"e","payload":1}}"#, name);
        assert_eq!(parse_stdin_message(&line).unwrap().msg_type, kind);
    }
}

#[test]
fn message_from_value_reads_the_members() {
    let object = json(r#"{"id":"a","msg_type":"response","event":"e","payload":[1],"error":"x"}"#);
    let msg = message_from_value(&object).unwrap();
    assert_eq!(msg.id, Some("a".to_string()));
    assert_eq!(msg.msg_type, IPCMessageType::Response);
    assert_eq!(msg.event, "e");
    assert_eq!(msg.payload, json("[1]"));
    assert_eq!(msg.error, Some("x".to_string()));
    assert_eq!(
        message_from_value(&json("{}")).map(|m| m.event),
        Err("missing field `msg_type`".to_string())
    );
}

#[test]
fn a_message_without_name_is_refused() {
    let line = r#"{"msg_type":"event","event":"","payload":1}"#;
    assert_eq!(
        refusal(line),
        format!("Failed to parse message: field `event` must not be empty - Input: {}", line)
    );
    // The name comes before the id.
    let line = r#"{"id":null,"msg_type":"request","event":"","payload":null,"error":null}"#;
    assert_eq!(
        refusal(line),
        format!("Failed to parse message: field `event` must not be empty - Input: {}", line)
    );
}

#[test]
fn a_request_or_response_without_id_is_refused() {
    for kind in ["request", "response"] {
        for id in ["", r#""id":null,"#, r#""id":"","#] {
            let line = format!(r#"{{{}"msg_type":"{}","event":"e","payload":1}}"#, id, kind);
            assert_eq!(
                refusal(&line),
                format!(
                    "Failed to parse message: a message of type `{}` needs an `id` that is not empty - Input: {}",
                    kind, line
                )
            );
        }
    }
}

#[test]
fn an_event_needs_no_id() {
    for id in ["", r#""id":null,"#, r#""id":"","#] {
        let line = format!(r#"{{{}"msg_type":"event","event":"e","payload":1}}"#, id);
        let msg = parse_stdin_message(&line).unwrap();
        assert!(msg.is_well_formed());
        assert_eq!(msg.event, "e");
    }
}

#[test]
fn what_is_decoded_is_well_formed() {
    let lines = [
        r#"{"msg_type":"event","event":"e","payload":1}"#,
        r#"{"msg_type":"event","event":"","payload":1}"#,
        r#"{"id":"a","msg_type":"request","event":"e","payload":1}"#,
        r#"{"id":"","msg_type":"request","event":"e","payload":1}"#,
        r#"{"msg_type":"response","event":"e","payload":1}"#,
        r#"{"id":"a","msg_type":"response","event":"e","payload":1,"error":"x"}"#,
    ];
    let accepted: Vec<bool> = lines
        .iter()
        .map(|line| match parse_stdin_message(line) {
            Ok(msg) => {
                assert!(msg.is_well_formed());
                true
            }
            Err(_) => false,
        })
        .collect();
    assert_eq!(accepted, vec![true, false, true, false, false, true]);
}

#[test]
fn well_formed_is_name_and_id() {
    assert!(IPCMessage::event("e", Value::Null).is_well_formed());
    assert!(!IPCMessage::event("", Value::Null).is_well_formed());
    assert!(IPCMessage::request("a", "e", Value::Null).is_well_formed());
    assert!(!IPCMessage::request("", "e", Value::Null).is_well_formed());
    assert!(!IPCMessage::request("a", "", Value::Null).is_well_formed());
    assert!(IPCMessage::response("a", "e", Value::Null).is_well_formed());
    assert!(!IPCMessage::error_response("", "e", "x").is_well_formed());
    let mut msg = IPCMessage::response("a", "e", Value::Null);
    msg.id = None;
    assert!(!msg.is_well_formed());
    msg.msg_type = IPCMessageType::Event;
    assert!(msg.is_well_formed());
}

#[test]
fn a_value_that_breaks_a_rule_gives_no_message() {
    let object = json(r#"{"msg_type":"response","event":"e","payload":1}"#);
    assert_eq!(
        message_from_value(&object).map(|m| m.event),
        Err("a message of type `response` needs an `id` that is not empty".to_string())
    );
    // Encoding asks nothing of the message; decoding refuses it.
    let mut msg = IPCMessage::request("a", "e", Value::Null);
    msg.id = None;
    let line = encode_message_for_stdin(&msg).unwrap();
    assert!(matches!(parse_stdin_message(&line), Err(IPCError::ParseError(_))));
}
