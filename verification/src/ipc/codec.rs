//! The codec: one wire message per line.
//!
//! A message travels as one JSON object with the members `id`, `msg_type`,
//! `event`, `payload` and `error`, followed by a line feed. Which members a
//! message needs and what they may hold is decided here; the JSON text
//! itself is read and written by `serde_json`.

use vstd::prelude::*;
use vstd::string::StringExecFns;
use crate::ipc::error::IPCError;
use crate::ipc::json::{
    error_text,
    insert_member,
    json_error_text,
    json_model,
    json_parse,
    json_text,
    new_members,
    no_members,
    null_value,
    object_value,
    parse_value,
    print_value,
    string_value,
    value_as_str,
    value_is_null,
    value_member,
    Json,
};
use crate::ipc::message::{optional_text, IPCMessage, IPCMessageType, WireMessage};
use crate::ipc::text::{is_blank, lemma_blank_iff_trimmed_empty, trim, trimmed};

verus! {

/// The name of a message kind on the wire.
pub open spec fn kind_name(kind: IPCMessageType) -> Seq<char> {
    match kind {
        IPCMessageType::Event => "event"@,
        IPCMessageType::Request => "request"@,
        IPCMessageType::Response => "response"@,
    }
}

/// The kind that a wire name stands for, if any.
pub open spec fn kind_of_name(name: Seq<char>) -> Option<IPCMessageType> {
    if name == "event"@ {
        Some(IPCMessageType::Event)
    } else if name == "request"@ {
        Some(IPCMessageType::Request)
    } else if name == "response"@ {
        Some(IPCMessageType::Response)
    } else {
        None
    }
}

/// An optional text as JSON: the string, or null where there is none.
pub open spec fn optional_json(text: Option<Seq<char>>) -> Json {
    match text {
        Some(s) => Json::String(s),
        None => Json::Null,
    }
}

/// The JSON object that stands for a message: all five members, always.
pub open spec fn wire_object(m: WireMessage) -> Json {
    Json::Object(
        no_members().insert("id"@, optional_json(m.id)).insert(
            "msg_type"@,
            Json::String(kind_name(m.kind)),
        ).insert("event"@, Json::String(m.name)).insert("payload"@, m.payload).insert(
            "error"@,
            optional_json(m.error),
        ),
    )
}

/// The line of a message: the text of its object and a line feed. Where
/// `serde_json` cannot print the object, the detail of the failure.
pub open spec fn encoded_line(m: WireMessage) -> Result<Seq<char>, Seq<char>> {
    match json_text(wire_object(m)) {
        Ok(text) => Ok(text.push('\n')),
        Err(e) => Err("Failed to encode message: "@ + json_error_text(e)),
    }
}

/// Why an object lacks a member.
pub open spec fn missing_field(key: Seq<char>) -> Seq<char> {
    "missing field `"@ + key + "`"@
}

/// Why a member that must hold text is refused.
pub open spec fn not_a_string(key: Seq<char>) -> Seq<char> {
    "invalid type for field `"@ + key + "`, expected a string"@
}

/// Why a kind name is refused.
pub open spec fn unknown_kind(name: Seq<char>) -> Seq<char> {
    "unknown variant `"@ + name + "`, expected one of `event`, `request`, `response`"@
}

/// A member that may be missing or null: then there is no text. A member of
/// any other type than string is refused.
pub open spec fn optional_field(object: Json, key: Seq<char>) -> Result<
    Option<Seq<char>>,
    Seq<char>,
> {
    match object.member(key) {
        None => Ok(None),
        Some(Json::Null) => Ok(None),
        Some(Json::String(s)) => Ok(Some(s)),
        Some(_) => Err(not_a_string(key)),
    }
}

/// A member that must be there and hold a string.
pub open spec fn text_field(object: Json, key: Seq<char>) -> Result<Seq<char>, Seq<char>> {
    match object.member(key) {
        None => Err(missing_field(key)),
        Some(Json::String(s)) => Ok(s),
        Some(_) => Err(not_a_string(key)),
    }
}

/// The kind under `msg_type`: a string that names one of the three kinds.
pub open spec fn kind_field(object: Json) -> Result<IPCMessageType, Seq<char>> {
    match text_field(object, "msg_type"@) {
        Err(reason) => Err(reason),
        Ok(name) => match kind_of_name(name) {
            Some(kind) => Ok(kind),
            None => Err(unknown_kind(name)),
        },
    }
}

/// The payload: any JSON value, null too, but the member must be there.
pub open spec fn payload_field(object: Json) -> Result<Json, Seq<char>> {
    match object.member("payload"@) {
        Some(payload) => Ok(payload),
        None => Err(missing_field("payload"@)),
    }
}

/// Why a message without a name is refused.
pub open spec fn empty_name() -> Seq<char> {
    "field `event` must not be empty"@
}

/// Why a request or a response without an id, or with an empty one, is
/// refused.
pub open spec fn missing_id(kind: IPCMessageType) -> Seq<char> {
    "a message of type `"@ + kind_name(kind) + "` needs an `id` that is not empty"@
}

/// The rule of the protocol that a message breaks, if it breaks one: the
/// name first, then the id. A message breaks none exactly when it is well
/// formed.
pub open spec fn broken_rule(m: WireMessage) -> Option<Seq<char>> {
    if m.name.len() == 0 {
        Some(empty_name())
    } else if m.kind != IPCMessageType::Event && !(m.id is Some && m.id->0.len() > 0) {
        Some(missing_id(m.kind))
    } else {
        None
    }
}

/// The members that a JSON value gives to a message, or why it gives none.
/// The members are looked at in the order `id`, `msg_type`, `event`,
/// `payload`, `error`, and the first one at fault gives the reason. Members
/// of other names are passed over.
pub open spec fn members_of(object: Json) -> Result<WireMessage, Seq<char>> {
    match optional_field(object, "id"@) {
        Err(reason) => Err(reason),
        Ok(id) => match kind_field(object) {
            Err(reason) => Err(reason),
            Ok(kind) => match text_field(object, "event"@) {
                Err(reason) => Err(reason),
                Ok(name) => match payload_field(object) {
                    Err(reason) => Err(reason),
                    Ok(payload) => match optional_field(object, "error"@) {
                        Err(reason) => Err(reason),
                        Ok(error) => Ok(WireMessage { id, kind, name, payload, error }),
                    },
                },
            },
        },
    }
}

/// The message that a JSON value stands for, or why it stands for none:
/// its members must be there and of the right type, and together they must
/// keep the rules of the protocol. Only a well-formed message comes out.
pub open spec fn message_of(object: Json) -> Result<WireMessage, Seq<char>> {
    match members_of(object) {
        Err(reason) => Err(reason),
        Ok(m) => match broken_rule(m) {
            Some(reason) => Err(reason),
            None => Ok(m),
        },
    }
}

/// The detail of a line that is refused: the reason, then the line as it
/// was read after trimming.
pub open spec fn parse_failure(reason: Seq<char>, input: Seq<char>) -> Seq<char> {
    "Failed to parse message: "@ + reason + " - Input: "@ + input
}

/// The message that a trimmed line stands for, or the detail of why it is
/// refused: because nothing is left of the line, because it is not JSON, or
/// because the JSON value is no message.
pub open spec fn decoded_input(input: Seq<char>) -> Result<WireMessage, Seq<char>> {
    if input.len() == 0 {
        Err("Empty message"@)
    } else {
        match json_parse(input) {
            Err(e) => Err(parse_failure(json_error_text(e), input)),
            Ok(object) => match message_of(object) {
                Ok(m) => Ok(m),
                Err(reason) => Err(parse_failure(reason, input)),
            },
        }
    }
}

/// The message that a line stands for, or the detail of why it is refused.
/// White space at the ends of the line does not count.
pub open spec fn decoded(line: Seq<char>) -> Result<WireMessage, Seq<char>> {
    decoded_input(trimmed(line))
}

/// Text joined from three parts.
fn join3(a: &str, b: &str, c: &str) -> (r: String)
    ensures
        r@ == a@ + b@ + c@,
{
    String::from_str(a).concat(b).concat(c)
}

/// Reads a member that may be missing or null.
fn read_optional(object: &serde_json::Value, key: &str) -> (r: Result<Option<String>, String>)
    ensures
        match r {
            Ok(text) => optional_field(json_model(*object), key@) matches Ok(t) && t
                == optional_text(text),
            Err(reason) => optional_field(json_model(*object), key@) matches Err(why) && why
                == reason@,
        },
{
    match value_member(object, key) {
        None => Ok(None),
        Some(member) => {
            if value_is_null(member) {
                Ok(None)
            } else {
                match value_as_str(member) {
                    Some(s) => Ok(Some(s.to_owned())),
                    None => Err(join3("invalid type for field `", key, "`, expected a string")),
                }
            }
        },
    }
}

/// Reads a member that must hold a string.
fn read_text(object: &serde_json::Value, key: &str) -> (r: Result<String, String>)
    ensures
        match r {
            Ok(text) => text_field(json_model(*object), key@) matches Ok(t) && t == text@,
            Err(reason) => text_field(json_model(*object), key@) matches Err(why) && why
                == reason@,
        },
{
    match value_member(object, key) {
        None => Err(join3("missing field `", key, "`")),
        Some(member) => match value_as_str(member) {
            Some(s) => Ok(s.to_owned()),
            None => Err(join3("invalid type for field `", key, "`, expected a string")),
        },
    }
}

/// Reads the kind of a message.
fn read_kind(object: &serde_json::Value) -> (r: Result<IPCMessageType, String>)
    ensures
        match r {
            Ok(kind) => kind_field(json_model(*object)) matches Ok(k) && k == kind,
            Err(reason) => kind_field(json_model(*object)) matches Err(why) && why == reason@,
        },
{
    match read_text(object, "msg_type") {
        Err(reason) => Err(reason),
        Ok(name) => {
            if name == String::from_str("event") {
                Ok(IPCMessageType::Event)
            } else if name == String::from_str("request") {
                Ok(IPCMessageType::Request)
            } else if name == String::from_str("response") {
                Ok(IPCMessageType::Response)
            } else {
                Err(
                    join3(
                        "unknown variant `",
                        name.as_str(),
                        "`, expected one of `event`, `request`, `response`",
                    ),
                )
            }
        },
    }
}

/// Reads the payload of a message.
fn read_payload(object: &serde_json::Value) -> (r: Result<serde_json::Value, String>)
    ensures
        match r {
            Ok(payload) => payload_field(json_model(*object)) matches Ok(p) && p == json_model(
                payload,
            ),
            Err(reason) => payload_field(json_model(*object)) matches Err(why) && why
                == reason@,
        },
{
    match value_member(object, "payload") {
        Some(payload) => Ok(payload.clone()),
        None => Err(join3("missing field `", "payload", "`")),
    }
}

/// Says which rule of the protocol a message breaks, if it breaks one.
fn check_rules(msg: &IPCMessage) -> (r: Option<String>)
    ensures
        match r {
            Some(reason) => broken_rule(msg@) == Some(reason@),
            None => broken_rule(msg@) is None,
        },
{
    if msg.event.as_str().is_empty() {
        return Some(String::from_str("field `event` must not be empty"));
    }
    let has_id = match &msg.id {
        Some(id) => !id.as_str().is_empty(),
        None => false,
    };
    if msg.msg_type != IPCMessageType::Event && !has_id {
        return Some(
            join3(
                "a message of type `",
                kind_str(msg.msg_type),
                "` needs an `id` that is not empty",
            ),
        );
    }
    None
}

/// Reads a message out of a JSON value.
///
/// This is the step of decoding that comes after `serde_json` has read the
/// text: it says for every value which message it stands for, or why none.
/// A message comes out only where it is well formed: it has a name, and a
/// request or a response has an id that is not empty.
pub fn message_from_value(object: &serde_json::Value) -> (r: Result<IPCMessage, String>)
    ensures
        match r {
            Ok(m) => message_of(json_model(*object)) matches Ok(w) && w == m@,
            Err(reason) => message_of(json_model(*object)) matches Err(why) && why == reason@,
        },
        r matches Ok(m) ==> m@.well_formed(),
{
    let id = match read_optional(object, "id") {
        Ok(id) => id,
        Err(reason) => {
            return Err(reason);
        },
    };
    let msg_type = match read_kind(object) {
        Ok(kind) => kind,
        Err(reason) => {
            return Err(reason);
        },
    };
    let event = match read_text(object, "event") {
        Ok(name) => name,
        Err(reason) => {
            return Err(reason);
        },
    };
    let payload = match read_payload(object) {
        Ok(payload) => payload,
        Err(reason) => {
            return Err(reason);
        },
    };
    let error = match read_optional(object, "error") {
        Ok(error) => error,
        Err(reason) => {
            return Err(reason);
        },
    };
    let message = IPCMessage { id, msg_type, event, payload, error };
    match check_rules(&message) {
        Some(reason) => Err(reason),
        None => Ok(message),
    }
}

/// The error for a line that is refused.
fn refuse_line(reason: &str, input: &str) -> (e: IPCError)
    ensures
        e is ParseError,
        e.detail() == parse_failure(reason@, input@),
{
    IPCError::ParseError(
        String::from_str("Failed to parse message: ").concat(reason).concat(" - Input: ").concat(
            input,
        ),
    )
}

/// Decodes a line whose ends were trimmed already.
pub(crate) fn parse_trimmed(input: &str) -> (r: Result<IPCMessage, IPCError>)
    ensures
        match r {
            Ok(m) => decoded_input(input@) matches Ok(w) && w == m@,
            Err(e) => decoded_input(input@) matches Err(why) && why == e.detail()
                && e is ParseError,
        },
        r matches Ok(m) ==> m@.well_formed(),
{
    if input.is_empty() {
        return Err(IPCError::ParseError(String::from_str("Empty message")));
    }
    match parse_value(input) {
        Err(e) => Err(refuse_line(error_text(&e).as_str(), input)),
        Ok(object) => match message_from_value(&object) {
            Ok(m) => Ok(m),
            Err(reason) => Err(refuse_line(reason.as_str(), input)),
        },
    }
}

/// Decodes one inbound line.
///
/// White space at the ends of the line is cut off first. A line with
/// nothing left, a line that is not JSON and a JSON value that is not a
/// well-formed wire message are each refused with a `ParseError`; no other
/// error comes out of this function, and no message that breaks a rule of
/// the protocol.
pub fn parse_stdin_message(raw_message: &str) -> (r: Result<IPCMessage, IPCError>)
    ensures
        match r {
            Ok(m) => decoded(raw_message@) matches Ok(w) && w == m@,
            Err(e) => decoded(raw_message@) matches Err(why) && why == e.detail()
                && e is ParseError,
        },
        r matches Ok(m) ==> m@.well_formed(),
        is_blank(raw_message@) ==> r is Err,
        json_parse(trimmed(raw_message@)) is Err ==> r is Err,
{
    proof {
        lemma_blank_iff_trimmed_empty(raw_message@);
    }
    parse_trimmed(trim(raw_message))
}

/// The JSON value of an optional text.
fn optional_value(text: &Option<String>) -> (r: serde_json::Value)
    ensures
        json_model(r) == optional_json(optional_text(*text)),
{
    match text {
        Some(s) => string_value(s.clone()),
        None => null_value(),
    }
}

/// The name of a message kind on the wire.
fn kind_str(kind: IPCMessageType) -> (r: &'static str)
    ensures
        r@ == kind_name(kind),
{
    match kind {
        IPCMessageType::Event => "event",
        IPCMessageType::Request => "request",
        IPCMessageType::Response => "response",
    }
}

/// Builds the JSON object that stands for a message.
pub fn message_to_value(msg: &IPCMessage) -> (r: serde_json::Value)
    ensures
        json_model(r) == wire_object(msg@),
{
    let mut members = new_members();
    insert_member(&mut members, "id".to_owned(), optional_value(&msg.id));
    insert_member(
        &mut members,
        "msg_type".to_owned(),
        string_value(kind_str(msg.msg_type).to_owned()),
    );
    insert_member(&mut members, "event".to_owned(), string_value(msg.event.clone()));
    insert_member(&mut members, "payload".to_owned(), msg.payload.clone());
    insert_member(&mut members, "error".to_owned(), optional_value(&msg.error));
    object_value(members)
}

/// Encodes one outbound message as its line.
///
/// The line is the message's JSON object as `serde_json` prints it, then a
/// line feed. It fails, with a `SerializationError`, exactly where
/// `serde_json` cannot print the object.
pub fn encode_message_for_stdin(msg: &IPCMessage) -> (r: Result<String, IPCError>)
    ensures
        match r {
            Ok(line) => encoded_line(msg@) matches Ok(text) && text == line@,
            Err(e) => encoded_line(msg@) matches Err(why) && why == e.detail()
                && e is SerializationError,
        },
{
    let object = message_to_value(msg);
    match print_value(&object) {
        Ok(text) => {
            let line = text.concat("\n");
            proof {
                reveal_strlit("\n");
                assert(line@ =~= text@.push('\n'));
            }
            Ok(line)
        },
        Err(e) => Err(
            IPCError::SerializationError(
                String::from_str("Failed to encode message: ").concat(error_text(&e).as_str()),
            ),
        ),
    }
}

/// The five member names differ from one another, and so do the three kind
/// names.
proof fn lemma_names_differ()
    ensures
        "id"@ != "msg_type"@,
        "id"@ != "event"@,
        "id"@ != "payload"@,
        "id"@ != "error"@,
        "msg_type"@ != "event"@,
        "msg_type"@ != "payload"@,
        "msg_type"@ != "error"@,
        "event"@ != "payload"@,
        "event"@ != "error"@,
        "payload"@ != "error"@,
        "event"@ != "request"@,
        "event"@ != "response"@,
        "request"@ != "response"@,
{
    reveal_strlit("id");
    reveal_strlit("msg_type");
    reveal_strlit("event");
    reveal_strlit("payload");
    reveal_strlit("error");
    reveal_strlit("request");
    reveal_strlit("response");
    assert("id"@.len() == 2);
    assert("msg_type"@.len() == 8);
    assert("event"@.len() == 5);
    assert("payload"@.len() == 7);
    assert("error"@.len() == 5);
    assert("request"@.len() == 7);
    assert("response"@.len() == 8);
    assert("event"@[1] == 'v');
    assert("error"@[1] == 'r');
}

/// What the decoder lets through is well formed, whatever the line.
pub proof fn lemma_decoded_is_well_formed(line: Seq<char>)
    ensures
        decoded(line) matches Ok(m) ==> m.well_formed(),
{
}

/// Reading a well-formed message back out of its own JSON object gives the
/// message; one that is not well formed is refused.
pub proof fn lemma_object_round_trip(m: WireMessage)
    ensures
        m.well_formed() ==> (message_of(wire_object(m)) matches Ok(w) && w == m),
        !m.well_formed() ==> message_of(wire_object(m)) is Err,
        members_of(wire_object(m)) matches Ok(w) && w == m,
{
    lemma_names_differ();
    let object = wire_object(m);
    assert(object.member("id"@) == Some(optional_json(m.id)));
    assert(object.member("msg_type"@) == Some(Json::String(kind_name(m.kind))));
    assert(object.member("event"@) == Some(Json::String(m.name)));
    assert(object.member("payload"@) == Some(m.payload));
    assert(object.member("error"@) == Some(optional_json(m.error)));
    assert(optional_field(object, "id"@) matches Ok(id) && id == m.id);
    assert(optional_field(object, "error"@) matches Ok(error) && error == m.error);
    assert(kind_of_name(kind_name(m.kind)) == Some(m.kind));
}

/// Decoding undoes encoding: a well-formed message that is encoded as a
/// line and decoded from that line comes back as it was, member for member,
/// a missing id or error as missing and a null payload as null.
///
/// The part of this that is `serde_json`'s own stands as a premise: that
/// the printed object is not blank, and that the parser reads the printed
/// text back as the object that was printed.
pub proof fn lemma_decode_inverts_encode(m: WireMessage, line: Seq<char>)
    requires
        m.well_formed(),
        encoded_line(m) matches Ok(text) && text == line,
        trimmed(line).len() > 0,
        json_parse(trimmed(line)) matches Ok(object) && object == wire_object(m),
    ensures
        decoded(line) matches Ok(w) && w == m,
{
    lemma_object_round_trip(m);
}

} // verus!
