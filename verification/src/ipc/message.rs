//! The wire message and its constructors.

use vstd::prelude::*;
use crate::ipc::json::{json_model, null_value, Json};

verus! {

/// The three kinds of wire message.
#[derive(Debug, Clone, Copy, PartialEq, Eq, Structural)]
pub enum IPCMessageType {
    /// A notification that expects no reply.
    Event,
    /// A call that expects a `Response` under the same id.
    Request,
    /// The reply to a `Request`.
    Response,
}

/// One message of the protocol.
#[derive(Debug, Clone)]
pub struct IPCMessage {
    /// Correlates a response with its request; an event may go without.
    pub id: Option<String>,
    /// The kind of message.
    pub msg_type: IPCMessageType,
    /// The event or command name.
    pub event: String,
    /// The JSON payload.
    pub payload: serde_json::Value,
    /// Set on a response whose request failed; the payload then counts for
    /// nothing.
    pub error: Option<String>,
}

/// The characters of an optional string.
pub open spec fn optional_text(s: Option<String>) -> Option<Seq<char>> {
    match s {
        Some(t) => Some(t@),
        None => None,
    }
}

/// The mathematical content of an [`IPCMessage`].
pub struct WireMessage {
    pub id: Option<Seq<char>>,
    pub kind: IPCMessageType,
    pub name: Seq<char>,
    pub payload: Json,
    pub error: Option<Seq<char>>,
}

impl WireMessage {
    /// An event called `name`: no id, no error.
    pub open spec fn event(name: Seq<char>, payload: Json) -> WireMessage {
        WireMessage { id: None, kind: IPCMessageType::Event, name, payload, error: None }
    }

    /// A request called `name` under `id`.
    pub open spec fn request(id: Seq<char>, name: Seq<char>, payload: Json) -> WireMessage {
        WireMessage { id: Some(id), kind: IPCMessageType::Request, name, payload, error: None }
    }

    /// A successful response to the request `id`.
    pub open spec fn response(id: Seq<char>, name: Seq<char>, payload: Json) -> WireMessage {
        WireMessage { id: Some(id), kind: IPCMessageType::Response, name, payload, error: None }
    }

    /// A failed response to the request `id`: a null payload and the error.
    pub open spec fn error_response(id: Seq<char>, name: Seq<char>, error: Seq<char>)
        -> WireMessage {
        WireMessage {
            id: Some(id),
            kind: IPCMessageType::Response,
            name,
            payload: Json::Null,
            error: Some(error),
        }
    }

    /// The protocol's rules for a message: it has a name, and a request or a
    /// response has an id that is not empty.
    pub open spec fn well_formed(self) -> bool {
        &&& self.name.len() > 0
        &&& self.kind != IPCMessageType::Event ==> self.id is Some && self.id->0.len() > 0
    }
}

impl View for IPCMessage {
    type V = WireMessage;

    open spec fn view(&self) -> WireMessage {
        WireMessage {
            id: optional_text(self.id),
            kind: self.msg_type,
            name: self.event@,
            payload: json_model(self.payload),
            error: optional_text(self.error),
        }
    }
}

impl IPCMessage {
    /// Whether the message keeps the rules of the protocol: it has a name,
    /// and a request or a response has an id that is not empty.
    pub fn is_well_formed(&self) -> (b: bool)
        ensures
            b == self@.well_formed(),
    {
        let has_id = match &self.id {
            Some(id) => !id.as_str().is_empty(),
            None => false,
        };
        !self.event.as_str().is_empty() && (self.msg_type == IPCMessageType::Event || has_id)
    }

    /// Makes an event message.
    pub fn event(event: &str, payload: serde_json::Value) -> (m: IPCMessage)
        ensures
            m@ == WireMessage::event(event@, json_model(payload)),
            m@.well_formed() <==> event@.len() > 0,
    {
        IPCMessage {
            id: None,
            msg_type: IPCMessageType::Event,
            event: event.to_owned(),
            payload,
            error: None,
        }
    }

    /// Makes a request message.
    pub fn request(id: &str, event: &str, payload: serde_json::Value) -> (m: IPCMessage)
        ensures
            m@ == WireMessage::request(id@, event@, json_model(payload)),
            m@.well_formed() <==> event@.len() > 0 && id@.len() > 0,
    {
        IPCMessage {
            id: Some(id.to_owned()),
            msg_type: IPCMessageType::Request,
            event: event.to_owned(),
            payload,
            error: None,
        }
    }

    /// Makes the response to a request that succeeded.
    pub fn response(id: &str, event: &str, payload: serde_json::Value) -> (m: IPCMessage)
        ensures
            m@ == WireMessage::response(id@, event@, json_model(payload)),
            m@.well_formed() <==> event@.len() > 0 && id@.len() > 0,
    {
        IPCMessage {
            id: Some(id.to_owned()),
            msg_type: IPCMessageType::Response,
            event: event.to_owned(),
            payload,
            error: None,
        }
    }

    /// Makes the response to a request that failed.
    pub fn error_response(id: &str, event: &str, error: &str) -> (m: IPCMessage)
        ensures
            m@ == WireMessage::error_response(id@, event@, error@),
            m@.well_formed() <==> event@.len() > 0 && id@.len() > 0,
    {
        IPCMessage {
            id: Some(id.to_owned()),
            msg_type: IPCMessageType::Response,
            event: event.to_owned(),
            payload: null_value(),
            error: Some(error.to_owned()),
        }
    }
}

/// The event name and the payload under which a message is handed on to
/// listeners: both as the message has them.
pub fn forward_to_frontend(msg: &IPCMessage) -> (r: (String, serde_json::Value))
    ensures
        r.0@ == msg@.name,
        json_model(r.1) == msg@.payload,
{
    (msg.event.clone(), msg.payload.clone())
}

} // verus!
