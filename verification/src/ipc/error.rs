//! The failures that the protocol layer reports.

use vstd::prelude::*;
use vstd::string::StringExecFns;
use vstd::std_specs::convert::FromSpecImpl;

verus! {

/// What went wrong in the protocol layer.
#[derive(Debug, Clone)]
pub enum IPCError {
    /// A message could not be turned into its line.
    SerializationError(String),
    /// The worker's input channel is not there.
    StdinNotAvailable,
    /// Writing to, or flushing, the worker's input channel failed.
    SendError(String),
    /// No response came within the request's deadline.
    Timeout(String),
    /// An inbound line is not a wire message.
    ParseError(String),
    /// Anything else.
    Other(String),
}

impl IPCError {
    /// The detail text that the error carries; empty where it carries none.
    pub open spec fn detail(self) -> Seq<char> {
        match self {
            IPCError::SerializationError(msg) => msg@,
            IPCError::StdinNotAvailable => Seq::empty(),
            IPCError::SendError(msg) => msg@,
            IPCError::Timeout(msg) => msg@,
            IPCError::ParseError(msg) => msg@,
            IPCError::Other(msg) => msg@,
        }
    }

    /// The text shown for the error: a fixed heading for its variant, then
    /// the detail.
    pub open spec fn text(self) -> Seq<char> {
        match self {
            IPCError::SerializationError(msg) => "Serialization error: "@ + msg@,
            IPCError::StdinNotAvailable => "Node.js stdin not available"@,
            IPCError::SendError(msg) => "Send error: "@ + msg@,
            IPCError::Timeout(msg) => "Request timeout: "@ + msg@,
            IPCError::ParseError(msg) => "Parse error: "@ + msg@,
            IPCError::Other(msg) => "IPC error: "@ + msg@,
        }
    }

    /// The error for a line that could not be written to the worker's input
    /// channel, for the reason that the system gave.
    pub fn write_failed(reason: &str) -> (e: IPCError)
        ensures
            e is SendError,
            e.detail() == "Failed to write to Node.js stdin: "@ + reason@,
    {
        IPCError::SendError(String::from_str("Failed to write to Node.js stdin: ").concat(reason))
    }

    /// The error for a channel that could not be flushed after a line was
    /// written, for the reason that the system gave.
    pub fn flush_failed(reason: &str) -> (e: IPCError)
        ensures
            e is SendError,
            e.detail() == "Failed to flush Node.js stdin: "@ + reason@,
    {
        IPCError::SendError(String::from_str("Failed to flush Node.js stdin: ").concat(reason))
    }

    /// Renders the error as text.
    pub fn to_string(&self) -> (r: String)
        ensures
            r@ == self.text(),
    {
        match self {
            IPCError::SerializationError(msg) => String::from_str("Serialization error: ").concat(
                msg.as_str(),
            ),
            IPCError::StdinNotAvailable => String::from_str("Node.js stdin not available"),
            IPCError::SendError(msg) => String::from_str("Send error: ").concat(msg.as_str()),
            IPCError::Timeout(msg) => String::from_str("Request timeout: ").concat(msg.as_str()),
            IPCError::ParseError(msg) => String::from_str("Parse error: ").concat(msg.as_str()),
            IPCError::Other(msg) => String::from_str("IPC error: ").concat(msg.as_str()),
        }
    }
}

/// An error converts to its text.
impl From<IPCError> for String {
    fn from(err: IPCError) -> (r: String)
        ensures
            r@ == err.text(),
    {
        err.to_string()
    }
}

impl FromSpecImpl<IPCError> for String {
    open spec fn obeys_from_spec() -> bool {
        false
    }

    open spec fn from_spec(err: IPCError) -> String {
        arbitrary()
    }
}

} // verus!
