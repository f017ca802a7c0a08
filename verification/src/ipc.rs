//! The message protocol: wire messages, their codec and the bridge state.

pub mod bridge;
pub mod codec;
pub mod error;
pub mod json;
pub mod laws;
pub mod message;
pub mod model;
pub mod request_id;
pub mod text;

pub use bridge::IPCBridge;
pub use codec::{encode_message_for_stdin, parse_stdin_message};
pub use error::IPCError;
pub use message::{forward_to_frontend, IPCMessage, IPCMessageType, WireMessage};
pub use request_id::generate_request_id;
