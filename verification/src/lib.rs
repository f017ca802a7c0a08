//! A bridge between a supervising application and one long-lived worker
//! process that speaks newline-delimited JSON.
//!
//! The crate holds the protocol and the supervision policy as plain state
//! machines: every function here takes the outcome of the surrounding I/O as
//! an argument and answers with the next state and what to do. Threads,
//! pipes and the child process itself belong to the caller.

pub mod clock;
pub mod ipc;
pub mod process;
