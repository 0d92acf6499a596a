//! The optional private API: a library injected into Messages that answers
//! requests dropped in a queue directory. Here are the decisions around it;
//! the file system and the processes are left to the caller.
pub mod paths;
pub mod sip;
pub mod launcher;
pub mod laws;
pub mod ipc;
pub mod bridge;
