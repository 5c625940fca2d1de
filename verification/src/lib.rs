//! An in-memory file handle with an explicit open/closed state machine,
//! a state-gated read operation, and pluggable fault injection on the
//! open and close transitions.

pub mod fault;
pub mod handle;
