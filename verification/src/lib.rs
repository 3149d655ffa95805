//! Verified core of a chat-driven shell assistant.
//!
//! The library holds the logic of one conversation: the ordered message log,
//! the interpretation of a model response, the per-call policy and result
//! rendering for the `exec` tool, and the fixed schema the model is offered.
//! Network transport, process spawning and the interactive prompt are left to
//! the surrounding application, which feeds plain values in and out.

pub mod context;
pub mod exec;
pub mod schema;
pub mod session;
pub mod turn;
