//! A verified core for a task-oriented JSON-RPC stdio client and a
//! tool-calling chat orchestrator.
//!
//! The crate models JSON values with its own [`json::JsonValue`] type,
//! renders and interprets JSON-RPC frames, tracks the handshake state of a
//! protocol session, translates tool catalogs between the server dialect and
//! the chat-completion dialect, and drives a bounded tool-calling
//! conversation loop as a pure state machine.  Process, network and file
//! I/O live outside the crate and exchange plain values with it.

pub mod config;
pub mod deepseek_client;
pub mod errors;
pub mod json;
pub mod mcp_client;
pub mod table_formatter;
pub mod text;
pub mod tooling;
