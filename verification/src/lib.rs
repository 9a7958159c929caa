//! The decision core of a device engine: sign-in and session rules, chat-room
//! synchronisation rules, command delivery rules and the wire forms around them.
//! Everything here is a function of plain values; sockets, files, timers and
//! locks belong to the caller.

pub mod auth;
pub mod chat;
pub mod cli;
pub mod edge_errors;
pub mod encoding;
pub mod host;
pub mod ids;
pub mod json;
pub mod laws;
pub mod mcp;
pub mod profile;
pub mod proto;
pub mod rows;
pub mod text;
