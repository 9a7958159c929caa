//! The host of chat documents: which chats are open, what waits to be sent to their
//! rooms, what is saved and when, and the durable commands that agents run on.

pub mod backoff;
pub mod checkpoint;
pub mod commands;
pub mod connectivity;
pub mod delivery;
pub mod doc_host;
pub mod drain;
pub mod edge;
pub mod execute;
pub mod handle;
pub mod join;
pub mod lifecycle;
pub mod lru;
pub mod maps;
pub mod order;
pub mod pending;
pub mod retry;
pub mod send;
pub mod snapshots;
