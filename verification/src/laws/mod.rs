//! What the operations of the core are for: laws over their inputs and results, beyond
//! what each contract says by itself.

pub mod access;
pub mod cli;
pub mod collections;
pub mod delivery;
pub mod doc_host;
pub mod drain;
pub mod encoding;
pub mod execute;
pub mod handles;
pub mod json;
pub mod loopback;
pub mod mcp;
pub mod orgs;
pub mod refresh;
pub mod requests;
pub mod retry;
pub mod rooms;
pub mod rows;
pub mod sign_in;
pub mod snapshots;
pub mod sync;
pub mod text;
pub mod wire;
