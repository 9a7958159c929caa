//! One chat's document and its room: importing what the room sends, keeping the
//! room cursor beside the snapshot, and the requests to the room over HTTP.

pub mod blob;
pub mod fresh;
pub mod import;
pub mod sink;
pub mod transport;
pub mod version;
