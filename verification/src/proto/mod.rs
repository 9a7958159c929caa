//! Wire types shared by the engine and its clients.

pub mod account;
pub mod motion;
pub mod profile;
pub mod workspace;
