//! Authentication: the session of a device, how it is kept on disk, and how it changes.

pub mod access;
pub mod loopback;
pub mod orgs;
pub mod refresh;
pub mod requests;
pub mod service;
pub mod session;
pub mod sign_in;
pub mod types;
