//! What travels between this library and the daemon.

pub mod endpoint;
pub mod header;
pub mod interact;
pub mod json;
pub mod parse;
pub mod stream;
