//! Assembling requests and addressing the daemon's resources.

pub mod network;
pub mod util;
