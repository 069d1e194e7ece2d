//! The core of a client for a container-engine daemon: how requests are
//! assembled, how responses are decoded, and how failures are told apart.
//!
//! Nothing in this crate performs I/O. A caller takes a request from a
//! resource handle, sends it over a connection of its own to the endpoint it
//! chose, and hands the raw response back to the handle to be decoded:
//!
//! - [`transport::endpoint`] chooses the endpoint an address names;
//! - [`communicate::util`] builds the arguments of a request, and
//!   [`transport::interact`] the request for each verb;
//! - [`transport::parse`] and [`transport::stream`] decode a response as a bare
//!   status, as one JSON value, or as a sequence of elements;
//! - [`communicate::network`] is the handle for one network;
//! - [`errors`] is the taxonomy of failures.
//!
//! Header sets are `http::HeaderMap`, JSON is read by `serde_json`, and queries
//! are encoded by `url`. What is taken on trust of these crates is stated where
//! they are called, in [`transport::header`], [`transport::json`],
//! [`transport::interact`] and [`communicate::util`].

pub mod communicate;
pub mod errors;
pub mod models;
pub mod text;
pub mod transport;

pub use communicate::network::Network;
pub use errors::ErrorKind;
