//! Typed client core for the Redfish systems-management REST API.
//!
//! A fetch is one HTTPS GET of one resource of a management controller. This
//! crate decides everything about it that is not the network exchange
//! itself: the URI ([`build_uri`]), the request with its headers and
//! credentials ([`Redfish::get`] and the named accessors), which replies are
//! accepted ([`Reply::check`]) and what the fetch ends with ([`finish`]).
//! It opens no connection and reads no body; a transport sends the
//! [`Request`] and reports back in plain values.

pub mod client;
pub mod config;
pub mod decimal;
pub mod endpoint;
pub mod request;
pub mod response;
pub mod uri;
pub mod version;

pub use client::Redfish;
pub use config::Config;
pub use request::{Credentials, Header, Request};
pub use response::{finish, Error, ErrorKind, Reply};
pub use uri::build_uri;
pub use version::ApiVersion;
