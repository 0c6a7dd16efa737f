//! What a caller states about the endpoint to talk to.

use vstd::prelude::*;
use crate::version::ApiVersion;

verus! {

/// The characters of an optional string.
pub open spec fn text(s: Option<String>) -> Option<Seq<char>> {
    match s {
        Some(s) => Some(s@),
        None => None,
    }
}

/// Information to interact with a specified endpoint.
#[derive(Debug)]
pub struct Config {
    /// User with access to the endpoint.
    pub user: Option<String>,
    /// The host that is exposing the Redfish endpoint: the IP address or the
    /// FQDN of the management controller, and nothing else.
    pub host: String,
    /// Version of the endpoint.
    pub api_version: Option<ApiVersion>,
    /// Password to access the endpoint, if needed. It is read only when a
    /// user is set.
    pub password: Option<String>,
    /// Port that the endpoint is exposed at.
    pub port: Option<u16>,
}

/// A configuration as plain mathematical values.
pub struct ConfigView {
    pub user: Option<Seq<char>>,
    pub host: Seq<char>,
    pub api_version: Option<ApiVersion>,
    pub password: Option<Seq<char>>,
    pub port: Option<u16>,
}

impl View for Config {
    type V = ConfigView;

    open spec fn view(&self) -> ConfigView {
        ConfigView {
            user: text(self.user),
            host: self.host@,
            api_version: self.api_version,
            password: text(self.password),
            port: self.port,
        }
    }
}

impl Config {
    /// A configuration names a host. The port is a 16-bit value by its type,
    /// and a password without a user is allowed and ignored.
    pub open spec fn well_formed(&self) -> bool {
        self.host@.len() > 0
    }

    /// Whether this configuration names a host.
    pub fn is_well_formed(&self) -> (ok: bool)
        ensures
            ok == self.well_formed(),
    {
        !self.host.as_str().is_empty()
    }
}

} // verus!
