//! The request that a fetch sends, described by plain values.
//!
//! Every fetch is one HTTPS GET. What varies is the URI and whether
//! credentials for HTTP Basic authentication go with it; the two headers are
//! always the same.

use vstd::prelude::*;
use crate::config::{text, ConfigView};
use crate::uri::uri;

verus! {

/// One header line of a request.
#[derive(Debug, PartialEq, Eq)]
pub struct Header {
    pub name: String,
    pub value: String,
}

/// A header line as plain mathematical values.
pub struct HeaderView {
    pub name: Seq<char>,
    pub value: Seq<char>,
}

impl View for Header {
    type V = HeaderView;

    open spec fn view(&self) -> HeaderView {
        HeaderView { name: self.name@, value: self.value@ }
    }
}

/// The user and password that HTTP Basic authentication encodes.
#[derive(Debug, PartialEq, Eq)]
pub struct Credentials {
    pub user: String,
    pub password: Option<String>,
}

/// Credentials as plain mathematical values.
pub struct CredentialsView {
    pub user: Seq<char>,
    pub password: Option<Seq<char>>,
}

impl View for Credentials {
    type V = CredentialsView;

    open spec fn view(&self) -> CredentialsView {
        CredentialsView { user: self.user@, password: text(self.password) }
    }
}

/// An HTTPS GET request.
#[derive(Debug, PartialEq, Eq)]
pub struct Request {
    /// The absolute URI to get.
    pub uri: String,
    /// The header lines, in the order in which they are attached.
    pub headers: Vec<Header>,
    /// The credentials to authenticate with; `None` sends the request
    /// unauthenticated, with no `Authorization` header.
    pub auth: Option<Credentials>,
}

/// A request as plain mathematical values.
pub struct RequestView {
    pub uri: Seq<char>,
    pub headers: Seq<HeaderView>,
    pub auth: Option<CredentialsView>,
}

impl View for Request {
    type V = RequestView;

    open spec fn view(&self) -> RequestView {
        RequestView {
            uri: self.uri@,
            headers: Seq::new(self.headers@.len(), |i: int| self.headers@[i]@),
            auth: match self.auth {
                Some(c) => Some(c@),
                None => None,
            },
        }
    }
}

/// The headers of every request: the body that comes back is to be JSON,
/// and the request declares the same content type for itself.
pub open spec fn json_headers() -> Seq<HeaderView> {
    seq![
        HeaderView { name: "Accept"@, value: "application/json"@ },
        HeaderView { name: "Content-Type"@, value: "application/json"@ },
    ]
}

/// The credentials that go with a request: those of the user, if one is
/// configured, with the password as it is configured. Without a user there
/// are none, whatever the password.
pub open spec fn basic_auth(
    user: Option<Seq<char>>,
    password: Option<Seq<char>>,
) -> Option<CredentialsView> {
    match user {
        Some(u) => Some(CredentialsView { user: u, password }),
        None => None,
    }
}

/// The request that fetches the resource at path fragment `api` from the
/// endpoint that `config` describes.
pub open spec fn request_for(config: ConfigView, api: Seq<char>) -> RequestView {
    RequestView {
        uri: uri(config.host, config.port, config.api_version, api),
        headers: json_headers(),
        auth: basic_auth(config.user, config.password),
    }
}

/// With a user configured, a request carries that user's credentials, with
/// the password as it is configured. Without a user it carries none,
/// whatever the password.
pub proof fn lemma_credentials_follow_user(config: ConfigView, api: Seq<char>)
    ensures
        config.user matches Some(user) ==> request_for(config, api).auth == Some(
            (CredentialsView { user, password: config.password }),
        ),
        config.user is None ==> request_for(config, api).auth is None,
{
}

impl Credentials {
    /// Picks the credentials to send out of a configured user and password.
    pub fn select(user: &Option<String>, password: &Option<String>) -> (auth: Option<Credentials>)
        ensures
            (match auth {
                Some(c) => Some(c@),
                None => None,
            }) == basic_auth(text(*user), text(*password)),
    {
        match user {
            Some(u) => {
                let password: Option<String> = match password {
                    Some(p) => Some(p.clone()),
                    None => None,
                };
                Some(Credentials { user: u.clone(), password })
            },
            None => None,
        }
    }
}

} // verus!
