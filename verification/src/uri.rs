//! Composition of the absolute URI of a resource.

use vstd::prelude::*;
use crate::decimal::{append_decimal, decimal};
use crate::version::ApiVersion;

verus! {

/// The absolute HTTPS URI of the resource at `api`: the host, then the port
/// if there is one, then the version's path segment if there is one, then
/// the path fragment, verbatim. One of four forms, by what is present.
pub open spec fn uri(
    host: Seq<char>,
    port: Option<u16>,
    api_version: Option<ApiVersion>,
    api: Seq<char>,
) -> Seq<char> {
    match (port, api_version) {
        (Some(p), Some(v)) => "https://"@ + host + ":"@ + decimal(p as nat) + "/"@ + v.segment()
            + "/"@ + api,
        (Some(p), None) => "https://"@ + host + ":"@ + decimal(p as nat) + "/"@ + api,
        (None, Some(v)) => "https://"@ + host + "/"@ + v.segment() + "/"@ + api,
        (None, None) => "https://"@ + host + "/"@ + api,
    }
}

/// Every URI is an HTTPS URI of the host, and ends with the path fragment as
/// it was handed in.
pub proof fn lemma_uri_frame(
    host: Seq<char>,
    port: Option<u16>,
    api_version: Option<ApiVersion>,
    api: Seq<char>,
)
    ensures
        ("https://"@ + host).is_prefix_of(uri(host, port, api_version, api)),
        api.is_suffix_of(uri(host, port, api_version, api)),
{
}

/// Builds the URI of a resource from host, port, API version and path
/// fragment. Nothing is encoded, normalised or validated: every input gives
/// a URI, and the fragment ends it as it was handed in.
pub fn build_uri(
    host: &String,
    port: Option<u16>,
    api_version: Option<ApiVersion>,
    api: &str,
) -> (out: String)
    ensures
        out@ == uri(host@, port, api_version, api@),
{
    let mut out = "https://".to_owned();
    out.append(host.as_str());
    match port {
        Some(p) => {
            out.append(":");
            append_decimal(&mut out, p as u64);
        },
        None => {},
    }
    out.append("/");
    match api_version {
        Some(v) => {
            out.append(v.as_str());
            out.append("/");
        },
        None => {},
    }
    out.append(api);
    out
}

} // verus!
