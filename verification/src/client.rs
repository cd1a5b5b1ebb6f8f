//! The transport configuration: a validated API key and the host to
//! poll.
//!
//! Construction fails with `ConfigError` exactly when the API key holds
//! a character invalid in an HTTP header value — before any network
//! activity. The HTTP exchange itself (building the connection pool,
//! sending `GET <host>/v1/decisions/stream` with the `x-api-key` header,
//! reading the body) is the unverified shell's job; it reads the checked
//! key and host from here.

use vstd::prelude::*;

use crate::errors::Error;

verus! {

/// The outside URL type, carried through opaquely: the host is parsed by
/// the caller and only handed on to the request builder.
#[verifier::external_type_specification]
#[verifier::external_body]
pub struct ExUrl(reqwest::Url);

/// Whether a character may appear in an HTTP header value. A one-byte
/// character must be the horizontal tab or a byte from 32 up, other than
/// 127; every character above 127 is encoded as bytes from 128 up, which
/// the header rules all allow.
pub open spec fn header_value_char_ok(c: char) -> bool {
    c == '\t' || (c as u32 >= 32 && c as u32 != 127)
}

/// Whether a string may stand as an HTTP header value.
pub open spec fn api_key_ok(s: Seq<char>) -> bool {
    forall|i: int| 0 <= i < s.len() ==> header_value_char_ok(#[trigger] s[i])
}

/// Relies on `reqwest::header::HeaderValue::from_str` (the `http`
/// crate): it accepts a string exactly when every byte is the horizontal
/// tab or is at least 32 and not 127, which in terms of characters is
/// `api_key_ok`.
#[verifier::external_body]
fn api_key_accepted(s: &str) -> (r: bool)
    ensures
        r == api_key_ok(s@),
{
    reqwest::header::HeaderValue::from_str(s).is_ok()
}

/// The fixed identifying user-agent the shell sends with every request.
pub fn user_agent() -> (r: &'static str)
    ensures
        r@ == "lapi_client"@,
{
    "lapi_client"
}

/// A checked transport configuration: the host to poll and an API key
/// fit for the `x-api-key` header. The key is sensitive: nothing here
/// offers to render it, and the shell must mark the header sensitive.
pub struct LapiClient {
    host: reqwest::Url,
    api_key: String,
}

impl LapiClient {
    /// Every client that exists holds a header-safe key: construction
    /// rejects all others.
    #[verifier::type_invariant]
    spec fn well_formed(self) -> bool {
        api_key_ok(self.api_key@)
    }

    /// Accept a host and an API key, rejecting — with `ConfigError`,
    /// before any network activity — exactly the keys that cannot stand
    /// in an HTTP header value.
    pub fn try_from_api_key(host: reqwest::Url, api_key: String) -> (r: Result<Self, Error>)
        ensures
            match r {
                Ok(c) => api_key_ok(api_key@) && c.view_api_key() == api_key@ && c.view_host()
                    == host,
                Err(e) => !api_key_ok(api_key@) && e == Error::ConfigError,
            },
    {
        if api_key_accepted(api_key.as_str()) {
            Ok(LapiClient { host, api_key })
        } else {
            Err(Error::ConfigError)
        }
    }

    /// The checked key, as the contracts speak of it.
    pub closed spec fn view_api_key(&self) -> Seq<char> {
        self.api_key@
    }

    /// The host, as the contracts speak of it.
    pub closed spec fn view_host(&self) -> reqwest::Url {
        self.host
    }

    /// The checked key, for the shell to put in the `x-api-key` header.
    pub fn api_key(&self) -> (r: &String)
        ensures
            r@ == self.view_api_key(),
            api_key_ok(r@),
    {
        proof {
            use_type_invariant(&*self);
        }
        &self.api_key
    }

    /// The host, for the shell to join the decisions path onto.
    pub fn host(&self) -> (r: &reqwest::Url)
        ensures
            *r == self.view_host(),
    {
        &self.host
    }
}

} // verus!
