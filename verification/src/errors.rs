//! The error taxonomy of the client.
//!
//! All four kinds are recoverable by the caller: the library never
//! aborts, it returns or yields an error value.

use vstd::prelude::*;

verus! {

/// Everything that can go wrong between configuring the client and
/// handing a decoded response to the caller.
#[derive(Debug, Clone, Copy, PartialEq, Eq, Structural)]
pub enum Error {
    /// A configuration value was rejected before any network activity:
    /// the API key holds characters invalid in an HTTP header value.
    ConfigError,
    /// The request could not be carried out (connection, name
    /// resolution, timeout).
    TransportError,
    /// The service answered with the carried non-success status code.
    HttpStatusError(u16),
    /// The response body was not valid JSON of the expected shape.
    DecodeError,
}

impl Error {
    /// A short fixed description of the error kind.
    pub fn describe(&self) -> (r: &'static str)
        ensures
            r@ == match *self {
                Error::ConfigError => "invalid configuration"@,
                Error::TransportError => "transport failure"@,
                Error::HttpStatusError(_) => "unexpected http status"@,
                Error::DecodeError => "failed to decode decisions stream response"@,
            },
    {
        match self {
            Error::ConfigError => "invalid configuration",
            Error::TransportError => "transport failure",
            Error::HttpStatusError(_) => "unexpected http status",
            Error::DecodeError => "failed to decode decisions stream response",
        }
    }
}

/// Whether a status code counts as success on the wire.
pub open spec fn is_success_status(code: u16) -> bool {
    200 <= code < 300
}

/// Classify a response status: success codes pass, any other code is
/// surfaced as `HttpStatusError` carrying that code.
pub fn check_status(code: u16) -> (r: Result<(), Error>)
    ensures
        is_success_status(code) <==> r is Ok,
        !is_success_status(code) ==> r == Result::<(), Error>::Err(Error::HttpStatusError(code)),
{
    if 200 <= code && code < 300 {
        Ok(())
    } else {
        Err(Error::HttpStatusError(code))
    }
}

} // verus!
