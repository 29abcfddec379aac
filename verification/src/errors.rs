//! The two kinds of failure a client operation can end in.

use vstd::prelude::*;

verus! {

#[verifier::external_type_specification]
#[verifier::external_body]
pub struct ExUrlParseError(url::ParseError);

/// Why a request did not produce a usable response.
#[derive(Debug, Clone, Copy, PartialEq, Eq, Structural)]
pub enum RequestFailure {
    /// The transport could not complete the exchange.
    Transport,
    /// The server answered with a status outside the 2xx range.
    Status { code: u16 },
    /// The response body did not hold a record of the expected shape.
    Decode,
}

/// A terminal failure of one client operation.
#[derive(Debug)]
#[allow(inconsistent_fields)]
pub enum DingError {
    /// The base URL and a relative path did not join into an absolute URL.
    Url { source: url::ParseError },
    /// The transport failed, the status was not 2xx, or the body did not decode.
    Request { source: RequestFailure },
}

impl DingError {
    /// Whether this is a request failure caused by an undecodable body.
    pub open spec fn is_decode(&self) -> bool {
        *self == (DingError::Request { source: RequestFailure::Decode })
    }

    /// Whether this is a request failure caused by the status `code`.
    pub open spec fn is_status(&self, code: u16) -> bool {
        *self == (DingError::Request { source: RequestFailure::Status { code } })
    }

    /// The HTTP status carried by a status failure, if this is one.
    pub fn status_code(&self) -> (code: Option<u16>)
        ensures
            code == (match *self {
                DingError::Request { source: RequestFailure::Status { code } } => Some(code),
                _ => None,
            }),
    {
        match self {
            DingError::Request { source: RequestFailure::Status { code } } => Some(*code),
            _ => None,
        }
    }

    /// Whether the failure came from joining or parsing a URL.
    pub fn is_url_error(&self) -> (b: bool)
        ensures
            b == (*self is Url),
    {
        match self {
            DingError::Url { .. } => true,
            _ => false,
        }
    }
}

} // verus!
