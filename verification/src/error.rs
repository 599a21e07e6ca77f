//! Error types of the relay.

use vstd::prelude::*;
use vstd::string::StringExecFns;

verus! {

/// Why an inbound document was not accepted.
#[derive(Clone, Copy, Debug, PartialEq, Eq, Structural)]
pub enum ParseError {
    /// The document is not JSON, lacks a required member, or holds a member
    /// of the wrong shape.
    Malformed,
}

/// What can go wrong around the relay: on the bus, at startup, or on the
/// way to the registry. Each variant carries the cause in words.
#[derive(Debug, PartialEq, Eq)]
pub enum AppError {
    ConnectionError(String),
    MissingConfig(String),
    HttpError(String),
}

impl AppError {
    /// The error as one line of text: what failed, then the cause.
    pub open spec fn message(self) -> Seq<char> {
        match self {
            AppError::ConnectionError(cause) => "ConnectionError: "@ + cause@,
            AppError::MissingConfig(cause) => "Missing config: "@ + cause@,
            AppError::HttpError(cause) => "HTTP error: "@ + cause@,
        }
    }

    /// Writes the error as one line of text.
    pub fn to_string(&self) -> (r: String)
        ensures
            r@ == self.message(),
    {
        match self {
            AppError::ConnectionError(cause) => String::from_str("ConnectionError: ").concat(
                cause.as_str(),
            ),
            AppError::MissingConfig(cause) => String::from_str("Missing config: ").concat(
                cause.as_str(),
            ),
            AppError::HttpError(cause) => String::from_str("HTTP error: ").concat(cause.as_str()),
        }
    }
}

} // verus!
