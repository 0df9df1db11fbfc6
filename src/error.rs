//! Errors of the library.

use vstd::prelude::*;
use vstd::string::StringExecFns;

verus! {

/// What went wrong. Transport and decoding failures that happen outside the
/// library are carried as their description.
#[derive(Clone, Debug)]
pub enum Error {
    /// The signing key is empty.
    InvalidLength,
    /// The configuration lacks what was asked for.
    ConfigError(String),
    /// A fixed diagnostic.
    Other(String),
    /// A diagnostic that carries details.
    OtherError(String),
    /// The WebSocket transport failed.
    WsError(String),
    /// A frame could not be decoded.
    SerdeError(String),
}

impl Error {
    /// The description of the error.
    pub open spec fn text(self) -> Seq<char> {
        match self {
            Error::InvalidLength => "Invalid Length"@,
            Error::ConfigError(m) => "Exchange not found in config: "@ + m@,
            Error::Other(m) => m@,
            Error::OtherError(m) => "Error: "@ + m@,
            Error::WsError(m) => "WebSocket error: "@ + m@,
            Error::SerdeError(m) => m@,
        }
    }

    pub fn message(&self) -> (r: String)
        ensures
            r@ == self.text(),
    {
        match self {
            Error::InvalidLength => "Invalid Length".to_owned(),
            Error::ConfigError(m) => "Exchange not found in config: ".to_owned().concat(m.as_str()),
            Error::Other(m) => m.clone(),
            Error::OtherError(m) => "Error: ".to_owned().concat(m.as_str()),
            Error::WsError(m) => "WebSocket error: ".to_owned().concat(m.as_str()),
            Error::SerdeError(m) => m.clone(),
        }
    }
}

/// Whether `e` is the fixed diagnostic `msg`.
pub open spec fn is_other(e: Error, msg: Seq<char>) -> bool {
    e matches Error::Other(m) && m@ == msg
}

/// Whether `e` is the detailed diagnostic `msg`.
pub open spec fn is_other_error(e: Error, msg: Seq<char>) -> bool {
    e matches Error::OtherError(m) && m@ == msg
}

/// The fixed diagnostic `msg`.
pub fn other(msg: &str) -> (e: Error)
    ensures
        is_other(e, msg@),
{
    Error::Other(msg.to_owned())
}

} // verus!
