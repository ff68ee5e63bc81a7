//! The errors of the service.
use vstd::prelude::*;

use crate::text::joined;

verus! {

/// Why an operation failed.
#[derive(Debug, PartialEq, Eq)]
pub enum Error {
    /// A response did not have the expected shape; the text names what was missing.
    DeserializeError(String),
    /// A setting was missing, or reading or writing failed.
    IOError(String),
    /// The Discord side refused or could not be reached.
    SerenityError(String),
    /// An HTTP request failed.
    RequestError(String),
    /// A text could not be turned into JSON or back.
    JsonError(String),
    /// A text cannot stand as an HTTP header value.
    InvalidHeaderValue,
}

/// The message of a `DeserializeError` with the text `msg`.
pub open spec fn is_deserialize_error(e: Error, msg: Seq<char>) -> bool {
    e matches Error::DeserializeError(s) && s@ == msg
}

impl Error {
    /// The human-readable description of the error.
    pub open spec fn description_spec(self) -> Seq<char> {
        match self {
            Error::DeserializeError(m) => "deserialize error: "@ + m@,
            Error::IOError(m) => "io error: "@ + m@,
            Error::SerenityError(m) => "discord error: "@ + m@,
            Error::RequestError(m) => "request error: "@ + m@,
            Error::JsonError(m) => "json error: "@ + m@,
            Error::InvalidHeaderValue => "invalid header value"@,
        }
    }

    /// A deserialize error with the given message.
    pub fn deserialize(msg: &str) -> (r: Error)
        ensures
            is_deserialize_error(r, msg@),
    {
        Error::DeserializeError(String::from_str(msg))
    }

    /// The human-readable description of the error.
    pub fn description(&self) -> (r: String)
        ensures
            r@ == self.description_spec(),
    {
        match self {
            Error::DeserializeError(m) => joined("deserialize error: ", m.as_str()),
            Error::IOError(m) => joined("io error: ", m.as_str()),
            Error::SerenityError(m) => joined("discord error: ", m.as_str()),
            Error::RequestError(m) => joined("request error: ", m.as_str()),
            Error::JsonError(m) => joined("json error: ", m.as_str()),
            Error::InvalidHeaderValue => String::from_str("invalid header value"),
        }
    }
}

} // verus!
