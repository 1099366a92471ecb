//! Errors of the Honeycomb client.

use vstd::prelude::*;
use serde_json::Error as JsonError;

verus! {

/// Result type for Honeycomb client operations.
pub type Result<T> = std::result::Result<T, Error>;

/// Errors that can occur during Honeycomb client operations.
#[derive(Debug)]
pub enum Error {
    /// HTTP request failed
    Http(String),
    /// JSON serialization/deserialization failed
    Serialization(String),
    /// Configuration error
    Config(String),
    /// Batch buffer error
    Buffer(String),
    /// Channel send error
    Channel(String),
    /// Timeout error
    Timeout(String),
}

/// The message an error carries.
pub open spec fn error_message(e: Error) -> Seq<char> {
    match e {
        Error::Http(m) => m@,
        Error::Serialization(m) => m@,
        Error::Config(m) => m@,
        Error::Buffer(m) => m@,
        Error::Channel(m) => m@,
        Error::Timeout(m) => m@,
    }
}

/// The words that introduce an error of each kind.
pub open spec fn error_prefix(e: Error) -> Seq<char> {
    match e {
        Error::Http(_) => "HTTP error: "@,
        Error::Serialization(_) => "Serialization error: "@,
        Error::Config(_) => "Configuration error: "@,
        Error::Buffer(_) => "Buffer error: "@,
        Error::Channel(_) => "Channel error: "@,
        Error::Timeout(_) => "Timeout error: "@,
    }
}

/// Whether `r` is a configuration error with message `msg`.
pub open spec fn is_config_error<T>(r: std::result::Result<T, Error>, msg: Seq<char>) -> bool {
    r matches Err(Error::Config(m)) && m@ == msg
}

/// `serde_json::Error`, the error of a JSON (de)serialization.
#[verifier::external_type_specification]
#[verifier::external_body]
pub struct ExJsonError(JsonError);

/// The text of a serde_json error.
///
/// Wraps `<serde_json::Error as Display>::to_string`. Nothing is stated of
/// the text: for an I/O error serde_json hands on the text of the
/// `std::io::Error`, which may come from the operating system and its locale.
#[verifier::external_body]
fn json_error_message(e: &JsonError) -> String {
    e.to_string()
}

impl From<JsonError> for Error {
    /// A serialization error carrying serde_json's text of the error.
    fn from(err: JsonError) -> (r: Self)
        ensures
            r is Serialization,
    {
        Error::Serialization(json_error_message(&err))
    }
}

impl vstd::std_specs::convert::FromSpecImpl<JsonError> for Error {
    /// Whether `from` is described by `from_spec`: it is not, since the
    /// message text is not a function of the error value; the contract of
    /// `from` says what it gives.
    open spec fn obeys_from_spec() -> bool {
        false
    }

    /// Some serialization error.
    open spec fn from_spec(v: JsonError) -> Error {
        Error::Serialization(vstd::pervasive::arbitrary())
    }
}

impl Error {
    /// The error as text: the words naming its kind, then its message.
    pub fn to_string(&self) -> (s: String)
        ensures
            s@ == error_prefix(*self) + error_message(*self),
    {
        let (prefix, message) = match self {
            Error::Http(m) => ("HTTP error: ", m),
            Error::Serialization(m) => ("Serialization error: ", m),
            Error::Config(m) => ("Configuration error: ", m),
            Error::Buffer(m) => ("Buffer error: ", m),
            Error::Channel(m) => ("Channel error: ", m),
            Error::Timeout(m) => ("Timeout error: ", m),
        };
        let mut s = String::from_str(prefix);
        s.append(message.as_str());
        s
    }

    /// The message the error carries.
    pub fn message(&self) -> (m: &String)
        ensures
            m@ == error_message(*self),
    {
        match self {
            Error::Http(m) => m,
            Error::Serialization(m) => m,
            Error::Config(m) => m,
            Error::Buffer(m) => m,
            Error::Channel(m) => m,
            Error::Timeout(m) => m,
        }
    }
}

} // verus!
