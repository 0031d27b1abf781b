//! The closed error taxonomy of the client core.
use vstd::prelude::*;
use vstd::string::StringExecFns;

verus! {

/// Every way a call through the client core can fail.
///
/// - `ConfigError`: a required configuration value was absent when the client
///   was constructed; no network activity has happened yet.
/// - `ConnectionError`: the transport failed, either while opening the
///   connection or while a frame was in flight.
/// - `ProtocolError`: an inbound frame was not a text frame, or its text was
///   not valid JSON.
/// - `EmptyResponseError`: the inbound stream ended before an expected frame
///   arrived ("connected but got no answer").
#[derive(Debug)]
pub enum ClientError {
    ConfigError { missing: String },
    ConnectionError { detail: String },
    ProtocolError { detail: String },
    EmptyResponseError,
}

impl ClientError {
    /// True of the error raised when the inbound stream ends early.
    pub fn is_empty_response(&self) -> (r: bool)
        ensures
            r <==> (*self matches ClientError::EmptyResponseError),
    {
        match self {
            ClientError::EmptyResponseError => true,
            _ => false,
        }
    }

    /// The error's description, one line of text.
    pub fn text(&self) -> (r: String)
        ensures
            (*self matches ClientError::ConfigError { missing } ==> r@ == "[error] env var "@
                + missing@ + " not found"@),
            (*self matches ClientError::ConnectionError { detail } ==> r@ == "connection error: "@
                + detail@),
            (*self matches ClientError::ProtocolError { detail } ==> r@ == "protocol error: "@
                + detail@),
            (*self matches ClientError::EmptyResponseError ==> r@ == "No response from server"@),
    {
        match self {
            ClientError::ConfigError { missing } => {
                let mut r = String::from_str("[error] env var ");
                r.append(missing.as_str());
                r.append(" not found");
                r
            },
            ClientError::ConnectionError { detail } => {
                let mut r = String::from_str("connection error: ");
                r.append(detail.as_str());
                r
            },
            ClientError::ProtocolError { detail } => {
                let mut r = String::from_str("protocol error: ");
                r.append(detail.as_str());
                r
            },
            ClientError::EmptyResponseError => String::from_str("No response from server"),
        }
    }
}

} // verus!
