//! JSON serialization and parsing, carried out by serde_json behind trusted
//! wrappers, and the decoding of inbound frames into JSON values.
use vstd::prelude::*;
use vstd::string::StringExecFns;

use crate::errors::ClientError;

verus! {

#[verifier::external_type_specification]
#[verifier::external_body]
pub struct ExValue(serde_json::Value);

#[verifier::external_type_specification]
#[verifier::external_body]
pub struct ExJsonError(serde_json::Error);

/// The JSON string literal (opening quote, escaped characters, closing quote)
/// standing for a sequence of characters.
pub uninterp spec fn json_quoted(s: Seq<char>) -> Seq<char>;

/// The compact serialized text of a JSON value.
pub uninterp spec fn json_text_of(v: serde_json::Value) -> Seq<char>;

/// The JSON value a text parses to, if the text is valid JSON.
pub uninterp spec fn json_parsed(s: Seq<char>) -> Option<serde_json::Value>;

/// Relies on serde_json::to_string for a string slice: it returns the JSON
/// string literal for those characters, depends on the characters alone, and
/// cannot fail (a string slice has no failing serializer and holds no map).
#[verifier::external_body]
pub(crate) fn quote_str(s: &str) -> (r: String)
    ensures
        r@ == json_quoted(s@),
{
    serde_json::to_string(s).unwrap()
}

/// Relies on serde_json's Display for Value: it writes the value in compact
/// JSON form, cannot fail, and depends on the value alone.
#[verifier::external_body]
pub(crate) fn value_to_text(v: &serde_json::Value) -> (r: String)
    ensures
        r@ == json_text_of(*v),
{
    v.to_string()
}

/// Relies on serde_json::from_str for Value: it parses a text as one JSON
/// value, succeeding exactly on valid JSON, and depends on the text alone.
#[verifier::external_body]
fn parse_json(s: &str) -> (r: Result<serde_json::Value, serde_json::Error>)
    ensures
        r is Ok <==> json_parsed(s@) is Some,
        r matches Ok(v) ==> json_parsed(s@) == Some(v),
{
    serde_json::from_str(s)
}

/// Relies on serde_json::Error's Display: it describes the parse failure.
#[verifier::external_body]
fn json_error_text(e: &serde_json::Error) -> String {
    e.to_string()
}

/// One inbound WebSocket frame, reduced to what the protocol reads of it:
/// either a text frame with its text, or a frame of any other kind.
pub enum Frame {
    Text(String),
    NonText,
}

/// Whether a frame decodes: it must be a text frame whose text is valid JSON.
pub open spec fn decode_ok(f: Frame) -> bool {
    f matches Frame::Text(s) && json_parsed(s@) is Some
}

/// The JSON value a decodable frame decodes to.
pub open spec fn decoded(f: Frame) -> serde_json::Value
    recommends
        decode_ok(f),
{
    match f {
        Frame::Text(s) => match json_parsed(s@) {
            Option::Some(v) => v,
            Option::None => arbitrary(),
        },
        Frame::NonText => arbitrary(),
    }
}

/// How a decode result must relate to the frame it came from: the parsed value
/// exactly when the frame is a text frame holding valid JSON, and a
/// `ProtocolError` otherwise.
pub open spec fn decode_result_matches(f: Frame, r: Result<serde_json::Value, ClientError>) -> bool {
    &&& r is Ok <==> decode_ok(f)
    &&& (r matches Ok(v) ==> v == decoded(f))
    &&& (r matches Err(e) ==> e matches ClientError::ProtocolError { .. })
}

/// Unwraps one inbound frame back into a JSON value: fails with a
/// `ProtocolError` if the frame is not a text frame or its text is not valid
/// JSON, and returns the parsed value otherwise.
pub fn decode(f: Frame) -> (r: Result<serde_json::Value, ClientError>)
    ensures
        decode_result_matches(f, r),
{
    match f {
        Frame::NonText => Err(
            ClientError::ProtocolError { detail: String::from_str("inbound frame is not a text frame") },
        ),
        Frame::Text(s) => match parse_json(s.as_str()) {
            Ok(v) => Ok(v),
            Err(e) => Err(ClientError::ProtocolError { detail: json_error_text(&e) }),
        },
    }
}

} // verus!
