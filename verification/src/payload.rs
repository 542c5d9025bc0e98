//! Decoding of a request body into the structured payload of a call.

use vstd::prelude::*;
use crate::text::trimmed;

verus! {

/// `serde_json::Value`, a JSON document as a tree. It is carried through as
/// it is: nothing here looks inside one.
#[verifier::external_type_specification]
#[verifier::external_body]
pub struct ExJsonValue(serde_json::Value);

/// The value that `text` denotes as one JSON document, or `None` where it is
/// not one.
pub uninterp spec fn json_value(text: Seq<char>) -> Option<serde_json::Value>;

/// `serde_json::from_str`, read as a `serde_json::Value`: succeeds on the
/// texts that are one JSON document and returns the value that the text
/// denotes, which depends on the text alone. The parser's error is dropped.
#[verifier::external_body]
fn parse_json(text: &str) -> (r: Option<serde_json::Value>)
    ensures
        r == json_value(text@),
{
    serde_json::from_str(text).ok()
}

/// The structured payload of a call.
#[derive(Debug, PartialEq)]
pub enum Payload {
    /// No payload: the body was blank, or was not JSON.
    Absent,
    /// The value that the body denotes.
    Structured(serde_json::Value),
}

/// A decoded body, with the note that its text had to be discarded.
#[derive(Debug, PartialEq)]
pub struct Decoded {
    pub payload: Payload,
    /// Whether the body held text that is not JSON.
    pub malformed: bool,
}

/// Whether a body holds a JSON document: its trimmed text is not empty and
/// is JSON.
pub open spec fn holds_json(body: Seq<char>) -> bool {
    trimmed(body).len() > 0 && json_value(trimmed(body)) is Some
}

/// Whether a body holds text that is not JSON.
pub open spec fn is_malformed(body: Seq<char>) -> bool {
    trimmed(body).len() > 0 && json_value(trimmed(body)) is None
}

/// What a body that is not blank decodes to, given what parsing its trimmed
/// text gave: the parsed value, or no payload where there is none.
pub open spec fn decoded_as(parsed: Option<serde_json::Value>) -> Decoded {
    match parsed {
        Some(value) => Decoded { payload: Payload::Structured(value), malformed: false },
        None => Decoded { payload: Payload::Absent, malformed: true },
    }
}

/// What a body text decodes to: no payload if it is blank, else the value of
/// its trimmed text if that is JSON, else no payload.
pub open spec fn decoded(body: Seq<char>) -> Decoded {
    if trimmed(body).len() == 0 {
        Decoded { payload: Payload::Absent, malformed: false }
    } else {
        decoded_as(json_value(trimmed(body)))
    }
}

impl Decoded {
    /// The decoding of a body that is not blank, given what parsing its
    /// trimmed text gave. Text that did not parse is not an error: it
    /// decodes to no payload, and `malformed` says so.
    pub fn from_parsed(parsed: Option<serde_json::Value>) -> (d: Decoded)
        ensures
            d == decoded_as(parsed),
    {
        match parsed {
            Some(value) => Decoded { payload: Payload::Structured(value), malformed: false },
            None => Decoded { payload: Payload::Absent, malformed: true },
        }
    }
}

/// Decodes a body text: trims it and, unless nothing is left, parses it as
/// JSON. A body that is not JSON does not fail the decoding.
pub fn decode_body(body: &str) -> (d: Decoded)
    ensures
        d == decoded(body@),
{
    let text = body.trim();
    if text.is_empty() {
        Decoded { payload: Payload::Absent, malformed: false }
    } else {
        Decoded::from_parsed(parse_json(text))
    }
}

} // verus!
