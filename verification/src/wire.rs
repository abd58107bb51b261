//! Reading and writing JSON text, and the errors of decoding.

use crate::json::{
    as_str, json_of, json_parse, json_pretty_text, json_text, map_get, member, members_of,
    parse_text, to_pretty_text, to_text, Json, Members,
};
use serde_json::Value;
use vstd::prelude::*;

verus! {

/// Why a JSON document is not the message that was asked for.
#[derive(Debug, Clone, Copy, PartialEq, Eq, Structural)]
pub enum DecodeError {
    /// The text is not a JSON document.
    Syntax,
    /// The document is not an object.
    NotAnObject,
    /// The object has no `jsonrpc` member.
    MissingVersion,
    /// The `jsonrpc` member is not the string `"2.0"`.
    InvalidVersion,
    /// The object has no `method` member.
    MissingMethod,
    /// The `method` member is not a string.
    InvalidMethod,
    /// The identifier is neither `null`, nor an unsigned 64-bit integer, nor
    /// a string.
    InvalidId,
    /// The object has no `code` member.
    MissingCode,
    /// The `code` member is not a 32-bit integer.
    InvalidCode,
    /// The object has no `message` member.
    MissingMessage,
    /// The `message` member is not a string.
    InvalidMessage,
}

/// A value could not be written as JSON text.
#[derive(Debug, Clone, Copy, PartialEq, Eq, Structural)]
pub struct FormatError;

/// The string that a member is read as: `missing` where there is no member,
/// `invalid` where it is not a string.
pub open spec fn decode_text(
    j: Option<Json>,
    missing: DecodeError,
    invalid: DecodeError,
) -> Result<Seq<char>, DecodeError> {
    match j {
        None => Err(missing),
        Some(Json::Str(s)) => Ok(s),
        Some(_) => Err(invalid),
    }
}

/// Reads the member of `m` under `key` as a string, borrowed from `m`.
pub fn text_member<'v>(
    m: &'v Members,
    key: &str,
    missing: DecodeError,
    invalid: DecodeError,
) -> (r: Result<&'v str, DecodeError>)
    ensures
        match decode_text(member(members_of(*m), key@), missing, invalid) {
            Ok(s) => r matches Ok(t) && t@ == s,
            Err(e) => r matches Err(f) && f == e,
        },
{
    match map_get(m, key) {
        None => Err(missing),
        Some(v) => match as_str(v) {
            Some(s) => Ok(s),
            None => Err(invalid),
        },
    }
}

/// What is made of the outcome of reading a text: the document that was
/// read, or [`DecodeError::Syntax`] where the text was rejected.
pub fn parsed(outcome: Result<Value, serde_json::Error>) -> (r: Result<Value, DecodeError>)
    ensures
        match outcome {
            Ok(v) => r matches Ok(x) && x == v,
            Err(_) => r matches Err(e) && e == DecodeError::Syntax,
        },
{
    match outcome {
        Ok(v) => Ok(v),
        Err(_) => Err(DecodeError::Syntax),
    }
}

/// Reads a JSON document from `text`.
pub fn parse(text: &str) -> (r: Result<Value, DecodeError>)
    ensures
        match json_parse(text@) {
            Some(j) => r matches Ok(v) && json_of(v) == j,
            None => r matches Err(e) && e == DecodeError::Syntax,
        },
{
    parsed(parse_text(text))
}

/// What is made of the outcome of writing a value: the text that was
/// written, or [`FormatError`].
pub fn rendered(outcome: Result<String, serde_json::Error>) -> (r: Result<String, FormatError>)
    ensures
        match outcome {
            Ok(s) => r matches Ok(t) && t == s,
            Err(_) => r is Err,
        },
{
    match outcome {
        Ok(s) => Ok(s),
        Err(_) => Err(FormatError),
    }
}

/// Writes `v` as compact JSON text.
pub fn render(v: &Value) -> (r: Result<String, FormatError>)
    ensures
        match json_text(*v) {
            Some(t) => r matches Ok(s) && s@ == t,
            None => r is Err,
        },
{
    rendered(to_text(v))
}

/// Writes `v` as indented JSON text.
pub fn render_pretty(v: &Value) -> (r: Result<String, FormatError>)
    ensures
        match json_pretty_text(*v) {
            Some(t) => r matches Ok(s) && s@ == t,
            None => r is Err,
        },
{
    rendered(to_pretty_text(v))
}

} // verus!
