//! Error objects.

use crate::error::code::{in_server_range, ErrorCode};
use crate::error::constants::{
    BATCH_NOT_SUPPORTED, OVERSIZED_BATCH_REQUEST, OVERSIZED_BATCH_RESPONSE, OVERSIZED_REQUEST,
    OVERSIZED_RESPONSE, SERVER_IS_BUSY, UNKNOWN_ERROR,
};
use crate::json::{
    as_i64, as_object, clone_value, json_of, json_parse, json_text, map_get, map_insert, member,
    members_of, new_map, no_members, object_value, signed_value, string_value, Json, JsonNumber,
    Members,
};
use crate::payload::{
    clone_payload, own_payload, payload_is_owned, payload_opt_json, payload_value, same_payload,
};
use crate::text::{cow_str, own_str, str_eq};
use crate::wire::{decode_text, parse, render, text_member, DecodeError, FormatError};
use serde_json::Value;
use std::borrow::Cow;
use vstd::prelude::*;
use vstd::std_specs::cmp::PartialEqSpec;

verus! {

/// The error that answers a failed call: a code, a message and, optionally,
/// further data.
///
/// The message and the data may be borrowed from the buffer that the object
/// was read from; [`ErrorObject::into_owned`] gives a copy that does not
/// depend on it.
#[derive(Debug)]
pub struct ErrorObject<'a> {
    /// The classification of the error.
    pub code: ErrorCode,
    /// A short description of the error.
    pub message: Cow<'a, str>,
    /// Further information about the error, if any.
    pub data: Option<Cow<'a, Value>>,
}

/// What an [`ErrorObject`] holds, whichever way it holds it.
pub struct ErrorObjectView {
    /// The classification of the error.
    pub code: ErrorCode,
    /// A short description of the error.
    pub message: Seq<char>,
    /// Further information about the error, if any.
    pub data: Option<Json>,
}

impl<'a> View for ErrorObject<'a> {
    type V = ErrorObjectView;

    open spec fn view(&self) -> ErrorObjectView {
        ErrorObjectView {
            code: self.code,
            message: self.message@,
            data: payload_opt_json(self.data),
        }
    }
}

/// The members that every error object is written with.
pub open spec fn error_object_required(e: ErrorObjectView) -> Map<Seq<char>, Json> {
    no_members().insert("code"@, Json::Number(JsonNumber::Int(e.code.code_spec() as int))).insert(
        "message"@,
        Json::Str(e.message),
    )
}

/// The JSON document that an error object is written as: an object with the
/// members `code` and `message`, and with the member `data` where there is
/// data, and only then.
pub open spec fn encode_error_object(e: ErrorObjectView) -> Json {
    Json::Object(
        match e.data {
            Some(d) => error_object_required(e).insert("data"@, d),
            None => error_object_required(e),
        },
    )
}

/// The code that a member is read as: it has to be there, and to be an
/// integer of 32 bits.
pub open spec fn decode_code(j: Option<Json>) -> Result<ErrorCode, DecodeError> {
    match j {
        None => Err(DecodeError::MissingCode),
        Some(Json::Number(JsonNumber::Int(n))) => if i32::MIN <= n <= i32::MAX {
            Ok(ErrorCode::from_code_spec(n as i32))
        } else {
            Err(DecodeError::InvalidCode)
        },
        Some(_) => Err(DecodeError::InvalidCode),
    }
}

/// The error object that a JSON document is read as. The document has to be
/// an object with a member `code` that is a 32-bit integer and a member
/// `message` that is a string. Its member `data` is taken as it is, where
/// there is one. Other members are passed over.
pub open spec fn decode_error_object(j: Json) -> Result<ErrorObjectView, DecodeError> {
    match j {
        Json::Object(m) => match decode_code(member(m, "code"@)) {
            Err(e) => Err(e),
            Ok(code) => match decode_text(
                member(m, "message"@),
                DecodeError::MissingMessage,
                DecodeError::InvalidMessage,
            ) {
                Err(e) => Err(e),
                Ok(message) => Ok(ErrorObjectView { code, message, data: member(m, "data"@) }),
            },
        },
        _ => Err(DecodeError::NotAnObject),
    }
}

/// The error object of one of the server's fixed errors.
pub open spec fn fixed_error(entry: (i32, &'static str)) -> ErrorObjectView {
    ErrorObjectView { code: ErrorCode::ServerError(entry.0), message: entry.1@, data: None }
}

/// The keys of an error object differ from each other.
pub proof fn lemma_error_object_keys_distinct()
    ensures
        "code"@ != "message"@,
        "code"@ != "data"@,
        "message"@ != "data"@,
{
    reveal_strlit("code");
    reveal_strlit("message");
    reveal_strlit("data");
    assert("code"@[0] != "data"@[0]);
}

/// Reading back what was written for an error object gives that object,
/// with the code that its number is read as.
pub proof fn lemma_error_object_round_trip(e: ErrorObjectView)
    ensures
        decode_error_object(encode_error_object(e)) matches Ok(d) && d == (ErrorObjectView {
            code: ErrorCode::from_code_spec(e.code.code_spec()),
            ..e
        }),
        e.code.is_canonical() ==> (decode_error_object(encode_error_object(e)) matches Ok(d) && d
            == e),
{
    lemma_error_object_keys_distinct();
}

/// An error object is written with a member `data` exactly where it has
/// data. The members `code` and `message` are always written, and no other
/// member ever is.
pub proof fn lemma_error_object_members(e: ErrorObjectView)
    ensures
        encode_error_object(e).member("code"@) == Some(
            Json::Number(JsonNumber::Int(e.code.code_spec() as int)),
        ),
        encode_error_object(e).member("message"@) == Some(Json::Str(e.message)),
        encode_error_object(e).member("data"@) == e.data,
        encode_error_object(e).member("data"@) is None <==> e.data is None,
        forall|key: Seq<char>| #[trigger]
            encode_error_object(e).member(key) is Some ==> key == "code"@ || key == "message"@
                || key == "data"@,
{
    lemma_error_object_keys_distinct();
}

/// An error object equals every error object that holds the same as it
/// does: one that borrows its message and its data equals the copy that
/// owns them.
pub proof fn lemma_error_object_eq_ignores_ownership(a: ErrorObject<'_>, b: ErrorObject<'_>)
    requires
        a@ == b@,
    ensures
        a.eq_spec(&b),
{
}

/// An error object with a borrowed message equals the one with an owned
/// message of the same characters.
pub proof fn lemma_borrowed_message_equals_owned(code: ErrorCode, borrowed: &str, owned: String)
    requires
        borrowed@ == owned@,
    ensures
        (ErrorObject { code, message: Cow::Borrowed(borrowed), data: None }).eq_spec(
            &ErrorObject { code, message: Cow::Owned(owned), data: None },
        ),
{
}

impl<'a> Clone for ErrorObject<'a> {
    fn clone(&self) -> (r: Self)
        ensures
            r@ == self@,
    {
        ErrorObject {
            code: self.code,
            message: match &self.message {
                Cow::Borrowed(b) => Cow::Borrowed(*b),
                Cow::Owned(o) => Cow::Owned(o.clone()),
            },
            data: clone_payload(&self.data),
        }
    }
}

impl<'a> PartialEq for ErrorObject<'a> {
    fn eq(&self, other: &Self) -> (r: bool) {
        self.code == other.code && str_eq(cow_str(&self.message), cow_str(&other.message))
            && same_payload(&self.data, &other.data)
    }
}

impl<'a> vstd::std_specs::cmp::PartialEqSpecImpl for ErrorObject<'a> {
    open spec fn obeys_eq_spec() -> bool {
        true
    }

    open spec fn eq_spec(&self, other: &Self) -> bool {
        self@ == other@
    }
}

impl<'a> From<ErrorCode> for ErrorObject<'a> {
    fn from(code: ErrorCode) -> (r: Self) {
        ErrorObject::from_code(code)
    }
}

impl<'a> vstd::std_specs::convert::FromSpecImpl<ErrorCode> for ErrorObject<'a> {
    open spec fn obeys_from_spec() -> bool {
        true
    }

    open spec fn from_spec(code: ErrorCode) -> Self {
        ErrorObject { code, message: Cow::Borrowed(code.msg_spec()), data: None }
    }
}

impl<'a> ErrorObject<'a> {
    /// The error object of `code`, with the default message of the code and
    /// without data.
    pub fn from_code(code: ErrorCode) -> (r: Self)
        ensures
            r == (ErrorObject { code, message: Cow::Borrowed(code.msg_spec()), data: None }),
    {
        ErrorObject { code, message: Cow::Borrowed(code.msg()), data: None }
    }

    /// Whether the object borrows nothing.
    pub open spec fn is_owned(&self) -> bool {
        self.message is Owned && payload_is_owned(self.data)
    }

    /// The same error object, holding copies of its own of what was
    /// borrowed.
    pub fn into_owned(self) -> (r: ErrorObject<'static>)
        ensures
            r@ == self@,
            r.is_owned(),
    {
        ErrorObject {
            code: self.code,
            message: own_str(self.message),
            data: own_payload(self.data),
        }
    }

    /// The error object of a server error with a fixed message.
    fn server_error(entry: (i32, &'static str)) -> (r: Self)
        ensures
            r == (ErrorObject {
                code: ErrorCode::ServerError(entry.0),
                message: Cow::Borrowed(entry.1),
                data: None,
            }),
            r@ == fixed_error(entry),
    {
        ErrorObject {
            code: ErrorCode::ServerError(entry.0),
            message: Cow::Borrowed(entry.1),
            data: None,
        }
    }

    /// The error of unknown cause.
    pub fn unknown_error() -> (r: Self)
        ensures
            r@ == fixed_error(UNKNOWN_ERROR),
            in_server_range(r.code.code_spec()),
    {
        Self::server_error(UNKNOWN_ERROR)
    }

    /// The error of a server that does not take requests in batches.
    pub fn batch_not_supported() -> (r: Self)
        ensures
            r@ == fixed_error(BATCH_NOT_SUPPORTED),
            in_server_range(r.code.code_spec()),
    {
        Self::server_error(BATCH_NOT_SUPPORTED)
    }

    /// The error of a request that is too large.
    pub fn oversized_request() -> (r: Self)
        ensures
            r@ == fixed_error(OVERSIZED_REQUEST),
            in_server_range(r.code.code_spec()),
    {
        Self::server_error(OVERSIZED_REQUEST)
    }

    /// The error of a response that is too large.
    pub fn oversized_response() -> (r: Self)
        ensures
            r@ == fixed_error(OVERSIZED_RESPONSE),
            in_server_range(r.code.code_spec()),
    {
        Self::server_error(OVERSIZED_RESPONSE)
    }

    /// The error of a batch of requests that is too large.
    pub fn oversized_batch_request() -> (r: Self)
        ensures
            r@ == fixed_error(OVERSIZED_BATCH_REQUEST),
            in_server_range(r.code.code_spec()),
    {
        Self::server_error(OVERSIZED_BATCH_REQUEST)
    }

    /// The error of a batch of responses that is too large.
    pub fn oversized_batch_response() -> (r: Self)
        ensures
            r@ == fixed_error(OVERSIZED_BATCH_RESPONSE),
            in_server_range(r.code.code_spec()),
    {
        Self::server_error(OVERSIZED_BATCH_RESPONSE)
    }

    /// The error of a server that cannot take the request now.
    pub fn server_is_busy() -> (r: Self)
        ensures
            r@ == fixed_error(SERVER_IS_BUSY),
            in_server_range(r.code.code_spec()),
    {
        Self::server_error(SERVER_IS_BUSY)
    }

    /// The JSON value that the error object is written as.
    pub fn to_value(&self) -> (v: Value)
        ensures
            json_of(v) == encode_error_object(self@),
    {
        let mut m = new_map();
        map_insert(&mut m, "code".to_owned(), signed_value(self.code.code()));
        map_insert(&mut m, "message".to_owned(), string_value(cow_str(&self.message).to_owned()));
        match &self.data {
            Some(d) => {
                map_insert(&mut m, "data".to_owned(), clone_value(payload_value(d)));
            },
            None => {},
        }
        object_value(m)
    }

    /// Reads the member `code` of `m`.
    fn code_member(m: &Members) -> (r: Result<ErrorCode, DecodeError>)
        ensures
            r == decode_code(member(members_of(*m), "code"@)),
    {
        match map_get(m, "code") {
            None => Err(DecodeError::MissingCode),
            Some(v) => match as_i64(v) {
                Some(n) => if -2147483648 <= n && n <= 2147483647 {
                    Ok(ErrorCode::from_code(n as i32))
                } else {
                    Err(DecodeError::InvalidCode)
                },
                None => Err(DecodeError::InvalidCode),
            },
        }
    }

    /// The error object that a JSON value is read as, borrowing its message
    /// and its data from the value.
    pub fn from_value<'v>(v: &'v Value) -> (r: Result<ErrorObject<'v>, DecodeError>)
        ensures
            match decode_error_object(json_of(*v)) {
                Ok(e) => r matches Ok(x) && x@ == e,
                Err(e) => r matches Err(f) && f == e,
            },
    {
        let m = match as_object(v) {
            Some(m) => m,
            None => {
                return Err(DecodeError::NotAnObject);
            },
        };
        let code = match Self::code_member(m) {
            Ok(code) => code,
            Err(e) => {
                return Err(e);
            },
        };
        let message = match text_member(
            m,
            "message",
            DecodeError::MissingMessage,
            DecodeError::InvalidMessage,
        ) {
            Ok(message) => message,
            Err(e) => {
                return Err(e);
            },
        };
        let data = match map_get(m, "data") {
            Some(d) => Some(Cow::Borrowed(d)),
            None => None,
        };
        Ok(ErrorObject { code, message: Cow::Borrowed(message), data })
    }

    /// The compact JSON text of the error object.
    pub fn to_json(&self) -> (r: Result<String, FormatError>)
        ensures
            exists|v: Value|
                json_of(v) == encode_error_object(self@) && match json_text(v) {
                    Some(t) => r matches Ok(s) && s@ == t,
                    None => r is Err,
                },
    {
        let v = self.to_value();
        render(&v)
    }

    /// The error object that a JSON text is read as.
    pub fn from_json(text: &str) -> (r: Result<ErrorObject<'static>, DecodeError>)
        ensures
            match json_parse(text@) {
                None => r matches Err(f) && f == DecodeError::Syntax,
                Some(j) => match decode_error_object(j) {
                    Ok(e) => r matches Ok(x) && x@ == e && x.is_owned(),
                    Err(e) => r matches Err(f) && f == e,
                },
            },
    {
        let v = match parse(text) {
            Ok(v) => v,
            Err(e) => {
                return Err(e);
            },
        };
        match ErrorObject::from_value(&v) {
            Ok(e) => Ok(e.into_owned()),
            Err(e) => Err(e),
        }
    }
}

} // verus!
