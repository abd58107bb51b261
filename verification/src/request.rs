//! Request objects.

use crate::id::{decode_id, encode_id, Id, IdView};
use crate::json::{
    as_object, clone_value, json_of, json_parse, json_pretty_text, json_text, map_get, map_insert,
    member, members_of, new_map, no_members, object_value, string_value, Json, Members,
};
use crate::payload::{
    clone_payload, own_payload, payload_is_owned, payload_opt_json, payload_value, same_payload,
};
use crate::text::{cow_str, own_str, str_eq};
use crate::version::{version_text, Version};
use crate::wire::{
    decode_text, parse, render, render_pretty, text_member, DecodeError, FormatError,
};
use serde_json::Value;
use std::borrow::Cow;
use vstd::prelude::*;
use vstd::std_specs::cmp::PartialEqSpec;

verus! {

/// A request: the name of a method, optional parameters and an optional
/// identifier.
///
/// A request with an identifier is a call, and is answered; one without is
/// a notification, and is not. The identifier `null` is an identifier: a
/// request that has it is a call.
///
/// What the request holds may be borrowed from the buffer that it was read
/// from; [`Request::into_owned`] gives a copy that does not depend on it.
#[derive(Debug)]
pub struct Request<'a> {
    /// The protocol version, always 2.0.
    pub jsonrpc: Version,
    /// The name of the method to be invoked.
    pub method: Cow<'a, str>,
    /// The parameters of the invocation, if any.
    pub params: Option<Cow<'a, Value>>,
    /// The identifier of the call, or none for a notification.
    pub id: Option<Id<'a>>,
}

/// What a [`Request`] holds, whichever way it holds it.
pub struct RequestView {
    /// The name of the method to be invoked.
    pub method: Seq<char>,
    /// The parameters of the invocation, if any.
    pub params: Option<Json>,
    /// The identifier of the call, or none for a notification.
    pub id: Option<IdView>,
}

/// What an optional identifier holds.
pub open spec fn id_opt_view(id: Option<Id<'_>>) -> Option<IdView> {
    match id {
        Some(i) => Some(i@),
        None => None,
    }
}

impl<'a> View for Request<'a> {
    type V = RequestView;

    open spec fn view(&self) -> RequestView {
        RequestView {
            method: self.method@,
            params: payload_opt_json(self.params),
            id: id_opt_view(self.id),
        }
    }
}

/// The members that every request is written with.
pub open spec fn request_required(r: RequestView) -> Map<Seq<char>, Json> {
    no_members().insert("jsonrpc"@, Json::Str(version_text())).insert(
        "method"@,
        Json::Str(r.method),
    )
}

/// The members of a request up to its parameters.
pub open spec fn request_with_params(r: RequestView) -> Map<Seq<char>, Json> {
    match r.params {
        Some(p) => request_required(r).insert("params"@, p),
        None => request_required(r),
    }
}

/// The JSON document that a request is written as: an object with the
/// members `jsonrpc`, which is the string `"2.0"`, and `method`; with the
/// member `params` where there are parameters, and only then; and with the
/// member `id` where there is an identifier, and only then.
pub open spec fn encode_request(r: RequestView) -> Json {
    Json::Object(
        match r.id {
            Some(id) => request_with_params(r).insert("id"@, encode_id(id)),
            None => request_with_params(r),
        },
    )
}

/// What the member `jsonrpc` is read as: it has to be there, and to be the
/// string `"2.0"`.
pub open spec fn decode_version(j: Option<Json>) -> Result<Version, DecodeError> {
    match j {
        None => Err(DecodeError::MissingVersion),
        Some(v) => if v == Json::Str(version_text()) {
            Ok(Version)
        } else {
            Err(DecodeError::InvalidVersion)
        },
    }
}

/// What the member `id` is read as: no identifier where there is no member,
/// the identifier that the member holds otherwise.
pub open spec fn decode_id_member(j: Option<Json>) -> Result<Option<IdView>, DecodeError> {
    match j {
        None => Ok(None),
        Some(v) => match decode_id(v) {
            Some(id) => Ok(Some(id)),
            None => Err(DecodeError::InvalidId),
        },
    }
}

/// The request that a JSON document is read as. The document has to be an
/// object with a member `jsonrpc` that is the string `"2.0"` and a member
/// `method` that is a string. Its member `params` is taken as it is, and
/// its member `id` is read as an identifier, where there is one: a member
/// that is there and holds `null` is an identifier, not an absent one.
/// Other members are passed over.
pub open spec fn decode_request(j: Json) -> Result<RequestView, DecodeError> {
    match j {
        Json::Object(m) => match decode_version(member(m, "jsonrpc"@)) {
            Err(e) => Err(e),
            Ok(_) => match decode_text(
                member(m, "method"@),
                DecodeError::MissingMethod,
                DecodeError::InvalidMethod,
            ) {
                Err(e) => Err(e),
                Ok(method) => match decode_id_member(member(m, "id"@)) {
                    Err(e) => Err(e),
                    Ok(id) => Ok(RequestView { method, params: member(m, "params"@), id }),
                },
            },
        },
        _ => Err(DecodeError::NotAnObject),
    }
}

/// The keys of a request differ from each other.
pub proof fn lemma_request_keys_distinct()
    ensures
        "jsonrpc"@ != "method"@,
        "jsonrpc"@ != "params"@,
        "jsonrpc"@ != "id"@,
        "method"@ != "params"@,
        "method"@ != "id"@,
        "params"@ != "id"@,
{
    reveal_strlit("jsonrpc");
    reveal_strlit("method");
    reveal_strlit("params");
    reveal_strlit("id");
    assert("jsonrpc"@.len() == 7 && "method"@.len() == 6 && "id"@.len() == 2);
    assert("method"@[0] != "params"@[0]);
}

/// Reading back what was written for a request gives that request: its
/// method, its parameters and its identifier.
pub proof fn lemma_request_round_trip(r: RequestView)
    ensures
        decode_request(encode_request(r)) matches Ok(d) && d == r,
{
    lemma_request_keys_distinct();
    if r.id is Some {
        crate::id::lemma_id_round_trip(r.id->0);
    }
}

/// A request that is written as text is read back from that text, wherever
/// reading the text gives the document that was written.
pub proof fn lemma_request_text_round_trip(r: RequestView, v: Value, text: Seq<char>)
    requires
        json_of(v) == encode_request(r),
        json_text(v) == Some(text) || json_pretty_text(v) == Some(text),
        json_parse(text) == Some(json_of(v)),
    ensures
        json_parse(text) matches Some(j) && decode_request(j) matches Ok(d) && d == r,
{
    lemma_request_round_trip(r);
}

/// A request is written with a member `params` exactly where it has
/// parameters, and with a member `id` exactly where it has an identifier.
/// The members `jsonrpc` and `method` are always written.
pub proof fn lemma_request_members(r: RequestView)
    ensures
        encode_request(r).member("jsonrpc"@) == Some(Json::Str(version_text())),
        encode_request(r).member("method"@) == Some(Json::Str(r.method)),
        encode_request(r).member("params"@) == r.params,
        encode_request(r).member("params"@) is None <==> r.params is None,
        encode_request(r).member("id"@) is None <==> r.id is None,
        r.id matches Some(id) ==> encode_request(r).member("id"@) == Some(encode_id(id)),
        forall|key: Seq<char>| #[trigger]
            encode_request(r).member(key) is Some ==> key == "jsonrpc"@ || key == "method"@ || key
                == "params"@ || key == "id"@,
{
    lemma_request_keys_distinct();
}

/// Two requests are written as the same document only if they are the same
/// request: a notification and a call never are.
pub proof fn lemma_encode_request_injective(a: RequestView, b: RequestView)
    requires
        encode_request(a) == encode_request(b),
    ensures
        a == b,
{
    lemma_request_round_trip(a);
    lemma_request_round_trip(b);
}

/// The call with the identifier `null` is written with a member `id` that
/// holds `null`, where a notification is written without that member, and
/// it is read back as a call.
pub proof fn lemma_null_id_is_a_call(method: Seq<char>, params: Option<Json>)
    ensures
        encode_request(RequestView { method, params, id: Some(IdView::Null) }).member("id"@)
            == Some(Json::Null),
        encode_request(RequestView { method, params, id: None }).member("id"@) is None,
        decode_request(
            encode_request(RequestView { method, params, id: Some(IdView::Null) }),
        ) matches Ok(d) && d.id == Some(IdView::Null),
{
    lemma_request_members(RequestView { method, params, id: Some(IdView::Null) });
    lemma_request_members(RequestView { method, params, id: None });
    lemma_request_round_trip(RequestView { method, params, id: Some(IdView::Null) });
}

/// Two requests for the same method with the same parameters are equal,
/// whatever their identifiers: a call equals the notification of the same
/// method and parameters.
pub proof fn lemma_request_eq_ignores_id(a: Request<'_>, b: Request<'_>)
    requires
        a@.method == b@.method,
        a@.params == b@.params,
    ensures
        a.eq_spec(&b),
{
}

/// A request equals every request that holds the same as it does, borrowed
/// or owned.
pub proof fn lemma_request_eq_ignores_ownership(a: Request<'_>, b: Request<'_>)
    requires
        a@ == b@,
    ensures
        a.eq_spec(&b),
{
}

/// A request is a notification exactly when it was made without an
/// identifier: one made with the identifier `null` is a call.
pub proof fn lemma_notification_has_no_id(
    method: Cow<'_, str>,
    params: Option<Cow<'_, Value>>,
    id: Option<Id<'_>>,
)
    ensures
        (Request { jsonrpc: Version, method, params, id }).is_notification() <==> id is None,
        !(Request { jsonrpc: Version, method, params, id: Some(Id::Null) }).is_notification(),
{
}

impl<'a> Clone for Request<'a> {
    fn clone(&self) -> (r: Self)
        ensures
            r@ == self@,
    {
        Request {
            jsonrpc: Version,
            method: match &self.method {
                Cow::Borrowed(b) => Cow::Borrowed(*b),
                Cow::Owned(o) => Cow::Owned(o.clone()),
            },
            params: clone_payload(&self.params),
            id: match &self.id {
                Some(id) => Some(id.clone()),
                None => None,
            },
        }
    }
}

impl<'a> PartialEq for Request<'a> {
    fn eq(&self, other: &Self) -> (r: bool) {
        str_eq(cow_str(&self.method), cow_str(&other.method)) && same_payload(
            &self.params,
            &other.params,
        )
    }
}

impl<'a> vstd::std_specs::cmp::PartialEqSpecImpl for Request<'a> {
    open spec fn obeys_eq_spec() -> bool {
        true
    }

    /// Two requests are equal where they name the same method with the same
    /// parameters, whatever their identifiers.
    open spec fn eq_spec(&self, other: &Self) -> bool {
        self@.method == other@.method && self@.params == other@.params
    }
}

impl<'a> Request<'a> {
    /// The request for `method` with the given parameters and identifier.
    pub fn new(
        method: Cow<'a, str>,
        params: Option<Cow<'a, Value>>,
        id: Option<Id<'a>>,
    ) -> (r: Self)
        ensures
            r == (Request { jsonrpc: Version, method, params, id }),
    {
        Request { jsonrpc: Version, method, params, id }
    }

    /// Whether the request has no identifier.
    pub open spec fn has_no_id(&self) -> bool {
        self.id is None
    }

    /// Whether the request is a notification: one without an identifier.
    #[verifier::when_used_as_spec(has_no_id)]
    pub fn is_notification(&self) -> (b: bool)
        ensures
            b == self.has_no_id(),
            b == (self@.id is None),
    {
        self.id.is_none()
    }

    /// Whether the request borrows nothing.
    pub open spec fn is_owned(&self) -> bool {
        &&& self.method is Owned
        &&& payload_is_owned(self.params)
        &&& self.id matches Some(id) ==> id.is_owned()
    }

    /// The same request, holding copies of its own of what was borrowed.
    pub fn into_owned(self) -> (r: Request<'static>)
        ensures
            r@ == self@,
            r.is_owned(),
    {
        Request {
            jsonrpc: self.jsonrpc,
            method: own_str(self.method),
            params: own_payload(self.params),
            id: match self.id {
                Some(id) => Some(id.into_owned()),
                None => None,
            },
        }
    }

    /// The JSON value that the request is written as.
    pub fn to_value(&self) -> (v: Value)
        ensures
            json_of(v) == encode_request(self@),
    {
        let mut m = new_map();
        map_insert(&mut m, "jsonrpc".to_owned(), string_value(self.jsonrpc.as_str().to_owned()));
        map_insert(&mut m, "method".to_owned(), string_value(cow_str(&self.method).to_owned()));
        match &self.params {
            Some(p) => {
                map_insert(&mut m, "params".to_owned(), clone_value(payload_value(p)));
            },
            None => {},
        }
        match &self.id {
            Some(id) => {
                map_insert(&mut m, "id".to_owned(), id.to_value());
            },
            None => {},
        }
        object_value(m)
    }

    /// Reads the member `jsonrpc` of `m`.
    fn version_member(m: &Members) -> (r: Result<Version, DecodeError>)
        ensures
            r == decode_version(member(members_of(*m), "jsonrpc"@)),
    {
        match map_get(m, "jsonrpc") {
            None => Err(DecodeError::MissingVersion),
            Some(v) => match crate::json::as_str(v) {
                Some(s) => if str_eq(s, Version.as_str()) {
                    Ok(Version)
                } else {
                    Err(DecodeError::InvalidVersion)
                },
                None => Err(DecodeError::InvalidVersion),
            },
        }
    }

    /// Reads the member `id` of `m`, where there is one.
    fn id_member<'v>(m: &'v Members) -> (r: Result<Option<Id<'v>>, DecodeError>)
        ensures
            match decode_id_member(member(members_of(*m), "id"@)) {
                Ok(id) => r matches Ok(x) && id_opt_view(x) == id,
                Err(e) => r matches Err(f) && f == e,
            },
    {
        match map_get(m, "id") {
            None => Ok(None),
            Some(v) => match Id::from_value(v) {
                Ok(id) => Ok(Some(id)),
                Err(e) => Err(e),
            },
        }
    }

    /// The request that a JSON value is read as, borrowing its method, its
    /// parameters and its identifier from the value.
    pub fn from_value<'v>(v: &'v Value) -> (r: Result<Request<'v>, DecodeError>)
        ensures
            match decode_request(json_of(*v)) {
                Ok(q) => r matches Ok(x) && x@ == q,
                Err(e) => r matches Err(f) && f == e,
            },
    {
        let m = match as_object(v) {
            Some(m) => m,
            None => {
                return Err(DecodeError::NotAnObject);
            },
        };
        let jsonrpc = match Self::version_member(m) {
            Ok(version) => version,
            Err(e) => {
                return Err(e);
            },
        };
        let method = match text_member(
            m,
            "method",
            DecodeError::MissingMethod,
            DecodeError::InvalidMethod,
        ) {
            Ok(method) => method,
            Err(e) => {
                return Err(e);
            },
        };
        let id = match Self::id_member(m) {
            Ok(id) => id,
            Err(e) => {
                return Err(e);
            },
        };
        let params = match map_get(m, "params") {
            Some(p) => Some(Cow::Borrowed(p)),
            None => None,
        };
        Ok(Request { jsonrpc, method: Cow::Borrowed(method), params, id })
    }

    /// The compact JSON text of the request.
    pub fn to_json(&self) -> (r: Result<String, FormatError>)
        ensures
            exists|v: Value|
                json_of(v) == encode_request(self@) && match json_text(v) {
                    Some(t) => r matches Ok(s) && s@ == t,
                    None => r is Err,
                },
    {
        let v = self.to_value();
        render(&v)
    }

    /// The indented JSON text of the request.
    pub fn to_json_pretty(&self) -> (r: Result<String, FormatError>)
        ensures
            exists|v: Value|
                json_of(v) == encode_request(self@) && match json_pretty_text(v) {
                    Some(t) => r matches Ok(s) && s@ == t,
                    None => r is Err,
                },
    {
        let v = self.to_value();
        render_pretty(&v)
    }

    /// The request that a JSON text is read as.
    pub fn from_json(text: &str) -> (r: Result<Request<'static>, DecodeError>)
        ensures
            match json_parse(text@) {
                None => r matches Err(f) && f == DecodeError::Syntax,
                Some(j) => match decode_request(j) {
                    Ok(q) => r matches Ok(x) && x@ == q && x.is_owned(),
                    Err(e) => r matches Err(f) && f == e,
                },
            },
    {
        let v = match parse(text) {
            Ok(v) => v,
            Err(e) => {
                return Err(e);
            },
        };
        match Request::from_value(&v) {
            Ok(q) => Ok(q.into_owned()),
            Err(e) => Err(e),
        }
    }
}

} // verus!
