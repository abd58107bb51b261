//! JSON values carried by a message, borrowed or owned.

use crate::json::{clone_value, json_of, same_value, Json};
use serde_json::Value;
use std::borrow::Cow;
use vstd::prelude::*;

verus! {

/// The document that a carried value holds, whichever way it is held.
pub open spec fn payload_json(p: Cow<'_, Value>) -> Json {
    match p {
        Cow::Borrowed(b) => json_of(*b),
        Cow::Owned(o) => json_of(o),
    }
}

/// The document that an optional carried value holds.
pub open spec fn payload_opt_json(p: Option<Cow<'_, Value>>) -> Option<Json> {
    match p {
        Some(c) => Some(payload_json(c)),
        None => None,
    }
}

/// Whether an optional carried value borrows nothing.
pub open spec fn payload_is_owned(p: Option<Cow<'_, Value>>) -> bool {
    p matches Some(c) ==> c is Owned
}

/// The value that `p` carries.
pub fn payload_value<'b>(p: &'b Cow<'_, Value>) -> (v: &'b Value)
    ensures
        json_of(*v) == payload_json(*p),
{
    match p {
        Cow::Borrowed(b) => *b,
        Cow::Owned(o) => o,
    }
}

/// A copy of `p` that owns its value.
pub fn own_payload(p: Option<Cow<'_, Value>>) -> (r: Option<Cow<'static, Value>>)
    ensures
        payload_opt_json(r) == payload_opt_json(p),
        payload_is_owned(r),
{
    match p {
        Some(Cow::Borrowed(b)) => Some(Cow::Owned(clone_value(b))),
        Some(Cow::Owned(o)) => Some(Cow::Owned(o)),
        None => None,
    }
}

/// A copy of `p`, borrowing what `p` borrows.
pub fn clone_payload<'a>(p: &Option<Cow<'a, Value>>) -> (r: Option<Cow<'a, Value>>)
    ensures
        payload_opt_json(r) == payload_opt_json(*p),
{
    match p {
        Some(Cow::Borrowed(b)) => Some(Cow::Borrowed(*b)),
        Some(Cow::Owned(o)) => Some(Cow::Owned(clone_value(o))),
        None => None,
    }
}

/// Whether two optional carried values hold the same document, or are both
/// absent.
pub fn same_payload(a: &Option<Cow<'_, Value>>, b: &Option<Cow<'_, Value>>) -> (r: bool)
    ensures
        r == (payload_opt_json(*a) == payload_opt_json(*b)),
{
    match (a, b) {
        (Some(x), Some(y)) => same_value(payload_value(x), payload_value(y)),
        (None, None) => true,
        _ => false,
    }
}

} // verus!
