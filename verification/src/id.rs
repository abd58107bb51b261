//! Request and response identifiers.

use crate::decimal::{parse_decimal, parse_u64};
use crate::json::{
    as_str, as_u64, is_null, json_of, null_value, string_value, unsigned_value, Json, JsonNumber,
};
use crate::text::{
    cow_str, lemma_lex_order_antisymmetric, lemma_lex_order_equal, lemma_lex_order_transitive,
    lex_order, own_str, str_eq, str_order,
};
use crate::wire::DecodeError;
use serde_json::Value;
use std::borrow::Cow;
use std::cmp::Ordering;
use vstd::prelude::*;

verus! {

/// The identifier of a request: `null`, an unsigned integer, or a string.
///
/// A string may be borrowed from the buffer that the identifier was read
/// from; [`Id::into_owned`] gives a copy that does not depend on it.
#[derive(Debug, Eq, Ord, Hash)]
pub enum Id<'a> {
    /// `null`
    Null,
    /// A number.
    Num(u64),
    /// A string.
    Str(Cow<'a, str>),
}

/// What an [`Id`] holds, whichever way it holds it.
pub enum IdView {
    /// `null`
    Null,
    /// A number.
    Num(u64),
    /// A string.
    Str(Seq<char>),
}

impl<'a> View for Id<'a> {
    type V = IdView;

    open spec fn view(&self) -> IdView {
        match *self {
            Id::Null => IdView::Null,
            Id::Num(n) => IdView::Num(n),
            Id::Str(s) => IdView::Str(s@),
        }
    }
}

/// The JSON document that an identifier is written as.
pub open spec fn encode_id(id: IdView) -> Json {
    match id {
        IdView::Null => Json::Null,
        IdView::Num(n) => Json::Number(JsonNumber::Int(n as int)),
        IdView::Str(s) => Json::Str(s),
    }
}

/// The identifier that a JSON document is read as: `null`, then an integer
/// from 0 to `u64::MAX`, then a string; any other document is none.
pub open spec fn decode_id(j: Json) -> Option<IdView> {
    match j {
        Json::Null => Some(IdView::Null),
        Json::Number(JsonNumber::Int(n)) => if 0 <= n <= u64::MAX {
            Some(IdView::Num(n as u64))
        } else {
            None
        },
        Json::Str(s) => Some(IdView::Str(s)),
        _ => None,
    }
}

/// Reading back what was written for an identifier gives that identifier.
pub proof fn lemma_id_round_trip(id: IdView)
    ensures
        decode_id(encode_id(id)) == Some(id),
{
}

/// Two identifiers are written as the same document only if they are the
/// same identifier.
pub proof fn lemma_encode_id_injective(a: IdView, b: IdView)
    requires
        encode_id(a) == encode_id(b),
    ensures
        a == b,
{
    lemma_id_round_trip(a);
    lemma_id_round_trip(b);
}

impl<'a> Clone for Id<'a> {
    fn clone(&self) -> (r: Self)
        ensures
            r == *self,
    {
        match self {
            Id::Null => Id::Null,
            Id::Num(n) => Id::Num(*n),
            Id::Str(Cow::Borrowed(b)) => Id::Str(Cow::Borrowed(*b)),
            Id::Str(Cow::Owned(o)) => Id::Str(Cow::Owned(o.clone())),
        }
    }
}

impl<'a> PartialEq for Id<'a> {
    fn eq(&self, other: &Self) -> (r: bool) {
        match (self, other) {
            (Id::Null, Id::Null) => true,
            (Id::Num(a), Id::Num(b)) => *a == *b,
            (Id::Str(a), Id::Str(b)) => str_eq(cow_str(a), cow_str(b)),
            _ => false,
        }
    }
}

impl<'a> vstd::std_specs::cmp::PartialEqSpecImpl for Id<'a> {
    open spec fn obeys_eq_spec() -> bool {
        true
    }

    open spec fn eq_spec(&self, other: &Self) -> bool {
        self@ == other@
    }
}

/// The order of two identifiers: `null` comes first, then the numbers by
/// their value, then the strings in the order of strings.
pub open spec fn id_order(a: IdView, b: IdView) -> Ordering {
    match (a, b) {
        (IdView::Null, IdView::Null) => Ordering::Equal,
        (IdView::Null, _) => Ordering::Less,
        (IdView::Num(_), IdView::Null) => Ordering::Greater,
        (IdView::Num(x), IdView::Num(y)) => if x < y {
            Ordering::Less
        } else if x == y {
            Ordering::Equal
        } else {
            Ordering::Greater
        },
        (IdView::Num(_), IdView::Str(_)) => Ordering::Less,
        (IdView::Str(x), IdView::Str(y)) => lex_order(x, y),
        (IdView::Str(_), _) => Ordering::Greater,
    }
}

/// The order of identifiers is total and agrees with their equality: two
/// identifiers are in the same place exactly when they are the same, and
/// one comes before another exactly when the other comes after it.
pub proof fn lemma_id_order_total(a: IdView, b: IdView)
    ensures
        id_order(a, b) is Equal <==> a == b,
        id_order(a, b) is Less <==> id_order(b, a) is Greater,
{
    match (a, b) {
        (IdView::Str(x), IdView::Str(y)) => {
            lemma_lex_order_equal(x, y);
            lemma_lex_order_antisymmetric(x, y);
        },
        _ => {},
    }
}

/// What comes before an identifier comes before all that the identifier
/// comes before.
pub proof fn lemma_id_order_transitive(a: IdView, b: IdView, c: IdView)
    requires
        id_order(a, b) is Less,
        id_order(b, c) is Less,
    ensures
        id_order(a, c) is Less,
{
    match (a, b, c) {
        (IdView::Str(x), IdView::Str(y), IdView::Str(z)) => {
            lemma_lex_order_transitive(x, y, z);
        },
        _ => {},
    }
}

impl<'a> PartialOrd for Id<'a> {
    fn partial_cmp(&self, other: &Self) -> (r: Option<Ordering>) {
        match (self, other) {
            (Id::Null, Id::Null) => Some(Ordering::Equal),
            (Id::Null, _) => Some(Ordering::Less),
            (Id::Num(_), Id::Null) => Some(Ordering::Greater),
            (Id::Num(x), Id::Num(y)) => if *x < *y {
                Some(Ordering::Less)
            } else if *x == *y {
                Some(Ordering::Equal)
            } else {
                Some(Ordering::Greater)
            },
            (Id::Num(_), Id::Str(_)) => Some(Ordering::Less),
            (Id::Str(x), Id::Str(y)) => Some(str_order(cow_str(x), cow_str(y))),
            (Id::Str(_), _) => Some(Ordering::Greater),
        }
    }
}

impl<'a> vstd::std_specs::cmp::PartialOrdSpecImpl for Id<'a> {
    open spec fn obeys_partial_cmp_spec() -> bool {
        true
    }

    open spec fn partial_cmp_spec(&self, other: &Self) -> Option<Ordering> {
        Some(id_order(self@, other@))
    }
}

impl<'a> Id<'a> {
    /// The number, where the identifier is one.
    pub fn as_u64(&self) -> (r: Option<u64>)
        ensures
            r == (match self@ {
                IdView::Num(n) => Some(n),
                _ => None,
            }),
    {
        match self {
            Id::Num(n) => Some(*n),
            _ => None,
        }
    }

    /// The string, where the identifier is one.
    pub fn as_str(&self) -> (r: Option<&str>)
        ensures
            match self@ {
                IdView::Str(s) => r matches Some(t) && t@ == s,
                _ => r is None,
            },
    {
        match self {
            Id::Str(s) => Some(cow_str(s)),
            _ => None,
        }
    }

    /// Whether the identifier is `null`.
    pub fn is_null(&self) -> (b: bool)
        ensures
            b == (self@ == IdView::Null),
    {
        match self {
            Id::Null => true,
            _ => false,
        }
    }

    /// Whether the identifier borrows nothing.
    pub open spec fn is_owned(&self) -> bool {
        *self matches Id::Str(s) ==> s is Owned
    }

    /// The same identifier, holding a copy of its own of any string that
    /// was borrowed.
    pub fn into_owned(self) -> (r: Id<'static>)
        ensures
            r@ == self@,
            r.is_owned(),
    {
        match self {
            Id::Null => Id::Null,
            Id::Num(u) => Id::Num(u),
            Id::Str(s) => Id::Str(own_str(s)),
        }
    }

    /// The number that the identifier stands for: the number itself, or the
    /// number that a string denotes in base 10, where it is made of digits
    /// alone and fits in 64 bits. `null` stands for none.
    pub fn try_parse_num(&self) -> (r: Option<u64>)
        ensures
            r == (match self@ {
                IdView::Null => None,
                IdView::Num(n) => Some(n),
                IdView::Str(s) => parse_decimal(s),
            }),
    {
        match self {
            Id::Null => None,
            Id::Num(num) => Some(*num),
            Id::Str(s) => parse_u64(cow_str(s)),
        }
    }

    /// The JSON value that the identifier is written as.
    pub fn to_value(&self) -> (v: Value)
        ensures
            json_of(v) == encode_id(self@),
    {
        match self {
            Id::Null => null_value(),
            Id::Num(n) => unsigned_value(*n),
            Id::Str(s) => string_value(cow_str(s).to_owned()),
        }
    }

    /// The identifier that a JSON value is read as, borrowing its string
    /// from the value. A value that is neither `null`, nor an unsigned
    /// 64-bit integer, nor a string is refused.
    pub fn from_value<'v>(v: &'v Value) -> (r: Result<Id<'v>, DecodeError>)
        ensures
            match decode_id(json_of(*v)) {
                Some(id) => r matches Ok(x) && x@ == id,
                None => r matches Err(e) && e == DecodeError::InvalidId,
            },
    {
        if is_null(v) {
            return Ok(Id::Null);
        }
        match as_u64(v) {
            Some(n) => {
                return Ok(Id::Num(n));
            },
            None => {},
        }
        match as_str(v) {
            Some(s) => Ok(Id::Str(Cow::Borrowed(s))),
            None => Err(DecodeError::InvalidId),
        }
    }
}

} // verus!
