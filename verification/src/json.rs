//! The JSON documents that messages are encoded to and decoded from.
//!
//! Documents are held as `serde_json::Value`. The verifier sees nothing inside
//! such a value, so this module gives it a mathematical reading, [`json_of`],
//! and states over that reading what each `serde_json` operation used by the
//! crate does. Those statements are taken on trust; everything built on them
//! is proved.

use serde_json::Value;
use vstd::prelude::*;

verus! {

/// A JSON number: an integer, or a finite floating-point number.
pub enum JsonNumber {
    /// An integer.
    Int(int),
    /// A floating-point number, known only by a label: two such numbers
    /// compare equal exactly when their labels are the same.
    Float(int),
}

/// The mathematical content of a JSON document.
pub enum Json {
    /// `null`
    Null,
    /// `true` or `false`
    Bool(bool),
    /// A number.
    Number(JsonNumber),
    /// A string.
    Str(Seq<char>),
    /// An array, in order.
    Array(Seq<Json>),
    /// An object: its members by key.
    Object(Map<Seq<char>, Json>),
}

impl Json {
    /// The integer, where the document is one.
    pub open spec fn integer(self) -> Option<int> {
        match self {
            Json::Number(JsonNumber::Int(n)) => Some(n),
            _ => None,
        }
    }

    /// The string, where the document is one.
    pub open spec fn string(self) -> Option<Seq<char>> {
        match self {
            Json::Str(s) => Some(s),
            _ => None,
        }
    }

    /// The member under `key`, where the document is an object that has one.
    pub open spec fn member(self, key: Seq<char>) -> Option<Json> {
        match self {
            Json::Object(m) => member(m, key),
            _ => None,
        }
    }
}

/// The member that `m` holds under `key`, where it holds one.
pub open spec fn member(m: Map<Seq<char>, Json>, key: Seq<char>) -> Option<Json> {
    if m.contains_key(key) {
        Some(m[key])
    } else {
        None
    }
}

/// `serde_json::Value`: a JSON document, read through [`json_of`].
#[verifier::external_type_specification]
#[verifier::external_body]
pub struct ExValue(serde_json::Value);

/// `serde_json::Map`: the members of a JSON object, read through
/// [`members_of`].
#[verifier::external_type_specification]
#[verifier::external_body]
#[verifier::reject_recursive_types(K)]
#[verifier::reject_recursive_types(V)]
pub struct ExMap<K, V>(serde_json::Map<K, V>);

/// `serde_json::Error`: why a text was not read or a value not written.
/// Nothing is known of it.
#[verifier::external_type_specification]
#[verifier::external_body]
pub struct ExError(serde_json::Error);

/// The map in which `serde_json` holds the members of an object.
pub type Members = serde_json::Map<String, Value>;

/// The document that a `serde_json::Value` holds.
pub uninterp spec fn json_of(v: Value) -> Json;

/// The members that a `serde_json::Map` holds, by key.
pub uninterp spec fn members_of(m: Members) -> Map<Seq<char>, Json>;

/// The members of the empty object.
pub open spec fn no_members() -> Map<Seq<char>, Json> {
    Map::empty()
}

/// The compact text that `serde_json::to_string` writes for a value, or
/// nothing where it reports an error.
pub uninterp spec fn json_text(v: Value) -> Option<Seq<char>>;

/// The indented text that `serde_json::to_string_pretty` writes for a value,
/// or nothing where it reports an error.
pub uninterp spec fn json_pretty_text(v: Value) -> Option<Seq<char>>;

/// The document that `serde_json::from_str` reads from a text, or nothing
/// where it rejects the text.
pub uninterp spec fn json_parse(text: Seq<char>) -> Option<Json>;

/// `Value::Null`: a value holding `null`.
#[verifier::external_body]
pub(crate) fn null_value() -> (v: Value)
    ensures
        json_of(v) == Json::Null,
{
    Value::Null
}

/// `Value::from(u64)`: a value holding the integer `n`.
#[verifier::external_body]
pub(crate) fn unsigned_value(n: u64) -> (v: Value)
    ensures
        json_of(v) == Json::Number(JsonNumber::Int(n as int)),
{
    Value::from(n)
}

/// `Value::from(i32)`: a value holding the integer `n`.
#[verifier::external_body]
pub(crate) fn signed_value(n: i32) -> (v: Value)
    ensures
        json_of(v) == Json::Number(JsonNumber::Int(n as int)),
{
    Value::from(n)
}

/// `Value::String`: a value holding the string `s`.
#[verifier::external_body]
pub(crate) fn string_value(s: String) -> (v: Value)
    ensures
        json_of(v) == Json::Str(s@),
{
    Value::String(s)
}

/// `Value::Object`: a value holding the object whose members are those of `m`.
#[verifier::external_body]
pub(crate) fn object_value(m: Members) -> (v: Value)
    ensures
        json_of(v) == Json::Object(members_of(m)),
{
    Value::Object(m)
}

/// `Map::new`: a map without members.
#[verifier::external_body]
pub(crate) fn new_map() -> (m: Members)
    ensures
        members_of(m) == no_members(),
{
    serde_json::Map::new()
}

/// `Map::insert`: afterwards `key` leads to `v`, in place of what it led to
/// before, and every other key leads to what it did.
#[verifier::external_body]
pub(crate) fn map_insert(m: &mut Members, key: String, v: Value)
    ensures
        members_of(*final(m)) == members_of(*old(m)).insert(key@, json_of(v)),
{
    m.insert(key, v);
}

/// `Map::get`: the member under `key`, where there is one.
#[verifier::external_body]
pub(crate) fn map_get<'a>(m: &'a Members, key: &str) -> (r: Option<&'a Value>)
    ensures
        match r {
            Some(v) => members_of(*m).contains_key(key@) && members_of(*m)[key@] == json_of(*v),
            None => !members_of(*m).contains_key(key@),
        },
{
    m.get(key)
}

/// `Value::is_null`: whether the value holds `null`.
#[verifier::external_body]
pub(crate) fn is_null(v: &Value) -> (b: bool)
    ensures
        b == (json_of(*v) is Null),
{
    v.is_null()
}

/// `Value::as_u64`: the integer that the value holds, where it holds one that
/// is not negative; such an integer always fits in 64 bits.
#[verifier::external_body]
pub(crate) fn as_u64(v: &Value) -> (r: Option<u64>)
    ensures
        match r {
            Some(n) => json_of(*v) == Json::Number(JsonNumber::Int(n as int)),
            None => !(json_of(*v) matches Json::Number(JsonNumber::Int(n)) && n >= 0),
        },
{
    v.as_u64()
}

/// `Value::as_i64`: the integer that the value holds, where it holds one that
/// is at most `i64::MAX`; such an integer is never below `i64::MIN`.
#[verifier::external_body]
pub(crate) fn as_i64(v: &Value) -> (r: Option<i64>)
    ensures
        match r {
            Some(n) => json_of(*v) == Json::Number(JsonNumber::Int(n as int)),
            None => !(json_of(*v) matches Json::Number(JsonNumber::Int(n)) && n <= i64::MAX),
        },
{
    v.as_i64()
}

/// `Value::as_str`: the string that the value holds, where it holds one.
#[verifier::external_body]
pub(crate) fn as_str<'a>(v: &'a Value) -> (r: Option<&'a str>)
    ensures
        match r {
            Some(s) => json_of(*v) == Json::Str(s@),
            None => !(json_of(*v) is Str),
        },
{
    v.as_str()
}

/// `Value::as_object`: the map of the object that the value holds, where it
/// holds one.
#[verifier::external_body]
pub(crate) fn as_object<'a>(v: &'a Value) -> (r: Option<&'a Members>)
    ensures
        match r {
            Some(m) => json_of(*v) == Json::Object(members_of(*m)),
            None => !(json_of(*v) is Object),
        },
{
    v.as_object()
}

/// `Value::clone`: a value holding the same document.
#[verifier::external_body]
pub(crate) fn clone_value(v: &Value) -> (r: Value)
    ensures
        json_of(r) == json_of(*v),
{
    v.clone()
}

/// `Value::eq`: whether two values hold the same document.
#[verifier::external_body]
pub(crate) fn same_value(a: &Value, b: &Value) -> (r: bool)
    ensures
        r == (json_of(*a) == json_of(*b)),
{
    a == b
}

/// `serde_json::to_string`, on a value.
#[verifier::external_body]
pub(crate) fn to_text(v: &Value) -> (r: Result<String, serde_json::Error>)
    ensures
        match r {
            Ok(s) => json_text(*v) == Some(s@),
            Err(_) => json_text(*v) is None,
        },
{
    serde_json::to_string(v)
}

/// `serde_json::to_string_pretty`, on a value.
#[verifier::external_body]
pub(crate) fn to_pretty_text(v: &Value) -> (r: Result<String, serde_json::Error>)
    ensures
        match r {
            Ok(s) => json_pretty_text(*v) == Some(s@),
            Err(_) => json_pretty_text(*v) is None,
        },
{
    serde_json::to_string_pretty(v)
}

/// `serde_json::from_str`, to a value.
#[verifier::external_body]
pub(crate) fn parse_text(text: &str) -> (r: Result<Value, serde_json::Error>)
    ensures
        match r {
            Ok(v) => json_parse(text@) == Some(json_of(v)),
            Err(_) => json_parse(text@) is None,
        },
{
    serde_json::from_str(text)
}

} // verus!
