use json_rpc::wire;
use json_rpc::{DecodeError, Id};
use serde_json::Value;
use std::borrow::Cow;
use std::cmp::Ordering;
use std::collections::hash_map::DefaultHasher;
use std::hash::{Hash, Hasher};

fn str_id(s: &str) -> Id<'_> {
    Id::Str(Cow::Borrowed(s))
}

fn hash_of(id: &Id) -> u64 {
    let mut h = DefaultHasher::new();
    id.hash(&mut h);
    h.finish()
}

#[test]
fn null() {
    let id = Id::Null;
    assert!(id.is_null());
}

#[test]
fn parse() {
    let id = Id::Str(format!("{}", u64::MIN).into());
    assert_eq!(id.try_parse_num().unwrap(), u64::MIN);

    let id = Id::Str(format!("{}", u64::MAX).into());
    assert_eq!(id.try_parse_num().unwrap(), u64::MAX);

    let id = Id::Str(format!("{}a", u64::MAX).into());
    assert!(id.try_parse_num().is_none());

    let id = Id::Num(u64::MIN);
    assert_eq!(id.try_parse_num().unwrap(), u64::MIN);

    let id = Id::Num(u64::MAX);
    assert_eq!(id.try_parse_num().unwrap(), u64::MAX);

    let id = Id::Null;
    assert!(id.try_parse_num().is_none());
}

#[test]
fn __as_u64() {
    let id = Id::Num(u64::MIN);
    assert_eq!(id.as_u64().unwrap(), u64::MIN);

    let id = Id::Num(u64::MAX);
    assert_eq!(id.as_u64().unwrap(), u64::MAX);

    let id = Id::Null;
    assert!(id.as_u64().is_none());
    let id = Id::Str("".into());
    assert!(id.as_u64().is_none());
}

#[test]
fn __as_str() {
    let id = Id::Str("str".into());
    assert_eq!(id.as_str().unwrap(), "str");

    let id = Id::Null;
    assert!(id.as_str().is_none());
    let id = Id::Num(0);
    assert!(id.as_str().is_none());
}

#[test]
fn is_null_only_for_null() {
    assert!(Id::Null.is_null());
    assert!(!Id::Num(0).is_null());
    assert!(!str_id("").is_null());
    assert!(!str_id("null").is_null());
}

#[test]
fn as_u64_never_reads_strings() {
    assert_eq!(str_id("12").as_u64(), None);
    assert_eq!(Id::Num(12).as_u64(), Some(12));
}

#[test]
fn as_str_of_owned_and_borrowed() {
    assert_eq!(str_id("abc").as_str(), Some("abc"));
    assert_eq!(Id::Str(Cow::Owned(String::from("abc"))).as_str(), Some("abc"));
    assert_eq!(str_id("").as_str(), Some(""));
}

#[test]
fn try_parse_num_accepts_digits_only() {
    assert_eq!(str_id("0").try_parse_num(), Some(0));
    assert_eq!(str_id("7").try_parse_num(), Some(7));
    assert_eq!(str_id("1234567890").try_parse_num(), Some(1234567890));
    assert_eq!(str_id("007").try_parse_num(), Some(7));
    assert_eq!(str_id("00000000000000000000000000042").try_parse_num(), Some(42));
    assert_eq!(str_id("").try_parse_num(), None);
    assert_eq!(str_id("+5").try_parse_num(), None);
    assert_eq!(str_id("-5").try_parse_num(), None);
    assert_eq!(str_id("-0").try_parse_num(), None);
    assert_eq!(str_id(" 5").try_parse_num(), None);
    assert_eq!(str_id("5 ").try_parse_num(), None);
    assert_eq!(str_id("5a").try_parse_num(), None);
    assert_eq!(str_id("a5").try_parse_num(), None);
    assert_eq!(str_id("5.0").try_parse_num(), None);
    assert_eq!(str_id("1e3").try_parse_num(), None);
    assert_eq!(str_id("0x10").try_parse_num(), None);
    assert_eq!(str_id("1_000").try_parse_num(), None);
    assert_eq!(str_id("/").try_parse_num(), None);
    assert_eq!(str_id(":").try_parse_num(), None);
    assert_eq!(str_id("\u{0661}\u{0662}").try_parse_num(), None);
    assert_eq!(str_id("1\u{00e9}").try_parse_num(), None);
}

#[test]
fn try_parse_num_at_the_limit() {
    assert_eq!(str_id("18446744073709551615").try_parse_num(), Some(u64::MAX));
    assert_eq!(str_id("18446744073709551614").try_parse_num(), Some(u64::MAX - 1));
    assert_eq!(str_id("18446744073709551616").try_parse_num(), None);
    assert_eq!(str_id("18446744073709551620").try_parse_num(), None);
    assert_eq!(str_id("28446744073709551615").try_parse_num(), None);
    assert_eq!(str_id("184467440737095516150").try_parse_num(), None);
    assert_eq!(str_id("99999999999999999999999999").try_parse_num(), None);
    assert_eq!(str_id("018446744073709551615").try_parse_num(), Some(u64::MAX));
    assert_eq!(str_id("18446744073709551616x").try_parse_num(), None);
}

#[test]
fn try_parse_num_of_decimal_strings() {
    for n in [0u64, 1, 9, 10, 99, 100, 12345, 4294967295, 4294967296, u64::MAX / 10, u64::MAX] {
        assert_eq!(Id::Str(n.to_string().into()).try_parse_num(), Some(n));
        assert_eq!(Id::Num(n).try_parse_num(), Some(n));
    }
}

#[test]
fn parse_u64_directly() {
    assert_eq!(json_rpc::decimal::parse_u64("42"), Some(42));
    assert_eq!(json_rpc::decimal::parse_u64(""), None);
    assert_eq!(json_rpc::decimal::parse_u64("4 2"), None);
}

#[test]
fn into_owned_keeps_the_identifier() {
    let text = String::from("abc");
    let borrowed = Id::Str(Cow::Borrowed(text.as_str()));
    let owned: Id<'static> = borrowed.clone().into_owned();
    assert_eq!(owned, borrowed);
    assert!(matches!(owned, Id::Str(Cow::Owned(_))));
    assert_eq!(owned.as_str(), Some("abc"));
    assert_eq!(Id::Null.into_owned(), Id::Null);
    assert_eq!(Id::Num(5).into_owned(), Id::Num(5));
    drop(text);
    assert_eq!(owned.as_str(), Some("abc"));
}

#[test]
fn equality_of_identifiers() {
    assert_eq!(Id::Null, Id::Null);
    assert_eq!(Id::Num(1), Id::Num(1));
    assert_ne!(Id::Num(1), Id::Num(2));
    assert_ne!(Id::Num(0), Id::Null);
    assert_ne!(str_id("1"), Id::Num(1));
    assert_ne!(str_id(""), Id::Null);
    assert_eq!(str_id("abc"), Id::Str(Cow::Owned(String::from("abc"))));
    assert_ne!(str_id("abc"), str_id("abd"));
    assert_ne!(str_id("abc"), str_id("ab"));
}

#[test]
fn clone_keeps_the_identifier() {
    assert_eq!(Id::Null.clone(), Id::Null);
    assert_eq!(Id::Num(9).clone(), Id::Num(9));
    assert_eq!(str_id("x").clone(), str_id("x"));
    let owned = Id::Str(Cow::Owned(String::from("y")));
    assert_eq!(owned.clone(), owned);
}

#[test]
fn order_of_identifiers() {
    assert_eq!(Id::Null.partial_cmp(&Id::Null), Some(Ordering::Equal));
    assert_eq!(Id::Null.partial_cmp(&Id::Num(0)), Some(Ordering::Less));
    assert_eq!(Id::Null.partial_cmp(&str_id("")), Some(Ordering::Less));
    assert_eq!(Id::Num(0).partial_cmp(&Id::Null), Some(Ordering::Greater));
    assert_eq!(Id::Num(u64::MAX).partial_cmp(&str_id("")), Some(Ordering::Less));
    assert_eq!(str_id("").partial_cmp(&Id::Num(u64::MAX)), Some(Ordering::Greater));
    assert_eq!(str_id("").partial_cmp(&Id::Null), Some(Ordering::Greater));
    assert_eq!(Id::Num(1).partial_cmp(&Id::Num(2)), Some(Ordering::Less));
    assert_eq!(Id::Num(2).partial_cmp(&Id::Num(2)), Some(Ordering::Equal));
    assert_eq!(Id::Num(3).partial_cmp(&Id::Num(2)), Some(Ordering::Greater));
    assert_eq!(str_id("a").partial_cmp(&str_id("b")), Some(Ordering::Less));
    assert_eq!(str_id("b").partial_cmp(&str_id("a")), Some(Ordering::Greater));
    assert_eq!(str_id("a").partial_cmp(&str_id("a")), Some(Ordering::Equal));
    assert_eq!(str_id("a").partial_cmp(&str_id("ab")), Some(Ordering::Less));
    assert_eq!(str_id("ab").partial_cmp(&str_id("a")), Some(Ordering::Greater));
    assert_eq!(str_id("").partial_cmp(&str_id("a")), Some(Ordering::Less));
    assert_eq!(str_id("10").partial_cmp(&str_id("9")), Some(Ordering::Less));
    assert_eq!(str_id("Z").partial_cmp(&str_id("a")), Some(Ordering::Less));
    assert_eq!(str_id("z").partial_cmp(&str_id("\u{00e9}")), Some(Ordering::Less));
    assert_eq!(str_id("\u{ffff}").partial_cmp(&str_id("\u{10000}")), Some(Ordering::Less));
    assert!(Id::Null < Id::Num(0));
    assert!(Id::Num(7) < str_id("0"));
    assert!(str_id("b") > str_id("a"));
}

#[test]
fn order_agrees_with_cmp() {
    let ids = [
        Id::Null,
        Id::Num(0),
        Id::Num(5),
        Id::Num(u64::MAX),
        str_id(""),
        str_id("a"),
        str_id("ab"),
        str_id("b"),
        str_id("\u{00e9}"),
    ];
    for (i, a) in ids.iter().enumerate() {
        for (j, b) in ids.iter().enumerate() {
            assert_eq!(a.partial_cmp(b), Some(a.cmp(b)));
            assert_eq!(a.cmp(b), i.cmp(&j));
            assert_eq!(a == b, i == j);
        }
    }
}

#[test]
fn hash_ignores_ownership() {
    let borrowed = str_id("abc");
    let owned = Id::Str(Cow::Owned(String::from("abc")));
    assert_eq!(hash_of(&borrowed), hash_of(&owned));
    assert_eq!(hash_of(&Id::Num(3)), hash_of(&Id::Num(3)));
    assert_eq!(hash_of(&Id::Null), hash_of(&Id::Null));
}

#[test]
fn id_to_value() {
    assert_eq!(Id::Null.to_value(), Value::Null);
    assert_eq!(Id::Num(0).to_value(), Value::from(0u64));
    assert_eq!(Id::Num(123).to_value(), Value::from(123u64));
    assert_eq!(Id::Num(u64::MAX).to_value(), Value::from(u64::MAX));
    assert_eq!(str_id("abc").to_value(), Value::from("abc"));
    assert_eq!(str_id("").to_value(), Value::from(""));
    assert_eq!(str_id("12").to_value(), Value::from("12"));
}

#[test]
fn id_text_is_bare() {
    assert_eq!(wire::render(&Id::Null.to_value()).unwrap(), "null");
    assert_eq!(wire::render(&Id::Num(123).to_value()).unwrap(), "123");
    assert_eq!(wire::render(&Id::Num(u64::MAX).to_value()).unwrap(), "18446744073709551615");
    assert_eq!(wire::render(&str_id("abc").to_value()).unwrap(), "\"abc\"");
    assert_eq!(wire::render(&str_id("a\"b").to_value()).unwrap(), "\"a\\\"b\"");
}

#[test]
fn id_from_value() {
    assert_eq!(Id::from_value(&Value::Null), Ok(Id::Null));
    assert_eq!(Id::from_value(&Value::from(0u64)), Ok(Id::Num(0)));
    assert_eq!(Id::from_value(&Value::from(u64::MAX)), Ok(Id::Num(u64::MAX)));
    assert_eq!(Id::from_value(&Value::from(5i64)), Ok(Id::Num(5)));
    assert_eq!(Id::from_value(&Value::from("abc")), Ok(str_id("abc")));
    assert_eq!(Id::from_value(&Value::from("")), Ok(str_id("")));
    assert_eq!(Id::from_value(&Value::from("12")), Ok(str_id("12")));
}

#[test]
fn id_from_value_borrows() {
    let v = Value::from("abc");
    let id = Id::from_value(&v).unwrap();
    assert!(matches!(id, Id::Str(Cow::Borrowed("abc"))));
}

#[test]
fn id_from_value_refuses_other_shapes() {
    assert_eq!(Id::from_value(&Value::from(-1i64)), Err(DecodeError::InvalidId));
    assert_eq!(Id::from_value(&Value::from(i64::MIN)), Err(DecodeError::InvalidId));
    assert_eq!(Id::from_value(&Value::from(1.5)), Err(DecodeError::InvalidId));
    assert_eq!(Id::from_value(&Value::from(1.0)), Err(DecodeError::InvalidId));
    assert_eq!(Id::from_value(&Value::from(true)), Err(DecodeError::InvalidId));
    assert_eq!(Id::from_value(&Value::from(false)), Err(DecodeError::InvalidId));
    assert_eq!(Id::from_value(&Value::Array(vec![])), Err(DecodeError::InvalidId));
    assert_eq!(
        Id::from_value(&Value::Array(vec![Value::from(1u64)])),
        Err(DecodeError::InvalidId)
    );
    assert_eq!(
        Id::from_value(&Value::Object(serde_json::Map::new())),
        Err(DecodeError::InvalidId)
    );
}

#[test]
fn id_from_text() {
    assert_eq!(Id::from_value(&wire::parse("null").unwrap()), Ok(Id::Null));
    assert_eq!(Id::from_value(&wire::parse("123").unwrap()), Ok(Id::Num(123)));
    assert_eq!(Id::from_value(&wire::parse("18446744073709551615").unwrap()), Ok(Id::Num(u64::MAX)));
    assert_eq!(Id::from_value(&wire::parse("\"abc\"").unwrap()), Ok(str_id("abc")));
    assert_eq!(Id::from_value(&wire::parse("-1").unwrap()), Err(DecodeError::InvalidId));
    assert_eq!(Id::from_value(&wire::parse("1.5").unwrap()), Err(DecodeError::InvalidId));
    assert_eq!(Id::from_value(&wire::parse("1e2").unwrap()), Err(DecodeError::InvalidId));
    assert_eq!(Id::from_value(&wire::parse("18446744073709551616").unwrap()), Err(DecodeError::InvalidId));
    assert_eq!(Id::from_value(&wire::parse("true").unwrap()), Err(DecodeError::InvalidId));
    assert_eq!(Id::from_value(&wire::parse("[]").unwrap()), Err(DecodeError::InvalidId));
    assert_eq!(Id::from_value(&wire::parse("{}").unwrap()), Err(DecodeError::InvalidId));
}

#[test]
fn id_round_trip() {
    let ids = [
        Id::Null,
        Id::Num(0),
        Id::Num(123),
        Id::Num(u64::MAX),
        str_id(""),
        str_id("abc"),
        str_id("123"),
        str_id("null"),
        str_id("a \"quoted\" \\ text\n"),
        str_id("\u{00e9}\u{10000}"),
    ];
    for id in ids.iter() {
        let v = id.to_value();
        assert_eq!(Id::from_value(&v).as_ref(), Ok(id));
        let text = wire::render(&v).unwrap();
        let back = wire::parse(&text).unwrap();
        assert_eq!(Id::from_value(&back).as_ref(), Ok(id));
    }
}
