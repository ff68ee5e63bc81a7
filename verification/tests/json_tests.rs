use ghostfeed::json::JsonValue;
use ghostfeed::text::{joined, decimal_text, signed_decimal_text};

fn text(s: &str) -> JsonValue {
    JsonValue::String(s.to_string())
}

fn object(members: Vec<(&str, JsonValue)>) -> JsonValue {
    JsonValue::Object(members.into_iter().map(|(k, v)| (k.to_string(), v)).collect())
}

#[test]
fn get_finds_member() {
    let v = object(vec![("id", text("17")), ("name", text("ann"))]);
    assert_eq!(v.get("name"), Some(&text("ann")));
    assert_eq!(v.get("id"), Some(&text("17")));
}

#[test]
fn get_missing_member_is_none() {
    let v = object(vec![("id", text("17"))]);
    assert_eq!(v.get("name"), None);
    assert_eq!(text("x").get("id"), None);
    assert_eq!(JsonValue::Null.get("id"), None);
}

#[test]
fn field_str_only_for_strings() {
    let v = object(vec![("id", text("17")), ("n", JsonValue::Number("3".to_string()))]);
    assert_eq!(v.field_str("id"), Some(&"17".to_string()));
    assert_eq!(v.field_str("n"), None);
    assert_eq!(v.field_str("missing"), None);
}

#[test]
fn field_array_only_for_arrays() {
    let v = object(vec![
        ("data", JsonValue::Array(vec![text("a"), text("b")])),
        ("id", text("1")),
    ]);
    assert_eq!(v.field_array("data"), Some(&vec![text("a"), text("b")]));
    assert_eq!(v.field_array("id"), None);
}

#[test]
fn into_field_keeps_member_or_null() {
    let v = object(vec![("a", text("1")), ("b", JsonValue::Bool(true))]);
    assert_eq!(v.into_field("b"), JsonValue::Bool(true));
    let w = object(vec![("a", text("1"))]);
    assert_eq!(w.into_field("zzz"), JsonValue::Null);
    assert_eq!(JsonValue::Array(vec![]).into_field("a"), JsonValue::Null);
}

#[test]
fn as_str_and_as_array() {
    assert_eq!(text("hi").as_str(), Some(&"hi".to_string()));
    assert_eq!(JsonValue::Bool(false).as_str(), None);
    assert_eq!(JsonValue::Array(vec![JsonValue::Null]).as_array(), Some(&vec![JsonValue::Null]));
    assert_eq!(JsonValue::Null.as_array(), None);
}

#[test]
fn decimal_forms() {
    assert_eq!(decimal_text(0), "0");
    assert_eq!(decimal_text(7), "7");
    assert_eq!(decimal_text(20), "20");
    assert_eq!(decimal_text(1234567890), "1234567890");
    assert_eq!(decimal_text(u64::MAX), "18446744073709551615");
}

#[test]
fn signed_decimal_forms() {
    assert_eq!(signed_decimal_text(0), "0");
    assert_eq!(signed_decimal_text(-42), "-42");
    assert_eq!(signed_decimal_text(1158201444), "1158201444");
    assert_eq!(signed_decimal_text(i64::MIN), "-9223372036854775808");
}

#[test]
fn decimal_reads_back() {
    for n in [0u64, 9, 10, 99, 100, 65535, 4294967296] {
        assert_eq!(decimal_text(n).parse::<u64>().unwrap(), n);
    }
}

#[test]
fn concat_joins() {
    assert_eq!(joined("ab", "cd"), "abcd");
    assert_eq!(joined("", ""), "");
}
