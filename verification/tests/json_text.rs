use jq_bridge::json::{dec_text, quoted_text, to_text, Json};
use jq_bridge::error::Error;

#[test]
fn null_and_bools() {
    assert_eq!(to_text(&Json::Null), "null");
    assert_eq!(to_text(&Json::Bool(true)), "true");
    assert_eq!(to_text(&Json::Bool(false)), "false");
}

#[test]
fn integers() {
    assert_eq!(to_text(&Json::Int(0)), "0");
    assert_eq!(to_text(&Json::Int(7)), "7");
    assert_eq!(to_text(&Json::Int(-5)), "-5");
    assert_eq!(to_text(&Json::Int(i64::MIN)), "-9223372036854775808");
    assert_eq!(to_text(&Json::Int(i64::MAX)), "9223372036854775807");
    assert_eq!(to_text(&Json::UInt(0)), "0");
    assert_eq!(to_text(&Json::UInt(u64::MAX)), "18446744073709551615");
    assert_eq!(dec_text(250), "250");
}

#[test]
fn raw_number_text() {
    assert_eq!(to_text(&Json::Num(String::from("0.5"))), "0.5");
    assert_eq!(to_text(&Json::Num(String::from("1e-3"))), "1e-3");
}

#[test]
fn strings_and_escapes() {
    assert_eq!(to_text(&Json::Str(String::from("hello"))), "\"hello\"");
    assert_eq!(
        to_text(&Json::Str(String::from("a\"b\\c\nd\te\r"))),
        "\"a\\\"b\\\\c\\nd\\te\\r\""
    );
    assert_eq!(to_text(&Json::Str(String::from("\u{8}\u{c}"))), "\"\\b\\f\"");
    assert_eq!(to_text(&Json::Str(String::from("\u{1}\u{1f}"))), "\"\\u0001\\u001f\"");
    assert_eq!(to_text(&Json::Str(String::from("héllo"))), "\"héllo\"");
    assert_eq!(quoted_text("x\"y"), "\"x\\\"y\"");
}

#[test]
fn arrays_and_objects() {
    assert_eq!(to_text(&Json::Arr(vec![])), "[]");
    assert_eq!(
        to_text(&Json::Arr(vec![Json::Int(1), Json::Str(String::from("x")), Json::Null])),
        "[1,\"x\",null]"
    );
    assert_eq!(to_text(&Json::Obj(vec![])), "{}");
    assert_eq!(
        to_text(&Json::Obj(vec![
            (String::from("a"), Json::Int(1)),
            (String::from("b"), Json::Arr(vec![Json::Bool(true)])),
        ])),
        "{\"a\":1,\"b\":[true]}"
    );
}

#[test]
fn wire_text_parses_back_with_serde_json() {
    let v = Json::Obj(vec![
        (String::from("k\"ey"), Json::Arr(vec![Json::Int(-3), Json::Str(String::from("v\n"))])),
        (String::from("n"), Json::Null),
    ]);
    let text = to_text(&v);
    let parsed: serde_json::Value = serde_json::from_str(&text).unwrap();
    let mut m = serde_json::Map::new();
    m.insert(
        String::from("k\"ey"),
        serde_json::Value::Array(vec![
            serde_json::Value::from(-3i64),
            serde_json::Value::String(String::from("v\n")),
        ]),
    );
    m.insert(String::from("n"), serde_json::Value::Null);
    assert_eq!(parsed, serde_json::Value::Object(m));
}

#[test]
fn error_messages() {
    assert_eq!(Error::IoError(String::from("boom")).message(), "boom");
    assert_eq!(Error::JsonError(String::from("eof")).message(), "json error: eof");
    assert_eq!(
        Error::InvalidString(String::from("a\u{fffd}b")).message(),
        "invalid string: \"a\u{fffd}b\""
    );
    assert_eq!(
        Error::InvalidProcessorId(5).message(),
        "invalid processor id: 5"
    );
}
