use botapi::json::JsonValue;
use botapi::jsontext::{parse_json, render};

#[test]
fn render_scalars() {
    assert_eq!(render(&JsonValue::Null), "null");
    assert_eq!(render(&JsonValue::Bool(true)), "true");
    assert_eq!(render(&JsonValue::Bool(false)), "false");
    assert_eq!(render(&JsonValue::Int(0)), "0");
    assert_eq!(render(&JsonValue::Int(42)), "42");
    assert_eq!(render(&JsonValue::Int(-7)), "-7");
    assert_eq!(render(&JsonValue::Int(i64::MAX)), "9223372036854775807");
    assert_eq!(render(&JsonValue::Int(i64::MIN)), "-9223372036854775808");
}

#[test]
fn render_strings_and_escapes() {
    assert_eq!(render(&JsonValue::Str(String::new())), "\"\"");
    assert_eq!(render(&JsonValue::Str("plain".to_owned())), "\"plain\"");
    assert_eq!(
        render(&JsonValue::Str("say \"hi\"\\now".to_owned())),
        "\"say \\\"hi\\\"\\\\now\""
    );
    assert_eq!(
        render(&JsonValue::Str("a\nb\tc\rd".to_owned())),
        "\"a\\nb\\tc\\rd\""
    );
    assert_eq!(
        render(&JsonValue::Str("\u{0008}\u{000c}\u{0001}\u{001f}".to_owned())),
        "\"\\b\\f\\u0001\\u001f\""
    );
}

#[test]
fn render_arrays_and_objects() {
    let arr = JsonValue::Arr(vec![
        JsonValue::Int(1),
        JsonValue::Str("two".to_owned()),
        JsonValue::Null,
    ]);
    assert_eq!(render(&arr), "[1,\"two\",null]");
    assert_eq!(render(&JsonValue::Arr(Vec::new())), "[]");

    let obj = JsonValue::Obj(vec![
        ("a".to_owned(), JsonValue::Int(1)),
        ("b".to_owned(), JsonValue::Arr(vec![JsonValue::Bool(false)])),
    ]);
    assert_eq!(render(&obj), "{\"a\":1,\"b\":[false]}");
    assert_eq!(render(&JsonValue::Obj(Vec::new())), "{}");
}

#[test]
fn parse_reads_documents() {
    // The parse boundary must hand back a structured document, not the
    // input text.
    let doc = parse_json("{\"id\": 7, \"name\": \"x\"}").expect("valid JSON");
    assert_eq!(doc.get("id"), Some(&JsonValue::Int(7)));
    assert_eq!(doc.get("name"), Some(&JsonValue::Str("x".to_owned())));
    assert_eq!(doc.get("missing"), None);

    let arr = parse_json("[1, true, \"s\"]").expect("valid JSON");
    assert_eq!(
        arr,
        JsonValue::Arr(vec![
            JsonValue::Int(1),
            JsonValue::Bool(true),
            JsonValue::Str("s".to_owned()),
        ])
    );

    assert_eq!(parse_json("not json"), None);
    assert_eq!(parse_json(""), None);
}

#[test]
fn parse_then_render_round_trips() {
    let text = "{\"a\":[1,2,{\"b\":\"c\\nd\"}],\"e\":null}";
    let doc = parse_json(text).expect("valid JSON");
    assert_eq!(render(&doc), text);
}

#[test]
fn deep_copy_is_equal() {
    let doc = parse_json("{\"a\":[1,{\"b\":null}]}").expect("valid JSON");
    assert_eq!(doc.deep_copy(), doc);
}
