use tgbotapi::json::{json_value_bytes, JsonValue};

fn text(v: &JsonValue) -> String {
    String::from_utf8(json_value_bytes(v)).unwrap()
}

#[test]
fn scalars_render_compactly() {
    assert_eq!(text(&JsonValue::Null), "null");
    assert_eq!(text(&JsonValue::Bool(true)), "true");
    assert_eq!(text(&JsonValue::Bool(false)), "false");
    assert_eq!(text(&JsonValue::Int(0)), "0");
    assert_eq!(text(&JsonValue::Int(1234567890)), "1234567890");
    assert_eq!(text(&JsonValue::Int(-42)), "-42");
    assert_eq!(text(&JsonValue::Int(i64::MAX)), "9223372036854775807");
    assert_eq!(text(&JsonValue::Int(i64::MIN)), "-9223372036854775808");
}

#[test]
fn strings_escape_like_the_wire_format() {
    assert_eq!(text(&JsonValue::Str(String::from("plain"))), "\"plain\"");
    assert_eq!(
        text(&JsonValue::Str(String::from("a\"b\\c"))),
        "\"a\\\"b\\\\c\""
    );
    assert_eq!(
        text(&JsonValue::Str(String::from("tab\there\nnew"))),
        "\"tab\\there\\nnew\""
    );
    assert_eq!(
        text(&JsonValue::Str(String::from("\u{1}\u{1f}"))),
        "\"\\u0001\\u001f\""
    );
}

#[test]
fn nested_values_render_in_order() {
    let v = JsonValue::Obj(vec![
        (String::from("a"), JsonValue::Arr(vec![JsonValue::Int(1), JsonValue::Null])),
        (
            String::from("b"),
            JsonValue::Obj(vec![(String::from("c"), JsonValue::Str(String::from("d")))]),
        ),
    ]);
    assert_eq!(text(&v), "{\"a\":[1,null],\"b\":{\"c\":\"d\"}}");
}

fn same_as_reference(v: &JsonValue, r: serde_json::Value) {
    assert_eq!(json_value_bytes(v), serde_json::to_vec(&r).unwrap());
}

#[test]
fn rendering_agrees_with_the_reference_serializer() {
    same_as_reference(&JsonValue::Null, serde_json::Value::Null);
    same_as_reference(&JsonValue::Int(-7), serde_json::Value::from(-7));
    same_as_reference(
        &JsonValue::Str(String::from("quote\" slash\\ control\u{2} text\u{e9}")),
        serde_json::Value::from("quote\" slash\\ control\u{2} text\u{e9}"),
    );
    let mut m = serde_json::Map::new();
    m.insert(String::from("k"), serde_json::Value::from(vec![1, 2, 3]));
    m.insert(String::from("s"), serde_json::Value::from("\u{7f}\u{80}\n"));
    same_as_reference(
        &JsonValue::Obj(vec![
            (
                String::from("k"),
                JsonValue::Arr(vec![JsonValue::Int(1), JsonValue::Int(2), JsonValue::Int(3)]),
            ),
            (String::from("s"), JsonValue::Str(String::from("\u{7f}\u{80}\n"))),
        ]),
        serde_json::Value::Object(m),
    );
}

#[test]
fn unicode_passes_through_unescaped() {
    let s = String::from("caf\u{e9} \u{1f600}");
    assert_eq!(
        json_value_bytes(&JsonValue::Str(s.clone())),
        serde_json::to_vec(&serde_json::Value::from(s)).unwrap()
    );
}
