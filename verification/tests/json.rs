use goose_tools::json::{comes_before, JsonObject, JsonValue};

fn number(n: i64) -> JsonValue {
    JsonValue::Number(serde_json::Number::from(n))
}

fn text(s: &str) -> JsonValue {
    JsonValue::Text(s.to_string())
}

#[test]
fn members_stand_in_the_order_of_their_keys() {
    let object = JsonObject::new()
        .insert("b".to_string(), number(1))
        .insert("aé".to_string(), number(2))
        .insert("a".to_string(), number(3))
        .insert("b".to_string(), number(4));
    assert_eq!(object.len(), 3);
    assert_eq!(object.key_at(0), "a");
    assert_eq!(object.key_at(1), "aé");
    assert_eq!(object.key_at(2), "b");
    assert_eq!(*object.value_at(2), number(4));
    assert_eq!(object.get("aé"), Some(&number(2)));
    assert_eq!(object.get("c"), None);
    assert!(object.contains_key("a"));
    assert!(!object.contains_key(""));
}

#[test]
fn strings_are_ordered_as_std_orders_them() {
    let texts = ["", "a", "ab", "b", "é", "z", "\u{ffff}", "\u{10000}", "aé"];
    for a in texts {
        for b in texts {
            assert_eq!(comes_before(a, b), a < b, "{:?} {:?}", a, b);
        }
    }
}

#[test]
fn texts_are_read_as_serde_json_reads_them() {
    let value = JsonValue::parse("{\"b\":[1,null,true,\"x\"],\"a\":{}}").unwrap();
    let expected = JsonObject::new()
        .insert("a".to_string(), JsonValue::Object(JsonObject::new()))
        .insert(
            "b".to_string(),
            JsonValue::Array(vec![
                number(1),
                JsonValue::Null,
                JsonValue::Bool(true),
                text("x"),
            ]),
        );
    assert_eq!(value, JsonValue::Object(expected));
    assert_eq!(JsonValue::parse(" 7 "), Some(number(7)));
    for bad in ["", "{", "[1,]", "nul", "'a'", "1 2"] {
        assert_eq!(JsonValue::parse(bad), None);
    }
}

#[test]
fn values_are_written_on_one_line() {
    let object = JsonObject::new()
        .insert("z".to_string(), text("a\nb\r\"\u{1}"))
        .insert(
            "a".to_string(),
            JsonValue::Array(vec![number(-3), JsonValue::Null]),
        );
    let value = JsonValue::Object(object);
    assert_eq!(
        value.compact_text(),
        "{\"a\":[-3,null],\"z\":\"a\\nb\\r\\\"\\u0001\"}"
    );
    assert_eq!(
        value.pretty_text(),
        "{\n  \"a\": [\n    -3,\n    null\n  ],\n  \"z\": \"a\\nb\\r\\\"\\u0001\"\n}"
    );
}

#[test]
fn values_pass_to_serde_json_and_back() {
    let source = "{\"a\":[1.5,-2,18446744073709551615,{\"k\":false}],\"b\":\"é\",\"c\":null}";
    let outside: serde_json::Value = serde_json::from_str(source).unwrap();
    let value = JsonValue::from_value(outside.clone());
    assert_eq!(value.to_value(), outside);
    assert_eq!(value.copy(), value);
    assert_eq!(value.compact_text(), source);
}
