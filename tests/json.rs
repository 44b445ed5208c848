use tgbot::{render, Decimal, Form, FormValue, InputFile, JsonValue};

#[test]
fn render_scalars() {
    assert_eq!(render(&JsonValue::Null), "null");
    assert_eq!(render(&JsonValue::Bool(true)), "true");
    assert_eq!(render(&JsonValue::Int(0)), "0");
    assert_eq!(render(&JsonValue::Int(-42)), "-42");
    assert_eq!(render(&JsonValue::Int(i64::MIN)), "-9223372036854775808");
    assert_eq!(render(&JsonValue::Int(i64::MAX)), "9223372036854775807");
}

#[test]
fn render_decimals() {
    assert_eq!(render(&JsonValue::Decimal(Decimal { digits: 15, scale: 1 })), "1.5");
    assert_eq!(render(&JsonValue::Decimal(Decimal { digits: -5, scale: 2 })), "-0.05");
    assert_eq!(render(&JsonValue::Decimal(Decimal { digits: 7, scale: 3 })), "0.007");
    assert_eq!(render(&JsonValue::Decimal(Decimal { digits: 120, scale: 0 })), "120");
    assert_eq!(render(&JsonValue::Decimal(Decimal { digits: 100, scale: 2 })), "1.00");
}

#[test]
fn render_string_escapes() {
    let s = JsonValue::Str("a\"b\\c\nd\te\u{1}f/é".to_string());
    assert_eq!(render(&s), "\"a\\\"b\\\\c\\nd\\te\\u0001f/é\"");
    let parsed: String = serde_json::from_str(&render(&s)).unwrap();
    assert_eq!(parsed, "a\"b\\c\nd\te\u{1}f/é");
}

#[test]
fn render_nested() {
    let v = JsonValue::Object(vec![
        ("a".to_string(), JsonValue::Array(vec![JsonValue::Int(1), JsonValue::Array(vec![])])),
        ("b".to_string(), JsonValue::Object(vec![])),
    ]);
    assert_eq!(render(&v), r#"{"a":[1,[]],"b":{}}"#);
}

#[test]
fn json_get_takes_last_member() {
    let v = JsonValue::Object(vec![
        ("k".to_string(), JsonValue::Int(1)),
        ("k".to_string(), JsonValue::Int(2)),
    ]);
    assert_eq!(v.get_i64("k"), Some(2));
    assert_eq!(v.get_i64("missing"), None);
    assert_eq!(JsonValue::Int(3).get_i64("k"), None);
}

#[test]
fn form_insert_replace_remove() {
    let mut form = Form::new();
    form.insert_field("a", FormValue::Text("1".to_string()));
    form.insert_field("b", FormValue::File(InputFile::bytes("name.ogg", vec![1, 2, 3])));
    form.insert_field("a", FormValue::Text("2".to_string()));
    assert_eq!(form.len(), 2);
    assert_eq!(form.get_field("a").unwrap().get_text(), Some("2"));
    assert!(form.get_field("b").unwrap().get_text().is_none());
    form.remove_field("a");
    form.remove_field("missing");
    assert_eq!(form.len(), 1);
    assert!(form.get_field("a").is_none());
}
