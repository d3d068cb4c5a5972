use werk1112::json::value::JsonValue;

#[test]
fn values_come_back_from_text() {
    let text = "{\"a\":[1,-2,3.5,true,null,\"x\\n\"],\"b\":{\"c\":18446744073709551615}}";
    let value = JsonValue::parse_text(text).unwrap();
    assert_eq!(value.render().unwrap(), text);
    assert_eq!(value.clone().render().unwrap(), text);
    let expected: serde_json::Value = serde_json::from_str(text).unwrap();
    assert_eq!(value.to_serde(), expected);
    assert_eq!(JsonValue::from_serde(expected).render().unwrap(), text);
    assert_eq!(
        value.member("b").unwrap().member("c").unwrap().as_unsigned(),
        Some(u64::MAX)
    );
    let items = value.member("a").unwrap();
    assert_eq!(items.first_item().unwrap().as_unsigned(), Some(1));
    assert!(items.member("a").is_none());
    assert!(value.first_item().is_none());
    assert!(value.as_text().is_none());
    assert!(items.as_unsigned().is_none());
}

#[test]
fn bytes_are_read_like_text() {
    let value = JsonValue::parse_bytes(b" {\"k\": \"v\"} ").unwrap();
    assert_eq!(value.member("k").unwrap().as_text(), Some("v"));
    assert_eq!(
        JsonValue::parse_bytes(b"{").unwrap_err(),
        "EOF while parsing an object at line 1 column 1"
    );
    assert_eq!(
        JsonValue::parse_text("nope").unwrap_err(),
        "expected ident at line 1 column 2"
    );
}

#[test]
fn last_entry_of_a_name_counts() {
    let value = JsonValue::Object(vec![
        ("a".to_string(), JsonValue::Unsigned(1)),
        ("b".to_string(), JsonValue::Bool(true)),
        ("a".to_string(), JsonValue::Unsigned(2)),
    ]);
    assert_eq!(value.member("a").unwrap().as_unsigned(), Some(2));
    assert_eq!(value.render().unwrap(), "{\"a\":2,\"b\":true}");
    let number = JsonValue::Number(serde_json::Number::from(9u64));
    assert_eq!(number.as_unsigned(), Some(9));
    let negative = JsonValue::parse_text("-1").unwrap();
    assert_eq!(negative.as_unsigned(), None);
    assert_eq!(negative.render().unwrap(), "-1");
}
