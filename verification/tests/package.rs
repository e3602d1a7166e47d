use resolver_hook::PackageId;

#[test]
fn identity_from_single_line_text() {
    let id = PackageId::from_json("\"foo 1.0.0 (registry+https://example.org)\"".to_string())
        .expect("no line feed in the text");
    assert_eq!(id.as_json(), "\"foo 1.0.0 (registry+https://example.org)\"");
}

#[test]
fn identity_refuses_a_line_feed() {
    assert_eq!(PackageId::from_json("{\"name\":\n\"foo\"}".to_string()), None);
    assert_eq!(PackageId::from_json("\n".to_string()), None);
    assert_eq!(PackageId::from_json("\"foo\"\n".to_string()), None);
}

#[test]
fn request_line_is_json_and_line_feed() {
    let id = PackageId::from_json("{\"name\":\"foo\",\"version\":\"1.0.0\"}".to_string()).unwrap();
    assert_eq!(id.request_line(), "{\"name\":\"foo\",\"version\":\"1.0.0\"}\n");
    let empty = PackageId::from_json(String::new()).unwrap();
    assert_eq!(empty.request_line(), "\n");
}

#[test]
fn request_line_has_one_line_feed() {
    let texts = ["\"a\"", "[1,2,3]", "{\"k\":\"v w\"}", "null", "\"\\n\"", "\"\u{e9}\u{1f600}\""];
    for text in texts {
        let id = PackageId::from_json(text.to_string()).unwrap();
        let line = id.request_line();
        assert_eq!(line.matches('\n').count(), 1);
        assert!(line.ends_with('\n'));
        assert_eq!(&line[..line.len() - 1], text);
    }
}

#[test]
fn identity_from_value_is_serialised() {
    let value = serde_json::Value::String("foo 1.0.0 (registry+https://example.org)".to_string());
    let id = PackageId::from_value(&value).expect("a string can be written");
    assert_eq!(id.as_json(), "\"foo 1.0.0 (registry+https://example.org)\"");
    assert_eq!(id.request_line(), "\"foo 1.0.0 (registry+https://example.org)\"\n");
}

#[test]
fn serialising_escapes_line_feeds() {
    let value = serde_json::Value::String("two\nlines\r\n".to_string());
    let id = PackageId::from_value(&value).expect("the line feed is escaped");
    assert_eq!(id.as_json(), "\"two\\nlines\\r\\n\"");
    assert_eq!(id.request_line().matches('\n').count(), 1);
}

#[test]
fn serialising_an_object_is_compact() {
    let mut object = serde_json::Map::new();
    object.insert("version".to_string(), serde_json::Value::String("1.2.3".to_string()));
    object.insert("name".to_string(), serde_json::Value::String("left\npad".to_string()));
    object.insert("yanked".to_string(), serde_json::Value::Bool(false));
    object.insert(
        "features".to_string(),
        serde_json::Value::Array(vec![serde_json::Value::from(1), serde_json::Value::Null]),
    );
    let id = PackageId::from_value(&serde_json::Value::Object(object)).unwrap();
    assert_eq!(
        id.as_json(),
        "{\"features\":[1,null],\"name\":\"left\\npad\",\"version\":\"1.2.3\",\"yanked\":false}"
    );
}

#[test]
fn same_value_gives_same_identity() {
    let value = serde_json::Value::String("foo 1.0.0".to_string());
    assert_eq!(PackageId::from_value(&value), PackageId::from_value(&value.clone()));
}
