use engine::authority_capsule::{escaped_output_bytes, exact_object, json_limits, semantic_leaf_count};
use engine::charter_runtime_vectors::{JsonMember, JsonValue};

fn obj(members: Vec<(&str, JsonValue)>) -> JsonValue {
    JsonValue::Object(
        members.into_iter().map(|(key, value)| JsonMember { key: key.to_owned(), value }).collect(),
    )
}

fn s(text: &str) -> JsonValue {
    JsonValue::Str(text.to_owned())
}

#[test]
fn escapes_count_the_bytes_they_decode_to() {
    assert_eq!(escaped_output_bytes(b"plain text").unwrap(), 0);
    assert_eq!(escaped_output_bytes(br#"a\n\"b\/"#).unwrap(), 3);
    assert_eq!(escaped_output_bytes(br"\u0041").unwrap(), 1);
    assert_eq!(escaped_output_bytes(br"\u00e9").unwrap(), 2);
    assert_eq!(escaped_output_bytes(br"\u20AC").unwrap(), 3);
    assert_eq!(escaped_output_bytes(br"\ud83d\ude00").unwrap(), 4);
    assert!(escaped_output_bytes(b"\\").is_err());
    assert!(escaped_output_bytes(br"\x").is_err());
    assert!(escaped_output_bytes(br"\u00").is_err());
    assert!(escaped_output_bytes(br"\ud83d").is_err());
    assert!(escaped_output_bytes(br"\ude00").is_err());
    assert!(escaped_output_bytes(br"\ud83d\u0041").is_err());
    assert!(escaped_output_bytes(br"\uzzzz").is_err());
}

#[test]
fn json_limits_count_members_and_bound_strings() {
    let value = obj(vec![("a", obj(vec![("b", s("x"))])), ("c", JsonValue::Array(vec![s("y")]))]);
    let mut members = 0usize;
    assert!(json_limits(&value, 1, &mut members, None, &Vec::new()).is_ok());
    assert_eq!(members, 3);
    let long = obj(vec![("payload", s(&"z".repeat(8193)))]);
    let mut count = 0usize;
    assert!(json_limits(&long, 1, &mut count, None, &Vec::new()).is_err());
    let mut count = 0usize;
    assert!(json_limits(&long, 1, &mut count, Some("/payload"), &Vec::new()).is_ok());
    let mut deep = s("leaf");
    for _ in 0..13 {
        deep = JsonValue::Array(vec![deep]);
    }
    let mut count = 0usize;
    assert!(json_limits(&deep, 1, &mut count, None, &Vec::new()).is_err());
    let mut count = 190usize;
    assert!(json_limits(&value, 1, &mut count, None, &Vec::new()).is_err());
}

#[test]
fn leaves_and_exact_objects() {
    let value = obj(vec![
        ("a", obj(vec![("b", s("x")), ("c", JsonValue::Null)])),
        ("d", JsonValue::Array(Vec::new())),
        ("e", obj(vec![])),
    ]);
    assert_eq!(semantic_leaf_count(&value), 4);
    assert!(exact_object(&value, &vec!["e", "a", "d"]));
    assert!(!exact_object(&value, &vec!["a", "d"]));
    assert!(!exact_object(&value, &vec!["a", "d", "x"]));
    assert!(!exact_object(&s("a"), &vec![]));
}
