use webviewjs::json::{parse, to_bytes, JsonNumber, JsonValue};

fn object(members: Vec<(&str, JsonValue)>) -> JsonValue {
    JsonValue::Object(members.into_iter().map(|(k, v)| (k.to_string(), v)).collect())
}

fn number(n: u64) -> JsonValue {
    JsonValue::Number(JsonNumber::Unsigned(n))
}

#[test]
fn parse_reads_every_kind_of_document() {
    assert_eq!(parse(b"null"), Some(JsonValue::Null));
    assert_eq!(parse(b" true "), Some(JsonValue::Bool(true)));
    assert_eq!(parse(b"false"), Some(JsonValue::Bool(false)));
    assert_eq!(parse(b"0"), Some(number(0)));
    assert_eq!(parse(b"18446744073709551615"), Some(number(u64::MAX)));
    assert_eq!(parse(b"-1"), Some(JsonValue::Number(JsonNumber::Signed(-1))));
    assert_eq!(
        parse(b"-9223372036854775808"),
        Some(JsonValue::Number(JsonNumber::Signed(i64::MIN)))
    );
    assert_eq!(parse(b"1.5"), Some(JsonValue::Number(JsonNumber::Real("1.5".to_string()))));
    assert_eq!(parse(b"-0"), Some(JsonValue::Number(JsonNumber::Real("-0.0".to_string()))));
    assert_eq!(parse(b"\"a\\n\\u00e9\""), Some(JsonValue::Text("a\n\u{e9}".to_string())));
    assert_eq!(parse(b"[]"), Some(JsonValue::Array(vec![])));
    assert_eq!(
        parse(b"[1, [2, null], \"x\"]"),
        Some(JsonValue::Array(vec![
            number(1),
            JsonValue::Array(vec![number(2), JsonValue::Null]),
            JsonValue::Text("x".to_string()),
        ]))
    );
    assert_eq!(parse(b"{}"), Some(object(vec![])));
    assert_eq!(
        parse(b"{\"a\": {\"b\": [true]}}"),
        Some(object(vec![("a", object(vec![("b", JsonValue::Array(vec![JsonValue::Bool(true)]))]))]))
    );
}

#[test]
fn parse_rejects_what_is_no_document() {
    for text in [&b""[..], b"{", b"[1,]", b"nul", b"1 2", b"{\"a\" 1}", b"'a'", b"\xff"] {
        assert_eq!(parse(text), None, "{}", String::from_utf8_lossy(text));
    }
}

#[test]
fn one_member_counts_for_a_key_after_parsing() {
    let document = parse(b"{\"k\": 1, \"k\": 2}").unwrap();
    assert_eq!(document.get("k"), Some(&number(2)));
    assert_eq!(document, object(vec![("k", number(2))]));
}

#[test]
fn to_bytes_writes_compact_text() {
    assert_eq!(to_bytes(&JsonValue::Null), Some(b"null".to_vec()));
    assert_eq!(to_bytes(&JsonValue::Bool(true)), Some(b"true".to_vec()));
    assert_eq!(to_bytes(&number(42)), Some(b"42".to_vec()));
    assert_eq!(to_bytes(&JsonValue::Number(JsonNumber::Signed(-7))), Some(b"-7".to_vec()));
    assert_eq!(to_bytes(&JsonValue::Number(JsonNumber::Signed(7))), Some(b"7".to_vec()));
    assert_eq!(
        to_bytes(&JsonValue::Number(JsonNumber::Real("2.50".to_string()))),
        Some(b"2.5".to_vec())
    );
    assert_eq!(
        to_bytes(&JsonValue::Number(JsonNumber::Real("two".to_string()))),
        Some(b"null".to_vec())
    );
    assert_eq!(
        to_bytes(&JsonValue::Text("a\"b\n".to_string())),
        Some(b"\"a\\\"b\\n\"".to_vec())
    );
    assert_eq!(
        to_bytes(&JsonValue::Array(vec![number(1), JsonValue::Null])),
        Some(b"[1,null]".to_vec())
    );
    assert_eq!(
        to_bytes(&JsonValue::single("k", JsonValue::text("v"))),
        Some(b"{\"k\":\"v\"}".to_vec())
    );
}

#[test]
fn an_object_is_written_as_its_map_holds_it() {
    let document = object(vec![("b", number(1)), ("a", number(2)), ("b", number(3))]);
    let text = to_bytes(&document).unwrap();
    let back = parse(&text).unwrap();
    assert_eq!(back.get("a"), Some(&number(2)));
    assert_eq!(back.get("b"), Some(&number(3)));
    match back {
        JsonValue::Object(members) => assert_eq!(members.len(), 2),
        other => panic!("{:?}", other),
    }
}

#[test]
fn a_tree_comes_back_from_its_text() {
    let document = object(vec![
        ("a", JsonValue::Array(vec![number(1), JsonValue::Bool(false), JsonValue::Null])),
        ("b", object(vec![("c", JsonValue::Text("d".to_string()))])),
        ("e", JsonValue::Number(JsonNumber::Real("0.125".to_string()))),
        ("f", JsonValue::Number(JsonNumber::Signed(-12))),
    ]);
    assert_eq!(parse(&to_bytes(&document).unwrap()), Some(document));
}

#[test]
fn members_are_found_by_key() {
    let document = object(vec![("a", number(1)), ("b", JsonValue::Null), ("a", number(2))]);
    assert_eq!(document.get("a"), Some(&number(2)));
    assert_eq!(document.get("b"), Some(&JsonValue::Null));
    assert_eq!(document.get("c"), None);
    assert_eq!(number(1).get("a"), None);
    assert_eq!(JsonValue::Array(vec![]).get("0"), None);
}

#[test]
fn documents_tell_what_they_are() {
    assert!(JsonValue::Null.is_null());
    assert!(!JsonValue::Bool(false).is_null());
    assert_eq!(JsonValue::Bool(true).as_bool(), Some(true));
    assert_eq!(number(1).as_bool(), None);
    assert_eq!(number(7).as_unsigned(), Some(7));
    assert_eq!(JsonValue::Number(JsonNumber::Signed(7)).as_unsigned(), None);
    assert_eq!(JsonValue::Number(JsonNumber::Real("7".to_string())).as_unsigned(), None);
    assert_eq!(number(7).as_number(), Some(&JsonNumber::Unsigned(7)));
    assert_eq!(JsonValue::Null.as_number(), None);
    assert_eq!(JsonValue::text("t").as_text(), Some(&"t".to_string()));
    assert_eq!(JsonValue::Null.as_text(), None);
    assert_eq!(JsonValue::unsigned(3), number(3));
    assert_eq!(JsonValue::object(vec![]), object(vec![]));
}

#[test]
fn a_copy_is_equal() {
    let document = object(vec![
        ("a", JsonValue::Array(vec![number(1), JsonValue::Text("x".to_string())])),
        ("b", JsonValue::Number(JsonNumber::Real("1.5".to_string()))),
    ]);
    assert_eq!(document.duplicate(), document);
    assert_eq!(document.clone(), document);
    assert_eq!(JsonNumber::Signed(-1).clone(), JsonNumber::Signed(-1));
}
