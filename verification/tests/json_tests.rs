use devlaunch::json::{parse_json, Json};

fn text(s: &str) -> Json {
    Json::Text(s.to_string())
}

#[test]
fn parses_an_object_with_one_member() {
    let doc = parse_json("{\"a\": 1}").unwrap();
    assert_eq!(doc, Json::Object(vec![("a".to_string(), Json::Number(Some(1)))]));
}

#[test]
fn parses_every_kind_of_value() {
    let doc = parse_json("[null, true, false, -7, 1.5, \"x\", [], {}]").unwrap();
    assert_eq!(
        doc,
        Json::Array(vec![
            Json::Null,
            Json::Bool(true),
            Json::Bool(false),
            Json::Number(Some(-7)),
            Json::Number(None),
            text("x"),
            Json::Array(vec![]),
            Json::Object(vec![]),
        ])
    );
}

#[test]
fn numbers_beyond_64_signed_bits_are_no_integers() {
    assert_eq!(parse_json("9223372036854775807").unwrap(), Json::Number(Some(i64::MAX)));
    assert_eq!(parse_json("9223372036854775808").unwrap(), Json::Number(None));
}

#[test]
fn a_repeated_key_keeps_its_last_value() {
    let doc = parse_json("{\"k\": 1, \"k\": 2}").unwrap();
    assert_eq!(doc.get("k"), Some(&Json::Number(Some(2))));
    assert_eq!(doc, Json::Object(vec![("k".to_string(), Json::Number(Some(2)))]));
}

#[test]
fn text_that_is_no_json_gives_the_reason() {
    let reason = parse_json("{\"a\": }").unwrap_err();
    assert!(!reason.is_empty());
    assert!(parse_json("").is_err());
    assert!(parse_json("{} trailing").is_err());
}

#[test]
fn members_are_found_by_name() {
    let doc = parse_json("{\"a\": {\"b\": \"c\"}, \"d\": [1]}").unwrap();
    assert_eq!(doc.get("a").unwrap().get("b"), Some(&text("c")));
    assert_eq!(doc.get("b"), None);
    assert_eq!(doc.get("d").unwrap().get("0"), None);
    assert_eq!(text("a").get("a"), None);
    assert_eq!(Json::Null.get(""), None);
}

#[test]
fn the_first_of_equal_names_is_found() {
    let doc = Json::Object(vec![
        ("x".to_string(), Json::Bool(true)),
        ("x".to_string(), Json::Bool(false)),
    ]);
    assert_eq!(doc.get("x"), Some(&Json::Bool(true)));
}
