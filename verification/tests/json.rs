use leo_bot::json::Json;

fn parsed(text: &str) -> Json {
    Json::parse(text).expect("a document")
}

#[test]
fn documents_are_read_down_to_the_leaves() {
    let json = parsed(r#"{"op":10,"d":{"list":[1,"x",null,true],"name":"leo"}}"#);
    assert_eq!(json.get("op").as_u64(), Some(10));
    assert_eq!(json.get("d").get("name").as_str(), Some("leo"));
    let items = json.get("d").get("list").as_array().expect("an array");
    assert_eq!(items.len(), 4);
    assert_eq!(items[0].as_u64(), Some(1));
    assert_eq!(items[1].as_str(), Some("x"));
    assert!(items[2].is_null());
    assert!(matches!(items[3], Json::Bool(true)));
}

#[test]
fn missing_members_are_null() {
    let json = parsed(r#"{"a":1}"#);
    assert!(json.get("b").is_null());
    assert!(json.get("b").get("c").is_null());
    assert!(json.get("a").get("b").is_null());
    assert!(parsed("[1]").get("a").is_null());
    assert_eq!(json.get("b").as_u64(), None);
    assert_eq!(json.get("b").as_str(), None);
    assert!(json.get("b").as_array().is_none());
    assert_eq!(json.get("b").str_or_empty(), "");
}

#[test]
fn last_of_equal_keys_counts() {
    assert_eq!(parsed(r#"{"a":1,"a":2}"#).get("a").as_u64(), Some(2));
    let twice = Json::Object(vec![
        (String::from("a"), Json::UInt(1)),
        (String::from("a"), Json::UInt(2)),
    ]);
    assert_eq!(twice.get("a").as_u64(), Some(2));
}

#[test]
fn only_unsigned_integers_are_numbers_to_read() {
    assert_eq!(parsed("18446744073709551615").as_u64(), Some(u64::MAX));
    assert!(matches!(parsed("-1"), Json::OtherNumber));
    assert!(matches!(parsed("1.5"), Json::OtherNumber));
    assert!(matches!(parsed("1.0"), Json::OtherNumber));
    assert!(matches!(parsed("18446744073709551616"), Json::OtherNumber));
    assert_eq!(parsed("\"1\"").as_u64(), None);
}

#[test]
fn other_texts_are_no_documents() {
    assert!(Json::parse("").is_none());
    assert!(Json::parse("{").is_none());
    assert!(Json::parse("{\"a\":}").is_none());
    assert!(Json::parse("nul").is_none());
}

#[test]
fn escapes_are_resolved() {
    assert_eq!(parsed(r#""a\n\u00e4""#).as_str(), Some("a\nä"));
}
