use codex_shim::json::{Json, JsonNumber};
use codex_shim::value::{read_bytes, read_text_with_member};

#[test]
fn bytes_are_read_into_a_document() {
    let json = read_bytes(b"{\"a\": [1, -2, 1.5, \"x\", true, null], \"b\": {}}");
    let items = match json.get("a") {
        Some(Json::Array(items)) => items,
        other => panic!("{:?}", other),
    };
    assert_eq!(items.len(), 6);
    assert_eq!(items[0], Json::Number(JsonNumber::Unsigned(1)));
    assert_eq!(items[1], Json::Number(JsonNumber::Negative(-2)));
    assert_eq!(items[2], Json::Number(JsonNumber::Float("1.5".to_string())));
    assert_eq!(items[3], Json::String("x".to_string()));
    assert_eq!(items[4], Json::Bool(true));
    assert_eq!(items[5], Json::Null);
    assert_eq!(json.get("b"), Some(&Json::Object(vec![])));
    assert_eq!(json.get("c"), None);
}

#[test]
fn bytes_that_are_no_json_read_as_null() {
    assert_eq!(read_bytes(b""), Json::Null);
    assert_eq!(read_bytes(b"{\"a\":"), Json::Null);
    assert_eq!(read_bytes(b"\xff"), Json::Null);
    assert_eq!(read_bytes(b"1 2"), Json::Null);
}

#[test]
fn later_members_of_one_name_count() {
    let read = read_bytes(b"{\"a\": 1, \"a\": 2}");
    assert_eq!(read.get("a").unwrap().as_u64(), Some(2));
    let built = Json::object().with("a", Json::unsigned(1)).with("a", Json::unsigned(2));
    assert_eq!(built.get("a").unwrap().as_u64(), Some(2));
    assert_eq!(built.into_member("a"), Some(Json::unsigned(2)));
}

#[test]
fn a_member_is_printed_beside_the_document() {
    let (json, member) = read_text_with_member(
        "{\"error\": {\"message\": \"no\\nway\", \"code\": -1, \"x\": 1.50}, \"id\": 3}",
        "error",
    )
    .unwrap();
    assert_eq!(json.get("id").unwrap().as_u64(), Some(3));
    assert_eq!(member.as_deref(), Some("{\"code\":-1,\"message\":\"no\\nway\",\"x\":1.5}"));
    let (_, absent) = read_text_with_member("{\"id\": 3}", "error").unwrap();
    assert_eq!(absent, None);
    assert!(read_text_with_member("{", "error").is_none());
    let (list, none) = read_text_with_member("[1]", "error").unwrap();
    assert_eq!(list, Json::Array(vec![Json::unsigned(1)]));
    assert_eq!(none, None);
}

#[test]
fn only_members_of_objects_are_found() {
    assert_eq!(Json::string("x").get("a"), None);
    assert_eq!(Json::singleton(Json::Null).get("a"), None);
    assert_eq!(Json::Null.with("a", Json::Null), Json::Null);
    assert_eq!(Json::Null.into_member("a"), None);
    assert_eq!(Json::object().with("a", Json::unsigned(1)).get_str("a"), None);
    assert_eq!(Json::object().with("a", Json::string("t")).get_str("a"), Some("t"));
}

#[test]
fn numbers_keep_their_sign() {
    assert_eq!(Json::signed(-5), Json::Number(JsonNumber::Negative(-5)));
    assert_eq!(Json::signed(5), Json::Number(JsonNumber::Unsigned(5)));
    assert_eq!(Json::signed(-5).as_u64(), None);
    assert_eq!(read_bytes(b"18446744073709551615").as_u64(), Some(u64::MAX));
    assert_eq!(read_bytes(b"18446744073709551616").as_u64(), None);
    assert_eq!(read_bytes(b"3.0").as_u64(), None);
}

#[test]
fn a_clone_is_the_same_document() {
    let json = read_bytes(b"{\"a\": [{\"b\": [1.25, \"t\"]}, null], \"c\": false}");
    assert_eq!(json.clone(), json);
}
