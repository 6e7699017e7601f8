use couchdb::json::text_eq;
use couchdb::response::is_json_content_type_value;
use couchdb::{Json, JsonNumber, Response};

#[test]
fn decode_json_numbers_and_nesting() {
    let r = Response::new(200, None, br#"{"a":[1,-2,2.5,null,true],"b":{"c":"d"}}"#.to_vec());
    let j = r.decode_json().unwrap();
    let a = j.member("a").unwrap();
    match a {
        Json::Array(items) => {
            assert_eq!(items[0], Json::Number(JsonNumber::Unsigned(1)));
            assert_eq!(items[1], Json::Number(JsonNumber::Negative(-2)));
            assert_eq!(items[2], Json::Number(JsonNumber::Float("2.5".to_string())));
            assert_eq!(items[3], Json::Null);
            assert_eq!(items[4], Json::Bool(true));
        }
        other => panic!("not an array: {:?}", other),
    }
    let b = j.member("b").unwrap();
    assert_eq!(b.str_member("c"), Some("d".to_string()));
    assert_eq!(j.member("z"), None);
    assert_eq!(j.u64_member("a"), None);
}

#[test]
fn typed_members() {
    let j = Response::new(200, None, br#"{"n":18446744073709551615,"t":false,"s":"x"}"#.to_vec())
        .decode_json()
        .unwrap();
    assert_eq!(j.u64_member("n"), Some(u64::MAX));
    assert_eq!(j.bool_member("t"), Some(false));
    assert_eq!(j.bool_member("s"), None);
    assert_eq!(j.str_member("s"), Some("x".to_string()));
    assert_eq!(j.str_member("n"), None);
}

#[test]
fn decode_json_rejects_garbage() {
    assert!(Response::new(200, None, b"{".to_vec()).decode_json().is_err());
    assert!(Response::new(200, None, Vec::new()).decode_json().is_err());
}

#[test]
fn json_content_type_values() {
    assert!(is_json_content_type_value("application/json"));
    assert!(is_json_content_type_value("application/json;charset=utf-8"));
    assert!(is_json_content_type_value("APPLICATION/Json  "));
    assert!(!is_json_content_type_value("application/jsonx"));
    assert!(!is_json_content_type_value("text/plain"));
    assert!(!is_json_content_type_value("application/jso"));
    assert!(!is_json_content_type_value(""));
}

#[test]
fn require_content_type() {
    let r = Response::new(200, Some("application/json".to_string()), Vec::new());
    assert!(r.require_content_type_json().is_ok());
    assert_eq!(r.status(), 200);
}

#[test]
fn text_equality() {
    assert!(text_eq("abc", "abc"));
    assert!(!text_eq("abc", "abd"));
}
