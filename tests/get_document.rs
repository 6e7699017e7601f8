use couchdb::{ClientState, Command, Error, GetDocument, Json, JsonNumber, Method, Response, Revision};

fn json_response(status: u16, body: &[u8]) -> Response {
    Response::new(status, Some("application/json".to_string()), body.to_vec())
}

#[test]
fn make_request_default() {
    let client_state = ClientState::new("http://example.com:1234/".to_string());
    let action = GetDocument::new(&client_state, "foo", "bar");
    let request = action.make_request().unwrap();
    assert_eq!(request.method, Method::Get);
    assert_eq!(request.uri, "http://example.com:1234/foo/bar");
    assert!(request.accept_json);
    assert_eq!(request.if_none_match, None);
    assert_eq!(
        request.headers(),
        vec![("Accept".to_string(), "application/json".to_string())]
    );
}

#[test]
fn make_request_if_none_match() {
    let client_state = ClientState::new("http://example.com:1234/".to_string());
    let rev = Revision::parse("42-1234567890abcdef1234567890abcdef").unwrap();
    let action = GetDocument::new(&client_state, "foo", "bar").if_none_match(&rev);
    let request = action.make_request().unwrap();
    assert_eq!(request.method, Method::Get);
    assert_eq!(request.uri, "http://example.com:1234/foo/bar");
    assert!(request.accept_json);
    assert_eq!(
        request.if_none_match,
        Some("\"42-1234567890abcdef1234567890abcdef\"".to_string())
    );
}

#[test]
fn take_response_ok() {
    let source = br#"{"_id":"foo","_rev":"42-1234567890abcdef1234567890abcdef","bar":17}"#;
    let response = json_response(200, source);
    let got = GetDocument::take_response(response).unwrap();
    let got = got.unwrap();
    assert_eq!(got.id, "foo");
    assert_eq!(
        got.revision,
        Revision::parse("42-1234567890abcdef1234567890abcdef").unwrap()
    );
    assert!(!got.deleted);
    let expected = Json::Object(vec![(
        "bar".to_string(),
        Json::Number(JsonNumber::Unsigned(17)),
    )]);
    assert_eq!(expected, got.content);
}

#[test]
fn take_response_not_modified() {
    let response = Response::new(304, None, Vec::new());
    let got = GetDocument::take_response(response).unwrap();
    assert!(got.is_none());
}

#[test]
fn take_response_bad_request() {
    let source = br#"{"error":"bad_request","reason":"Invalid rev format"}"#;
    let response = json_response(400, source);
    let got = GetDocument::take_response(response);
    match got {
        Err(Error::BadRequest(Some(e))) => {
            assert_eq!(e.error, "bad_request");
            assert_eq!(e.reason, "Invalid rev format");
        }
        other => panic!("unexpected outcome: {:?}", other),
    }
}

#[test]
fn take_response_not_found() {
    let source = br#"{"error":"not_found","reason":"missing"}"#;
    let response = json_response(404, source);
    let got = GetDocument::take_response(response);
    assert!(matches!(got, Err(Error::NotFound(Some(_)))), "{:?}", got);
}

#[test]
fn take_response_unauthorized() {
    let source = br#"{"error":"unauthorized","reason":"blah blah blah"}"#;
    let response = json_response(401, source);
    let got = GetDocument::take_response(response);
    assert!(matches!(got, Err(Error::Unauthorized(Some(_)))), "{:?}", got);
}

#[test]
fn get_document_deleted_and_reserved_members() {
    let source = br#"{"_id":"x","_rev":"3-a","_deleted":true,"_attachments":{},"name":"n"}"#;
    let got = GetDocument::take_response(json_response(200, source)).unwrap().unwrap();
    assert!(got.deleted);
    assert_eq!(got.revision.as_str(), "3-a");
    assert_eq!(
        got.content,
        Json::Object(vec![("name".to_string(), Json::String("n".to_string()))])
    );
}

#[test]
fn get_document_text_plain_fails_before_parsing() {
    let response = Response::new(200, Some("text/plain".to_string()), b"not json at all".to_vec());
    let got = GetDocument::take_response(response);
    match got {
        Err(Error::UnexpectedContentType(Some(ct))) => assert_eq!(ct, "text/plain"),
        other => panic!("unexpected outcome: {:?}", other),
    }
}

#[test]
fn get_document_missing_content_type() {
    let response = Response::new(200, None, br#"{"_id":"a","_rev":"1-a"}"#.to_vec());
    let got = GetDocument::take_response(response);
    assert!(matches!(got, Err(Error::UnexpectedContentType(None))), "{:?}", got);
}

#[test]
fn get_document_content_type_with_charset() {
    let response = Response::new(
        200,
        Some("Application/JSON ; charset=utf-8".to_string()),
        br#"{"_id":"a","_rev":"1-a"}"#.to_vec(),
    );
    let got = GetDocument::take_response(response).unwrap().unwrap();
    assert_eq!(got.id, "a");
}

#[test]
fn get_document_malformed_json() {
    let got = GetDocument::take_response(json_response(200, b"{\"_id\":"));
    assert!(matches!(got, Err(Error::Decode(_))), "{:?}", got);
}

#[test]
fn get_document_missing_rev() {
    let body = br#"{"_id":"a"}"#;
    let got = GetDocument::take_response(json_response(200, body));
    match got {
        Err(Error::UnexpectedContent { field, body: b }) => {
            assert_eq!(field, "_rev");
            assert_eq!(b, body.to_vec());
        }
        other => panic!("unexpected outcome: {:?}", other),
    }
}

#[test]
fn get_document_mistyped_deleted() {
    let got = GetDocument::take_response(json_response(200, br#"{"_id":"a","_rev":"1-a","_deleted":"yes"}"#));
    assert!(
        matches!(&got, Err(Error::UnexpectedContent { field, .. }) if field == "_deleted"),
        "{:?}",
        got
    );
}

#[test]
fn get_document_not_an_object() {
    let got = GetDocument::take_response(json_response(200, b"[1,2]"));
    assert!(
        matches!(&got, Err(Error::UnexpectedContent { field, .. }) if field.is_empty()),
        "{:?}",
        got
    );
}

#[test]
fn get_document_error_body_not_json() {
    let response = Response::new(404, Some("text/html".to_string()), b"<html></html>".to_vec());
    let got = GetDocument::take_response(response);
    assert!(matches!(got, Err(Error::NotFound(None))), "{:?}", got);
}

#[test]
fn get_document_unexpected_status() {
    let got = GetDocument::take_response(json_response(500, b"{}"));
    assert!(matches!(got, Err(Error::UnexpectedHttpStatus(500))), "{:?}", got);
}

#[test]
fn get_document_empty_revision_sends_no_header() {
    let client_state = ClientState::new("http://example.com:1234".to_string());
    let rev = Revision::new();
    let request = GetDocument::new(&client_state, "foo", "bar")
        .if_none_match(&rev)
        .make_request()
        .unwrap();
    assert_eq!(request.if_none_match, None);
    assert_eq!(request.uri, "http://example.com:1234/foo/bar");
    assert!(request.headers().iter().all(|(n, _)| n != "If-None-Match"));
}

#[test]
fn get_document_invalid_path() {
    let client_state = ClientState::new("http://example.com:1234/".to_string());
    let got = GetDocument::new(&client_state, "foo", "a/b").make_request();
    assert!(matches!(&got, Err(Error::InvalidPath(p)) if p == "a/b"), "{:?}", got);
    let got = GetDocument::new(&client_state, "", "b").make_request();
    assert!(matches!(got, Err(Error::InvalidPath(_))));
}

#[test]
fn get_design_document_request() {
    let client_state = ClientState::new("http://example.com:1234/".to_string());
    let request = GetDocument::new_design_document(&client_state, "foo", "bar").make_request().unwrap();
    assert_eq!(request.method, Method::Get);
    assert_eq!(request.uri, "http://example.com:1234/foo/_design/bar");
}
