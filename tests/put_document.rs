use couchdb::{new_put_document, ClientState, Command, Error, Method, PutDocument, Response, Revision};

fn json_response(status: u16, body: &[u8]) -> Response {
    Response::new(status, Some("application/json".to_string()), body.to_vec())
}

#[test]
fn put_document_request_with_if_match() {
    let cs = ClientState::new("http://example.com:1234/".to_string());
    let rev = Revision::parse("1-abc").unwrap();
    let body = br#"{"name":"Babe Ruth","career_hr":714}"#.to_vec();
    let req = new_put_document(&cs, "baseball", "babe_ruth", body.clone())
        .if_match(&rev)
        .make_request()
        .unwrap();
    assert_eq!(req.method, Method::Put);
    assert_eq!(req.method.as_str(), "PUT");
    assert_eq!(req.uri, "http://example.com:1234/baseball/babe_ruth");
    assert!(req.accept_json && req.content_type_json);
    assert_eq!(req.if_match, Some("\"1-abc\"".to_string()));
    assert_eq!(req.if_none_match, None);
    assert_eq!(req.body, body);
    assert_eq!(
        req.headers(),
        vec![
            ("Accept".to_string(), "application/json".to_string()),
            ("Content-Type".to_string(), "application/json".to_string()),
            ("If-Match".to_string(), "\"1-abc\"".to_string()),
        ]
    );
}

#[test]
fn put_document_request_without_revision() {
    let cs = ClientState::new("http://example.com:1234/".to_string());
    let req = new_put_document(&cs, "baseball", "babe_ruth", b"{}".to_vec()).make_request().unwrap();
    assert_eq!(req.if_match, None);
    assert!(req.headers().iter().all(|(n, _)| n != "If-Match"));
}

#[test]
fn put_document_created_yields_revision() {
    let got = PutDocument::take_response(json_response(201, br#"{"ok":true,"id":"x","rev":"2-abc"}"#));
    assert_eq!(got.unwrap(), Revision::from_string("2-abc".to_string()));
}

#[test]
fn put_document_conflict() {
    let got = PutDocument::take_response(json_response(
        409,
        br#"{"error":"conflict","reason":"Document update conflict."}"#,
    ));
    match got {
        Err(Error::Conflict(Some(e))) => {
            assert_eq!(e.error, "conflict");
            assert_eq!(e.reason, "Document update conflict.");
        }
        other => panic!("unexpected outcome: {:?}", other),
    }
}

#[test]
fn put_document_stale_revision_scenario() {
    // The document stands at r1; a first guarded put moves it to r2.
    let cs = ClientState::new("http://example.com:1234/".to_string());
    let r1 = Revision::parse("1-aaa").unwrap();
    let first = new_put_document(&cs, "baseball", "doc", b"{\"a\":1}".to_vec())
        .if_match(&r1)
        .make_request()
        .unwrap();
    assert_eq!(first.if_match, Some("\"1-aaa\"".to_string()));
    let r2 = PutDocument::take_response(json_response(201, br#"{"ok":true,"id":"doc","rev":"2-bbb"}"#)).unwrap();
    assert_eq!(r2.as_str(), "2-bbb");
    assert!(r1 != r2);
    // Trying again with the stale r1 is refused by the server with 409.
    let again = new_put_document(&cs, "baseball", "doc", b"{\"a\":2}".to_vec())
        .if_match(&r1)
        .make_request()
        .unwrap();
    assert_eq!(again.if_match, Some("\"1-aaa\"".to_string()));
    let got = PutDocument::take_response(json_response(
        409,
        br#"{"error":"conflict","reason":"Document update conflict."}"#,
    ));
    assert!(matches!(got, Err(Error::Conflict(Some(_)))), "{:?}", got);
}

#[test]
fn put_document_other_errors() {
    for (status, body) in [(400u16, &br#"{"error":"bad_request","reason":"x"}"#[..]), (401, b"{}"), (404, b"")] {
        let got = PutDocument::take_response(json_response(status, body));
        match (status, &got) {
            (400, Err(Error::BadRequest(Some(_)))) => {}
            (401, Err(Error::Unauthorized(None))) => {}
            (404, Err(Error::NotFound(None))) => {}
            _ => panic!("unexpected outcome for {}: {:?}", status, got),
        }
    }
}

#[test]
fn put_document_missing_rev() {
    let body = br#"{"ok":true}"#;
    let got = PutDocument::take_response(json_response(201, body));
    match got {
        Err(Error::UnexpectedContent { field, body: b }) => {
            assert_eq!(field, "rev");
            assert_eq!(b, body.to_vec());
        }
        other => panic!("unexpected outcome: {:?}", other),
    }
}

#[test]
fn put_document_rev_not_a_string() {
    let got = PutDocument::take_response(json_response(201, br#"{"rev":2}"#));
    assert!(matches!(&got, Err(Error::UnexpectedContent { field, .. }) if field == "rev"), "{:?}", got);
}

#[test]
fn put_document_unexpected_status() {
    let got = PutDocument::take_response(json_response(200, br#"{"rev":"2-abc"}"#));
    assert!(matches!(got, Err(Error::UnexpectedHttpStatus(200))), "{:?}", got);
}

#[test]
fn put_design_document_request() {
    let cs = ClientState::new("http://example.com:1234/".to_string());
    let body = br#"{"views":{"qux":{"map":"function(doc) {}"}}}"#.to_vec();
    let req = PutDocument::new_design_document(&cs, "foo", "bar", body.clone()).make_request().unwrap();
    assert_eq!(req.method, Method::Put);
    assert_eq!(req.uri, "http://example.com:1234/foo/_design/bar");
    assert_eq!(req.body, body);
    assert_eq!(req.if_match, None);
}
