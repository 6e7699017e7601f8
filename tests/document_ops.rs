use couchdb::{ClientState, Command, DeleteDocument, Error, HeadDocument, Method, Response, Revision};

#[test]
fn delete_document_request() {
    let cs = ClientState::new("http://example.com:1234/".to_string());
    let rev = Revision::parse("1-12345678123456781234567812345678").unwrap();
    let req = DeleteDocument::new_db_document(&cs, "foo", "bar", rev).make_request().unwrap();
    assert_eq!(req.method, Method::Delete);
    assert_eq!(req.method.as_str(), "DELETE");
    assert_eq!(req.uri, "http://example.com:1234/foo/bar");
    assert_eq!(req.if_match, Some("\"1-12345678123456781234567812345678\"".to_string()));
}

#[test]
fn delete_design_document_request() {
    let cs = ClientState::new("http://example.com:1234/".to_string());
    let rev = Revision::parse("3-x").unwrap();
    let req = DeleteDocument::new_design_document(&cs, "foo", "bar", rev).make_request().unwrap();
    assert_eq!(req.uri, "http://example.com:1234/foo/_design/bar");
}

#[test]
fn delete_document_empty_revision_sends_no_if_match() {
    let cs = ClientState::new("http://example.com:1234/".to_string());
    let req = DeleteDocument::new_db_document(&cs, "foo", "bar", Revision::new()).make_request().unwrap();
    assert_eq!(req.if_match, None);
}

#[test]
fn delete_document_outcomes() {
    let ok = Response::new(200, Some("application/json".to_string()), br#"{"ok":true}"#.to_vec());
    assert!(DeleteDocument::take_response(ok).is_ok());
    let conflict = Response::new(
        409,
        Some("application/json".to_string()),
        br#"{"error":"conflict","reason":"Document update conflict."}"#.to_vec(),
    );
    let got = DeleteDocument::take_response(conflict);
    assert!(matches!(got, Err(Error::Conflict(Some(_)))), "{:?}", got);
    let missing = Response::new(
        404,
        Some("application/json".to_string()),
        br#"{"error":"not_found","reason":"deleted"}"#.to_vec(),
    );
    let got = DeleteDocument::take_response(missing);
    assert!(matches!(got, Err(Error::NotFound(Some(_)))), "{:?}", got);
    let got = DeleteDocument::take_response(Response::new(202, None, Vec::new()));
    assert!(matches!(got, Err(Error::UnexpectedHttpStatus(202))), "{:?}", got);
}

#[test]
fn head_document_request_and_outcomes() {
    let cs = ClientState::new("http://example.com:1234/".to_string());
    let rev = Revision::parse("5-e").unwrap();
    let req = HeadDocument::new(&cs, "db", "doc").if_none_match(&rev).make_request().unwrap();
    assert_eq!(req.method, Method::Head);
    assert_eq!(req.uri, "http://example.com:1234/db/doc");
    assert_eq!(req.if_none_match, Some("\"5-e\"".to_string()));
    assert_eq!(HeadDocument::take_response(Response::new(200, None, Vec::new())).unwrap(), Some(()));
    assert_eq!(HeadDocument::take_response(Response::new(304, None, Vec::new())).unwrap(), None);
    let got = HeadDocument::take_response(Response::new(404, None, Vec::new()));
    assert!(matches!(got, Err(Error::NotFound(None))), "{:?}", got);
}

#[test]
fn delete_document_ok_requires_json_content_type() {
    let got = DeleteDocument::take_response(Response::new(200, None, br#"{"ok":true}"#.to_vec()));
    assert!(matches!(got, Err(Error::UnexpectedContentType(None))), "{:?}", got);
    let got = DeleteDocument::take_response(Response::new(
        200,
        Some("text/plain".to_string()),
        br#"{"ok":true}"#.to_vec(),
    ));
    match got {
        Err(Error::UnexpectedContentType(Some(ct))) => assert_eq!(ct, "text/plain"),
        other => panic!("unexpected outcome: {:?}", other),
    }
}

#[test]
fn head_design_document_request() {
    let cs = ClientState::new("http://example.com:1234/".to_string());
    let req = HeadDocument::new_design_document(&cs, "foo", "bar").make_request().unwrap();
    assert_eq!(req.uri, "http://example.com:1234/foo/_design/bar");
    assert_eq!(req.if_none_match, None);
}
