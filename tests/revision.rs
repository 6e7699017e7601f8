use couchdb::{Revision, RevisionParseError};

#[test]
fn test_revision() {
    let r1 = Revision::new();
    assert!(r1.is_empty());

    let r1 = Revision::from_string("1-1234".to_string());
    assert!(!r1.is_empty());

    let r2 = r1.clone();
    assert!(r1 == r2);
    assert!(!(r1 != r2));
    assert!(r1 <= r2);
    assert!(!(r1 < r2));
    assert!(r2 <= r1);
    assert!(!(r2 < r1));
    let r2 = Revision::from_string("2-1234".to_string());
    assert!(!(r1 == r2));
    assert!(r1 != r2);
    assert!(r1 <= r2);
    assert!(r1 < r2);
    assert!(!(r2 <= r1));
    assert!(!(r2 < r1));
}

#[test]
fn revision_parse_keeps_text() {
    let r = Revision::parse("42-1234567890abcdef1234567890abcdef").unwrap();
    assert_eq!(r.as_str(), "42-1234567890abcdef1234567890abcdef");
    assert!(!r.is_empty());
}

#[test]
fn revision_parse_rejects_malformed() {
    for s in ["", "-", "1-", "-abc", "a-abc", "12abc", "1x-abc", "12"] {
        assert_eq!(Revision::parse(s), Err(RevisionParseError), "{:?}", s);
    }
}

#[test]
fn revision_parse_accepts_hyphen_in_token() {
    let r = Revision::parse("7-ab-cd").unwrap();
    assert_eq!(r.as_str(), "7-ab-cd");
}

#[test]
fn revision_etag_is_quoted_text() {
    let r = Revision::parse("2-abc").unwrap();
    assert_eq!(r.to_etag_string(), "\"2-abc\"");
}

#[test]
fn revision_etag_round_trip() {
    for s in ["1-1234", "2-abc", "42-1234567890abcdef1234567890abcdef"] {
        let r = Revision::parse(s).unwrap();
        let back = Revision::from_etag(&r.to_etag_string()).unwrap();
        assert_eq!(back, r);
    }
}

#[test]
fn revision_from_weak_etag() {
    let r = Revision::from_etag("W/\"3-ff\"").unwrap();
    assert_eq!(r.as_str(), "3-ff");
}

#[test]
fn revision_from_etag_rejects_unquoted_and_malformed() {
    assert_eq!(Revision::from_etag("3-ff"), Err(RevisionParseError));
    assert_eq!(Revision::from_etag("\"3-\""), Err(RevisionParseError));
    assert_eq!(Revision::from_etag("\""), Err(RevisionParseError));
}

#[test]
fn revision_order_is_textual() {
    let a = Revision::from_string("10-a".to_string());
    let b = Revision::from_string("9-a".to_string());
    assert!(a < b);
}
