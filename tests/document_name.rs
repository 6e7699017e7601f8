use couchdb::DocumentName;

#[test]
fn document_name_display() {
    let expected = "foo";
    let got = DocumentName::from("foo").as_str().to_string();
    assert_eq!(expected, got);
}

#[test]
fn document_name_as_ref_str() {
    let expected = "foo";
    let d = DocumentName::from("foo");
    let got: &str = d.as_str();
    assert_eq!(expected, got);
}

#[test]
fn document_name_as_ref_string() {
    let expected = "foo".to_string();
    let d = DocumentName::from("foo");
    let got = d.as_str();
    assert_eq!(expected, got);
}

#[test]
fn document_name_from_str_ref() {
    let expected = DocumentName::from("foo".to_string());
    let got = DocumentName::from("foo");
    assert_eq!(expected, got);
}

#[test]
fn document_name_from_string() {
    let expected = DocumentName::from("foo");
    let got = DocumentName::from("foo".to_string());
    assert_eq!(expected, got);
    assert_eq!(got.as_str(), "foo");
}

#[test]
fn string_from_document_name() {
    let expected = "foo".to_string();
    let got = String::from(DocumentName::from("foo"));
    assert_eq!(expected, got);
}

#[test]
fn document_name_new() {
    let expected = DocumentName::from(String::new());
    let got = DocumentName::new();
    assert_eq!(expected, got);
}
