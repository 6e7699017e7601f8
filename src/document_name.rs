use vstd::prelude::*;

verus! {

/// Name of a document: the `doc` part of `http://example.com:5984/db/doc`, or
/// the `design-doc` part of `http://example.com:5984/db/_design/design-doc`.
///
/// Names convert to and from strings and are never percent-encoded. The
/// ordering is that of the text and carries no further meaning.
#[derive(Clone, Debug, Eq, Hash, Ord, PartialEq, PartialOrd)]
pub struct DocumentName(String);

impl View for DocumentName {
    type V = Seq<char>;

    closed spec fn view(&self) -> Seq<char> {
        self.0@
    }
}

impl DocumentName {
    /// Constructs an empty document name.
    pub fn new() -> (d: Self)
        ensures
            d@ == Seq::<char>::empty(),
    {
        DocumentName(String::new())
    }

    /// The name's text.
    pub fn as_str(&self) -> (s: &str)
        ensures
            s@ == self@,
    {
        self.0.as_str()
    }
}

impl From<String> for DocumentName {
    fn from(s: String) -> (d: DocumentName)
        ensures
            d@ == s@,
    {
        DocumentName(s)
    }
}

impl vstd::std_specs::convert::FromSpecImpl<String> for DocumentName {
    open spec fn obeys_from_spec() -> bool {
        true
    }

    closed spec fn from_spec(s: String) -> DocumentName {
        DocumentName(s)
    }
}

impl<'a> From<&'a str> for DocumentName {
    fn from(s: &'a str) -> (d: DocumentName)
        ensures
            d@ == s@,
    {
        DocumentName(s.to_owned())
    }
}

// A spec function cannot build a `String` from a text, so the result of this
// conversion is stated on `from` itself.
impl<'a> vstd::std_specs::convert::FromSpecImpl<&'a str> for DocumentName {
    open spec fn obeys_from_spec() -> bool {
        false
    }

    open spec fn from_spec(s: &'a str) -> DocumentName {
        arbitrary()
    }
}

impl From<DocumentName> for String {
    fn from(d: DocumentName) -> (s: String)
        ensures
            s@ == d@,
    {
        d.0
    }
}

impl vstd::std_specs::convert::FromSpecImpl<DocumentName> for String {
    open spec fn obeys_from_spec() -> bool {
        true
    }

    closed spec fn from_spec(d: DocumentName) -> String {
        d.0
    }
}

} // verus!
