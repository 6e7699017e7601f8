use vstd::prelude::*;

use crate::revision::{etag_text, Revision};

verus! {

/// The HTTP methods the operations use.
#[derive(Debug, Clone, Copy, PartialEq, Eq, Structural)]
pub enum Method {
    Get,
    Head,
    Put,
    Post,
    Delete,
}

impl Method {
    /// The method's name as it stands in a request line.
    pub fn as_str(&self) -> (s: &'static str)
        ensures
            s@ == method_name(*self),
    {
        match self {
            Method::Get => "GET",
            Method::Head => "HEAD",
            Method::Put => "PUT",
            Method::Post => "POST",
            Method::Delete => "DELETE",
        }
    }
}

/// The name of method `m` in a request line.
pub open spec fn method_name(m: Method) -> Seq<char> {
    match m {
        Method::Get => "GET"@,
        Method::Head => "HEAD"@,
        Method::Put => "PUT"@,
        Method::Post => "POST"@,
        Method::Delete => "DELETE"@,
    }
}

/// One HTTP request, ready to be sent: method, absolute URI, the headers this
/// layer sets, and the body.
///
/// `if_match` and `if_none_match` hold the header values (entity tags) when
/// the header is to be sent.
#[derive(Debug, Clone)]
pub struct Request {
    pub method: Method,
    pub uri: String,
    pub accept_json: bool,
    pub content_type_json: bool,
    pub if_match: Option<String>,
    pub if_none_match: Option<String>,
    pub body: Vec<u8>,
}

/// The conditional header value for an optional revision: its entity tag when
/// the revision is given and non-empty, else no header.
pub open spec fn condition_for(rev: Option<Seq<char>>) -> Option<Seq<char>> {
    match rev {
        Some(r) => if r.len() > 0 {
            Some(etag_text(r))
        } else {
            None
        },
        None => None,
    }
}

/// The view of an optional string.
pub open spec fn opt_view(s: Option<String>) -> Option<Seq<char>> {
    match s {
        Some(x) => Some(x@),
        None => None,
    }
}

/// The view of an optional revision.
pub open spec fn opt_rev_view(r: Option<&Revision>) -> Option<Seq<char>> {
    match r {
        Some(x) => Some(x@),
        None => None,
    }
}

/// The entity tag to send for `rev`, if any.
fn condition_value(rev: Option<&Revision>) -> (r: Option<String>)
    ensures
        opt_view(r) == condition_for(opt_rev_view(rev)),
{
    match rev {
        Some(rev) => if rev.is_empty() {
            None
        } else {
            Some(rev.to_etag_string())
        },
        None => None,
    }
}

/// The headers of `r` as name and value pairs, in a fixed order.
pub open spec fn header_list(r: Request) -> Seq<(Seq<char>, Seq<char>)> {
    let a: Seq<(Seq<char>, Seq<char>)> = if r.accept_json {
        seq![("Accept"@, "application/json"@)]
    } else {
        seq![]
    };
    let c: Seq<(Seq<char>, Seq<char>)> = if r.content_type_json {
        seq![("Content-Type"@, "application/json"@)]
    } else {
        seq![]
    };
    let m: Seq<(Seq<char>, Seq<char>)> = match r.if_match {
        Some(v) => seq![("If-Match"@, v@)],
        None => seq![],
    };
    let n: Seq<(Seq<char>, Seq<char>)> = match r.if_none_match {
        Some(v) => seq![("If-None-Match"@, v@)],
        None => seq![],
    };
    a + c + m + n
}

/// The view of a list of header pairs.
pub open spec fn pairs_view(v: Seq<(String, String)>) -> Seq<(Seq<char>, Seq<char>)> {
    v.map_values(|p: (String, String)| (p.0@, p.1@))
}

impl Request {
    /// A request with the given method and URI, no headers and an empty body.
    pub fn new(method: Method, uri: String) -> (r: Request)
        ensures
            r.method == method,
            r.uri@ == uri@,
            !r.accept_json,
            !r.content_type_json,
            r.if_match is None,
            r.if_none_match is None,
            r.body@.len() == 0,
    {
        Request {
            method,
            uri,
            accept_json: false,
            content_type_json: false,
            if_match: None,
            if_none_match: None,
            body: Vec::new(),
        }
    }

    /// Attaches a body.
    pub fn body(self, body: Vec<u8>) -> (r: Request)
        ensures
            r == (Request { body, ..self }),
    {
        Request { body, ..self }
    }

    /// Sets `Accept: application/json`.
    pub fn accept_application_json(self) -> (r: Request)
        ensures
            r == (Request { accept_json: true, ..self }),
    {
        Request { accept_json: true, ..self }
    }

    /// Sets `Content-Type: application/json`.
    pub fn content_type_application_json(self) -> (r: Request)
        ensures
            r == (Request { content_type_json: true, ..self }),
    {
        Request { content_type_json: true, ..self }
    }

    /// Sets `If-Match` to the revision's entity tag when a non-empty revision
    /// is given; otherwise leaves the request as it is.
    pub fn if_match_revision(self, rev: Option<&Revision>) -> (r: Request)
        ensures
            r.method == self.method,
            r.uri == self.uri,
            r.accept_json == self.accept_json,
            r.content_type_json == self.content_type_json,
            r.if_none_match == self.if_none_match,
            r.body == self.body,
            condition_for(opt_rev_view(rev)) is None ==> r.if_match == self.if_match,
            condition_for(opt_rev_view(rev)) is Some ==> opt_view(r.if_match) == condition_for(
                opt_rev_view(rev),
            ),
    {
        match condition_value(rev) {
            Some(v) => Request { if_match: Some(v), ..self },
            None => self,
        }
    }

    /// Sets `If-None-Match` to the revision's entity tag when a non-empty
    /// revision is given; otherwise leaves the request as it is.
    pub fn if_none_match_revision(self, rev: Option<&Revision>) -> (r: Request)
        ensures
            r.method == self.method,
            r.uri == self.uri,
            r.accept_json == self.accept_json,
            r.content_type_json == self.content_type_json,
            r.if_match == self.if_match,
            r.body == self.body,
            condition_for(opt_rev_view(rev)) is None ==> r.if_none_match == self.if_none_match,
            condition_for(opt_rev_view(rev)) is Some ==> opt_view(r.if_none_match)
                == condition_for(opt_rev_view(rev)),
    {
        match condition_value(rev) {
            Some(v) => Request { if_none_match: Some(v), ..self },
            None => self,
        }
    }

    /// The headers to send, as name and value pairs.
    pub fn headers(&self) -> (h: Vec<(String, String)>)
        ensures
            pairs_view(h@) == header_list(*self),
    {
        let mut h: Vec<(String, String)> = Vec::new();
        proof {
            reveal_strlit("Accept");
            reveal_strlit("Content-Type");
            reveal_strlit("If-Match");
            reveal_strlit("If-None-Match");
            reveal_strlit("application/json");
        }
        if self.accept_json {
            h.push((String::from_str("Accept"), String::from_str("application/json")));
        }
        if self.content_type_json {
            h.push((String::from_str("Content-Type"), String::from_str("application/json")));
        }
        match &self.if_match {
            Some(v) => h.push((String::from_str("If-Match"), v.clone())),
            None => {},
        }
        match &self.if_none_match {
            Some(v) => h.push((String::from_str("If-None-Match"), v.clone())),
            None => {},
        }
        assert(pairs_view(h@) =~= header_list(*self));
        h
    }
}

/// An absent or empty revision gives no conditional header: the revision's
/// condition is empty, so `if_match_revision` and `if_none_match_revision`
/// leave the request as it was, and a request that had neither condition lists
/// neither `If-Match` nor `If-None-Match` among its headers.
pub proof fn lemma_no_condition_without_revision(req: Request, rev: Option<Seq<char>>)
    requires
        rev is None || rev->0.len() == 0,
        req.if_match is None,
        req.if_none_match is None,
    ensures
        condition_for(rev) is None,
        forall|i: int|
            0 <= i < header_list(req).len() ==> {
                &&& (#[trigger] header_list(req)[i]).0 != "If-Match"@
                &&& header_list(req)[i].0 != "If-None-Match"@
            },
{
    reveal_strlit("Accept");
    reveal_strlit("Content-Type");
    reveal_strlit("If-Match");
    reveal_strlit("If-None-Match");
    let h = header_list(req);
    assert forall|i: int| 0 <= i < h.len() implies (#[trigger] h[i]).0 != "If-Match"@ && h[i].0
        != "If-None-Match"@ by {
        assert(h[i].0 == "Accept"@ || h[i].0 == "Content-Type"@);
        assert("Accept"@.len() != "If-Match"@.len());
        assert("Accept"@.len() != "If-None-Match"@.len());
        assert("Content-Type"@.len() != "If-Match"@.len());
        assert("Content-Type"@.len() != "If-None-Match"@.len());
    }
}

} // verus!
