use vstd::prelude::*;

use crate::client::ClientState;
use crate::command::{bare_request, is_request_for, path_ok, Command};
use crate::error::{
    is_status_error,
    is_unexpected_content,
    is_unexpected_status,
    status_error,
    unexpected_content,
    Error,
};
use crate::json::{str_member, Json};
use crate::request::{condition_for, opt_rev_view, opt_view, Method, Request};
use crate::response::{is_json_body_error, json_body, Response};
use crate::revision::Revision;

verus! {

/// Creates or updates a document; yields the document's new revision.
///
/// `content` is the document's JSON text. With an `If-Match` revision the
/// server stores it only while that revision is still the current one, and
/// answers `Conflict` otherwise.
pub struct PutDocument<'a> {
    pub client_state: &'a ClientState,
    /// The document's path: database name, then the document id's segments.
    pub path: Vec<&'a str>,
    pub content: Vec<u8>,
    pub if_match: Option<&'a Revision>,
}

/// Puts `content` (JSON text) as document `doc_id` of database `db_name`.
pub fn new_put_document<'a>(
    client_state: &'a ClientState,
    db_name: &'a str,
    doc_id: &'a str,
    content: Vec<u8>,
) -> (p: PutDocument<'a>)
    ensures
        p.client_state == client_state,
        p.path@ == seq![db_name, doc_id],
        p.content == content,
        p.if_match is None,
{
    let path = vec![db_name, doc_id];
    assert(path@ =~= seq![db_name, doc_id]);
    PutDocument { client_state, path, content, if_match: None }
}

impl<'a> PutDocument<'a> {
    /// Puts `content` (JSON text) as design document `ddoc_id` of database
    /// `db_name`.
    pub fn new_design_document(
        client_state: &'a ClientState,
        db_name: &'a str,
        ddoc_id: &'a str,
        content: Vec<u8>,
    ) -> (p: PutDocument<'a>)
        ensures
            p.client_state == client_state,
            p.path@ == seq![db_name, "_design", ddoc_id],
            p.content == content,
            p.if_match is None,
    {
        let path = vec![db_name, "_design", ddoc_id];
        assert(path@ =~= seq![db_name, "_design", ddoc_id]);
        PutDocument { client_state, path, content, if_match: None }
    }

    /// Stores the document only if its current revision is `rev`.
    pub fn if_match(self, rev: &'a Revision) -> (p: Self)
        ensures
            p == (PutDocument { if_match: Some(rev), ..self }),
    {
        PutDocument { if_match: Some(rev), ..self }
    }
}

/// Whether `r` is what a put-document response `resp` stands for: on 201 the
/// body's `rev` member is the new revision.
pub open spec fn put_document_outcome(resp: Response, r: Result<Revision, Error>) -> bool {
    let s = resp.status;
    if s == 201 {
        match json_body(resp) {
            None => r matches Err(e) && is_json_body_error(resp, e),
            Some(j) => if !(j is Object) {
                r matches Err(e) && is_unexpected_content(e, Seq::empty(), resp.body@)
            } else {
                match str_member(j, "rev"@) {
                    None => r matches Err(e) && is_unexpected_content(e, "rev"@, resp.body@),
                    Some(v) => r matches Ok(rev) && rev@ == v,
                }
            },
        }
    } else if s == 400 || s == 401 || s == 404 || s == 409 {
        r matches Err(e) && is_status_error(e, s, resp.body@)
    } else {
        r matches Err(e) && is_unexpected_status(e, s)
    }
}

/// A put-document response with status 201 whose JSON body has no string
/// `rev` member fails with `UnexpectedContent`, and the error holds the body
/// exactly as received.
pub proof fn lemma_missing_rev_is_unexpected_content(resp: Response, r: Result<Revision, Error>)
    requires
        resp.status == 201,
        json_body(resp) matches Some(j) && str_member(j, "rev"@) is None,
        put_document_outcome(resp, r),
    ensures
        r matches Err(Error::UnexpectedContent { body, .. }) && body@ == resp.body@,
{
}

impl<'a> Command for PutDocument<'a> {
    type Output = Revision;

    /// `PUT` of the content as JSON, accepting JSON, with `If-Match` when a
    /// non-empty revision was given.
    fn make_request(self) -> (r: Result<Request, Error>)
        ensures
            r is Ok <==> path_ok(self.path@),
            r matches Err(e) ==> e is InvalidPath,
            r matches Ok(req) ==> {
                &&& is_request_for(req, Method::Put, *self.client_state, self.path@)
                &&& req.accept_json
                &&& req.content_type_json
                &&& req.if_none_match is None
                &&& opt_view(req.if_match) == condition_for(opt_rev_view(self.if_match))
                &&& req.body@ == self.content@
            },
    {
        match bare_request(Method::Put, self.client_state, self.path.as_slice()) {
            Ok(req) => Ok(
                req.accept_application_json().content_type_application_json().if_match_revision(
                    self.if_match,
                ).body(self.content),
            ),
            Err(e) => Err(e),
        }
    }

    fn take_response(response: Response) -> (r: Result<Revision, Error>)
        ensures
            put_document_outcome(response, r),
    {
        let s = response.status;
        if s == 201 {
            match response.read_json_body() {
                Ok(j) => {
                    proof {
                        reveal_strlit("rev");
                        reveal_strlit("");
                    }
                    if !matches!(j, Json::Object(_)) {
                        assert(""@ =~= Seq::<char>::empty());
                        return Err(unexpected_content("", response.body.as_slice()));
                    }
                    match j.str_member("rev") {
                        Some(v) => Ok(Revision::from_string(v)),
                        None => Err(unexpected_content("rev", response.body.as_slice())),
                    }
                },
                Err(e) => Err(e),
            }
        } else if s == 400 || s == 401 || s == 404 || s == 409 {
            Err(status_error(s, response.body.as_slice()))
        } else {
            Err(Error::UnexpectedHttpStatus(s))
        }
    }
}

} // verus!
