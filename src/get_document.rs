use vstd::prelude::*;

use crate::client::ClientState;
use crate::command::{bare_request, is_request_for, path_ok, Command};
use crate::document::{document_problem, is_document_of, Document};
use crate::json::{bool_member, object_member, str_member};
use crate::error::{is_status_error, is_unexpected_content, is_unexpected_status, status_error, Error};
use crate::request::{condition_for, opt_rev_view, opt_view, Method, Request};
use crate::response::{has_json_content_type, is_json_body_error, json_body, Response};
use crate::revision::Revision;

verus! {

/// Gets a document's metadata and content.
///
/// The outcome is `None` when an `If-None-Match` revision was given and the
/// document has not changed since; otherwise the document.
pub struct GetDocument<'a> {
    pub client_state: &'a ClientState,
    /// The document's path: database name, then the document id's segments.
    pub path: Vec<&'a str>,
    pub if_none_match: Option<&'a Revision>,
}

impl<'a> GetDocument<'a> {
    /// Gets document `doc_id` of database `db_name`.
    pub fn new(client_state: &'a ClientState, db_name: &'a str, doc_id: &'a str) -> (g: Self)
        ensures
            g.client_state == client_state,
            g.path@ == seq![db_name, doc_id],
            g.if_none_match is None,
    {
        let path = vec![db_name, doc_id];
        assert(path@ =~= seq![db_name, doc_id]);
        GetDocument { client_state, path, if_none_match: None }
    }

    /// Gets design document `ddoc_id` of database `db_name`.
    pub fn new_design_document(client_state: &'a ClientState, db_name: &'a str, ddoc_id: &'a str) -> (g: Self)
        ensures
            g.client_state == client_state,
            g.path@ == seq![db_name, "_design", ddoc_id],
            g.if_none_match is None,
    {
        let path = vec![db_name, "_design", ddoc_id];
        assert(path@ =~= seq![db_name, "_design", ddoc_id]);
        GetDocument { client_state, path, if_none_match: None }
    }

    /// Asks for the document only if its current revision differs from
    /// `rev`.
    pub fn if_none_match(self, rev: &'a Revision) -> (g: Self)
        ensures
            g == (GetDocument { if_none_match: Some(rev), ..self }),
    {
        GetDocument { if_none_match: Some(rev), ..self }
    }
}

/// Whether `r` is what a get-document response `resp` stands for.
pub open spec fn get_document_outcome(resp: Response, r: Result<Option<Document>, Error>) -> bool {
    let s = resp.status;
    if s == 200 {
        match json_body(resp) {
            None => r matches Err(e) && is_json_body_error(resp, e),
            Some(j) => match document_problem(j) {
                Some(f) => r matches Err(e) && is_unexpected_content(e, f, resp.body@),
                None => r matches Ok(Some(d)) && is_document_of(d, j),
            },
        }
    } else if s == 304 {
        r matches Ok(None)
    } else if s == 400 || s == 401 || s == 404 {
        r matches Err(e) && is_status_error(e, s, resp.body@)
    } else {
        r matches Err(e) && is_unexpected_status(e, s)
    }
}

/// A get-document response with status 200 that does not declare
/// `application/json` fails with `UnexpectedContentType` holding the declared
/// type, whatever its body holds: the content type is checked before the body
/// is parsed.
pub proof fn lemma_content_type_checked_first(resp: Response, r: Result<Option<Document>, Error>)
    requires
        resp.status == 200,
        !has_json_content_type(resp),
        get_document_outcome(resp, r),
    ensures
        r matches Err(Error::UnexpectedContentType(c)) && c == resp.content_type,
{
}

/// A get-document response with status 200 whose JSON body is an object with
/// string members `_id` and `_rev` (and, if it has `_deleted`, a boolean
/// there) gives the document, with that id and that revision, whatever other
/// members the body has.
pub proof fn lemma_document_keeps_id_and_revision(
    resp: Response,
    r: Result<Option<Document>, Error>,
)
    requires
        resp.status == 200,
        json_body(resp) matches Some(j) && str_member(j, "_id"@) is Some && str_member(j, "_rev"@)
            is Some && (object_member(j, "_deleted"@) is Some ==> bool_member(j, "_deleted"@)
            is Some),
        get_document_outcome(resp, r),
    ensures
        r matches Ok(Some(d)) && json_body(resp) matches Some(j) && str_member(j, "_id"@) == Some(
            d.id@,
        ) && str_member(j, "_rev"@) == Some(d.revision@),
{
}

impl<'a> Command for GetDocument<'a> {
    type Output = Option<Document>;

    /// `GET` of the document, accepting JSON, with `If-None-Match` when a
    /// non-empty revision was given.
    fn make_request(self) -> (r: Result<Request, Error>)
        ensures
            r is Ok <==> path_ok(self.path@),
            r matches Err(e) ==> e is InvalidPath,
            r matches Ok(req) ==> {
                &&& is_request_for(req, Method::Get, *self.client_state, self.path@)
                &&& req.accept_json
                &&& !req.content_type_json
                &&& req.if_match is None
                &&& req.body@.len() == 0
                &&& opt_view(req.if_none_match) == condition_for(opt_rev_view(self.if_none_match))
            },
    {
        match bare_request(Method::Get, self.client_state, self.path.as_slice()) {
            Ok(req) => Ok(req.accept_application_json().if_none_match_revision(self.if_none_match)),
            Err(e) => Err(e),
        }
    }

    fn take_response(response: Response) -> (r: Result<Option<Document>, Error>)
        ensures
            get_document_outcome(response, r),
    {
        let s = response.status;
        if s == 200 {
            match response.read_json_body() {
                Ok(j) => match Document::from_json(j, response.body.as_slice()) {
                    Ok(d) => Ok(Some(d)),
                    Err(e) => Err(e),
                },
                Err(e) => Err(e),
            }
        } else if s == 304 {
            Ok(None)
        } else if s == 400 || s == 401 || s == 404 {
            Err(status_error(s, response.body.as_slice()))
        } else {
            Err(Error::UnexpectedHttpStatus(s))
        }
    }
}

} // verus!
