use vstd::prelude::*;

use crate::client::ClientState;
use crate::command::{bare_request, is_request_for, path_ok, Command};
use crate::error::{is_unexpected_status, Error};
use crate::request::{condition_for, opt_rev_view, opt_view, Method, Request};
use crate::response::Response;
use crate::revision::Revision;

verus! {

/// Tests whether a document exists, without fetching it.
///
/// The outcome is `None` when an `If-None-Match` revision was given and the
/// document has not changed since; otherwise `Some(())`.
pub struct HeadDocument<'a> {
    pub client_state: &'a ClientState,
    /// The document's path: database name, then the document id's segments.
    pub path: Vec<&'a str>,
    pub if_none_match: Option<&'a Revision>,
}

impl<'a> HeadDocument<'a> {
    /// Tests document `doc_id` of database `db_name`.
    pub fn new(client_state: &'a ClientState, db_name: &'a str, doc_id: &'a str) -> (h: Self)
        ensures
            h.client_state == client_state,
            h.path@ == seq![db_name, doc_id],
            h.if_none_match is None,
    {
        let path = vec![db_name, doc_id];
        assert(path@ =~= seq![db_name, doc_id]);
        HeadDocument { client_state, path, if_none_match: None }
    }

    /// Tests design document `ddoc_id` of database `db_name`.
    pub fn new_design_document(client_state: &'a ClientState, db_name: &'a str, ddoc_id: &'a str) -> (h: Self)
        ensures
            h.client_state == client_state,
            h.path@ == seq![db_name, "_design", ddoc_id],
            h.if_none_match is None,
    {
        let path = vec![db_name, "_design", ddoc_id];
        assert(path@ =~= seq![db_name, "_design", ddoc_id]);
        HeadDocument { client_state, path, if_none_match: None }
    }

    /// Answers `None` if the document's current revision is `rev`.
    pub fn if_none_match(self, rev: &'a Revision) -> (h: Self)
        ensures
            h == (HeadDocument { if_none_match: Some(rev), ..self }),
    {
        HeadDocument { if_none_match: Some(rev), ..self }
    }
}

/// Whether `r` is what a head-document response `resp` stands for; a `HEAD`
/// response has no body, so `NotFound` carries none.
pub open spec fn head_document_outcome(resp: Response, r: Result<Option<()>, Error>) -> bool {
    let s = resp.status;
    if s == 200 {
        r matches Ok(Some(_))
    } else if s == 304 {
        r matches Ok(None)
    } else if s == 404 {
        r matches Err(Error::NotFound(None))
    } else {
        r matches Err(e) && is_unexpected_status(e, s)
    }
}

impl<'a> Command for HeadDocument<'a> {
    type Output = Option<()>;

    /// `HEAD` of the document, with `If-None-Match` when a non-empty revision
    /// was given.
    fn make_request(self) -> (r: Result<Request, Error>)
        ensures
            r is Ok <==> path_ok(self.path@),
            r matches Err(e) ==> e is InvalidPath,
            r matches Ok(req) ==> {
                &&& is_request_for(req, Method::Head, *self.client_state, self.path@)
                &&& req.accept_json
                &&& !req.content_type_json
                &&& req.if_match is None
                &&& opt_view(req.if_none_match) == condition_for(opt_rev_view(self.if_none_match))
                &&& req.body@.len() == 0
            },
    {
        match bare_request(Method::Head, self.client_state, self.path.as_slice()) {
            Ok(req) => Ok(req.accept_application_json().if_none_match_revision(self.if_none_match)),
            Err(e) => Err(e),
        }
    }

    fn take_response(response: Response) -> (r: Result<Option<()>, Error>)
        ensures
            head_document_outcome(response, r),
    {
        let s = response.status;
        if s == 200 {
            Ok(Some(()))
        } else if s == 304 {
            Ok(None)
        } else if s == 404 {
            Err(Error::NotFound(None))
        } else {
            Err(Error::UnexpectedHttpStatus(s))
        }
    }
}

} // verus!
