use vstd::prelude::*;

use crate::client::ClientState;
use crate::command::{bare_request, is_request_for, path_ok, Command};
use crate::error::{is_status_error, is_unexpected_status, status_error, Error};
use crate::request::{condition_for, opt_view, Method, Request};
use crate::response::{has_json_content_type, Response};
use crate::revision::Revision;

verus! {

/// Deletes a document, guarded by the revision the caller last saw.
pub struct DeleteDocument<'a> {
    pub client_state: &'a ClientState,
    pub path: Vec<&'a str>,
    pub rev: Revision,
}

impl<'a> DeleteDocument<'a> {
    /// Deletes document `doc_id` of database `db_name` at revision `rev`.
    pub fn new_db_document(
        client_state: &'a ClientState,
        db_name: &'a str,
        doc_id: &'a str,
        rev: Revision,
    ) -> (d: DeleteDocument<'a>)
        ensures
            d.client_state == client_state,
            d.path@ == seq![db_name, doc_id],
            d.rev@ == rev@,
    {
        let path = vec![db_name, doc_id];
        assert(path@ =~= seq![db_name, doc_id]);
        DeleteDocument { client_state, path, rev }
    }

    /// Deletes design document `ddoc_id` of database `db_name` at revision
    /// `rev`.
    pub fn new_design_document(
        client_state: &'a ClientState,
        db_name: &'a str,
        ddoc_id: &'a str,
        rev: Revision,
    ) -> (d: DeleteDocument<'a>)
        ensures
            d.client_state == client_state,
            d.path@ == seq![db_name, "_design", ddoc_id],
            d.rev@ == rev@,
    {
        let path = vec![db_name, "_design", ddoc_id];
        assert(path@ =~= seq![db_name, "_design", ddoc_id]);
        DeleteDocument { client_state, path, rev }
    }
}

/// Whether `r` is what a delete-document response `resp` stands for: a 200
/// must declare `application/json`.
pub open spec fn delete_document_outcome(resp: Response, r: Result<(), Error>) -> bool {
    let s = resp.status;
    if s == 200 {
        &&& (r is Ok <==> has_json_content_type(resp))
        &&& (r matches Err(e) ==> (e matches Error::UnexpectedContentType(c) && c
            == resp.content_type))
    } else if s == 400 || s == 401 || s == 404 || s == 409 {
        r matches Err(e) && is_status_error(e, s, resp.body@)
    } else {
        r matches Err(e) && is_unexpected_status(e, s)
    }
}

impl<'a> Command for DeleteDocument<'a> {
    type Output = ();

    /// `DELETE` of the document, accepting JSON, with `If-Match` when the
    /// revision is non-empty.
    fn make_request(self) -> (r: Result<Request, Error>)
        ensures
            r is Ok <==> path_ok(self.path@),
            r matches Err(e) ==> e is InvalidPath,
            r matches Ok(req) ==> {
                &&& is_request_for(req, Method::Delete, *self.client_state, self.path@)
                &&& req.accept_json
                &&& !req.content_type_json
                &&& req.if_none_match is None
                &&& opt_view(req.if_match) == condition_for(Some(self.rev@))
                &&& req.body@.len() == 0
            },
    {
        match bare_request(Method::Delete, self.client_state, self.path.as_slice()) {
            Ok(req) => Ok(req.accept_application_json().if_match_revision(Some(&self.rev))),
            Err(e) => Err(e),
        }
    }

    fn take_response(response: Response) -> (r: Result<(), Error>)
        ensures
            delete_document_outcome(response, r),
    {
        let s = response.status;
        if s == 200 {
            response.require_content_type_json()
        } else if s == 400 || s == 401 || s == 404 || s == 409 {
            Err(status_error(s, response.body.as_slice()))
        } else {
            Err(Error::UnexpectedHttpStatus(s))
        }
    }
}

} // verus!
