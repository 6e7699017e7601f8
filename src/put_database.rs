use vstd::prelude::*;

use crate::client::ClientState;
use crate::command::{bare_request, is_request_for, path_ok, Command};
use crate::error::{is_status_error, is_unexpected_status, status_error, Error};
use crate::request::{Method, Request};
use crate::response::Response;

verus! {

/// Creates a database.
pub struct PutDatabase<'a> {
    pub client_state: &'a ClientState,
    pub db_name: &'a str,
}

impl<'a> PutDatabase<'a> {
    /// Creates database `db_name`.
    pub fn new(client_state: &'a ClientState, db_name: &'a str) -> (p: Self)
        ensures
            p.client_state == client_state,
            p.db_name == db_name,
    {
        PutDatabase { client_state, db_name }
    }
}

/// Whether `r` is what a put-database response `resp` stands for: 412 means
/// that the database exists already.
pub open spec fn put_database_outcome(resp: Response, r: Result<(), Error>) -> bool {
    let s = resp.status;
    if s == 201 {
        r is Ok
    } else if s == 412 {
        r matches Err(e) && is_status_error(e, s, resp.body@)
    } else {
        r matches Err(e) && is_unexpected_status(e, s)
    }
}

impl<'a> Command for PutDatabase<'a> {
    type Output = ();

    /// `PUT` of the database, accepting JSON.
    fn make_request(self) -> (r: Result<Request, Error>)
        ensures
            r is Ok <==> path_ok(seq![self.db_name]),
            r matches Err(e) ==> e is InvalidPath,
            r matches Ok(req) ==> {
                &&& is_request_for(req, Method::Put, *self.client_state, seq![self.db_name])
                &&& req.accept_json
                &&& !req.content_type_json
                &&& req.if_match is None
                &&& req.if_none_match is None
                &&& req.body@.len() == 0
            },
    {
        let path = vec![self.db_name];
        assert(path@ =~= seq![self.db_name]);
        match bare_request(Method::Put, self.client_state, path.as_slice()) {
            Ok(req) => Ok(req.accept_application_json()),
            Err(e) => Err(e),
        }
    }

    fn take_response(response: Response) -> (r: Result<(), Error>)
        ensures
            put_database_outcome(response, r),
    {
        let s = response.status;
        if s == 201 {
            Ok(())
        } else if s == 412 {
            Err(status_error(s, response.body.as_slice()))
        } else {
            Err(Error::UnexpectedHttpStatus(s))
        }
    }
}

} // verus!
