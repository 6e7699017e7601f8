use vstd::prelude::*;

use crate::client::ClientState;
use crate::command::{bare_request, is_request_for, path_ok, Command};
use crate::error::{is_unexpected_status, Error};
use crate::request::{Method, Request};
use crate::response::Response;

verus! {

/// Tests whether a database exists.
pub struct HeadDatabase<'a> {
    pub client_state: &'a ClientState,
    pub db_name: &'a str,
}

impl<'a> HeadDatabase<'a> {
    /// Tests database `db_name`.
    pub fn new(client_state: &'a ClientState, db_name: &'a str) -> (h: Self)
        ensures
            h.client_state == client_state,
            h.db_name == db_name,
    {
        HeadDatabase { client_state, db_name }
    }
}

/// Whether `r` is what a head-database response `resp` stands for; a `HEAD`
/// response has no body, so `NotFound` carries none.
pub open spec fn head_database_outcome(resp: Response, r: Result<(), Error>) -> bool {
    let s = resp.status;
    if s == 200 {
        r is Ok
    } else if s == 404 {
        r matches Err(Error::NotFound(None))
    } else {
        r matches Err(e) && is_unexpected_status(e, s)
    }
}

impl<'a> Command for HeadDatabase<'a> {
    type Output = ();

    /// `HEAD` of the database.
    fn make_request(self) -> (r: Result<Request, Error>)
        ensures
            r is Ok <==> path_ok(seq![self.db_name]),
            r matches Err(e) ==> e is InvalidPath,
            r matches Ok(req) ==> {
                &&& is_request_for(req, Method::Head, *self.client_state, seq![self.db_name])
                &&& req.accept_json
                &&& !req.content_type_json
                &&& req.if_match is None
                &&& req.if_none_match is None
                &&& req.body@.len() == 0
            },
    {
        let path = vec![self.db_name];
        assert(path@ =~= seq![self.db_name]);
        match bare_request(Method::Head, self.client_state, path.as_slice()) {
            Ok(req) => Ok(req.accept_application_json()),
            Err(e) => Err(e),
        }
    }

    fn take_response(response: Response) -> (r: Result<(), Error>)
        ensures
            head_database_outcome(response, r),
    {
        let s = response.status;
        if s == 200 {
            Ok(())
        } else if s == 404 {
            Err(Error::NotFound(None))
        } else {
            Err(Error::UnexpectedHttpStatus(s))
        }
    }
}

} // verus!
