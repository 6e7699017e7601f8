use vstd::prelude::*;

use crate::client::ClientState;
use crate::command::{bare_request, is_request_for, path_ok, Command};
use crate::database::{database_problem, is_database_of, Database};
use crate::json::u64_member;
use crate::error::{is_status_error, is_unexpected_content, is_unexpected_status, status_error, Error};
use crate::request::{Method, Request};
use crate::response::{is_json_body_error, json_body, Response};

verus! {

/// Gets a database's metadata.
pub struct GetDatabase<'a> {
    pub client_state: &'a ClientState,
    pub db_name: &'a str,
}

impl<'a> GetDatabase<'a> {
    /// Gets the metadata of database `db_name`.
    pub fn new_get_database(client_state: &'a ClientState, db_name: &'a str) -> (g: Self)
        ensures
            g.client_state == client_state,
            g.db_name == db_name,
    {
        GetDatabase { client_state, db_name }
    }
}

/// Whether `r` is what a get-database response `resp` stands for.
pub open spec fn get_database_outcome(resp: Response, r: Result<Database, Error>) -> bool {
    let s = resp.status;
    if s == 200 {
        match json_body(resp) {
            None => r matches Err(e) && is_json_body_error(resp, e),
            Some(j) => match database_problem(j) {
                Some(f) => r matches Err(e) && is_unexpected_content(e, f, resp.body@),
                None => r matches Ok(d) && is_database_of(d, j),
            },
        }
    } else if s == 404 {
        r matches Err(e) && is_status_error(e, s, resp.body@)
    } else {
        r matches Err(e) && is_unexpected_status(e, s)
    }
}

/// A get-database response with status 200 whose JSON body lacks
/// `doc_count`, or holds it as anything but a non-negative integer, fails with
/// `UnexpectedContent`, and the error holds the body exactly as received.
pub proof fn lemma_missing_field_is_unexpected_content(resp: Response, r: Result<Database, Error>)
    requires
        resp.status == 200,
        json_body(resp) matches Some(j) && u64_member(j, "doc_count"@) is None,
        get_database_outcome(resp, r),
    ensures
        r matches Err(Error::UnexpectedContent { body, .. }) && body@ == resp.body@,
{
}

impl<'a> Command for GetDatabase<'a> {
    type Output = Database;

    /// `GET` of the database, accepting JSON.
    fn make_request(self) -> (r: Result<Request, Error>)
        ensures
            r is Ok <==> path_ok(seq![self.db_name]),
            r matches Err(e) ==> e is InvalidPath,
            r matches Ok(req) ==> {
                &&& is_request_for(req, Method::Get, *self.client_state, seq![self.db_name])
                &&& req.accept_json
                &&& !req.content_type_json
                &&& req.if_match is None
                &&& req.if_none_match is None
                &&& req.body@.len() == 0
            },
    {
        let path = vec![self.db_name];
        assert(path@ =~= seq![self.db_name]);
        match bare_request(Method::Get, self.client_state, path.as_slice()) {
            Ok(req) => Ok(req.accept_application_json()),
            Err(e) => Err(e),
        }
    }

    fn take_response(response: Response) -> (r: Result<Database, Error>)
        ensures
            get_database_outcome(response, r),
    {
        let s = response.status;
        if s == 200 {
            match response.read_json_body() {
                Ok(j) => Database::from_json(&j, response.body.as_slice()),
                Err(e) => Err(e),
            }
        } else if s == 404 {
            Err(status_error(s, response.body.as_slice()))
        } else {
            Err(Error::UnexpectedHttpStatus(s))
        }
    }
}

} // verus!
