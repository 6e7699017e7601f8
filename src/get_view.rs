use vstd::prelude::*;

use crate::client::{resource_uri, texts_view, uri_for, ClientState};
use crate::command::{path_ok, Command};
use crate::error::{is_status_error, is_unexpected_content, is_unexpected_status, status_error, Error};
use crate::request::{Method, Request};
use crate::response::{is_json_body_error, json_body, Response};
use crate::view::{is_view_of, view_problem, ViewResult};

verus! {

/// Queries a view of a design document.
pub struct GetView<'a> {
    pub client_state: &'a ClientState,
    pub db_name: &'a str,
    pub ddoc_id: &'a str,
    pub view_name: &'a str,
    /// Whether the server should apply the view's reduce function; the
    /// server's default when absent.
    pub reduce: Option<bool>,
}

impl<'a> GetView<'a> {
    /// Queries view `view_name` of design document `ddoc_id` in database
    /// `db_name`.
    pub fn new(
        client_state: &'a ClientState,
        db_name: &'a str,
        ddoc_id: &'a str,
        view_name: &'a str,
    ) -> (g: Self)
        ensures
            g.client_state == client_state,
            g.db_name == db_name,
            g.ddoc_id == ddoc_id,
            g.view_name == view_name,
            g.reduce is None,
    {
        GetView { client_state, db_name, ddoc_id, view_name, reduce: None }
    }

    /// Asks for the reduced result, or for the rows the map function
    /// emitted.
    pub fn reduce(self, reduce: bool) -> (g: Self)
        ensures
            g == (GetView { reduce: Some(reduce), ..self }),
    {
        GetView { reduce: Some(reduce), ..self }
    }
}

/// The path of a view: `db/_design/ddoc/_view/view`.
pub open spec fn view_path<'a>(g: GetView<'a>) -> Seq<&'a str> {
    seq![g.db_name, "_design", g.ddoc_id, "_view", g.view_name]
}

/// The query string for the `reduce` choice.
pub open spec fn reduce_query(reduce: Option<bool>) -> Seq<char> {
    match reduce {
        None => Seq::empty(),
        Some(true) => "?reduce=true"@,
        Some(false) => "?reduce=false"@,
    }
}

/// Whether `r` is what a get-view response `resp` stands for.
pub open spec fn get_view_outcome(resp: Response, r: Result<ViewResult, Error>) -> bool {
    let s = resp.status;
    if s == 200 {
        match json_body(resp) {
            None => r matches Err(e) && is_json_body_error(resp, e),
            Some(j) => match view_problem(j) {
                Some(f) => r matches Err(e) && is_unexpected_content(e, f, resp.body@),
                None => r matches Ok(v) && is_view_of(v, j),
            },
        }
    } else if s == 400 || s == 401 || s == 404 {
        r matches Err(e) && is_status_error(e, s, resp.body@)
    } else {
        r matches Err(e) && is_unexpected_status(e, s)
    }
}

impl<'a> Command for GetView<'a> {
    type Output = ViewResult;

    /// `GET` of the view, accepting JSON, with `reduce` in the query string
    /// when it was chosen.
    fn make_request(self) -> (r: Result<Request, Error>)
        ensures
            r is Ok <==> path_ok(view_path(self)),
            r matches Err(e) ==> e is InvalidPath,
            r matches Ok(req) ==> {
                &&& req.method == Method::Get
                &&& req.uri@ == uri_for(self.client_state.uri@, texts_view(view_path(self)))
                    + reduce_query(self.reduce)
                &&& req.accept_json
                &&& !req.content_type_json
                &&& req.if_match is None
                &&& req.if_none_match is None
                &&& req.body@.len() == 0
            },
    {
        let path = vec![self.db_name, "_design", self.ddoc_id, "_view", self.view_name];
        assert(path@ =~= view_path(self));
        let mut uri = match resource_uri(self.client_state.uri.as_str(), path.as_slice()) {
            Ok(u) => u,
            Err(e) => return Err(e),
        };
        let ghost base = uri@;
        match self.reduce {
            Some(true) => uri.append("?reduce=true"),
            Some(false) => uri.append("?reduce=false"),
            None => {},
        }
        assert(uri@ =~= base + reduce_query(self.reduce));
        Ok(Request::new(Method::Get, uri).accept_application_json())
    }

    fn take_response(response: Response) -> (r: Result<ViewResult, Error>)
        ensures
            get_view_outcome(response, r),
    {
        let s = response.status;
        if s == 200 {
            match response.read_json_body() {
                Ok(j) => ViewResult::from_json(j, response.body.as_slice()),
                Err(e) => Err(e),
            }
        } else if s == 400 || s == 401 || s == 404 {
            Err(status_error(s, response.body.as_slice()))
        } else {
            Err(Error::UnexpectedHttpStatus(s))
        }
    }
}

} // verus!
