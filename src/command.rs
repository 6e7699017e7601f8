use vstd::prelude::*;

use crate::client::{is_path_segment, resource_uri, texts_view, uri_for, ClientState};
use crate::error::Error;
use crate::request::{Method, Request};
use crate::response::Response;

verus! {

/// One server operation: a value that holds the call's parameters, builds the
/// request once, and interprets the response.
///
/// `make_request` takes the value by itself, so a command cannot be sent
/// twice.
pub trait Command: Sized {
    /// What a successful call yields.
    type Output;

    /// The request for this call; fails only on parameters that cannot form
    /// a request.
    fn make_request(self) -> Result<Request, Error>;

    /// The outcome that the server's response stands for.
    fn take_response(response: Response) -> Result<Self::Output, Error>;
}

/// Whether every segment of `path` can stand in a request path.
pub open spec fn path_ok(path: Seq<&str>) -> bool {
    forall|i: int| 0 <= i < path.len() ==> is_path_segment(#[trigger] path[i]@)
}

/// Whether `req` has method `m` and targets the resource at `path` of the
/// server that `cs` names.
pub open spec fn is_request_for(req: Request, m: Method, cs: ClientState, path: Seq<&str>) -> bool {
    req.method == m && req.uri@ == uri_for(cs.uri@, texts_view(path))
}

/// Whether `req` is a bare request (no headers, empty body) with method `m`
/// for the resource at `path` of the server that `cs` names.
pub open spec fn is_bare_request(req: Request, m: Method, cs: ClientState, path: Seq<&str>) -> bool {
    &&& is_request_for(req, m, cs, path)
    &&& !req.accept_json
    &&& !req.content_type_json
    &&& req.if_match is None
    &&& req.if_none_match is None
    &&& req.body@.len() == 0
}

/// A bare request with method `m` for the resource at `path`; fails with
/// `InvalidPath` when a segment cannot stand in a path.
pub fn bare_request(m: Method, cs: &ClientState, path: &[&str]) -> (r: Result<Request, Error>)
    ensures
        r is Ok <==> path_ok(path@),
        r matches Ok(req) ==> is_bare_request(req, m, *cs, path@),
        r matches Err(e) ==> e is InvalidPath,
{
    match resource_uri(cs.uri.as_str(), path) {
        Ok(u) => Ok(Request::new(m, u)),
        Err(e) => Err(e),
    }
}

} // verus!
