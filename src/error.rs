use vstd::prelude::*;

use crate::json::{json_of_bytes, parse_json, str_member};

verus! {

/// The JSON error body that the server sends with a failing status:
/// `{"error": "<code>", "reason": "<text>"}`.
#[derive(Debug, Clone, PartialEq, Eq)]
pub struct ErrorResponse {
    /// Short machine-readable code, e.g. `not_found`.
    pub error: String,
    /// Human-readable explanation.
    pub reason: String,
}

/// Everything that can go wrong while running an operation.
#[derive(Debug)]
pub enum Error {
    /// HTTP 404: the database or document does not exist.
    NotFound(Option<ErrorResponse>),
    /// HTTP 401: the client is not authorized.
    Unauthorized(Option<ErrorResponse>),
    /// HTTP 400: the server rejected the request as malformed.
    BadRequest(Option<ErrorResponse>),
    /// HTTP 409: the revision given is not the document's current one.
    Conflict(Option<ErrorResponse>),
    /// HTTP 412 when creating a database: it exists already.
    DatabaseExists(Option<ErrorResponse>),
    /// A status code that the operation does not expect.
    UnexpectedHttpStatus(u16),
    /// The body is JSON but lacks a field the operation needs, or has it with
    /// the wrong type. `field` names the first such field (empty when the body
    /// is not a JSON object at all); `body` is the body as received.
    UnexpectedContent { field: String, body: Vec<u8> },
    /// The response does not declare `Content-Type: application/json`; holds
    /// the content type it declared, if any.
    UnexpectedContentType(Option<String>),
    /// A database or document name that cannot stand in a request path.
    InvalidPath(String),
    /// The connection or the transfer failed.
    Transport(String),
    /// The request body could not be encoded as JSON; holds the encoder's
    /// message.
    Encode(String),
    /// The response body is not JSON; holds the parser's message.
    Decode(String),
}

/// The error body held by `body`, as `(error, reason)`, if it is a JSON object
/// with both members as strings.
pub open spec fn error_body_of(body: Seq<u8>) -> Option<(Seq<char>, Seq<char>)> {
    match json_of_bytes(body) {
        Some(j) => match (str_member(j, "error"@), str_member(j, "reason"@)) {
            (Some(e), Some(r)) => Some((e, r)),
            _ => None,
        },
        None => None,
    }
}

/// Whether `p` is what [`read_error_response`] makes of `body`.
pub open spec fn is_error_payload(p: Option<ErrorResponse>, body: Seq<u8>) -> bool {
    match (p, error_body_of(body)) {
        (None, None) => true,
        (Some(r), Some((e, why))) => r.error@ == e && r.reason@ == why,
        _ => false,
    }
}

/// The statuses that carry a server error of their own kind.
pub open spec fn is_error_status(status: u16) -> bool {
    status == 400 || status == 401 || status == 404 || status == 409 || status == 412
}

/// Whether `e` is the error for a response with status `status` and body
/// `body`: the kind goes by the status alone, and the error body rides along
/// when it is well-formed.
pub open spec fn is_status_error(e: Error, status: u16, body: Seq<u8>) -> bool {
    match e {
        Error::BadRequest(p) => status == 400 && is_error_payload(p, body),
        Error::Unauthorized(p) => status == 401 && is_error_payload(p, body),
        Error::NotFound(p) => status == 404 && is_error_payload(p, body),
        Error::Conflict(p) => status == 409 && is_error_payload(p, body),
        Error::DatabaseExists(p) => status == 412 && is_error_payload(p, body),
        _ => false,
    }
}

/// Whether `e` is the error for an unexpected status `status`.
pub open spec fn is_unexpected_status(e: Error, status: u16) -> bool {
    e matches Error::UnexpectedHttpStatus(s) && s == status
}

/// Whether `e` reports that the body `body` lacks the field `field`, or has it
/// with the wrong type.
pub open spec fn is_unexpected_content(e: Error, field: Seq<char>, body: Seq<u8>) -> bool {
    e matches Error::UnexpectedContent { field: f, body: b } && f@ == field && b@ == body
}

/// The error for a body that lacks the field `field`, or has it with the
/// wrong type.
pub fn unexpected_content(field: &str, body: &[u8]) -> (e: Error)
    ensures
        is_unexpected_content(e, field@, body@),
{
    Error::UnexpectedContent { field: field.to_owned(), body: vstd::slice::slice_to_vec(body) }
}

/// Reads the server's error body; a body that is absent, not JSON, or lacks
/// either member gives `None`.
pub fn read_error_response(body: &[u8]) -> (r: Option<ErrorResponse>)
    ensures
        is_error_payload(r, body@),
{
    match parse_json(body) {
        Ok(j) => {
            let error = j.str_member("error");
            let reason = j.str_member("reason");
            proof {
                reveal_strlit("error");
                reveal_strlit("reason");
            }
            match (error, reason) {
                (Some(error), Some(reason)) => Some(ErrorResponse { error, reason }),
                _ => None,
            }
        },
        Err(_) => None,
    }
}

/// The error for a response whose status carries a server error.
pub fn status_error(status: u16, body: &[u8]) -> (e: Error)
    requires
        is_error_status(status),
    ensures
        is_status_error(e, status, body@),
{
    let p = read_error_response(body);
    if status == 400 {
        Error::BadRequest(p)
    } else if status == 401 {
        Error::Unauthorized(p)
    } else if status == 404 {
        Error::NotFound(p)
    } else if status == 409 {
        Error::Conflict(p)
    } else {
        Error::DatabaseExists(p)
    }
}

/// Classifies any failing response: a status with a kind of its own gives that
/// kind, any other gives `UnexpectedHttpStatus`.
pub fn classify(status: u16, body: &[u8]) -> (e: Error)
    ensures
        is_error_status(status) ==> is_status_error(e, status, body@),
        !is_error_status(status) ==> is_unexpected_status(e, status),
{
    if status == 400 || status == 401 || status == 404 || status == 409 || status == 412 {
        status_error(status, body)
    } else {
        Error::UnexpectedHttpStatus(status)
    }
}

} // verus!
