use vstd::prelude::*;

use crate::error::Error;
use crate::json::{json_of_bytes, parse_json, Json};

verus! {

/// A response as received from the server: status code, the value of the
/// `Content-Type` header if there is one, and the body.
#[derive(Debug, Clone)]
pub struct Response {
    pub status: u16,
    pub content_type: Option<String>,
    pub body: Vec<u8>,
}

/// Whether `c` is the lower-case letter `t` in either case.
pub open spec fn same_letter(c: char, t: char) -> bool {
    c == t || ('A' <= c && c <= 'Z' && c as u32 + 32 == t as u32)
}

/// Whether the media type `application/json` stands at the start of `ct`, in
/// any letter case.
pub open spec fn starts_with_json_media_type(ct: Seq<char>) -> bool {
    let m = "application/json"@;
    &&& ct.len() >= m.len()
    &&& forall|i: int| 0 <= i < m.len() ==> same_letter(#[trigger] ct[i], m[i])
}

/// Whether, from index `k` on, `ct` holds spaces up to index `e`, which is its
/// end or a `;` that opens the parameters.
pub open spec fn params_from(ct: Seq<char>, k: int, e: int) -> bool {
    &&& k <= e <= ct.len()
    &&& forall|j: int| k <= j < e ==> #[trigger] ct[j] == ' '
    &&& (e == ct.len() || ct[e] == ';')
}

/// Whether the `Content-Type` value `ct` declares `application/json`, with or
/// without parameters such as a charset.
pub open spec fn is_json_content_type(ct: Seq<char>) -> bool {
    &&& starts_with_json_media_type(ct)
    &&& exists|e: int| #[trigger] params_from(ct, "application/json"@.len() as int, e)
}

/// Whether `c` is `t`, ignoring the case of ASCII letters.
fn letter_matches(c: char, t: char) -> (b: bool)
    ensures
        b == same_letter(c, t),
{
    c == t || ('A' <= c && c <= 'Z' && c as u32 + 32 == t as u32)
}

/// Whether the `Content-Type` value `ct` declares `application/json`.
pub fn is_json_content_type_value(ct: &str) -> (b: bool)
    ensures
        b == is_json_content_type(ct@),
{
    let m = "application/json";
    proof {
        reveal_strlit("application/json");
    }
    let mlen = m.unicode_len();
    let n = ct.unicode_len();
    if n < mlen {
        return false;
    }
    let mut i: usize = 0;
    while i < mlen
        invariant
            i <= mlen,
            mlen == m@.len(),
            mlen <= n,
            n == ct@.len(),
            m@ == "application/json"@,
            forall|j: int| 0 <= j < i ==> same_letter(#[trigger] ct@[j], m@[j]),
        decreases mlen - i,
    {
        if !letter_matches(ct.get_char(i), m.get_char(i)) {
            return false;
        }
        i = i + 1;
    }
    let mut k: usize = mlen;
    while k < n && ct.get_char(k) == ' '
        invariant
            mlen <= k <= n,
            n == ct@.len(),
            mlen == "application/json"@.len(),
            forall|j: int| mlen <= j < k ==> #[trigger] ct@[j] == ' ',
        decreases n - k,
    {
        k = k + 1;
    }
    if k == n || ct.get_char(k) == ';' {
        assert(params_from(ct@, mlen as int, k as int));
        true
    } else {
        proof {
            assert forall|e: int| !params_from(ct@, mlen as int, e) by {
                if params_from(ct@, mlen as int, e) {
                    if e < k {
                        assert(ct@[e] == ' ');
                    } else if e > k {
                        assert(ct@[k as int] == ' ');
                    }
                }
            }
        }
        false
    }
}

/// Whether the response declares `application/json`.
pub open spec fn has_json_content_type(r: Response) -> bool {
    r.content_type matches Some(ct) && is_json_content_type(ct@)
}

/// The JSON value of a response's body, if the response declares
/// `application/json` and the body is JSON.
pub open spec fn json_body(r: Response) -> Option<Json> {
    if has_json_content_type(r) {
        json_of_bytes(r.body@)
    } else {
        None
    }
}

/// Whether `e` is the failure to read a JSON body from `r`: a content type
/// other than `application/json` fails first, whatever the body holds; then a
/// body that is not JSON.
pub open spec fn is_json_body_error(r: Response, e: Error) -> bool {
    if !has_json_content_type(r) {
        e matches Error::UnexpectedContentType(c) && c == r.content_type
    } else {
        json_of_bytes(r.body@) is None && e is Decode
    }
}

impl Response {
    /// A response with the given status, content type and body.
    pub fn new(status: u16, content_type: Option<String>, body: Vec<u8>) -> (r: Response)
        ensures
            r.status == status,
            r.content_type == content_type,
            r.body == body,
    {
        Response { status, content_type, body }
    }

    /// The status code.
    pub fn status(&self) -> (s: u16)
        ensures
            s == self.status,
    {
        self.status
    }

    /// Succeeds exactly when the response declares `application/json`;
    /// otherwise fails with `UnexpectedContentType` holding what it declared.
    pub fn require_content_type_json(&self) -> (r: Result<(), Error>)
        ensures
            r is Ok <==> (self.content_type matches Some(ct) && is_json_content_type(ct@)),
            r matches Err(e) ==> (e matches Error::UnexpectedContentType(c) && c == self.content_type),
    {
        match &self.content_type {
            Some(ct) => {
                if is_json_content_type_value(ct.as_str()) {
                    Ok(())
                } else {
                    Err(Error::UnexpectedContentType(Some(ct.clone())))
                }
            },
            None => Err(Error::UnexpectedContentType(None)),
        }
    }

    /// The body as JSON, once the content type has been checked: fails with
    /// `UnexpectedContentType` before looking at the body, or with `Decode`.
    pub fn read_json_body(&self) -> (r: Result<Json, Error>)
        ensures
            match r {
                Ok(j) => json_body(*self) == Some(j),
                Err(e) => json_body(*self) is None && is_json_body_error(*self, e),
            },
    {
        match self.require_content_type_json() {
            Ok(()) => self.decode_json(),
            Err(e) => Err(e),
        }
    }

    /// The body as JSON; a body that is not JSON fails with `Decode`.
    pub fn decode_json(&self) -> (r: Result<Json, Error>)
        ensures
            match r {
                Ok(j) => json_of_bytes(self.body@) == Some(j),
                Err(e) => json_of_bytes(self.body@) is None && e is Decode,
            },
    {
        match parse_json(self.body.as_slice()) {
            Ok(j) => Ok(j),
            Err(m) => Err(Error::Decode(m)),
        }
    }
}

} // verus!
