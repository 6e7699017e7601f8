use vstd::prelude::*;

use crate::error::{is_unexpected_content, unexpected_content, Error};
use crate::json::{bool_member, object_member, str_member, Json};
use crate::revision::Revision;

verus! {

/// A document as the server returns it: its id, its revision, whether it is
/// a deletion stub, and the application's content.
///
/// `content` is the body's object without the members whose names start with
/// `_`, which the server reserves for its own metadata.
#[derive(Debug)]
pub struct Document {
    pub id: String,
    pub revision: Revision,
    pub deleted: bool,
    pub content: Json,
}

/// Whether a member name is reserved for the server's metadata.
pub open spec fn is_reserved_name(k: Seq<char>) -> bool {
    k.len() > 0 && k[0] == '_'
}

/// The members of `ms` that belong to the application, in order.
pub open spec fn content_members(ms: Seq<(String, Json)>) -> Seq<(String, Json)>
    decreases ms.len(),
{
    if ms.len() == 0 {
        Seq::empty()
    } else if is_reserved_name(ms.last().0@) {
        content_members(ms.drop_last())
    } else {
        content_members(ms.drop_last()).push(ms.last())
    }
}

/// The first field of a document body `j` that is missing or mistyped: the
/// empty name when `j` is not an object; `_id` and `_rev` must be strings and
/// `_deleted`, when present, a boolean.
pub open spec fn document_problem(j: Json) -> Option<Seq<char>> {
    if !(j is Object) {
        Some(Seq::empty())
    } else if str_member(j, "_id"@) is None {
        Some("_id"@)
    } else if str_member(j, "_rev"@) is None {
        Some("_rev"@)
    } else if object_member(j, "_deleted"@) is Some && bool_member(j, "_deleted"@) is None {
        Some("_deleted"@)
    } else {
        None
    }
}

/// Whether `d` is the document that the well-formed body `j` describes.
pub open spec fn is_document_of(d: Document, j: Json) -> bool {
    &&& str_member(j, "_id"@) == Some(d.id@)
    &&& str_member(j, "_rev"@) == Some(d.revision@)
    &&& d.deleted == (bool_member(j, "_deleted"@) == Some(true))
    &&& d.content matches Json::Object(cs) && j matches Json::Object(ms) && cs@ == content_members(
        ms@,
    )
}

/// The members of `ms` that belong to the application, in order.
fn take_content(ms: Vec<(String, Json)>) -> (r: Vec<(String, Json)>)
    ensures
        r@ == content_members(ms@),
{
    let ghost all = ms@;
    let mut ms = ms;
    let mut out: Vec<(String, Json)> = Vec::new();
    let ghost k: int = 0;
    while ms.len() > 0
        invariant
            0 <= k <= all.len(),
            ms@ == all.subrange(k, all.len() as int),
            out@ == content_members(all.subrange(0, k)),
        decreases ms@.len(),
    {
        let m = ms.remove(0);
        proof {
            assert(all.subrange(0, k + 1).drop_last() =~= all.subrange(0, k));
            assert(all.subrange(0, k + 1).last() == m);
            assert(ms@ =~= all.subrange(k + 1, all.len() as int));
        }
        let name = m.0.as_str();
        let reserved = name.unicode_len() > 0 && name.get_char(0) == '_';
        if !reserved {
            out.push(m);
        }
        proof {
            k = k + 1;
        }
    }
    assert(all.subrange(0, k) =~= all);
    out
}

impl Document {
    /// Builds the document that the parsed body `j` describes; a body that is
    /// not an object, or whose `_id`, `_rev` or `_deleted` is missing or
    /// mistyped, fails with `UnexpectedContent` naming the first such field and
    /// holding `body`.
    pub fn from_json(j: Json, body: &[u8]) -> (r: Result<Document, Error>)
        ensures
            r is Ok <==> document_problem(j) is None,
            r matches Ok(d) ==> is_document_of(d, j),
            r matches Err(e) ==> (document_problem(j) matches Some(f) && is_unexpected_content(
                e,
                f,
                body@,
            )),
    {
        proof {
            reveal_strlit("_id");
            reveal_strlit("_rev");
            reveal_strlit("_deleted");
            reveal_strlit("");
        }
        let id = j.str_member("_id");
        let rev = j.str_member("_rev");
        let has_deleted = j.member("_deleted").is_some();
        let deleted = j.bool_member("_deleted");
        match j {
            Json::Object(ms) => {
                let id = match id {
                    Some(id) => id,
                    None => return Err(unexpected_content("_id", body)),
                };
                let rev = match rev {
                    Some(rev) => rev,
                    None => return Err(unexpected_content("_rev", body)),
                };
                let deleted = match deleted {
                    Some(b) => b,
                    None => if has_deleted {
                        return Err(unexpected_content("_deleted", body));
                    } else {
                        false
                    },
                };
                let content = take_content(ms);
                Ok(
                    Document {
                        id,
                        revision: Revision::from_string(rev),
                        deleted,
                        content: Json::Object(content),
                    },
                )
            },
            _ => {
                assert(""@ =~= Seq::<char>::empty());
                Err(unexpected_content("", body))
            },
        }
    }
}

} // verus!
