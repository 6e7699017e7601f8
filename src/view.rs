use vstd::prelude::*;

use crate::error::{is_unexpected_content, unexpected_content, Error};
use crate::json::{find_member, object_member, str_member, take_member, u64_member, Json};
use crate::request::opt_view;

verus! {

/// One row of a view result.
#[derive(Debug)]
pub struct ViewRow {
    /// The id of the document that emitted the row; absent in reduced rows.
    pub id: Option<String>,
    /// The row's key as the server sent it, if it sent one.
    pub key: Option<Json>,
    /// The row's value.
    pub value: Json,
}

/// The result of querying a view. `total_rows` and `offset` are absent when
/// the result is reduced.
#[derive(Debug)]
pub struct ViewResult {
    pub total_rows: Option<u64>,
    pub offset: Option<u64>,
    pub rows: Vec<ViewRow>,
}

/// Whether member `k` of `j` is present but not a non-negative integer.
pub open spec fn bad_count(j: Json, k: Seq<char>) -> bool {
    object_member(j, k) is Some && u64_member(j, k) is None
}

/// The problem with one row, if any: a row must be an object (else `rows` is
/// named) with a `value`, and an `id` that is present must be a string.
pub open spec fn row_problem(r: Json) -> Option<Seq<char>> {
    if !(r is Object) {
        Some("rows"@)
    } else if object_member(r, "value"@) is None {
        Some("value"@)
    } else if object_member(r, "id"@) is Some && str_member(r, "id"@) is None {
        Some("id"@)
    } else {
        None
    }
}

/// The problem with the first row that has one.
pub open spec fn rows_problem(rows: Seq<Json>) -> Option<Seq<char>>
    decreases rows.len(),
{
    if rows.len() == 0 {
        None
    } else {
        match rows_problem(rows.drop_last()) {
            Some(f) => Some(f),
            None => row_problem(rows.last()),
        }
    }
}

/// The first field of a view body `j` that is missing or mistyped: the empty
/// name when `j` is not an object; `total_rows` and `offset` may be absent but
/// are otherwise counts; `rows` must be an array of well-formed rows.
pub open spec fn view_problem(j: Json) -> Option<Seq<char>> {
    if !(j is Object) {
        Some(Seq::empty())
    } else if bad_count(j, "total_rows"@) {
        Some("total_rows"@)
    } else if bad_count(j, "offset"@) {
        Some("offset"@)
    } else {
        match object_member(j, "rows"@) {
            Some(Json::Array(rows)) => rows_problem(rows@),
            _ => Some("rows"@),
        }
    }
}

/// Whether `row` holds the members of the well-formed row `r`.
pub open spec fn is_row_of(row: ViewRow, r: Json) -> bool {
    &&& object_member(r, "value"@) == Some(row.value)
    &&& object_member(r, "key"@) == row.key
    &&& opt_view(row.id) == str_member(r, "id"@)
}

/// Whether `v` holds the members of the well-formed view body `j`.
pub open spec fn is_view_of(v: ViewResult, j: Json) -> bool {
    &&& v.total_rows == u64_member(j, "total_rows"@)
    &&& v.offset == u64_member(j, "offset"@)
    &&& object_member(j, "rows"@) matches Some(Json::Array(rows)) && v.rows@.len() == rows@.len()
        && forall|i: int| 0 <= i < rows@.len() ==> is_row_of(#[trigger] v.rows@[i], rows@[i])
}

/// A problem found in a prefix of the rows is the problem of all of them.
proof fn lemma_rows_problem_prefix(rows: Seq<Json>, k: int)
    requires
        0 <= k <= rows.len(),
        rows_problem(rows.subrange(0, k)) is Some,
    ensures
        rows_problem(rows) == rows_problem(rows.subrange(0, k)),
    decreases rows.len() - k,
{
    if k < rows.len() {
        assert(rows.subrange(0, k + 1).drop_last() =~= rows.subrange(0, k));
        lemma_rows_problem_prefix(rows, k + 1);
    } else {
        assert(rows.subrange(0, k) =~= rows);
    }
}

/// Reads one row, taking its key and value out of it.
fn read_row(r: Json) -> (res: Result<ViewRow, &'static str>)
    ensures
        match res {
            Ok(row) => row_problem(r) is None && is_row_of(row, r),
            Err(f) => row_problem(r) == Some(f@),
        },
{
    proof {
        reveal_strlit("value");
        reveal_strlit("key");
        reveal_strlit("id");
        reveal_strlit("rows");
    }
    let id = r.str_member("id");
    let has_id = r.member("id").is_some();
    match r {
        Json::Object(ms) => {
            let ghost before = ms@;
            let mut ms = ms;
            let value = match take_member(&mut ms, "value") {
                Some(v) => v,
                None => return Err("value"),
            };
            if has_id && id.is_none() {
                return Err("id");
            }
            assert("key"@.len() != "value"@.len());
            let key = take_member(&mut ms, "key");
            assert(find_member(before, "key"@) == key);
            Ok(ViewRow { id, key, value })
        },
        _ => Err("rows"),
    }
}

impl ViewResult {
    /// Reads a view result from the parsed body `j`; a missing or mistyped
    /// field fails with `UnexpectedContent` naming the first one and holding
    /// `body`.
    pub fn from_json(j: Json, body: &[u8]) -> (r: Result<ViewResult, Error>)
        ensures
            r is Ok <==> view_problem(j) is None,
            r matches Ok(v) ==> is_view_of(v, j),
            r matches Err(e) ==> (view_problem(j) matches Some(f) && is_unexpected_content(
                e,
                f,
                body@,
            )),
    {
        proof {
            reveal_strlit("total_rows");
            reveal_strlit("offset");
            reveal_strlit("rows");
            reveal_strlit("");
        }
        let total_rows = j.u64_member("total_rows");
        if total_rows.is_none() && j.member("total_rows").is_some() {
            return Err(unexpected_content("total_rows", body));
        }
        let offset = j.u64_member("offset");
        if offset.is_none() && j.member("offset").is_some() {
            return Err(unexpected_content("offset", body));
        }
        let mut ms = match j {
            Json::Object(ms) => ms,
            _ => {
                assert(""@ =~= Seq::<char>::empty());
                return Err(unexpected_content("", body));
            },
        };
        let mut items = match take_member(&mut ms, "rows") {
            Some(Json::Array(items)) => items,
            _ => return Err(unexpected_content("rows", body)),
        };
        let ghost items0 = items;
        let ghost all = items@;
        assert(object_member(j, "rows"@) == Some(Json::Array(items0)));
        assert(view_problem(j) == rows_problem(all));
        let mut rows: Vec<ViewRow> = Vec::new();
        let ghost k: int = 0;
        assert(all.subrange(0, 0) =~= Seq::<Json>::empty());
        while items.len() > 0
            invariant
                object_member(j, "rows"@) == Some(Json::Array(items0)),
                items0@ == all,
                view_problem(j) == rows_problem(all),
                total_rows == u64_member(j, "total_rows"@),
                offset == u64_member(j, "offset"@),
                0 <= k <= all.len(),
                items@ == all.subrange(k, all.len() as int),
                rows@.len() == k,
                forall|i: int| 0 <= i < k ==> is_row_of(#[trigger] rows@[i], all[i]),
                rows_problem(all.subrange(0, k)) is None,
            decreases items@.len(),
        {
            let item = items.remove(0);
            proof {
                assert(item == all[k]);
                assert(items@ =~= all.subrange(k + 1, all.len() as int));
                assert(all.subrange(0, k + 1).drop_last() =~= all.subrange(0, k));
            }
            match read_row(item) {
                Ok(row) => {
                    rows.push(row);
                },
                Err(f) => {
                    proof {
                        lemma_rows_problem_prefix(all, k + 1);
                    }
                    return Err(unexpected_content(f, body));
                },
            }
            proof {
                k = k + 1;
            }
        }
        assert(all.subrange(0, k) =~= all);
        Ok(ViewResult { total_rows, offset, rows })
    }
}

} // verus!
