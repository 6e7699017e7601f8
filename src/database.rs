use vstd::prelude::*;

use crate::error::{is_unexpected_content, unexpected_content, Error};
use crate::json::{bool_member, str_member, u64_member, Json};

verus! {

/// Database metadata as the server reports it.
#[derive(Debug, Clone, PartialEq, Eq)]
pub struct Database {
    pub db_name: String,
    pub doc_count: u64,
    pub doc_del_count: u64,
    pub update_seq: u64,
    pub committed_update_seq: u64,
    pub data_size: u64,
    pub purge_seq: u64,
    pub compact_running: bool,
}

/// The first field of a metadata body `j` that is missing or mistyped, in the
/// order of [`Database`]'s fields: the empty name when `j` is not an object.
pub open spec fn database_problem(j: Json) -> Option<Seq<char>> {
    if !(j is Object) {
        Some(Seq::empty())
    } else if str_member(j, "db_name"@) is None {
        Some("db_name"@)
    } else if u64_member(j, "doc_count"@) is None {
        Some("doc_count"@)
    } else if u64_member(j, "doc_del_count"@) is None {
        Some("doc_del_count"@)
    } else if u64_member(j, "update_seq"@) is None {
        Some("update_seq"@)
    } else if u64_member(j, "committed_update_seq"@) is None {
        Some("committed_update_seq"@)
    } else if u64_member(j, "data_size"@) is None {
        Some("data_size"@)
    } else if u64_member(j, "purge_seq"@) is None {
        Some("purge_seq"@)
    } else if bool_member(j, "compact_running"@) is None {
        Some("compact_running"@)
    } else {
        None
    }
}

/// Whether `d` holds the fields of the well-formed metadata body `j`.
pub open spec fn is_database_of(d: Database, j: Json) -> bool {
    &&& str_member(j, "db_name"@) == Some(d.db_name@)
    &&& u64_member(j, "doc_count"@) == Some(d.doc_count)
    &&& u64_member(j, "doc_del_count"@) == Some(d.doc_del_count)
    &&& u64_member(j, "update_seq"@) == Some(d.update_seq)
    &&& u64_member(j, "committed_update_seq"@) == Some(d.committed_update_seq)
    &&& u64_member(j, "data_size"@) == Some(d.data_size)
    &&& u64_member(j, "purge_seq"@) == Some(d.purge_seq)
    &&& bool_member(j, "compact_running"@) == Some(d.compact_running)
}

impl Database {
    /// Reads the metadata from the parsed body `j`; a missing or mistyped
    /// field fails with `UnexpectedContent` naming the first one and holding
    /// `body`. Members that the metadata does not use are ignored.
    pub fn from_json(j: &Json, body: &[u8]) -> (r: Result<Database, Error>)
        ensures
            r is Ok <==> database_problem(*j) is None,
            r matches Ok(d) ==> is_database_of(d, *j),
            r matches Err(e) ==> (database_problem(*j) matches Some(f) && is_unexpected_content(
                e,
                f,
                body@,
            )),
    {
        proof {
            reveal_strlit("db_name");
            reveal_strlit("doc_count");
            reveal_strlit("doc_del_count");
            reveal_strlit("update_seq");
            reveal_strlit("committed_update_seq");
            reveal_strlit("data_size");
            reveal_strlit("purge_seq");
            reveal_strlit("compact_running");
            reveal_strlit("");
        }
        if !matches!(j, Json::Object(_)) {
            assert(""@ =~= Seq::<char>::empty());
            return Err(unexpected_content("", body));
        }
        let db_name = match j.str_member("db_name") {
            Some(v) => v,
            None => return Err(unexpected_content("db_name", body)),
        };
        let doc_count = match j.u64_member("doc_count") {
            Some(v) => v,
            None => return Err(unexpected_content("doc_count", body)),
        };
        let doc_del_count = match j.u64_member("doc_del_count") {
            Some(v) => v,
            None => return Err(unexpected_content("doc_del_count", body)),
        };
        let update_seq = match j.u64_member("update_seq") {
            Some(v) => v,
            None => return Err(unexpected_content("update_seq", body)),
        };
        let committed_update_seq = match j.u64_member("committed_update_seq") {
            Some(v) => v,
            None => return Err(unexpected_content("committed_update_seq", body)),
        };
        let data_size = match j.u64_member("data_size") {
            Some(v) => v,
            None => return Err(unexpected_content("data_size", body)),
        };
        let purge_seq = match j.u64_member("purge_seq") {
            Some(v) => v,
            None => return Err(unexpected_content("purge_seq", body)),
        };
        let compact_running = match j.bool_member("compact_running") {
            Some(v) => v,
            None => return Err(unexpected_content("compact_running", body)),
        };
        Ok(
            Database {
                db_name,
                doc_count,
                doc_del_count,
                update_seq,
                committed_update_seq,
                data_size,
                purge_seq,
                compact_running,
            },
        )
    }
}

} // verus!
