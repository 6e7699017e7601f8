use vstd::prelude::*;

verus! {

/// A JSON number as the server sent it.
#[derive(Debug, Clone, PartialEq, Eq)]
pub enum JsonNumber {
    /// A non-negative integer that fits in 64 bits.
    Unsigned(u64),
    /// A negative integer that fits in 64 bits.
    Negative(i64),
    /// Any other number, kept as its decimal text.
    Float(String),
}

/// A JSON value: the library's own tree, which the decoding logic reads.
#[derive(Debug, PartialEq, Eq)]
pub enum Json {
    Null,
    Bool(bool),
    Number(JsonNumber),
    String(String),
    Array(Vec<Json>),
    /// An object's members as serde_json hands them over: sorted by name, one
    /// per name (of repeated names, the last one's value).
    Object(Vec<(String, Json)>),
}

/// serde_json's parsed value, opaque here: only the conversion below looks
/// inside it.
#[verifier::external_type_specification]
#[verifier::external_body]
pub struct ExJsonValue(serde_json::Value);

/// The JSON value that the bytes `b` hold, if they hold exactly one.
pub uninterp spec fn json_of_bytes(b: Seq<u8>) -> Option<Json>;

/// Relies on `serde_json::from_slice::<serde_json::Value>`: parses `b` as one
/// JSON document and fails exactly when `b` is not one; a failure hands back
/// the parser's message.
#[verifier::external_body]
pub(crate) fn parse_json(b: &[u8]) -> (r: Result<Json, String>)
    ensures
        match r {
            Ok(j) => json_of_bytes(b@) == Some(j),
            Err(_) => json_of_bytes(b@) is None,
        },
{
    serde_json::from_slice::<serde_json::Value>(b).map(json_from_value).map_err(|e| e.to_string())
}

/// Copies a value that `parse_json` got from serde_json into the library's
/// tree, node for node; relies on the variants of `serde_json::Value`, on
/// `serde_json::Number::{as_u64, as_i64}` to tell integers from other numbers,
/// and on the number's `Display` for the text of the others.
#[verifier::external_body]
fn json_from_value(v: serde_json::Value) -> Json {
    match v {
        serde_json::Value::Null => Json::Null,
        serde_json::Value::Bool(b) => Json::Bool(b),
        serde_json::Value::Number(n) => Json::Number(match (n.as_u64(), n.as_i64()) {
            (Some(u), _) => JsonNumber::Unsigned(u),
            (None, Some(i)) => JsonNumber::Negative(i),
            (None, None) => JsonNumber::Float(n.to_string()),
        }),
        serde_json::Value::String(s) => Json::String(s),
        serde_json::Value::Array(a) => Json::Array(a.into_iter().map(json_from_value).collect()),
        serde_json::Value::Object(m) => Json::Object(
            m.into_iter().map(|(k, x)| (k, json_from_value(x))).collect(),
        ),
    }
}

/// The value of the first member of `ms` named `key`.
pub open spec fn find_member(ms: Seq<(String, Json)>, key: Seq<char>) -> Option<Json>
    decreases ms.len(),
{
    if ms.len() == 0 {
        None
    } else if ms[0].0@ == key {
        Some(ms[0].1)
    } else {
        find_member(ms.drop_first(), key)
    }
}

/// The value of member `key` of `j`, if `j` is an object that has one.
pub open spec fn object_member(j: Json, key: Seq<char>) -> Option<Json> {
    match j {
        Json::Object(ms) => find_member(ms@, key),
        _ => None,
    }
}

/// Member `key` of `j`, if it is a string.
pub open spec fn str_member(j: Json, key: Seq<char>) -> Option<Seq<char>> {
    match object_member(j, key) {
        Some(Json::String(s)) => Some(s@),
        _ => None,
    }
}

/// Member `key` of `j`, if it is a non-negative integer that fits in 64 bits.
pub open spec fn u64_member(j: Json, key: Seq<char>) -> Option<u64> {
    match object_member(j, key) {
        Some(Json::Number(JsonNumber::Unsigned(n))) => Some(n),
        _ => None,
    }
}

/// Member `key` of `j`, if it is a boolean.
pub open spec fn bool_member(j: Json, key: Seq<char>) -> Option<bool> {
    match object_member(j, key) {
        Some(Json::Bool(b)) => Some(b),
        _ => None,
    }
}

/// Whether two texts are equal.
pub fn text_eq(a: &str, b: &str) -> (r: bool)
    ensures
        r == (a@ == b@),
{
    let x = a.to_owned();
    let y = b.to_owned();
    x == y
}

/// Removing a member whose name is not `k` leaves the value found under `k`
/// unchanged.
pub proof fn lemma_find_member_remove(ms: Seq<(String, Json)>, i: int, k: Seq<char>)
    requires
        0 <= i < ms.len(),
        ms[i].0@ != k,
    ensures
        find_member(ms.remove(i), k) == find_member(ms, k),
    decreases ms.len(),
{
    if i == 0 {
        assert(ms.remove(0) =~= ms.drop_first());
    } else {
        lemma_find_member_remove(ms.drop_first(), i - 1, k);
        assert(ms.remove(i).drop_first() =~= ms.drop_first().remove(i - 1));
        assert(ms.remove(i)[0] == ms[0]);
    }
}

/// Takes the first member named `key` out of `ms`, leaving the others, so that
/// what every other name finds stays the same.
pub fn take_member(ms: &mut Vec<(String, Json)>, key: &str) -> (r: Option<Json>)
    ensures
        r == find_member(old(ms)@, key@),
        forall|k: Seq<char>| k != key@ ==> #[trigger] find_member(final(ms)@, k) == find_member(old(ms)@, k),
{
    let ghost all = ms@;
    let mut i: usize = 0;
    assert(all.subrange(0, all.len() as int) =~= all);
    while i < ms.len()
        invariant
            ms@ == all,
            all == old(ms)@,
            i <= all.len(),
            find_member(all, key@) == find_member(all.subrange(i as int, all.len() as int), key@),
        decreases all.len() - i,
    {
        let ghost rest = all.subrange(i as int, all.len() as int);
        assert(rest[0] == all[i as int]);
        if text_eq(ms[i].0.as_str(), key) {
            assert(find_member(rest, key@) == Some(all[i as int].1));
            let m = ms.remove(i);
            proof {
                assert forall|k: Seq<char>| k != key@ implies #[trigger] find_member(ms@, k)
                    == find_member(all, k) by {
                    lemma_find_member_remove(all, i as int, k);
                }
            }
            return Some(m.1);
        }
        assert(rest.drop_first() =~= all.subrange(i + 1, all.len() as int));
        i = i + 1;
    }
    None
}

impl Json {
    /// Member `key` of this value, if it is an object that has one.
    pub fn member(&self, key: &str) -> (r: Option<&Json>)
        ensures
            match r {
                Some(v) => object_member(*self, key@) == Some(*v),
                None => object_member(*self, key@) is None,
            },
    {
        match self {
            Json::Object(ms) => {
                let mut i: usize = 0;
                assert(ms@.subrange(0, ms@.len() as int) =~= ms@);
                while i < ms.len()
                    invariant
                        i <= ms@.len(),
                        object_member(*self, key@) == find_member(ms@, key@),
                        find_member(ms@, key@) == find_member(ms@.subrange(i as int, ms@.len() as int), key@),
                    decreases ms@.len() - i,
                {
                    let ghost rest = ms@.subrange(i as int, ms@.len() as int);
                    assert(rest[0] == ms@[i as int]);
                    if text_eq(ms[i].0.as_str(), key) {
                        assert(find_member(rest, key@) == Some(ms@[i as int].1));
                        return Some(&ms[i].1);
                    }
                    assert(rest.drop_first() =~= ms@.subrange(i + 1, ms@.len() as int));
                    i = i + 1;
                }
                None
            },
            _ => None,
        }
    }

    /// Member `key` of this value, if it is a string.
    pub fn str_member(&self, key: &str) -> (r: Option<String>)
        ensures
            match r {
                Some(s) => str_member(*self, key@) == Some(s@),
                None => str_member(*self, key@) is None,
            },
    {
        match self.member(key) {
            Some(Json::String(s)) => Some(s.clone()),
            _ => None,
        }
    }

    /// Member `key` of this value, if it is a non-negative 64-bit integer.
    pub fn u64_member(&self, key: &str) -> (r: Option<u64>)
        ensures
            r == u64_member(*self, key@),
    {
        match self.member(key) {
            Some(Json::Number(JsonNumber::Unsigned(n))) => Some(*n),
            _ => None,
        }
    }

    /// Member `key` of this value, if it is a boolean.
    pub fn bool_member(&self, key: &str) -> (r: Option<bool>)
        ensures
            r == bool_member(*self, key@),
    {
        match self.member(key) {
            Some(Json::Bool(b)) => Some(*b),
            _ => None,
        }
    }
}

} // verus!
