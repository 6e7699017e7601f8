use vstd::prelude::*;

use crate::error::Error;

verus! {

/// What every operation needs from the connection: the server's base URI,
/// e.g. `http://example.com:5984/`.
#[derive(Debug, Clone)]
pub struct ClientState {
    pub uri: String,
}

impl ClientState {
    /// Connection state for the server at `uri`.
    pub fn new(uri: String) -> (c: ClientState)
        ensures
            c.uri@ == uri@,
    {
        ClientState { uri }
    }
}

/// Whether `c` would end or split a path segment.
pub open spec fn is_path_delimiter(c: char) -> bool {
    c == '/' || c == '?' || c == '#'
}

/// Whether `s` can stand as one segment of a request path: it is non-empty and
/// holds no `/`, `?` or `#`.
pub open spec fn is_path_segment(s: Seq<char>) -> bool {
    &&& s.len() > 0
    &&& forall|i: int| 0 <= i < s.len() ==> !is_path_delimiter(#[trigger] s[i])
}

/// The base URI without its trailing slash, if it has one.
pub open spec fn base_of(u: Seq<char>) -> Seq<char> {
    if u.len() > 0 && u.last() == '/' {
        u.drop_last()
    } else {
        u
    }
}

/// The URI of the resource at path `segs` under the base URI `base`.
pub open spec fn uri_for(base: Seq<char>, segs: Seq<Seq<char>>) -> Seq<char>
    decreases segs.len(),
{
    if segs.len() == 0 {
        base_of(base)
    } else {
        uri_for(base, segs.drop_last()) + seq!['/'] + segs.last()
    }
}

/// The views of a list of texts.
pub open spec fn texts_view(segs: Seq<&str>) -> Seq<Seq<char>> {
    segs.map_values(|s: &str| s@)
}

/// Whether `s` can stand as one segment of a request path.
pub fn is_path_segment_value(s: &str) -> (b: bool)
    ensures
        b == is_path_segment(s@),
{
    let n = s.unicode_len();
    if n == 0 {
        return false;
    }
    let mut i: usize = 0;
    while i < n
        invariant
            i <= n,
            n == s@.len(),
            forall|j: int| 0 <= j < i ==> !is_path_delimiter(#[trigger] s@[j]),
        decreases n - i,
    {
        let c = s.get_char(i);
        if c == '/' || c == '?' || c == '#' {
            return false;
        }
        i = i + 1;
    }
    true
}

/// The URI of the resource at path `segs` under `base`; fails with
/// `InvalidPath` naming the first segment that cannot stand in a path.
pub fn resource_uri(base: &str, segs: &[&str]) -> (r: Result<String, Error>)
    ensures
        r is Ok <==> forall|i: int| 0 <= i < segs@.len() ==> is_path_segment(#[trigger] segs@[i]@),
        r matches Ok(u) ==> u@ == uri_for(base@, texts_view(segs@)),
        r matches Err(e) ==> e is InvalidPath,
{
    let n = base.unicode_len();
    let mut u: String = if n > 0 && base.get_char(n - 1) == '/' {
        base.substring_char(0, n - 1).to_owned()
    } else {
        base.to_owned()
    };
    assert(u@ == uri_for(base@, texts_view(segs@).subrange(0, 0)));
    let mut i: usize = 0;
    while i < segs.len()
        invariant
            i <= segs@.len(),
            u@ == uri_for(base@, texts_view(segs@).subrange(0, i as int)),
            forall|j: int| 0 <= j < i ==> is_path_segment(#[trigger] segs@[j]@),
        decreases segs@.len() - i,
    {
        let s = segs[i];
        if !is_path_segment_value(s) {
            return Err(Error::InvalidPath(s.to_owned()));
        }
        let ghost before = u@;
        u.append("/");
        u.append(s);
        proof {
            reveal_strlit("/");
            let t = texts_view(segs@);
            assert(t.subrange(0, i + 1).drop_last() =~= t.subrange(0, i as int));
            assert(u@ =~= before + seq!['/'] + s@);
        }
        i = i + 1;
    }
    assert(texts_view(segs@).subrange(0, segs@.len() as int) =~= texts_view(segs@));
    Ok(u)
}

} // verus!
