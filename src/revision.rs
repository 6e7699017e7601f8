use vstd::prelude::*;

verus! {

/// Whether `c` is an ASCII decimal digit.
pub open spec fn is_digit(c: char) -> bool {
    '0' <= c && c <= '9'
}

/// Whether `s` has the revision form `<digits>-<token>`: one or more decimal
/// digits, a hyphen, then at least one more character.
pub open spec fn is_revision_text(s: Seq<char>) -> bool {
    exists|k: int| #[trigger] is_separator_at(s, k)
}

/// Whether `s` splits at index `k` into a digit run, the hyphen at `k`, and a
/// non-empty token after it.
pub open spec fn is_separator_at(s: Seq<char>, k: int) -> bool {
    &&& 0 < k
    &&& k + 1 < s.len()
    &&& s[k] == '-'
    &&& forall|i: int| 0 <= i < k ==> is_digit(#[trigger] s[i])
}

/// The entity-tag form of a revision: the text between double quotes.
pub open spec fn etag_text(s: Seq<char>) -> Seq<char> {
    seq!['"'] + s + seq!['"']
}

/// The text inside an entity tag, strong (`"x"`) or weak (`W/"x"`), if `e` is
/// one.
pub open spec fn etag_inner(e: Seq<char>) -> Option<Seq<char>> {
    if e.len() >= 2 && e[0] == '"' && e[e.len() - 1] == '"' {
        Some(e.subrange(1, e.len() - 1))
    } else if e.len() >= 4 && e[0] == 'W' && e[1] == '/' && e[2] == '"' && e[e.len() - 1] == '"' {
        Some(e.subrange(3, e.len() - 1))
    } else {
        None
    }
}

/// Document revision: an opaque token naming one version of a document.
///
/// Equality and ordering compare the underlying text. The order is not a
/// statement about which revision is newer.
#[derive(Debug, PartialEq, Eq, PartialOrd, Ord, Hash)]
pub struct Revision(String);

/// The text given to [`Revision::parse`] is not of the form `<digits>-<token>`.
#[derive(Debug, Clone, Copy, PartialEq, Eq)]
pub struct RevisionParseError;

impl View for Revision {
    type V = Seq<char>;

    closed spec fn view(&self) -> Seq<char> {
        self.0@
    }
}

impl Clone for Revision {
    fn clone(&self) -> (r: Self)
        ensures
            r@ == self@,
    {
        Revision(self.0.clone())
    }
}

impl Revision {
    /// Constructs an empty revision, which stands for "no revision".
    pub fn new() -> (r: Revision)
        ensures
            r@ == Seq::<char>::empty(),
    {
        Revision(String::new())
    }

    /// Constructs a revision from an arbitrary string, without checking it.
    pub fn from_string(rev: String) -> (r: Revision)
        ensures
            r@ == rev@,
    {
        Revision(rev)
    }

    /// Parses a revision of the form `<digits>-<token>`.
    pub fn parse(s: &str) -> (r: Result<Revision, RevisionParseError>)
        ensures
            r is Ok <==> is_revision_text(s@),
            r is Ok ==> r->Ok_0@ == s@,
    {
        let n = s.unicode_len();
        let mut k: usize = 0;
        while k < n && is_ascii_digit(s.get_char(k))
            invariant
                k <= n,
                n == s@.len(),
                forall|i: int| 0 <= i < k ==> is_digit(#[trigger] s@[i]),
            decreases n - k,
        {
            k = k + 1;
        }
        if 0 < k && k < n && n - k >= 2 && s.get_char(k) == '-' {
            assert(is_separator_at(s@, k as int));
            Ok(Revision(s.to_owned()))
        } else {
            proof {
                assert forall|j: int| !is_separator_at(s@, j) by {
                    if is_separator_at(s@, j) {
                        if j < k {
                            assert(is_digit(s@[j]));
                        } else if j > k {
                            assert(is_digit(s@[k as int]));
                        }
                    }
                }
            }
            Err(RevisionParseError)
        }
    }

    /// Whether this is the empty revision.
    pub fn is_empty(&self) -> (b: bool)
        ensures
            b <==> self@.len() == 0,
    {
        self.0.as_str().is_empty()
    }

    /// The revision text.
    pub fn as_str(&self) -> (s: &str)
        ensures
            s@ == self@,
    {
        self.0.as_str()
    }

    /// The entity tag for this revision, as sent in `If-Match` and
    /// `If-None-Match` headers: the revision text between double quotes.
    pub fn to_etag_string(&self) -> (e: String)
        ensures
            e@ == etag_text(self@),
    {
        let mut e = String::from_str("\"");
        e.append(self.0.as_str());
        e.append("\"");
        proof {
            reveal_strlit("\"");
        }
        e
    }

    /// Reads a revision back from an entity tag, strong (`"x"`) or weak
    /// (`W/"x"`).
    pub fn from_etag(e: &str) -> (r: Result<Revision, RevisionParseError>)
        ensures
            r is Ok <==> (etag_inner(e@) matches Some(t) && is_revision_text(t)),
            r is Ok ==> etag_inner(e@) == Some(r->Ok_0@),
    {
        let n = e.unicode_len();
        if n >= 2 && e.get_char(0) == '"' && e.get_char(n - 1) == '"' {
            Revision::parse(e.substring_char(1, n - 1))
        } else if n >= 4 && e.get_char(0) == 'W' && e.get_char(1) == '/' && e.get_char(2) == '"'
            && e.get_char(n - 1) == '"' {
            Revision::parse(e.substring_char(3, n - 1))
        } else {
            Err(RevisionParseError)
        }
    }
}

/// Whether `c` is an ASCII decimal digit.
pub fn is_ascii_digit(c: char) -> (b: bool)
    ensures
        b == is_digit(c),
{
    '0' <= c && c <= '9'
}

/// The entity tag of a well-formed revision holds exactly the revision's text,
/// so reading back (with [`Revision::from_etag`]) the tag that
/// [`Revision::to_etag_string`] renders for a parsed revision gives an equal
/// revision.
pub proof fn lemma_revision_round_trip(s: Seq<char>)
    requires
        is_revision_text(s),
    ensures
        etag_inner(etag_text(s)) == Some(s),
{
    let e = etag_text(s);
    assert(e.subrange(1, e.len() - 1) =~= s);
}

} // verus!
