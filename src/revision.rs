//! Opaque, totally ordered revision tokens.

use core::cmp::Ordering;
use vstd::prelude::*;
use vstd::std_specs::cmp::{PartialEqSpec, PartialOrdSpec};
use vstd::utf8::{encode_utf8, encode_utf8_decode_utf8};

verus! {

/// Byte-wise lexicographic order of two byte strings: the first differing
/// byte decides, and a proper prefix comes first.
pub open spec fn lex_order(a: Seq<u8>, b: Seq<u8>) -> Ordering
    decreases a.len(),
{
    if a.len() == 0 {
        if b.len() == 0 {
            Ordering::Equal
        } else {
            Ordering::Less
        }
    } else if b.len() == 0 {
        Ordering::Greater
    } else if a[0] < b[0] {
        Ordering::Less
    } else if a[0] > b[0] {
        Ordering::Greater
    } else {
        lex_order(a.drop_first(), b.drop_first())
    }
}

/// Order of two texts as compared through their UTF-8 bytes.
pub open spec fn text_order(a: Seq<char>, b: Seq<char>) -> Ordering {
    lex_order(encode_utf8(a), encode_utf8(b))
}

/// A revision token as handed out by the database server.
///
/// The token is never parsed: equality and order are those of its text,
/// compared byte by byte.
#[derive(Debug, Ord)]
pub struct Revision(String);

impl View for Revision {
    type V = Seq<char>;

    closed spec fn view(&self) -> Seq<char> {
        self.0@
    }
}

/// Wraps a token received from elsewhere into a `Revision`.
pub fn new_revision_from_string(rev: String) -> (r: Revision)
    ensures
        r@ == rev@,
{
    Revision::from_string(rev)
}

impl Revision {
    /// Takes ownership of `s` as the token's text; no format is checked.
    pub fn from_string(s: String) -> (r: Revision)
        ensures
            r@ == s@,
    {
        Revision(s)
    }

    /// Borrowed view of the token's text.
    pub fn as_text(&self) -> (r: &str)
        ensures
            r@ == self@,
    {
        self.0.as_str()
    }

    /// The token's text, as an owned string.
    pub fn display(&self) -> (r: String)
        ensures
            r@ == self@,
    {
        self.0.clone()
    }

    /// Compares the two tokens' texts byte by byte.
    pub fn compare(&self, other: &Revision) -> (r: Ordering)
        ensures
            r == text_order(self@, other@),
    {
        let a: &[u8] = self.0.as_str().as_bytes();
        let b: &[u8] = other.0.as_str().as_bytes();
        let mut i: usize = 0;
        proof {
            assert(a@.skip(0) =~= a@);
            assert(b@.skip(0) =~= b@);
        }
        while i < a.len() && i < b.len()
            invariant
                a@ == encode_utf8(self@),
                b@ == encode_utf8(other@),
                i <= a@.len(),
                i <= b@.len(),
                lex_order(a@, b@) == lex_order(a@.skip(i as int), b@.skip(i as int)),
            decreases a.len() - i,
        {
            if a[i] < b[i] {
                return Ordering::Less;
            } else if a[i] > b[i] {
                return Ordering::Greater;
            }
            proof {
                assert(a@.skip(i as int).drop_first() =~= a@.skip(i + 1));
                assert(b@.skip(i as int).drop_first() =~= b@.skip(i + 1));
            }
            i = i + 1;
        }
        if i < b.len() {
            Ordering::Less
        } else if i < a.len() {
            Ordering::Greater
        } else {
            Ordering::Equal
        }
    }
}

impl AsRef<str> for Revision {
    fn as_ref(&self) -> (r: &str)
        ensures
            r@ == self@,
    {
        self.as_text()
    }
}

impl Clone for Revision {
    /// An independent copy holding the same text.
    fn clone(&self) -> (r: Self)
        ensures
            r@ == self@,
    {
        new_revision_from_string(self.display())
    }
}

impl PartialEq for Revision {
    fn eq(&self, other: &Revision) -> (r: bool) {
        self.0 == other.0
    }
}

impl vstd::std_specs::cmp::PartialEqSpecImpl for Revision {
    open spec fn obeys_eq_spec() -> bool {
        true
    }

    open spec fn eq_spec(&self, other: &Revision) -> bool {
        self@ == other@
    }
}

impl Eq for Revision {
}

impl PartialOrd for Revision {
    fn partial_cmp(&self, other: &Revision) -> (r: Option<Ordering>) {
        Some(self.compare(other))
    }
}

impl vstd::std_specs::cmp::PartialOrdSpecImpl for Revision {
    open spec fn obeys_partial_cmp_spec() -> bool {
        true
    }

    open spec fn partial_cmp_spec(&self, other: &Revision) -> Option<Ordering> {
        Some(text_order(self@, other@))
    }
}

proof fn lemma_lex_order_equal(a: Seq<u8>, b: Seq<u8>)
    ensures
        lex_order(a, b) == Ordering::Equal <==> a == b,
    decreases a.len(),
{
    if a.len() == 0 && b.len() == 0 {
        assert(a =~= b);
    } else if a.len() > 0 && b.len() > 0 && a[0] == b[0] {
        lemma_lex_order_equal(a.drop_first(), b.drop_first());
        if a.drop_first() == b.drop_first() {
            assert(a =~= b) by {
                assert forall|k: int| 0 <= k < a.len() implies a[k] == b[k] by {
                    if k > 0 {
                        assert(a[k] == a.drop_first()[k - 1]);
                        assert(b[k] == b.drop_first()[k - 1]);
                    }
                }
            }
        }
    } else if a.len() > 0 && b.len() > 0 {
        assert(a[0] != b[0]);
    }
}

proof fn lemma_lex_order_flip(a: Seq<u8>, b: Seq<u8>)
    ensures
        lex_order(a, b) == Ordering::Less <==> lex_order(b, a) == Ordering::Greater,
    decreases a.len(),
{
    if a.len() > 0 && b.len() > 0 && a[0] == b[0] {
        lemma_lex_order_flip(a.drop_first(), b.drop_first());
    }
}

proof fn lemma_lex_order_transitive(a: Seq<u8>, b: Seq<u8>, c: Seq<u8>)
    requires
        lex_order(a, b) == Ordering::Less,
        lex_order(b, c) == Ordering::Less,
    ensures
        lex_order(a, c) == Ordering::Less,
    decreases a.len(),
{
    if a.len() > 0 && b.len() > 0 && c.len() > 0 && a[0] == b[0] && b[0] == c[0] {
        lemma_lex_order_transitive(a.drop_first(), b.drop_first(), c.drop_first());
    }
}

proof fn lemma_text_order_equal(a: Seq<char>, b: Seq<char>)
    ensures
        text_order(a, b) == Ordering::Equal <==> a == b,
{
    lemma_lex_order_equal(encode_utf8(a), encode_utf8(b));
    encode_utf8_decode_utf8(a);
    encode_utf8_decode_utf8(b);
}

/// Two revisions made from texts `a` and `b` are equal exactly when the
/// texts are equal, and they then compare as `Equal`, and only then.
pub proof fn lemma_revision_equality_is_text_equality(
    a: String,
    b: String,
    ra: Revision,
    rb: Revision,
)
    requires
        ra@ == a@,
        rb@ == b@,
    ensures
        ra.eq_spec(&rb) <==> a@ == b@,
        ra.partial_cmp_spec(&rb) == Some(Ordering::Equal) <==> a@ == b@,
{
    lemma_text_order_equal(a@, b@);
}

/// A revision made from `a` sorts before one made from `b` exactly when the
/// UTF-8 bytes of `a` come first in lexicographic order, and then the second
/// sorts after the first.
pub proof fn lemma_revision_order_is_text_order(a: String, b: String, ra: Revision, rb: Revision)
    requires
        ra@ == a@,
        rb@ == b@,
    ensures
        ra.partial_cmp_spec(&rb) == Some(Ordering::Less) <==> lex_order(
            encode_utf8(a@),
            encode_utf8(b@),
        ) == Ordering::Less,
        ra.partial_cmp_spec(&rb) == Some(Ordering::Less) <==> rb.partial_cmp_spec(&ra) == Some(
            Ordering::Greater,
        ),
{
    lemma_lex_order_flip(encode_utf8(a@), encode_utf8(b@));
}

/// Revisions are totally ordered: any two compare, and `<` is transitive.
pub proof fn lemma_revision_order_is_total(r1: Revision, r2: Revision, r3: Revision)
    ensures
        r1.partial_cmp_spec(&r2) is Some,
        r1.partial_cmp_spec(&r2) == Some(Ordering::Less) && r2.partial_cmp_spec(&r3) == Some(
            Ordering::Less,
        ) ==> r1.partial_cmp_spec(&r3) == Some(Ordering::Less),
{
    if text_order(r1@, r2@) == Ordering::Less && text_order(r2@, r3@) == Ordering::Less {
        lemma_lex_order_transitive(encode_utf8(r1@), encode_utf8(r2@), encode_utf8(r3@));
    }
}

/// Rendering a revision made from `s` gives back `s`.
pub proof fn lemma_display_round_trip(s: String, r: Revision, shown: String)
    requires
        r@ == s@,
        shown@ == r@,
    ensures
        shown@ == s@,
{
}

} // verus!
