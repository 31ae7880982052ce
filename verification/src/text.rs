//! Text as sequences of characters: equality of string slices and the
//! notion of one text occurring in another.

use vstd::prelude::*;
use vstd::utf8::{decode_utf8, encode_utf8, encode_utf8_decode_utf8};

verus! {

/// Whether two string slices hold the same characters.
pub fn same_text(a: &str, b: &str) -> (same: bool)
    ensures
        same == (a@ == b@),
{
    let x = a.as_bytes();
    let y = b.as_bytes();
    proof {
        encode_utf8_decode_utf8(a@);
        encode_utf8_decode_utf8(b@);
    }
    if x.len() != y.len() {
        return false;
    }
    let mut i: usize = 0;
    while i < x.len()
        invariant
            0 <= i <= x@.len(),
            x@.len() == y@.len(),
            x@ == encode_utf8(a@),
            y@ == encode_utf8(b@),
            decode_utf8(encode_utf8(a@)) == a@,
            decode_utf8(encode_utf8(b@)) == b@,
            forall|j: int| 0 <= j < i ==> x@[j] == y@[j],
        decreases x@.len() - i,
    {
        if x[i] != y[i] {
            return false;
        }
        i += 1;
    }
    assert(x@ =~= y@);
    true
}

/// Whether `part` stands in `whole` from the place `at` on.
pub open spec fn occurs_at(part: Seq<char>, whole: Seq<char>, at: int) -> bool {
    &&& 0 <= at
    &&& at + part.len() <= whole.len()
    &&& whole.subrange(at, at + part.len()) == part
}

/// Whether `part` occurs in `whole`: some stretch of `whole` is `part`.
pub open spec fn occurs_in(part: Seq<char>, whole: Seq<char>) -> bool {
    exists|at: int| occurs_at(part, whole, at)
}

/// A text occurs in whatever is put together around it.
pub proof fn lemma_occurs_between(before: Seq<char>, part: Seq<char>, after: Seq<char>)
    ensures
        occurs_in(part, before + part + after),
{
    let whole = before + part + after;
    let at = before.len() as int;
    assert(whole.subrange(at, at + part.len()) =~= part);
    assert(occurs_at(part, whole, at));
}

/// What occurs in a text occurs in every text that ends with it.
pub proof fn lemma_occurs_behind(part: Seq<char>, whole: Seq<char>, before: Seq<char>)
    requires
        occurs_in(part, whole),
    ensures
        occurs_in(part, before + whole),
{
    let at = choose|at: int| occurs_at(part, whole, at);
    let longer = before + whole;
    let moved = before.len() as int + at;
    assert(longer.subrange(moved, moved + part.len()) =~= whole.subrange(at, at + part.len()));
    assert(occurs_at(part, longer, moved));
}

/// What occurs in a text occurs in every text that starts with it.
pub proof fn lemma_occurs_ahead(part: Seq<char>, whole: Seq<char>, after: Seq<char>)
    requires
        occurs_in(part, whole),
    ensures
        occurs_in(part, whole + after),
{
    let at = choose|at: int| occurs_at(part, whole, at);
    let longer = whole + after;
    assert(longer.subrange(at, at + part.len()) =~= whole.subrange(at, at + part.len()));
    assert(occurs_at(part, longer, at));
}

} // verus!
