//! The three ASCII-uppercase transforms and the reference mapping.
//!
//! Every transform replaces each lowercase ASCII letter `a`..`z` in a byte
//! buffer with its uppercase counterpart, in place, and leaves every other
//! byte unchanged.

use vstd::prelude::*;

verus! {

/// Distance between a lowercase ASCII letter and its uppercase counterpart.
pub const CASE_OFFSET: u8 = 'a' as u8 - 'A' as u8;

/// ASCII uppercase fold of a single byte: `a`..`z` maps to `A`..`Z` by a
/// fixed offset; every other byte is unchanged.
pub open spec fn upper_byte(b: u8) -> u8 {
    if 'a' as u8 <= b && b <= 'z' as u8 {
        (b - CASE_OFFSET) as u8
    } else {
        b
    }
}

/// The branchless formulation of the same fold: subtract the offset times a
/// 0/1-valued predicate.
pub open spec fn upper_byte_branchless(b: u8) -> u8 {
    (b - CASE_OFFSET * (if 'a' as u8 <= b && b <= 'z' as u8 {
        1u8
    } else {
        0u8
    })) as u8
}

/// ASCII uppercase fold of a whole byte sequence, element by element.
pub open spec fn spec_upper(s: Seq<u8>) -> Seq<u8> {
    Seq::new(s.len(), |i: int| upper_byte(s[i]))
}

/// The branchless fold applied to a whole byte sequence.
pub open spec fn spec_upper_branchless(s: Seq<u8>) -> Seq<u8> {
    Seq::new(s.len(), |i: int| upper_byte_branchless(s[i]))
}

/// Correctness equivalence: on every byte sequence the branchless fold and
/// the branching fold produce the same result, so all transforms of this
/// module agree with the reference mapping.
pub proof fn lemma_variants_agree(s: Seq<u8>)
    ensures
        spec_upper_branchless(s) == spec_upper(s),
{
    assert(spec_upper_branchless(s) =~= spec_upper(s));
}

/// Idempotence: uppercasing an already uppercased sequence changes nothing.
pub proof fn lemma_upper_idempotent(s: Seq<u8>)
    ensures
        spec_upper(spec_upper(s)) == spec_upper(s),
{
    assert(spec_upper(spec_upper(s)) =~= spec_upper(s));
}

/// Length preservation: the fold never changes the length of a sequence.
pub proof fn lemma_upper_len(s: Seq<u8>)
    ensures
        spec_upper(s).len() == s.len(),
{
}

/// Naive transform: branch on each byte and subtract the offset when it is
/// a lowercase letter.
pub fn to_upper_naive(string: &mut Vec<u8>)
    ensures
        final(string)@ == spec_upper(old(string)@),
        final(string)@.len() == old(string)@.len(),
{
    let ghost orig = string@;
    let n = string.len();
    for i in 0..n
        invariant
            n == orig.len(),
            string@.len() == orig.len(),
            forall|j: int| 0 <= j < i ==> string@[j] == upper_byte(orig[j]),
            forall|j: int| i <= j < orig.len() ==> string@[j] == orig[j],
    {
        let b = string[i];
        if b >= 'a' as u8 && b <= 'z' as u8 {
            string[i] = b - CASE_OFFSET;
        }
    }
    assert(string@ =~= spec_upper(orig));
}

/// Branchless transform: subtract the offset times a 0/1-valued predicate,
/// unconditionally, for every byte.
pub fn to_upper_branchless(string: &mut Vec<u8>)
    ensures
        final(string)@ == spec_upper_branchless(old(string)@),
        final(string)@ == spec_upper(old(string)@),
        final(string)@.len() == old(string)@.len(),
{
    let ghost orig = string@;
    let n = string.len();
    for i in 0..n
        invariant
            n == orig.len(),
            string@.len() == orig.len(),
            forall|j: int| 0 <= j < i ==> string@[j] == upper_byte_branchless(orig[j]),
            forall|j: int| i <= j < orig.len() ==> string@[j] == orig[j],
    {
        let b = string[i];
        let is_lower: u8 = (b >= 'a' as u8 && b <= 'z' as u8) as u8;
        string[i] = b - CASE_OFFSET * is_lower;
    }
    assert(string@ =~= spec_upper_branchless(orig));
    proof {
        lemma_variants_agree(orig);
    }
}

/// Relies on `<[u8]>::make_ascii_uppercase`: converts the buffer to its
/// ASCII upper case equivalent in place; ASCII letters `a`..`z` are mapped
/// to `A`..`Z`, other bytes are unchanged.
#[verifier::external_body]
fn make_ascii_uppercase_in_place(string: &mut Vec<u8>)
    ensures
        final(string)@ == spec_upper(old(string)@),
{
    string.make_ascii_uppercase();
}

/// Standard-library transform: defer to the platform's in-place ASCII
/// uppercase conversion.
pub fn to_upper_rust_std(string: &mut Vec<u8>)
    ensures
        final(string)@ == spec_upper(old(string)@),
        final(string)@.len() == old(string)@.len(),
{
    make_ascii_uppercase_in_place(string);
}

/// Independent reference mapping: a fresh uppercased copy of the input,
/// computed without any of the transforms under test.
pub fn reference_uppercase(string: &Vec<u8>) -> (r: Vec<u8>)
    ensures
        r@ == spec_upper(string@),
{
    let n = string.len();
    let mut out: Vec<u8> = Vec::with_capacity(n);
    for i in 0..n
        invariant
            n == string@.len(),
            out@.len() == i,
            forall|j: int| 0 <= j < i ==> out@[j] == upper_byte(string@[j]),
    {
        let b = string[i];
        if b >= 'a' as u8 && b <= 'z' as u8 {
            out.push(b - CASE_OFFSET);
        } else {
            out.push(b);
        }
    }
    assert(out@ =~= spec_upper(string@));
    out
}

/// Byte-for-byte comparison of two buffers.
pub fn bytes_equal(a: &Vec<u8>, b: &Vec<u8>) -> (r: bool)
    ensures
        r == (a@ == b@),
{
    if a.len() != b.len() {
        assert(a@ != b@);
        return false;
    }
    let n = a.len();
    for i in 0..n
        invariant
            n == a@.len(),
            n == b@.len(),
            forall|j: int| 0 <= j < i ==> a@[j] == b@[j],
    {
        if a[i] != b[i] {
            assert(a@ != b@);
            return false;
        }
    }
    assert(a@ =~= b@);
    true
}

} // verus!
