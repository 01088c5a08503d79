//! Random alphanumeric string generation.
//!
//! Each generated byte is drawn, with replacement, from the fixed
//! 62-symbol alphabet `a`..`z`, `A`..`Z`, `0`..`9`, using the process-wide
//! random source.

use vstd::prelude::*;

verus! {

/// Number of symbols in the alphanumeric alphabet.
pub const ALPHABET_SIZE: usize = 62;

/// The alphabet, indexed: positions 0..26 are `a`..`z`, 26..52 are
/// `A`..`Z`, and 52..62 are `0`..`9`.
pub open spec fn alphabet_char(i: int) -> u8 {
    if i < 26 {
        ('a' as u8 + i) as u8
    } else if i < 52 {
        ('A' as u8 + (i - 26)) as u8
    } else {
        ('0' as u8 + (i - 52)) as u8
    }
}

/// Membership in the alphanumeric alphabet.
pub open spec fn in_alphabet(b: u8) -> bool {
    ('a' as u8 <= b && b <= 'z' as u8) || ('A' as u8 <= b && b <= 'Z' as u8) || ('0' as u8 <= b
        && b <= '9' as u8)
}

/// Every indexed alphabet symbol is an alphanumeric byte.
pub proof fn lemma_alphabet_char_in_alphabet(i: int)
    requires
        0 <= i < ALPHABET_SIZE,
    ensures
        in_alphabet(alphabet_char(i)),
{
}

#[verifier::external_type_specification]
#[verifier::external_body]
pub struct ExThreadRng(rand::rngs::ThreadRng);

/// Relies on `rand::thread_rng`: a handle to the lazily-initialized,
/// process-wide random source.
#[verifier::external_body]
fn fresh_rng() -> rand::rngs::ThreadRng {
    rand::thread_rng()
}

/// Relies on `rand::Rng::gen_range` over `0..bound`: panics on an empty
/// range, otherwise returns a uniformly sampled value below the bound.
#[verifier::external_body]
fn random_index(rng: &mut rand::rngs::ThreadRng, bound: usize) -> (r: usize)
    requires
        bound > 0,
    ensures
        r < bound,
{
    rand::Rng::gen_range(rng, 0..bound)
}

/// The alphabet symbol at a given position.
fn alphabet_byte(i: usize) -> (r: u8)
    requires
        i < ALPHABET_SIZE,
    ensures
        r == alphabet_char(i as int),
{
    if i < 26 {
        'a' as u8 + i as u8
    } else if i < 52 {
        'A' as u8 + (i as u8 - 26)
    } else {
        '0' as u8 + (i as u8 - 52)
    }
}

/// Produce a fresh string of the requested length whose bytes are drawn
/// uniformly, with replacement, from the alphanumeric alphabet.
pub fn generate_random_string(string_len: usize) -> (r: Vec<u8>)
    ensures
        r@.len() == string_len,
        forall|i: int| 0 <= i < r@.len() ==> in_alphabet(r@[i]),
{
    let mut rng = fresh_rng();
    let mut string: Vec<u8> = Vec::with_capacity(string_len);
    for k in 0..string_len
        invariant
            string@.len() == k,
            forall|i: int| 0 <= i < string@.len() ==> in_alphabet(string@[i]),
    {
        let idx = random_index(&mut rng, ALPHABET_SIZE);
        let b = alphabet_byte(idx);
        proof {
            lemma_alphabet_char_in_alphabet(idx as int);
        }
        string.push(b);
    }
    string
}

} // verus!
