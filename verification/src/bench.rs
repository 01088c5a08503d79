//! The timed benchmark runner.
//!
//! One invocation measures one transform variant over a number of rounds.
//! Each round generates a fresh random string, times the transform on a
//! copy, and validates the result byte-for-byte against the independent
//! reference mapping. A mismatch aborts the variant's run with no timing;
//! otherwise the average per-call latency in microseconds is reported.
//! Because every transform of this library provably agrees with the
//! reference, the runner provably reports a timing.

use vstd::prelude::*;

use crate::random::generate_random_string;
use crate::upper::bytes_equal;
use crate::upper::reference_uppercase;
use crate::upper::spec_upper;
use crate::upper::to_upper_branchless;
use crate::upper::to_upper_naive;
use crate::upper::to_upper_rust_std;

verus! {

/// The transform variants under comparison.
#[derive(Clone, Copy, Debug, PartialEq, Eq, Structural)]
pub enum Variant {
    /// Branch on each byte, subtract the offset on lowercase letters.
    Naive,
    /// Subtract the offset times a 0/1-valued predicate, unconditionally.
    Branchless,
    /// The standard library's in-place ASCII uppercase conversion.
    RustStd,
}

/// Apply the chosen transform variant in place. All variants realize the
/// same mapping.
pub fn apply_variant(variant: Variant, string: &mut Vec<u8>)
    ensures
        final(string)@ == spec_upper(old(string)@),
{
    match variant {
        Variant::Naive => to_upper_naive(string),
        Variant::Branchless => to_upper_branchless(string),
        Variant::RustStd => to_upper_rust_std(string),
    }
}

#[verifier::external_type_specification]
#[verifier::external_body]
pub struct ExInstant(std::time::Instant);

/// Relies on `std::time::Instant::now`: a reading of the monotonic clock.
/// Nothing can be promised of its value.
#[verifier::external_body]
fn clock_now() -> std::time::Instant {
    std::time::Instant::now()
}

/// Relies on `std::time::Instant::elapsed`: the time since the reading was
/// taken, handed out as a whole number of nanoseconds. Nothing can be
/// promised of its value.
#[verifier::external_body]
fn nanos_since(start: &std::time::Instant) -> u128 {
    start.elapsed().as_nanos()
}

/// Copy a byte buffer.
fn clone_bytes(string: &Vec<u8>) -> (r: Vec<u8>)
    ensures
        r@ == string@,
{
    let n = string.len();
    let mut out: Vec<u8> = Vec::with_capacity(n);
    for i in 0..n
        invariant
            n == string@.len(),
            out@.len() == i,
            forall|j: int| 0 <= j < i ==> out@[j] == string@[j],
    {
        out.push(string[i]);
    }
    assert(out@ =~= string@);
    out
}

/// Measure one transform variant over the given number of rounds at the
/// given string length. Each round's output is validated against the
/// independent reference mapping; a mismatch would end the run with no
/// timing, and since every variant provably matches the reference, a
/// timing is always reported: the average per-call latency in whole
/// microseconds.
pub fn benchmark(variant: Variant, rounds: u32, string_len: usize) -> (r: Option<u128>)
    requires
        rounds >= 1,
        string_len >= 1,
    ensures
        r is Some,
{
    let mut total_nanos: u128 = 0;
    let mut round: u32 = 0;
    while round < rounds
        invariant
            round <= rounds,
            string_len >= 1,
        decreases rounds - round,
    {
        let string = generate_random_string(string_len);
        let mut output = clone_bytes(&string);
        let start = clock_now();
        apply_variant(variant, &mut output);
        let elapsed = nanos_since(&start);
        total_nanos = if total_nanos <= u128::MAX - elapsed {
            total_nanos + elapsed
        } else {
            u128::MAX
        };
        let expected = reference_uppercase(&string);
        if !bytes_equal(&output, &expected) {
            return None;
        }
        round = round + 1;
    }
    Some((total_nanos / (rounds as u128)) / 1000)
}

} // verus!
