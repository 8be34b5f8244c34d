//! Random draws, taken from the `rand` crate's generator of the current
//! thread.

use rand::rngs::ThreadRng;
use rand::Rng;
use vstd::prelude::*;

verus! {

/// `rand::rngs::ThreadRng`, a handle to the generator of the current thread.
/// Nothing is known of what it holds.
#[verifier::external_type_specification]
#[verifier::external_body]
pub struct ExThreadRng(ThreadRng);

/// Calls `rand::thread_rng`, which hands out the generator of the current
/// thread. Nothing is promised of the generator. The call takes no argument;
/// it fails only where the operating system has no seed to give.
#[verifier::external_body]
pub(crate) fn thread_generator() -> ThreadRng {
    rand::thread_rng()
}

/// Calls `rand::Rng::gen_range` with the closed range `lo..=hi`. The call
/// panics on an empty range, which the precondition rules out; the value it
/// returns lies in the range.
#[verifier::external_body]
pub(crate) fn uniform_between(rng: &mut ThreadRng, lo: i64, hi: i64) -> (drawn: i64)
    requires
        lo <= hi,
    ensures
        lo <= drawn <= hi,
{
    rng.gen_range(lo..=hi)
}

/// Calls `rand::Rng::gen_ratio`: `true` with probability
/// `numerator / denominator`. The call panics on a zero denominator and on a
/// ratio above one, which the precondition rules out. A ratio of one always
/// gives `true` and a ratio of zero always `false`; nothing else is promised
/// of the outcome.
#[verifier::external_body]
pub(crate) fn chance(rng: &mut ThreadRng, numerator: u32, denominator: u32) -> (hit: bool)
    requires
        denominator > 0,
        numerator <= denominator,
    ensures
        numerator == denominator ==> hit,
        numerator == 0 ==> !hit,
{
    rng.gen_ratio(numerator, denominator)
}

} // verus!
