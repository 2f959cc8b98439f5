//! Random draws. Every draw goes through the thread-local generator of `rand`;
//! the contracts say only what holds of every outcome.

use rand::seq::SliceRandom;
use rand::Rng;
use vstd::prelude::*;

verus! {

/// Relies on `rand::Rng::gen_range` over an inclusive range of `i32`: the
/// value lies in `[lo, hi]`; the range must not be empty, or the call panics.
#[verifier::external_body]
pub(crate) fn roll(lo: i32, hi: i32) -> (r: i32)
    requires
        lo <= hi,
    ensures
        lo <= r <= hi,
{
    rand::thread_rng().gen_range(lo..=hi)
}

/// Relies on `rand::seq::SliceRandom::choose`: one element of a non-empty
/// slice (an empty one gives `None`, which is not allowed here).
#[verifier::external_body]
pub(crate) fn pick<T: Copy>(v: &Vec<T>) -> (r: T)
    requires
        v@.len() > 0,
    ensures
        v@.contains(r),
{
    *v.as_slice().choose(&mut rand::thread_rng()).unwrap()
}

/// Relies on `rand::seq::SliceRandom::shuffle`: the elements are permuted in
/// place (a sequence of swaps), none added or lost.
#[verifier::external_body]
pub(crate) fn shuffle<T>(v: &mut Vec<T>)
    ensures
        final(v)@.to_multiset() == old(v)@.to_multiset(),
{
    v.as_mut_slice().shuffle(&mut rand::thread_rng())
}

} // verus!
