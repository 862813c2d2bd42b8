//! The random draws the study session makes, each behind a contract that
//! holds of every outcome.

use rand::seq::SliceRandom;
use rand::Rng;
use vstd::prelude::*;

verus! {

/// `rand::Rng::gen_range` over `0..bound` on the thread-local generator:
/// some index below `bound`. Sampling an empty range panics, so `bound` must
/// be positive.
#[verifier::external_body]
pub(crate) fn index_below(bound: usize) -> (index: usize)
    requires
        bound > 0,
    ensures
        index < bound,
{
    rand::thread_rng().gen_range(0..bound)
}

/// `rand::seq::SliceRandom::choose` on the thread-local generator: nothing for
/// an empty slice, otherwise a reference to one of the slice's elements.
#[verifier::external_body]
pub(crate) fn pick<'a, T>(items: &'a [T]) -> (picked: Option<&'a T>)
    ensures
        picked is None <==> items@.len() == 0,
        picked matches Some(item) ==> exists|i: int| 0 <= i < items@.len() && items@[i] == *item,
{
    items.choose(&mut rand::thread_rng())
}

/// `rand::seq::SliceRandom::shuffle` on the thread-local generator: the same
/// elements, each as often as before, in some order.
#[verifier::external_body]
pub(crate) fn shuffle<T>(items: &mut Vec<T>)
    ensures
        final(items)@.to_multiset() == old(items)@.to_multiset(),
{
    items.shuffle(&mut rand::thread_rng())
}

} // verus!
