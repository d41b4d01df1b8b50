use vstd::prelude::*;
use rand::rngs::ThreadRng;
use rand::seq::SliceRandom;

verus! {

/// The thread-local random number generator of `rand`.
#[verifier::external_type_specification]
#[verifier::external_body]
pub struct ExThreadRng(ThreadRng);

/// `rand::thread_rng()`: hands out the thread's generator. Nothing is
/// claimed of its state.
#[verifier::external_body]
pub(crate) fn thread_rng() -> (r: ThreadRng) {
    rand::thread_rng()
}

/// `SliceRandom::choose` on the items: `None` exactly for an empty slice,
/// else one of the items (which one is left to chance). Claimed: the result
/// is `None` iff there are no items, and a returned value is one of them.
#[verifier::external_body]
pub(crate) fn choose_from(items: &Vec<usize>, rng: &mut ThreadRng) -> (r: Option<usize>)
    ensures
        r is None <==> items.len() == 0,
        r matches Some(x) ==> items@.contains(x),
{
    items.choose(rng).copied()
}

/// Picks one of `items` at random, `None` when there is none.
pub fn pick_one(items: &Vec<usize>) -> (r: Option<usize>)
    ensures
        r is None <==> items.len() == 0,
        r matches Some(x) ==> items@.contains(x),
{
    let mut rng = thread_rng();
    choose_from(items, &mut rng)
}

} // verus!
