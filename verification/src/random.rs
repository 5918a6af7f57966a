//! Random draws, handed to the `rand` crate.
use vstd::prelude::*;

use rand::seq::IndexedRandom;

verus! {

/// Draws one item of `pool` with `rand`'s `IndexedRandom::choose` on the
/// thread-local generator `rand::rng()`. The contract claims what `choose`
/// documents and its source shows: nothing for an empty slice, otherwise an
/// element of the slice. Which element comes out rests on chance and is not
/// stated.
#[verifier::external_body]
pub(crate) fn choose_from<T: Copy>(pool: &[T]) -> (r: Option<T>)
    ensures
        pool@.len() == 0 <==> r is None,
        r matches Some(x) ==> pool@.contains(x),
{
    pool.choose(&mut rand::rng()).copied()
}

} // verus!
