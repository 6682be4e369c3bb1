//! Random choice, through the `rand` crate.

use vstd::prelude::*;
use rand::rngs::StdRng;
use rand::seq::SliceRandom;

verus! {

/// The `rand` crate's standard generator, carried through opaquely.
#[verifier::external_type_specification]
#[verifier::external_body]
pub struct ExStdRng(StdRng);

/// rand's `SliceRandom::choose` on a slice. Trusted: the contract claims
/// what rand 0.8's source shows, `None` exactly for an empty slice and
/// otherwise a reference to one of its items; which item is left open.
#[verifier::external_body]
pub(crate) fn choose_from<'a, T>(items: &'a [T], rng: &mut StdRng) -> (r: Option<&'a T>)
    ensures
        items@.len() == 0 <==> r is None,
        r matches Some(x) ==> items@.contains(*x),
{
    items.choose(rng)
}

} // verus!
