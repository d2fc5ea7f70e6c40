//! What the session takes from outside crates: identifiers and chance.
use rand::seq::SliceRandom;
use vstd::prelude::*;

verus! {

/// `uuid::Uuid`, the identifier of a Slate. It is carried through unread.
#[verifier::external_type_specification]
#[verifier::external_body]
pub struct ExUuid(uuid::Uuid);

/// `Clone` of `uuid::Uuid`, which the crate derives on a `Copy` type: the clone
/// is the same identifier.
pub assume_specification[ <uuid::Uuid as Clone>::clone ](id: &uuid::Uuid) -> (r: uuid::Uuid)
    ensures
        r == *id,
;

/// `SliceRandom::shuffle` of `rand` with the thread's own generator, `rand::rng`:
/// it swaps items of the slice and does nothing else, so the same addresses are
/// there afterwards, each as often as before. Their order is left to chance. The
/// generator panics where the system gives it no seed, whatever the addresses.
#[verifier::external_body]
pub(crate) fn shuffle_addresses(addresses: &mut Vec<String>)
    ensures
        final(addresses)@.to_multiset() == old(addresses)@.to_multiset(),
{
    addresses.shuffle(&mut rand::rng());
}

} // verus!
