use vstd::prelude::*;

verus! {

/// The hash builder of the `ahash` crate; Verus sees nothing inside it.
#[verifier::external_type_specification]
#[verifier::external_body]
pub struct ExRandomState(ahash::RandomState);

/// A set of wayland object ids hashed with `ahash::RandomState`.
pub type IdSet = ahash::HashSet<u32>;

/// Calls `HashSet::insert` on a set hashed with `ahash::RandomState`. The contract claims
/// that the set afterwards holds what it held and `id`, and that the result tells whether
/// `id` was new. This rests on ahash's documented promise that hashers built from one
/// `RandomState` hash equal input alike.
#[verifier::external_body]
pub(crate) fn id_set_insert(set: &mut IdSet, id: u32) -> (added: bool)
    ensures
        final(set)@ == old(set)@.insert(id),
        added == !old(set)@.contains(id),
{
    set.insert(id)
}

/// Calls `HashSet::remove` on a set hashed with `ahash::RandomState`. The contract claims
/// that `id` is taken out and nothing else changes, and that the result tells whether
/// `id` was there; it rests on the same promise of ahash as `id_set_insert`.
#[verifier::external_body]
pub(crate) fn id_set_remove(set: &mut IdSet, id: &u32) -> (removed: bool)
    ensures
        final(set)@ == old(set)@.remove(*id),
        removed == old(set)@.contains(*id),
{
    set.remove(id)
}

} // verus!
