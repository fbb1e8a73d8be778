//! Keeping a component over a pause.

use vstd::prelude::*;

verus! {

/// A component as it was when the game was left.
#[derive(Clone, Copy, Debug)]
pub struct Cached<T>(pub T);

/// Keeps the component of one entity in the entity's cache slot, over
/// whatever the slot held.
pub fn store<T: Copy>(component: &T, slot: &mut Option<Cached<T>>)
    ensures
        *final(slot) == Some(Cached(*component)),
{
    *slot = Some(Cached(*component));
}

/// Gives the component of one entity back what its cache slot holds, to
/// the last bit, and empties the slot. With an empty slot nothing changes.
pub fn restore<T: Copy>(component: &mut T, slot: &mut Option<Cached<T>>)
    ensures
        *final(slot) == None::<Cached<T>>,
        *final(component) == match *old(slot) {
            Some(cached) => cached.0,
            None => *old(component),
        },
{
    if let Some(cached) = slot.take() {
        *component = cached.0;
    }
}

} // verus!
