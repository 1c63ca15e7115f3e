//! What becomes of a shape when it is released.

use vstd::prelude::*;
use crate::components::BodyKind;

verus! {

/// The body of a released shape: simulated where some shape is locked or the
/// released one was locked when it was grabbed, fixed (and so locked)
/// otherwise.
pub open spec fn release_rule(any_locked: bool, was_locked: bool) -> BodyKind {
    if any_locked || was_locked {
        BodyKind::Dynamic
    } else {
        BodyKind::Fixed
    }
}

/// Decides the body of a released shape.
pub fn release(any_locked: bool, was_locked: bool) -> (body: BodyKind)
    ensures
        body == release_rule(any_locked, was_locked),
{
    if any_locked || was_locked {
        BodyKind::Dynamic
    } else {
        BodyKind::Fixed
    }
}

} // verus!
