//! Identities of the input channels that can hold a shape.

use vstd::prelude::*;

verus! {

/// An input channel that may hold at most one grabbed shape at a time.
#[derive(PartialEq, Eq, Structural, Clone, Copy, Debug)]
pub enum DragSource {
    /// The single pointer.
    Mouse,
    /// One touch contact, told apart from the others by its number.
    Touch { id: u64 },
}

impl DragSource {
    /// Whether this source is a touch contact.
    pub fn is_touch(&self) -> (r: bool)
        ensures
            r == (*self is Touch),
    {
        match self {
            DragSource::Touch { id: _ } => true,
            DragSource::Mouse => false,
        }
    }
}

} // verus!
