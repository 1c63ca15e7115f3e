//! What the input side reports, and what the drag rules report back.

use vstd::prelude::*;
use crate::components::BodyKind;
use crate::geometry::Point;
use crate::source::DragSource;

verus! {

/// A source went down at a position.
#[derive(PartialEq, Eq, Structural, Clone, Copy, Debug)]
pub struct DragStartEvent {
    pub drag_source: DragSource,
    pub position: Point,
}

/// A source moved to a position.
#[derive(PartialEq, Eq, Structural, Clone, Copy, Debug)]
pub struct DragMoveEvent {
    pub drag_source: DragSource,
    pub new_position: Point,
}

/// A source went up.
#[derive(PartialEq, Eq, Structural, Clone, Copy, Debug)]
pub struct DragEndEvent {
    pub drag_source: DragSource,
}

/// The held shapes are to turn by an angle and then, where a resolution is
/// given, to snap to its nearest multiple.
#[derive(PartialEq, Eq, Structural, Clone, Copy, Debug)]
pub struct RotateEvent {
    pub angle: i32,
    pub snap_resolution: Option<u32>,
}

/// A body that the physics engine found under a point, where it is and how
/// it is turned.
#[derive(PartialEq, Eq, Structural, Clone, Copy, Debug)]
pub struct Hit {
    pub entity: u64,
    pub translation: Point,
    pub rotation: i32,
}

/// What a drag start led to.
#[derive(PartialEq, Eq, Structural, Clone, Copy, Debug)]
pub enum StartOutcome {
    /// The event was passed over: a touch after a mouse start in the same
    /// pass, or a source that holds a shape already.
    Ignored,
    /// Nothing free was under the point, and no gesture began.
    Missed,
    /// The shape is now held. `unlocked` says that it was locked and that
    /// its lock is gone.
    Grabbed { entity: u64, unlocked: bool },
    /// A turning gesture began.
    Gesture,
}

/// What a drag move led to.
#[derive(PartialEq, Eq, Structural, Clone, Copy, Debug)]
pub enum MoveOutcome {
    /// The source holds no shape and turns none.
    Unmatched,
    /// The held shape has a new target.
    Moved { entity: u64, target: Point },
    /// A turning gesture went from `previous` to `current` about `centre`.
    Twist { centre: Point, previous: Point, current: Point },
    /// A turning gesture had outlived the drag it turned, and is gone.
    Stale,
}

/// What a drag end led to.
#[derive(PartialEq, Eq, Structural, Clone, Copy, Debug)]
pub enum EndOutcome {
    /// The source held no shape.
    Unmatched,
    /// The shape was released with the given body: fixed means locked.
    Released { entity: u64, body: BodyKind },
}

} // verus!
