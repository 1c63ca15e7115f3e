//! What a shape on the playfield carries: its body, its lock, the drag that
//! holds it.

use vstd::prelude::*;
use crate::geometry::Point;
use crate::source::DragSource;

verus! {

/// How the physics engine treats a body.
#[derive(PartialEq, Eq, Structural, Clone, Copy, Debug)]
pub enum BodyKind {
    /// Moved by the simulation: gravity and collisions apply.
    Dynamic,
    /// Moved by the player; the simulation only follows.
    KinematicPositionBased,
    /// Immovable.
    Fixed,
}

/// The drag that holds a shape, from grab to release.
#[derive(PartialEq, Eq, Structural, Clone, Copy, Debug)]
pub struct Dragged {
    /// Where the shape was when it was grabbed.
    pub origin: Point,
    /// From the grab point to `origin`.
    pub offset: Point,
    /// The source that holds the shape.
    pub drag_source: DragSource,
    /// Whether the shape was locked when it was grabbed.
    pub was_locked: bool,
}

/// A shape that the player may pick up.
#[derive(PartialEq, Eq, Structural, Clone, Copy, Debug)]
pub struct Draggable {
    /// The identity of the shape.
    pub entity: u64,
    /// The last position that the playfield knows the shape at.
    pub translation: Point,
    /// The last orientation that the playfield knows the shape in.
    pub rotation: i32,
    /// How the physics engine treats the shape.
    pub body: BodyKind,
    /// Whether the shape is locked: immovable until it is grabbed again.
    pub locked: bool,
    /// The drag that holds the shape, if one does.
    pub dragged: Option<Dragged>,
}

/// A second touch that turns the shape held by a first one.
#[derive(PartialEq, Eq, Structural, Clone, Copy, Debug)]
pub struct TouchRotate {
    /// Where the touch was last seen.
    pub previous: Point,
    /// The point that the touch turns about.
    pub centre: Point,
    /// The number of the touch.
    pub touch_id: u64,
}

/// The mark drawn over a locked shape.
#[derive(PartialEq, Eq, Structural, Clone, Copy, Debug)]
pub struct Padlock {
    /// The locked shape.
    pub shape: u64,
    /// Where the mark is drawn.
    pub translation: Point,
}

/// The second camera, which follows a shape dragged by touch.
#[derive(PartialEq, Eq, Structural, Clone, Copy, Debug)]
pub struct ZoomCamera {
    /// Whether the camera renders.
    pub active: bool,
    /// How much of the playfield the camera shows, in thousandths.
    pub scale: u16,
    /// Where the camera looks.
    pub translation: Point,
}

impl Draggable {
    /// A shape fresh on the playfield: simulated, neither locked nor held,
    /// and upright until a grab finds it otherwise.
    pub open spec fn fresh(entity: u64, translation: Point) -> Draggable {
        Draggable { entity, translation, rotation: 0, body: BodyKind::Dynamic, locked: false, dragged: None }
    }

    /// Whether a drag holds this shape.
    pub open spec fn is_held(self) -> bool {
        self.dragged is Some
    }

    /// Whether `source` holds this shape.
    pub open spec fn is_held_by(self, source: DragSource) -> bool {
        self.dragged matches Some(d) && d.drag_source == source
    }

    /// Whether a touch holds this shape.
    pub open spec fn is_held_by_touch(self) -> bool {
        self.dragged matches Some(d) && d.drag_source is Touch
    }

    /// Body, lock and drag agree: a held shape is kinematic and unlocked, a
    /// locked one fixed, any other simulated.
    pub open spec fn consistent(self) -> bool {
        &&& self.is_held() ==> self.body == BodyKind::KinematicPositionBased && !self.locked
        &&& self.locked ==> self.body == BodyKind::Fixed
        &&& !self.is_held() && !self.locked ==> self.body == BodyKind::Dynamic
    }

    /// The mark drawn over this shape: one where it is locked, none
    /// otherwise.
    pub open spec fn padlock(self) -> Option<Padlock> {
        if self.locked {
            Some(Padlock { shape: self.entity, translation: self.translation })
        } else {
            None
        }
    }

    /// The mark to draw over this shape, if it is locked.
    pub fn add_padlock(&self) -> (r: Option<Padlock>)
        ensures
            r == self.padlock(),
    {
        if self.locked {
            Some(Padlock { shape: self.entity, translation: self.translation })
        } else {
            None
        }
    }

    /// Whether a drag holds this shape.
    pub fn is_dragged(&self) -> (r: bool)
        ensures
            r == self.is_held(),
    {
        self.dragged.is_some()
    }
}

} // verus!
