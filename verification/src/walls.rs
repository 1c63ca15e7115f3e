//! The four walls around the playfield.

use vstd::prelude::*;
use crate::geometry::{Arena, Point, WALL_WIDTH, WINDOW_HEIGHT, WINDOW_WIDTH};

verus! {

/// A wall: a rectangle, given by its middle and its extents.
#[derive(PartialEq, Eq, Structural, Clone, Copy, Debug)]
pub struct Wall {
    /// Where the middle of the wall is.
    pub position: Point,
    /// The extent of the wall from left to right.
    pub width: i32,
    /// The extent of the wall from bottom to top.
    pub height: i32,
}

/// Which of the four walls.
#[derive(PartialEq, Eq, Structural, Clone, Copy, Debug)]
pub enum Side {
    Bottom,
    Top,
    Left,
    Right,
}

impl Side {
    /// The name of the wall on this side, as characters.
    pub open spec fn label(self) -> Seq<char> {
        match self {
            Side::Bottom => "Bottom-Wall"@,
            Side::Top => "Top-Wall"@,
            Side::Left => "Left-Wall"@,
            Side::Right => "Right-Wall"@,
        }
    }

    /// The wall on this side: it lies against the window from outside, its
    /// middle half a wall's thickness beyond the window's edge. The walls
    /// at the bottom and at the top reach a wall's thickness beyond the
    /// window on either side.
    pub open spec fn wall(self) -> Wall {
        match self {
            Side::Bottom => Wall { position: Point { x: 0, y: -500i32 }, width: 1080, height: 360 },
            Side::Top => Wall { position: Point { x: 0, y: 500 }, width: 1080, height: 360 },
            Side::Left => Wall { position: Point { x: -360i32, y: 0 }, width: 360, height: 640 },
            Side::Right => Wall { position: Point { x: 360, y: 0 }, width: 360, height: 640 },
        }
    }

    /// The name of the wall on this side.
    pub fn name(&self) -> (name: &'static str)
        ensures
            name@ == self.label(),
    {
        match self {
            Side::Bottom => "Bottom-Wall",
            Side::Top => "Top-Wall",
            Side::Left => "Left-Wall",
            Side::Right => "Right-Wall",
        }
    }

    /// The wall on this side.
    pub fn spawn_wall(&self) -> (wall: Wall)
        ensures
            wall == self.wall(),
    {
        let offset: i32 = WALL_WIDTH / 2;
        let extra: i32 = WALL_WIDTH * 2;
        match self {
            Side::Bottom => Wall {
                position: Point { x: 0, y: -WINDOW_HEIGHT / 2 - offset },
                width: WINDOW_WIDTH + extra,
                height: WALL_WIDTH,
            },
            Side::Top => Wall {
                position: Point { x: 0, y: WINDOW_HEIGHT / 2 + offset },
                width: WINDOW_WIDTH + extra,
                height: WALL_WIDTH,
            },
            Side::Left => Wall {
                position: Point { x: -WINDOW_WIDTH / 2 - offset, y: 0 },
                width: WALL_WIDTH,
                height: WINDOW_HEIGHT,
            },
            Side::Right => Wall {
                position: Point { x: WINDOW_WIDTH / 2 + offset, y: 0 },
                width: WALL_WIDTH,
                height: WINDOW_HEIGHT,
            },
        }
    }
}

impl Wall {
    /// Whether the point lies inside the wall, its border left out.
    pub open spec fn covers(self, p: Point) -> bool {
        &&& 2 * (self.position.x - p.x) < self.width
        &&& 2 * (p.x - self.position.x) < self.width
        &&& 2 * (self.position.y - p.y) < self.height
        &&& 2 * (p.y - self.position.y) < self.height
    }
}

/// The four walls: bottom, top, left, right.
pub fn spawn_walls() -> (walls: Vec<(Side, Wall)>)
    ensures
        walls@ == seq![
            (Side::Bottom, Side::Bottom.wall()),
            (Side::Top, Side::Top.wall()),
            (Side::Left, Side::Left.wall()),
            (Side::Right, Side::Right.wall()),
        ],
{
    let mut walls: Vec<(Side, Wall)> = Vec::new();
    walls.push((Side::Bottom, Side::Bottom.spawn_wall()));
    walls.push((Side::Top, Side::Top.spawn_wall()));
    walls.push((Side::Left, Side::Left.spawn_wall()));
    walls.push((Side::Right, Side::Right.spawn_wall()));
    assert(walls@ =~= seq![
        (Side::Bottom, Side::Bottom.wall()),
        (Side::Top, Side::Top.wall()),
        (Side::Left, Side::Left.wall()),
        (Side::Right, Side::Right.wall()),
    ]);
    walls
}

/// No wall reaches into the window: a point that a drag can put a shape's
/// middle at lies inside no wall.
pub proof fn law_walls_leave_the_window_free(side: Side, p: Point)
    requires
        (Arena { half_width: 180, half_height: 320 }).holds(p),
    ensures
        !side.wall().covers(p),
{
}

} // verus!
