//! Positions on the playfield, in whole world units.
//!
//! A coordinate is a signed 32-bit count of world units. Sums and differences
//! that leave that range stop at its ends, so every operation here is total.

use vstd::prelude::*;

verus! {

/// Width of the playfield, in world units.
pub const WINDOW_WIDTH: i32 = 360;

/// Height of the playfield, in world units.
pub const WINDOW_HEIGHT: i32 = 640;

/// Thickness of each of the four walls around the playfield.
pub const WALL_WIDTH: i32 = 360;

/// Parts of a thousand that make a whole.
pub const PER_MILLE: i64 = 1000;

/// The coordinate nearest to `v`.
pub open spec fn saturate(v: int) -> int {
    if v < i32::MIN {
        i32::MIN as int
    } else if v > i32::MAX {
        i32::MAX as int
    } else {
        v
    }
}

/// The value in `low..=high` nearest to `v`; meant for `low <= high`.
pub open spec fn clamp_between(v: int, low: int, high: int) -> int {
    if v < low {
        low
    } else if v > high {
        high
    } else {
        v
    }
}

/// `v` reduced to `keep` thousandths of itself, rounded towards zero.
pub open spec fn keep_per_mille(v: int, keep: int) -> int {
    if v >= 0 {
        (v * keep) / 1000
    } else {
        -(((-v) * keep) / 1000)
    }
}

/// A position or a displacement on the playfield.
#[derive(PartialEq, Eq, Structural, Clone, Copy, Debug)]
pub struct Point {
    pub x: i32,
    pub y: i32,
}

/// The rectangle, centred on the origin, that a dragged shape is kept in.
#[derive(PartialEq, Eq, Structural, Clone, Copy, Debug)]
pub struct Arena {
    pub half_width: u32,
    pub half_height: u32,
}

fn saturating_sum(a: i32, b: i32) -> (r: i32)
    ensures
        r == saturate(a + b),
{
    let wide: i64 = a as i64 + b as i64;
    if wide < i32::MIN as i64 {
        i32::MIN
    } else if wide > i32::MAX as i64 {
        i32::MAX
    } else {
        wide as i32
    }
}

fn saturating_difference(a: i32, b: i32) -> (r: i32)
    ensures
        r == saturate(a - b),
{
    let wide: i64 = a as i64 - b as i64;
    if wide < i32::MIN as i64 {
        i32::MIN
    } else if wide > i32::MAX as i64 {
        i32::MAX
    } else {
        wide as i32
    }
}

fn clamp_coordinate(v: i32, half: u32) -> (r: i32)
    ensures
        r == clamp_between(v as int, -(half as int), half as int),
{
    let wide: i64 = v as i64;
    let high: i64 = half as i64;
    if wide < -high {
        (-high) as i32
    } else if wide > high {
        high as i32
    } else {
        v
    }
}

fn scale_coordinate(v: i32, keep: u16) -> (r: i32)
    requires
        keep <= 1000,
    ensures
        r == keep_per_mille(v as int, keep as int),
{
    let factor: i64 = keep as i64;
    if v >= 0 {
        let wide: i64 = v as i64;
        assert(wide * factor <= wide * 1000) by (nonlinear_arith)
            requires
                0 <= wide,
                0 <= factor <= 1000,
        ;
        assert(0 <= wide * factor) by (nonlinear_arith)
            requires
                0 <= wide,
                0 <= factor,
        ;
        let scaled: i64 = (wide * factor) / PER_MILLE;
        scaled as i32
    } else {
        let wide: i64 = -(v as i64);
        assert(wide * factor <= wide * 1000) by (nonlinear_arith)
            requires
                0 <= wide,
                0 <= factor <= 1000,
        ;
        assert(0 <= wide * factor) by (nonlinear_arith)
            requires
                0 <= wide,
                0 <= factor,
        ;
        let scaled: i64 = (wide * factor) / PER_MILLE;
        (-scaled) as i32
    }
}

impl Point {
    /// The point at the given coordinates.
    pub fn new(x: i32, y: i32) -> (r: Point)
        ensures
            r == (Point { x, y }),
    {
        Point { x, y }
    }

    /// This point displaced by `by`, each coordinate saturating.
    pub open spec fn plus(self, by: Point) -> Point {
        Point { x: saturate(self.x + by.x) as i32, y: saturate(self.y + by.y) as i32 }
    }

    /// The displacement that leads from `from` to this point, each coordinate
    /// saturating.
    pub open spec fn minus(self, from: Point) -> Point {
        Point { x: saturate(self.x - from.x) as i32, y: saturate(self.y - from.y) as i32 }
    }

    /// This point with each coordinate reduced to `keep` thousandths.
    pub open spec fn reduced(self, keep: int) -> Point {
        Point { x: keep_per_mille(self.x as int, keep) as i32, y: keep_per_mille(self.y as int, keep) as i32 }
    }

    /// Displaces this point by `by`.
    pub fn moved_by(self, by: Point) -> (r: Point)
        ensures
            r == self.plus(by),
    {
        Point { x: saturating_sum(self.x, by.x), y: saturating_sum(self.y, by.y) }
    }

    /// The displacement from `from` to this point.
    pub fn offset_from(self, from: Point) -> (r: Point)
        ensures
            r == self.minus(from),
    {
        Point { x: saturating_difference(self.x, from.x), y: saturating_difference(self.y, from.y) }
    }

    /// Reduces each coordinate to `keep` thousandths of itself, towards zero.
    pub fn scaled_per_mille(self, keep: u16) -> (r: Point)
        requires
            keep <= 1000,
        ensures
            r == self.reduced(keep as int),
    {
        Point { x: scale_coordinate(self.x, keep), y: scale_coordinate(self.y, keep) }
    }
}

impl Arena {
    /// The arena that fills the window.
    pub fn window() -> (r: Arena)
        ensures
            r == (Arena { half_width: 180, half_height: 320 }),
    {
        Arena { half_width: (WINDOW_WIDTH / 2) as u32, half_height: (WINDOW_HEIGHT / 2) as u32 }
    }

    /// The point of the arena nearest to `p`.
    pub open spec fn clamped(self, p: Point) -> Point {
        Point {
            x: clamp_between(p.x as int, -(self.half_width as int), self.half_width as int) as i32,
            y: clamp_between(p.y as int, -(self.half_height as int), self.half_height as int) as i32,
        }
    }

    /// Whether `p` lies in the arena, its border included.
    pub open spec fn holds(self, p: Point) -> bool {
        &&& -(self.half_width as int) <= p.x <= self.half_width as int
        &&& -(self.half_height as int) <= p.y <= self.half_height as int
    }

    /// Brings `p` back into the arena along each axis.
    pub fn clamp(&self, p: Point) -> (r: Point)
        ensures
            r == self.clamped(p),
            self.holds(r),
            self.holds(p) ==> r == p,
    {
        Point { x: clamp_coordinate(p.x, self.half_width), y: clamp_coordinate(p.y, self.half_height) }
    }
}

} // verus!
