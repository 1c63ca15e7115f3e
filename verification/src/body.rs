//! The kinds of shape that a level is made of.

use vstd::prelude::*;

verus! {

/// What every kind of shape can say of itself.
pub trait Body {
    /// The name of the kind, as characters.
    spec fn label(&self) -> Seq<char>;

    /// The name of the kind.
    fn name(&self) -> (name: &'static str)
        ensures
            name@ == self.label(),
    ;
}

/// A disc.
#[derive(PartialEq, Eq, Structural, Clone, Copy, Debug, Hash, Default)]
pub struct Circle {}

/// A plus sign.
#[derive(PartialEq, Eq, Structural, Clone, Copy, Debug, Hash, Default)]
pub struct Cross {}

/// A bar.
#[derive(PartialEq, Eq, Structural, Clone, Copy, Debug, Hash, Default)]
pub struct I {}

/// A hook to the left.
#[derive(PartialEq, Eq, Structural, Clone, Copy, Debug, Hash, Default)]
pub struct J {}

/// A hook to the right.
#[derive(PartialEq, Eq, Structural, Clone, Copy, Debug, Hash, Default)]
pub struct L {}

/// A square.
#[derive(PartialEq, Eq, Structural, Clone, Copy, Debug, Hash, Default)]
pub struct Square {}

/// A right triangle whose legs are one and a half times the shape size
/// each.
#[derive(PartialEq, Eq, Structural, Clone, Copy, Debug, Hash, Default)]
pub struct Triangle {}

/// A right triangle with two equal legs and the area of the unit square.
#[derive(PartialEq, Eq, Structural, Clone, Copy, Debug, Hash, Default)]
pub struct RightIsoscelesTriangle {}

impl Body for Circle {
    open spec fn label(&self) -> Seq<char> {
        "Circle"@
    }

    fn name(&self) -> (name: &'static str) {
        "Circle"
    }
}

impl Body for Cross {
    open spec fn label(&self) -> Seq<char> {
        "Cross"@
    }

    fn name(&self) -> (name: &'static str) {
        "Cross"
    }
}

impl Body for I {
    open spec fn label(&self) -> Seq<char> {
        "I Shape"@
    }

    fn name(&self) -> (name: &'static str) {
        "I Shape"
    }
}

impl Body for J {
    open spec fn label(&self) -> Seq<char> {
        "J Shape"@
    }

    fn name(&self) -> (name: &'static str) {
        "J Shape"
    }
}

impl Body for L {
    open spec fn label(&self) -> Seq<char> {
        "L Shape"@
    }

    fn name(&self) -> (name: &'static str) {
        "L Shape"
    }
}

impl Body for Square {
    open spec fn label(&self) -> Seq<char> {
        "Square"@
    }

    fn name(&self) -> (name: &'static str) {
        "Square"
    }
}

impl Body for Triangle {
    open spec fn label(&self) -> Seq<char> {
        "Triangle"@
    }

    fn name(&self) -> (name: &'static str) {
        "Triangle"
    }
}

impl Body for RightIsoscelesTriangle {
    open spec fn label(&self) -> Seq<char> {
        "Triangle"@
    }

    fn name(&self) -> (name: &'static str) {
        "Triangle"
    }
}

/// A shape of the game: one of seven kinds.
#[derive(PartialEq, Eq, Structural, Clone, Copy, Debug)]
pub enum GameShape {
    Circle(Circle),
    Cross(Cross),
    I(I),
    L(L),
    J(J),
    Square(Square),
    Triangle(RightIsoscelesTriangle),
}

/// The number of kinds of shape.
pub const COUNT: usize = 7;

impl GameShape {
    /// The place of the kind among the seven, which sets its colour.
    pub open spec fn place(self) -> int {
        match self {
            GameShape::Circle(_) => 0,
            GameShape::Cross(_) => 1,
            GameShape::L(_) => 2,
            GameShape::I(_) => 3,
            GameShape::J(_) => 4,
            GameShape::Square(_) => 5,
            GameShape::Triangle(_) => 6,
        }
    }

    /// The place of the kind among the seven.
    pub fn index(&self) -> (index: usize)
        ensures
            index == self.place(),
            index < COUNT,
    {
        match self {
            GameShape::Circle(_) => 0,
            GameShape::Cross(_) => 1,
            GameShape::L(_) => 2,
            GameShape::I(_) => 3,
            GameShape::J(_) => 4,
            GameShape::Square(_) => 5,
            GameShape::Triangle(_) => 6,
        }
    }

    /// The hue of the kind's fill colour, in degrees: the kinds are spread
    /// evenly over the colour wheel.
    pub fn hue(&self) -> (hue: usize)
        ensures
            hue == (self.place() * 360) / 7,
            hue < 360,
    {
        self.index() * 360 / COUNT
    }

    /// The seven kinds, in the order of their declaration.
    pub fn all() -> (kinds: Vec<GameShape>)
        ensures
            kinds@ == seq![
                GameShape::Circle(Circle {}),
                GameShape::Cross(Cross {}),
                GameShape::I(I {}),
                GameShape::L(L {}),
                GameShape::J(J {}),
                GameShape::Square(Square {}),
                GameShape::Triangle(RightIsoscelesTriangle {}),
            ],
    {
        let mut kinds: Vec<GameShape> = Vec::new();
        kinds.push(GameShape::Circle(Circle {  }));
        kinds.push(GameShape::Cross(Cross {  }));
        kinds.push(GameShape::I(I {  }));
        kinds.push(GameShape::L(L {  }));
        kinds.push(GameShape::J(J {  }));
        kinds.push(GameShape::Square(Square {  }));
        kinds.push(GameShape::Triangle(RightIsoscelesTriangle {  }));
        assert(kinds@ =~= seq![
            GameShape::Circle(Circle {}),
            GameShape::Cross(Cross {}),
            GameShape::I(I {}),
            GameShape::L(L {}),
            GameShape::J(J {}),
            GameShape::Square(Square {}),
            GameShape::Triangle(RightIsoscelesTriangle {}),
        ]);
        kinds
    }
}

impl Body for GameShape {
    open spec fn label(&self) -> Seq<char> {
        match *self {
            GameShape::Circle(body) => body.label(),
            GameShape::Cross(body) => body.label(),
            GameShape::I(body) => body.label(),
            GameShape::L(body) => body.label(),
            GameShape::J(body) => body.label(),
            GameShape::Square(body) => body.label(),
            GameShape::Triangle(body) => body.label(),
        }
    }

    fn name(&self) -> (name: &'static str) {
        match self {
            GameShape::Circle(body) => body.name(),
            GameShape::Cross(body) => body.name(),
            GameShape::I(body) => body.name(),
            GameShape::L(body) => body.name(),
            GameShape::J(body) => body.name(),
            GameShape::Square(body) => body.name(),
            GameShape::Triangle(body) => body.name(),
        }
    }
}

/// The hue, in degrees, of the fill colour of the kind at place `index`
/// among `kinds` kinds: the kinds go one and a half times round the colour
/// wheel, so that neighbours differ well.
pub fn hue_among(index: usize, kinds: usize) -> (hue: usize)
    requires
        kinds > 0,
    ensures
        hue == ((index * 540) / (kinds as int)) % 360,
{
    let wide: u128 = index as u128 * 540 / kinds as u128;
    (wide % 360) as usize
}

/// A polygon on the unit grid, of `POINTS` corners and the area of
/// `SQUARES` unit squares.
#[derive(PartialEq, Eq, Clone, Copy, Debug, Hash)]
pub struct PolygonBody<const SQUARES: usize, const POINTS: usize>(pub &'static [(isize, isize); POINTS]);

impl<const SQUARES: usize, const POINTS: usize> PolygonBody<SQUARES, POINTS> {
    /// The sides of the polygon, each by the places of its two corners: a
    /// side leads from every corner to the next, and from the last to the
    /// first.
    pub fn sides(&self) -> (sides: Vec<(usize, usize)>)
        ensures
            sides@.len() == POINTS,
            forall|i: int| 0 <= i < POINTS ==> #[trigger] sides@[i] == (i as usize, ((i + 1) % (POINTS as int)) as usize),
    {
        let mut sides: Vec<(usize, usize)> = Vec::new();
        let mut i: usize = 0;
        while i < POINTS
            invariant
                i <= POINTS,
                sides@.len() == i,
                forall|j: int| 0 <= j < i ==> #[trigger] sides@[j] == (j as usize, ((j + 1) % (POINTS as int)) as usize),
            decreases POINTS - i,
        {
            let next: usize = if i + 1 == POINTS { 0 } else { i + 1 };
            assert(next == (i + 1) % (POINTS as int)) by {
                if i + 1 == POINTS {
                    assert((POINTS as int) % (POINTS as int) == 0) by (nonlinear_arith)
                        requires POINTS > 0;
                } else {
                    assert((i + 1) % (POINTS as int) == i + 1) by (nonlinear_arith)
                        requires 0 <= i + 1 < POINTS;
                }
            }
            sides.push((i, next));
            i += 1;
        }
        sides
    }

    /// The corner at place `i`.
    pub fn corner(&self, i: usize) -> (corner: (isize, isize))
        requires
            i < POINTS,
        ensures
            corner == self.0@[i as int],
    {
        self.0[i]
    }
}

} // verus!
