//! The shape kinds shown by the challenge and their numeric transforms.
//! A viewer reads each shape together with its parameter, applies the
//! shape's transform, and the concatenated results form the hidden code.

use vstd::prelude::*;

verus! {

/// The three kinds of shape a puzzle can show.
#[derive(Clone, Copy, Debug, PartialEq, Eq, Structural)]
pub enum Shape {
    Line,
    Triangle,
    Circle,
}

/// The shape a drawn index stands for: 0 is Line, 1 is Triangle, every
/// other index is Circle.
pub open spec fn spec_shape_from_index(i: int) -> Shape {
    if i == 0 {
        Shape::Line
    } else if i == 1 {
        Shape::Triangle
    } else {
        Shape::Circle
    }
}

impl Shape {
    /// The shape's transform of a parameter `n`: Line gives `1 + n^2`,
    /// Triangle gives `(27 - n) / 2` (integer division), Circle gives `n^2`.
    pub open spec fn spec_compute(self, n: int) -> int {
        match self {
            Shape::Line => 1 + n * n,
            Shape::Triangle => (27 - n) / 2,
            Shape::Circle => n * n,
        }
    }

    /// Applies the shape's transform to a parameter in `[1, 8)`.
    pub fn compute(&self, n: i32) -> (r: i32)
        requires
            1 <= n < 8,
        ensures
            r == self.spec_compute(n as int),
    {
        proof {
            assert(n * n < 64) by (nonlinear_arith)
                requires
                    1 <= n < 8,
            ;
        }
        match self {
            Shape::Line => 1 + n * n,
            Shape::Triangle => (27 - n) / 2,
            Shape::Circle => n * n,
        }
    }

    /// The minimum separation radius this shape claims around its anchor,
    /// in thousandths of the scene's unit coordinates.
    pub open spec fn spec_min_radius(self) -> int {
        match self {
            Shape::Line => 200,
            Shape::Triangle => 250,
            Shape::Circle => 200,
        }
    }

    /// The shape's minimum separation radius, in thousandths of the scene's
    /// unit coordinates.
    pub fn min_radius(&self) -> (r: i32)
        ensures
            r == self.spec_min_radius(),
    {
        match self {
            Shape::Line => 200,
            Shape::Triangle => 250,
            Shape::Circle => 200,
        }
    }
}

/// Maps a drawn shape index to its shape kind.
pub fn shape_from_index(i: u32) -> (r: Shape)
    ensures
        r == spec_shape_from_index(i as int),
{
    match i {
        0 => Shape::Line,
        1 => Shape::Triangle,
        _ => Shape::Circle,
    }
}

/// Draws one of the three shape kinds at random.
pub fn random_shape() -> Shape {
    shape_from_index(crate::sampling::sample_shape_index())
}

} // verus!
