//! Pixel coordinates.

use vstd::prelude::*;

verus! {

/// A 2D integer pixel coordinate, used for cursor positions and offsets.
#[derive(Clone, Copy, Debug, PartialEq, Eq, Structural)]
pub struct Point {
    /// Horizontal pixel coordinate.
    pub x: i32,
    /// Vertical pixel coordinate.
    pub y: i32,
}

/// The mathematical value of a [`Point`]: the same coordinates as unbounded
/// integers, for use in contracts.
pub ghost struct SpecPoint {
    /// Horizontal pixel coordinate.
    pub x: int,
    /// Vertical pixel coordinate.
    pub y: int,
}

impl View for Point {
    type V = SpecPoint;

    open spec fn view(&self) -> SpecPoint {
        SpecPoint { x: self.x as int, y: self.y as int }
    }
}

impl Point {
    /// Makes the point `(x, y)`.
    pub fn new(x: i32, y: i32) -> (p: Point)
        ensures
            p@ == (SpecPoint { x: x as int, y: y as int }),
    {
        Point { x, y }
    }
}

} // verus!
