//! Integer pixel geometry: points and half-open rectangles.

use vstd::prelude::*;

verus! {

/// A position in pixels.
#[derive(Copy, Clone, Debug, PartialEq, Eq, Structural)]
pub struct Point {
    pub x: i32,
    pub y: i32,
}

/// An axis-aligned rectangle that holds its `min` corner and stops short of
/// its `max` corner. A rectangle whose `max` is not beyond its `min` on
/// either axis holds no point.
#[derive(Copy, Clone, Debug, PartialEq, Eq, Structural)]
pub struct Rect {
    pub min: Point,
    pub max: Point,
}

impl Rect {
    /// Whether the point lies inside the rectangle.
    pub open spec fn holds(self, point: Point) -> bool {
        &&& self.min.x <= point.x < self.max.x
        &&& self.min.y <= point.y < self.max.y
    }

    /// The rectangle between two corners.
    pub fn new(min_x: i32, min_y: i32, max_x: i32, max_y: i32) -> (rect: Rect)
        ensures
            rect == (Rect { min: Point { x: min_x, y: min_y }, max: Point { x: max_x, y: max_y } }),
    {
        Rect { min: Point { x: min_x, y: min_y }, max: Point { x: max_x, y: max_y } }
    }

    /// Tests whether the point lies inside the rectangle.
    pub fn contains(&self, point: Point) -> (inside: bool)
        ensures
            inside == self.holds(point),
    {
        self.min.x <= point.x && point.x < self.max.x && self.min.y <= point.y && point.y
            < self.max.y
    }
}

} // verus!
