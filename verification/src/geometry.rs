//! Integer points and rectangles in world, sprite-sheet and screen
//! coordinates.

use vstd::prelude::*;
use vstd::wrapping::i32_specs;

verus! {

/// A 2D integer point.
#[derive(Clone, Copy, Debug, PartialEq, Eq, Structural)]
pub struct Point {
    pub x: i32,
    pub y: i32,
}

/// An axis-aligned rectangle: top-left corner and size.
#[derive(Clone, Copy, Debug, PartialEq, Eq, Structural)]
pub struct Rect {
    pub x: i32,
    pub y: i32,
    pub width: u32,
    pub height: u32,
}

impl Point {
    /// The point translated by `(dx, dy)`, each coordinate wrapping on
    /// `i32` overflow.
    pub open spec fn spec_offset(self, dx: i32, dy: i32) -> Point {
        Point { x: i32_specs::wrapping_add(self.x, dx), y: i32_specs::wrapping_add(self.y, dy) }
    }

    pub fn new(x: i32, y: i32) -> (p: Point)
        ensures
            p == (Point { x, y }),
    {
        Point { x, y }
    }

    pub fn offset(self, dx: i32, dy: i32) -> (p: Point)
        ensures
            p == self.spec_offset(dx, dy),
    {
        Point { x: self.x.wrapping_add(dx), y: self.y.wrapping_add(dy) }
    }
}

impl Rect {
    pub fn new(x: i32, y: i32, width: u32, height: u32) -> (r: Rect)
        ensures
            r == (Rect { x, y, width, height }),
    {
        Rect { x, y, width, height }
    }

    /// The rectangle of the given size whose center is `center`, with
    /// the usual integer-division rounding of the half extents.
    pub open spec fn spec_from_center(center: Point, width: u32, height: u32) -> Rect {
        Rect {
            x: (center.x - width / 2) as i32,
            y: (center.y - height / 2) as i32,
            width,
            height,
        }
    }

    pub fn from_center(center: Point, width: u32, height: u32) -> (r: Rect)
        requires
            i32::MIN <= center.x - width / 2,
            i32::MIN <= center.y - height / 2,
        ensures
            r == Rect::spec_from_center(center, width, height),
    {
        Rect {
            x: center.x - (width / 2) as i32,
            y: center.y - (height / 2) as i32,
            width,
            height,
        }
    }
}

} // verus!
