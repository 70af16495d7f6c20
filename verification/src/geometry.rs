//! Plain pixel geometry: points, sizes and rectangles.
//!
//! The x axis runs to the right and the y axis downwards, both counted in
//! pixels from the top left corner.

use vstd::prelude::*;

verus! {

/// A position in pixels.
#[derive(Clone, Copy, Debug, PartialEq, Eq, Structural)]
pub struct Point {
    /// Distance from the left edge.
    pub x: i32,
    /// Distance from the top edge.
    pub y: i32,
}

/// A width and a height in pixels.
#[derive(Clone, Copy, Debug, PartialEq, Eq, Structural)]
pub struct Size {
    /// Extent along the x axis.
    pub width: u32,
    /// Extent along the y axis.
    pub height: u32,
}

/// An axis-aligned rectangle, given by its top left corner and its extent.
#[derive(Clone, Copy, Debug, PartialEq, Eq, Structural)]
pub struct Rectangle {
    /// The top left corner.
    pub origin: Point,
    /// Width and height.
    pub extent: Size,
}

impl Point {
    /// The point `(x, y)`.
    pub fn new(x: i32, y: i32) -> (p: Point)
        ensures
            p == (Point { x, y }),
    {
        Point { x, y }
    }
}

impl Size {
    /// The size `width` by `height`.
    pub fn new(width: u32, height: u32) -> (s: Size)
        ensures
            s == (Size { width, height }),
    {
        Size { width, height }
    }
}

impl Rectangle {
    /// The rectangle of the given extent whose top left corner is `origin`.
    pub fn new(origin: Point, extent: Size) -> (r: Rectangle)
        ensures
            r == (Rectangle { origin, extent }),
    {
        Rectangle { origin, extent }
    }

    /// Whether the pixel `(x, y)` lies inside the rectangle.
    pub open spec fn covers(self, x: int, y: int) -> bool {
        &&& self.origin.x <= x < self.origin.x + self.extent.width
        &&& self.origin.y <= y < self.origin.y + self.extent.height
    }
}

} // verus!
