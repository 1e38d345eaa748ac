//! Pixel geometry primitives: points, sizes and axis-aligned rectangles.
//!
//! All coordinates are non-negative pixel offsets, so every field is a `u32`.

use vstd::prelude::*;

verus! {

/// A point in pixel coordinates.
#[derive(Clone, Copy, Debug, PartialEq, Eq, Structural)]
pub struct Point {
    /// Horizontal pixel offset, growing to the right.
    pub x: u32,
    /// Vertical pixel offset, growing downwards.
    pub y: u32,
}

impl Point {
    /// Creates a point from its two coordinates.
    pub fn new(x: u32, y: u32) -> (p: Point)
        ensures
            p.x == x,
            p.y == y,
    {
        Point { x, y }
    }
}

/// A size in pixels.
#[derive(Clone, Copy, Debug, PartialEq, Eq, Structural)]
pub struct Size {
    /// Width in pixels.
    pub width: u32,
    /// Height in pixels.
    pub height: u32,
}

impl Size {
    /// Creates a size from a width and a height.
    pub fn new(width: u32, height: u32) -> (s: Size)
        ensures
            s.width == width,
            s.height == height,
    {
        Size { width, height }
    }
}

/// An axis-aligned rectangle: a top-left corner and a size.
#[derive(Clone, Copy, Debug, PartialEq, Eq, Structural)]
pub struct Rectangle {
    /// The corner with the smallest coordinates.
    pub top_left: Point,
    /// The extent of the rectangle.
    pub size: Size,
}

impl Rectangle {
    /// Creates a rectangle from its top-left corner and its size.
    pub fn new(top_left: Point, size: Size) -> (r: Rectangle)
        ensures
            r.top_left == top_left,
            r.size == size,
    {
        Rectangle { top_left, size }
    }

    /// The rectangle's right and bottom edges stay within `u32` coordinates.
    pub open spec fn wf(&self) -> bool {
        &&& self.top_left.x + self.size.width <= u32::MAX
        &&& self.top_left.y + self.size.height <= u32::MAX
    }
}

} // verus!
