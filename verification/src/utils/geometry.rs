//! Sizes, points and rectangles.

use vstd::prelude::*;

verus! {

/// A width and a height.
#[derive(Debug, Clone, Copy, PartialEq, Eq)]
pub struct Size<N> {
    /// The width.
    pub w: N,
    /// The height.
    pub h: N,
}

/// A position.
#[derive(Debug, Clone, Copy, PartialEq, Eq)]
pub struct Point<N> {
    /// The horizontal coordinate.
    pub x: N,
    /// The vertical coordinate.
    pub y: N,
}

/// An axis aligned rectangle.
#[derive(Debug, Clone, Copy, PartialEq, Eq)]
pub struct Rectangle<N> {
    /// The corner with the lowest coordinates.
    pub loc: Point<N>,
    /// The extent.
    pub size: Size<N>,
}

impl Rectangle<i32> {
    /// The rectangle of the given size whose lowest corner is at `(x, y)`.
    pub fn from_loc_and_size(loc: (i32, i32), size: Size<i32>) -> (r: Rectangle<i32>)
        ensures
            r.loc.x == loc.0,
            r.loc.y == loc.1,
            r.size == size,
    {
        Rectangle { loc: Point { x: loc.0, y: loc.1 }, size }
    }
}

} // verus!
