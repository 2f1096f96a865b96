//! The coordinate and size value types every rasterizer operates on.
use vstd::prelude::*;

verus! {

/// Largest magnitude accepted for a shape coordinate, width, height or
/// radius. Keeping inputs within this bound guarantees that every
/// intermediate term of the integer rasterization algorithms fits in `i32`.
pub const MAX_EXTENT: i32 = 0x1000_0000;

/// A position on the grid.
#[derive(Clone, Copy, PartialEq, Eq, Structural, Hash, Debug, PartialOrd, Ord)]
pub struct Coordinate {
    pub x: i32,
    pub y: i32,
}

/// True when both components of `c` are at most `bound` in magnitude.
pub open spec fn in_extent(c: Coordinate, bound: int) -> bool {
    -bound <= c.x <= bound && -bound <= c.y <= bound
}

impl Coordinate {
    /// Returns a new `Coordinate`
    pub fn new(x: i32, y: i32) -> (r: Coordinate)
        ensures
            r.x == x,
            r.y == y,
    {
        Coordinate { x, y }
    }

    /// Returns the `x` position of the coordinate
    pub fn x(self) -> (r: i32)
        ensures
            r == self.x,
    {
        self.x
    }

    /// Sets the `x` position of the coordinate
    pub fn set_x(&mut self, x: i32)
        ensures
            final(self).x == x,
            final(self).y == old(self).y,
    {
        self.x = x;
    }

    /// Returns the `y` position of the coordinate
    pub fn y(self) -> (r: i32)
        ensures
            r == self.y,
    {
        self.y
    }

    /// Sets the `y` position of the coordinate
    pub fn set_y(&mut self, y: i32)
        ensures
            final(self).x == old(self).x,
            final(self).y == y,
    {
        self.y = y;
    }
}

impl Default for Coordinate {
    /// The origin.
    fn default() -> (r: Coordinate)
        ensures
            r.x == 0,
            r.y == 0,
    {
        Coordinate { x: 0, y: 0 }
    }
}

/// The extent of a rectangular region of the grid.
#[derive(Clone, Copy, PartialEq, Eq, Structural, Hash, Debug, PartialOrd, Ord)]
pub struct Size {
    pub width: u32,
    pub height: u32,
}

/// True when both dimensions of `s` are at most `bound`.
pub open spec fn size_in_extent(s: Size, bound: int) -> bool {
    s.width <= bound && s.height <= bound
}

impl Size {
    /// Returns a new `Size`
    pub fn new(width: u32, height: u32) -> (r: Size)
        ensures
            r.width == width,
            r.height == height,
    {
        Size { width, height }
    }

    /// Returns the `width` of the space
    pub fn width(self) -> (r: u32)
        ensures
            r == self.width,
    {
        self.width
    }

    /// Returns the `height` of the space
    pub fn height(self) -> (r: u32)
        ensures
            r == self.height,
    {
        self.height
    }
}

impl Default for Size {
    /// A single cell.
    fn default() -> (r: Size)
        ensures
            r.width == 1,
            r.height == 1,
    {
        Size { width: 1, height: 1 }
    }
}

} // verus!
