//! The rectangle value type: an inclusive min corner plus a size, with its
//! derived corners, intersection test and rasterizers.
use vstd::prelude::*;

use crate::lemmas::lemma_rect_points_len;
use crate::rect_iters::{
    rect_border_points, rect_points, RectangleBorderIter, RectangleIter,
};
use crate::units::{in_extent, size_in_extent, Coordinate, Size};

verus! {

/// Truncating division by two, the rounding Rust's `/` applies.
pub open spec fn div2_trunc(s: int) -> int {
    if s >= 0 {
        s / 2
    } else {
        -((-s) / 2)
    }
}

/// Represents a Rectangle on a grid
#[derive(Clone, Copy, PartialEq, Eq, Structural, Hash, Debug)]
pub struct Rectangle {
    pub position: Coordinate,
    pub size: Size,
}

impl Rectangle {
    /// Both corners of the rectangle stay within the safe coordinate range.
    pub open spec fn bounded(self) -> bool {
        &&& in_extent(self.position, 0x2000_0000)
        &&& self.position.x + self.size.width <= 0x2000_0001
        &&& self.position.y + self.size.height <= 0x2000_0001
    }

    /// The inclusive x coordinate of the right edge.
    pub open spec fn right_spec(self) -> int {
        self.position.x + self.size.width - 1
    }

    /// The inclusive y coordinate of the top edge.
    pub open spec fn top_spec(self) -> int {
        self.position.y + self.size.height - 1
    }

    /// Whether `p` lies inside the rectangle, edges included.
    pub open spec fn contains_spec(self, p: Coordinate) -> bool {
        &&& self.position.x <= p.x <= self.right_spec()
        &&& self.position.y <= p.y <= self.top_spec()
    }

    /// Whether the closed x and y projections of the two rectangles both
    /// overlap.
    pub open spec fn intersects_spec(self, other: Rectangle) -> bool {
        &&& self.position.x <= other.right_spec()
        &&& self.right_spec() >= other.position.x
        &&& self.position.y <= other.top_spec()
        &&& self.top_spec() >= other.position.y
    }

    /// Creates a new Rectangle with a known size
    pub fn from_size(position: Coordinate, size: Size) -> (r: Rectangle)
        ensures
            r.position == position,
            r.size == size,
    {
        Rectangle { position, size }
    }

    /// Creates a new Rectangle with known corners
    pub fn from_corners(position0: Coordinate, position1: Coordinate) -> (r: Rectangle)
        requires
            in_extent(position0, 0x2000_0000),
            in_extent(position1, 0x2000_0000),
        ensures
            r.position.x == if position0.x <= position1.x {
                position0.x
            } else {
                position1.x
            },
            r.position.y == if position0.y <= position1.y {
                position0.y
            } else {
                position1.y
            },
            r.size.width == 1 + if position1.x >= position0.x {
                position1.x - position0.x
            } else {
                position0.x - position1.x
            },
            r.size.height == 1 + if position1.y >= position0.y {
                position1.y - position0.y
            } else {
                position0.y - position1.y
            },
            r.bounded(),
    {
        Rectangle::new(position0.x, position0.y, position1.x, position1.y)
    }

    /// Creates a new Rectangle from two arbitrary corners, normalizing the
    /// minimum corner and measuring the inclusive extent.
    pub fn new(x0: i32, y0: i32, x1: i32, y1: i32) -> (r: Rectangle)
        requires
            -0x2000_0000 <= x0 <= 0x2000_0000,
            -0x2000_0000 <= y0 <= 0x2000_0000,
            -0x2000_0000 <= x1 <= 0x2000_0000,
            -0x2000_0000 <= y1 <= 0x2000_0000,
        ensures
            r.position.x == if x0 <= x1 {
                x0
            } else {
                x1
            },
            r.position.y == if y0 <= y1 {
                y0
            } else {
                y1
            },
            r.size.width == 1 + if x1 >= x0 {
                x1 - x0
            } else {
                x0 - x1
            },
            r.size.height == 1 + if y1 >= y0 {
                y1 - y0
            } else {
                y0 - y1
            },
            r.right_spec() == if x0 <= x1 {
                x1
            } else {
                x0
            },
            r.top_spec() == if y0 <= y1 {
                y1
            } else {
                y0
            },
            r.bounded(),
    {
        let min_x = if x0 <= x1 {
            x0
        } else {
            x1
        };
        let min_y = if y0 <= y1 {
            y0
        } else {
            y1
        };
        let max_x = if x0 <= x1 {
            x1
        } else {
            x0
        };
        let max_y = if y0 <= y1 {
            y1
        } else {
            y0
        };
        let size = Size::new((max_x - min_x) as u32 + 1, (max_y - min_y) as u32 + 1);
        Rectangle::from_size(Coordinate::new(min_x, min_y), size)
    }

    /// Get the size of the rectangle
    pub fn size(self) -> (r: Size)
        ensures
            r == self.size,
    {
        self.size
    }

    /// Get the width of the rectangle
    pub fn width(self) -> (r: u32)
        ensures
            r == self.size.width,
    {
        self.size.width()
    }

    /// Get the height of the rectangle
    pub fn height(self) -> (r: u32)
        ensures
            r == self.size.height,
    {
        self.size.height()
    }

    /// Get the minimum Coord of the rectangle
    pub fn min(self) -> (r: Coordinate)
        ensures
            r == self.position,
    {
        self.position
    }

    /// Get the maximum coord of the rectangle
    pub fn max(self) -> (r: Coordinate)
        requires
            self.bounded(),
        ensures
            r.x == self.right_spec(),
            r.y == self.top_spec(),
    {
        Coordinate::new(self.right(), self.top())
    }

    /// Get the left edge of the rectangle
    pub fn left(self) -> (r: i32)
        ensures
            r == self.position.x,
    {
        self.position.x
    }

    /// Get the right edge of the rectangle
    pub fn right(self) -> (r: i32)
        requires
            self.bounded(),
        ensures
            r == self.right_spec(),
    {
        self.position.x + self.size.width() as i32 - 1
    }

    /// Get the top edge of the rectangle
    pub fn top(self) -> (r: i32)
        requires
            self.bounded(),
        ensures
            r == self.top_spec(),
    {
        self.position.y + self.size.height() as i32 - 1
    }

    /// Get the bottom edge of the rectangle
    pub fn bottom(self) -> (r: i32)
        ensures
            r == self.position.y,
    {
        self.position.y
    }

    /// Get the center of the rectangle, rounding each axis toward zero.
    pub fn center(self) -> (r: Coordinate)
        requires
            self.bounded(),
        ensures
            r.x == div2_trunc(self.right_spec() + self.position.x),
            r.y == div2_trunc(self.top_spec() + self.position.y),
    {
        let sx = self.right() + self.left();
        let sy = self.top() + self.bottom();
        let cx = if sx >= 0 {
            ((sx as u32) / 2) as i32
        } else {
            -((((-sx) as u32) / 2) as i32)
        };
        let cy = if sy >= 0 {
            ((sy as u32) / 2) as i32
        } else {
            -((((-sy) as u32) / 2) as i32)
        };
        Coordinate::new(cx, cy)
    }

    /// Determine if the rectangle is a square
    pub fn is_square(self) -> (r: bool)
        ensures
            r == (self.size.width == self.size.height),
    {
        self.width() == self.height()
    }

    /// Determine if one rectangle intersects another: true exactly when the
    /// closed x projections and the closed y projections both overlap.
    pub fn intersects(self, other: Rectangle) -> (r: bool)
        requires
            self.bounded(),
            other.bounded(),
        ensures
            r == self.intersects_spec(other),
    {
        self.left() <= other.right() && self.right() >= other.left() && self.bottom()
            <= other.top() && self.top() >= other.bottom()
    }

    /// Provides an iterator over the outermost border of the rectangle
    pub fn border_iter(self) -> (r: RectangleBorderIter)
        requires
            in_extent(self.position, 0x2000_0000),
            size_in_extent(self.size, 0x2000_0000),
        ensures
            r.wf(),
            r.pending() == rect_border_points(self.position, self.size),
    {
        RectangleBorderIter::new(self.position, self.size)
    }

    /// Provides an iterator over every cell of the rectangle in row-major
    /// order.
    pub fn into_iter(self) -> (r: RectangleIter)
        requires
            in_extent(self.position, 0x2000_0000),
            size_in_extent(self.size, 0x2000_0000),
        ensures
            r.wf(),
            r.pending() == rect_points(self.position, self.size),
    {
        RectangleIter::new(self.position, self.size)
    }

    /// Every cell of the rectangle, row by row from the minimum corner.
    pub fn points(self) -> (r: Vec<Coordinate>)
        requires
            in_extent(self.position, 0x2000_0000),
            size_in_extent(self.size, 0x2000_0000),
        ensures
            r@ == rect_points(self.position, self.size),
            r@.len() == self.size.width * self.size.height,
    {
        proof {
            lemma_rect_points_len(self.position, self.size);
        }
        let mut it = self.into_iter();
        let mut out: Vec<Coordinate> = Vec::new();
        loop
            invariant_except_break
                it.wf(),
                out@ + it.pending() == rect_points(self.position, self.size),
            ensures
                out@ == rect_points(self.position, self.size),
            decreases it.pending().len(),
        {
            match it.next() {
                Some(p) => {
                    out.push(p);
                    proof {
                        assert(out@ + it.pending() =~= rect_points(self.position, self.size));
                    }
                },
                None => {
                    proof {
                        assert(out@ =~= out@ + it.pending());
                    }
                    break ;
                },
            }
        }
        out
    }

    /// Every border cell of the rectangle, row by row from the minimum
    /// corner.
    pub fn border_points(self) -> (r: Vec<Coordinate>)
        requires
            in_extent(self.position, 0x2000_0000),
            size_in_extent(self.size, 0x2000_0000),
        ensures
            r@ == rect_border_points(self.position, self.size),
    {
        let mut it = self.border_iter();
        let mut out: Vec<Coordinate> = Vec::new();
        loop
            invariant_except_break
                it.wf(),
                out@ + it.pending() == rect_border_points(self.position, self.size),
            ensures
                out@ == rect_border_points(self.position, self.size),
            decreases it.pending().len(),
        {
            match it.next() {
                Some(p) => {
                    out.push(p);
                    proof {
                        assert(out@ + it.pending() =~= rect_border_points(
                            self.position,
                            self.size,
                        ));
                    }
                },
                None => {
                    proof {
                        assert(out@ =~= out@ + it.pending());
                    }
                    break ;
                },
            }
        }
        out
    }

    /// The axis-aligned bounding box of a rectangle is the rectangle
    /// itself.
    pub fn aabb(self) -> (r: Rectangle)
        ensures
            r == self,
    {
        self
    }
}

impl Default for Rectangle {
    /// The unit square at the origin.
    fn default() -> (r: Rectangle)
        ensures
            r.position.x == 0,
            r.position.y == 0,
            r.size.width == 1,
            r.size.height == 1,
    {
        Rectangle { position: Coordinate { x: 0, y: 0 }, size: Size { width: 1, height: 1 } }
    }
}

} // verus!
