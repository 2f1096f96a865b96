//! The line value type: two endpoints, a Chebyshev length, and the
//! Bresenham and tunnel rasterizers that trace it.
use vstd::prelude::*;

use crate::bresenham::{lemma_line_points_props, line_points, LineBresenhamIter};
use crate::lemmas::{abs_delta, lemma_tunnel_counts};
use crate::octant::{chebyshev, in_extent_pair};
use crate::rectangle::Rectangle;
use crate::tunnel::{
    tunnel_hv_points, tunnel_vh_points, TunnelHorizontalVerticalLineIter,
    TunnelVerticalHorizontalLineIter,
};
use crate::units::Coordinate;

verus! {

/// Represents a Line on a grid
#[derive(Clone, Copy, PartialEq, Eq, Structural, Hash, Debug)]
pub struct Line {
    pub start: Coordinate,
    pub end: Coordinate,
}

impl Line {
    /// Both endpoints stay within the safe coordinate range.
    pub open spec fn bounded(self) -> bool {
        in_extent_pair(self.start, self.end)
    }

    /// The number of grid steps of the line: one more than the Chebyshev
    /// distance of its endpoints.
    pub open spec fn len_spec(self) -> int {
        chebyshev(self.start, self.end) + 1
    }

    /// Creates a new Line
    pub fn new(start: Coordinate, end: Coordinate) -> (r: Line)
        ensures
            r.start == start,
            r.end == end,
    {
        Line { start, end }
    }

    /// Get the total length of the line
    pub fn len(self) -> (r: u32)
        requires
            self.bounded(),
        ensures
            r == self.len_spec(),
            r == chebyshev(self.start, self.end) + 1,
    {
        let dx = if self.end.x >= self.start.x {
            self.end.x - self.start.x
        } else {
            self.start.x - self.end.x
        };
        let dy = if self.end.y >= self.start.y {
            self.end.y - self.start.y
        } else {
            self.start.y - self.end.y
        };
        let m = if dx >= dy {
            dx
        } else {
            dy
        };
        m as u32 + 1
    }

    /// Get the starting point of the line
    pub fn start(self) -> (r: Coordinate)
        ensures
            r == self.start,
    {
        self.start
    }

    /// Get the ending point of the line
    pub fn end(self) -> (r: Coordinate)
        ensures
            r == self.end,
    {
        self.end
    }

    /// Provides an iterator over a line horizontal and then vertical
    /// reaching the ending
    pub fn tunnel_horizontal_vertical_iter(self) -> (r: TunnelHorizontalVerticalLineIter)
        requires
            self.bounded(),
        ensures
            r.wf(),
            r.pending() == tunnel_hv_points(self.start, self.end),
    {
        TunnelHorizontalVerticalLineIter::new(self.start, self.end)
    }

    /// Provides an iterator over a line vertical and then horizontal
    /// reaching the ending
    pub fn tunnel_vertical_horizontal_iter(self) -> (r: TunnelVerticalHorizontalLineIter)
        requires
            self.bounded(),
        ensures
            r.wf(),
            r.pending() == tunnel_vh_points(self.start, self.end),
    {
        TunnelVerticalHorizontalLineIter::new(self.start, self.end)
    }

    /// Provides the Bresenham iterator over the points of the line.
    pub fn into_iter(self) -> (r: LineBresenhamIter)
        requires
            self.bounded(),
        ensures
            r.wf(),
            r.pending() == line_points(self.start, self.end),
    {
        LineBresenhamIter::new(self.start, self.end)
    }

    /// The points of the line, as the Bresenham walk emits them.
    pub fn points(self) -> (r: Vec<Coordinate>)
        requires
            self.bounded(),
        ensures
            r@ == line_points(self.start, self.end),
            r@.len() == self.len_spec(),
    {
        proof {
            lemma_line_points_props(self.start, self.end);
        }
        let mut it = self.into_iter();
        let mut out: Vec<Coordinate> = Vec::new();
        loop
            invariant_except_break
                it.wf(),
                out@ + it.pending() == line_points(self.start, self.end),
            ensures
                out@ == line_points(self.start, self.end),
            decreases it.pending().len(),
        {
            match it.next() {
                Some(p) => {
                    out.push(p);
                    proof {
                        assert(out@ + it.pending() =~= line_points(self.start, self.end));
                    }
                },
                None => {
                    proof {
                        assert(out@ =~= out@ + it.pending());
                    }
                    break ;
                },
            }
        }
        out
    }

    /// The points of the horizontal-then-vertical tunnel between the two
    /// endpoints.
    pub fn tunnel_horizontal_vertical_points(self) -> (r: Vec<Coordinate>)
        requires
            self.bounded(),
        ensures
            r@ == tunnel_hv_points(self.start, self.end),
            r@.len() == abs_delta(self.start.x as int, self.end.x as int) + abs_delta(
                self.start.y as int,
                self.end.y as int,
            ) + 2,
    {
        proof {
            lemma_tunnel_counts(self.start, self.end);
        }
        let mut it = self.tunnel_horizontal_vertical_iter();
        let mut out: Vec<Coordinate> = Vec::new();
        loop
            invariant_except_break
                it.wf(),
                out@ + it.pending() == tunnel_hv_points(self.start, self.end),
            ensures
                out@ == tunnel_hv_points(self.start, self.end),
            decreases it.pending().len(),
        {
            match it.next() {
                Some(p) => {
                    out.push(p);
                    proof {
                        assert(out@ + it.pending() =~= tunnel_hv_points(self.start, self.end));
                    }
                },
                None => {
                    proof {
                        assert(out@ =~= out@ + it.pending());
                    }
                    break ;
                },
            }
        }
        out
    }

    /// The points of the vertical-then-horizontal tunnel between the two
    /// endpoints.
    pub fn tunnel_vertical_horizontal_points(self) -> (r: Vec<Coordinate>)
        requires
            self.bounded(),
        ensures
            r@ == tunnel_vh_points(self.start, self.end),
            r@.len() == abs_delta(self.start.x as int, self.end.x as int) + abs_delta(
                self.start.y as int,
                self.end.y as int,
            ) + 2,
    {
        proof {
            lemma_tunnel_counts(self.start, self.end);
        }
        let mut it = self.tunnel_vertical_horizontal_iter();
        let mut out: Vec<Coordinate> = Vec::new();
        loop
            invariant_except_break
                it.wf(),
                out@ + it.pending() == tunnel_vh_points(self.start, self.end),
            ensures
                out@ == tunnel_vh_points(self.start, self.end),
            decreases it.pending().len(),
        {
            match it.next() {
                Some(p) => {
                    out.push(p);
                    proof {
                        assert(out@ + it.pending() =~= tunnel_vh_points(self.start, self.end));
                    }
                },
                None => {
                    proof {
                        assert(out@ =~= out@ + it.pending());
                    }
                    break ;
                },
            }
        }
        out
    }

    /// Returns an axis aligned bounding box containing the line.
    pub fn aabb(self) -> (r: Rectangle)
        requires
            self.bounded(),
        ensures
            r.position.x == if self.start.x <= self.end.x {
                self.start.x
            } else {
                self.end.x
            },
            r.position.y == if self.start.y <= self.end.y {
                self.start.y
            } else {
                self.end.y
            },
            r.right_spec() == if self.start.x <= self.end.x {
                self.end.x
            } else {
                self.start.x
            },
            r.top_spec() == if self.start.y <= self.end.y {
                self.end.y
            } else {
                self.start.y
            },
            r.bounded(),
    {
        Rectangle::from_corners(self.start, self.end)
    }
}

impl Default for Line {
    /// A unit-length horizontal line at the origin.
    fn default() -> (r: Line)
        ensures
            r.start.x == 0,
            r.start.y == 0,
            r.end.x == 1,
            r.end.y == 0,
    {
        Line { start: Coordinate { x: 0, y: 0 }, end: Coordinate { x: 1, y: 0 } }
    }
}

} // verus!
