//! The circle value type: a center and a radius, with its extreme points,
//! bounding box, containment test and the midpoint rasterizers.
use vstd::prelude::*;

use crate::circle_iters::{
    circle_circ_points, circle_circ_raw, circle_fill_points, circle_fill_raw,
    lemma_fill_raw_len, seen_contains, CircleCircumferenceIter, CircleIter,
};
use crate::dedup::{lemma_dedup_from_len, lemma_dedup_from_no_duplicates, lemma_dedup_membership};
use crate::rectangle::Rectangle;
use crate::units::{in_extent, Coordinate};

verus! {

/// Represents a Circle on a grid
#[derive(Clone, Copy, PartialEq, Eq, Structural, Hash, Debug)]
pub struct Circle {
    pub center: Coordinate,
    pub radius: u32,
}

impl Circle {
    /// Center and radius stay within the safe range for the midpoint walk.
    pub open spec fn bounded(self) -> bool {
        &&& in_extent(self.center, 0x1000_0000)
        &&& self.radius <= 0x1000_0000
    }

    /// Creates a new circle.
    pub fn new(center: Coordinate, radius: u32) -> (r: Circle)
        ensures
            r.center == center,
            r.radius == radius,
    {
        Circle { center, radius }
    }

    /// Get the center of the circle
    pub fn center(self) -> (r: Coordinate)
        ensures
            r == self.center,
    {
        self.center
    }

    /// Get the left point of the circle
    pub fn left(self) -> (r: Coordinate)
        requires
            self.bounded(),
        ensures
            r.x == self.center.x - self.radius,
            r.y == self.center.y,
    {
        Coordinate::new(self.center.x - self.radius as i32, self.center.y)
    }

    /// Get the right point of the circle
    pub fn right(self) -> (r: Coordinate)
        requires
            self.bounded(),
        ensures
            r.x == self.center.x + self.radius,
            r.y == self.center.y,
    {
        Coordinate::new(self.center.x + self.radius as i32, self.center.y)
    }

    /// Get the top point of the circle
    pub fn top(self) -> (r: Coordinate)
        requires
            self.bounded(),
        ensures
            r.x == self.center.x,
            r.y == self.center.y + self.radius,
    {
        Coordinate::new(self.center.x, self.center.y + self.radius as i32)
    }

    /// Get the bottom point of the circle
    pub fn bottom(self) -> (r: Coordinate)
        requires
            self.bounded(),
        ensures
            r.x == self.center.x,
            r.y == self.center.y - self.radius,
    {
        Coordinate::new(self.center.x, self.center.y - self.radius as i32)
    }

    /// Provides the iterator over every cell of the filled circle.
    pub fn into_iter(self) -> (r: CircleIter)
        requires
            self.bounded(),
        ensures
            r.wf(),
            r.pending() == circle_fill_points(self.center, self.radius as int),
    {
        CircleIter::new(self.center, self.radius)
    }

    /// Provides an iterator over the outer most ring of cells
    pub fn circumference_iter(self) -> (r: CircleCircumferenceIter)
        requires
            self.bounded(),
        ensures
            r.wf(),
            r.pending() == circle_circ_points(self.center, self.radius as int),
    {
        CircleCircumferenceIter::new(self.center, self.radius)
    }

    /// Every cell of the filled circle, in emission order, each exactly
    /// once.
    pub fn points(self) -> (r: Vec<Coordinate>)
        requires
            self.bounded(),
        ensures
            r@ == circle_fill_points(self.center, self.radius as int),
            r@.no_duplicates(),
    {
        proof {
            lemma_dedup_from_no_duplicates(
                circle_fill_raw(self.center, self.radius as int),
                Set::empty(),
            );
        }
        let mut it = self.into_iter();
        let mut out: Vec<Coordinate> = Vec::new();
        loop
            invariant_except_break
                it.wf(),
                out@ + it.pending() == circle_fill_points(self.center, self.radius as int),
            ensures
                out@ == circle_fill_points(self.center, self.radius as int),
            decreases it.pending().len(),
        {
            let ghost pen = it.pending();
            match it.next() {
                Some(p) => {
                    out.push(p);
                    proof {
                        assert(out@ + it.pending() =~= circle_fill_points(
                            self.center,
                            self.radius as int,
                        ));
                    }
                },
                None => {
                    proof {
                        assert(out@ =~= out@ + pen);
                    }
                    break ;
                },
            }
        }
        out
    }

    /// Every cell of the circumference ring, in emission order, each
    /// exactly once.
    pub fn circumference_points(self) -> (r: Vec<Coordinate>)
        requires
            self.bounded(),
        ensures
            r@ == circle_circ_points(self.center, self.radius as int),
            r@.no_duplicates(),
    {
        proof {
            lemma_dedup_from_no_duplicates(
                circle_circ_raw(self.center, self.radius as int),
                Set::empty(),
            );
        }
        let mut it = self.circumference_iter();
        let mut out: Vec<Coordinate> = Vec::new();
        loop
            invariant_except_break
                it.wf(),
                out@ + it.pending() == circle_circ_points(self.center, self.radius as int),
            ensures
                out@ == circle_circ_points(self.center, self.radius as int),
            decreases it.pending().len(),
        {
            let ghost pen = it.pending();
            match it.next() {
                Some(p) => {
                    out.push(p);
                    proof {
                        assert(out@ + it.pending() =~= circle_circ_points(
                            self.center,
                            self.radius as int,
                        ));
                    }
                },
                None => {
                    proof {
                        assert(out@ =~= out@ + pen);
                    }
                    break ;
                },
            }
        }
        out
    }

    /// Get the number of cells inside the circle
    pub fn get_count(self) -> (r: u32)
        requires
            self.bounded(),
            self.radius <= 0x4000,
        ensures
            r == circle_fill_points(self.center, self.radius as int).len(),
    {
        proof {
            let rad = self.radius as int;
            lemma_dedup_from_len(circle_fill_raw(self.center, rad), Set::empty());
            lemma_fill_raw_len(self.center, rad);
            assert((rad + 1) * (4 * (2 * rad + 1)) + 5 * (2 * rad + 1) < 0x1_0000_0000) by (nonlinear_arith)
                requires
                    0 <= rad <= 0x4000,
            ;
        }
        let v = self.points();
        v.len() as u32
    }

    /// Determine if a position is inside the circle: true exactly when the
    /// filled rasterization emits it.
    pub fn contains(self, position: Coordinate) -> (r: bool)
        requires
            self.bounded(),
        ensures
            r == circle_fill_points(self.center, self.radius as int).contains(position),
            r == circle_fill_raw(self.center, self.radius as int).contains(position),
    {
        proof {
            lemma_dedup_membership(circle_fill_raw(self.center, self.radius as int));
        }
        let v = self.points();
        seen_contains(&v, position)
    }

    /// Returns an axis aligned bounding box containing the circle, computed
    /// algebraically from center and radius.
    pub fn aabb(self) -> (r: Rectangle)
        requires
            self.bounded(),
        ensures
            r.position.x == self.center.x - self.radius,
            r.position.y == self.center.y - self.radius,
            r.size.width == 2 * self.radius + 1,
            r.size.height == 2 * self.radius + 1,
            r.right_spec() == self.center.x + self.radius,
            r.top_spec() == self.center.y + self.radius,
            r.bounded(),
    {
        Rectangle::new(
            self.center.x - self.radius as i32,
            self.center.y - self.radius as i32,
            self.center.x + self.radius as i32,
            self.center.y + self.radius as i32,
        )
    }
}

impl Default for Circle {
    /// The unit-radius circle at the origin.
    fn default() -> (r: Circle)
        ensures
            r.center.x == 0,
            r.center.y == 0,
            r.radius == 1,
    {
        Circle { center: Coordinate { x: 0, y: 0 }, radius: 1 }
    }
}

} // verus!
