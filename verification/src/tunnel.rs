//! The L-shaped tunnel rasterizers: one horizontal and one vertical leg,
//! each walked as an inclusive range, with the shared corner emitted by both
//! legs.
use vstd::prelude::*;

use crate::linear::{span_between, LinearIter};
use crate::units::Coordinate;

verus! {

/// A point of a horizontal leg at row `y`.
pub open spec fn horiz_coord(v: int, y: i32) -> Coordinate {
    Coordinate { x: v as i32, y }
}

/// A point of a vertical leg at column `x`.
pub open spec fn vert_coord(x: i32, v: int) -> Coordinate {
    Coordinate { x, y: v as i32 }
}

/// The points of the horizontal-then-vertical tunnel from `s` to `e`: every
/// `x` between the endpoints at `s.y`, then every `y` between the endpoints
/// at `e.x`. The corner `(e.x, s.y)` appears once in each leg.
pub open spec fn tunnel_hv_points(s: Coordinate, e: Coordinate) -> Seq<Coordinate> {
    span_between(s.x as int, e.x as int).map_values(|v: int| horiz_coord(v, s.y)) + span_between(
        s.y as int,
        e.y as int,
    ).map_values(|v: int| vert_coord(e.x, v))
}

/// The points of the vertical-then-horizontal tunnel from `s` to `e`: every
/// `y` between the endpoints at `s.x`, then every `x` between the endpoints
/// at `e.y`. The corner `(s.x, e.y)` appears once in each leg.
pub open spec fn tunnel_vh_points(s: Coordinate, e: Coordinate) -> Seq<Coordinate> {
    span_between(s.y as int, e.y as int).map_values(|v: int| vert_coord(s.x, v)) + span_between(
        s.x as int,
        e.x as int,
    ).map_values(|v: int| horiz_coord(v, e.y))
}

/// Walks a tunnel's horizontal leg first, then its vertical leg.
#[derive(Clone, Debug)]
pub struct TunnelHorizontalVerticalLineIter {
    start: Coordinate,
    x: LinearIter,
    y: LinearIter,
    end: Coordinate,
}

impl TunnelHorizontalVerticalLineIter {
    pub closed spec fn wf(self) -> bool {
        self.x.wf() && self.y.wf()
    }

    /// The points this iterator will still emit.
    pub closed spec fn pending(self) -> Seq<Coordinate> {
        self.x.pending().map_values(|v: int| horiz_coord(v, self.start.y))
            + self.y.pending().map_values(|v: int| vert_coord(self.end.x, v))
    }

    pub fn new(start: Coordinate, end: Coordinate) -> (r: TunnelHorizontalVerticalLineIter)
        requires
            start.x < i32::MAX,
            start.y < i32::MAX,
            end.x < i32::MAX,
            end.y < i32::MAX,
        ensures
            r.wf(),
            r.pending() == tunnel_hv_points(start, end),
    {
        TunnelHorizontalVerticalLineIter {
            start,
            x: LinearIter::new(start.x, end.x),
            y: LinearIter::new(start.y, end.y),
            end,
        }
    }

    pub fn next(&mut self) -> (r: Option<Coordinate>)
        requires
            old(self).wf(),
        ensures
            final(self).wf(),
            old(self).pending().len() == 0 ==> r is None && *final(self) == *old(self),
            old(self).pending().len() > 0 ==> (r matches Some(p) && p == old(self).pending()[0]
                && final(self).pending() == old(self).pending().drop_first()),
    {
        let ghost hpart = self.x.pending().map_values(
            |v: int| horiz_coord(v, self.start.y),
        );
        let ghost vpart = self.y.pending().map_values(|v: int| vert_coord(self.end.x, v));
        if let Some(x) = self.x.next() {
            let r = Coordinate::new(x, self.start.y);
            proof {
                assert(old(self).pending()[0] == hpart[0]);
                assert(self.pending() =~= old(self).pending().drop_first());
            }
            Some(r)
        } else if let Some(y) = self.y.next() {
            let r = Coordinate::new(self.end.x, y);
            proof {
                assert(hpart.len() == 0);
                assert(old(self).pending()[0] == vpart[0]);
                assert(self.pending() =~= old(self).pending().drop_first());
            }
            Some(r)
        } else {
            None
        }
    }
}

/// Walks a tunnel's vertical leg first, then its horizontal leg.
#[derive(Clone, Debug)]
pub struct TunnelVerticalHorizontalLineIter {
    start: Coordinate,
    x: LinearIter,
    y: LinearIter,
    end: Coordinate,
}

impl TunnelVerticalHorizontalLineIter {
    pub closed spec fn wf(self) -> bool {
        self.x.wf() && self.y.wf()
    }

    /// The points this iterator will still emit.
    pub closed spec fn pending(self) -> Seq<Coordinate> {
        self.y.pending().map_values(|v: int| vert_coord(self.start.x, v))
            + self.x.pending().map_values(|v: int| horiz_coord(v, self.end.y))
    }

    pub fn new(start: Coordinate, end: Coordinate) -> (r: TunnelVerticalHorizontalLineIter)
        requires
            start.x < i32::MAX,
            start.y < i32::MAX,
            end.x < i32::MAX,
            end.y < i32::MAX,
        ensures
            r.wf(),
            r.pending() == tunnel_vh_points(start, end),
    {
        TunnelVerticalHorizontalLineIter {
            start,
            x: LinearIter::new(start.x, end.x),
            y: LinearIter::new(start.y, end.y),
            end,
        }
    }

    pub fn next(&mut self) -> (r: Option<Coordinate>)
        requires
            old(self).wf(),
        ensures
            final(self).wf(),
            old(self).pending().len() == 0 ==> r is None && *final(self) == *old(self),
            old(self).pending().len() > 0 ==> (r matches Some(p) && p == old(self).pending()[0]
                && final(self).pending() == old(self).pending().drop_first()),
    {
        let ghost vpart = self.y.pending().map_values(
            |v: int| vert_coord(self.start.x, v),
        );
        let ghost hpart = self.x.pending().map_values(|v: int| horiz_coord(v, self.end.y));
        if let Some(y) = self.y.next() {
            let r = Coordinate::new(self.start.x, y);
            proof {
                assert(old(self).pending()[0] == vpart[0]);
                assert(self.pending() =~= old(self).pending().drop_first());
            }
            Some(r)
        } else if let Some(x) = self.x.next() {
            let r = Coordinate::new(x, self.end.y);
            proof {
                assert(vpart.len() == 0);
                assert(old(self).pending()[0] == hpart[0]);
                assert(self.pending() =~= old(self).pending().drop_first());
            }
            Some(r)
        } else {
            None
        }
    }
}

} // verus!
