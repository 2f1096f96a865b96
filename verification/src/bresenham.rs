//! The Bresenham line rasterizer: an integer-error-accumulation walk from
//! start to end, octant-corrected.
use vstd::prelude::*;

use crate::octant::{
    chebyshev, in_extent_pair, lemma_octant_canonical, lemma_octant_roundtrip, octant_from,
    octant_of, octant_to, Octant,
};
use crate::units::Coordinate;

verus! {

/// The offset-space walk: starting at `(x, y)` with error term `d`, emit one
/// point per unit step in `x` until `x` passes `ex`, advancing `y` whenever
/// the error term is non-negative.
pub open spec fn bres_walk(x: int, y: int, d: int, ex: int, dx: int, dy: int) -> Seq<(int, int)>
    decreases ex + 1 - x,
{
    if x > ex {
        Seq::empty()
    } else if d >= 0 {
        seq![(x, y)] + bres_walk(x + 1, y + 1, d - dx + dy, ex, dx, dy)
    } else {
        seq![(x, y)] + bres_walk(x + 1, y, d + dy, ex, dx, dy)
    }
}

/// An offset-space point mapped back into world space through octant `o`.
pub open spec fn offset_coord(o: int, p: (int, int)) -> Coordinate {
    let q = octant_from(o, p);
    Coordinate { x: q.0 as i32, y: q.1 as i32 }
}

/// The exact sequence of coordinates the Bresenham rasterizer emits for the
/// line from `start` to `end`.
pub open spec fn line_points(start: Coordinate, end: Coordinate) -> Seq<Coordinate> {
    let o = octant_of(end.x - start.x, end.y - start.y);
    let s = octant_to(o, (start.x as int, start.y as int));
    let e = octant_to(o, (end.x as int, end.y as int));
    bres_walk(s.0, s.1, (e.1 - s.1) - (e.0 - s.0), e.0, e.0 - s.0, e.1 - s.1).map_values(
        |p: (int, int)| offset_coord(o, p),
    )
}

/// The state invariant the offset-space walk maintains, phrased over plain
/// integers: the error term `d` tracks its closed form and keeps the walk on
/// the discrete line `y = round(dy * x / dx)`.
pub open spec fn bres_state_inv(x: int, y: int, d: int, ex: int, dx: int, dy: int, sx: int, sy: int) -> bool {
    &&& 0 <= dy <= dx
    &&& ex == sx + dx
    &&& sx <= x <= ex
    &&& 0 <= y - sy
    &&& d == dy * (x - sx + 1) - dx * (y - sy + 1)
    &&& d <= dy
    &&& dx >= 1 ==> d < dy
    &&& dx >= 1 ==> dx * (y - sy) <= dy * (x - sx)
    &&& dx == 0 ==> y - sy <= x - sx
}

/// From any state satisfying the invariant, the walk emits exactly one point
/// per remaining `x`, starts at the current position, and ends on the line's
/// final row `sy + dy`.
pub proof fn lemma_bres_walk_props(x: int, y: int, d: int, ex: int, dx: int, dy: int, sx: int, sy: int)
    requires
        bres_state_inv(x, y, d, ex, dx, dy, sx, sy),
    ensures
        bres_walk(x, y, d, ex, dx, dy).len() == ex + 1 - x,
        bres_walk(x, y, d, ex, dx, dy)[0] == (x, y),
        bres_walk(x, y, d, ex, dx, dy)[ex - x] == (ex, sy + dy),
        forall|i: int|
            0 <= i < ex + 1 - x ==> #[trigger] bres_walk(x, y, d, ex, dx, dy)[i].0 == x + i,
        forall|i: int|
            0 <= i < ex - x ==> #[trigger] bres_walk(x, y, d, ex, dx, dy)[i + 1].1 == bres_walk(
                x,
                y,
                d,
                ex,
                dx,
                dy,
            )[i].1 || bres_walk(x, y, d, ex, dx, dy)[i + 1].1 == bres_walk(x, y, d, ex, dx, dy)[i].1
                + 1,
    decreases ex - x,
{
    if x == ex {
        reveal_with_fuel(bres_walk, 2);
        if dx >= 1 {
            assert(y - sy <= dy) by (nonlinear_arith)
                requires
                    dx >= 1,
                    0 <= dy <= dx,
                    dx * (y - sy) <= dy * (x - sx),
                    x - sx == dx,
            ;
            assert(y - sy >= dy) by (nonlinear_arith)
                requires
                    dx >= 1,
                    d < dy,
                    d == dy * (x - sx + 1) - dx * (y - sy + 1),
                    x - sx == dx,
            ;
        }
    } else {
        let y2: int = if d >= 0 {
            y + 1
        } else {
            y
        };
        let d2: int = if d >= 0 {
            d - dx + dy
        } else {
            d + dy
        };
        if d >= 0 {
            assert(d2 == dy * (x + 1 - sx + 1) - dx * (y + 1 - sy + 1)) by (nonlinear_arith)
                requires
                    d == dy * (x - sx + 1) - dx * (y - sy + 1),
                    d2 == d - dx + dy,
            ;
            assert(dx * (y + 1 - sy) <= dy * (x + 1 - sx)) by (nonlinear_arith)
                requires
                    d >= 0,
                    d == dy * (x - sx + 1) - dx * (y - sy + 1),
            ;
        } else {
            assert(d2 == dy * (x + 1 - sx + 1) - dx * (y - sy + 1)) by (nonlinear_arith)
                requires
                    d == dy * (x - sx + 1) - dx * (y - sy + 1),
                    d2 == d + dy,
            ;
            if dx >= 1 {
                assert(dx * (y - sy) <= dy * (x + 1 - sx)) by (nonlinear_arith)
                    requires
                        0 <= dy,
                        dx * (y - sy) <= dy * (x - sx),
                ;
            }
        }
        lemma_bres_walk_props(x + 1, y2, d2, ex, dx, dy, sx, sy);
        let w = bres_walk(x, y, d, ex, dx, dy);
        let rest = bres_walk(x + 1, y2, d2, ex, dx, dy);
        assert(w =~= seq![(x, y)] + rest);
        assert forall|i: int| 0 <= i < ex + 1 - x implies #[trigger] w[i].0 == x + i by {
            if i > 0 {
                assert(w[i] == rest[i - 1]);
            }
        }
        assert forall|i: int| 0 <= i < ex - x implies #[trigger] w[i + 1].1 == w[i].1 || w[i
            + 1].1 == w[i].1 + 1 by {
            if i == 0 {
                assert(w[1] == rest[0]);
            } else {
                assert(w[i] == rest[i - 1]);
                assert(rest[(i - 1) + 1] == rest[i]);
                assert(w[i + 1] == rest[i]);
            }
        }
    }
}

/// A rasterized line holds exactly `chebyshev + 1` points; the first is its
/// start and the last its end.
pub proof fn lemma_line_points_props(start: Coordinate, end: Coordinate)
    requires
        in_extent_pair(start, end),
    ensures
        line_points(start, end).len() == chebyshev(start, end) + 1,
        line_points(start, end)[0] == start,
        line_points(start, end)[chebyshev(start, end)] == end,
{
    lemma_octant_canonical(start, end);
    let o = octant_of(end.x - start.x, end.y - start.y);
    let s = octant_to(o, (start.x as int, start.y as int));
    let e = octant_to(o, (end.x as int, end.y as int));
    let dx = e.0 - s.0;
    let dy = e.1 - s.1;
    let d0 = dy - dx;
    assert(dy * (0 + 1) - dx * (0 + 1) == dy - dx) by (nonlinear_arith);
    lemma_bres_walk_props(s.0, s.1, d0, e.0, dx, dy, s.0, s.1);
    lemma_octant_roundtrip(o, (start.x as int, start.y as int));
    lemma_octant_roundtrip(o, (end.x as int, end.y as int));
}

/// Walks the points of a line from start to end.
#[derive(Clone)]
pub struct LineBresenhamIter {
    abs_x: i32,
    abs_y: i32,
    end_x: i32,
    delta_step: i32,
    delta_x: i32,
    delta_y: i32,
    octant: Octant,
    start_off: Ghost<(int, int)>,
}

impl LineBresenhamIter {
    /// The iterator's state is consistent: deltas are canonical, the error
    /// term tracks the closed form, and the walk stays inside the line's
    /// bounding ranges.
    pub closed spec fn wf(self) -> bool {
        let sx = self.start_off@.0;
        let sy = self.start_off@.1;
        let dx = self.delta_x as int;
        let dy = self.delta_y as int;
        &&& self.octant.0 < 8
        &&& 0 <= dy <= dx
        &&& self.end_x == sx + dx
        &&& -0x2000_0000 <= sx <= 0x2000_0000
        &&& -0x2000_0000 <= sy <= 0x2000_0000
        &&& -0x2000_0000 <= sy + dy <= 0x2000_0000
        &&& -0x2000_0000 <= self.end_x <= 0x2000_0000
        &&& sx <= self.abs_x <= self.end_x + 1
        &&& 0 <= self.abs_y - sy
        &&& self.delta_step == dy * (self.abs_x - sx + 1) - dx * (self.abs_y - sy + 1)
        &&& self.delta_step <= dy
        &&& dx >= 1 ==> self.delta_step < dy
        &&& dx >= 1 ==> dx * (self.abs_y - sy) <= dy * (self.abs_x - sx)
        &&& dx == 0 ==> self.abs_y - sy <= self.abs_x - sx
    }

    /// The points this iterator will still emit.
    pub closed spec fn pending(self) -> Seq<Coordinate> {
        let o = self.octant.0 as int;
        bres_walk(
            self.abs_x as int,
            self.abs_y as int,
            self.delta_step as int,
            self.end_x as int,
            self.delta_x as int,
            self.delta_y as int,
        ).map_values(|p: (int, int)| offset_coord(o, p))
    }

    pub fn new(start: Coordinate, end: Coordinate) -> (r: LineBresenhamIter)
        requires
            in_extent_pair(start, end),
        ensures
            r.wf(),
            r.pending() == line_points(start, end),
    {
        proof {
            lemma_octant_canonical(start, end);
        }
        let octant = Octant::new(start, end);

        let start_offset = octant.to_offset(start);
        let end_offset = octant.to_offset(end);

        let delta_x = end_offset.0 - start_offset.0;
        let delta_y = end_offset.1 - start_offset.1;

        let r = LineBresenhamIter {
            abs_x: start_offset.0,
            abs_y: start_offset.1,
            end_x: end_offset.0,
            delta_step: delta_y - delta_x,
            delta_x,
            delta_y,
            octant,
            start_off: Ghost((start_offset.0 as int, start_offset.1 as int)),
        };
        proof {
            let dx = r.delta_x as int;
            let dy = r.delta_y as int;
            assert(dy * (0 + 1) - dx * (0 + 1) == dy - dx) by (nonlinear_arith);
            assert(r.wf());
            assert(r.pending() =~= line_points(start, end));
        }
        r
    }

    /// Emits the point at the current position and advances the walk by one
    /// unit step along the major axis.
    pub fn advance(&mut self) -> (r: Coordinate)
        requires
            old(self).wf(),
            old(self).pending().len() > 0,
        ensures
            final(self).wf(),
            r == old(self).pending()[0],
            final(self).pending() == old(self).pending().drop_first(),
    {
        proof {
            assert(self.abs_x <= self.end_x);
            let sx = self.start_off@.0;
            let sy = self.start_off@.1;
            let dx = self.delta_x as int;
            let dy = self.delta_y as int;
            let xr = self.abs_x - sx;
            let yr = self.abs_y - sy;
            if dx >= 1 {
                assert(yr <= dy + 1) by (nonlinear_arith)
                    requires
                        dx >= 1,
                        0 <= dy <= dx,
                        dx * yr <= dy * xr,
                        xr <= dx + 1,
                        0 <= yr,
                ;
                assert(self.delta_step >= dy - dx) by (nonlinear_arith)
                    requires
                        dx >= 1,
                        0 <= dy,
                        dx * yr <= dy * xr,
                        self.delta_step == dy * (xr + 1) - dx * (yr + 1),
                ;
            } else {
                assert(dy == 0);
                assert(self.delta_step == 0) by (nonlinear_arith)
                    requires
                        self.delta_step == 0 * (xr + 1) - 0 * (yr + 1),
                ;
            }
        }
        let ghost prev = *self;
        let current_point = (self.abs_x, self.abs_y);
        if self.delta_step >= 0 {
            self.abs_y = self.abs_y + 1;
            self.delta_step = self.delta_step - self.delta_x;
        }

        self.delta_step = self.delta_step + self.delta_y;

        self.abs_x = self.abs_x + 1;

        proof {
            let sx = prev.start_off@.0;
            let sy = prev.start_off@.1;
            let dx = prev.delta_x as int;
            let dy = prev.delta_y as int;
            let xr = prev.abs_x - sx;
            let yr = prev.abs_y - sy;
            if prev.delta_step >= 0 {
                assert(self.delta_step == dy * (xr + 2) - dx * (yr + 2)) by (nonlinear_arith)
                    requires
                        prev.delta_step == dy * (xr + 1) - dx * (yr + 1),
                        self.delta_step == prev.delta_step - dx + dy,
                ;
                assert(dx * (yr + 1) <= dy * (xr + 1)) by (nonlinear_arith)
                    requires
                        prev.delta_step >= 0,
                        prev.delta_step == dy * (xr + 1) - dx * (yr + 1),
                ;
            } else {
                assert(self.delta_step == dy * (xr + 2) - dx * (yr + 1)) by (nonlinear_arith)
                    requires
                        prev.delta_step == dy * (xr + 1) - dx * (yr + 1),
                        self.delta_step == prev.delta_step + dy,
                ;
                if dx >= 1 {
                    assert(dx * yr <= dy * (xr + 1)) by (nonlinear_arith)
                        requires
                            0 <= dy,
                            dx * yr <= dy * xr,
                    ;
                }
            }
            assert(self.wf());
        }
        let r = self.octant.from_offset(current_point);
        proof {
            let o = prev.octant.0 as int;
            assert(old(self).pending()[0] == offset_coord(o, (prev.abs_x as int, prev.abs_y as int)));
            assert(r == old(self).pending()[0]);
            assert(self.pending() =~= old(self).pending().drop_first());
        }
        r
    }

    pub fn next(&mut self) -> (r: Option<Coordinate>)
        requires
            old(self).wf(),
        ensures
            final(self).wf(),
            old(self).pending().len() == 0 ==> r is None && *final(self) == *old(self),
            old(self).pending().len() > 0 ==> r == Some(old(self).pending()[0])
                && final(self).pending() == old(self).pending().drop_first(),
    {
        if self.abs_x > self.end_x {
            None
        } else {
            Some(self.advance())
        }
    }
}

} // verus!
