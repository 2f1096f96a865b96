//! The library-level laws: facts that relate the shapes' derived queries to
//! the point sequences their rasterizers produce.
use vstd::prelude::*;

use crate::bresenham::{lemma_line_points_props, line_points};
use crate::circle_iters::{
    circ_emits_from, circle_circ_points, circle_circ_raw, circle_d0, circle_fill_points,
    circle_fill_raw, cpt, fill_emits_from, mid_step, CircleCircumferenceIterStep, CircleIterStep,
};
use crate::dedup::{dedup_from, lemma_dedup_membership};
use crate::units::in_extent;
use crate::line::Line;
use crate::rect_iters::{border_row, border_rows_from, rect_border_points, rect_points, rect_row, rect_rows_from};
use crate::rectangle::Rectangle;
use crate::tunnel::{tunnel_hv_points, tunnel_vh_points};
use crate::units::{Coordinate, Size};

verus! {

/// A line rasterizes to exactly as many points as its length: one more than
/// the Chebyshev distance of its endpoints.
pub proof fn lemma_line_len_counts_points(line: Line)
    requires
        line.bounded(),
    ensures
        line_points(line.start, line.end).len() == line.len_spec(),
{
    lemma_line_points_props(line.start, line.end);
}

/// A rasterized line starts at its start point and ends at its end point.
pub proof fn lemma_line_endpoints(line: Line)
    requires
        line.bounded(),
    ensures
        line_points(line.start, line.end)[0] == line.start,
        line_points(line.start, line.end)[line.len_spec() - 1] == line.end,
{
    lemma_line_points_props(line.start, line.end);
}

/// Both tunnel walks emit `(|dx| + 1) + (|dy| + 1)` points, and the leg
/// corner appears twice: once at the end of one leg's range and once inside
/// the other leg.
pub proof fn lemma_tunnel_counts(s: Coordinate, e: Coordinate)
    ensures
        tunnel_hv_points(s, e).len() == abs_delta(s.x as int, e.x as int) + abs_delta(
            s.y as int,
            e.y as int,
        ) + 2,
        tunnel_vh_points(s, e).len() == abs_delta(s.x as int, e.x as int) + abs_delta(
            s.y as int,
            e.y as int,
        ) + 2,
        tunnel_hv_points(s, e)[hv_corner_first(s, e)] == (Coordinate { x: e.x, y: s.y }),
        tunnel_hv_points(s, e)[hv_corner_second(s, e)] == (Coordinate { x: e.x, y: s.y }),
        hv_corner_first(s, e) != hv_corner_second(s, e),
        tunnel_vh_points(s, e)[vh_corner_first(s, e)] == (Coordinate { x: s.x, y: e.y }),
        tunnel_vh_points(s, e)[vh_corner_second(s, e)] == (Coordinate { x: s.x, y: e.y }),
        vh_corner_first(s, e) != vh_corner_second(s, e),
{
}

/// The magnitude of the difference of two integers.
pub open spec fn abs_delta(a: int, b: int) -> int {
    if b >= a {
        b - a
    } else {
        a - b
    }
}

/// Where the corner `(e.x, s.y)` sits inside the horizontal leg of the
/// horizontal-then-vertical tunnel.
pub open spec fn hv_corner_first(s: Coordinate, e: Coordinate) -> int {
    if e.x >= s.x {
        e.x - s.x
    } else {
        0
    }
}

/// Where the corner `(e.x, s.y)` sits inside the vertical leg of the
/// horizontal-then-vertical tunnel.
pub open spec fn hv_corner_second(s: Coordinate, e: Coordinate) -> int {
    abs_delta(s.x as int, e.x as int) + 1 + if s.y >= e.y {
        s.y - e.y
    } else {
        0
    }
}

/// Where the corner `(s.x, e.y)` sits inside the vertical leg of the
/// vertical-then-horizontal tunnel.
pub open spec fn vh_corner_first(s: Coordinate, e: Coordinate) -> int {
    if e.y >= s.y {
        e.y - s.y
    } else {
        0
    }
}

/// Where the corner `(s.x, e.y)` sits inside the horizontal leg of the
/// vertical-then-horizontal tunnel.
pub open spec fn vh_corner_second(s: Coordinate, e: Coordinate) -> int {
    abs_delta(s.y as int, e.y as int) + 1 + if s.x >= e.x {
        s.x - e.x
    } else {
        0
    }
}

/// Two rectangles of positive size intersect exactly when they share a grid
/// point: overlapping closed projections on both axes are the same thing as
/// a common cell.
pub proof fn lemma_intersects_iff_common_point(a: Rectangle, b: Rectangle)
    requires
        a.bounded(),
        b.bounded(),
        a.size.width >= 1,
        a.size.height >= 1,
        b.size.width >= 1,
        b.size.height >= 1,
    ensures
        a.intersects_spec(b) <==> exists|p: Coordinate| a.contains_spec(p) && b.contains_spec(p),
{
    if a.intersects_spec(b) {
        let px: i32 = if a.position.x >= b.position.x {
            a.position.x
        } else {
            b.position.x
        };
        let py: i32 = if a.position.y >= b.position.y {
            a.position.y
        } else {
            b.position.y
        };
        let p = Coordinate { x: px, y: py };
        assert(a.contains_spec(p) && b.contains_spec(p));
    }
}

/// Every row of a rectangle fill holds `width` cells, so the fill holds
/// `width * height` cells in all.
pub proof fn lemma_rect_rows_len(pos: Coordinate, w: int, h: int, y: int)
    requires
        0 <= w,
        0 <= y,
    ensures
        rect_rows_from(pos, w, h, y).len() == if y < h {
            (h - y) * w
        } else {
            0
        },
    decreases h - y,
{
    if y < h {
        lemma_rect_rows_len(pos, w, h, y + 1);
        assert(rect_rows_from(pos, w, h, y) == rect_row(pos, w, y) + rect_rows_from(
            pos,
            w,
            h,
            y + 1,
        ));
        assert(rect_row(pos, w, y).len() == w);
        if y + 1 < h {
            assert((h - y) * w == w + (h - y - 1) * w) by (nonlinear_arith);
        } else {
            assert((h - y) * w == w) by (nonlinear_arith)
                requires
                    h - y == 1,
            ;
        }
    }
}

/// A rectangle fill holds exactly `width * height` points.
pub proof fn lemma_rect_points_len(pos: Coordinate, size: Size)
    ensures
        rect_points(pos, size).len() == size.width * size.height,
{
    lemma_rect_rows_len(pos, size.width as int, size.height as int, 0);
    assert(size.height * size.width == size.width * size.height) by (nonlinear_arith);
    if size.height == 0 {
        assert(size.width * size.height == 0) by (nonlinear_arith)
            requires
                size.height == 0,
        ;
    }
}

/// The fill is emitted row-major: the point at rank `row * width + col` is
/// the cell `col` to the right and `row` above the minimum corner.
pub proof fn lemma_rect_points_row_major(pos: Coordinate, size: Size, row: int, col: int)
    requires
        0 <= col < size.width,
        0 <= row < size.height,
    ensures
        rect_points(pos, size)[row * size.width + col] == (Coordinate {
            x: (pos.x + col) as i32,
            y: (pos.y + row) as i32,
        }),
{
    lemma_rect_rows_index(pos, size.width as int, size.height as int, 0, row, col);
}

/// Indexing into the concatenated rows from `y0` on: the cell `col` of row
/// `row` sits `(row - y0) * w + col` in.
proof fn lemma_rect_rows_index(pos: Coordinate, w: int, h: int, y0: int, row: int, col: int)
    requires
        0 <= col < w,
        0 <= y0 <= row < h,
    ensures
        rect_rows_from(pos, w, h, y0)[(row - y0) * w + col] == (Coordinate {
            x: (pos.x + col) as i32,
            y: (pos.y + row) as i32,
        }),
    decreases row - y0,
{
    lemma_rect_rows_len(pos, w, h, y0);
    lemma_rect_rows_len(pos, w, h, y0 + 1);
    if row == y0 {
        assert((row - y0) * w + col == col) by (nonlinear_arith)
            requires
                row == y0,
        ;
    } else {
        lemma_rect_rows_index(pos, w, h, y0 + 1, row, col);
        let k = (row - y0) * w + col;
        assert(k - w == (row - y0 - 1) * w + col && w <= k < (h - y0) * w) by (nonlinear_arith)
            requires
                k == (row - y0) * w + col,
                row - y0 >= 1,
                row < h,
                0 <= col < w,
        ;
        assert(rect_rows_from(pos, w, h, y0)[k] == rect_rows_from(pos, w, h, y0 + 1)[k - w]);
    }
}


/// Every point the circumference walk emits from a cycle is covered by that
/// cycle's filled spans: each of the eight symmetric points is an endpoint
/// of one of the four vertical segments.
#[verifier::rlimit(100)]
proof fn lemma_circ_cycle_in_fill(c: Coordinate, d: int, x: int, y: int)
    requires
        in_extent(c, 0x1000_0000),
        0 <= x <= y <= 0x1000_0000,
    ensures
        forall|p: Coordinate| #[trigger]
            circ_emits_from(c, d, x, y, CircleCircumferenceIterStep::Line1).contains(p)
                ==> fill_emits_from(c, d, x, y, CircleIterStep::Line1).contains(p),
    decreases y - x,
{
    reveal_with_fuel(circ_emits_from, 10);
    reveal_with_fuel(fill_emits_from, 6);
    let cx = c.x as int;
    let cy = c.y as int;
    let pts = seq![
        cpt(cx + x, cy + y),
        cpt(cx + x, cy - y),
        cpt(cx - x, cy + y),
        cpt(cx - x, cy - y),
        cpt(cx + y, cy + x),
        cpt(cx + y, cy - x),
        cpt(cx - y, cy + x),
        cpt(cx - y, cy - x),
    ];
    let seg1 = line_points(cpt(cx + x, cy + y), cpt(cx + x, cy - y));
    let seg2 = line_points(cpt(cx - x, cy + y), cpt(cx - x, cy - y));
    let seg3 = line_points(cpt(cx + y, cy + x), cpt(cx + y, cy - x));
    let seg4 = line_points(cpt(cx - y, cy + x), cpt(cx - y, cy - x));
    lemma_line_points_props(cpt(cx + x, cy + y), cpt(cx + x, cy - y));
    lemma_line_points_props(cpt(cx - x, cy + y), cpt(cx - x, cy - y));
    lemma_line_points_props(cpt(cx + y, cy + x), cpt(cx + y, cy - x));
    lemma_line_points_props(cpt(cx - y, cy + x), cpt(cx - y, cy - x));
    let (d2, x2, y2) = mid_step(d, x, y);
    let ctail = if x2 > y2 {
        Seq::<Coordinate>::empty()
    } else {
        circ_emits_from(c, d2, x2, y2, CircleCircumferenceIterStep::Line1)
    };
    let ftail = if x2 > y2 {
        Seq::<Coordinate>::empty()
    } else {
        fill_emits_from(c, d2, x2, y2, CircleIterStep::Line1)
    };
    let cw = circ_emits_from(c, d, x, y, CircleCircumferenceIterStep::Line1);
    let fw = fill_emits_from(c, d, x, y, CircleIterStep::Line1);
    assert(cw =~= pts + ctail);
    assert(fw =~= seg1 + seg2 + seg3 + seg4 + ftail);
    if x2 <= y2 {
        lemma_circ_cycle_in_fill(c, d2, x2, y2);
    }
    let l1 = seg1.len() as int;
    let l2 = seg2.len() as int;
    let l3 = seg3.len() as int;
    let l4 = seg4.len() as int;
    assert forall|p: Coordinate| #[trigger] cw.contains(p) implies fw.contains(p) by {
        let i = choose|i: int| 0 <= i < cw.len() && cw[i] == p;
        if i < 8 {
            assert(p == pts[i]);
            if i == 0 {
                assert(fw[0] == p);
            } else if i == 1 {
                assert(fw[l1 - 1] == p);
            } else if i == 2 {
                assert(fw[l1] == p);
            } else if i == 3 {
                assert(fw[l1 + l2 - 1] == p);
            } else if i == 4 {
                assert(fw[l1 + l2] == p);
            } else if i == 5 {
                assert(fw[l1 + l2 + l3 - 1] == p);
            } else if i == 6 {
                assert(fw[l1 + l2 + l3] == p);
            } else {
                assert(fw[l1 + l2 + l3 + l4 - 1] == p);
            }
            assert(fw.contains(p));
        } else {
            assert(ctail[i - 8] == p);
            assert(ctail.contains(p));
            let j = choose|j: int| 0 <= j < ftail.len() && ftail[j] == p;
            assert(fw[l1 + l2 + l3 + l4 + j] == p);
            assert(fw.contains(p));
        }
    }
}

/// The point set a circle's filled iterator produces is a superset of the
/// point set its circumference iterator produces.
pub proof fn lemma_circumference_within_fill(center: Coordinate, radius: int)
    requires
        in_extent(center, 0x1000_0000),
        0 <= radius <= 0x1000_0000,
    ensures
        circle_circ_points(center, radius).to_set() <= circle_fill_points(center, radius).to_set(),
{
    lemma_circ_cycle_in_fill(center, circle_d0(radius), 0, radius);
    lemma_dedup_membership(circle_circ_raw(center, radius));
    lemma_dedup_membership(circle_fill_raw(center, radius));
    assert forall|p: Coordinate| circle_circ_points(center, radius).to_set().contains(p)
        implies circle_fill_points(center, radius).to_set().contains(p) by {
        assert(circle_circ_raw(center, radius).contains(p));
        assert(circle_fill_points(center, radius).contains(p));
    }
}

/// Suppressing revisited points changes no membership: the containment test
/// over the produced (deduplicated) sequence agrees with raw emission
/// membership.
pub proof fn lemma_contains_agrees_with_raw(center: Coordinate, radius: int, p: Coordinate)
    ensures
        circle_fill_points(center, radius).contains(p) <==> circle_fill_raw(
            center,
            radius,
        ).contains(p),
{
    lemma_dedup_membership(circle_fill_raw(center, radius));
}

/// A circle of radius zero rasterizes, both filled and as a circumference,
/// to exactly one point: its center.
pub proof fn lemma_degenerate_circle(center: Coordinate)
    requires
        in_extent(center, 0x1000_0000),
    ensures
        circle_fill_points(center, 0) == seq![center],
        circle_circ_points(center, 0) == seq![center],
{
    reveal_with_fuel(circ_emits_from, 12);
    reveal_with_fuel(fill_emits_from, 8);
    let cx = center.x as int;
    let cy = center.y as int;
    assert(cpt(cx, cy) == center);
    lemma_line_points_props(cpt(cx, cy), cpt(cx, cy));
    let seg = line_points(cpt(cx, cy), cpt(cx, cy));
    assert(seg =~= seq![center]);
    assert(circle_fill_raw(center, 0) =~= seq![center, center, center, center]);
    assert(circle_circ_raw(
        center,
        0,
    ) =~= seq![center, center, center, center, center, center, center, center]);
    lemma_dedup_of_repeats(seq![center, center, center, center], center);
    lemma_dedup_of_repeats(
        seq![center, center, center, center, center, center, center, center],
        center,
    );
    assert(circle_fill_points(center, 0) == seq![center]);
    assert(circle_circ_points(center, 0) == seq![center]);
}

/// Deduplicating a nonempty run of one repeated point leaves exactly that
/// point.
proof fn lemma_dedup_of_repeats(s: Seq<Coordinate>, p: Coordinate)
    requires
        s.len() >= 1,
        forall|i: int| 0 <= i < s.len() ==> s[i] == p,
    ensures
        dedup_from(s, Set::empty()) == seq![p],
{
    assert(dedup_from(s, Set::empty()) =~= seq![p] + dedup_from(
        s.drop_first(),
        Set::empty().insert(p),
    ));
    lemma_dedup_seen_repeats(s.drop_first(), p);
    assert(dedup_from(s, Set::empty()) =~= seq![p]);
}

/// Deduplicating a run of one already-seen point leaves nothing.
proof fn lemma_dedup_seen_repeats(s: Seq<Coordinate>, p: Coordinate)
    requires
        forall|i: int| 0 <= i < s.len() ==> s[i] == p,
    ensures
        dedup_from(s, Set::empty().insert(p)) == Seq::<Coordinate>::empty(),
    decreases s.len(),
{
    if s.len() > 0 {
        lemma_dedup_seen_repeats(s.drop_first(), p);
    }
}


/// On a rectangle at most two cells wide or at most two cells tall, every
/// row is a boundary row (or holds only boundary columns), so the border
/// walk degenerates to the full row-major fill. This follows from the
/// general border rule, with no special case in the walk itself.
pub proof fn lemma_border_degenerates_to_fill(pos: Coordinate, size: Size)
    requires
        size.width <= 2 || size.height <= 2,
    ensures
        rect_border_points(pos, size) == rect_points(pos, size),
{
    lemma_border_rows_degenerate(pos, size.width as int, size.height as int, 0);
}

/// Row by row, the border of a narrow or flat rectangle equals its fill.
proof fn lemma_border_rows_degenerate(pos: Coordinate, w: int, h: int, y: int)
    requires
        w <= 2 || h <= 2,
        0 <= y,
    ensures
        border_rows_from(pos, w, h, y) == rect_rows_from(pos, w, h, y),
    decreases h - y,
{
    if y < h {
        lemma_border_rows_degenerate(pos, w, h, y + 1);
        if !(y == 0 || y == h - 1 || w <= 1) {
            assert(w == 2);
            assert(rect_row(pos, w, y).len() == 2);
            assert(border_row(pos, w, h, y)[0] == rect_row(pos, w, y)[0]);
            assert(border_row(pos, w, h, y)[1] == rect_row(pos, w, y)[1]);
        }
        assert(border_row(pos, w, h, y) =~= rect_row(pos, w, y));
        assert(border_rows_from(pos, w, h, y) =~= rect_rows_from(pos, w, h, y));
    } else {
        assert(border_rows_from(pos, w, h, y) =~= rect_rows_from(pos, w, h, y));
    }
}

} // verus!
