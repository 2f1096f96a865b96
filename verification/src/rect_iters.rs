//! The rectangle rasterizers: a row-major fill walk and a perimeter walk.
use vstd::prelude::*;

use crate::units::{Coordinate, Size};

verus! {

/// One row of a rectangle fill: `w` cells starting at `pos + (0, y)`.
pub open spec fn rect_row(pos: Coordinate, w: int, y: int) -> Seq<Coordinate> {
    Seq::new(
        (if w < 0 {
            0
        } else {
            w
        }) as nat,
        |i: int| Coordinate { x: (pos.x + i) as i32, y: (pos.y + y) as i32 },
    )
}

/// The fill rows of a rectangle from row `y` up, concatenated in ascending
/// row order.
pub open spec fn rect_rows_from(pos: Coordinate, w: int, h: int, y: int) -> Seq<Coordinate>
    decreases h - y,
{
    if y >= h {
        Seq::empty()
    } else {
        rect_row(pos, w, y) + rect_rows_from(pos, w, h, y + 1)
    }
}

/// The row-major fill of a rectangle: all cells of row 0, then row 1, and so
/// on.
pub open spec fn rect_points(pos: Coordinate, size: Size) -> Seq<Coordinate> {
    rect_rows_from(pos, size.width as int, size.height as int, 0)
}

/// One row of a rectangle border: the full row on the bottom and top rows,
/// otherwise only the leftmost and rightmost cells.
pub open spec fn border_row(pos: Coordinate, w: int, h: int, y: int) -> Seq<Coordinate> {
    if y == 0 || y == h - 1 || w <= 1 {
        rect_row(pos, w, y)
    } else {
        seq![
            Coordinate { x: pos.x, y: (pos.y + y) as i32 },
            Coordinate { x: (pos.x + w - 1) as i32, y: (pos.y + y) as i32 },
        ]
    }
}

/// The border rows of a rectangle from row `y` up, concatenated in ascending
/// row order.
pub open spec fn border_rows_from(pos: Coordinate, w: int, h: int, y: int) -> Seq<Coordinate>
    decreases h - y,
{
    if y >= h {
        Seq::empty()
    } else {
        border_row(pos, w, h, y) + border_rows_from(pos, w, h, y + 1)
    }
}

/// The perimeter walk of a rectangle, row by row.
pub open spec fn rect_border_points(pos: Coordinate, size: Size) -> Seq<Coordinate> {
    border_rows_from(pos, size.width as int, size.height as int, 0)
}

/// A zero-width rectangle has no fill cells on any row.
pub proof fn lemma_rect_rows_zero_width(pos: Coordinate, h: int, y: int)
    ensures
        rect_rows_from(pos, 0, h, y) == Seq::<Coordinate>::empty(),
    decreases h - y,
{
    if y < h {
        lemma_rect_rows_zero_width(pos, h, y + 1);
        assert(rect_rows_from(pos, 0, h, y) =~= Seq::<Coordinate>::empty());
    }
}

/// A zero-width rectangle has no border cells on any row.
pub proof fn lemma_border_rows_zero_width(pos: Coordinate, h: int, y: int)
    ensures
        border_rows_from(pos, 0, h, y) == Seq::<Coordinate>::empty(),
    decreases h - y,
{
    if y < h {
        lemma_border_rows_zero_width(pos, h, y + 1);
        assert(border_rows_from(pos, 0, h, y) =~= Seq::<Coordinate>::empty());
    }
}

/// Walks every cell of a rectangle in row-major order.
#[derive(Clone, Debug)]
pub struct RectangleIter {
    offset: Coordinate,
    max_offset: Coordinate,
    position: Coordinate,
}

impl RectangleIter {
    pub closed spec fn wf(self) -> bool {
        let w = self.max_offset.x as int;
        let h = self.max_offset.y as int;
        &&& -0x2000_0000 <= self.position.x <= 0x2000_0000
        &&& -0x2000_0000 <= self.position.y <= 0x2000_0000
        &&& 0 <= w <= 0x2000_0000
        &&& 0 <= h <= 0x2000_0000
        &&& 0 <= self.offset.y <= h
        &&& if w > 0 {
            0 <= self.offset.x < w
        } else {
            self.offset.x == 0
        }
        &&& self.offset.y == h ==> self.offset.x == 0
    }

    /// The points this iterator will still emit.
    pub closed spec fn pending(self) -> Seq<Coordinate> {
        let w = self.max_offset.x as int;
        let h = self.max_offset.y as int;
        if self.offset.y >= h || w == 0 {
            Seq::empty()
        } else {
            rect_row(self.position, w, self.offset.y as int).skip(self.offset.x as int)
                + rect_rows_from(self.position, w, h, self.offset.y + 1)
        }
    }

    pub fn new(position: Coordinate, size: Size) -> (r: RectangleIter)
        requires
            -0x2000_0000 <= position.x <= 0x2000_0000,
            -0x2000_0000 <= position.y <= 0x2000_0000,
            size.width <= 0x2000_0000,
            size.height <= 0x2000_0000,
        ensures
            r.wf(),
            r.pending() == rect_points(position, size),
    {
        let max_offset = Coordinate::new(size.width as i32, size.height as i32);

        let r = RectangleIter { offset: Coordinate::new(0, 0), max_offset, position };
        proof {
            if size.width == 0 {
                lemma_rect_rows_zero_width(position, size.height as int, 0);
            }
            assert(r.pending() =~= rect_points(position, size));
        }
        r
    }

    pub fn next(&mut self) -> (r: Option<Coordinate>)
        requires
            old(self).wf(),
        ensures
            final(self).wf(),
            old(self).pending().len() == 0 ==> r is None && *final(self) == *old(self),
            old(self).pending().len() > 0 ==> (r matches Some(p) && p == old(self).pending()[0]
                && final(self).pending() == old(self).pending().drop_first()),
    {
        if self.max_offset.x == 0 || self.offset.y >= self.max_offset.y {
            return None;
        }

        let p = self.offset;

        self.offset.set_x(self.offset.x + 1);

        if self.offset.x >= self.max_offset.x {
            self.offset.set_x(0);
            self.offset.set_y(self.offset.y + 1);
        }

        proof {
            assert(old(self).pending()[0] == rect_row(
                self.position,
                self.max_offset.x as int,
                p.y as int,
            )[p.x as int]);
            assert(self.pending() =~= old(self).pending().drop_first());
        }
        Some(Coordinate::new(self.position.x + p.x, self.position.y + p.y))
    }
}

/// Walks the outermost cells of a rectangle, row by row.
#[derive(Clone, Debug)]
pub struct RectangleBorderIter {
    offset: Coordinate,
    max_offset: Coordinate,
    position: Coordinate,
}

impl RectangleBorderIter {
    pub closed spec fn wf(self) -> bool {
        let w = self.max_offset.x as int;
        let h = self.max_offset.y as int;
        &&& -0x2000_0000 <= self.position.x <= 0x2000_0000
        &&& -0x2000_0000 <= self.position.y <= 0x2000_0000
        &&& 0 <= w <= 0x2000_0000
        &&& 0 <= h <= 0x2000_0000
        &&& 0 <= self.offset.y <= h
        &&& if w > 0 {
            0 <= self.offset.x < w
        } else {
            self.offset.x == 0
        }
        &&& self.offset.y == h ==> self.offset.x == 0
        &&& (0 < self.offset.y < h - 1) ==> (self.offset.x == 0 || self.offset.x == w - 1)
    }

    /// What is left of the current border row from column offset `ox` on.
    pub open spec fn border_row_rest(pos: Coordinate, w: int, h: int, y: int, ox: int) -> Seq<
        Coordinate,
    > {
        if y == 0 || y == h - 1 || w <= 1 {
            rect_row(pos, w, y).skip(ox)
        } else if ox == 0 {
            border_row(pos, w, h, y)
        } else {
            seq![Coordinate { x: (pos.x + w - 1) as i32, y: (pos.y + y) as i32 }]
        }
    }

    /// The points this iterator will still emit.
    pub closed spec fn pending(self) -> Seq<Coordinate> {
        let w = self.max_offset.x as int;
        let h = self.max_offset.y as int;
        if self.offset.y >= h || w == 0 {
            Seq::empty()
        } else {
            RectangleBorderIter::border_row_rest(
                self.position,
                w,
                h,
                self.offset.y as int,
                self.offset.x as int,
            ) + border_rows_from(self.position, w, h, self.offset.y + 1)
        }
    }

    pub fn new(position: Coordinate, size: Size) -> (r: RectangleBorderIter)
        requires
            -0x2000_0000 <= position.x <= 0x2000_0000,
            -0x2000_0000 <= position.y <= 0x2000_0000,
            size.width <= 0x2000_0000,
            size.height <= 0x2000_0000,
        ensures
            r.wf(),
            r.pending() == rect_border_points(position, size),
    {
        let max_offset = Coordinate::new(size.width as i32, size.height as i32);

        let r = RectangleBorderIter { offset: Coordinate::new(0, 0), max_offset, position };
        proof {
            if size.width == 0 {
                lemma_border_rows_zero_width(position, size.height as int, 0);
            }
            assert(r.pending() =~= rect_border_points(position, size));
        }
        r
    }

    pub fn next(&mut self) -> (r: Option<Coordinate>)
        requires
            old(self).wf(),
        ensures
            final(self).wf(),
            old(self).pending().len() == 0 ==> r is None && *final(self) == *old(self),
            old(self).pending().len() > 0 ==> (r matches Some(p) && p == old(self).pending()[0]
                && final(self).pending() == old(self).pending().drop_first()),
    {
        if self.max_offset.x == 0 || self.offset.y >= self.max_offset.y {
            return None;
        }

        let p = self.offset;

        if self.offset.y == 0 || self.offset.y == self.max_offset.y - 1 {
            // Bottom and top rows are filled whole.
            self.offset.set_x(self.offset.x + 1);

            if self.offset.x >= self.max_offset.x {
                self.offset.set_x(0);
                self.offset.set_y(self.offset.y + 1);
            }
        } else {
            // Interior rows hold only their leftmost and rightmost cells.
            if self.offset.x == 0 && self.max_offset.x > 1 {
                self.offset.set_x(self.max_offset.x - 1);
            } else {
                self.offset.set_x(0);
                self.offset.set_y(self.offset.y + 1);
            }
        }

        proof {
            assert(self.pending() =~= old(self).pending().drop_first());
        }
        Some(Coordinate::new(self.position.x + p.x, self.position.y + p.y))
    }
}

} // verus!
