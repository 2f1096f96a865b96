//! Octant transposition: maps an arbitrary line direction onto the canonical
//! shallow, +x, +y octant so one Bresenham stepping rule suffices.
use vstd::prelude::*;

use crate::units::Coordinate;

verus! {

/// One of the 8 symmetric directional sectors around a point. The tag is
/// always below 8.
#[derive(Clone, Copy, PartialEq, Eq, Structural, Debug)]
pub struct Octant(pub u8);

/// The transform that octant `o` applies to a point to bring it into
/// octant-0 space.
pub open spec fn octant_to(o: int, p: (int, int)) -> (int, int) {
    if o == 0 {
        (p.0, p.1)
    } else if o == 1 {
        (p.1, p.0)
    } else if o == 2 {
        (p.1, -p.0)
    } else if o == 3 {
        (-p.0, p.1)
    } else if o == 4 {
        (-p.0, -p.1)
    } else if o == 5 {
        (-p.1, -p.0)
    } else if o == 6 {
        (-p.1, p.0)
    } else {
        (p.0, -p.1)
    }
}

/// The inverse transform: maps an octant-0 space point of octant `o` back to
/// the world space.
pub open spec fn octant_from(o: int, p: (int, int)) -> (int, int) {
    if o == 0 {
        (p.0, p.1)
    } else if o == 1 {
        (p.1, p.0)
    } else if o == 2 {
        (-p.1, p.0)
    } else if o == 3 {
        (-p.0, p.1)
    } else if o == 4 {
        (-p.0, -p.1)
    } else if o == 5 {
        (-p.1, -p.0)
    } else if o == 6 {
        (p.1, -p.0)
    } else {
        (p.0, -p.1)
    }
}

/// The octant tag chosen for a line whose deltas are `dx`, `dy`: mirror
/// vertically when `dy < 0`, then diagonally when `dx < 0`, then reflect
/// across the 45-degree axis when the (mirrored) `dx < dy`.
pub open spec fn octant_of(dx: int, dy: int) -> int {
    let (dx1, dy1, o1): (int, int, int) = if dy < 0 {
        (-dx, -dy, 4)
    } else {
        (dx, dy, 0)
    };
    let (dx2, dy2, o2): (int, int, int) = if dx1 < 0 {
        (dy1, -dx1, o1 + 2)
    } else {
        (dx1, dy1, o1)
    };
    if dx2 < dy2 {
        o2 + 1
    } else {
        o2
    }
}

/// Chebyshev distance between two points: the larger coordinate delta.
pub open spec fn chebyshev(a: Coordinate, b: Coordinate) -> int {
    let dx = if b.x >= a.x {
        b.x - a.x
    } else {
        a.x - b.x
    };
    let dy = if b.y >= a.y {
        b.y - a.y
    } else {
        a.y - b.y
    };
    if dx >= dy {
        dx
    } else {
        dy
    }
}

/// `octant_from` undoes `octant_to`.
pub proof fn lemma_octant_roundtrip(o: int, p: (int, int))
    requires
        0 <= o < 8,
    ensures
        octant_from(o, octant_to(o, p)) == p,
        octant_to(o, octant_from(o, p)) == p,
{
}

/// The octant chosen for a pair of endpoints canonicalizes their deltas:
/// in octant-0 space the line runs with `0 <= dy <= dx`, and the major
/// delta is the Chebyshev distance of the endpoints.
pub proof fn lemma_octant_canonical(a: Coordinate, b: Coordinate)
    requires
        in_extent_pair(a, b),
    ensures
        0 <= octant_of(b.x - a.x, b.y - a.y) < 8,
        canonical_deltas(a, b),
{
}

/// In octant-0 space of `octant_of`'s choice the transformed deltas satisfy
/// `0 <= dy <= dx`, and `dx` equals the Chebyshev distance.
pub open spec fn canonical_deltas(a: Coordinate, b: Coordinate) -> bool {
    let o = octant_of(b.x - a.x, b.y - a.y);
    let s = octant_to(o, (a.x as int, a.y as int));
    let e = octant_to(o, (b.x as int, b.y as int));
    &&& 0 <= e.1 - s.1 <= e.0 - s.0
    &&& e.0 - s.0 == chebyshev(a, b)
}

/// Both endpoints of a line are representable without overflow.
pub open spec fn in_extent_pair(a: Coordinate, b: Coordinate) -> bool {
    &&& -0x2000_0000 <= a.x <= 0x2000_0000
    &&& -0x2000_0000 <= a.y <= 0x2000_0000
    &&& -0x2000_0000 <= b.x <= 0x2000_0000
    &&& -0x2000_0000 <= b.y <= 0x2000_0000
}

impl Octant {
    /// Converts a `Coordinate` into an octant-0 relative offset pair.
    pub fn to_offset(&self, position: Coordinate) -> (r: (i32, i32))
        requires
            self.0 < 8,
            position.x > i32::MIN,
            position.y > i32::MIN,
        ensures
            (r.0 as int, r.1 as int) == octant_to(
                self.0 as int,
                (position.x as int, position.y as int),
            ),
    {
        match self.0 {
            0 => (position.x, position.y),
            1 => (position.y, position.x),
            2 => (position.y, -position.x),
            3 => (-position.x, position.y),
            4 => (-position.x, -position.y),
            5 => (-position.y, -position.x),
            6 => (-position.y, position.x),
            _ => (position.x, -position.y),
        }
    }

    /// Converts an octant-0 relative offset pair back into a `Coordinate`.
    pub fn from_offset(&self, offset: (i32, i32)) -> (r: Coordinate)
        requires
            self.0 < 8,
            offset.0 > i32::MIN,
            offset.1 > i32::MIN,
        ensures
            (r.x as int, r.y as int) == octant_from(
                self.0 as int,
                (offset.0 as int, offset.1 as int),
            ),
    {
        let p: (i32, i32) = match self.0 {
            0 => (offset.0, offset.1),
            1 => (offset.1, offset.0),
            2 => (-offset.1, offset.0),
            3 => (-offset.0, offset.1),
            4 => (-offset.0, -offset.1),
            5 => (-offset.1, -offset.0),
            6 => (offset.1, -offset.0),
            _ => (offset.0, -offset.1),
        };
        Coordinate { x: p.0, y: p.1 }
    }

    /// Creates a new `Octant` from the two endpoints of a line.
    pub fn new(position: Coordinate, other: Coordinate) -> (r: Octant)
        requires
            in_extent_pair(position, other),
        ensures
            r.0 < 8,
            r.0 as int == octant_of(other.x - position.x, other.y - position.y),
    {
        let start = position;
        let end = other;

        let mut dx: i32 = end.x - start.x;
        let mut dy: i32 = end.y - start.y;
        let mut octant: u8 = 0;
        if dy < 0 {
            dx = -dx;
            dy = -dy;
            octant += 4;
        }
        if dx < 0 {
            let tmp = dx;
            dx = dy;
            dy = -tmp;
            octant += 2;
        }
        if dx < dy {
            octant += 1;
        }

        Octant(octant)
    }
}

} // verus!
