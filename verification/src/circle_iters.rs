//! The midpoint-circle rasterizers: a circumference walk emitting eight
//! symmetric points per decision step, and a filled walk emitting four
//! vertical spans per decision step, both suppressing revisited cells.
use vstd::prelude::*;

use crate::bresenham::{lemma_line_points_props, line_points, LineBresenhamIter};
use crate::dedup::{dedup, dedup_from, lemma_push_to_set};
use crate::units::{in_extent, Coordinate};

verus! {

/// The midpoint decision variable at the start of the walk for `radius`.
/// This is the truncated integer division `(5 - 4 * radius) / 4`, written in
/// closed form.
pub open spec fn circle_d0(radius: int) -> int {
    if radius == 0 {
        1
    } else if radius == 1 {
        0
    } else {
        2 - radius
    }
}

/// One process step of the midpoint walk: from `(d, x, y)` to the next
/// decision state.
pub open spec fn mid_step(d: int, x: int, y: int) -> (int, int, int) {
    if d < 0 {
        (d + 2 * x + 1, x + 1, y)
    } else {
        (d + 2 * (x - y) + 1, x + 1, y - 1)
    }
}

/// A grid point from exact integer components.
pub open spec fn cpt(x: int, y: int) -> Coordinate {
    Coordinate { x: x as i32, y: y as i32 }
}

/// The midpoint state and bound invariants shared by both circle walks:
/// `x` climbs, `y` falls, and the decision variable stays within one ring of
/// the walk bounds.
pub open spec fn mid_state_inv(d: int, x: int, y: int, active: bool, limit: int) -> bool {
    &&& 0 <= x
    &&& -1 <= y <= limit
    &&& x <= y + 2
    &&& active ==> x <= y
    &&& -2 * y - 1 <= d <= 2 * x + 2
}

/// The emission phases of the circumference walk: one octant-symmetric
/// point each, then a process step.
#[derive(Debug, Clone, Copy, PartialEq, Eq, Structural)]
pub enum CircleCircumferenceIterStep {
    Line1,
    Line2,
    Line3,
    Line4,
    Line5,
    Line6,
    Line7,
    Line8,
    Process,
    Finished,
}

impl CircleCircumferenceIterStep {
    /// The phase that follows this one within a process cycle.
    pub open spec fn next_spec(self) -> CircleCircumferenceIterStep {
        match self {
            CircleCircumferenceIterStep::Line1 => CircleCircumferenceIterStep::Line2,
            CircleCircumferenceIterStep::Line2 => CircleCircumferenceIterStep::Line3,
            CircleCircumferenceIterStep::Line3 => CircleCircumferenceIterStep::Line4,
            CircleCircumferenceIterStep::Line4 => CircleCircumferenceIterStep::Line5,
            CircleCircumferenceIterStep::Line5 => CircleCircumferenceIterStep::Line6,
            CircleCircumferenceIterStep::Line6 => CircleCircumferenceIterStep::Line7,
            CircleCircumferenceIterStep::Line7 => CircleCircumferenceIterStep::Line8,
            CircleCircumferenceIterStep::Line8 => CircleCircumferenceIterStep::Process,
            CircleCircumferenceIterStep::Process => CircleCircumferenceIterStep::Line1,
            CircleCircumferenceIterStep::Finished => CircleCircumferenceIterStep::Finished,
        }
    }

    /// How many phases remain before the next process step; used as a
    /// termination measure.
    pub open spec fn rank(self) -> int {
        match self {
            CircleCircumferenceIterStep::Line1 => 9,
            CircleCircumferenceIterStep::Line2 => 8,
            CircleCircumferenceIterStep::Line3 => 7,
            CircleCircumferenceIterStep::Line4 => 6,
            CircleCircumferenceIterStep::Line5 => 5,
            CircleCircumferenceIterStep::Line6 => 4,
            CircleCircumferenceIterStep::Line7 => 3,
            CircleCircumferenceIterStep::Line8 => 2,
            CircleCircumferenceIterStep::Process => 1,
            CircleCircumferenceIterStep::Finished => 0,
        }
    }

    pub fn next(self) -> (r: CircleCircumferenceIterStep)
        ensures
            r == self.next_spec(),
    {
        match self {
            CircleCircumferenceIterStep::Line1 => CircleCircumferenceIterStep::Line2,
            CircleCircumferenceIterStep::Line2 => CircleCircumferenceIterStep::Line3,
            CircleCircumferenceIterStep::Line3 => CircleCircumferenceIterStep::Line4,
            CircleCircumferenceIterStep::Line4 => CircleCircumferenceIterStep::Line5,
            CircleCircumferenceIterStep::Line5 => CircleCircumferenceIterStep::Line6,
            CircleCircumferenceIterStep::Line6 => CircleCircumferenceIterStep::Line7,
            CircleCircumferenceIterStep::Line7 => CircleCircumferenceIterStep::Line8,
            CircleCircumferenceIterStep::Line8 => CircleCircumferenceIterStep::Process,
            CircleCircumferenceIterStep::Process => CircleCircumferenceIterStep::Line1,
            CircleCircumferenceIterStep::Finished => CircleCircumferenceIterStep::Finished,
        }
    }
}

/// The symmetric point a circumference emission phase produces at midpoint
/// state `(x, y)` around center `c`.
pub open spec fn circ_point(c: Coordinate, x: int, y: int, step: CircleCircumferenceIterStep) -> Coordinate {
    let cx = c.x as int;
    let cy = c.y as int;
    match step {
        CircleCircumferenceIterStep::Line1 => cpt(cx + x, cy + y),
        CircleCircumferenceIterStep::Line2 => cpt(cx + x, cy - y),
        CircleCircumferenceIterStep::Line3 => cpt(cx - x, cy + y),
        CircleCircumferenceIterStep::Line4 => cpt(cx - x, cy - y),
        CircleCircumferenceIterStep::Line5 => cpt(cx + y, cy + x),
        CircleCircumferenceIterStep::Line6 => cpt(cx + y, cy - x),
        CircleCircumferenceIterStep::Line7 => cpt(cx - y, cy + x),
        CircleCircumferenceIterStep::Line8 => cpt(cx - y, cy - x),
        _ => c,
    }
}

/// Every point the circumference walk will emit (duplicates included) from
/// the given phase and midpoint state on.
pub open spec fn circ_emits_from(
    c: Coordinate,
    d: int,
    x: int,
    y: int,
    step: CircleCircumferenceIterStep,
) -> Seq<Coordinate>
    decreases
            (if y >= x {
                y - x + 1
            } else {
                0
            }),
            step.rank(),
{
    if step == CircleCircumferenceIterStep::Finished {
        Seq::empty()
    } else if step == CircleCircumferenceIterStep::Process {
        let (d2, x2, y2) = mid_step(d, x, y);
        if x2 > y2 {
            Seq::empty()
        } else {
            circ_emits_from(c, d2, x2, y2, CircleCircumferenceIterStep::Line1)
        }
    } else {
        seq![circ_point(c, x, y, step)] + circ_emits_from(c, d, x, y, step.next_spec())
    }
}

/// The raw circumference emission sequence of a circle, duplicates
/// included.
pub open spec fn circle_circ_raw(c: Coordinate, radius: int) -> Seq<Coordinate> {
    circ_emits_from(c, circle_d0(radius), 0, radius, CircleCircumferenceIterStep::Line1)
}

/// The sequence a circle's circumference iterator produces: the raw
/// emissions with revisited points suppressed.
pub open spec fn circle_circ_points(c: Coordinate, radius: int) -> Seq<Coordinate> {
    dedup(circle_circ_raw(c, radius))
}

/// Whether `v` holds `p`, by linear scan.
pub(crate) fn seen_contains(v: &Vec<Coordinate>, p: Coordinate) -> (r: bool)
    ensures
        r == v@.contains(p),
{
    let mut i: usize = 0;
    while i < v.len()
        invariant
            i <= v@.len(),
            forall|j: int| 0 <= j < i ==> v@[j] != p,
        decreases v@.len() - i,
    {
        if v[i] == p {
            return true;
        }
        i = i + 1;
    }
    false
}

/// Walks the outermost ring of cells of a circle.
#[derive(Clone, Debug)]
pub struct CircleCircumferenceIter {
    center: Coordinate,
    discovered: Vec<Coordinate>,
    d: i32,
    x: i32,
    y: i32,
    step: CircleCircumferenceIterStep,
}

impl CircleCircumferenceIter {
    pub closed spec fn wf(self) -> bool {
        &&& in_extent(self.center, 0x1000_0000)
        &&& mid_state_inv(
            self.d as int,
            self.x as int,
            self.y as int,
            self.step != CircleCircumferenceIterStep::Finished,
            0x1000_0000,
        )
    }

    /// The points this iterator will still emit.
    pub closed spec fn pending(self) -> Seq<Coordinate> {
        dedup_from(
            circ_emits_from(self.center, self.d as int, self.x as int, self.y as int, self.step),
            self.discovered@.to_set(),
        )
    }

    pub fn new(center: Coordinate, radius: u32) -> (r: CircleCircumferenceIter)
        requires
            in_extent(center, 0x1000_0000),
            radius <= 0x1000_0000,
        ensures
            r.wf(),
            r.pending() == circle_circ_points(center, radius as int),
    {
        // The truncated division (5 - 4 * radius) / 4, case by case.
        let d: i32 = if radius == 0 {
            1
        } else if radius == 1 {
            0
        } else {
            2 - radius as i32
        };
        let r = CircleCircumferenceIter {
            center,
            discovered: Vec::new(),
            d,
            x: 0,
            y: radius as i32,
            step: CircleCircumferenceIterStep::Line1,
        };
        proof {
            assert(r.discovered@.to_set() =~= Set::<Coordinate>::empty());
        }
        r
    }

    #[verifier::loop_isolation(false)]
    pub fn next(&mut self) -> (r: Option<Coordinate>)
        requires
            old(self).wf(),
        ensures
            final(self).wf(),
            old(self).pending().len() == 0 ==> r is None,
            old(self).pending().len() > 0 ==> (r matches Some(p) && p == old(self).pending()[0]
                && final(self).pending() == old(self).pending().drop_first()),
            r is None ==> final(self).pending().len() == 0,
    {
        loop
            invariant
                self.wf(),
                self.center == old(self).center,
                self.pending() == old(self).pending(),
            decreases
                    (if self.y >= self.x {
                        self.y - self.x + 1
                    } else {
                        0int
                    }),
                    self.step.rank(),
        {
            let ghost seen = self.discovered@.to_set();
            let ghost raw = circ_emits_from(
                self.center,
                self.d as int,
                self.x as int,
                self.y as int,
                self.step,
            );
            match self.step {
                CircleCircumferenceIterStep::Finished => {
                    return None;
                },
                CircleCircumferenceIterStep::Process => {
                    if self.d < 0 {
                        self.d = self.d + 2 * self.x + 1;
                    } else {
                        self.d = self.d + 2 * (self.x - self.y) + 1;
                        self.y = self.y - 1;
                    }
                    self.x = self.x + 1;

                    if self.x > self.y {
                        self.step = CircleCircumferenceIterStep::Finished;
                    } else {
                        self.step = self.step.next();
                    }
                },
                _ => {
                    let p = match self.step {
                        CircleCircumferenceIterStep::Line1 => Coordinate::new(
                            self.center.x + self.x,
                            self.center.y + self.y,
                        ),
                        CircleCircumferenceIterStep::Line2 => Coordinate::new(
                            self.center.x + self.x,
                            self.center.y - self.y,
                        ),
                        CircleCircumferenceIterStep::Line3 => Coordinate::new(
                            self.center.x - self.x,
                            self.center.y + self.y,
                        ),
                        CircleCircumferenceIterStep::Line4 => Coordinate::new(
                            self.center.x - self.x,
                            self.center.y - self.y,
                        ),
                        CircleCircumferenceIterStep::Line5 => Coordinate::new(
                            self.center.x + self.y,
                            self.center.y + self.x,
                        ),
                        CircleCircumferenceIterStep::Line6 => Coordinate::new(
                            self.center.x + self.y,
                            self.center.y - self.x,
                        ),
                        CircleCircumferenceIterStep::Line7 => Coordinate::new(
                            self.center.x - self.y,
                            self.center.y + self.x,
                        ),
                        _ => Coordinate::new(self.center.x - self.y, self.center.y - self.x),
                    };
                    proof {
                        assert(raw[0] == p);
                    }
                    self.step = self.step.next();

                    if !seen_contains(&self.discovered, p) {
                        let ghost pre_seen = self.discovered@;
                        self.discovered.push(p);
                        proof {
                            lemma_push_to_set(pre_seen, p);
                            assert(self.discovered@.to_set() =~= seen.insert(p));
                            assert(circ_emits_from(
                                self.center,
                                self.d as int,
                                self.x as int,
                                self.y as int,
                                self.step,
                            ) =~= raw.drop_first());
                        }
                        return Some(p);
                    }
                    proof {
                        assert(circ_emits_from(
                            self.center,
                            self.d as int,
                            self.x as int,
                            self.y as int,
                            self.step,
                        ) =~= raw.drop_first());
                    }
                },
            }
        }
    }
}


/// The emission phases of the filled walk: one vertical span each, then a
/// process step.
#[derive(Debug, Clone, Copy, PartialEq, Eq, Structural)]
pub enum CircleIterStep {
    Line1,
    Line2,
    Line3,
    Line4,
    Process,
    Finished,
}

impl CircleIterStep {
    /// The phase that follows this one within a process cycle.
    pub open spec fn next_spec(self) -> CircleIterStep {
        match self {
            CircleIterStep::Line1 => CircleIterStep::Line2,
            CircleIterStep::Line2 => CircleIterStep::Line3,
            CircleIterStep::Line3 => CircleIterStep::Line4,
            CircleIterStep::Line4 => CircleIterStep::Process,
            CircleIterStep::Process => CircleIterStep::Line1,
            CircleIterStep::Finished => CircleIterStep::Finished,
        }
    }

    /// How many phases remain before the next process step; used as a
    /// termination measure.
    pub open spec fn rank(self) -> int {
        match self {
            CircleIterStep::Line1 => 5,
            CircleIterStep::Line2 => 4,
            CircleIterStep::Line3 => 3,
            CircleIterStep::Line4 => 2,
            CircleIterStep::Process => 1,
            CircleIterStep::Finished => 0,
        }
    }

    pub fn next(self) -> (r: CircleIterStep)
        ensures
            r == self.next_spec(),
    {
        match self {
            CircleIterStep::Line1 => CircleIterStep::Line2,
            CircleIterStep::Line2 => CircleIterStep::Line3,
            CircleIterStep::Line3 => CircleIterStep::Line4,
            CircleIterStep::Line4 => CircleIterStep::Process,
            CircleIterStep::Process => CircleIterStep::Line1,
            CircleIterStep::Finished => CircleIterStep::Finished,
        }
    }
}

/// The vertical span a filled emission phase rasterizes at midpoint state
/// `(x, y)` around center `c`: the two `y`-symmetric points at one column,
/// connected by the line rasterizer.
pub open spec fn fill_seg(c: Coordinate, x: int, y: int, step: CircleIterStep) -> Seq<Coordinate> {
    let cx = c.x as int;
    let cy = c.y as int;
    match step {
        CircleIterStep::Line1 => line_points(cpt(cx + x, cy + y), cpt(cx + x, cy - y)),
        CircleIterStep::Line2 => line_points(cpt(cx - x, cy + y), cpt(cx - x, cy - y)),
        CircleIterStep::Line3 => line_points(cpt(cx + y, cy + x), cpt(cx + y, cy - x)),
        CircleIterStep::Line4 => line_points(cpt(cx - y, cy + x), cpt(cx - y, cy - x)),
        _ => Seq::empty(),
    }
}

/// Every point the filled walk will emit (duplicates included) from the
/// given phase and midpoint state on.
pub open spec fn fill_emits_from(
    c: Coordinate,
    d: int,
    x: int,
    y: int,
    step: CircleIterStep,
) -> Seq<Coordinate>
    decreases
            (if y >= x {
                y - x + 1
            } else {
                0
            }),
            step.rank(),
{
    if step == CircleIterStep::Finished {
        Seq::empty()
    } else if step == CircleIterStep::Process {
        let (d2, x2, y2) = mid_step(d, x, y);
        if x2 > y2 {
            Seq::empty()
        } else {
            fill_emits_from(c, d2, x2, y2, CircleIterStep::Line1)
        }
    } else {
        fill_seg(c, x, y, step) + fill_emits_from(c, d, x, y, step.next_spec())
    }
}

/// The raw filled emission sequence of a circle, duplicates included.
pub open spec fn circle_fill_raw(c: Coordinate, radius: int) -> Seq<Coordinate> {
    fill_emits_from(c, circle_d0(radius), 0, radius, CircleIterStep::Line1)
}

/// The sequence a circle's filled iterator produces: the raw emissions with
/// revisited points suppressed.
pub open spec fn circle_fill_points(c: Coordinate, radius: int) -> Seq<Coordinate> {
    dedup(circle_fill_raw(c, radius))
}

/// Walks every cell of a filled circle.
#[derive(Clone)]
pub struct CircleIter {
    center: Coordinate,
    discovered: Vec<Coordinate>,
    d: i32,
    x: i32,
    y: i32,
    step: CircleIterStep,
    line: Option<LineBresenhamIter>,
}

impl CircleIter {
    pub closed spec fn wf(self) -> bool {
        &&& in_extent(self.center, 0x1000_0000)
        &&& mid_state_inv(
            self.d as int,
            self.x as int,
            self.y as int,
            self.step != CircleIterStep::Finished,
            0x1000_0000,
        )
        &&& match self.line {
            Some(l) => l.wf(),
            None => true,
        }
        &&& self.step == CircleIterStep::Finished ==> self.line is None
    }

    /// What is left of the vertical span currently being drained.
    pub closed spec fn line_rest(self) -> Seq<Coordinate> {
        match self.line {
            Some(l) => l.pending(),
            None => Seq::empty(),
        }
    }

    /// The points this iterator will still emit.
    pub closed spec fn pending(self) -> Seq<Coordinate> {
        dedup_from(
            self.line_rest() + fill_emits_from(
                self.center,
                self.d as int,
                self.x as int,
                self.y as int,
                self.step,
            ),
            self.discovered@.to_set(),
        )
    }

    pub fn new(center: Coordinate, radius: u32) -> (r: CircleIter)
        requires
            in_extent(center, 0x1000_0000),
            radius <= 0x1000_0000,
        ensures
            r.wf(),
            r.pending() == circle_fill_points(center, radius as int),
    {
        // The truncated division (5 - 4 * radius) / 4, case by case.
        let d: i32 = if radius == 0 {
            1
        } else if radius == 1 {
            0
        } else {
            2 - radius as i32
        };
        let r = CircleIter {
            center,
            discovered: Vec::new(),
            d,
            x: 0,
            y: radius as i32,
            step: CircleIterStep::Line1,
            line: None,
        };
        proof {
            assert(r.discovered@.to_set() =~= Set::<Coordinate>::empty());
            assert(r.line_rest() + circle_fill_raw(center, radius as int) =~= circle_fill_raw(
                center,
                radius as int,
            ));
        }
        r
    }

    #[verifier::loop_isolation(false)]
    pub fn next(&mut self) -> (r: Option<Coordinate>)
        requires
            old(self).wf(),
        ensures
            final(self).wf(),
            old(self).pending().len() == 0 ==> r is None,
            old(self).pending().len() > 0 ==> (r matches Some(p) && p == old(self).pending()[0]
                && final(self).pending() == old(self).pending().drop_first()),
            r is None ==> final(self).pending().len() == 0,
    {
        loop
            invariant
                self.wf(),
                self.center == old(self).center,
                self.pending() == old(self).pending(),
            decreases
                    (if self.y >= self.x {
                        self.y - self.x + 1
                    } else {
                        0int
                    }),
                    self.step.rank(),
                    (if self.line is Some {
                        1int
                    } else {
                        0int
                    }),
                    self.line_rest().len(),
        {
            let ghost seen = self.discovered@.to_set();
            let ghost emits = fill_emits_from(
                self.center,
                self.d as int,
                self.x as int,
                self.y as int,
                self.step,
            );
            let ghost raw = self.line_rest() + emits;
            if self.line.is_some() {
                let mut l = self.line.take().unwrap();
                match l.next() {
                    Some(p) => {
                        self.line = Some(l);
                        proof {
                            assert(raw[0] == p);
                            assert(self.line_rest() + emits =~= raw.drop_first());
                        }
                        if !seen_contains(&self.discovered, p) {
                            let ghost pre_seen = self.discovered@;
                            self.discovered.push(p);
                            proof {
                                lemma_push_to_set(pre_seen, p);
                                assert(self.discovered@.to_set() =~= seen.insert(p));
                            }
                            return Some(p);
                        }
                    },
                    None => {
                        proof {
                            assert(self.line_rest() + emits =~= raw);
                        }
                    },
                }
            } else {
                match self.step {
                    CircleIterStep::Finished => {
                        return None;
                    },
                    CircleIterStep::Process => {
                        if self.d < 0 {
                            self.d = self.d + 2 * self.x + 1;
                        } else {
                            self.d = self.d + 2 * (self.x - self.y) + 1;
                            self.y = self.y - 1;
                        }
                        self.x = self.x + 1;

                        if self.x > self.y {
                            self.step = CircleIterStep::Finished;
                        } else {
                            self.step = self.step.next();
                        }
                        proof {
                            assert(self.line_rest() + fill_emits_from(
                                self.center,
                                self.d as int,
                                self.x as int,
                                self.y as int,
                                self.step,
                            ) =~= raw);
                        }
                    },
                    _ => {
                        let seg_start: Coordinate;
                        let seg_end: Coordinate;
                        match self.step {
                            CircleIterStep::Line1 => {
                                seg_start = Coordinate::new(
                                    self.center.x + self.x,
                                    self.center.y + self.y,
                                );
                                seg_end = Coordinate::new(
                                    self.center.x + self.x,
                                    self.center.y - self.y,
                                );
                            },
                            CircleIterStep::Line2 => {
                                seg_start = Coordinate::new(
                                    self.center.x - self.x,
                                    self.center.y + self.y,
                                );
                                seg_end = Coordinate::new(
                                    self.center.x - self.x,
                                    self.center.y - self.y,
                                );
                            },
                            CircleIterStep::Line3 => {
                                seg_start = Coordinate::new(
                                    self.center.x + self.y,
                                    self.center.y + self.x,
                                );
                                seg_end = Coordinate::new(
                                    self.center.x + self.y,
                                    self.center.y - self.x,
                                );
                            },
                            _ => {
                                seg_start = Coordinate::new(
                                    self.center.x - self.y,
                                    self.center.y + self.x,
                                );
                                seg_end = Coordinate::new(
                                    self.center.x - self.y,
                                    self.center.y - self.x,
                                );
                            },
                        }
                        let li = LineBresenhamIter::new(seg_start, seg_end);
                        self.line = Some(li);
                        self.step = self.step.next();
                        proof {
                            assert(self.line_rest() + fill_emits_from(
                                self.center,
                                self.d as int,
                                self.x as int,
                                self.y as int,
                                self.step,
                            ) =~= raw);
                        }
                    },
                }
            }
        }
    }
}



/// Each vertical span holds at most `2 * cap + 1` cells when the walk stays
/// under `cap`, so the whole raw emission sequence is bounded by the number
/// of process cycles times four spans.
pub proof fn lemma_fill_emits_len(c: Coordinate, d: int, x: int, y: int, step: CircleIterStep, cap: int)
    requires
        in_extent(c, 0x1000_0000),
        0 <= x,
        x <= y + 2,
        y <= cap,
        0 <= cap <= 0x1000_0000,
        step != CircleIterStep::Finished ==> x <= y,
    ensures
        fill_emits_from(c, d, x, y, step).len() <= (if y >= x {
            y - x + 1
        } else {
            0
        }) * (4 * (2 * cap + 1)) + step.rank() * (2 * cap + 1),
    decreases
            (if y >= x {
                y - x + 1
            } else {
                0
            }),
            step.rank(),
{
    let m: int = if y >= x {
        y - x + 1
    } else {
        0
    };
    let cc: int = 2 * cap + 1;
    assert(m * (4 * cc) >= 0) by (nonlinear_arith)
        requires
            m >= 0,
            cc >= 1,
    ;
    if step == CircleIterStep::Finished {
    } else if step == CircleIterStep::Process {
        let (d2, x2, y2) = mid_step(d, x, y);
        if x2 > y2 {
        } else {
            lemma_fill_emits_len(c, d2, x2, y2, CircleIterStep::Line1, cap);
            let m2: int = y2 - x2 + 1;
            assert(m2 * (4 * cc) + 4 * cc <= m * (4 * cc)) by (nonlinear_arith)
                requires
                    m2 + 1 <= m,
                    cc >= 1,
            ;
        }
    } else {
        lemma_fill_emits_len(c, d, x, y, step.next_spec(), cap);
        let cx = c.x as int;
        let cy = c.y as int;
        if step == CircleIterStep::Line1 {
            lemma_line_points_props(cpt(cx + x, cy + y), cpt(cx + x, cy - y));
        } else if step == CircleIterStep::Line2 {
            lemma_line_points_props(cpt(cx - x, cy + y), cpt(cx - x, cy - y));
        } else if step == CircleIterStep::Line3 {
            lemma_line_points_props(cpt(cx + y, cy + x), cpt(cx + y, cy - x));
        } else {
            lemma_line_points_props(cpt(cx - y, cy + x), cpt(cx - y, cy - x));
        }
        assert(fill_seg(c, x, y, step).len() <= cc);
    }
}

/// The raw filled emission sequence of a circle of radius `radius` holds at
/// most `(radius + 1)` process cycles of four spans of `2 * radius + 1`
/// cells, plus the first cycle's spans.
pub proof fn lemma_fill_raw_len(c: Coordinate, radius: int)
    requires
        in_extent(c, 0x1000_0000),
        0 <= radius <= 0x1000_0000,
    ensures
        circle_fill_raw(c, radius).len() <= (radius + 1) * (4 * (2 * radius + 1)) + 5 * (2 * radius
            + 1),
{
    lemma_fill_emits_len(c, circle_d0(radius), 0, radius, CircleIterStep::Line1, radius);
}

} // verus!
