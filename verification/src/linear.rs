//! A trivial inclusive integer range walk, the building block of the tunnel
//! rasterizers.
use vstd::prelude::*;

verus! {

/// The integers from `lo` to `hi` inclusive, ascending; empty when `hi < lo`.
pub open spec fn span_from(lo: int, hi: int) -> Seq<int> {
    Seq::new(
        (if hi < lo {
            0
        } else {
            hi - lo + 1
        }) as nat,
        |i: int| lo + i,
    )
}

/// The integers between `a` and `b` inclusive, ascending, whichever order
/// the two endpoints come in.
pub open spec fn span_between(a: int, b: int) -> Seq<int> {
    if a <= b {
        span_from(a, b)
    } else {
        span_from(b, a)
    }
}

/// Walks an inclusive integer range in ascending order, whichever order the
/// two endpoints were given in.
#[derive(Clone, Debug)]
pub struct LinearIter {
    current: i32,
    max: i32,
}

impl LinearIter {
    /// The next increment of `current` cannot overflow.
    pub closed spec fn wf(self) -> bool {
        self.max < i32::MAX
    }

    /// The values this iterator will still yield.
    pub closed spec fn pending(self) -> Seq<int> {
        span_from(self.current as int, self.max as int)
    }

    pub fn new(start: i32, end: i32) -> (r: LinearIter)
        requires
            start < i32::MAX,
            end < i32::MAX,
        ensures
            r.wf(),
            r.pending() == span_between(start as int, end as int),
    {
        let r = LinearIter {
            current: if start <= end {
                start
            } else {
                end
            },
            max: if start <= end {
                end
            } else {
                start
            },
        };
        r
    }

    pub fn next(&mut self) -> (r: Option<i32>)
        requires
            old(self).wf(),
        ensures
            final(self).wf(),
            old(self).pending().len() == 0 ==> r is None && *final(self) == *old(self),
            old(self).pending().len() > 0 ==> (r matches Some(v) && v as int == old(
                self,
            ).pending()[0] && final(self).pending() == old(self).pending().drop_first()),
    {
        if self.current > self.max {
            return None;
        }

        let v = self.current;
        self.current = self.current + 1;

        proof {
            assert(self.pending() =~= old(self).pending().drop_first());
        }
        Some(v)
    }
}

} // verus!
