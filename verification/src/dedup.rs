//! The discovered-set model: what remains of an emission sequence once the
//! points already seen are suppressed, keeping first occurrences in order.
use vstd::prelude::*;

use crate::units::Coordinate;

verus! {

/// `s` with every element of `seen`, and every repeated element, removed;
/// first occurrences keep their order.
pub open spec fn dedup_from(s: Seq<Coordinate>, seen: Set<Coordinate>) -> Seq<Coordinate>
    decreases s.len(),
{
    if s.len() == 0 {
        Seq::empty()
    } else if seen.contains(s[0]) {
        dedup_from(s.drop_first(), seen)
    } else {
        seq![s[0]] + dedup_from(s.drop_first(), seen.insert(s[0]))
    }
}

/// `s` with every revisited point suppressed.
pub open spec fn dedup(s: Seq<Coordinate>) -> Seq<Coordinate> {
    dedup_from(s, Set::empty())
}

/// Suppression leaves no duplicates, and never emits a point of `seen`.
pub proof fn lemma_dedup_from_no_duplicates(s: Seq<Coordinate>, seen: Set<Coordinate>)
    ensures
        dedup_from(s, seen).no_duplicates(),
        forall|i: int|
            0 <= i < dedup_from(s, seen).len() ==> !seen.contains(#[trigger] dedup_from(s, seen)[i]),
    decreases s.len(),
{
    if s.len() > 0 {
        if seen.contains(s[0]) {
            lemma_dedup_from_no_duplicates(s.drop_first(), seen);
        } else {
            lemma_dedup_from_no_duplicates(s.drop_first(), seen.insert(s[0]));
        }
    }
}

/// Suppression keeps exactly the points of `s` that are not in `seen`.
pub proof fn lemma_dedup_from_to_set(s: Seq<Coordinate>, seen: Set<Coordinate>)
    ensures
        dedup_from(s, seen).to_set() == s.to_set().difference(seen),
    decreases s.len(),
{
    if s.len() == 0 {
        assert(dedup_from(s, seen).to_set() =~= s.to_set().difference(seen));
    } else {
        let rest_seen = if seen.contains(s[0]) {
            seen
        } else {
            seen.insert(s[0])
        };
        let rest = dedup_from(s.drop_first(), rest_seen);
        lemma_dedup_from_to_set(s.drop_first(), rest_seen);
        assert forall|p: Coordinate| s.to_set().difference(seen).contains(p) implies dedup_from(
            s,
            seen,
        ).to_set().contains(p) by {
            let i = choose|i: int| 0 <= i < s.len() && s[i] == p;
            if !seen.contains(s[0]) && p == s[0] {
                assert(dedup_from(s, seen)[0] == p);
                assert(dedup_from(s, seen).contains(p));
            } else {
                assert(p != s[0] || !rest_seen.contains(p) == false);
                assert(i > 0);
                assert(s.drop_first()[i - 1] == p);
                assert(s.drop_first().contains(p));
                assert(!rest_seen.contains(p));
                assert(rest.to_set().contains(p));
                let j = choose|j: int| 0 <= j < rest.len() && rest[j] == p;
                if seen.contains(s[0]) {
                    assert(dedup_from(s, seen)[j] == p);
                } else {
                    assert(dedup_from(s, seen)[j + 1] == p);
                }
                assert(dedup_from(s, seen).contains(p));
            }
        }
        assert forall|p: Coordinate| dedup_from(s, seen).to_set().contains(p) implies s.to_set()
            .difference(seen).contains(p) by {
            let w = dedup_from(s, seen);
            let j = choose|j: int| 0 <= j < w.len() && w[j] == p;
            if !seen.contains(s[0]) && j == 0 {
                assert(s.contains(p));
            } else {
                if seen.contains(s[0]) {
                    assert(rest[j] == p);
                } else {
                    assert(rest[j - 1] == p);
                }
                assert(rest.contains(p));
                assert(rest.to_set().contains(p));
                assert(s.drop_first().to_set().difference(rest_seen).contains(p));
                let i = choose|i: int|
                    0 <= i < s.drop_first().len() && s.drop_first()[i] == p;
                assert(s[i + 1] == p);
                assert(s.contains(p));
            }
        }
        assert(dedup_from(s, seen).to_set() =~= s.to_set().difference(seen));
    }
}

/// Suppression never lengthens a sequence.
pub proof fn lemma_dedup_from_len(s: Seq<Coordinate>, seen: Set<Coordinate>)
    ensures
        dedup_from(s, seen).len() <= s.len(),
    decreases s.len(),
{
    if s.len() > 0 {
        if seen.contains(s[0]) {
            lemma_dedup_from_len(s.drop_first(), seen);
        } else {
            lemma_dedup_from_len(s.drop_first(), seen.insert(s[0]));
        }
    }
}

/// Recording one more point grows the discovered set by exactly that point.
pub proof fn lemma_push_to_set(s: Seq<Coordinate>, p: Coordinate)
    ensures
        s.push(p).to_set() == s.to_set().insert(p),
{
    assert forall|q: Coordinate| s.push(p).to_set().contains(q) implies s.to_set().insert(
        p,
    ).contains(q) by {
        let i = choose|i: int| 0 <= i < s.push(p).len() && s.push(p)[i] == q;
        if i < s.len() {
            assert(s[i] == q);
        }
    }
    assert forall|q: Coordinate| s.to_set().insert(p).contains(q) implies s.push(
        p,
    ).to_set().contains(q) by {
        if q == p {
            assert(s.push(p)[s.len() as int] == q);
        } else {
            let i = choose|i: int| 0 <= i < s.len() && s[i] == q;
            assert(s.push(p)[i] == q);
        }
    }
    assert(s.push(p).to_set() =~= s.to_set().insert(p));
}

/// A point survives `dedup` exactly when it occurs in the sequence.
pub proof fn lemma_dedup_membership(s: Seq<Coordinate>)
    ensures
        dedup(s).to_set() == s.to_set(),
        forall|p: Coordinate| #[trigger] dedup(s).contains(p) <==> s.contains(p),
{
    lemma_dedup_from_to_set(s, Set::empty());
    assert(dedup(s).to_set() =~= s.to_set());
    assert forall|p: Coordinate| #[trigger] dedup(s).contains(p) <==> s.contains(p) by {
        assert(dedup(s).contains(p) <==> dedup(s).to_set().contains(p));
        assert(s.contains(p) <==> s.to_set().contains(p));
    }
}

} // verus!
