//! Position markers: unary counts that identify "the item at position i" of
//! an ordered field or variant list. A marker's mathematical meaning is the
//! natural number it counts to, exposed as its view; two markers are equal
//! exactly when their counts are equal, so distinct positions always receive
//! distinct markers.

use vstd::prelude::*;

verus! {

/// A unary position marker: a count built from `Zero` and `Succ`, mirroring
/// the unary index types of the type-level vocabulary.
#[derive(Debug, PartialEq, Eq)]
pub enum Idx {
    Zero,
    Succ(Box<Idx>),
}

/// The number a marker counts to.
pub open spec fn idx_count(m: Idx) -> nat
    decreases m,
{
    match m {
        Idx::Zero => 0,
        Idx::Succ(p) => 1 + idx_count(*p),
    }
}

impl View for Idx {
    type V = nat;

    open spec fn view(&self) -> nat {
        idx_count(*self)
    }
}

/// Markers with equal counts are equal values: a marker carries no
/// information beyond the number it counts to.
pub proof fn lemma_idx_eq_of_view(a: Idx, b: Idx)
    requires
        a@ == b@,
    ensures
        a == b,
    decreases a,
{
    match a {
        Idx::Zero => {
            assert(b@ == 0);
            match b {
                Idx::Zero => {
                }
                Idx::Succ(q) => {
                    assert(b@ >= 1);
                }
            }
        }
        Idx::Succ(p) => {
            match b {
                Idx::Zero => {
                    assert(a@ >= 1);
                }
                Idx::Succ(q) => {
                    lemma_idx_eq_of_view(*p, *q);
                }
            }
        }
    }
}

/// No two distinct counts give the same marker, and no two distinct markers
/// give the same count: position markers are injective in both directions.
pub proof fn lemma_idx_injective(a: Idx, b: Idx)
    ensures
        a == b <==> a@ == b@,
{
    if a@ == b@ {
        lemma_idx_eq_of_view(a, b);
    }
}

/// Builds the unary marker counting to `i`.
pub fn mk_idx(i: usize) -> (m: Idx)
    ensures
        m@ == i as nat,
{
    let mut m = Idx::Zero;
    let mut k: usize = 0;
    while k < i
        invariant
            k <= i,
            m@ == k as nat,
        decreases i - k,
    {
        m = Idx::Succ(Box::new(m));
        k = k + 1;
    }
    m
}

} // verus!
