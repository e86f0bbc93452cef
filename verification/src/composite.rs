//! Approximate equality lifted over container shapes: sequences, optional
//! values, and four-lane packed values, each in terms of the elements' own
//! policy.

use vstd::prelude::*;

use crate::ApproxEq;

verus! {

impl<A: ApproxEq> ApproxEq for Vec<A> {
    /// The sequences have equal length and every pair of corresponding
    /// elements is approximately equal. The comparison is order-sensitive:
    /// reordered but otherwise equal sequences do not count.
    open spec fn approx_spec(&self, other: &Self) -> bool {
        self@.len() == other@.len() && (forall|i: int|
            0 <= i < self@.len() ==> self@[i].approx_spec(&other@[i]))
    }

    fn approx(&self, other: &Self) -> (r: bool) {
        if self.len() != other.len() {
            return false;
        }
        let mut i: usize = 0;
        while i < self.len()
            invariant
                i <= self@.len(),
                self@.len() == other@.len(),
                forall|j: int| 0 <= j < i ==> self@[j].approx_spec(&other@[j]),
            decreases self@.len() - i,
        {
            if !self[i].approx(&other[i]) {
                return false;
            }
            i = i + 1;
        }
        true
    }
}

impl<A: ApproxEq> ApproxEq for Option<A> {
    /// Presence must agree: two present values compare under the element
    /// policy, two absent values are approximately equal, and mixed presence
    /// never is.
    open spec fn approx_spec(&self, other: &Self) -> bool {
        match (self, other) {
            (Some(a), Some(b)) => a.approx_spec(b),
            (None, None) => true,
            _ => false,
        }
    }

    fn approx(&self, other: &Self) -> (r: bool) {
        match (self, other) {
            (Some(a), Some(b)) => a.approx(b),
            (None, None) => true,
            _ => false,
        }
    }
}

/// Four packed lanes of `A`, compared lane-wise: behaviourally four
/// independent scalars that must all pass.
#[derive(Clone, Copy, Debug)]
pub struct Lanes4<A> {
    /// The four lanes.
    pub lanes: [A; 4],
}

impl<A: ApproxEq> ApproxEq for Lanes4<A> {
    /// Every one of the four corresponding lane pairs is approximately equal
    /// under the lane policy.
    open spec fn approx_spec(&self, other: &Self) -> bool {
        forall|i: int| 0 <= i < 4 ==> self.lanes[i].approx_spec(&other.lanes[i])
    }

    fn approx(&self, other: &Self) -> (r: bool) {
        let r0 = self.lanes[0].approx(&other.lanes[0]);
        let r1 = self.lanes[1].approx(&other.lanes[1]);
        let r2 = self.lanes[2].approx(&other.lanes[2]);
        let r3 = self.lanes[3].approx(&other.lanes[3]);
        r0 && r1 && r2 && r3
    }
}

/// Sequences of different lengths are never approximately equal, whatever
/// their contents.
pub proof fn lemma_seq_length_mismatch<A: ApproxEq>(a: Vec<A>, b: Vec<A>)
    requires
        a@.len() != b@.len(),
    ensures
        !a.approx_spec(&b),
{
}

/// Optional values compare by presence: two absent values are approximately
/// equal, mixed presence never is, and two present values compare exactly as
/// their contents do.
pub proof fn lemma_option_semantics<A: ApproxEq>(a: A, b: A)
    ensures
        (None::<A>).approx_spec(&None::<A>),
        !(Some(a).approx_spec(&None::<A>)),
        !((None::<A>).approx_spec(&Some(b))),
        Some(a).approx_spec(&Some(b)) == a.approx_spec(&b),
{
}

/// Where the element policy is reflexive, so is the sequence policy: every
/// sequence is approximately equal to itself.
pub proof fn lemma_seq_reflexive<A: ApproxEq>(a: Vec<A>)
    requires
        forall|x: A| #[trigger] x.approx_spec(&x),
    ensures
        a.approx_spec(&a),
{
}

/// Where the element policy is symmetric, so is the sequence policy: the two
/// operands may change places without changing the verdict.
pub proof fn lemma_seq_symmetric<A: ApproxEq>(a: Vec<A>, b: Vec<A>)
    requires
        forall|x: A, y: A| #[trigger] x.approx_spec(&y) == y.approx_spec(&x),
    ensures
        a.approx_spec(&b) == b.approx_spec(&a),
{
    if a@.len() == b@.len() {
        assert forall|i: int| 0 <= i < a@.len() implies (a@[i].approx_spec(&b@[i]) == b@[
            i
        ].approx_spec(&a@[i])) by {}
    }
}

/// Where the element policy is reflexive, so is the optional policy.
pub proof fn lemma_option_reflexive<A: ApproxEq>(a: Option<A>)
    requires
        forall|x: A| #[trigger] x.approx_spec(&x),
    ensures
        a.approx_spec(&a),
{
}

/// Where the element policy is symmetric, so is the optional policy.
pub proof fn lemma_option_symmetric<A: ApproxEq>(a: Option<A>, b: Option<A>)
    requires
        forall|x: A, y: A| #[trigger] x.approx_spec(&y) == y.approx_spec(&x),
    ensures
        a.approx_spec(&b) == b.approx_spec(&a),
{
}

/// Where the lane policy is reflexive, so is the packed policy.
pub proof fn lemma_lanes4_reflexive<A: ApproxEq>(a: Lanes4<A>)
    requires
        forall|x: A| #[trigger] x.approx_spec(&x),
    ensures
        a.approx_spec(&a),
{
}

/// Where the lane policy is symmetric, so is the packed policy.
pub proof fn lemma_lanes4_symmetric<A: ApproxEq>(a: Lanes4<A>, b: Lanes4<A>)
    requires
        forall|x: A, y: A| #[trigger] x.approx_spec(&y) == y.approx_spec(&x),
    ensures
        a.approx_spec(&b) == b.approx_spec(&a),
{
    assert forall|i: int| 0 <= i < 4 implies (a.lanes[i].approx_spec(&b.lanes[i]) == b.lanes[
        i
    ].approx_spec(&a.lanes[i])) by {}
}

} // verus!
