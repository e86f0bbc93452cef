//! A consumer-style policy built on a global similarity threshold rather
//! than a per-element tolerance: two byte runs are approximately equal when
//! enough of their positions match.

use vstd::prelude::*;

use crate::ApproxEq;

verus! {

/// How many positions the two runs can be compared at: the length of the
/// shorter one.
pub open spec fn overlap(a: Seq<u8>, b: Seq<u8>) -> int {
    if a.len() <= b.len() {
        a.len() as int
    } else {
        b.len() as int
    }
}

/// How many of the first `n` positions hold the same byte in both runs.
pub open spec fn matches_upto(a: Seq<u8>, b: Seq<u8>, n: int) -> nat
    decreases n,
{
    if n <= 0 {
        0
    } else {
        matches_upto(a, b, n - 1) + (if a[n - 1] == b[n - 1] {
            1nat
        } else {
            0nat
        })
    }
}

/// How many positions hold the same byte in both runs; positions past the
/// shorter run do not count.
pub open spec fn match_count(a: Seq<u8>, b: Seq<u8>) -> nat {
    matches_upto(a, b, overlap(a, b))
}

/// Counts the positions at which `a` and `b` hold the same byte, up to the
/// length of the shorter of the two.
pub fn matching_positions(a: &Vec<u8>, b: &Vec<u8>) -> (count: usize)
    ensures
        count == match_count(a@, b@),
{
    let n: usize = if a.len() <= b.len() {
        a.len()
    } else {
        b.len()
    };
    let mut count: usize = 0;
    let mut i: usize = 0;
    while i < n
        invariant
            i <= n,
            n == overlap(a@, b@),
            count <= i,
            count == matches_upto(a@, b@, i as int),
        decreases n - i,
    {
        if a[i] == b[i] {
            count = count + 1;
        }
        i = i + 1;
    }
    count
}

/// An opaque run of bytes, standing for bulk data such as an image, compared
/// by block similarity.
#[derive(Clone, Debug)]
pub struct Blocks(pub Vec<u8>);

impl ApproxEq for Blocks {
    /// At least four of every five positions of `self` hold the same byte in
    /// `other`. The ratio is taken against the length of `self` alone, and
    /// positions past the shorter run never match, so the policy is neither
    /// symmetric nor length-checked.
    open spec fn approx_spec(&self, other: &Self) -> bool {
        5 * match_count(self.0@, other.0@) >= 4 * self.0@.len()
    }

    fn approx(&self, other: &Self) -> (r: bool) {
        let count: usize = matching_positions(&self.0, &other.0);
        let scaled_count: u128 = (count as u128) * 5;
        let scaled_len: u128 = (self.0.len() as u128) * 4;
        scaled_count >= scaled_len
    }
}

/// In a run compared against itself, all of the first `n` positions match.
proof fn lemma_matches_upto_self(s: Seq<u8>, n: int)
    requires
        0 <= n <= s.len(),
    ensures
        matches_upto(s, s, n) == n,
    decreases n,
{
    if n > 0 {
        lemma_matches_upto_self(s, n - 1);
    }
}

/// Block similarity is reflexive: every run matches itself at every position,
/// so it is approximately equal to itself.
pub proof fn lemma_blocks_reflexive(a: Blocks)
    ensures
        a.approx_spec(&a),
{
    lemma_matches_upto_self(a.0@, a.0@.len() as int);
}

} // verus!
