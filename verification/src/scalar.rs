//! Scalars compared under a fixed absolute tolerance.
//!
//! A scalar holds a whole count of millionths, so that decimal values carry
//! over exactly. Two tolerance policies are provided, one per type: a
//! [`Milli`] admits a difference of up to one thousandth, a [`Micro`] of up
//! to one millionth. The band is closed: a difference exactly at the
//! tolerance still counts as approximately equal.

use vstd::prelude::*;

use crate::ApproxEq;

verus! {

/// `a` and `b` differ by at most `tol`, boundary included.
pub open spec fn within(a: int, b: int, tol: int) -> bool {
    -tol <= a - b && a - b <= tol
}

/// A decimal scalar, stored as a whole count of millionths, compared under a
/// tolerance of one thousandth (1000 millionths).
#[derive(Clone, Copy, Debug, PartialEq, Eq, Structural)]
pub struct Milli {
    /// The value, as a count of millionths.
    pub millionths: i64,
}

/// A decimal scalar, stored as a whole count of millionths, compared under a
/// tolerance of one millionth.
#[derive(Clone, Copy, Debug, PartialEq, Eq, Structural)]
pub struct Micro {
    /// The value, as a count of millionths.
    pub millionths: i64,
}

impl ApproxEq for Milli {
    /// The values differ by at most one thousandth.
    open spec fn approx_spec(&self, other: &Self) -> bool {
        within(self.millionths as int, other.millionths as int, 1000)
    }

    fn approx(&self, other: &Self) -> (r: bool) {
        let a: i128 = self.millionths as i128;
        let b: i128 = other.millionths as i128;
        let diff: i128 = if a >= b { a - b } else { b - a };
        diff <= 1000
    }
}

impl ApproxEq for Micro {
    /// The values differ by at most one millionth.
    open spec fn approx_spec(&self, other: &Self) -> bool {
        within(self.millionths as int, other.millionths as int, 1)
    }

    fn approx(&self, other: &Self) -> (r: bool) {
        let a: i128 = self.millionths as i128;
        let b: i128 = other.millionths as i128;
        let diff: i128 = if a >= b { a - b } else { b - a };
        diff <= 1
    }
}

/// Scalar approximate equality is exactly the closed tolerance band: two
/// [`Milli`] values compare approximately equal if and only if they differ by
/// at most one thousandth.
pub proof fn lemma_milli_tolerance_band(x: Milli, y: Milli)
    ensures
        x.approx_spec(&y) <==> -1000 <= x.millionths - y.millionths <= 1000,
{
}

/// Scalar approximate equality is exactly the closed tolerance band: two
/// [`Micro`] values compare approximately equal if and only if they differ by
/// at most one millionth.
pub proof fn lemma_micro_tolerance_band(x: Micro, y: Micro)
    ensures
        x.approx_spec(&y) <==> -1 <= x.millionths - y.millionths <= 1,
{
}

/// Scalar approximate equality is reflexive: every [`Milli`] is approximately
/// equal to itself.
pub proof fn lemma_milli_reflexive(x: Milli)
    ensures
        x.approx_spec(&x),
{
}

/// Scalar approximate equality is reflexive: every [`Micro`] is approximately
/// equal to itself.
pub proof fn lemma_micro_reflexive(x: Micro)
    ensures
        x.approx_spec(&x),
{
}

/// Scalar approximate equality is symmetric: the two [`Milli`] operands may
/// change places without changing the verdict.
pub proof fn lemma_milli_symmetric(x: Milli, y: Milli)
    ensures
        x.approx_spec(&y) == y.approx_spec(&x),
{
}

/// Scalar approximate equality is symmetric: the two [`Micro`] operands may
/// change places without changing the verdict.
pub proof fn lemma_micro_symmetric(x: Micro, y: Micro)
    ensures
        x.approx_spec(&y) == y.approx_spec(&x),
{
}

} // verus!
