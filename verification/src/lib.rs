//! Approximate equality: a comparison contract under which two values of a
//! type are judged close enough, rather than exactly equal.
//!
//! The [`ApproxEq`] trait is the whole interface. Implementers state their
//! comparison policy as a spec predicate and supply one executable method
//! that decides it; the assertion form comes for free. The library ships
//! policies for fixed-point scalars (a fixed absolute tolerance), sequences
//! (element-wise at equal length), optional values (presence must agree),
//! and four-lane packed values (lane-wise). Any other type may join the
//! contract with a policy of its own; [`blocks::Blocks`] shows one built on
//! a global similarity threshold instead of a per-element band.

use vstd::prelude::*;

pub mod blocks;
pub mod composite;
pub mod scalar;

verus! {

/// A comparison contract under which two values of a type are judged
/// approximately equal, by a fixed policy of the implementing type.
///
/// Implementers supply [`ApproxEq::approx_spec`], the mathematical statement
/// of the policy, and [`ApproxEq::approx`], which decides it. The policy is a
/// pure predicate of the two operands: `approx` mutates neither and always
/// returns a boolean.
pub trait ApproxEq {
    /// What it means for `self` and `other` to be approximately equal under
    /// this type's policy.
    spec fn approx_spec(&self, other: &Self) -> bool;

    /// Decides whether `self` and `other` are approximately equal.
    fn approx(&self, other: &Self) -> (r: bool)
        ensures
            r == self.approx_spec(other),
    ;

    /// Checks that `self` and `other` are approximately equal. Callers must
    /// establish that they are; the call then evaluates the policy and has no
    /// further effect.
    fn assert_approx(&self, other: &Self)
        requires
            self.approx_spec(other),
    {
        let _ = self.approx(other);
    }
}

} // verus!
