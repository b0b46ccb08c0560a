//! Comparison up to a tolerance. The tolerance of every representation is
//! 1. Between values with whole components that is the least difference, so
//! that the default comparison of matrices is equality; quaternions hold
//! fractions and can differ by less.

use crate::arith::abs_diff;
use vstd::prelude::*;

verus! {

/// Whether two scalars differ by less than `eps`.
pub(crate) fn close(a: i64, b: i64, eps: i64) -> (r: bool)
    ensures
        r == (abs_diff(a as int, b as int) < eps),
{
    let d: i128 = if a >= b {
        a as i128 - b as i128
    } else {
        b as i128 - a as i128
    };
    d < eps as i128
}

/// Values that can be compared up to a tolerance.
pub trait ApproxEq: Sized {
    /// Every component of `self` differs from that of `other` by less than `eps`.
    spec fn within(&self, other: &Self, eps: int) -> bool;

    /// The tolerance of `approx_eq`.
    fn approx_epsilon() -> (eps: i64)
        ensures
            eps == 1,
    ;

    fn approx_eq(&self, other: &Self) -> (r: bool)
        ensures
            r == self.within(other, 1),
    ;

    fn approx_eq_eps(&self, other: &Self, approx_epsilon: &i64) -> (r: bool)
        ensures
            r == self.within(other, *approx_epsilon as int),
    ;
}

} // verus!
