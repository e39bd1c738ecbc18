//! Exact scalar values.
//!
//! Blend weights and transition blend factors are exact ratios of integers,
//! so every statement about them (for instance that a transition's blend
//! factor equals `elapsed_time / transition_time`) holds exactly, with no
//! rounding involved.

use vstd::prelude::*;

verus! {

/// The ratio `num / den`. A well-formed scalar has a positive denominator;
/// the numerator may be negative (negative blend weights are accepted but
/// meaningless, a caller responsibility).
#[derive(Clone, Copy, Debug, PartialEq, Eq, Structural)]
pub struct Scalar {
    pub num: i64,
    pub den: i64,
}

impl Scalar {
    /// Well-formed scalars keep their denominator positive.
    pub open spec fn wf(self) -> bool {
        self.den > 0
    }

    /// The scalar denotes zero exactly when its numerator is zero.
    pub open spec fn is_zero(self) -> bool {
        self.num == 0
    }

    /// Two scalars denote the same ratio.
    pub open spec fn ratio_eq(self, other: Scalar) -> bool {
        self.num * other.den == other.num * self.den
    }

    /// The canonical zero, `0 / 1`.
    pub open spec fn spec_zero() -> Scalar {
        Scalar { num: 0, den: 1 }
    }

    /// The canonical one, `1 / 1`.
    pub open spec fn spec_one() -> Scalar {
        Scalar { num: 1, den: 1 }
    }

    pub fn new(num: i64, den: i64) -> (r: Scalar)
        requires
            den > 0,
        ensures
            r == (Scalar { num, den }),
            r.wf(),
    {
        Scalar { num, den }
    }

    #[verifier::when_used_as_spec(spec_zero)]
    pub fn zero() -> (r: Scalar)
        ensures
            r == Scalar::spec_zero(),
    {
        Scalar { num: 0, den: 1 }
    }

    #[verifier::when_used_as_spec(spec_one)]
    pub fn one() -> (r: Scalar)
        ensures
            r == Scalar::spec_one(),
    {
        Scalar { num: 1, den: 1 }
    }
}

} // verus!
