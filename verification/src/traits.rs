//! The scalar traits the geometry functions are generic over.
//!
//! [`Num`] covers the ring-like operations a vector or matrix element needs;
//! [`Float`] adds the operations with a floating aspect (square root,
//! trigonometry, an epsilon for degeneracy tests).  Each executable method is
//! tied to a spec-level counterpart declared alongside it, so generic code can
//! state exactly which arithmetic expression it computes.
//!
//! The crate itself implements [`Num`] for the machine integers below and both
//! traits for the fixed-point scalar `fixed::Fx`; floating-point scalars live
//! outside the verified core.

use vstd::prelude::*;

verus! {

/// A scalar that supports basic arithmetic.
///
/// Every executable method returns exactly the value of its spec counterpart,
/// so code generic over `Num` gets a precise description of each operation it
/// performs, while each implementation chooses what the operations mean (for
/// the machine integers below they wrap, as two's-complement arithmetic does).
/// The spec counterparts default to an arbitrary value, so an implementation
/// that does not override them promises nothing; the implementations in this
/// crate override every one.
pub trait Num: Sized + Copy {
    /// The additive identity, at the spec level.
    open spec fn zero_spec() -> Self {
        vstd::pervasive::arbitrary()
    }

    /// The multiplicative identity, at the spec level.
    open spec fn one_spec() -> Self {
        vstd::pervasive::arbitrary()
    }

    /// What `add` returns.
    open spec fn add_spec(self, other: Self) -> Self {
        vstd::pervasive::arbitrary()
    }

    /// What `sub` returns.
    open spec fn sub_spec(self, other: Self) -> Self {
        vstd::pervasive::arbitrary()
    }

    /// What `mul` returns.
    open spec fn mul_spec(self, other: Self) -> Self {
        vstd::pervasive::arbitrary()
    }

    /// What `div` returns.
    open spec fn div_spec(self, other: Self) -> Self {
        vstd::pervasive::arbitrary()
    }

    /// What `neg` returns.
    open spec fn neg_spec(self) -> Self {
        vstd::pervasive::arbitrary()
    }

    /// The additive identity.
    fn zero() -> (r: Self)
        ensures
            r == Self::zero_spec(),
    ;

    /// The multiplicative identity.
    fn one() -> (r: Self)
        ensures
            r == Self::one_spec(),
    ;

    /// Addition.
    fn add(self, other: Self) -> (r: Self)
        ensures
            r == self.add_spec(other),
    ;

    /// Subtraction.
    fn sub(self, other: Self) -> (r: Self)
        ensures
            r == self.sub_spec(other),
    ;

    /// Multiplication.
    fn mul(self, other: Self) -> (r: Self)
        ensures
            r == self.mul_spec(other),
    ;

    /// Division; each implementation defines the result for a zero divisor,
    /// and no implementation may panic on one.
    fn div(self, other: Self) -> (r: Self)
        ensures
            r == self.div_spec(other),
    ;

    /// Negation.
    fn neg(self) -> (r: Self)
        ensures
            r == self.neg_spec(),
    ;

    /// Whether this value is the additive identity.
    fn is_zero(&self) -> (r: bool)
        ensures
            r == (*self == Self::zero_spec()),
    ;

    /// Overwrite this value with the additive identity.
    fn set_zero(&mut self)
        ensures
            *final(self) == Self::zero_spec(),
    ;
}

/// A scalar with a floating aspect: ordering, an epsilon for degeneracy
/// tests, square root and trigonometry, and conversion from small exact
/// constants.
///
/// As with [`Num`], every executable method returns exactly the value of its
/// spec counterpart; what that value is (and how accurate the trigonometry is)
/// belongs to the implementation.  No implementation may panic, whatever the
/// argument.
pub trait Float: Num {
    /// What `epsilon` returns.
    open spec fn epsilon_spec() -> Self {
        vstd::pervasive::arbitrary()
    }

    /// What `lt` returns.
    open spec fn lt_spec(self, other: Self) -> bool {
        vstd::pervasive::arbitrary()
    }

    /// What `abs` returns.
    open spec fn abs_spec(self) -> Self {
        vstd::pervasive::arbitrary()
    }

    /// What `signum` returns.
    open spec fn signum_spec(self) -> Self {
        vstd::pervasive::arbitrary()
    }

    /// What `sqrt` returns.
    open spec fn sqrt_spec(self) -> Self {
        vstd::pervasive::arbitrary()
    }

    /// What the first component of `sin_cos` returns.
    open spec fn sin_spec(self) -> Self {
        vstd::pervasive::arbitrary()
    }

    /// What the second component of `sin_cos` returns.
    open spec fn cos_spec(self) -> Self {
        vstd::pervasive::arbitrary()
    }

    /// What `tan` returns.
    open spec fn tan_spec(self) -> Self {
        vstd::pervasive::arbitrary()
    }

    /// What `atan2` returns.
    open spec fn atan2_spec(self, x: Self) -> Self {
        vstd::pervasive::arbitrary()
    }

    /// What `asin` returns.
    open spec fn asin_spec(self) -> Self {
        vstd::pervasive::arbitrary()
    }

    /// What `acos` returns.
    open spec fn acos_spec(self) -> Self {
        vstd::pervasive::arbitrary()
    }

    /// What `of_int` returns.
    open spec fn int_spec(n: isize) -> Self {
        vstd::pervasive::arbitrary()
    }

    /// What `frac` returns.
    open spec fn frac_spec(n: isize, d: usize) -> Self {
        vstd::pervasive::arbitrary()
    }

    /// What `pi` returns.
    open spec fn pi_spec() -> Self {
        vstd::pervasive::arbitrary()
    }

    /// The threshold under which a magnitude counts as degenerate.
    fn epsilon() -> (r: Self)
        ensures
            r == Self::epsilon_spec(),
    ;

    /// Strict order test.
    fn lt(self, other: Self) -> (r: bool)
        ensures
            r == self.lt_spec(other),
    ;

    /// Absolute value.
    fn abs(self) -> (r: Self)
        ensures
            r == self.abs_spec(),
    ;

    /// The sign of the value, one or minus one.
    fn signum(self) -> (r: Self)
        ensures
            r == self.signum_spec(),
    ;

    /// Square root; each implementation defines the result for a negative
    /// argument.
    fn sqrt(self) -> (r: Self)
        ensures
            r == self.sqrt_spec(),
    ;

    /// Sine and cosine of an angle in radians, in that order.
    fn sin_cos(self) -> (r: (Self, Self))
        ensures
            r.0 == self.sin_spec(),
            r.1 == self.cos_spec(),
    ;

    /// Tangent of an angle in radians.
    fn tan(self) -> (r: Self)
        ensures
            r == self.tan_spec(),
    ;

    /// The angle of the point `(x, self)`, measured from the positive x axis.
    fn atan2(self, x: Self) -> (r: Self)
        ensures
            r == self.atan2_spec(x),
    ;

    /// Inverse sine.
    fn asin(self) -> (r: Self)
        ensures
            r == self.asin_spec(),
    ;

    /// Inverse cosine.
    fn acos(self) -> (r: Self)
        ensures
            r == self.acos_spec(),
    ;

    /// The scalar closest to a small signed integer.
    fn of_int(n: isize) -> (r: Self)
        ensures
            r == Self::int_spec(n),
    ;

    /// The scalar closest to the fraction `n / d`; each implementation
    /// defines the result for a zero denominator.
    fn frac(n: isize, d: usize) -> (r: Self)
        ensures
            r == Self::frac_spec(n, d),
    ;

    /// The circle constant.
    fn pi() -> (r: Self)
        ensures
            r == Self::pi_spec(),
    ;
}

impl Num for i64 {
    open spec fn zero_spec() -> i64 {
        0i64
    }

    open spec fn one_spec() -> i64 {
        1i64
    }

    open spec fn add_spec(self, other: i64) -> i64 {
        vstd::wrapping::i64_specs::wrapping_add(self, other)
    }

    open spec fn sub_spec(self, other: i64) -> i64 {
        vstd::wrapping::i64_specs::wrapping_sub(self, other)
    }

    open spec fn mul_spec(self, other: i64) -> i64 {
        vstd::wrapping::i64_specs::wrapping_mul(self, other)
    }

    open spec fn div_spec(self, other: i64) -> i64 {
        if other == 0 {
            0i64
        } else {
            let q = vstd::math::abs(self as int) / vstd::math::abs(other as int);
            if q >= 0x8000_0000_0000_0000 {
                i64::MIN
            } else if (self < 0) == (other < 0) {
                q as i64
            } else {
                (-q) as i64
            }
        }
    }

    open spec fn neg_spec(self) -> i64 {
        if self == i64::MIN {
            i64::MIN
        } else {
            (-(self as int)) as i64
        }
    }

    fn zero() -> i64 {
        0
    }

    fn one() -> i64 {
        1
    }

    fn add(self, other: i64) -> i64 {
        self.wrapping_add(other)
    }

    fn sub(self, other: i64) -> i64 {
        self.wrapping_sub(other)
    }

    fn mul(self, other: i64) -> i64 {
        self.wrapping_mul(other)
    }

    fn div(self, other: i64) -> (r: i64) {
        if other == 0 {
            0
        } else {
            let a: u64 = if self >= 0 {
                self as u64
            } else if self == i64::MIN {
                0x8000_0000_0000_0000u64
            } else {
                (-self) as u64
            };
            let b: u64 = if other >= 0 {
                other as u64
            } else if other == i64::MIN {
                0x8000_0000_0000_0000u64
            } else {
                (-other) as u64
            };
            let q: u64 = a / b;
            if q >= 0x8000_0000_0000_0000u64 {
                i64::MIN
            } else if (self < 0) == (other < 0) {
                q as i64
            } else {
                -(q as i64)
            }
        }
    }

    fn neg(self) -> (r: i64) {
        if self == i64::MIN {
            i64::MIN
        } else {
            -self
        }
    }

    fn is_zero(&self) -> bool {
        *self == 0
    }

    fn set_zero(&mut self) {
        *self = 0;
    }
}

} // verus!
