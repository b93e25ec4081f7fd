//! A fixed-point scalar with 24 fractional bits, the crate's own
//! implementation of the [`Num`] and [`Float`] traits.
//!
//! A value is `bits / 2^24`.  Addition and subtraction saturate at the ends
//! of the `i64` range; multiplication and division round toward zero (and
//! saturate); the square root is exact (the floor of the true root); sine,
//! cosine and the inverse trigonometric functions are polynomial
//! approximations after range reduction.  Every operation is total and its
//! spec counterpart describes exactly what it computes, in integer
//! arithmetic on the underlying bits.

use crate::traits::Float;
use crate::traits::Num;
use vstd::prelude::*;

verus! {

/// One, in fixed-point bits: the scale factor `2^24`.
pub const SCALE: i64 = 0x100_0000;

/// Clamp an unbounded integer into the `i64` range.
pub open spec fn sat64(x: int) -> i64 {
    if x > i64::MAX {
        i64::MAX
    } else if x < i64::MIN {
        i64::MIN
    } else {
        x as i64
    }
}

/// Division rounding toward zero, for a positive divisor: the quotient of the
/// magnitudes with the sign of the dividend.
pub open spec fn trunc_div(p: int, d: int) -> int {
    if p >= 0 {
        p / d
    } else {
        -((-p) / d)
    }
}

/// Division rounding toward zero for any nonzero divisor: the quotient of the
/// magnitudes, negated when the signs differ.
pub open spec fn trunc_div_signed(p: int, d: int) -> int {
    let q = (vstd::math::abs(p) as int) / (vstd::math::abs(d) as int);
    if (p < 0) == (d < 0) {
        q
    } else {
        -q
    }
}

/// A fixed-point number: `bits / 2^24`.
#[derive(Clone, Copy, Debug, PartialEq, Eq, Structural)]
pub struct Fx {
    /// The underlying scaled integer.
    pub bits: i64,
}

impl Fx {
    /// The value `bits / 2^24`.
    pub fn from_bits(bits: i64) -> (r: Fx)
        ensures
            r.bits == bits,
    {
        Fx { bits }
    }

    /// The underlying scaled integer.
    pub fn to_bits(self) -> (r: i64)
        ensures
            r == self.bits,
    {
        self.bits
    }

    /// Saturating addition on the underlying bits.
    fn add_bits(a: i64, b: i64) -> (r: i64)
        ensures
            r == sat64(a + b),
    {
        let s: i128 = (a as i128) + (b as i128);
        if s > i64::MAX as i128 {
            i64::MAX
        } else if s < i64::MIN as i128 {
            i64::MIN
        } else {
            s as i64
        }
    }

    /// The product of two bit values, divided by `d` rounding toward zero and
    /// saturated: the shared core of multiplication and division.
    fn scaled_ratio(a: i128, b: i128, d: i128) -> (r: i64)
        requires
            -0x8000_0000_0000_0000 <= a <= 0x8000_0000_0000_0000,
            -0x8000_0000_0000_0000 <= b <= 0x8000_0000_0000_0000,
            0 < d <= 0x8000_0000_0000_0000,
        ensures
            r == sat64(trunc_div(a * b, d as int)),
    {
        proof {
            assert(-0x4000_0000_0000_0000_0000_0000_0000_0000 <= a * b
                <= 0x4000_0000_0000_0000_0000_0000_0000_0000) by (nonlinear_arith)
                requires
                    -0x8000_0000_0000_0000 <= a <= 0x8000_0000_0000_0000,
                    -0x8000_0000_0000_0000 <= b <= 0x8000_0000_0000_0000,
            ;
        }
        let p: i128 = a * b;
        let neg = p < 0;
        let mag: u128 = if neg {
            (-p) as u128
        } else {
            p as u128
        };
        let q: u128 = mag / (d as u128);
        proof {
            assert(q <= mag);
            if neg {
                assert(trunc_div(p as int, d as int) == -(q as int));
            } else {
                assert(trunc_div(p as int, d as int) == q as int);
            }
        }
        if neg {
            if q >= 0x8000_0000_0000_0000u128 {
                i64::MIN
            } else {
                -(q as i64)
            }
        } else {
            if q >= 0x8000_0000_0000_0000u128 {
                i64::MAX
            } else {
                q as i64
            }
        }
    }
}

/// Pi, in fixed-point bits.
pub const PI_BITS: i64 = 52707178;

/// Two pi, in fixed-point bits.
pub const TAU_BITS: i64 = 105414357;

/// Half pi, in fixed-point bits.
pub const HALF_PI_BITS: i64 = 26353589;

/// A quarter pi, in fixed-point bits.
pub const QUARTER_PI_BITS: i64 = 13176795;

/// The tangent of an eighth turn, in fixed-point bits: the threshold between
/// the two inverse-tangent evaluation strategies.
pub const TAN_EIGHTH_BITS: i64 = 6949395;

/// The integer square root, rounded down: defined by halving the root of the
/// number shifted right by two digits, then correcting up by one if that
/// still fits.
pub open spec fn spec_isqrt(x: int) -> int
    decreases x,
{
    if x < 1 {
        0
    } else {
        let r = 2 * spec_isqrt(x / 4);
        if (r + 1) * (r + 1) <= x {
            r + 1
        } else {
            r
        }
    }
}

/// The integer square root is the floor of the true square root.
pub proof fn lemma_isqrt_bounds(x: int)
    requires
        x >= 0,
    ensures
        0 <= spec_isqrt(x),
        spec_isqrt(x) * spec_isqrt(x) <= x,
        x < (spec_isqrt(x) + 1) * (spec_isqrt(x) + 1),
    decreases x,
{
    if x < 1 {
        assert(spec_isqrt(x) == 0);
        assert(x < (0 + 1) * (0 + 1));
    } else {
        lemma_isqrt_bounds(x / 4);
        let r0 = spec_isqrt(x / 4);
        let r = 2 * r0;
        vstd::arithmetic::div_mod::lemma_fundamental_div_mod(x, 4);
        assert(r * r <= x && x < (r + 2) * (r + 2)) by (nonlinear_arith)
            requires
                0 <= r0,
                r == 2 * r0,
                r0 * r0 <= x / 4,
                x / 4 < (r0 + 1) * (r0 + 1),
                x == 4 * (x / 4) + x % 4,
                0 <= x % 4 < 4,
        ;
        if (r + 1) * (r + 1) <= x {
            assert(spec_isqrt(x) == r + 1);
            assert(x < ((r + 1) + 1) * ((r + 1) + 1)) by (nonlinear_arith)
                requires
                    x < (r + 2) * (r + 2),
            ;
        } else {
            assert(spec_isqrt(x) == r);
        }
    }
}

/// Compute the integer square root of a value below `2^96`.
fn isqrt_u128(x: u128) -> (r: u64)
    requires
        x < 0x1_0000_0000_0000_0000_0000_0000,
    ensures
        r as int == spec_isqrt(x as int),
        r < 0x1_0000_0000_0000,
    decreases x,
{
    if x < 1 {
        0
    } else {
        let r0 = isqrt_u128(x / 4);
        proof {
            lemma_isqrt_bounds(x as int);
            lemma_isqrt_bounds(x as int / 4);
            assert(spec_isqrt(x as int) < 0x1_0000_0000_0000) by (nonlinear_arith)
                requires
                    spec_isqrt(x as int) * spec_isqrt(x as int) <= x,
                    x < 0x1_0000_0000_0000_0000_0000_0000,
                    0 <= spec_isqrt(x as int),
            ;
        }
        proof {
            assert(r0 < 0x8000_0000_0000) by (nonlinear_arith)
                requires
                    r0 * r0 <= x as int / 4,
                    x < 0x1_0000_0000_0000_0000_0000_0000,
                    0 <= r0,
                    x as int / 4 <= x,
            ;
        }
        let r = 2 * r0;
        let rp = r + 1;
        proof {
            assert((rp as u128) * (rp as u128) < 0x1_0000_0000_0000_0000_0000_0000_0000)
                by (nonlinear_arith)
                requires
                    rp <= 0x1_0000_0000_0000,
            ;
        }
        if (rp as u128) * (rp as u128) <= x {
            rp
        } else {
            r
        }
    }
}

/// Reduce an angle into `[-pi, pi]` by removing whole turns: the remainder of
/// the magnitude by a full turn, folded down by one turn when it passes half
/// a turn, with the original sign restored.
pub open spec fn fx_reduce_spec(x: Fx) -> Fx {
    let m = vstd::math::abs(x.bits as int) as int;
    let rem = m % (TAU_BITS as int);
    let folded = if rem > PI_BITS {
        rem - TAU_BITS
    } else {
        rem
    };
    let signed = if x.bits < 0 {
        -folded
    } else {
        folded
    };
    Fx { bits: signed as i64 }
}

/// Remove whole turns from an angle.
fn fx_reduce(x: Fx) -> (r: Fx)
    ensures
        r == fx_reduce_spec(x),
        -PI_BITS <= r.bits <= PI_BITS,
{
    let m: u64 = if x.bits == i64::MIN {
        0x8000_0000_0000_0000u64
    } else if x.bits < 0 {
        (-x.bits) as u64
    } else {
        x.bits as u64
    };
    let rem: u64 = m % (TAU_BITS as u64);
    let folded: i64 = if rem > PI_BITS as u64 {
        (rem as i64) - TAU_BITS
    } else {
        rem as i64
    };
    let bits = if x.bits < 0 {
        -folded
    } else {
        folded
    };
    Fx { bits }
}

/// Fold a reduced angle into `[-pi/2, pi/2]` using the half-turn symmetry of
/// sine; the flag says that the cosine of the folded angle must be negated.
pub open spec fn fx_fold_spec(x: Fx) -> (Fx, bool) {
    let r = fx_reduce_spec(x).bits;
    if r > HALF_PI_BITS {
        (Fx { bits: (PI_BITS - r) as i64 }, true)
    } else if r < -HALF_PI_BITS {
        (Fx { bits: (-PI_BITS - r) as i64 }, true)
    } else {
        (Fx { bits: r }, false)
    }
}

/// Fold a full angle into the quarter-turn range.
fn fx_fold(x: Fx) -> (r: (Fx, bool))
    ensures
        r == fx_fold_spec(x),
{
    let red = fx_reduce(x);
    let r = red.bits;
    if r > HALF_PI_BITS {
        (Fx { bits: PI_BITS - r }, true)
    } else if r < -HALF_PI_BITS {
        (Fx { bits: -PI_BITS - r }, true)
    } else {
        (Fx { bits: r }, false)
    }
}

/// The sine polynomial on `[-pi/2, pi/2]`: the Taylor series through the
/// eleventh power, evaluated from the inside out.
pub open spec fn fx_poly_sin_spec(t: Fx) -> Fx {
    let one = Fx { bits: SCALE };
    let x2 = t.mul_spec(t);
    let u5 = one.sub_spec(x2.div_spec(Fx::int_spec(110)));
    let u4 = one.sub_spec(x2.mul_spec(u5).div_spec(Fx::int_spec(72)));
    let u3 = one.sub_spec(x2.mul_spec(u4).div_spec(Fx::int_spec(42)));
    let u2 = one.sub_spec(x2.mul_spec(u3).div_spec(Fx::int_spec(20)));
    let u1 = one.sub_spec(x2.mul_spec(u2).div_spec(Fx::int_spec(6)));
    t.mul_spec(u1)
}

/// The cosine polynomial on `[-pi/2, pi/2]`: the Taylor series through the
/// tenth power, evaluated from the inside out.
pub open spec fn fx_poly_cos_spec(t: Fx) -> Fx {
    let one = Fx { bits: SCALE };
    let x2 = t.mul_spec(t);
    let v5 = one.sub_spec(x2.div_spec(Fx::int_spec(90)));
    let v4 = one.sub_spec(x2.mul_spec(v5).div_spec(Fx::int_spec(56)));
    let v3 = one.sub_spec(x2.mul_spec(v4).div_spec(Fx::int_spec(30)));
    let v2 = one.sub_spec(x2.mul_spec(v3).div_spec(Fx::int_spec(12)));
    one.sub_spec(x2.mul_spec(v2).div_spec(Fx::int_spec(2)))
}

/// The sine of any angle: the polynomial on the folded angle.
pub open spec fn fx_sin_spec(x: Fx) -> Fx {
    fx_poly_sin_spec(fx_fold_spec(x).0)
}

/// The cosine of any angle: the polynomial on the folded angle, negated when
/// the fold crossed a quarter turn.
pub open spec fn fx_cos_spec(x: Fx) -> Fx {
    let (t, flip) = fx_fold_spec(x);
    if flip {
        fx_poly_cos_spec(t).neg_spec()
    } else {
        fx_poly_cos_spec(t)
    }
}

/// Evaluate the sine polynomial.
fn fx_poly_sin(t: Fx) -> (r: Fx)
    ensures
        r == fx_poly_sin_spec(t),
{
    let one = Fx::one();
    let x2 = t.mul(t);
    let u5 = one.sub(x2.div(Fx::of_int(110)));
    let u4 = one.sub(x2.mul(u5).div(Fx::of_int(72)));
    let u3 = one.sub(x2.mul(u4).div(Fx::of_int(42)));
    let u2 = one.sub(x2.mul(u3).div(Fx::of_int(20)));
    let u1 = one.sub(x2.mul(u2).div(Fx::of_int(6)));
    t.mul(u1)
}

/// Evaluate the cosine polynomial.
fn fx_poly_cos(t: Fx) -> (r: Fx)
    ensures
        r == fx_poly_cos_spec(t),
{
    let one = Fx::one();
    let x2 = t.mul(t);
    let v5 = one.sub(x2.div(Fx::of_int(90)));
    let v4 = one.sub(x2.mul(v5).div(Fx::of_int(56)));
    let v3 = one.sub(x2.mul(v4).div(Fx::of_int(30)));
    let v2 = one.sub(x2.mul(v3).div(Fx::of_int(12)));
    one.sub(x2.mul(v2).div(Fx::of_int(2)))
}

/// The inverse tangent on `[0, 1]`: the odd Taylor series through the ninth
/// power, applied directly below the tangent of an eighth turn and through
/// the shift identity `atan(z) = pi/4 + atan((z-1)/(z+1))` above it.
pub open spec fn fx_atan01_spec(z: Fx) -> Fx {
    let one = Fx { bits: SCALE };
    if z.bits > TAN_EIGHTH_BITS {
        let w = z.sub_spec(one).div_spec(z.add_spec(one));
        Fx { bits: QUARTER_PI_BITS }.add_spec(fx_atan_series_spec(w))
    } else {
        fx_atan_series_spec(z)
    }
}

/// The alternating inverse-tangent series through the ninth power.
pub open spec fn fx_atan_series_spec(w: Fx) -> Fx {
    let one = Fx { bits: SCALE };
    let w2 = w.mul_spec(w);
    let a4 = Fx::frac_spec(1, 9);
    let a3 = Fx::frac_spec(1, 7).sub_spec(w2.mul_spec(a4));
    let a2 = Fx::frac_spec(1, 5).sub_spec(w2.mul_spec(a3));
    let a1 = Fx::frac_spec(1, 3).sub_spec(w2.mul_spec(a2));
    w.mul_spec(one.sub_spec(w2.mul_spec(a1)))
}

/// Evaluate the inverse-tangent series.
fn fx_atan_series(w: Fx) -> (r: Fx)
    ensures
        r == fx_atan_series_spec(w),
{
    let one = Fx::one();
    let w2 = w.mul(w);
    let a4 = Fx::frac(1, 9);
    let a3 = Fx::frac(1, 7).sub(w2.mul(a4));
    let a2 = Fx::frac(1, 5).sub(w2.mul(a3));
    let a1 = Fx::frac(1, 3).sub(w2.mul(a2));
    w.mul(one.sub(w2.mul(a1)))
}

/// Evaluate the inverse tangent on `[0, 1]`.
fn fx_atan01(z: Fx) -> (r: Fx)
    ensures
        r == fx_atan01_spec(z),
{
    let one = Fx::one();
    if z.bits > TAN_EIGHTH_BITS {
        let w = z.sub(one).div(z.add(one));
        Fx { bits: QUARTER_PI_BITS }.add(fx_atan_series(w))
    } else {
        fx_atan_series(z)
    }
}

/// The angle of the point `(x, y)`: the octant base angle from the inverse
/// tangent of the smaller magnitude over the larger, reflected into the
/// correct quadrant and given the sign of `y`.  Both coordinates zero give
/// the angle zero.
pub open spec fn fx_atan2_spec(y: Fx, x: Fx) -> Fx {
    let ax = x.abs_fx_spec();
    let ay = y.abs_fx_spec();
    let base = if ay.bits <= ax.bits {
        if ax.bits == 0 {
            Fx { bits: 0 }
        } else {
            fx_atan01_spec(ay.div_spec(ax))
        }
    } else {
        Fx { bits: HALF_PI_BITS }.sub_spec(fx_atan01_spec(ax.div_spec(ay)))
    };
    let ang = if x.bits >= 0 {
        base
    } else {
        Fx { bits: PI_BITS }.sub_spec(base)
    };
    if y.bits < 0 {
        ang.neg_spec()
    } else {
        ang
    }
}

impl Fx {
    /// The saturated absolute value of the bits, as a spec value.
    pub open spec fn abs_fx_spec(self) -> Fx {
        Fx { bits: sat64(vstd::math::abs(self.bits as int) as int) }
    }
}

impl Num for Fx {
    open spec fn zero_spec() -> Fx {
        Fx { bits: 0 }
    }

    open spec fn one_spec() -> Fx {
        Fx { bits: SCALE }
    }

    open spec fn add_spec(self, other: Fx) -> Fx {
        Fx { bits: sat64(self.bits + other.bits) }
    }

    open spec fn sub_spec(self, other: Fx) -> Fx {
        Fx { bits: sat64(self.bits - other.bits) }
    }

    open spec fn mul_spec(self, other: Fx) -> Fx {
        Fx { bits: sat64(trunc_div(self.bits * other.bits, SCALE as int)) }
    }

    open spec fn div_spec(self, other: Fx) -> Fx {
        if other.bits == 0 {
            Fx { bits: 0 }
        } else {
            Fx { bits: sat64(trunc_div_signed(self.bits * SCALE, other.bits as int)) }
        }
    }

    open spec fn neg_spec(self) -> Fx {
        Fx { bits: sat64(-self.bits) }
    }

    fn zero() -> Fx {
        Fx { bits: 0 }
    }

    fn one() -> Fx {
        Fx { bits: SCALE }
    }

    fn add(self, other: Fx) -> Fx {
        Fx { bits: Fx::add_bits(self.bits, other.bits) }
    }

    fn sub(self, other: Fx) -> (r: Fx) {
        let s: i128 = (self.bits as i128) - (other.bits as i128);
        let bits = if s > i64::MAX as i128 {
            i64::MAX
        } else if s < i64::MIN as i128 {
            i64::MIN
        } else {
            s as i64
        };
        Fx { bits }
    }

    fn mul(self, other: Fx) -> (r: Fx) {
        let bits = Fx::scaled_ratio(self.bits as i128, other.bits as i128, SCALE as i128);
        Fx { bits }
    }

    fn div(self, other: Fx) -> (r: Fx) {
        if other.bits == 0 {
            Fx { bits: 0 }
        } else {
            let neg_d = other.bits < 0;
            let dmag: i128 = if other.bits == i64::MIN {
                0x8000_0000_0000_0000i128
            } else if neg_d {
                (-other.bits) as i128
            } else {
                other.bits as i128
            };
            let a: i128 = if neg_d {
                -(self.bits as i128)
            } else {
                self.bits as i128
            };
            let bits = Fx::scaled_ratio(a, SCALE as i128, dmag);
            proof {
                assert(trunc_div(a as int * SCALE, dmag as int) == trunc_div_signed(
                    self.bits * SCALE,
                    other.bits as int,
                )) by (nonlinear_arith)
                    requires
                        other.bits != 0,
                        dmag == vstd::math::abs(other.bits as int),
                        a == (if other.bits < 0 {
                            -(self.bits as int)
                        } else {
                            self.bits as int
                        }),
                ;
            }
            Fx { bits }
        }
    }

    fn neg(self) -> (r: Fx) {
        if self.bits == i64::MIN {
            Fx { bits: i64::MAX }
        } else {
            Fx { bits: -self.bits }
        }
    }

    fn is_zero(&self) -> bool {
        self.bits == 0
    }

    fn set_zero(&mut self) {
        self.bits = 0;
    }
}

impl Float for Fx {
    open spec fn epsilon_spec() -> Fx {
        Fx { bits: 16 }
    }

    open spec fn lt_spec(self, other: Fx) -> bool {
        self.bits < other.bits
    }

    open spec fn abs_spec(self) -> Fx {
        self.abs_fx_spec()
    }

    open spec fn signum_spec(self) -> Fx {
        if self.bits < 0 {
            Fx { bits: (-SCALE) as i64 }
        } else {
            Fx { bits: SCALE }
        }
    }

    open spec fn sqrt_spec(self) -> Fx {
        if self.bits <= 0 {
            Fx { bits: 0 }
        } else {
            Fx { bits: spec_isqrt(self.bits * SCALE) as i64 }
        }
    }

    open spec fn sin_spec(self) -> Fx {
        fx_sin_spec(self)
    }

    open spec fn cos_spec(self) -> Fx {
        fx_cos_spec(self)
    }

    open spec fn tan_spec(self) -> Fx {
        fx_sin_spec(self).div_spec(fx_cos_spec(self))
    }

    open spec fn atan2_spec(self, x: Fx) -> Fx {
        fx_atan2_spec(self, x)
    }

    open spec fn asin_spec(self) -> Fx {
        fx_atan2_spec(
            self,
            Fx { bits: SCALE }.sub_spec(self.mul_spec(self)).sqrt_spec(),
        )
    }

    open spec fn acos_spec(self) -> Fx {
        Fx { bits: HALF_PI_BITS }.sub_spec(self.asin_spec())
    }

    open spec fn int_spec(n: isize) -> Fx {
        Fx { bits: sat64(n * SCALE) }
    }

    open spec fn frac_spec(n: isize, d: usize) -> Fx {
        if d == 0 {
            Fx { bits: 0 }
        } else {
            Fx { bits: sat64(trunc_div(n * SCALE, d as int)) }
        }
    }

    open spec fn pi_spec() -> Fx {
        Fx { bits: PI_BITS }
    }

    fn epsilon() -> Fx {
        Fx { bits: 16 }
    }

    fn lt(self, other: Fx) -> bool {
        self.bits < other.bits
    }

    fn abs(self) -> (r: Fx) {
        if self.bits == i64::MIN {
            Fx { bits: i64::MAX }
        } else if self.bits < 0 {
            Fx { bits: -self.bits }
        } else {
            self
        }
    }

    fn signum(self) -> (r: Fx) {
        if self.bits < 0 {
            Fx { bits: -SCALE }
        } else {
            Fx { bits: SCALE }
        }
    }

    fn sqrt(self) -> (r: Fx) {
        if self.bits <= 0 {
            Fx { bits: 0 }
        } else {
            let v: u128 = (self.bits as u128) * (SCALE as u128);
            proof {
                assert(v == self.bits * SCALE) by (nonlinear_arith)
                    requires
                        self.bits > 0,
                        v == (self.bits as u128) * (SCALE as u128),
                ;
                assert(v < 0x1_0000_0000_0000_0000_0000_0000) by (nonlinear_arith)
                    requires
                        0 < self.bits <= 0x7fff_ffff_ffff_ffff,
                        v == self.bits * SCALE,
                ;
            }
            let root = isqrt_u128(v);
            Fx { bits: root as i64 }
        }
    }

    fn sin_cos(self) -> (r: (Fx, Fx)) {
        let (t, flip) = fx_fold(self);
        let s = fx_poly_sin(t);
        let c = fx_poly_cos(t);
        let c = if flip {
            c.neg()
        } else {
            c
        };
        (s, c)
    }

    fn tan(self) -> (r: Fx) {
        let (s, c) = self.sin_cos();
        s.div(c)
    }

    fn atan2(self, x: Fx) -> (r: Fx) {
        let ax = x.abs();
        let ay = self.abs();
        let base = if ay.bits <= ax.bits {
            if ax.bits == 0 {
                Fx { bits: 0 }
            } else {
                fx_atan01(ay.div(ax))
            }
        } else {
            Fx { bits: HALF_PI_BITS }.sub(fx_atan01(ax.div(ay)))
        };
        let ang = if x.bits >= 0 {
            base
        } else {
            Fx { bits: PI_BITS }.sub(base)
        };
        if self.bits < 0 {
            ang.neg()
        } else {
            ang
        }
    }

    fn asin(self) -> (r: Fx) {
        self.atan2(Fx::one().sub(self.mul(self)).sqrt())
    }

    fn acos(self) -> (r: Fx) {
        Fx { bits: HALF_PI_BITS }.sub(self.asin())
    }

    fn of_int(n: isize) -> (r: Fx) {
        let s: i128 = (n as i128) * (SCALE as i128);
        let bits = if s > i64::MAX as i128 {
            i64::MAX
        } else if s < i64::MIN as i128 {
            i64::MIN
        } else {
            s as i64
        };
        Fx { bits }
    }

    fn frac(n: isize, d: usize) -> (r: Fx) {
        if d == 0 {
            Fx { bits: 0 }
        } else {
            let neg = n < 0;
            let m: u128 = if n == isize::MIN {
                (-(n as i128)) as u128
            } else if neg {
                (-n) as u128
            } else {
                n as u128
            };
            let scaled: u128 = m * (SCALE as u128);
            proof {
                assert(m * (SCALE as u128) == m * SCALE) by (nonlinear_arith);
                assert(m * SCALE <= 0x8000_0000_0000_0000 * 0x100_0000) by (nonlinear_arith)
                    requires
                        m <= 0x8000_0000_0000_0000,
                ;
            }
            let q: u128 = scaled / (d as u128);
            proof {
                assert(q <= scaled);
                if neg {
                    assert(trunc_div(n * SCALE, d as int) == -(q as int));
                } else {
                    assert(trunc_div(n * SCALE, d as int) == q as int);
                }
            }
            let bits = if neg {
                if q >= 0x8000_0000_0000_0000u128 {
                    i64::MIN
                } else {
                    -(q as i64)
                }
            } else {
                if q >= 0x8000_0000_0000_0000u128 {
                    i64::MAX
                } else {
                    q as i64
                }
            };
            Fx { bits }
        }
    }

    fn pi() -> Fx {
        Fx { bits: PI_BITS }
    }
}

} // verus!
