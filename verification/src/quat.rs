//! Quaternion operations on fixed-size arrays of scalars.
//!
//! A quaternion `r + i*I + j*J + k*K` is stored as the array `[i, j, k, r]`
//! (index 0 is `i`, 1 is `j`, 2 is `k`, 3 is `r`); every conversion and
//! application formula in this module depends on that component order.  The
//! `as_rijk` / `of_rijk` accessors translate to and from `(r, i, j, k)`
//! tuples.
//!
//! Each function's contract pins the result down, component by component,
//! through a spec-level mirror of its formula; the rotation laws those
//! formulas obey (composition, length preservation, the conjugate undoing a
//! rotation) are proved over exact integer arithmetic in the `algebra`
//! module.

use crate::matrix;
use crate::traits::Float;
use crate::traits::Num;
use crate::vector;
use vstd::prelude::*;

verus! {

/// The Hamilton product of two quaternions in `[i, j, k, r]` order.
///
/// Multiplication is not commutative: `spec_hamilton(a, b)` applied to a
/// vector rotates by `b` first and then by `a`.
pub open spec fn spec_hamilton<V: Num>(a: Seq<V>, b: Seq<V>) -> Seq<V> {
    seq![
        a[0].mul_spec(b[3]).add_spec(a[3].mul_spec(b[0])).add_spec(a[1].mul_spec(b[2])).sub_spec(
            a[2].mul_spec(b[1]),
        ),
        a[1].mul_spec(b[3]).add_spec(a[3].mul_spec(b[1])).add_spec(a[2].mul_spec(b[0])).sub_spec(
            a[0].mul_spec(b[2]),
        ),
        a[2].mul_spec(b[3]).add_spec(a[3].mul_spec(b[2])).add_spec(a[0].mul_spec(b[1])).sub_spec(
            a[1].mul_spec(b[0]),
        ),
        a[3].mul_spec(b[3]).sub_spec(a[0].mul_spec(b[0])).sub_spec(a[1].mul_spec(b[1])).sub_spec(
            a[2].mul_spec(b[2]),
        ),
    ]
}

/// The conjugate: imaginary components negated, real component kept.
pub open spec fn spec_conjugate<V: Num>(a: Seq<V>) -> Seq<V> {
    seq![a[0].neg_spec(), a[1].neg_spec(), a[2].neg_spec(), a[3]]
}

/// The inverse: the conjugate scaled by the reciprocal of the squared length,
/// or the zero quaternion when the squared length is below epsilon.
pub open spec fn spec_invert<V: Float>(a: Seq<V>) -> Seq<V> {
    let l = vector::spec_dot(a, a, 4);
    let rl = if l.lt_spec(V::epsilon_spec()) {
        V::zero_spec()
    } else {
        V::one_spec().div_spec(l)
    };
    seq![
        a[0].neg_spec().mul_spec(rl),
        a[1].neg_spec().mul_spec(rl),
        a[2].neg_spec().mul_spec(rl),
        a[3].mul_spec(rl),
    ]
}

/// Create a new quaternion: the identity, `[0, 0, 0, 1]`.
pub fn new<V: Num>() -> (r: [V; 4])
    ensures
        r[0] == V::zero_spec(),
        r[1] == V::zero_spec(),
        r[2] == V::zero_spec(),
        r[3] == V::one_spec(),
{
    [V::zero(), V::zero(), V::zero(), V::one()]
}

/// Create an identity quaternion.
pub fn identity<V: Num>() -> (r: [V; 4])
    ensures
        r[0] == V::zero_spec(),
        r[1] == V::zero_spec(),
        r[2] == V::zero_spec(),
        r[3] == V::one_spec(),
{
    [V::zero(), V::zero(), V::zero(), V::one()]
}

/// Return the breakdown of a quaternion into its `(r, i, j, k)` components.
pub fn as_rijk<V: Num>(v: &[V; 4]) -> (r: (V, V, V, V))
    ensures
        r.0 == v[3],
        r.1 == v[0],
        r.2 == v[1],
        r.3 == v[2],
{
    (v[3], v[0], v[1], v[2])
}

/// Create a quaternion from its `(r, i, j, k)` components.
pub fn of_rijk<V: Num>(r: V, i: V, j: V, k: V) -> (q: [V; 4])
    ensures
        q[0] == i,
        q[1] == j,
        q[2] == k,
        q[3] == r,
{
    [i, j, k, r]
}

/// Find the conjugate of a quaternion.
pub fn conjugate<V: Num>(a: &[V; 4]) -> (r: [V; 4])
    ensures
        r@ == spec_conjugate(a@),
{
    let r = [a[0].neg(), a[1].neg(), a[2].neg(), a[3]];
    proof {
        assert(r@ =~= spec_conjugate(a@));
    }
    r
}

/// Get the quaternion inverse; a quaternion whose squared length is below
/// epsilon gives the zero quaternion.
pub fn invert<V: Float>(a: &[V; 4]) -> (r: [V; 4])
    ensures
        r@ == spec_invert(a@),
{
    let l = vector::length_sq(a);
    let r_l = if l.lt(V::epsilon()) {
        V::zero()
    } else {
        V::one().div(l)
    };
    let r = [a[0].neg().mul(r_l), a[1].neg().mul(r_l), a[2].neg().mul(r_l), a[3].mul(r_l)];
    proof {
        assert(r@ =~= spec_invert(a@));
    }
    r
}

/// Normalize the quaternion; if its length is below epsilon, return the zero
/// quaternion.
pub fn normalize<V: Float>(a: [V; 4]) -> (r: [V; 4])
    ensures
        ({
            let l = vector::spec_dot(a@, a@, 4).sqrt_spec();
            if l.lt_spec(V::epsilon_spec()) {
                forall|i: int| 0 <= i < 4 ==> r[i] == V::zero_spec()
            } else {
                forall|i: int| 0 <= i < 4 ==> r[i] == a[i].div_spec(l)
            }
        }),
{
    vector::normalize(a)
}

/// Multiply two quaternions together: the Hamilton product.
///
/// `multiply(a, b)` applied to a vector rotates by `b` first and then by `a`.
pub fn multiply<V: Num>(a: &[V; 4], b: &[V; 4]) -> (q: [V; 4])
    ensures
        q@ == spec_hamilton(a@, b@),
{
    let i = a[0].mul(b[3]).add(a[3].mul(b[0])).add(a[1].mul(b[2])).sub(a[2].mul(b[1]));
    let j = a[1].mul(b[3]).add(a[3].mul(b[1])).add(a[2].mul(b[0])).sub(a[0].mul(b[2]));
    let k = a[2].mul(b[3]).add(a[3].mul(b[2])).add(a[0].mul(b[1])).sub(a[1].mul(b[0]));
    let r = a[3].mul(b[3]).sub(a[0].mul(b[0])).sub(a[1].mul(b[1])).sub(a[2].mul(b[2]));
    let q = [i, j, k, r];
    proof {
        assert(q@ =~= spec_hamilton(a@, b@));
    }
    q
}

/// What `divide` returns: `a` times the conjugate of `b`, scaled by the
/// reciprocal of `b`'s squared length — or the all-zero quaternion when that
/// squared length is below epsilon, rather than a division by near-zero.
pub open spec fn spec_divide<V: Float>(a: Seq<V>, b: Seq<V>) -> Seq<V> {
    let l2 = vector::spec_dot(b, b, 4);
    if l2.lt_spec(V::epsilon_spec()) {
        seq![V::zero_spec(), V::zero_spec(), V::zero_spec(), V::zero_spec()]
    } else {
        seq![
            a[0].mul_spec(b[3]).sub_spec(a[3].mul_spec(b[0])).sub_spec(
                a[1].mul_spec(b[2]),
            ).add_spec(a[2].mul_spec(b[1])).div_spec(l2),
            a[1].mul_spec(b[3]).sub_spec(a[3].mul_spec(b[1])).sub_spec(
                a[2].mul_spec(b[0]),
            ).add_spec(a[0].mul_spec(b[2])).div_spec(l2),
            a[2].mul_spec(b[3]).sub_spec(a[3].mul_spec(b[2])).sub_spec(
                a[0].mul_spec(b[1]),
            ).add_spec(a[1].mul_spec(b[0])).div_spec(l2),
            a[3].mul_spec(b[3]).add_spec(a[0].mul_spec(b[0])).add_spec(
                a[1].mul_spec(b[1]),
            ).add_spec(a[2].mul_spec(b[2])).div_spec(l2),
        ]
    }
}

/// Dividing by a quaternion whose squared magnitude is below epsilon returns
/// the all-zero quaternion: a well-defined degenerate result in place of a
/// division by near-zero.
pub proof fn lemma_divide_near_zero<V: Float>(a: Seq<V>, b: Seq<V>)
    requires
        vector::spec_dot(b, b, 4).lt_spec(V::epsilon_spec()),
    ensures
        spec_divide(a, b) == seq![
            V::zero_spec(),
            V::zero_spec(),
            V::zero_spec(),
            V::zero_spec(),
        ],
{
}

/// Multiply one quaternion by the conjugate of the other over the squared
/// length of the other; when that squared length is below epsilon the result
/// is the all-zero quaternion, never a division by near-zero.
pub fn divide<V: Float>(a: &[V; 4], b: &[V; 4]) -> (q: [V; 4])
    ensures
        q@ == spec_divide(a@, b@),
{
    let l2 = vector::length_sq(b);
    if l2.lt(V::epsilon()) {
        let q = [V::zero(), V::zero(), V::zero(), V::zero()];
        proof {
            assert(q@ =~= spec_divide(a@, b@));
        }
        q
    } else {
        let i = a[0].mul(b[3]).sub(a[3].mul(b[0])).sub(a[1].mul(b[2])).add(a[2].mul(b[1]));
        let j = a[1].mul(b[3]).sub(a[3].mul(b[1])).sub(a[2].mul(b[0])).add(a[0].mul(b[2]));
        let k = a[2].mul(b[3]).sub(a[3].mul(b[2])).sub(a[0].mul(b[1])).add(a[1].mul(b[0]));
        let r = a[3].mul(b[3]).add(a[0].mul(b[0])).add(a[1].mul(b[1])).add(a[2].mul(b[2]));
        let q = [i.div(l2), j.div(l2), k.div(l2), r.div(l2)];
        proof {
            assert(q@ =~= spec_divide(a@, b@));
        }
        q
    }
}

/// What a principal-axis rotation update computes: the closed-form product of
/// the quaternion with the axis-angle quaternion for half the angle, written
/// out per component.  `s` and `c` are the sine and cosine of half the angle.
pub open spec fn spec_half_sin_cos<V: Float>(angle: V) -> (V, V) {
    let half = angle.div_spec(V::int_spec(2));
    (half.sin_spec(), half.cos_spec())
}

/// Find a rotation about the X-axis.
pub fn rotate_x<V: Float>(a: &[V; 4], angle: V) -> (q: [V; 4])
    ensures
        ({
            let (s, c) = spec_half_sin_cos(angle);
            &&& q[0] == a[0].mul_spec(c).add_spec(a[3].mul_spec(s))
            &&& q[1] == a[1].mul_spec(c).add_spec(a[2].mul_spec(s))
            &&& q[2] == a[2].mul_spec(c).sub_spec(a[1].mul_spec(s))
            &&& q[3] == a[3].mul_spec(c).sub_spec(a[0].mul_spec(s))
        }),
{
    let (s, c) = angle.div(V::of_int(2)).sin_cos();
    let i = a[0].mul(c).add(a[3].mul(s));
    let j = a[1].mul(c).add(a[2].mul(s));
    let k = a[2].mul(c).sub(a[1].mul(s));
    let r = a[3].mul(c).sub(a[0].mul(s));
    [i, j, k, r]
}

/// Find a rotation about the Y-axis.
pub fn rotate_y<V: Float>(a: &[V; 4], angle: V) -> (q: [V; 4])
    ensures
        ({
            let (s, c) = spec_half_sin_cos(angle);
            &&& q[0] == a[0].mul_spec(c).sub_spec(a[2].mul_spec(s))
            &&& q[1] == a[1].mul_spec(c).add_spec(a[3].mul_spec(s))
            &&& q[2] == a[2].mul_spec(c).add_spec(a[0].mul_spec(s))
            &&& q[3] == a[3].mul_spec(c).sub_spec(a[1].mul_spec(s))
        }),
{
    let (s, c) = angle.div(V::of_int(2)).sin_cos();
    let i = a[0].mul(c).sub(a[2].mul(s));
    let j = a[1].mul(c).add(a[3].mul(s));
    let k = a[2].mul(c).add(a[0].mul(s));
    let r = a[3].mul(c).sub(a[1].mul(s));
    [i, j, k, r]
}

/// Find a rotation about the Z-axis.
pub fn rotate_z<V: Float>(a: &[V; 4], angle: V) -> (q: [V; 4])
    ensures
        ({
            let (s, c) = spec_half_sin_cos(angle);
            &&& q[0] == a[0].mul_spec(c).add_spec(a[1].mul_spec(s))
            &&& q[1] == a[1].mul_spec(c).sub_spec(a[0].mul_spec(s))
            &&& q[2] == a[2].mul_spec(c).add_spec(a[3].mul_spec(s))
            &&& q[3] == a[3].mul_spec(c).sub_spec(a[2].mul_spec(s))
        }),
{
    let (s, c) = angle.div(V::of_int(2)).sin_cos();
    let i = a[0].mul(c).add(a[1].mul(s));
    let j = a[1].mul(c).sub(a[0].mul(s));
    let k = a[2].mul(c).add(a[3].mul(s));
    let r = a[3].mul(c).sub(a[2].mul(s));
    [i, j, k, r]
}

/// A simple normalized linear interpolation from one quaternion to another
/// (not spherical): the componentwise mix by `t`, then normalized.
pub fn nlerp<V: Float>(t: V, in0: &[V; 4], in1: &[V; 4]) -> (q: [V; 4])
    ensures
        ({
            let omt = V::one_spec().sub_spec(t);
            let mixed = seq![
                in0@[0].mul_spec(omt).add_spec(in1@[0].mul_spec(t)),
                in0@[1].mul_spec(omt).add_spec(in1@[1].mul_spec(t)),
                in0@[2].mul_spec(omt).add_spec(in1@[2].mul_spec(t)),
                in0@[3].mul_spec(omt).add_spec(in1@[3].mul_spec(t)),
            ];
            let l = vector::spec_dot(mixed, mixed, 4).sqrt_spec();
            if l.lt_spec(V::epsilon_spec()) {
                forall|i: int| 0 <= i < 4 ==> q[i] == V::zero_spec()
            } else {
                forall|i: int| 0 <= i < 4 ==> q[i] == mixed[i].div_spec(l)
            }
        }),
{
    let mixed = vector::mix(in0, in1, t);
    proof {
        assert(mixed@ =~= seq![
            in0@[0].mul_spec(V::one_spec().sub_spec(t)).add_spec(in1@[0].mul_spec(t)),
            in0@[1].mul_spec(V::one_spec().sub_spec(t)).add_spec(in1@[1].mul_spec(t)),
            in0@[2].mul_spec(V::one_spec().sub_spec(t)).add_spec(in1@[2].mul_spec(t)),
            in0@[3].mul_spec(V::one_spec().sub_spec(t)).add_spec(in1@[3].mul_spec(t)),
        ]);
    }
    normalize(mixed)
}

/// What quaternion distance measures: the product of the inverse of one
/// quaternion with the other, with one subtracted from (or, for a negative
/// real part, added to) the real component, squared.  Both signs of the double
/// cover thereby count as distance zero.
pub open spec fn spec_distance_sq<V: Float>(a: Seq<V>, b: Seq<V>) -> V {
    let qn = spec_hamilton(spec_invert(a), b);
    let adjusted = qn.update(
        3,
        if qn[3].lt_spec(V::zero_spec()) {
            qn[3].add_spec(V::one_spec())
        } else {
            qn[3].sub_spec(V::one_spec())
        },
    );
    vector::spec_dot(adjusted, adjusted, 4)
}

/// Get a measure of the 'distance' between two quaternions: zero exactly when
/// they describe the same rotation.
pub fn distance_sq<V: Float>(a: &[V; 4], b: &[V; 4]) -> (r: V)
    ensures
        r == spec_distance_sq(a@, b@),
{
    let qi = invert(a);
    let mut qn = multiply(&qi, b);
    let ghost before = qn;
    if qn[3].lt(V::zero()) {
        qn[3] = qn[3].add(V::one());
    } else {
        qn[3] = qn[3].sub(V::one());
    }
    proof {
        assert(qn@ =~= before@.update(
            3,
            if before@[3].lt_spec(V::zero_spec()) {
                before@[3].add_spec(V::one_spec())
            } else {
                before@[3].sub_spec(V::one_spec())
            },
        ));
    }
    vector::length_sq(&qn)
}

/// Get a measure of the 'distance' between two quaternions: the square root
/// of `distance_sq`.
pub fn distance<V: Float>(a: &[V; 4], b: &[V; 4]) -> (r: V)
    ensures
        r == spec_distance_sq(a@, b@).sqrt_spec(),
{
    distance_sq(a, b).sqrt()
}

/// What `of_axis_angle` returns: the unit quaternion whose imaginary part is
/// the normalized axis scaled by the sine of half the angle and whose real
/// part is the cosine of half the angle; a near-zero axis gives the identity.
pub open spec fn spec_of_axis_angle<V: Float>(axis: Seq<V>, angle: V) -> Seq<V> {
    let (s, c) = spec_half_sin_cos(angle);
    let l = vector::spec_dot(axis, axis, 3).sqrt_spec();
    if l.lt_spec(V::epsilon_spec()) {
        seq![V::zero_spec(), V::zero_spec(), V::zero_spec(), V::one_spec()]
    } else {
        let sl = s.div_spec(l);
        seq![sl.mul_spec(axis[0]), sl.mul_spec(axis[1]), sl.mul_spec(axis[2]), c]
    }
}

/// Find the quaternion for a rotation of an angle around an axis; an axis
/// whose length is below epsilon gives the identity quaternion.
pub fn of_axis_angle<V: Float>(axis: &[V; 3], angle: V) -> (q: [V; 4])
    ensures
        q@ == spec_of_axis_angle(axis@, angle),
{
    let (s, c) = angle.div(V::of_int(2)).sin_cos();
    let l = vector::length(axis);
    if l.lt(V::epsilon()) {
        let q = identity();
        proof {
            assert(q@ =~= spec_of_axis_angle(axis@, angle));
        }
        q
    } else {
        let s = s.div(l);
        let i = s.mul(axis[0]);
        let j = s.mul(axis[1]);
        let k = s.mul(axis[2]);
        let r = c;
        let q = [i, j, k, r];
        proof {
            assert(q@ =~= spec_of_axis_angle(axis@, angle));
        }
        q
    }
}

/// Return the axis of the rotation and the angle from the quaternion: the
/// inverse of `of_axis_angle`.
///
/// The imaginary part's length and the real part are the sine and cosine of
/// half the rotation angle, so the angle is twice their inverse tangent.
/// When the imaginary part's length is below epsilon the rotation is
/// degenerate: the angle is zero and the axis is the raw (unnormalized)
/// imaginary part.
pub fn as_axis_angle<V: Float>(q: &[V; 4]) -> (r: ([V; 3], V))
    ensures
        ({
            let i = q[0];
            let j = q[1];
            let k = q[2];
            let l = i.mul_spec(i).add_spec(j.mul_spec(j)).add_spec(k.mul_spec(k)).sqrt_spec();
            if l.lt_spec(V::epsilon_spec()) {
                r.0[0] == i && r.0[1] == j && r.0[2] == k && r.1 == V::zero_spec()
            } else {
                let rl = V::one_spec().div_spec(l);
                r.0[0] == i.mul_spec(rl) && r.0[1] == j.mul_spec(rl) && r.0[2] == k.mul_spec(rl)
                    && r.1 == V::int_spec(2).mul_spec(l.atan2_spec(q[3]))
            }
        }),
{
    let (r, i, j, k) = as_rijk(q);
    let i2 = i.mul(i);
    let j2 = j.mul(j);
    let k2 = k.mul(k);
    let l = i2.add(j2).add(k2).sqrt();
    if l.lt(V::epsilon()) {
        ([i, j, k], V::zero())
    } else {
        let rl = V::one().div(l);
        ([i.mul(rl), j.mul(rl), k.mul(rl)], V::of_int(2).mul(l.atan2(r)))
    }
}

/// Get the axis of a quaternion, and the angle of rotation it corresponds to:
/// twice the inverse cosine of the real part, with the imaginary part
/// normalized (to zero, if degenerate).
pub fn get_axis_angle<V: Float>(q: &[V; 4]) -> (r: ([V; 3], V))
    ensures
        r.1 == V::int_spec(2).mul_spec(q[3].acos_spec()),
        ({
            let im = seq![q@[0], q@[1], q@[2]];
            let l = vector::spec_dot(im, im, 3).sqrt_spec();
            if l.lt_spec(V::epsilon_spec()) {
                forall|i: int| 0 <= i < 3 ==> r.0[i] == V::zero_spec()
            } else {
                forall|i: int| 0 <= i < 3 ==> r.0[i] == im[i].div_spec(l)
            }
        }),
{
    let angle = V::of_int(2).mul(V::acos(q[3]));
    let im = [q[0], q[1], q[2]];
    proof {
        assert(im@ =~= seq![q@[0], q@[1], q@[2]]);
    }
    let axis = vector::normalize(im);
    (axis, angle)
}

/// The entries of the rotation matrix a quaternion describes, scaled by the
/// reciprocal of its squared length so that a nearly-unit quaternion still
/// gives a pure rotation.
pub open spec fn spec_to_rotation3<V: Float>(q: Seq<V>) -> Seq<V> {
    let i2 = q[0].mul_spec(q[0]);
    let j2 = q[1].mul_spec(q[1]);
    let k2 = q[2].mul_spec(q[2]);
    let r2 = q[3].mul_spec(q[3]);
    let l2 = r2.add_spec(i2).add_spec(j2).add_spec(k2);
    let rl2 = V::one_spec().div_spec(l2);
    let drl2 = V::frac_spec(2, 1).mul_spec(rl2);
    seq![
        r2.add_spec(i2).sub_spec(j2).sub_spec(k2).mul_spec(rl2),
        q[0].mul_spec(q[1]).sub_spec(q[2].mul_spec(q[3])).mul_spec(drl2),
        q[2].mul_spec(q[0]).add_spec(q[1].mul_spec(q[3])).mul_spec(drl2),
        q[0].mul_spec(q[1]).add_spec(q[2].mul_spec(q[3])).mul_spec(drl2),
        r2.sub_spec(i2).add_spec(j2).sub_spec(k2).mul_spec(rl2),
        q[1].mul_spec(q[2]).sub_spec(q[0].mul_spec(q[3])).mul_spec(drl2),
        q[2].mul_spec(q[0]).sub_spec(q[1].mul_spec(q[3])).mul_spec(drl2),
        q[1].mul_spec(q[2]).add_spec(q[0].mul_spec(q[3])).mul_spec(drl2),
        r2.sub_spec(i2).sub_spec(j2).add_spec(k2).mul_spec(rl2),
    ]
}

/// Convert a quaternion to a 3-by-3 rotation matrix, writing all nine
/// entries of `m`.
pub fn to_rotation3<V: Float>(q: &[V; 4], m: &mut [V; 9])
    ensures
        final(m)@ == spec_to_rotation3(q@),
{
    let i2 = q[0].mul(q[0]);
    let j2 = q[1].mul(q[1]);
    let k2 = q[2].mul(q[2]);
    let r2 = q[3].mul(q[3]);

    let l2 = r2.add(i2).add(j2).add(k2);
    let rl2 = V::one().div(l2);

    m[0] = r2.add(i2).sub(j2).sub(k2).mul(rl2);
    m[4] = r2.sub(i2).add(j2).sub(k2).mul(rl2);
    m[8] = r2.sub(i2).sub(j2).add(k2).mul(rl2);

    let drl2 = V::frac(2, 1).mul(rl2);

    m[1] = q[0].mul(q[1]).sub(q[2].mul(q[3])).mul(drl2);
    m[3] = q[0].mul(q[1]).add(q[2].mul(q[3])).mul(drl2);

    m[2] = q[2].mul(q[0]).add(q[1].mul(q[3])).mul(drl2);
    m[6] = q[2].mul(q[0]).sub(q[1].mul(q[3])).mul(drl2);

    m[5] = q[1].mul(q[2]).sub(q[0].mul(q[3])).mul(drl2);
    m[7] = q[1].mul(q[2]).add(q[0].mul(q[3])).mul(drl2);
    proof {
        assert(m@ =~= spec_to_rotation3(q@));
    }
}

/// The sixteen entries of the 4-by-4 rotation matrix a quaternion describes:
/// the 3-by-3 rotation in the top-left block, a zero translation row and
/// column, and one in the bottom-right corner.
pub open spec fn spec_to_rotation4<V: Float>(q: Seq<V>) -> Seq<V> {
    let m3 = spec_to_rotation3(q);
    seq![
        m3[0],
        m3[1],
        m3[2],
        V::zero_spec(),
        m3[3],
        m3[4],
        m3[5],
        V::zero_spec(),
        m3[6],
        m3[7],
        m3[8],
        V::zero_spec(),
        V::zero_spec(),
        V::zero_spec(),
        V::zero_spec(),
        V::one_spec(),
    ]
}

/// Convert a quaternion to a 4-by-4 rotation matrix, writing all sixteen
/// entries of `m`.
pub fn to_rotation4<V: Float>(q: &[V; 4], m: &mut [V; 16])
    ensures
        final(m)@ == spec_to_rotation4(q@),
{
    let i2 = q[0].mul(q[0]);
    let j2 = q[1].mul(q[1]);
    let k2 = q[2].mul(q[2]);
    let r2 = q[3].mul(q[3]);

    let l2 = r2.add(i2).add(j2).add(k2);
    let rl2 = V::one().div(l2);

    m[0] = r2.add(i2).sub(j2).sub(k2).mul(rl2);
    m[5] = r2.sub(i2).add(j2).sub(k2).mul(rl2);
    m[10] = r2.sub(i2).sub(j2).add(k2).mul(rl2);

    let drl2 = V::frac(2, 1).mul(rl2);

    m[1] = q[0].mul(q[1]).sub(q[2].mul(q[3])).mul(drl2);
    m[4] = q[0].mul(q[1]).add(q[2].mul(q[3])).mul(drl2);

    m[2] = q[2].mul(q[0]).add(q[1].mul(q[3])).mul(drl2);
    m[8] = q[2].mul(q[0]).sub(q[1].mul(q[3])).mul(drl2);

    m[6] = q[1].mul(q[2]).sub(q[0].mul(q[3])).mul(drl2);
    m[9] = q[1].mul(q[2]).add(q[0].mul(q[3])).mul(drl2);

    m[3] = V::zero();
    m[7] = V::zero();
    m[11] = V::zero();
    m[12] = V::zero();
    m[13] = V::zero();
    m[14] = V::zero();
    m[15] = V::one();
    proof {
        assert(m@ =~= spec_to_rotation4(q@));
    }
}

/// What `safe_sqrt` returns: the square root, clamped to zero for a negative
/// argument so that a diagonal combination pushed slightly below zero by
/// rounding still has a well-defined magnitude.
pub open spec fn spec_safe_sqrt<V: Float>(x: V) -> V {
    if x.lt_spec(V::zero_spec()) {
        V::zero_spec()
    } else {
        x.sqrt_spec()
    }
}

/// The square root of a value that is only meaningful when nonnegative:
/// negative arguments give zero.
fn safe_sqrt<V: Float>(x: V) -> (r: V)
    ensures
        r == spec_safe_sqrt(x),
{
    if x.lt(V::zero()) {
        V::zero()
    } else {
        x.sqrt()
    }
}

/// What `of_rotation` returns.  Each component magnitude comes from a clamped
/// square root of a diagonal combination (no branch on the largest diagonal
/// term), the real part takes the positive root — the global sign convention
/// of the double cover — and each imaginary component is negated exactly when
/// the off-diagonal difference that carries its sign is below minus epsilon.
pub open spec fn spec_of_rotation<V: Float>(m: Seq<V>) -> Seq<V> {
    let half = V::frac_spec(1, 2);
    let r = spec_safe_sqrt(
        V::one_spec().add_spec(m[0]).add_spec(m[4]).add_spec(m[8]),
    ).mul_spec(half);
    let i = spec_safe_sqrt(
        V::one_spec().add_spec(m[0]).sub_spec(m[4]).sub_spec(m[8]),
    ).mul_spec(half);
    let j = spec_safe_sqrt(
        V::one_spec().sub_spec(m[0]).add_spec(m[4]).sub_spec(m[8]),
    ).mul_spec(half);
    let k = spec_safe_sqrt(
        V::one_spec().sub_spec(m[0]).sub_spec(m[4]).add_spec(m[8]),
    ).mul_spec(half);
    let neg_eps = V::epsilon_spec().neg_spec();
    seq![
        if m[7].sub_spec(m[5]).lt_spec(neg_eps) {
            i.neg_spec()
        } else {
            i
        },
        if m[2].sub_spec(m[6]).lt_spec(neg_eps) {
            j.neg_spec()
        } else {
            j
        },
        if m[3].sub_spec(m[1]).lt_spec(neg_eps) {
            k.neg_spec()
        } else {
            k
        },
        r,
    ]
}

/// Find the quaternion of a 3-by-3 matrix assuming it is purely a rotation.
///
/// All four component magnitudes are computed through clamped square roots,
/// so no branch on the largest diagonal term is needed; the result's real
/// part is nonnegative, which fixes the global sign of the double cover.
pub fn of_rotation<V: Float>(m: &[V; 9]) -> (q: [V; 4])
    ensures
        q@ == spec_of_rotation(m@),
{
    let half = V::frac(1, 2);
    let r = safe_sqrt(V::one().add(m[0]).add(m[4]).add(m[8])).mul(half);
    let mut i = safe_sqrt(V::one().add(m[0]).sub(m[4]).sub(m[8])).mul(half);
    let mut j = safe_sqrt(V::one().sub(m[0]).add(m[4]).sub(m[8])).mul(half);
    let mut k = safe_sqrt(V::one().sub(m[0]).sub(m[4]).add(m[8])).mul(half);

    let r_i_4 = m[7].sub(m[5]);
    let r_j_4 = m[2].sub(m[6]);
    let r_k_4 = m[3].sub(m[1]);
    let neg_eps = V::epsilon().neg();
    if r_i_4.lt(neg_eps) {
        i = i.neg();
    }
    if r_j_4.lt(neg_eps) {
        j = j.neg();
    }
    if r_k_4.lt(neg_eps) {
        k = k.neg();
    }

    let q = [i, j, k, r];
    proof {
        assert(q@ =~= spec_of_rotation(m@));
    }
    q
}

/// Create the quaternion for a rotation that maps unit `dirn` to `(0,0,-1)`
/// and unit `up` (if perpendicular to `dirn`) to `(0,1,0)`: the look-at
/// rotation matrix converted to a quaternion.
pub fn look_at<V: Float>(dirn: &[V; 3], up: &[V; 3]) -> (q: [V; 4])
    ensures
        q@ == spec_of_rotation(matrix::spec_look_at3(dirn@, up@)),
{
    let m = matrix::look_at3(dirn, up);
    of_rotation(&m)
}

/// What applying a quaternion to a 3-vector computes: the direct expanded
/// conjugation formula, not a detour through the rotation matrix.  For a unit
/// quaternion this is the rotation it describes; in general the result is the
/// rotated vector scaled by the squared length of the quaternion.
pub open spec fn spec_apply3<V: Float>(q: Seq<V>, v: Seq<V>) -> Seq<V> {
    let r = q[3];
    let i = q[0];
    let j = q[1];
    let k = q[2];
    let two = V::frac_spec(2, 1);
    seq![
        r.mul_spec(r).add_spec(i.mul_spec(i)).sub_spec(j.mul_spec(j)).sub_spec(
            k.mul_spec(k),
        ).mul_spec(v[0]).add_spec(
            two.mul_spec(i.mul_spec(k).add_spec(r.mul_spec(j))).mul_spec(v[2]),
        ).add_spec(two.mul_spec(i.mul_spec(j).sub_spec(r.mul_spec(k))).mul_spec(v[1])),
        r.mul_spec(r).sub_spec(i.mul_spec(i)).add_spec(j.mul_spec(j)).sub_spec(
            k.mul_spec(k),
        ).mul_spec(v[1]).add_spec(
            two.mul_spec(j.mul_spec(i).add_spec(r.mul_spec(k))).mul_spec(v[0]),
        ).add_spec(two.mul_spec(j.mul_spec(k).sub_spec(r.mul_spec(i))).mul_spec(v[2])),
        r.mul_spec(r).sub_spec(i.mul_spec(i)).sub_spec(j.mul_spec(j)).add_spec(
            k.mul_spec(k),
        ).mul_spec(v[2]).add_spec(
            two.mul_spec(k.mul_spec(j).add_spec(r.mul_spec(i))).mul_spec(v[1]),
        ).add_spec(two.mul_spec(k.mul_spec(i).sub_spec(r.mul_spec(j))).mul_spec(v[0])),
    ]
}

/// Apply the quaternion to a 3-vector.
pub fn apply3<V: Float>(q: &[V; 4], v: &[V; 3]) -> (w: [V; 3])
    ensures
        w@ == spec_apply3(q@, v@),
{
    let (r, i, j, k) = as_rijk(q);
    let two = V::frac(2, 1);
    let x = r.mul(r).add(i.mul(i)).sub(j.mul(j)).sub(k.mul(k)).mul(v[0]).add(
        two.mul(i.mul(k).add(r.mul(j))).mul(v[2]),
    ).add(two.mul(i.mul(j).sub(r.mul(k))).mul(v[1]));
    let y = r.mul(r).sub(i.mul(i)).add(j.mul(j)).sub(k.mul(k)).mul(v[1]).add(
        two.mul(j.mul(i).add(r.mul(k))).mul(v[0]),
    ).add(two.mul(j.mul(k).sub(r.mul(i))).mul(v[2]));
    let z = r.mul(r).sub(i.mul(i)).sub(j.mul(j)).add(k.mul(k)).mul(v[2]).add(
        two.mul(k.mul(j).add(r.mul(i))).mul(v[1]),
    ).add(two.mul(k.mul(i).sub(r.mul(j))).mul(v[0]));
    let w = [x, y, z];
    proof {
        assert(w@ =~= spec_apply3(q@, v@));
    }
    w
}

/// Apply the quaternion to a 4-vector: the first three components rotate as
/// in `apply3` and the fourth passes through unchanged (the homogeneous
/// coordinate, one for points and zero for directions, which a rotation must
/// not touch).
pub fn apply4<V: Float>(q: &[V; 4], v: &[V; 4]) -> (w: [V; 4])
    ensures
        ({
            let rot = spec_apply3(q@, seq![v@[0], v@[1], v@[2]]);
            w@ == seq![rot[0], rot[1], rot[2], v@[3]]
        }),
{
    let v3 = [v[0], v[1], v[2]];
    let rot = apply3(q, &v3);
    let w = [rot[0], rot[1], rot[2], v[3]];
    proof {
        assert(v3@ =~= seq![v@[0], v@[1], v@[2]]);
        assert(w@ =~= seq![
            spec_apply3(q@, v3@)[0],
            spec_apply3(q@, v3@)[1],
            spec_apply3(q@, v3@)[2],
            v@[3],
        ]);
    }
    w
}

/// Convert the quaternion to a bank, heading, attitude tuple — the rotations
/// applied in that order.  Near the poles (where the attitude test leaves
/// `[-1/2, 1/2]` up to a guard just under one half) the bank is folded into
/// the heading and reported as zero.
pub fn to_euler<V: Float>(q: &[V; 4]) -> (e: (V, V, V))
    ensures
        ({
            let i = q[0];
            let j = q[1];
            let k = q[2];
            let r = q[3];
            let test = i.mul_spec(j).add_spec(r.mul_spec(k));
            let two = V::int_spec(2);
            let almost_half = V::int_spec(4999999).div_spec(V::int_spec(10000000));
            let halfpi = V::zero_spec().acos_spec();
            if almost_half.lt_spec(test) {
                e == (V::zero_spec(), two.mul_spec(i.atan2_spec(r)), halfpi)
            } else if test.lt_spec(almost_half.neg_spec()) {
                e == (V::zero_spec(), two.neg_spec().mul_spec(i.atan2_spec(r)), halfpi.neg_spec())
            } else {
                let i2 = i.mul_spec(i);
                let j2 = j.mul_spec(j);
                let k2 = k.mul_spec(k);
                let heading = two.mul_spec(j).mul_spec(r).sub_spec(
                    two.mul_spec(i).mul_spec(k),
                ).atan2_spec(
                    V::one_spec().sub_spec(two.mul_spec(j2)).sub_spec(two.mul_spec(k2)),
                );
                let attitude = two.mul_spec(test).asin_spec();
                let bank = two.mul_spec(i).mul_spec(r).sub_spec(
                    two.mul_spec(j).mul_spec(k),
                ).atan2_spec(
                    V::one_spec().sub_spec(two.mul_spec(i2)).sub_spec(two.mul_spec(k2)),
                );
                e == (bank, heading, attitude)
            }
        }),
{
    let i = q[0];
    let j = q[1];
    let k = q[2];
    let r = q[3];
    let test = i.mul(j).add(r.mul(k));
    let two = V::of_int(2);
    let almost_half = V::of_int(4999999).div(V::of_int(10000000));
    let halfpi = V::zero().acos();
    let (heading, attitude, bank) = if almost_half.lt(test) {
        (two.mul(i.atan2(r)), halfpi, V::zero())
    } else if test.lt(almost_half.neg()) {
        (two.neg().mul(i.atan2(r)), halfpi.neg(), V::zero())
    } else {
        let i2 = i.mul(i);
        let j2 = j.mul(j);
        let k2 = k.mul(k);
        (
            two.mul(j).mul(r).sub(two.mul(i).mul(k)).atan2(
                V::one().sub(two.mul(j2)).sub(two.mul(k2)),
            ),
            two.mul(test).asin(),
            two.mul(i).mul(r).sub(two.mul(j).mul(k)).atan2(
                V::one().sub(two.mul(i2)).sub(two.mul(k2)),
            ),
        )
    };
    (bank, heading, attitude)
}

/// What the weighted average of two unit quaternions is: the closed-form
/// two-quaternion solution.  From the weights and the dot product of the two
/// quaternions a blend factor `z` is derived; each input is scaled by a
/// square-root blend coefficient, and the second coefficient carries the sign
/// of the dot product, because the inputs may sit on opposite hemispheres of
/// the double cover.
pub open spec fn spec_weighted_average<V: Float>(qa: Seq<V>, w_a: V, qb: Seq<V>, w_b: V) -> Seq<
    V,
> {
    let four = V::frac_spec(4, 1);
    let w_diff = w_a.sub_spec(w_b);
    let q1_q2 = qa[3].mul_spec(qb[3]).add_spec(qa[0].mul_spec(qb[0])).add_spec(
        qa[1].mul_spec(qb[1]),
    ).add_spec(qa[2].mul_spec(qb[2]));
    let z_sq = w_diff.mul_spec(w_diff).add_spec(
        four.mul_spec(w_a).mul_spec(w_b).mul_spec(q1_q2).mul_spec(q1_q2),
    );
    let z = z_sq.sqrt_spec();
    let rw_a_sq = w_a.mul_spec(z.add_spec(w_diff)).div_spec(z).div_spec(
        z.add_spec(w_a).add_spec(w_b),
    );
    let rw_b_sq = w_b.mul_spec(z.sub_spec(w_diff)).div_spec(z).div_spec(
        z.add_spec(w_a).add_spec(w_b),
    );
    let rw_a = rw_a_sq.sqrt_spec();
    let rw_b = rw_b_sq.sqrt_spec().mul_spec(q1_q2.signum_spec());
    seq![
        rw_a.mul_spec(qa[0]).add_spec(rw_b.mul_spec(qb[0])),
        rw_a.mul_spec(qa[1]).add_spec(rw_b.mul_spec(qb[1])),
        rw_a.mul_spec(qa[2]).add_spec(rw_b.mul_spec(qb[2])),
        rw_a.mul_spec(qa[3]).add_spec(rw_b.mul_spec(qb[3])),
    ]
}

/// Calculate the weighted average of two unit quaternions; `w_a + w_b` must
/// be one for the result to be meaningful.
pub fn weighted_average<V: Float>(qa: &[V; 4], w_a: V, qb: &[V; 4], w_b: V) -> (q: [V; 4])
    ensures
        q@ == spec_weighted_average(qa@, w_a, qb@, w_b),
{
    let (ra, ia, ja, ka) = as_rijk(qa);
    let (rb, ib, jb, kb) = as_rijk(qb);
    let four = V::frac(4, 1);
    let w_diff = w_a.sub(w_b);
    let q1_q2 = ra.mul(rb).add(ia.mul(ib)).add(ja.mul(jb)).add(ka.mul(kb));
    let z_sq = w_diff.mul(w_diff).add(four.mul(w_a).mul(w_b).mul(q1_q2).mul(q1_q2));
    let z = z_sq.sqrt();
    let rw_a_sq = w_a.mul(z.add(w_diff)).div(z).div(z.add(w_a).add(w_b));
    let rw_b_sq = w_b.mul(z.sub(w_diff)).div(z).div(z.add(w_a).add(w_b));
    let rw_a = rw_a_sq.sqrt();
    let rw_b = rw_b_sq.sqrt().mul(q1_q2.signum());
    let q = of_rijk(
        rw_a.mul(ra).add(rw_b.mul(rb)),
        rw_a.mul(ia).add(rw_b.mul(ib)),
        rw_a.mul(ja).add(rw_b.mul(jb)),
        rw_a.mul(ka).add(rw_b.mul(kb)),
    );
    proof {
        assert(q@ =~= spec_weighted_average(qa@, w_a, qb@, w_b));
    }
    q
}

/// A weighted list of quaternions as the averaging specs see it: each array
/// replaced by its view.
pub open spec fn spec_weighted_views<V: Float>(values: Seq<(V, [V; 4])>) -> Seq<(V, Seq<V>)> {
    values.map_values(|t: (V, [V; 4])| (t.0, t.1@))
}

/// One pairing pass of the many-quaternion average: adjacent entries are
/// combined by the closed-form pair average with their weights renormalized,
/// and an odd leftover entry passes through unchanged.
pub open spec fn spec_average_step<V: Float>(values: Seq<(V, Seq<V>)>) -> Seq<(V, Seq<V>)> {
    Seq::new(
        ((values.len() + 1) / 2) as nat,
        |i: int|
            {
                if 2 * i + 1 == values.len() {
                    values[2 * i]
                } else {
                    let (w1, v1) = values[2 * i];
                    let (w2, v2) = values[2 * i + 1];
                    let w12 = w1.add_spec(w2);
                    (w12, spec_weighted_average(v1, w1.div_spec(w12), v2, w2.div_spec(w12)))
                }
            },
    )
}

/// What averaging many quaternions computes: pairing passes are applied until
/// one value remains.  The pairing makes this an approximation of the true
/// many-quaternion average — it depends on the order of the inputs — which is
/// the documented behaviour.
pub open spec fn spec_average_many<V: Float>(values: Seq<(V, Seq<V>)>) -> Seq<V>
    decreases values.len(),
{
    if values.len() <= 1 {
        values[0].1
    } else {
        spec_average_many(spec_average_step(values))
    }
}

/// Calculate the weighted average of many unit quaternions; the weights need
/// not add up to one.
///
/// Adjacent entries are combined pairwise, recursively, until one remains.
/// This is an approximation of the true many-quaternion weighted average: it
/// is order-dependent, and permutation invariance holds only approximately
/// and only for inputs that are already close.
pub fn weighted_average_many<V: Float>(values: &[(V, [V; 4])]) -> (q: [V; 4])
    requires
        values@.len() > 0,
    ensures
        q@ == spec_average_many(spec_weighted_views(values@)),
    decreases values@.len(),
{
    let num_values = values.len();
    if num_values == 1 {
        values[0].1
    } else {
        let mut next_values: Vec<(V, [V; 4])> = Vec::new();
        let pairs = num_values / 2 + num_values % 2;
        proof {
            assert(pairs == (num_values + 1) / 2);
        }
        for i in 0..pairs
            invariant
                pairs == (num_values + 1) / 2,
                2 <= num_values == values@.len(),
                next_values@.len() == i,
                forall|n: int|
                    0 <= n < i ==> #[trigger] spec_weighted_views(next_values@)[n]
                        == spec_average_step(spec_weighted_views(values@))[n],
        {
            proof {
                assert(2 * i < num_values);
            }
            let entry: (V, [V; 4]) = if 2 * i + 1 == num_values {
                values[2 * i]
            } else {
                let (w1, v1) = values[2 * i];
                let (w2, v2) = values[2 * i + 1];
                let w12 = w1.add(w2);
                let av = weighted_average(&v1, w1.div(w12), &v2, w2.div(w12));
                (w12, av)
            };
            proof {
                let vs = spec_weighted_views(values@);
                assert(vs[2 * i] == (values@[2 * i].0, values@[2 * i].1@));
                if 2 * i + 1 != num_values {
                    assert(vs[2 * i + 1] == (values@[2 * i + 1].0, values@[2 * i + 1].1@));
                }
                assert((entry.0, entry.1@) == spec_average_step(vs)[i as int]);
            }
            let ghost prevv = next_values@;
            next_values.push(entry);
            proof {
                assert forall|n: int|
                    0 <= n < i + 1 implies #[trigger] spec_weighted_views(next_values@)[n]
                    == spec_average_step(spec_weighted_views(values@))[n] by {
                    assert(spec_weighted_views(next_values@)[n] == (
                        next_values@[n].0,
                        next_values@[n].1@,
                    ));
                    if n < i {
                        assert(next_values@[n] == prevv[n]);
                        assert(spec_weighted_views(prevv)[n] == (prevv[n].0, prevv[n].1@));
                    } else {
                        assert(next_values@[n] == entry);
                    }
                }
            }
        }
        proof {
            assert(spec_weighted_views(next_values@) =~= spec_average_step(
                spec_weighted_views(values@),
            ));
        }
        weighted_average_many(next_values.as_slice())
    }
}

/// Get a quaternion that is a rotation of one unit vector to another.
///
/// The axis is the cross product of the two vectors and the angle is the
/// inverse sine of its length; when the dot product is negative the rotation
/// is obtuse, beyond the principal range of the inverse sine, so the angle is
/// corrected to its supplement.
pub fn get_rotation_of_vec_to_vec<V: Float>(a: &[V; 3], b: &[V; 3]) -> (q: [V; 4])
    ensures
        ({
            let cp = matrix::spec_cross3(a@, b@);
            let sa = vector::spec_dot(cp, cp, 3).sqrt_spec();
            let angle = if vector::spec_dot(a@, b@, 3).lt_spec(V::zero_spec()) {
                V::one_spec().neg_spec().acos_spec().sub_spec(sa.asin_spec())
            } else {
                sa.asin_spec()
            };
            q@ == spec_of_axis_angle(cp, angle)
        }),
{
    let obtuse = vector::dot(a, b).lt(V::zero());
    let cp = vector::cross_product3(a, b);
    proof {
        assert(cp@ =~= matrix::spec_cross3(a@, b@));
    }
    let sa = vector::length(&cp);
    let angle = sa.asin();
    let angle = if obtuse {
        let pi = V::one().neg().acos();
        pi.sub(angle)
    } else {
        angle
    };
    of_axis_angle(&cp, angle)
}

} // verus!
