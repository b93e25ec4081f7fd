//! Vector operations on fixed-size arrays of scalars.
//!
//! A vector is a plain array `[F; D]`.  Every function states, component by
//! component, which scalar expression it computes, in terms of the spec
//! counterparts of the [`Num`] and [`Float`] operations.

use crate::matrix;
use crate::traits::Float;
use crate::traits::Num;
use vstd::prelude::*;

verus! {

/// The sum of `v[i] * o[i]` over the first `n` components.
pub open spec fn spec_dot<F: Num>(v: Seq<F>, o: Seq<F>, n: int) -> F
    decreases n,
{
    if n <= 0 {
        F::zero_spec()
    } else {
        spec_dot(v, o, n - 1).add_spec(v[n - 1].mul_spec(o[n - 1]))
    }
}

/// The sum of `(v[i] - o[i])^2` over the first `n` components.
pub open spec fn spec_distance_sq<F: Num>(v: Seq<F>, o: Seq<F>, n: int) -> F
    decreases n,
{
    if n <= 0 {
        F::zero_spec()
    } else {
        let d = v[n - 1].sub_spec(o[n - 1]);
        spec_distance_sq(v, o, n - 1).add_spec(d.mul_spec(d))
    }
}

/// Create a zero vector of the correct size.
pub fn zero<V: Num, const D: usize>() -> (r: [V; D])
    ensures
        forall|i: int| 0 <= i < D ==> r[i] == V::zero_spec(),
{
    [V::zero(); D]
}

/// Set the vector in-place to be zero.
pub fn set_zero<V: Num, const D: usize>(v: &mut [V; D])
    ensures
        forall|i: int| 0 <= i < D ==> final(v)[i] == V::zero_spec(),
{
    *v = [V::zero(); D];
}

/// Return true if the vector is all zeros.
pub fn is_zero<V: Num, const D: usize>(v: &[V; D]) -> (r: bool)
    ensures
        r == forall|i: int| 0 <= i < D ==> v[i] == V::zero_spec(),
{
    for i in 0..D
        invariant
            forall|j: int| 0 <= j < i ==> v[j] == V::zero_spec(),
    {
        if !v[i].is_zero() {
            return false;
        }
    }
    true
}

/// Return the inner product (aka dot product or scalar product) of this and
/// another vector.
pub fn dot<V: Num, const D: usize>(v: &[V; D], other: &[V; D]) -> (r: V)
    ensures
        r == spec_dot(v@, other@, D as int),
{
    let mut r = V::zero();
    for i in 0..D
        invariant
            r == spec_dot(v@, other@, i as int),
    {
        r = r.add(v[i].mul(other[i]));
    }
    r
}

/// Return the outer product (cross product) of two 3-dimensional vectors.
pub fn cross_product3<V: Num>(x: &[V; 3], y: &[V; 3]) -> (r: [V; 3])
    ensures
        r[0] == x[1].mul_spec(y[2]).sub_spec(x[2].mul_spec(y[1])),
        r[1] == x[2].mul_spec(y[0]).sub_spec(x[0].mul_spec(y[2])),
        r[2] == x[0].mul_spec(y[1]).sub_spec(x[1].mul_spec(y[0])),
{
    let c0 = x[1].mul(y[2]).sub(x[2].mul(y[1]));
    let c1 = x[2].mul(y[0]).sub(x[0].mul(y[2]));
    let c2 = x[0].mul(y[1]).sub(x[1].mul(y[0]));
    [c0, c1, c2]
}

/// Find the linear interpolation between two vectors by a parameter `t`:
/// component by component, `a[i] * (1 - t) + b[i] * t`.
pub fn mix<V: Float, const D: usize>(a: &[V; D], b: &[V; D], t: V) -> (r: [V; D])
    ensures
        forall|i: int|
            0 <= i < D ==> r[i] == a[i].mul_spec(V::one_spec().sub_spec(t)).add_spec(
                b[i].mul_spec(t),
            ),
{
    let mut v: [V; D] = zero();
    let omt = V::one().sub(t);
    for i in 0..D
        invariant
            forall|j: int|
                0 <= j < i ==> v[j] == a[j].mul_spec(omt).add_spec(b[j].mul_spec(t)),
            omt == V::one_spec().sub_spec(t),
    {
        v[i] = a[i].mul(omt).add(b[i].mul(t));
    }
    v
}

/// Scale every element of a vector by a single scaling factor.
pub fn scale<V: Num, const D: usize>(v: [V; D], s: V) -> (r: [V; D])
    ensures
        forall|i: int| 0 <= i < D ==> r[i] == v[i].mul_spec(s),
{
    let mut v = v;
    let ghost orig = v;
    for i in 0..D
        invariant
            v@.len() == D,
            forall|j: int| 0 <= j < i ==> v[j] == orig[j].mul_spec(s),
            forall|j: int| i <= j < D ==> v[j] == orig[j],
    {
        v[i] = v[i].mul(s);
    }
    v
}

/// Consume the vector and return a new vector that is the original scaled in
/// each coordinate by a different scale factor.
pub fn comp_mult<V: Num, const D: usize>(v: [V; D], s: &[V; D]) -> (r: [V; D])
    ensures
        forall|i: int| 0 <= i < D ==> r[i] == v[i].mul_spec(s[i]),
{
    let mut v = v;
    let ghost orig = v;
    for i in 0..D
        invariant
            v@.len() == D,
            forall|j: int| 0 <= j < i ==> v[j] == orig[j].mul_spec(s[j]),
            forall|j: int| i <= j < D ==> v[j] == orig[j],
    {
        v[i] = v[i].mul(s[i]);
    }
    v
}

/// Reduce every element of a vector by a single scaling factor.
pub fn reduce<V: Num, const D: usize>(v: [V; D], s: V) -> (r: [V; D])
    ensures
        forall|i: int| 0 <= i < D ==> r[i] == v[i].div_spec(s),
{
    let mut v = v;
    let ghost orig = v;
    for i in 0..D
        invariant
            v@.len() == D,
            forall|j: int| 0 <= j < i ==> v[j] == orig[j].div_spec(s),
            forall|j: int| i <= j < D ==> v[j] == orig[j],
    {
        v[i] = v[i].div(s);
    }
    v
}

/// Add another vector scaled by a value to a vector, returning the sum.
pub fn add<V: Num, const D: usize>(v: [V; D], other: &[V; D], scale: V) -> (r: [V; D])
    ensures
        forall|i: int| 0 <= i < D ==> r[i] == v[i].add_spec(other[i].mul_spec(scale)),
{
    let mut v = v;
    let ghost orig = v;
    for i in 0..D
        invariant
            v@.len() == D,
            forall|j: int| 0 <= j < i ==> v[j] == orig[j].add_spec(other[j].mul_spec(scale)),
            forall|j: int| i <= j < D ==> v[j] == orig[j],
    {
        v[i] = v[i].add(other[i].mul(scale));
    }
    v
}

/// Consume the vector, and return a new vector that is the difference of this
/// and a borrowed other vector scaled.
pub fn sub<V: Num, const D: usize>(v: [V; D], other: &[V; D], scale: V) -> (r: [V; D])
    ensures
        forall|i: int| 0 <= i < D ==> r[i] == v[i].sub_spec(other[i].mul_spec(scale)),
{
    let mut v = v;
    let ghost orig = v;
    for i in 0..D
        invariant
            v@.len() == D,
            forall|j: int| 0 <= j < i ==> v[j] == orig[j].sub_spec(other[j].mul_spec(scale)),
            forall|j: int| i <= j < D ==> v[j] == orig[j],
    {
        v[i] = v[i].sub(other[i].mul(scale));
    }
    v
}

/// Clamp each element to be between `min` and `max`.
pub fn clamp<V: Float, const D: usize>(a: [V; D], min: V, max: V) -> (r: [V; D])
    ensures
        forall|i: int|
            0 <= i < D ==> r[i] == (if a[i].lt_spec(min) {
                min
            } else if max.lt_spec(a[i]) {
                max
            } else {
                a[i]
            }),
{
    let mut a = a;
    let ghost orig = a;
    for i in 0..D
        invariant
            a@.len() == D,
            forall|j: int|
                0 <= j < i ==> a[j] == (if orig[j].lt_spec(min) {
                    min
                } else if max.lt_spec(orig[j]) {
                    max
                } else {
                    orig[j]
                }),
            forall|j: int| i <= j < D ==> a[j] == orig[j],
    {
        a[i] = if a[i].lt(min) {
            min
        } else if max.lt(a[i]) {
            max
        } else {
            a[i]
        };
    }
    a
}

/// Return the length^2 of the vector: the dot product with itself.
pub fn length_sq<V: Num, const D: usize>(v: &[V; D]) -> (r: V)
    ensures
        r == spec_dot(v@, v@, D as int),
{
    let mut r = V::zero();
    for i in 0..D
        invariant
            r == spec_dot(v@, v@, i as int),
    {
        r = r.add(v[i].mul(v[i]));
    }
    r
}

/// Return the length of the vector.
pub fn length<V: Float, const D: usize>(v: &[V; D]) -> (r: V)
    ensures
        r == spec_dot(v@, v@, D as int).sqrt_spec(),
{
    length_sq(v).sqrt()
}

/// Return the distance square between two vectors.
pub fn distance_sq<V: Num, const D: usize>(v: &[V; D], other: &[V; D]) -> (r: V)
    ensures
        r == spec_distance_sq(v@, other@, D as int),
{
    let mut r = V::zero();
    for i in 0..D
        invariant
            r == spec_distance_sq(v@, other@, i as int),
    {
        let d = v[i].sub(other[i]);
        r = r.add(d.mul(d));
    }
    r
}

/// Return the distance between two vectors.
pub fn distance<V: Float, const D: usize>(v: &[V; D], other: &[V; D]) -> (r: V)
    ensures
        r == spec_distance_sq(v@, other@, D as int).sqrt_spec(),
{
    distance_sq(v, other).sqrt()
}

/// Normalize (make unit length) a vector if possible.
///
/// If its length is below the scalar's epsilon, return the zero vector.
pub fn normalize<V: Float, const D: usize>(v: [V; D]) -> (r: [V; D])
    ensures
        ({
            let l = spec_dot(v@, v@, D as int).sqrt_spec();
            if l.lt_spec(V::epsilon_spec()) {
                forall|i: int| 0 <= i < D ==> r[i] == V::zero_spec()
            } else {
                forall|i: int| 0 <= i < D ==> r[i] == v[i].div_spec(l)
            }
        }),
{
    let l = length(&v);
    if l.lt(V::epsilon()) {
        let mut v = v;
        set_zero(&mut v);
        v
    } else {
        reduce(v, l)
    }
}

/// The unit vector along coordinate axis `j`.
pub open spec fn spec_axis_seed<V: Num>(j: int) -> Seq<V> {
    Seq::new(3, |i: int| if i == j {
        V::one_spec()
    } else {
        V::zero_spec()
    })
}

/// `n` power-iteration steps for the axis-of-rotation search: each step
/// transforms the vector by the (inverted, diagonally shifted) rotation
/// matrix and normalizes the result.
pub open spec fn spec_axis_iterate<V: Float>(mi: Seq<V>, v: Seq<V>, n: int) -> Seq<V>
    decreases n,
{
    if n <= 0 {
        v
    } else {
        let prev = spec_axis_iterate(mi, v, n - 1);
        matrix::spec_normalize3(
            seq![
                matrix::spec_mat_dot(mi, prev, 0, 0, 3, 3, 1),
                matrix::spec_mat_dot(mi, prev, 1, 0, 3, 3, 1),
                matrix::spec_mat_dot(mi, prev, 2, 0, 3, 3, 1),
            ],
        )
    }
}

/// Whether the power iteration seeded from axis `j` has settled: after ten
/// steps the iterate moved less than the convergence threshold from the
/// ninth.
pub open spec fn spec_axis_converged<V: Float>(mi: Seq<V>, j: int) -> bool {
    let almost_zero = V::one_spec().div_spec(V::int_spec(100000));
    spec_distance_sq(
        spec_axis_iterate(mi, spec_axis_seed::<V>(j), 10),
        spec_axis_iterate(mi, spec_axis_seed::<V>(j), 9),
        3,
    ).lt_spec(almost_zero)
}

/// Find the axis of rotation of a 3-by-3 rotation matrix.
///
/// The axis is the eigenvector of the matrix with eigenvalue one.  Shifting
/// the diagonal down by almost one and inverting makes that eigenvector
/// dominant, so repeatedly applying the inverted matrix to a seed vector and
/// normalizing converges to the axis — unless the seed is (nearly)
/// perpendicular to it, in which case the next coordinate axis seeds a new
/// attempt.  Ten iterations are run per seed; if none of the three seeds
/// settles, the zero vector is returned.  The angle of rotation must not be
/// tiny, or nothing converges.
pub fn axis_of_rotation3<V: Float>(rotation: &[V; 9]) -> (r: [V; 3])
    ensures
        ({
            let d = rotation@[8].sub_spec(
                V::int_spec(99999).div_spec(V::int_spec(100000)),
            );
            let mi = matrix::spec_inverse3(rotation@.update(0, d).update(4, d).update(8, d));
            if spec_axis_converged::<V>(mi, 0) {
                r@ == spec_axis_iterate(mi, spec_axis_seed::<V>(0), 10)
            } else if spec_axis_converged::<V>(mi, 1) {
                r@ == spec_axis_iterate(mi, spec_axis_seed::<V>(1), 10)
            } else if spec_axis_converged::<V>(mi, 2) {
                r@ == spec_axis_iterate(mi, spec_axis_seed::<V>(2), 10)
            } else {
                r@ == seq![V::zero_spec(), V::zero_spec(), V::zero_spec()]
            }
        }),
{
    let mut rot_min_id = *rotation;
    let almost_one = V::of_int(99999).div(V::of_int(100000));
    let almost_zero = V::one().div(V::of_int(100000));
    rot_min_id[0] = rot_min_id[8].sub(almost_one);
    rot_min_id[4] = rot_min_id[8].sub(almost_one);
    rot_min_id[8] = rot_min_id[8].sub(almost_one);
    let ghost d = rotation@[8].sub_spec(V::int_spec(99999).div_spec(V::int_spec(100000)));
    proof {
        assert(rot_min_id@ =~= rotation@.update(0, d).update(4, d).update(8, d));
    }
    let rot_min_id_i = matrix::inverse3(&rot_min_id);
    let ghost mi = matrix::spec_inverse3(rotation@.update(0, d).update(4, d).update(8, d));
    for j in 0..3
        invariant
            rot_min_id_i@ == mi,
            d == rotation@[8].sub_spec(V::int_spec(99999).div_spec(V::int_spec(100000))),
            mi == matrix::spec_inverse3(rotation@.update(0, d).update(4, d).update(8, d)),
            almost_zero == V::one_spec().div_spec(V::int_spec(100000)),
            forall|jj: int| 0 <= jj < j ==> !spec_axis_converged::<V>(mi, jj),
    {
        let mut v: [V; 3] = zero();
        v[j] = V::one();
        proof {
            assert(v@ =~= spec_axis_seed::<V>(j as int));
        }
        let ghost seed = v@;
        let mut last_v: [V; 3] = zero();
        for it in 0..10
            invariant
                rot_min_id_i@ == mi,
                v@ == spec_axis_iterate(mi, seed, it as int),
                it >= 1 ==> last_v@ == spec_axis_iterate(mi, seed, it as int - 1),
        {
            last_v = v;
            let w = matrix::transform_vec3(&rot_min_id_i, &v);
            proof {
                assert(w@ =~= seq![
                    matrix::spec_mat_dot(mi, v@, 0, 0, 3, 3, 1),
                    matrix::spec_mat_dot(mi, v@, 1, 0, 3, 3, 1),
                    matrix::spec_mat_dot(mi, v@, 2, 0, 3, 3, 1),
                ]);
            }
            v = normalize(w);
            proof {
                assert(v@ =~= matrix::spec_normalize3(w@));
            }
        }
        if distance_sq(&v, &last_v).lt(almost_zero) {
            return v;
        }
    }
    let r: [V; 3] = zero();
    proof {
        assert(r@ =~= seq![V::zero_spec(), V::zero_spec(), V::zero_spec()]);
    }
    r
}

/// Rotate a vector within a plane around a *pivot* point by the specified
/// angle.
///
/// The plane of rotation is specified by providing two vector indices for the
/// elements to adjust.  For a 2D rotation the values of `c0` and `c1` should
/// be 0 and 1.  For a 3D rotation about the Z axis they should be 0 and 1;
/// about the Y axis, 2 and 0; and about the X axis, 1 and 2.
pub fn rotate_around<V: Float, const D: usize>(
    v: [V; D],
    pivot: &[V; D],
    angle: V,
    c0: usize,
    c1: usize,
) -> (r: [V; D])
    requires
        c0 < D,
        c1 < D,
    ensures
        ({
            let s = angle.sin_spec();
            let c = angle.cos_spec();
            let dx = v[c0 as int].sub_spec(pivot[c0 as int]);
            let dy = v[c1 as int].sub_spec(pivot[c1 as int]);
            let x1 = c.mul_spec(dx).sub_spec(s.mul_spec(dy));
            let y1 = c.mul_spec(dy).add_spec(s.mul_spec(dx));
            r@ == v@.update(c0 as int, x1.add_spec(pivot[c0 as int])).update(
                c1 as int,
                y1.add_spec(pivot[c1 as int]),
            )
        }),
{
    let mut v = v;
    let (s, c) = angle.sin_cos();
    let dx = v[c0].sub(pivot[c0]);
    let dy = v[c1].sub(pivot[c1]);
    let x1 = c.mul(dx).sub(s.mul(dy));
    let y1 = c.mul(dy).add(s.mul(dx));
    v[c0] = x1.add(pivot[c0]);
    v[c1] = y1.add(pivot[c1]);
    v
}

} // verus!
