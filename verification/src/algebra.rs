//! The laws of the quaternion rotation algebra, proved over exact integers.
//!
//! The executable quaternion functions are generic over a scalar, so their
//! contracts pin down *which* formula each one computes — the Hamilton
//! product, the expanded application formula — in terms of the scalar's own
//! operations.  This module states and proves what those formulas satisfy
//! when the arithmetic is exact: the Hamilton product is associative and
//! multiplies squared lengths, applying a product composes the two rotations,
//! a unit quaternion preserves length, the conjugate undoes a rotation, and
//! composing a principal-axis rotation with itself follows the double-angle
//! formulas.  A floating or fixed-point scalar evaluates the same formulas
//! with rounding, so it obeys these laws up to rounding error.
//!
//! The polynomial identities are proved by expanding every product into
//! monomials through explicit instances of the arithmetic lemmas in
//! `vstd::arithmetic::mul` and letting linear reasoning match the two sides.
//!
//! A model quaternion is an `(i, j, k, r)` tuple of unbounded integers, in
//! the same component order the executable code stores; a model vector is an
//! `(x, y, z)` tuple.

use vstd::prelude::*;

verus! {

/// The Hamilton product, over exact integers: the same formula
/// `quat::spec_hamilton` states for the generic scalar.
pub open spec fn qmul(a: (int, int, int, int), b: (int, int, int, int)) -> (int, int, int, int) {
    (
        a.0 * b.3 + a.3 * b.0 + a.1 * b.2 - a.2 * b.1,
        a.1 * b.3 + a.3 * b.1 + a.2 * b.0 - a.0 * b.2,
        a.2 * b.3 + a.3 * b.2 + a.0 * b.1 - a.1 * b.0,
        a.3 * b.3 - a.0 * b.0 - a.1 * b.1 - a.2 * b.2,
    )
}

/// The conjugate: imaginary components negated.
pub open spec fn qconj(a: (int, int, int, int)) -> (int, int, int, int) {
    (-a.0, -a.1, -a.2, a.3)
}

/// The squared length of a quaternion.
pub open spec fn qnorm_sq(a: (int, int, int, int)) -> int {
    a.0 * a.0 + a.1 * a.1 + a.2 * a.2 + a.3 * a.3
}

/// A vector embedded as a pure quaternion (real part zero).
pub open spec fn pure(v: (int, int, int)) -> (int, int, int, int) {
    (v.0, v.1, v.2, 0)
}

/// The squared length of a vector.
pub open spec fn vlen_sq(v: (int, int, int)) -> int {
    v.0 * v.0 + v.1 * v.1 + v.2 * v.2
}

/// A vector scaled componentwise.
pub open spec fn vscale(s: int, v: (int, int, int)) -> (int, int, int) {
    (s * v.0, s * v.1, s * v.2)
}

/// A quaternion applied to a vector by the expanded conjugation formula: the
/// same formula `quat::spec_apply3` states for the generic scalar.  For a
/// unit quaternion this is the rotation it describes.
pub open spec fn vapply(q: (int, int, int, int), v: (int, int, int)) -> (int, int, int) {
    let i = q.0;
    let j = q.1;
    let k = q.2;
    let r = q.3;
    (
        (r * r + i * i - j * j - k * k) * v.0 + 2 * (i * k + r * j) * v.2 + 2 * (i * j - r * k)
            * v.1,
        (r * r - i * i + j * j - k * k) * v.1 + 2 * (j * i + r * k) * v.0 + 2 * (j * k - r * i)
            * v.2,
        (r * r - i * i - j * j + k * k) * v.2 + 2 * (k * j + r * i) * v.1 + 2 * (k * i - r * j)
            * v.0,
    )
}

/// Rebracket a product of three factors, swapping the last two.
proof fn lemma_mul_rotate(x: int, y: int, z: int)
    ensures
        (x * y) * z == (x * z) * y,
{
    vstd::arithmetic::mul::lemma_mul_is_associative(x, y, z);
    vstd::arithmetic::mul::lemma_mul_is_commutative(y, z);
    vstd::arithmetic::mul::lemma_mul_is_associative(x, z, y);
}

/// Regroup a product of two products, exchanging the inner factors.
proof fn lemma_mul_pair_shuffle(x: int, y: int, z: int, w: int)
    ensures
        (x * y) * (z * w) == (x * z) * (y * w),
{
    vstd::arithmetic::mul::lemma_mul_is_associative(x * y, z, w);
    vstd::arithmetic::mul::lemma_mul_is_associative(x, y, z);
    vstd::arithmetic::mul::lemma_mul_is_commutative(y, z);
    vstd::arithmetic::mul::lemma_mul_is_associative(x, z, y);
    vstd::arithmetic::mul::lemma_mul_is_associative(x * z, y, w);
}

/// The Hamilton product is associative.
#[verifier::rlimit(100)]
pub proof fn lemma_hamilton_assoc(
    a: (int, int, int, int),
    b: (int, int, int, int),
    c: (int, int, int, int),
)
    ensures
        qmul(qmul(a, b), c) == qmul(a, qmul(b, c)),
{
    vstd::arithmetic::mul::lemma_mul_is_distributive_add_other_way(c.3, a.0 * b.3, a.3 * b.0);
    vstd::arithmetic::mul::lemma_mul_is_distributive_add_other_way(c.3, a.0 * b.3 + a.3 * b.0, a.1 * b.2);
    vstd::arithmetic::mul::lemma_mul_is_distributive_sub_other_way(c.3, a.0 * b.3 + a.3 * b.0 + a.1 * b.2, a.2 * b.1);
    vstd::arithmetic::mul::lemma_mul_is_associative(a.0, b.3, c.3);
    vstd::arithmetic::mul::lemma_mul_is_associative(a.3, b.0, c.3);
    vstd::arithmetic::mul::lemma_mul_is_associative(a.1, b.2, c.3);
    vstd::arithmetic::mul::lemma_mul_is_associative(a.2, b.1, c.3);
    vstd::arithmetic::mul::lemma_mul_is_distributive_sub_other_way(c.0, a.3 * b.3, a.0 * b.0);
    vstd::arithmetic::mul::lemma_mul_is_distributive_sub_other_way(c.0, a.3 * b.3 - a.0 * b.0, a.1 * b.1);
    vstd::arithmetic::mul::lemma_mul_is_distributive_sub_other_way(c.0, a.3 * b.3 - a.0 * b.0 - a.1 * b.1, a.2 * b.2);
    vstd::arithmetic::mul::lemma_mul_is_associative(a.3, b.3, c.0);
    vstd::arithmetic::mul::lemma_mul_is_associative(a.0, b.0, c.0);
    vstd::arithmetic::mul::lemma_mul_is_associative(a.1, b.1, c.0);
    vstd::arithmetic::mul::lemma_mul_is_associative(a.2, b.2, c.0);
    vstd::arithmetic::mul::lemma_mul_is_distributive_add_other_way(c.2, a.1 * b.3, a.3 * b.1);
    vstd::arithmetic::mul::lemma_mul_is_distributive_add_other_way(c.2, a.1 * b.3 + a.3 * b.1, a.2 * b.0);
    vstd::arithmetic::mul::lemma_mul_is_distributive_sub_other_way(c.2, a.1 * b.3 + a.3 * b.1 + a.2 * b.0, a.0 * b.2);
    vstd::arithmetic::mul::lemma_mul_is_associative(a.1, b.3, c.2);
    vstd::arithmetic::mul::lemma_mul_is_associative(a.3, b.1, c.2);
    vstd::arithmetic::mul::lemma_mul_is_associative(a.2, b.0, c.2);
    vstd::arithmetic::mul::lemma_mul_is_associative(a.0, b.2, c.2);
    vstd::arithmetic::mul::lemma_mul_is_distributive_add_other_way(c.1, a.2 * b.3, a.3 * b.2);
    vstd::arithmetic::mul::lemma_mul_is_distributive_add_other_way(c.1, a.2 * b.3 + a.3 * b.2, a.0 * b.1);
    vstd::arithmetic::mul::lemma_mul_is_distributive_sub_other_way(c.1, a.2 * b.3 + a.3 * b.2 + a.0 * b.1, a.1 * b.0);
    vstd::arithmetic::mul::lemma_mul_is_associative(a.2, b.3, c.1);
    vstd::arithmetic::mul::lemma_mul_is_associative(a.3, b.2, c.1);
    vstd::arithmetic::mul::lemma_mul_is_associative(a.0, b.1, c.1);
    vstd::arithmetic::mul::lemma_mul_is_associative(a.1, b.0, c.1);
    vstd::arithmetic::mul::lemma_mul_is_distributive_sub(a.0, b.3 * c.3, b.0 * c.0);
    vstd::arithmetic::mul::lemma_mul_is_distributive_sub(a.0, b.3 * c.3 - b.0 * c.0, b.1 * c.1);
    vstd::arithmetic::mul::lemma_mul_is_distributive_sub(a.0, b.3 * c.3 - b.0 * c.0 - b.1 * c.1, b.2 * c.2);
    vstd::arithmetic::mul::lemma_mul_is_distributive_add(a.3, b.0 * c.3, b.3 * c.0);
    vstd::arithmetic::mul::lemma_mul_is_distributive_add(a.3, b.0 * c.3 + b.3 * c.0, b.1 * c.2);
    vstd::arithmetic::mul::lemma_mul_is_distributive_sub(a.3, b.0 * c.3 + b.3 * c.0 + b.1 * c.2, b.2 * c.1);
    vstd::arithmetic::mul::lemma_mul_is_distributive_add(a.1, b.2 * c.3, b.3 * c.2);
    vstd::arithmetic::mul::lemma_mul_is_distributive_add(a.1, b.2 * c.3 + b.3 * c.2, b.0 * c.1);
    vstd::arithmetic::mul::lemma_mul_is_distributive_sub(a.1, b.2 * c.3 + b.3 * c.2 + b.0 * c.1, b.1 * c.0);
    vstd::arithmetic::mul::lemma_mul_is_distributive_add(a.2, b.1 * c.3, b.3 * c.1);
    vstd::arithmetic::mul::lemma_mul_is_distributive_add(a.2, b.1 * c.3 + b.3 * c.1, b.2 * c.0);
    vstd::arithmetic::mul::lemma_mul_is_distributive_sub(a.2, b.1 * c.3 + b.3 * c.1 + b.2 * c.0, b.0 * c.2);
    vstd::arithmetic::mul::lemma_mul_is_distributive_add_other_way(c.3, a.1 * b.3, a.3 * b.1);
    vstd::arithmetic::mul::lemma_mul_is_distributive_add_other_way(c.3, a.1 * b.3 + a.3 * b.1, a.2 * b.0);
    vstd::arithmetic::mul::lemma_mul_is_distributive_sub_other_way(c.3, a.1 * b.3 + a.3 * b.1 + a.2 * b.0, a.0 * b.2);
    vstd::arithmetic::mul::lemma_mul_is_associative(a.1, b.3, c.3);
    vstd::arithmetic::mul::lemma_mul_is_associative(a.3, b.1, c.3);
    vstd::arithmetic::mul::lemma_mul_is_associative(a.2, b.0, c.3);
    vstd::arithmetic::mul::lemma_mul_is_associative(a.0, b.2, c.3);
    vstd::arithmetic::mul::lemma_mul_is_distributive_sub_other_way(c.1, a.3 * b.3, a.0 * b.0);
    vstd::arithmetic::mul::lemma_mul_is_distributive_sub_other_way(c.1, a.3 * b.3 - a.0 * b.0, a.1 * b.1);
    vstd::arithmetic::mul::lemma_mul_is_distributive_sub_other_way(c.1, a.3 * b.3 - a.0 * b.0 - a.1 * b.1, a.2 * b.2);
    vstd::arithmetic::mul::lemma_mul_is_associative(a.3, b.3, c.1);
    vstd::arithmetic::mul::lemma_mul_is_associative(a.0, b.0, c.1);
    vstd::arithmetic::mul::lemma_mul_is_associative(a.1, b.1, c.1);
    vstd::arithmetic::mul::lemma_mul_is_associative(a.2, b.2, c.1);
    vstd::arithmetic::mul::lemma_mul_is_distributive_add_other_way(c.0, a.2 * b.3, a.3 * b.2);
    vstd::arithmetic::mul::lemma_mul_is_distributive_add_other_way(c.0, a.2 * b.3 + a.3 * b.2, a.0 * b.1);
    vstd::arithmetic::mul::lemma_mul_is_distributive_sub_other_way(c.0, a.2 * b.3 + a.3 * b.2 + a.0 * b.1, a.1 * b.0);
    vstd::arithmetic::mul::lemma_mul_is_associative(a.2, b.3, c.0);
    vstd::arithmetic::mul::lemma_mul_is_associative(a.3, b.2, c.0);
    vstd::arithmetic::mul::lemma_mul_is_associative(a.0, b.1, c.0);
    vstd::arithmetic::mul::lemma_mul_is_associative(a.1, b.0, c.0);
    vstd::arithmetic::mul::lemma_mul_is_distributive_add_other_way(c.2, a.0 * b.3, a.3 * b.0);
    vstd::arithmetic::mul::lemma_mul_is_distributive_add_other_way(c.2, a.0 * b.3 + a.3 * b.0, a.1 * b.2);
    vstd::arithmetic::mul::lemma_mul_is_distributive_sub_other_way(c.2, a.0 * b.3 + a.3 * b.0 + a.1 * b.2, a.2 * b.1);
    vstd::arithmetic::mul::lemma_mul_is_associative(a.0, b.3, c.2);
    vstd::arithmetic::mul::lemma_mul_is_associative(a.3, b.0, c.2);
    vstd::arithmetic::mul::lemma_mul_is_associative(a.1, b.2, c.2);
    vstd::arithmetic::mul::lemma_mul_is_associative(a.2, b.1, c.2);
    vstd::arithmetic::mul::lemma_mul_is_distributive_sub(a.1, b.3 * c.3, b.0 * c.0);
    vstd::arithmetic::mul::lemma_mul_is_distributive_sub(a.1, b.3 * c.3 - b.0 * c.0, b.1 * c.1);
    vstd::arithmetic::mul::lemma_mul_is_distributive_sub(a.1, b.3 * c.3 - b.0 * c.0 - b.1 * c.1, b.2 * c.2);
    vstd::arithmetic::mul::lemma_mul_is_distributive_add(a.3, b.1 * c.3, b.3 * c.1);
    vstd::arithmetic::mul::lemma_mul_is_distributive_add(a.3, b.1 * c.3 + b.3 * c.1, b.2 * c.0);
    vstd::arithmetic::mul::lemma_mul_is_distributive_sub(a.3, b.1 * c.3 + b.3 * c.1 + b.2 * c.0, b.0 * c.2);
    vstd::arithmetic::mul::lemma_mul_is_distributive_add(a.2, b.0 * c.3, b.3 * c.0);
    vstd::arithmetic::mul::lemma_mul_is_distributive_add(a.2, b.0 * c.3 + b.3 * c.0, b.1 * c.2);
    vstd::arithmetic::mul::lemma_mul_is_distributive_sub(a.2, b.0 * c.3 + b.3 * c.0 + b.1 * c.2, b.2 * c.1);
    vstd::arithmetic::mul::lemma_mul_is_distributive_add(a.0, b.2 * c.3, b.3 * c.2);
    vstd::arithmetic::mul::lemma_mul_is_distributive_add(a.0, b.2 * c.3 + b.3 * c.2, b.0 * c.1);
    vstd::arithmetic::mul::lemma_mul_is_distributive_sub(a.0, b.2 * c.3 + b.3 * c.2 + b.0 * c.1, b.1 * c.0);
    vstd::arithmetic::mul::lemma_mul_is_distributive_add_other_way(c.3, a.2 * b.3, a.3 * b.2);
    vstd::arithmetic::mul::lemma_mul_is_distributive_add_other_way(c.3, a.2 * b.3 + a.3 * b.2, a.0 * b.1);
    vstd::arithmetic::mul::lemma_mul_is_distributive_sub_other_way(c.3, a.2 * b.3 + a.3 * b.2 + a.0 * b.1, a.1 * b.0);
    vstd::arithmetic::mul::lemma_mul_is_associative(a.2, b.3, c.3);
    vstd::arithmetic::mul::lemma_mul_is_associative(a.3, b.2, c.3);
    vstd::arithmetic::mul::lemma_mul_is_associative(a.0, b.1, c.3);
    vstd::arithmetic::mul::lemma_mul_is_associative(a.1, b.0, c.3);
    vstd::arithmetic::mul::lemma_mul_is_distributive_sub_other_way(c.2, a.3 * b.3, a.0 * b.0);
    vstd::arithmetic::mul::lemma_mul_is_distributive_sub_other_way(c.2, a.3 * b.3 - a.0 * b.0, a.1 * b.1);
    vstd::arithmetic::mul::lemma_mul_is_distributive_sub_other_way(c.2, a.3 * b.3 - a.0 * b.0 - a.1 * b.1, a.2 * b.2);
    vstd::arithmetic::mul::lemma_mul_is_associative(a.3, b.3, c.2);
    vstd::arithmetic::mul::lemma_mul_is_associative(a.0, b.0, c.2);
    vstd::arithmetic::mul::lemma_mul_is_associative(a.1, b.1, c.2);
    vstd::arithmetic::mul::lemma_mul_is_associative(a.2, b.2, c.2);
    vstd::arithmetic::mul::lemma_mul_is_distributive_add_other_way(c.1, a.0 * b.3, a.3 * b.0);
    vstd::arithmetic::mul::lemma_mul_is_distributive_add_other_way(c.1, a.0 * b.3 + a.3 * b.0, a.1 * b.2);
    vstd::arithmetic::mul::lemma_mul_is_distributive_sub_other_way(c.1, a.0 * b.3 + a.3 * b.0 + a.1 * b.2, a.2 * b.1);
    vstd::arithmetic::mul::lemma_mul_is_associative(a.0, b.3, c.1);
    vstd::arithmetic::mul::lemma_mul_is_associative(a.3, b.0, c.1);
    vstd::arithmetic::mul::lemma_mul_is_associative(a.1, b.2, c.1);
    vstd::arithmetic::mul::lemma_mul_is_associative(a.2, b.1, c.1);
    vstd::arithmetic::mul::lemma_mul_is_distributive_add_other_way(c.0, a.1 * b.3, a.3 * b.1);
    vstd::arithmetic::mul::lemma_mul_is_distributive_add_other_way(c.0, a.1 * b.3 + a.3 * b.1, a.2 * b.0);
    vstd::arithmetic::mul::lemma_mul_is_distributive_sub_other_way(c.0, a.1 * b.3 + a.3 * b.1 + a.2 * b.0, a.0 * b.2);
    vstd::arithmetic::mul::lemma_mul_is_associative(a.1, b.3, c.0);
    vstd::arithmetic::mul::lemma_mul_is_associative(a.3, b.1, c.0);
    vstd::arithmetic::mul::lemma_mul_is_associative(a.2, b.0, c.0);
    vstd::arithmetic::mul::lemma_mul_is_associative(a.0, b.2, c.0);
    vstd::arithmetic::mul::lemma_mul_is_distributive_sub(a.2, b.3 * c.3, b.0 * c.0);
    vstd::arithmetic::mul::lemma_mul_is_distributive_sub(a.2, b.3 * c.3 - b.0 * c.0, b.1 * c.1);
    vstd::arithmetic::mul::lemma_mul_is_distributive_sub(a.2, b.3 * c.3 - b.0 * c.0 - b.1 * c.1, b.2 * c.2);
    vstd::arithmetic::mul::lemma_mul_is_distributive_add(a.3, b.2 * c.3, b.3 * c.2);
    vstd::arithmetic::mul::lemma_mul_is_distributive_add(a.3, b.2 * c.3 + b.3 * c.2, b.0 * c.1);
    vstd::arithmetic::mul::lemma_mul_is_distributive_sub(a.3, b.2 * c.3 + b.3 * c.2 + b.0 * c.1, b.1 * c.0);
    vstd::arithmetic::mul::lemma_mul_is_distributive_add(a.0, b.1 * c.3, b.3 * c.1);
    vstd::arithmetic::mul::lemma_mul_is_distributive_add(a.0, b.1 * c.3 + b.3 * c.1, b.2 * c.0);
    vstd::arithmetic::mul::lemma_mul_is_distributive_sub(a.0, b.1 * c.3 + b.3 * c.1 + b.2 * c.0, b.0 * c.2);
    vstd::arithmetic::mul::lemma_mul_is_distributive_add(a.1, b.0 * c.3, b.3 * c.0);
    vstd::arithmetic::mul::lemma_mul_is_distributive_add(a.1, b.0 * c.3 + b.3 * c.0, b.1 * c.2);
    vstd::arithmetic::mul::lemma_mul_is_distributive_sub(a.1, b.0 * c.3 + b.3 * c.0 + b.1 * c.2, b.2 * c.1);
    vstd::arithmetic::mul::lemma_mul_is_distributive_sub_other_way(c.3, a.3 * b.3, a.0 * b.0);
    vstd::arithmetic::mul::lemma_mul_is_distributive_sub_other_way(c.3, a.3 * b.3 - a.0 * b.0, a.1 * b.1);
    vstd::arithmetic::mul::lemma_mul_is_distributive_sub_other_way(c.3, a.3 * b.3 - a.0 * b.0 - a.1 * b.1, a.2 * b.2);
    vstd::arithmetic::mul::lemma_mul_is_associative(a.3, b.3, c.3);
    vstd::arithmetic::mul::lemma_mul_is_associative(a.0, b.0, c.3);
    vstd::arithmetic::mul::lemma_mul_is_associative(a.1, b.1, c.3);
    vstd::arithmetic::mul::lemma_mul_is_associative(a.2, b.2, c.3);
    vstd::arithmetic::mul::lemma_mul_is_distributive_add_other_way(c.0, a.0 * b.3, a.3 * b.0);
    vstd::arithmetic::mul::lemma_mul_is_distributive_add_other_way(c.0, a.0 * b.3 + a.3 * b.0, a.1 * b.2);
    vstd::arithmetic::mul::lemma_mul_is_distributive_sub_other_way(c.0, a.0 * b.3 + a.3 * b.0 + a.1 * b.2, a.2 * b.1);
    vstd::arithmetic::mul::lemma_mul_is_associative(a.0, b.3, c.0);
    vstd::arithmetic::mul::lemma_mul_is_associative(a.3, b.0, c.0);
    vstd::arithmetic::mul::lemma_mul_is_associative(a.1, b.2, c.0);
    vstd::arithmetic::mul::lemma_mul_is_associative(a.2, b.1, c.0);
    vstd::arithmetic::mul::lemma_mul_is_distributive_add_other_way(c.1, a.1 * b.3, a.3 * b.1);
    vstd::arithmetic::mul::lemma_mul_is_distributive_add_other_way(c.1, a.1 * b.3 + a.3 * b.1, a.2 * b.0);
    vstd::arithmetic::mul::lemma_mul_is_distributive_sub_other_way(c.1, a.1 * b.3 + a.3 * b.1 + a.2 * b.0, a.0 * b.2);
    vstd::arithmetic::mul::lemma_mul_is_associative(a.1, b.3, c.1);
    vstd::arithmetic::mul::lemma_mul_is_associative(a.3, b.1, c.1);
    vstd::arithmetic::mul::lemma_mul_is_associative(a.2, b.0, c.1);
    vstd::arithmetic::mul::lemma_mul_is_associative(a.0, b.2, c.1);
    vstd::arithmetic::mul::lemma_mul_is_distributive_add_other_way(c.2, a.2 * b.3, a.3 * b.2);
    vstd::arithmetic::mul::lemma_mul_is_distributive_add_other_way(c.2, a.2 * b.3 + a.3 * b.2, a.0 * b.1);
    vstd::arithmetic::mul::lemma_mul_is_distributive_sub_other_way(c.2, a.2 * b.3 + a.3 * b.2 + a.0 * b.1, a.1 * b.0);
    vstd::arithmetic::mul::lemma_mul_is_associative(a.2, b.3, c.2);
    vstd::arithmetic::mul::lemma_mul_is_associative(a.3, b.2, c.2);
    vstd::arithmetic::mul::lemma_mul_is_associative(a.0, b.1, c.2);
    vstd::arithmetic::mul::lemma_mul_is_associative(a.1, b.0, c.2);
    vstd::arithmetic::mul::lemma_mul_is_distributive_sub(a.3, b.3 * c.3, b.0 * c.0);
    vstd::arithmetic::mul::lemma_mul_is_distributive_sub(a.3, b.3 * c.3 - b.0 * c.0, b.1 * c.1);
    vstd::arithmetic::mul::lemma_mul_is_distributive_sub(a.3, b.3 * c.3 - b.0 * c.0 - b.1 * c.1, b.2 * c.2);
    vstd::arithmetic::mul::lemma_mul_is_distributive_add(a.0, b.0 * c.3, b.3 * c.0);
    vstd::arithmetic::mul::lemma_mul_is_distributive_add(a.0, b.0 * c.3 + b.3 * c.0, b.1 * c.2);
    vstd::arithmetic::mul::lemma_mul_is_distributive_sub(a.0, b.0 * c.3 + b.3 * c.0 + b.1 * c.2, b.2 * c.1);
    vstd::arithmetic::mul::lemma_mul_is_distributive_add(a.1, b.1 * c.3, b.3 * c.1);
    vstd::arithmetic::mul::lemma_mul_is_distributive_add(a.1, b.1 * c.3 + b.3 * c.1, b.2 * c.0);
    vstd::arithmetic::mul::lemma_mul_is_distributive_sub(a.1, b.1 * c.3 + b.3 * c.1 + b.2 * c.0, b.0 * c.2);
    vstd::arithmetic::mul::lemma_mul_is_distributive_add(a.2, b.2 * c.3, b.3 * c.2);
    vstd::arithmetic::mul::lemma_mul_is_distributive_add(a.2, b.2 * c.3 + b.3 * c.2, b.0 * c.1);
    vstd::arithmetic::mul::lemma_mul_is_distributive_sub(a.2, b.2 * c.3 + b.3 * c.2 + b.0 * c.1, b.1 * c.0);
    assert(qmul(qmul(a, b), c).0 == qmul(a, qmul(b, c)).0);
    assert(qmul(qmul(a, b), c).1 == qmul(a, qmul(b, c)).1);
    assert(qmul(qmul(a, b), c).2 == qmul(a, qmul(b, c)).2);
    assert(qmul(qmul(a, b), c).3 == qmul(a, qmul(b, c)).3);
}

/// The squared length of a product is the product of the squared lengths.
#[verifier::rlimit(100)]
pub proof fn lemma_norm_multiplicative(a: (int, int, int, int), b: (int, int, int, int))
    ensures
        qnorm_sq(qmul(a, b)) == qnorm_sq(a) * qnorm_sq(b),
{
    let x = qmul(a, b);
    vstd::arithmetic::mul::lemma_mul_is_commutative(a.1, a.0);
    vstd::arithmetic::mul::lemma_mul_is_commutative(b.1, b.0);
    vstd::arithmetic::mul::lemma_mul_is_commutative(a.2, a.0);
    vstd::arithmetic::mul::lemma_mul_is_commutative(b.2, b.0);
    vstd::arithmetic::mul::lemma_mul_is_commutative(a.3, a.0);
    vstd::arithmetic::mul::lemma_mul_is_commutative(b.3, b.0);
    vstd::arithmetic::mul::lemma_mul_is_commutative(a.2, a.1);
    vstd::arithmetic::mul::lemma_mul_is_commutative(b.2, b.1);
    vstd::arithmetic::mul::lemma_mul_is_commutative(a.3, a.1);
    vstd::arithmetic::mul::lemma_mul_is_commutative(b.3, b.1);
    vstd::arithmetic::mul::lemma_mul_is_commutative(a.3, a.2);
    vstd::arithmetic::mul::lemma_mul_is_commutative(b.3, b.2);
    vstd::arithmetic::mul::lemma_mul_is_distributive_add_other_way((a.0 * b.3 + a.3 * b.0 + a.1 * b.2 - a.2 * b.1), a.0 * b.3, a.3 * b.0);
    vstd::arithmetic::mul::lemma_mul_is_distributive_add_other_way((a.0 * b.3 + a.3 * b.0 + a.1 * b.2 - a.2 * b.1), a.0 * b.3 + a.3 * b.0, a.1 * b.2);
    vstd::arithmetic::mul::lemma_mul_is_distributive_sub_other_way((a.0 * b.3 + a.3 * b.0 + a.1 * b.2 - a.2 * b.1), a.0 * b.3 + a.3 * b.0 + a.1 * b.2, a.2 * b.1);
    vstd::arithmetic::mul::lemma_mul_is_distributive_add((a.0 * b.3), a.0 * b.3, a.3 * b.0);
    vstd::arithmetic::mul::lemma_mul_is_distributive_add((a.0 * b.3), a.0 * b.3 + a.3 * b.0, a.1 * b.2);
    vstd::arithmetic::mul::lemma_mul_is_distributive_sub((a.0 * b.3), a.0 * b.3 + a.3 * b.0 + a.1 * b.2, a.2 * b.1);
    lemma_mul_pair_shuffle(a.0, b.3, a.0, b.3);
    lemma_mul_pair_shuffle(a.0, b.3, a.3, b.0);
    lemma_mul_pair_shuffle(a.0, b.3, a.1, b.2);
    lemma_mul_pair_shuffle(a.0, b.3, a.2, b.1);
    vstd::arithmetic::mul::lemma_mul_is_distributive_add((a.3 * b.0), a.0 * b.3, a.3 * b.0);
    vstd::arithmetic::mul::lemma_mul_is_distributive_add((a.3 * b.0), a.0 * b.3 + a.3 * b.0, a.1 * b.2);
    vstd::arithmetic::mul::lemma_mul_is_distributive_sub((a.3 * b.0), a.0 * b.3 + a.3 * b.0 + a.1 * b.2, a.2 * b.1);
    lemma_mul_pair_shuffle(a.3, b.0, a.0, b.3);
    lemma_mul_pair_shuffle(a.3, b.0, a.3, b.0);
    lemma_mul_pair_shuffle(a.3, b.0, a.1, b.2);
    lemma_mul_pair_shuffle(a.3, b.0, a.2, b.1);
    vstd::arithmetic::mul::lemma_mul_is_distributive_add((a.1 * b.2), a.0 * b.3, a.3 * b.0);
    vstd::arithmetic::mul::lemma_mul_is_distributive_add((a.1 * b.2), a.0 * b.3 + a.3 * b.0, a.1 * b.2);
    vstd::arithmetic::mul::lemma_mul_is_distributive_sub((a.1 * b.2), a.0 * b.3 + a.3 * b.0 + a.1 * b.2, a.2 * b.1);
    lemma_mul_pair_shuffle(a.1, b.2, a.0, b.3);
    lemma_mul_pair_shuffle(a.1, b.2, a.3, b.0);
    lemma_mul_pair_shuffle(a.1, b.2, a.1, b.2);
    lemma_mul_pair_shuffle(a.1, b.2, a.2, b.1);
    vstd::arithmetic::mul::lemma_mul_is_distributive_add((a.2 * b.1), a.0 * b.3, a.3 * b.0);
    vstd::arithmetic::mul::lemma_mul_is_distributive_add((a.2 * b.1), a.0 * b.3 + a.3 * b.0, a.1 * b.2);
    vstd::arithmetic::mul::lemma_mul_is_distributive_sub((a.2 * b.1), a.0 * b.3 + a.3 * b.0 + a.1 * b.2, a.2 * b.1);
    lemma_mul_pair_shuffle(a.2, b.1, a.0, b.3);
    lemma_mul_pair_shuffle(a.2, b.1, a.3, b.0);
    lemma_mul_pair_shuffle(a.2, b.1, a.1, b.2);
    lemma_mul_pair_shuffle(a.2, b.1, a.2, b.1);
    vstd::arithmetic::mul::lemma_mul_is_distributive_add_other_way((a.1 * b.3 + a.3 * b.1 + a.2 * b.0 - a.0 * b.2), a.1 * b.3, a.3 * b.1);
    vstd::arithmetic::mul::lemma_mul_is_distributive_add_other_way((a.1 * b.3 + a.3 * b.1 + a.2 * b.0 - a.0 * b.2), a.1 * b.3 + a.3 * b.1, a.2 * b.0);
    vstd::arithmetic::mul::lemma_mul_is_distributive_sub_other_way((a.1 * b.3 + a.3 * b.1 + a.2 * b.0 - a.0 * b.2), a.1 * b.3 + a.3 * b.1 + a.2 * b.0, a.0 * b.2);
    vstd::arithmetic::mul::lemma_mul_is_distributive_add((a.1 * b.3), a.1 * b.3, a.3 * b.1);
    vstd::arithmetic::mul::lemma_mul_is_distributive_add((a.1 * b.3), a.1 * b.3 + a.3 * b.1, a.2 * b.0);
    vstd::arithmetic::mul::lemma_mul_is_distributive_sub((a.1 * b.3), a.1 * b.3 + a.3 * b.1 + a.2 * b.0, a.0 * b.2);
    lemma_mul_pair_shuffle(a.1, b.3, a.1, b.3);
    lemma_mul_pair_shuffle(a.1, b.3, a.3, b.1);
    lemma_mul_pair_shuffle(a.1, b.3, a.2, b.0);
    lemma_mul_pair_shuffle(a.1, b.3, a.0, b.2);
    vstd::arithmetic::mul::lemma_mul_is_distributive_add((a.3 * b.1), a.1 * b.3, a.3 * b.1);
    vstd::arithmetic::mul::lemma_mul_is_distributive_add((a.3 * b.1), a.1 * b.3 + a.3 * b.1, a.2 * b.0);
    vstd::arithmetic::mul::lemma_mul_is_distributive_sub((a.3 * b.1), a.1 * b.3 + a.3 * b.1 + a.2 * b.0, a.0 * b.2);
    lemma_mul_pair_shuffle(a.3, b.1, a.1, b.3);
    lemma_mul_pair_shuffle(a.3, b.1, a.3, b.1);
    lemma_mul_pair_shuffle(a.3, b.1, a.2, b.0);
    lemma_mul_pair_shuffle(a.3, b.1, a.0, b.2);
    vstd::arithmetic::mul::lemma_mul_is_distributive_add((a.2 * b.0), a.1 * b.3, a.3 * b.1);
    vstd::arithmetic::mul::lemma_mul_is_distributive_add((a.2 * b.0), a.1 * b.3 + a.3 * b.1, a.2 * b.0);
    vstd::arithmetic::mul::lemma_mul_is_distributive_sub((a.2 * b.0), a.1 * b.3 + a.3 * b.1 + a.2 * b.0, a.0 * b.2);
    lemma_mul_pair_shuffle(a.2, b.0, a.1, b.3);
    lemma_mul_pair_shuffle(a.2, b.0, a.3, b.1);
    lemma_mul_pair_shuffle(a.2, b.0, a.2, b.0);
    lemma_mul_pair_shuffle(a.2, b.0, a.0, b.2);
    vstd::arithmetic::mul::lemma_mul_is_distributive_add((a.0 * b.2), a.1 * b.3, a.3 * b.1);
    vstd::arithmetic::mul::lemma_mul_is_distributive_add((a.0 * b.2), a.1 * b.3 + a.3 * b.1, a.2 * b.0);
    vstd::arithmetic::mul::lemma_mul_is_distributive_sub((a.0 * b.2), a.1 * b.3 + a.3 * b.1 + a.2 * b.0, a.0 * b.2);
    lemma_mul_pair_shuffle(a.0, b.2, a.1, b.3);
    lemma_mul_pair_shuffle(a.0, b.2, a.3, b.1);
    lemma_mul_pair_shuffle(a.0, b.2, a.2, b.0);
    lemma_mul_pair_shuffle(a.0, b.2, a.0, b.2);
    vstd::arithmetic::mul::lemma_mul_is_distributive_add_other_way((a.2 * b.3 + a.3 * b.2 + a.0 * b.1 - a.1 * b.0), a.2 * b.3, a.3 * b.2);
    vstd::arithmetic::mul::lemma_mul_is_distributive_add_other_way((a.2 * b.3 + a.3 * b.2 + a.0 * b.1 - a.1 * b.0), a.2 * b.3 + a.3 * b.2, a.0 * b.1);
    vstd::arithmetic::mul::lemma_mul_is_distributive_sub_other_way((a.2 * b.3 + a.3 * b.2 + a.0 * b.1 - a.1 * b.0), a.2 * b.3 + a.3 * b.2 + a.0 * b.1, a.1 * b.0);
    vstd::arithmetic::mul::lemma_mul_is_distributive_add((a.2 * b.3), a.2 * b.3, a.3 * b.2);
    vstd::arithmetic::mul::lemma_mul_is_distributive_add((a.2 * b.3), a.2 * b.3 + a.3 * b.2, a.0 * b.1);
    vstd::arithmetic::mul::lemma_mul_is_distributive_sub((a.2 * b.3), a.2 * b.3 + a.3 * b.2 + a.0 * b.1, a.1 * b.0);
    lemma_mul_pair_shuffle(a.2, b.3, a.2, b.3);
    lemma_mul_pair_shuffle(a.2, b.3, a.3, b.2);
    lemma_mul_pair_shuffle(a.2, b.3, a.0, b.1);
    lemma_mul_pair_shuffle(a.2, b.3, a.1, b.0);
    vstd::arithmetic::mul::lemma_mul_is_distributive_add((a.3 * b.2), a.2 * b.3, a.3 * b.2);
    vstd::arithmetic::mul::lemma_mul_is_distributive_add((a.3 * b.2), a.2 * b.3 + a.3 * b.2, a.0 * b.1);
    vstd::arithmetic::mul::lemma_mul_is_distributive_sub((a.3 * b.2), a.2 * b.3 + a.3 * b.2 + a.0 * b.1, a.1 * b.0);
    lemma_mul_pair_shuffle(a.3, b.2, a.2, b.3);
    lemma_mul_pair_shuffle(a.3, b.2, a.3, b.2);
    lemma_mul_pair_shuffle(a.3, b.2, a.0, b.1);
    lemma_mul_pair_shuffle(a.3, b.2, a.1, b.0);
    vstd::arithmetic::mul::lemma_mul_is_distributive_add((a.0 * b.1), a.2 * b.3, a.3 * b.2);
    vstd::arithmetic::mul::lemma_mul_is_distributive_add((a.0 * b.1), a.2 * b.3 + a.3 * b.2, a.0 * b.1);
    vstd::arithmetic::mul::lemma_mul_is_distributive_sub((a.0 * b.1), a.2 * b.3 + a.3 * b.2 + a.0 * b.1, a.1 * b.0);
    lemma_mul_pair_shuffle(a.0, b.1, a.2, b.3);
    lemma_mul_pair_shuffle(a.0, b.1, a.3, b.2);
    lemma_mul_pair_shuffle(a.0, b.1, a.0, b.1);
    lemma_mul_pair_shuffle(a.0, b.1, a.1, b.0);
    vstd::arithmetic::mul::lemma_mul_is_distributive_add((a.1 * b.0), a.2 * b.3, a.3 * b.2);
    vstd::arithmetic::mul::lemma_mul_is_distributive_add((a.1 * b.0), a.2 * b.3 + a.3 * b.2, a.0 * b.1);
    vstd::arithmetic::mul::lemma_mul_is_distributive_sub((a.1 * b.0), a.2 * b.3 + a.3 * b.2 + a.0 * b.1, a.1 * b.0);
    lemma_mul_pair_shuffle(a.1, b.0, a.2, b.3);
    lemma_mul_pair_shuffle(a.1, b.0, a.3, b.2);
    lemma_mul_pair_shuffle(a.1, b.0, a.0, b.1);
    lemma_mul_pair_shuffle(a.1, b.0, a.1, b.0);
    vstd::arithmetic::mul::lemma_mul_is_distributive_sub_other_way((a.3 * b.3 - a.0 * b.0 - a.1 * b.1 - a.2 * b.2), a.3 * b.3, a.0 * b.0);
    vstd::arithmetic::mul::lemma_mul_is_distributive_sub_other_way((a.3 * b.3 - a.0 * b.0 - a.1 * b.1 - a.2 * b.2), a.3 * b.3 - a.0 * b.0, a.1 * b.1);
    vstd::arithmetic::mul::lemma_mul_is_distributive_sub_other_way((a.3 * b.3 - a.0 * b.0 - a.1 * b.1 - a.2 * b.2), a.3 * b.3 - a.0 * b.0 - a.1 * b.1, a.2 * b.2);
    vstd::arithmetic::mul::lemma_mul_is_distributive_sub((a.3 * b.3), a.3 * b.3, a.0 * b.0);
    vstd::arithmetic::mul::lemma_mul_is_distributive_sub((a.3 * b.3), a.3 * b.3 - a.0 * b.0, a.1 * b.1);
    vstd::arithmetic::mul::lemma_mul_is_distributive_sub((a.3 * b.3), a.3 * b.3 - a.0 * b.0 - a.1 * b.1, a.2 * b.2);
    lemma_mul_pair_shuffle(a.3, b.3, a.3, b.3);
    lemma_mul_pair_shuffle(a.3, b.3, a.0, b.0);
    lemma_mul_pair_shuffle(a.3, b.3, a.1, b.1);
    lemma_mul_pair_shuffle(a.3, b.3, a.2, b.2);
    vstd::arithmetic::mul::lemma_mul_is_distributive_sub((a.0 * b.0), a.3 * b.3, a.0 * b.0);
    vstd::arithmetic::mul::lemma_mul_is_distributive_sub((a.0 * b.0), a.3 * b.3 - a.0 * b.0, a.1 * b.1);
    vstd::arithmetic::mul::lemma_mul_is_distributive_sub((a.0 * b.0), a.3 * b.3 - a.0 * b.0 - a.1 * b.1, a.2 * b.2);
    lemma_mul_pair_shuffle(a.0, b.0, a.3, b.3);
    lemma_mul_pair_shuffle(a.0, b.0, a.0, b.0);
    lemma_mul_pair_shuffle(a.0, b.0, a.1, b.1);
    lemma_mul_pair_shuffle(a.0, b.0, a.2, b.2);
    vstd::arithmetic::mul::lemma_mul_is_distributive_sub((a.1 * b.1), a.3 * b.3, a.0 * b.0);
    vstd::arithmetic::mul::lemma_mul_is_distributive_sub((a.1 * b.1), a.3 * b.3 - a.0 * b.0, a.1 * b.1);
    vstd::arithmetic::mul::lemma_mul_is_distributive_sub((a.1 * b.1), a.3 * b.3 - a.0 * b.0 - a.1 * b.1, a.2 * b.2);
    lemma_mul_pair_shuffle(a.1, b.1, a.3, b.3);
    lemma_mul_pair_shuffle(a.1, b.1, a.0, b.0);
    lemma_mul_pair_shuffle(a.1, b.1, a.1, b.1);
    lemma_mul_pair_shuffle(a.1, b.1, a.2, b.2);
    vstd::arithmetic::mul::lemma_mul_is_distributive_sub((a.2 * b.2), a.3 * b.3, a.0 * b.0);
    vstd::arithmetic::mul::lemma_mul_is_distributive_sub((a.2 * b.2), a.3 * b.3 - a.0 * b.0, a.1 * b.1);
    vstd::arithmetic::mul::lemma_mul_is_distributive_sub((a.2 * b.2), a.3 * b.3 - a.0 * b.0 - a.1 * b.1, a.2 * b.2);
    lemma_mul_pair_shuffle(a.2, b.2, a.3, b.3);
    lemma_mul_pair_shuffle(a.2, b.2, a.0, b.0);
    lemma_mul_pair_shuffle(a.2, b.2, a.1, b.1);
    lemma_mul_pair_shuffle(a.2, b.2, a.2, b.2);
    vstd::arithmetic::mul::lemma_mul_is_distributive_add_other_way((b.0 * b.0 + b.1 * b.1 + b.2 * b.2 + b.3 * b.3), a.0 * a.0, a.1 * a.1);
    vstd::arithmetic::mul::lemma_mul_is_distributive_add_other_way((b.0 * b.0 + b.1 * b.1 + b.2 * b.2 + b.3 * b.3), a.0 * a.0 + a.1 * a.1, a.2 * a.2);
    vstd::arithmetic::mul::lemma_mul_is_distributive_add_other_way((b.0 * b.0 + b.1 * b.1 + b.2 * b.2 + b.3 * b.3), a.0 * a.0 + a.1 * a.1 + a.2 * a.2, a.3 * a.3);
    vstd::arithmetic::mul::lemma_mul_is_distributive_add((a.0 * a.0), b.0 * b.0, b.1 * b.1);
    vstd::arithmetic::mul::lemma_mul_is_distributive_add((a.0 * a.0), b.0 * b.0 + b.1 * b.1, b.2 * b.2);
    vstd::arithmetic::mul::lemma_mul_is_distributive_add((a.0 * a.0), b.0 * b.0 + b.1 * b.1 + b.2 * b.2, b.3 * b.3);
    vstd::arithmetic::mul::lemma_mul_is_distributive_add((a.1 * a.1), b.0 * b.0, b.1 * b.1);
    vstd::arithmetic::mul::lemma_mul_is_distributive_add((a.1 * a.1), b.0 * b.0 + b.1 * b.1, b.2 * b.2);
    vstd::arithmetic::mul::lemma_mul_is_distributive_add((a.1 * a.1), b.0 * b.0 + b.1 * b.1 + b.2 * b.2, b.3 * b.3);
    vstd::arithmetic::mul::lemma_mul_is_distributive_add((a.2 * a.2), b.0 * b.0, b.1 * b.1);
    vstd::arithmetic::mul::lemma_mul_is_distributive_add((a.2 * a.2), b.0 * b.0 + b.1 * b.1, b.2 * b.2);
    vstd::arithmetic::mul::lemma_mul_is_distributive_add((a.2 * a.2), b.0 * b.0 + b.1 * b.1 + b.2 * b.2, b.3 * b.3);
    vstd::arithmetic::mul::lemma_mul_is_distributive_add((a.3 * a.3), b.0 * b.0, b.1 * b.1);
    vstd::arithmetic::mul::lemma_mul_is_distributive_add((a.3 * a.3), b.0 * b.0 + b.1 * b.1, b.2 * b.2);
    vstd::arithmetic::mul::lemma_mul_is_distributive_add((a.3 * a.3), b.0 * b.0 + b.1 * b.1 + b.2 * b.2, b.3 * b.3);
    assert(qnorm_sq(x) == qnorm_sq(a) * qnorm_sq(b));
}

/// The expanded application formula is the quaternion sandwich: applying `q`
/// to `v` gives exactly the imaginary part of `q * pure(v) * conj(q)`, whose
/// real part is zero.
#[verifier::rlimit(100)]
pub proof fn lemma_apply_is_sandwich(q: (int, int, int, int), v: (int, int, int))
    ensures
        qmul(qmul(q, pure(v)), qconj(q)) == pure(vapply(q, v)),
{
    let x = qmul(q, pure(v));
    assert(x.0 == q.3 * v.0 + q.1 * v.2 - q.2 * v.1);
    assert(x.1 == q.3 * v.1 + q.2 * v.0 - q.0 * v.2);
    assert(x.2 == q.3 * v.2 + q.0 * v.1 - q.1 * v.0);
    assert(x.3 == 0 - q.0 * v.0 - q.1 * v.1 - q.2 * v.2);
    vstd::arithmetic::mul::lemma_mul_by_zero_is_zero(q.0);
    vstd::arithmetic::mul::lemma_mul_by_zero_is_zero(q.1);
    vstd::arithmetic::mul::lemma_mul_by_zero_is_zero(q.2);
    vstd::arithmetic::mul::lemma_mul_by_zero_is_zero(q.3);
    vstd::arithmetic::mul::lemma_mul_is_distributive_add_other_way(q.3, q.3 * v.0, q.1 * v.2);
    vstd::arithmetic::mul::lemma_mul_is_distributive_sub_other_way(q.3, q.3 * v.0 + q.1 * v.2, q.2 * v.1);
    lemma_mul_rotate(q.3, v.0, q.3);
    lemma_mul_rotate(q.1, v.2, q.3);
    lemma_mul_rotate(q.2, v.1, q.3);
    vstd::arithmetic::mul::lemma_mul_unary_negation(x.3, q.0);
    vstd::arithmetic::mul::lemma_mul_is_distributive_sub_other_way(q.0, 0, q.0 * v.0);
    vstd::arithmetic::mul::lemma_mul_is_distributive_sub_other_way(q.0, 0 - q.0 * v.0, q.1 * v.1);
    vstd::arithmetic::mul::lemma_mul_is_distributive_sub_other_way(q.0, 0 - q.0 * v.0 - q.1 * v.1, q.2 * v.2);
    lemma_mul_rotate(q.0, v.0, q.0);
    lemma_mul_rotate(q.1, v.1, q.0);
    vstd::arithmetic::mul::lemma_mul_is_commutative(q.1, q.0);
    lemma_mul_rotate(q.2, v.2, q.0);
    vstd::arithmetic::mul::lemma_mul_is_commutative(q.2, q.0);
    vstd::arithmetic::mul::lemma_mul_unary_negation(x.1, q.2);
    vstd::arithmetic::mul::lemma_mul_is_distributive_add_other_way(q.2, q.3 * v.1, q.2 * v.0);
    vstd::arithmetic::mul::lemma_mul_is_distributive_sub_other_way(q.2, q.3 * v.1 + q.2 * v.0, q.0 * v.2);
    lemma_mul_rotate(q.3, v.1, q.2);
    vstd::arithmetic::mul::lemma_mul_is_commutative(q.3, q.2);
    lemma_mul_rotate(q.2, v.0, q.2);
    lemma_mul_rotate(q.0, v.2, q.2);
    vstd::arithmetic::mul::lemma_mul_unary_negation(x.2, q.1);
    vstd::arithmetic::mul::lemma_mul_is_distributive_add_other_way(q.1, q.3 * v.2, q.0 * v.1);
    vstd::arithmetic::mul::lemma_mul_is_distributive_sub_other_way(q.1, q.3 * v.2 + q.0 * v.1, q.1 * v.0);
    lemma_mul_rotate(q.3, v.2, q.1);
    vstd::arithmetic::mul::lemma_mul_is_commutative(q.3, q.1);
    lemma_mul_rotate(q.0, v.1, q.1);
    lemma_mul_rotate(q.1, v.0, q.1);
    vstd::arithmetic::mul::lemma_mul_is_distributive_add_other_way(q.3, q.3 * v.1, q.2 * v.0);
    vstd::arithmetic::mul::lemma_mul_is_distributive_sub_other_way(q.3, q.3 * v.1 + q.2 * v.0, q.0 * v.2);
    lemma_mul_rotate(q.3, v.1, q.3);
    lemma_mul_rotate(q.2, v.0, q.3);
    lemma_mul_rotate(q.0, v.2, q.3);
    vstd::arithmetic::mul::lemma_mul_unary_negation(x.3, q.1);
    vstd::arithmetic::mul::lemma_mul_is_distributive_sub_other_way(q.1, 0, q.0 * v.0);
    vstd::arithmetic::mul::lemma_mul_is_distributive_sub_other_way(q.1, 0 - q.0 * v.0, q.1 * v.1);
    vstd::arithmetic::mul::lemma_mul_is_distributive_sub_other_way(q.1, 0 - q.0 * v.0 - q.1 * v.1, q.2 * v.2);
    lemma_mul_rotate(q.0, v.0, q.1);
    lemma_mul_rotate(q.1, v.1, q.1);
    lemma_mul_rotate(q.2, v.2, q.1);
    vstd::arithmetic::mul::lemma_mul_is_commutative(q.2, q.1);
    vstd::arithmetic::mul::lemma_mul_unary_negation(x.2, q.0);
    vstd::arithmetic::mul::lemma_mul_is_distributive_add_other_way(q.0, q.3 * v.2, q.0 * v.1);
    vstd::arithmetic::mul::lemma_mul_is_distributive_sub_other_way(q.0, q.3 * v.2 + q.0 * v.1, q.1 * v.0);
    lemma_mul_rotate(q.3, v.2, q.0);
    vstd::arithmetic::mul::lemma_mul_is_commutative(q.3, q.0);
    lemma_mul_rotate(q.0, v.1, q.0);
    lemma_mul_rotate(q.1, v.0, q.0);
    vstd::arithmetic::mul::lemma_mul_unary_negation(x.0, q.2);
    vstd::arithmetic::mul::lemma_mul_is_distributive_add_other_way(q.2, q.3 * v.0, q.1 * v.2);
    vstd::arithmetic::mul::lemma_mul_is_distributive_sub_other_way(q.2, q.3 * v.0 + q.1 * v.2, q.2 * v.1);
    lemma_mul_rotate(q.3, v.0, q.2);
    lemma_mul_rotate(q.1, v.2, q.2);
    lemma_mul_rotate(q.2, v.1, q.2);
    vstd::arithmetic::mul::lemma_mul_is_distributive_add_other_way(q.3, q.3 * v.2, q.0 * v.1);
    vstd::arithmetic::mul::lemma_mul_is_distributive_sub_other_way(q.3, q.3 * v.2 + q.0 * v.1, q.1 * v.0);
    lemma_mul_rotate(q.3, v.2, q.3);
    lemma_mul_rotate(q.0, v.1, q.3);
    lemma_mul_rotate(q.1, v.0, q.3);
    vstd::arithmetic::mul::lemma_mul_unary_negation(x.3, q.2);
    vstd::arithmetic::mul::lemma_mul_is_distributive_sub_other_way(q.2, 0, q.0 * v.0);
    vstd::arithmetic::mul::lemma_mul_is_distributive_sub_other_way(q.2, 0 - q.0 * v.0, q.1 * v.1);
    vstd::arithmetic::mul::lemma_mul_is_distributive_sub_other_way(q.2, 0 - q.0 * v.0 - q.1 * v.1, q.2 * v.2);
    lemma_mul_rotate(q.0, v.0, q.2);
    lemma_mul_rotate(q.1, v.1, q.2);
    lemma_mul_rotate(q.2, v.2, q.2);
    vstd::arithmetic::mul::lemma_mul_unary_negation(x.0, q.1);
    vstd::arithmetic::mul::lemma_mul_is_distributive_add_other_way(q.1, q.3 * v.0, q.1 * v.2);
    vstd::arithmetic::mul::lemma_mul_is_distributive_sub_other_way(q.1, q.3 * v.0 + q.1 * v.2, q.2 * v.1);
    lemma_mul_rotate(q.3, v.0, q.1);
    lemma_mul_rotate(q.1, v.2, q.1);
    lemma_mul_rotate(q.2, v.1, q.1);
    vstd::arithmetic::mul::lemma_mul_unary_negation(x.1, q.0);
    vstd::arithmetic::mul::lemma_mul_is_distributive_add_other_way(q.0, q.3 * v.1, q.2 * v.0);
    vstd::arithmetic::mul::lemma_mul_is_distributive_sub_other_way(q.0, q.3 * v.1 + q.2 * v.0, q.0 * v.2);
    lemma_mul_rotate(q.3, v.1, q.0);
    lemma_mul_rotate(q.2, v.0, q.0);
    lemma_mul_rotate(q.0, v.2, q.0);
    vstd::arithmetic::mul::lemma_mul_is_distributive_sub_other_way(q.3, 0, q.0 * v.0);
    vstd::arithmetic::mul::lemma_mul_is_distributive_sub_other_way(q.3, 0 - q.0 * v.0, q.1 * v.1);
    vstd::arithmetic::mul::lemma_mul_is_distributive_sub_other_way(q.3, 0 - q.0 * v.0 - q.1 * v.1, q.2 * v.2);
    lemma_mul_rotate(q.0, v.0, q.3);
    lemma_mul_rotate(q.1, v.1, q.3);
    lemma_mul_rotate(q.2, v.2, q.3);
    vstd::arithmetic::mul::lemma_mul_unary_negation(x.0, q.0);
    vstd::arithmetic::mul::lemma_mul_is_distributive_add_other_way(q.0, q.3 * v.0, q.1 * v.2);
    vstd::arithmetic::mul::lemma_mul_is_distributive_sub_other_way(q.0, q.3 * v.0 + q.1 * v.2, q.2 * v.1);
    lemma_mul_rotate(q.3, v.0, q.0);
    lemma_mul_rotate(q.1, v.2, q.0);
    lemma_mul_rotate(q.2, v.1, q.0);
    vstd::arithmetic::mul::lemma_mul_unary_negation(x.1, q.1);
    vstd::arithmetic::mul::lemma_mul_is_distributive_add_other_way(q.1, q.3 * v.1, q.2 * v.0);
    vstd::arithmetic::mul::lemma_mul_is_distributive_sub_other_way(q.1, q.3 * v.1 + q.2 * v.0, q.0 * v.2);
    lemma_mul_rotate(q.3, v.1, q.1);
    lemma_mul_rotate(q.2, v.0, q.1);
    lemma_mul_rotate(q.0, v.2, q.1);
    vstd::arithmetic::mul::lemma_mul_unary_negation(x.2, q.2);
    vstd::arithmetic::mul::lemma_mul_is_distributive_add_other_way(q.2, q.3 * v.2, q.0 * v.1);
    vstd::arithmetic::mul::lemma_mul_is_distributive_sub_other_way(q.2, q.3 * v.2 + q.0 * v.1, q.1 * v.0);
    lemma_mul_rotate(q.3, v.2, q.2);
    lemma_mul_rotate(q.0, v.1, q.2);
    lemma_mul_rotate(q.1, v.0, q.2);
    vstd::arithmetic::mul::lemma_mul_is_distributive_add_other_way(v.0, q.3 * q.3, q.0 * q.0);
    vstd::arithmetic::mul::lemma_mul_is_distributive_sub_other_way(v.0, q.3 * q.3 + q.0 * q.0, q.1 * q.1);
    vstd::arithmetic::mul::lemma_mul_is_distributive_sub_other_way(v.0, q.3 * q.3 + q.0 * q.0 - q.1 * q.1, q.2 * q.2);
    vstd::arithmetic::mul::lemma_mul_is_associative(2, (q.0 * q.2 + q.3 * q.1), v.2);
    vstd::arithmetic::mul::lemma_mul_is_distributive_add_other_way(v.2, q.0 * q.2, q.3 * q.1);
    vstd::arithmetic::mul::lemma_mul_is_associative(2, (q.0 * q.1 - q.3 * q.2), v.1);
    vstd::arithmetic::mul::lemma_mul_is_distributive_sub_other_way(v.1, q.0 * q.1, q.3 * q.2);
    vstd::arithmetic::mul::lemma_mul_is_distributive_sub_other_way(v.1, q.3 * q.3, q.0 * q.0);
    vstd::arithmetic::mul::lemma_mul_is_distributive_add_other_way(v.1, q.3 * q.3 - q.0 * q.0, q.1 * q.1);
    vstd::arithmetic::mul::lemma_mul_is_distributive_sub_other_way(v.1, q.3 * q.3 - q.0 * q.0 + q.1 * q.1, q.2 * q.2);
    vstd::arithmetic::mul::lemma_mul_is_associative(2, (q.1 * q.0 + q.3 * q.2), v.0);
    vstd::arithmetic::mul::lemma_mul_is_distributive_add_other_way(v.0, q.1 * q.0, q.3 * q.2);
    vstd::arithmetic::mul::lemma_mul_is_associative(2, (q.1 * q.2 - q.3 * q.0), v.2);
    vstd::arithmetic::mul::lemma_mul_is_distributive_sub_other_way(v.2, q.1 * q.2, q.3 * q.0);
    vstd::arithmetic::mul::lemma_mul_is_distributive_sub_other_way(v.2, q.3 * q.3, q.0 * q.0);
    vstd::arithmetic::mul::lemma_mul_is_distributive_sub_other_way(v.2, q.3 * q.3 - q.0 * q.0, q.1 * q.1);
    vstd::arithmetic::mul::lemma_mul_is_distributive_add_other_way(v.2, q.3 * q.3 - q.0 * q.0 - q.1 * q.1, q.2 * q.2);
    vstd::arithmetic::mul::lemma_mul_is_associative(2, (q.2 * q.1 + q.3 * q.0), v.1);
    vstd::arithmetic::mul::lemma_mul_is_distributive_add_other_way(v.1, q.2 * q.1, q.3 * q.0);
    vstd::arithmetic::mul::lemma_mul_is_associative(2, (q.2 * q.0 - q.3 * q.1), v.0);
    vstd::arithmetic::mul::lemma_mul_is_distributive_sub_other_way(v.0, q.2 * q.0, q.3 * q.1);
    assert(qmul(x, qconj(q)).0 == vapply(q, v).0);
    assert(qmul(x, qconj(q)).1 == vapply(q, v).1);
    assert(qmul(x, qconj(q)).2 == vapply(q, v).2);
    assert(qmul(x, qconj(q)).3 == 0);
    assert(qmul(qmul(q, pure(v)), qconj(q)) == pure(vapply(q, v)));
}

/// Conjugation reverses a product.
pub proof fn lemma_conjugate_of_product(a: (int, int, int, int), b: (int, int, int, int))
    ensures
        qconj(qmul(a, b)) == qmul(qconj(b), qconj(a)),
{
    assert(qconj(qmul(a, b)) == qmul(qconj(b), qconj(a))) by (nonlinear_arith);
}

/// A quaternion with zero imaginary part scales an applied vector by the
/// square of its real part.
pub proof fn lemma_apply_real(s: int, v: (int, int, int))
    ensures
        vapply((0, 0, 0, s), v) == vscale(s * s, v),
{
    assert(vapply((0, 0, 0, s), v) == vscale(s * s, v)) by (nonlinear_arith);
}

/// A quaternion times its own conjugate is its squared length, as a real
/// quaternion.
pub proof fn lemma_mul_with_conjugate(q: (int, int, int, int))
    ensures
        qmul(q, qconj(q)) == (0int, 0int, 0int, qnorm_sq(q)),
{
    assert(qmul(q, qconj(q)) == (0int, 0int, 0int, qnorm_sq(q))) by (nonlinear_arith);
}

/// Composition: applying a Hamilton product equals applying the right factor
/// first and then the left — exactly, with no unit assumption.
pub proof fn lemma_apply_compose(
    a: (int, int, int, int),
    b: (int, int, int, int),
    v: (int, int, int),
)
    ensures
        vapply(qmul(a, b), v) == vapply(a, vapply(b, v)),
{
    let vq = pure(v);
    let w = vapply(b, v);
    lemma_apply_is_sandwich(b, v);
    lemma_apply_is_sandwich(a, w);
    lemma_apply_is_sandwich(qmul(a, b), v);
    lemma_conjugate_of_product(a, b);
    // a * (b * vq * conj(b)) * conj(a) regrouped as (a*b) * vq * (conj(b) * conj(a))
    lemma_hamilton_assoc(a, qmul(b, vq), qconj(b));
    lemma_hamilton_assoc(a, b, vq);
    lemma_hamilton_assoc(qmul(qmul(a, b), vq), qconj(b), qconj(a));
    assert(qmul(qmul(a, pure(w)), qconj(a)) == qmul(qmul(qmul(a, b), vq), qconj(qmul(a, b))));
}

/// Applying a quaternion scales a vector's squared length by the square of
/// the quaternion's squared length.
pub proof fn lemma_apply_scales_length(q: (int, int, int, int), v: (int, int, int))
    ensures
        vlen_sq(vapply(q, v)) == qnorm_sq(q) * qnorm_sq(q) * vlen_sq(v),
{
    lemma_apply_is_sandwich(q, v);
    lemma_norm_multiplicative(qmul(q, pure(v)), qconj(q));
    lemma_norm_multiplicative(q, pure(v));
    assert(qnorm_sq(qconj(q)) == qnorm_sq(q)) by (nonlinear_arith);
    assert(qnorm_sq(pure(v)) == vlen_sq(v)) by (nonlinear_arith);
    assert(qnorm_sq(pure(vapply(q, v))) == vlen_sq(vapply(q, v))) by (nonlinear_arith);
    let nq = qnorm_sq(q);
    let l = vlen_sq(v);
    assert((nq * l) * nq == nq * nq * l) by (nonlinear_arith);
}

/// Length preservation: a unit quaternion applied to a vector keeps its
/// squared length.
pub proof fn lemma_rotation_preserves_length(q: (int, int, int, int), v: (int, int, int))
    requires
        qnorm_sq(q) == 1,
    ensures
        vlen_sq(vapply(q, v)) == vlen_sq(v),
{
    lemma_apply_scales_length(q, v);
    assert(1int * 1int * vlen_sq(v) == vlen_sq(v)) by (nonlinear_arith);
}

/// Applying a quaternion after its conjugate scales every vector by the
/// square of the quaternion's squared length.
pub proof fn lemma_conjugate_scales(q: (int, int, int, int), v: (int, int, int))
    ensures
        vapply(q, vapply(qconj(q), v)) == vscale(qnorm_sq(q) * qnorm_sq(q), v),
{
    lemma_apply_compose(q, qconj(q), v);
    lemma_mul_with_conjugate(q);
    lemma_apply_real(qnorm_sq(q), v);
}

/// The conjugate undoes a rotation: for a unit quaternion, applying `q` after
/// applying its conjugate gives every vector back.
pub proof fn lemma_conjugate_undoes_rotation(q: (int, int, int, int), v: (int, int, int))
    requires
        qnorm_sq(q) == 1,
    ensures
        vapply(q, vapply(qconj(q), v)) == v,
{
    lemma_conjugate_scales(q, v);
    assert(vscale(1int * 1int, v) == v);
}

/// Composing a principal-axis rotation with itself follows the double-angle
/// formulas: two X-rotations with half-angle sine `s` and cosine `c` make one
/// X-rotation with sine `2sc` and cosine `c^2 - s^2`.
pub proof fn lemma_double_rotation(s: int, c: int)
    ensures
        qmul((s, 0, 0, c), (s, 0, 0, c)) == (2 * s * c, 0int, 0int, c * c - s * s),
{
    assert(qmul((s, 0, 0, c), (s, 0, 0, c)) == (2 * s * c, 0int, 0int, c * c - s * s))
        by (nonlinear_arith);
}

} // verus!
