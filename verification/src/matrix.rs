//! Square and rectangular matrix operations on fixed-size arrays of scalars.
//!
//! A matrix of `R` rows and `C` columns is a plain array `[F; R * C]` in
//! row-major order: entry `(r, c)` lives at index `r * C + c`.  As in the
//! vector module, every function pins down in its contract the exact scalar
//! expression each entry of its result is computed by.

use crate::traits::Float;
use crate::traits::Num;
use crate::vector;
use vstd::prelude::*;

verus! {

/// Create a new matrix which is all zeros.
pub fn zero<V: Num, const RC: usize>() -> (r: [V; RC])
    ensures
        forall|i: int| 0 <= i < RC ==> r[i] == V::zero_spec(),
{
    vector::zero()
}

/// Set the matrix to have all elements of zero.
pub fn set_zero<V: Num, const RC: usize>(m: &mut [V; RC])
    ensures
        forall|i: int| 0 <= i < RC ==> final(m)[i] == V::zero_spec(),
{
    vector::set_zero(m)
}

/// Return true if the matrix is all zeros.
pub fn is_zero<V: Num, const RC: usize>(m: &[V; RC]) -> (r: bool)
    ensures
        r == forall|i: int| 0 <= i < RC ==> m[i] == V::zero_spec(),
{
    vector::is_zero(m)
}

/// Consume the matrix and return a new matrix that is the original scaled in
/// each element by a single scaling factor.
pub fn scale<V: Num, const RC: usize>(m: [V; RC], s: V) -> (r: [V; RC])
    ensures
        forall|i: int| 0 <= i < RC ==> r[i] == m[i].mul_spec(s),
{
    vector::scale(m, s)
}

/// Consume the matrix and return a new matrix that is the original reduced in
/// scale in each element by a single scaling factor.
pub fn reduce<V: Num, const RC: usize>(m: [V; RC], s: V) -> (r: [V; RC])
    ensures
        forall|i: int| 0 <= i < RC ==> r[i] == m[i].div_spec(s),
{
    vector::reduce(m, s)
}

/// Consume the matrix, and return a new matrix that is the sum of this and a
/// borrowed other matrix scaled.
pub fn add<V: Num, const RC: usize>(m: [V; RC], other: &[V; RC], scale: V) -> (r: [V; RC])
    ensures
        forall|i: int| 0 <= i < RC ==> r[i] == m[i].add_spec(other[i].mul_spec(scale)),
{
    vector::add(m, other, scale)
}

/// Consume the matrix, and return a new matrix that is the difference of this
/// and a borrowed other matrix scaled.
pub fn sub<V: Num, const RC: usize>(m: [V; RC], other: &[V; RC], scale: V) -> (r: [V; RC])
    ensures
        forall|i: int| 0 <= i < RC ==> r[i] == m[i].sub_spec(other[i].mul_spec(scale)),
{
    vector::sub(m, other, scale)
}

/// The largest absolute value among the first `n` elements.
pub open spec fn spec_absmax<V: Float>(m: Seq<V>, n: int) -> V
    decreases n,
{
    if n <= 0 {
        V::zero_spec()
    } else {
        let acc = spec_absmax(m, n - 1);
        let b = m[n - 1].abs_spec();
        if acc.lt_spec(b) {
            b
        } else {
            acc
        }
    }
}

/// Return the largest absolute value of any element of the matrix.
pub fn absmax<V: Float, const RC: usize>(m: &[V; RC]) -> (r: V)
    ensures
        r == spec_absmax(m@, RC as int),
{
    let mut r = V::zero();
    for i in 0..RC
        invariant
            r == spec_absmax(m@, i as int),
    {
        let b = m[i].abs();
        if r.lt(b) {
            r = b;
        }
    }
    r
}

/// Scale the matrix so that the largest absolute value of any element is one;
/// if every element is below epsilon in magnitude, set it to zero instead.
pub fn normalize<V: Float, const RC: usize, const C: usize>(m: [V; RC]) -> (r: [V; RC])
    ensures
        ({
            let l = spec_absmax(m@, RC as int);
            if l.lt_spec(V::epsilon_spec()) {
                forall|i: int| 0 <= i < RC ==> r[i] == V::zero_spec()
            } else {
                forall|i: int| 0 <= i < RC ==> r[i] == m[i].div_spec(l)
            }
        }),
{
    let l = absmax(&m);
    if l.lt(V::epsilon()) {
        let mut m = m;
        set_zero(&mut m);
        m
    } else {
        reduce(m, l)
    }
}

/// What entry `k` of the `D`-dimensional identity matrix holds.
pub open spec fn spec_identity_entry<V: Num>(d: int, k: int) -> V {
    if k / d == k % d {
        V::one_spec()
    } else {
        V::zero_spec()
    }
}

/// Create an identity square matrix of a given dimension.
///
/// The value of `D2` must be `D * D`.
pub fn identity<V: Num, const D2: usize, const D: usize>() -> (r: [V; D2])
    requires
        D2 == D * D,
    ensures
        forall|k: int| 0 <= k < D2 ==> r[k] == spec_identity_entry::<V>(D as int, k),
{
    let mut r: [V; D2] = vector::zero();
    proof {
        assert forall|k: int| 0 <= k < D2 implies #[trigger] r[k] == (if k / (D as int) == k % (
        D as int) && k / (D as int) < 0 {
            V::one_spec()
        } else {
            V::zero_spec()
        }) by {
            if D > 0 {
                vstd::arithmetic::div_mod::lemma_div_pos_is_pos(k, D as int);
            }
        }
    }
    for i in 0..D
        invariant
            D2 == D * D,
            r@.len() == D2,
            forall|k: int|
                0 <= k < D2 ==> r[k] == (if k / (D as int) == k % (D as int) && k / (D as int)
                    < i {
                    V::one_spec()
                } else {
                    V::zero_spec()
                }),
    {
        proof {
            assert(i * D + i < D2) by (nonlinear_arith)
                requires
                    0 <= i < D,
                    D2 == D * D,
            ;
        }
        let ghost prev = r;
        let idx = i * D + i;
        r[idx] = V::one();
        proof {
            assert(idx as int / D as int == i as int && idx as int % D as int == i as int)
                by (nonlinear_arith)
                requires
                    0 <= i < D,
                    idx == i * D + i,
            ;
            assert forall|k: int| 0 <= k < D2 implies r[k] == (if k / (D as int) == k % (D as int)
                && k / (D as int) < i + 1 {
                V::one_spec()
            } else {
                V::zero_spec()
            }) by {
                if k != idx as int {
                    assert(r[k] == prev[k]);
                    if k / (D as int) == k % (D as int) && k / (D as int) == i as int {
                        vstd::arithmetic::div_mod::lemma_fundamental_div_mod(k, D as int);
                        assert(k == i * D + i);
                    }
                }
            }
        }
    }
    proof {
        assert forall|k: int| 0 <= k < D2 implies r[k] == spec_identity_entry::<V>(D as int, k) by {
            assert(0 <= k % (D as int) < D && 0 <= k / (D as int) < D) by (nonlinear_arith)
                requires
                    0 <= k < D2,
                    D2 == D * D,
                    D > 0,
            ;
        }
    }
    r
}

/// Create a 2-by-2 identity matrix.
pub fn identity2<V: Num>() -> (r: [V; 4])
    ensures
        forall|k: int| 0 <= k < 4 ==> r[k] == spec_identity_entry::<V>(2, k),
{
    identity::<V, 4, 2>()
}

/// Create a 3-by-3 identity matrix.
pub fn identity3<V: Num>() -> (r: [V; 9])
    ensures
        forall|k: int| 0 <= k < 9 ==> r[k] == spec_identity_entry::<V>(3, k),
{
    identity::<V, 9, 3>()
}

/// Create a 4-by-4 identity matrix.
pub fn identity4<V: Num>() -> (r: [V; 16])
    ensures
        forall|k: int| 0 <= k < 16 ==> r[k] == spec_identity_entry::<V>(4, k),
{
    identity::<V, 16, 4>()
}

/// Whether flat index `k` has already been written by the transpose loops,
/// which fill output position `row + col * rdim` while walking `row` in the
/// outer loop and `col` in the inner one.
spec fn tr_written(rdim: int, k: int, r: int, c: int) -> bool {
    k % rdim < r || (k % rdim == r && k / rdim < c)
}

/// The input position a transpose reads for output position `k`.
spec fn tr_source(rdim: int, cdim: int, k: int) -> int {
    (k % rdim) * cdim + k / rdim
}

/// Whether flat index `k` has already been written by the multiply loops,
/// which fill output position `row * cdim + col` while walking `row` in the
/// outer loop and `col` in the middle one.
spec fn mu_written(cdim: int, k: int, r: int, c: int) -> bool {
    k / cdim < r || (k / cdim == r && k % cdim < c)
}

/// A flat row-major index built from an in-range `(row, col)` pair decomposes
/// back into that pair.
proof fn lemma_flat_index(row: int, col: int, cdim: int)
    requires
        0 <= col < cdim,
        0 <= row,
    ensures
        (row * cdim + col) / cdim == row,
        (row * cdim + col) % cdim == col,
{
    vstd::arithmetic::div_mod::lemma_fundamental_div_mod_converse(
        row * cdim + col,
        cdim,
        row,
        col,
    );
}

/// Transpose the matrix.
///
/// The matrices are row-major, so successive entries of `m` are adjacent
/// columns; the output has `R` columns, and its entry at flat index `k`
/// (row `k / R`, column `k % R`) is `m`'s entry at row `k % R`, column
/// `k / R`.
pub fn transpose<V: Float, const RC: usize, const R: usize, const C: usize>(m: [V; RC]) -> (v: [V;
    RC])
    requires
        RC == R * C,
    ensures
        forall|k: int|
            0 <= k < RC ==> v[k] == m[(k % (R as int)) * (C as int) + k / (R as int)],
{
    let mut v: [V; RC] = zero();
    proof {
        assert forall|k: int| 0 <= k < RC implies #[trigger] v[k] == (if tr_written(R as int, k, 0, 0) {
            m[tr_source(R as int, C as int, k)]
        } else {
            V::zero_spec()
        }) by {
            if R > 0 {
                vstd::arithmetic::div_mod::lemma_div_pos_is_pos(k, R as int);
                vstd::arithmetic::div_mod::lemma_mod_bound(k, R as int);
            }
        }
    }
    for r in 0..R
        invariant
            RC == R * C,
            forall|k: int|
                0 <= k < RC ==> #[trigger] v[k] == (if tr_written(R as int, k, r as int, 0) {
                    m[tr_source(R as int, C as int, k)]
                } else {
                    V::zero_spec()
                }),
    {
        for c in 0..C
            invariant
                RC == R * C,
                r < R,
                forall|k: int|
                    0 <= k < RC ==> #[trigger] v[k] == (if tr_written(R as int, k, r as int, c as int) {
                        m[tr_source(R as int, C as int, k)]
                    } else {
                        V::zero_spec()
                    }),
        {
            proof {
                assert(r + c * R < RC && c + r * C < RC) by (nonlinear_arith)
                    requires
                        0 <= r < R,
                        0 <= c < C,
                        RC == R * C,
                ;
            }
            let ghost prev = v;
            v[r + c * R] = m[c + r * C];
            proof {
                lemma_flat_index(c as int, r as int, R as int);
                lemma_flat_index(r as int, c as int, C as int);
                assert forall|k: int| 0 <= k < RC implies #[trigger] v[k] == (if tr_written(R as int, 
                    k,
                    r as int,
                    c as int + 1,
                ) {
                    m[tr_source(R as int, C as int, k)]
                } else {
                    V::zero_spec()
                }) by {
                    let k0: int = (c as int) * (R as int) + (r as int);
                    if k != k0 {
                        assert(v[k] == prev[k]);
                        if k % (R as int) == r as int && k / (R as int) == c as int {
                            vstd::arithmetic::div_mod::lemma_fundamental_div_mod(k, R as int);
                            assert((R as int) * (c as int) == (c as int) * (R as int))
                                by (nonlinear_arith);
                            assert(k == k0);
                        }
                    }
                }
            }
        }
        proof {
            assert forall|k: int| 0 <= k < RC implies #[trigger] tr_written(R as int, k, r as int + 1, 0) == tr_written(R as int, 
                k,
                r as int,
                C as int,
            ) by {
                vstd::arithmetic::div_mod::lemma_mod_bound(k, R as int);
                if k % (R as int) == r as int {
                    vstd::arithmetic::div_mod::lemma_fundamental_div_mod(k, R as int);
                    assert(k / (R as int) < C as int) by (nonlinear_arith)
                        requires
                            0 <= k < RC,
                            RC == R * C,
                            R > 0,
                            k % (R as int) == r as int,
                            k == (R as int) * (k / (R as int)) + k % (R as int),
                    {
                    }
                }
            }
        }
    }
    proof {
        assert forall|k: int| 0 <= k < RC implies #[trigger] tr_written(R as int, k, R as int, 0) by {
            assert(R > 0) by (nonlinear_arith)
                requires
                    0 <= k < RC,
                    RC == R * C,
            ;
            vstd::arithmetic::div_mod::lemma_mod_bound(k, R as int);
        }
    }
    v
}

/// The sum over the first `n` inner positions of `a[r * xdim + x] * b[x * cdim + c]`:
/// entry `(r, c)` of the product of an `R`-by-`xdim` and an `xdim`-by-`cdim`
/// matrix, both row-major.
pub open spec fn spec_mat_dot<V: Num>(
    a: Seq<V>,
    b: Seq<V>,
    r: int,
    c: int,
    n: int,
    xdim: int,
    cdim: int,
) -> V
    decreases n,
{
    if n <= 0 {
        V::zero_spec()
    } else {
        spec_mat_dot(a, b, r, c, n - 1, xdim, cdim).add_spec(
            a[r * xdim + (n - 1)].mul_spec(b[(n - 1) * cdim + c]),
        )
    }
}

/// Multiply two matrices.
///
/// `a` is `R` rows of `X` columns, `b` is `X` rows of `C` columns, and the
/// result is `R` rows of `C` columns; its entry at flat index `k` is the dot
/// product of row `k / C` of `a` with column `k % C` of `b`.
pub fn multiply<
    V: Float,
    const RX: usize,
    const XC: usize,
    const RC: usize,
    const R: usize,
    const X: usize,
    const C: usize,
>(a: &[V; RX], b: &[V; XC]) -> (m: [V; RC])
    requires
        RX == R * X,
        XC == X * C,
        RC == R * C,
    ensures
        forall|k: int|
            0 <= k < RC ==> m[k] == spec_mat_dot(
                a@,
                b@,
                k / (C as int),
                k % (C as int),
                X as int,
                X as int,
                C as int,
            ),
{
    let mut m: [V; RC] = zero();
    proof {
        assert forall|k: int| 0 <= k < RC implies #[trigger] m[k] == (if mu_written(C as int, k, 0, 0) {
            spec_mat_dot(a@, b@, k / (C as int), k % (C as int), X as int, X as int, C as int)
        } else {
            V::zero_spec()
        }) by {
            if C > 0 {
                vstd::arithmetic::div_mod::lemma_div_pos_is_pos(k, C as int);
                vstd::arithmetic::div_mod::lemma_mod_bound(k, C as int);
            }
        }
    }
    for r in 0..R
        invariant
            RX == R * X,
            XC == X * C,
            RC == R * C,
            forall|k: int|
                0 <= k < RC ==> #[trigger] m[k] == (if mu_written(C as int, k, r as int, 0) {
                    spec_mat_dot(a@, b@, k / (C as int), k % (C as int), X as int, X as int, C as int)
                } else {
                    V::zero_spec()
                }),
    {
        for c in 0..C
            invariant
                RX == R * X,
                XC == X * C,
                RC == R * C,
                r < R,
                forall|k: int|
                    0 <= k < RC ==> #[trigger] m[k] == (if mu_written(C as int, k, r as int, c as int) {
                        spec_mat_dot(a@, b@, k / (C as int), k % (C as int), X as int, X as int, C as int)
                    } else {
                        V::zero_spec()
                    }),
        {
            let mut val = V::zero();
            for x in 0..X
                invariant
                    RX == R * X,
                    XC == X * C,
                    r < R,
                    c < C,
                    val == spec_mat_dot(a@, b@, r as int, c as int, x as int, X as int, C as int),
            {
                proof {
                    assert(r * X + x < RX && x * C + c < XC) by (nonlinear_arith)
                        requires
                            0 <= r < R,
                            0 <= c < C,
                            0 <= x < X,
                            RX == R * X,
                            XC == X * C,
                    ;
                }
                val = val.add(a[r * X + x].mul(b[x * C + c]));
            }
            proof {
                assert(r * C + c < RC) by (nonlinear_arith)
                    requires
                        0 <= r < R,
                        0 <= c < C,
                        RC == R * C,
                ;
            }
            let ghost prev = m;
            m[r * C + c] = val;
            proof {
                lemma_flat_index(r as int, c as int, C as int);
                assert forall|k: int| 0 <= k < RC implies #[trigger] m[k] == (if mu_written(C as int, 
                    k,
                    r as int,
                    c as int + 1,
                ) {
                    spec_mat_dot(a@, b@, k / (C as int), k % (C as int), X as int, X as int, C as int)
                } else {
                    V::zero_spec()
                }) by {
                    let k0: int = (r as int) * (C as int) + (c as int);
                    if k != k0 {
                        assert(m[k] == prev[k]);
                        if k / (C as int) == r as int && k % (C as int) == c as int {
                            vstd::arithmetic::div_mod::lemma_fundamental_div_mod(k, C as int);
                            assert((C as int) * (r as int) == (r as int) * (C as int))
                                by (nonlinear_arith);
                            assert(k == k0);
                        }
                    }
                }
            }
        }
        proof {
            assert forall|k: int| 0 <= k < RC implies #[trigger] mu_written(C as int, k, r as int + 1, 0) == mu_written(C as int, 
                k,
                r as int,
                C as int,
            ) by {
                assert(C > 0) by (nonlinear_arith)
                    requires
                        0 <= k < RC,
                        RC == R * C,
                ;
                vstd::arithmetic::div_mod::lemma_mod_bound(k, C as int);
            }
        }
    }
    proof {
        assert forall|k: int| 0 <= k < RC implies #[trigger] mu_written(C as int, k, R as int, 0) by {
            assert(C > 0) by (nonlinear_arith)
                requires
                    0 <= k < RC,
                    RC == R * C,
            ;
            vstd::arithmetic::div_mod::lemma_fundamental_div_mod(k, C as int);
            vstd::arithmetic::div_mod::lemma_mod_bound(k, C as int);
            assert(k / (C as int) < R as int) by (nonlinear_arith)
                requires
                    0 <= k < RC,
                    RC == R * C,
                    C > 0,
                    k == (C as int) * (k / (C as int)) + k % (C as int),
                    0 <= k % (C as int) < C as int,
            {
            }
        }
    }
    m
}

/// Transform a vector: multiply the `R`-by-`D` matrix by a `D`-element column
/// vector.
pub fn transform_vec<V: Float, const RD: usize, const R: usize, const D: usize>(
    m: &[V; RD],
    v: &[V; D],
) -> (r: [V; R])
    requires
        RD == R * D,
    ensures
        forall|k: int|
            0 <= k < R ==> r[k] == spec_mat_dot(m@, v@, k, 0, D as int, D as int, 1),
{
    let r = multiply::<V, RD, D, R, R, D, 1>(m, v);
    proof {
        assert forall|k: int| 0 <= k < R implies r[k] == spec_mat_dot(
            m@,
            v@,
            k,
            0,
            D as int,
            D as int,
            1,
        ) by {
            vstd::arithmetic::div_mod::lemma_fundamental_div_mod_converse(k, 1, k, 0);
        }
    }
    r
}

/// Multiply two square 2x2 matrices and produce a result.
pub fn multiply2<V: Float>(a: &[V; 4], b: &[V; 4]) -> (m: [V; 4])
    ensures
        forall|k: int|
            0 <= k < 4 ==> m[k] == spec_mat_dot(a@, b@, k / 2, k % 2, 2, 2, 2),
{
    multiply::<V, 4, 4, 4, 2, 2, 2>(a, b)
}

/// Multiply a vec2 by a 2x2 matrix.
pub fn transform_vec2<V: Float>(m: &[V; 4], v: &[V; 2]) -> (r: [V; 2])
    ensures
        forall|k: int| 0 <= k < 2 ==> r[k] == spec_mat_dot(m@, v@, k, 0, 2, 2, 1),
{
    transform_vec::<V, 4, 2, 2>(m, v)
}

/// Multiply two square 3x3 matrices and produce a result.
pub fn multiply3<V: Float>(a: &[V; 9], b: &[V; 9]) -> (m: [V; 9])
    ensures
        forall|k: int|
            0 <= k < 9 ==> m[k] == spec_mat_dot(a@, b@, k / 3, k % 3, 3, 3, 3),
{
    multiply::<V, 9, 9, 9, 3, 3, 3>(a, b)
}

/// Multiply a vec3 by a 3x3 matrix.
pub fn transform_vec3<V: Float>(m: &[V; 9], v: &[V; 3]) -> (r: [V; 3])
    ensures
        forall|k: int| 0 <= k < 3 ==> r[k] == spec_mat_dot(m@, v@, k, 0, 3, 3, 1),
{
    transform_vec::<V, 9, 3, 3>(m, v)
}

/// Multiply two square 4x4 matrices and produce a result.
pub fn multiply4<V: Float>(a: &[V; 16], b: &[V; 16]) -> (m: [V; 16])
    ensures
        forall|k: int|
            0 <= k < 16 ==> m[k] == spec_mat_dot(a@, b@, k / 4, k % 4, 4, 4, 4),
{
    multiply::<V, 16, 16, 16, 4, 4, 4>(a, b)
}

/// Multiply a vec4 by a 4x4 matrix.
pub fn transform_vec4<V: Float>(m: &[V; 16], v: &[V; 4]) -> (r: [V; 4])
    ensures
        forall|k: int| 0 <= k < 4 ==> r[k] == spec_mat_dot(m@, v@, k, 0, 4, 4, 1),
{
    transform_vec::<V, 16, 4, 4>(m, v)
}

/// The determinant of a 2-by-2 matrix: `m[0]*m[3] - m[1]*m[2]`.
pub open spec fn spec_determinant2<V: Num>(m: Seq<V>) -> V {
    m[0].mul_spec(m[3]).sub_spec(m[1].mul_spec(m[2]))
}

/// Find the determinant of a 2-by-2 matrix.
pub fn determinant2<V: Num>(m: &[V; 4]) -> (r: V)
    ensures
        r == spec_determinant2(m@),
{
    m[0].mul(m[3]).sub(m[1].mul(m[2]))
}

/// The determinant of a 3-by-3 matrix, by cofactor expansion along the first
/// row.
pub open spec fn spec_determinant3<V: Num>(m: Seq<V>) -> V {
    m[0].mul_spec(m[4].mul_spec(m[8]).sub_spec(m[5].mul_spec(m[7]))).add_spec(
        m[1].mul_spec(m[5].mul_spec(m[6]).sub_spec(m[3].mul_spec(m[8]))),
    ).add_spec(m[2].mul_spec(m[3].mul_spec(m[7]).sub_spec(m[4].mul_spec(m[6]))))
}

/// Find the determinant of a 3-by-3 matrix.
pub fn determinant3<V: Num>(m: &[V; 9]) -> (r: V)
    ensures
        r == spec_determinant3(m@),
{
    m[0].mul(m[4].mul(m[8]).sub(m[5].mul(m[7]))).add(
        m[1].mul(m[5].mul(m[6]).sub(m[3].mul(m[8]))),
    ).add(m[2].mul(m[3].mul(m[7]).sub(m[4].mul(m[6]))))
}

/// One first-row cofactor of a 4-by-4 matrix: the 3-by-3 determinant of the
/// rows below row zero with column `skip` removed, expanded in the cyclic
/// order the full determinant uses.
pub open spec fn spec_cofactor4<V: Num>(m: Seq<V>, c0: int, c1: int, c2: int) -> V {
    m[4 + c0].mul_spec(m[8 + c1].mul_spec(m[12 + c2]).sub_spec(m[8 + c2].mul_spec(m[12 + c1])))
        .add_spec(
        m[4 + c1].mul_spec(m[8 + c2].mul_spec(m[12 + c0]).sub_spec(m[8 + c0].mul_spec(m[12 + c2]))),
    ).add_spec(
        m[4 + c2].mul_spec(m[8 + c0].mul_spec(m[12 + c1]).sub_spec(m[8 + c1].mul_spec(m[12 + c0]))),
    )
}

/// The determinant of a 4-by-4 matrix, by cofactor expansion along the first
/// row.
pub open spec fn spec_determinant4<V: Num>(m: Seq<V>) -> V {
    m[0].mul_spec(spec_cofactor4(m, 1, 2, 3)).sub_spec(
        m[1].mul_spec(spec_cofactor4(m, 2, 3, 0)),
    ).add_spec(m[2].mul_spec(spec_cofactor4(m, 3, 0, 1))).sub_spec(
        m[3].mul_spec(spec_cofactor4(m, 0, 1, 2)),
    )
}

/// Find the determinant of a 4-by-4 matrix.
pub fn determinant4<V: Num>(m: &[V; 16]) -> (r: V)
    ensures
        r == spec_determinant4(m@),
{
    let d0 = m[4 + 1].mul(m[8 + 2].mul(m[12 + 3]).sub(m[8 + 3].mul(m[12 + 2]))).add(
        m[4 + 2].mul(m[8 + 3].mul(m[12 + 1]).sub(m[8 + 1].mul(m[12 + 3]))),
    ).add(m[4 + 3].mul(m[8 + 1].mul(m[12 + 2]).sub(m[8 + 2].mul(m[12 + 1]))));
    let d1 = m[4 + 2].mul(m[8 + 3].mul(m[12 + 0]).sub(m[8 + 0].mul(m[12 + 3]))).add(
        m[4 + 3].mul(m[8 + 0].mul(m[12 + 2]).sub(m[8 + 2].mul(m[12 + 0]))),
    ).add(m[4 + 0].mul(m[8 + 2].mul(m[12 + 3]).sub(m[8 + 3].mul(m[12 + 2]))));
    let d2 = m[4 + 3].mul(m[8 + 0].mul(m[12 + 1]).sub(m[8 + 1].mul(m[12 + 0]))).add(
        m[4 + 0].mul(m[8 + 1].mul(m[12 + 3]).sub(m[8 + 3].mul(m[12 + 1]))),
    ).add(m[4 + 1].mul(m[8 + 3].mul(m[12 + 0]).sub(m[8 + 0].mul(m[12 + 3]))));
    let d3 = m[4 + 0].mul(m[8 + 1].mul(m[12 + 2]).sub(m[8 + 2].mul(m[12 + 1]))).add(
        m[4 + 1].mul(m[8 + 2].mul(m[12 + 0]).sub(m[8 + 0].mul(m[12 + 2]))),
    ).add(m[4 + 2].mul(m[8 + 0].mul(m[12 + 1]).sub(m[8 + 1].mul(m[12 + 0]))));
    m[0].mul(d0).sub(m[1].mul(d1)).add(m[2].mul(d2)).sub(m[3].mul(d3))
}

/// The reciprocal a matrix inverse scales its cofactors by: `1 / d` when the
/// determinant `d` is at least epsilon in magnitude, and zero otherwise (the
/// degenerate-input policy: a near-singular matrix inverts to the zero
/// matrix).
pub open spec fn spec_inv_det<V: Float>(d: V) -> V {
    if V::epsilon_spec().lt_spec(d.abs_spec()) {
        V::one_spec().div_spec(d)
    } else {
        V::zero_spec()
    }
}

/// Find the inverse of a 2-by-2 matrix; a matrix whose determinant is below
/// epsilon in magnitude gives the zero matrix.
pub fn inverse2<V: Float>(m: &[V; 4]) -> (r: [V; 4])
    ensures
        ({
            let rd = spec_inv_det(spec_determinant2(m@));
            &&& r[0] == m[3].mul_spec(rd)
            &&& r[1] == m[1].neg_spec().mul_spec(rd)
            &&& r[2] == m[2].neg_spec().mul_spec(rd)
            &&& r[3] == m[0].mul_spec(rd)
        }),
{
    let d = determinant2(m);
    let r_d = if V::epsilon().lt(V::abs(d)) {
        V::one().div(d)
    } else {
        V::zero()
    };
    [m[3].mul(r_d), m[1].neg().mul(r_d), m[2].neg().mul(r_d), m[0].mul(r_d)]
}

/// The inverse of a 3-by-3 matrix: its cofactors, transposed and scaled by
/// the determinant reciprocal (zero when the determinant is degenerate).
pub open spec fn spec_inverse3<V: Float>(m: Seq<V>) -> Seq<V> {
    let rd = spec_inv_det(spec_determinant3(m));
    seq![
        m[4].mul_spec(m[8]).sub_spec(m[5].mul_spec(m[7])).mul_spec(rd),
        m[7].mul_spec(m[2]).sub_spec(m[8].mul_spec(m[1])).mul_spec(rd),
        m[1].mul_spec(m[5]).sub_spec(m[2].mul_spec(m[4])).mul_spec(rd),
        m[5].mul_spec(m[6]).sub_spec(m[3].mul_spec(m[8])).mul_spec(rd),
        m[8].mul_spec(m[0]).sub_spec(m[6].mul_spec(m[2])).mul_spec(rd),
        m[2].mul_spec(m[3]).sub_spec(m[0].mul_spec(m[5])).mul_spec(rd),
        m[3].mul_spec(m[7]).sub_spec(m[4].mul_spec(m[6])).mul_spec(rd),
        m[6].mul_spec(m[1]).sub_spec(m[7].mul_spec(m[0])).mul_spec(rd),
        m[0].mul_spec(m[4]).sub_spec(m[1].mul_spec(m[3])).mul_spec(rd),
    ]
}

/// Find the inverse of a 3-by-3 matrix; a matrix whose determinant is below
/// epsilon in magnitude gives the zero matrix.
pub fn inverse3<V: Float>(m: &[V; 9]) -> (r: [V; 9])
    ensures
        r@ == spec_inverse3(m@),
{
    let d = determinant3(m);
    let r_d = if V::epsilon().lt(V::abs(d)) {
        V::one().div(d)
    } else {
        V::zero()
    };
    let t0 = m[4].mul(m[8]).sub(m[5].mul(m[7])).mul(r_d);
    let t3 = m[5].mul(m[6]).sub(m[3].mul(m[8])).mul(r_d);
    let t6 = m[3].mul(m[7]).sub(m[4].mul(m[6])).mul(r_d);
    let t1 = m[7].mul(m[2]).sub(m[8].mul(m[1])).mul(r_d);
    let t4 = m[8].mul(m[0]).sub(m[6].mul(m[2])).mul(r_d);
    let t7 = m[6].mul(m[1]).sub(m[7].mul(m[0])).mul(r_d);
    let t2 = m[1].mul(m[5]).sub(m[2].mul(m[4])).mul(r_d);
    let t5 = m[2].mul(m[3]).sub(m[0].mul(m[5])).mul(r_d);
    let t8 = m[0].mul(m[4]).sub(m[1].mul(m[3])).mul(r_d);
    let r = [t0, t1, t2, t3, t4, t5, t6, t7, t8];
    proof {
        assert(r@ =~= spec_inverse3(m@));
    }
    r
}

/// Entry `(i, j)` of the inverse of a 4-by-4 matrix: a signed 3-by-3 cofactor
/// (built from the three other rows and columns, walked cyclically) scaled by
/// the determinant reciprocal.
pub open spec fn spec_inverse4_entry<V: Float>(m: Seq<V>, rd: V, i: int, j: int) -> V {
    let a = ((j + 1) % 4) * 4;
    let b = ((j + 2) % 4) * 4;
    let e = ((j + 3) % 4) * 4;
    let x = (i + 1) % 4;
    let y = (i + 2) % 4;
    let z = (i + 3) % 4;
    let sc = if (i + j) % 2 == 0 {
        V::one_spec()
    } else {
        V::one_spec().neg_spec()
    };
    m[a + x].mul_spec(m[b + y]).sub_spec(m[b + x].mul_spec(m[a + y])).mul_spec(m[e + z]).add_spec(
        m[a + y].mul_spec(m[b + z]).sub_spec(m[b + y].mul_spec(m[a + z])).mul_spec(m[e + x]),
    ).add_spec(
        m[a + z].mul_spec(m[b + x]).sub_spec(m[b + z].mul_spec(m[a + x])).mul_spec(m[e + y]),
    ).mul_spec(sc).mul_spec(rd)
}

/// Find the inverse of a 4-by-4 matrix; a matrix whose determinant is below
/// epsilon in magnitude gives the zero matrix.
#[verifier::rlimit(100)]
pub fn inverse4<V: Float>(m: &[V; 16]) -> (r: [V; 16])
    ensures
        ({
            let d = spec_determinant4(m@);
            if V::epsilon_spec().lt_spec(d.abs_spec()) {
                forall|k: int|
                    0 <= k < 16 ==> r[k] == spec_inverse4_entry(
                        m@,
                        V::one_spec().div_spec(d),
                        k / 4,
                        k % 4,
                    )
            } else {
                forall|k: int| 0 <= k < 16 ==> r[k] == V::zero_spec()
            }
        }),
{
    let d = determinant4(m);
    let mut r: [V; 16] = zero();
    if V::epsilon().lt(V::abs(d)) {
        let r_d = V::one().div(d);
        for j in 0..4
            invariant
                forall|k: int|
                    0 <= k < 16 ==> #[trigger] r[k] == (if k % 4 < j {
                        spec_inverse4_entry(m@, r_d, k / 4, k % 4)
                    } else {
                        V::zero_spec()
                    }),
        {
            for i in 0..4
                invariant
                    j < 4,
                    forall|k: int|
                        0 <= k < 16 ==> #[trigger] r[k] == (if k % 4 < j || (k % 4 == j && k / 4
                            < i) {
                            spec_inverse4_entry(m@, r_d, k / 4, k % 4)
                        } else {
                            V::zero_spec()
                        }),
            {
                let a = ((j + 1) % 4) * 4;
                let b = ((j + 2) % 4) * 4;
                let e = ((j + 3) % 4) * 4;
                let x = (i + 1) % 4;
                let y = (i + 2) % 4;
                let z = (i + 3) % 4;
                let sc = if (i + j) % 2 == 0 {
                    V::one()
                } else {
                    V::one().neg()
                };
                let val = m[a + x].mul(m[b + y]).sub(m[b + x].mul(m[a + y])).mul(m[e + z]).add(
                    m[a + y].mul(m[b + z]).sub(m[b + y].mul(m[a + z])).mul(m[e + x]),
                ).add(m[a + z].mul(m[b + x]).sub(m[b + z].mul(m[a + x])).mul(m[e + y])).mul(
                    sc,
                ).mul(r_d);
                r[i * 4 + j] = val;
            }
        }
    }
    r
}

/// Create a rotation 3-by-3 matrix from a quaternion, stored `[i, j, k, r]`.
///
/// Unlike the conversions in the quaternion module this one does not
/// re-normalize: it assumes a unit quaternion.
pub fn from_quat3<V: Float>(q: [V; 4]) -> (r: [V; 9])
    ensures
        ({
            let x = q[0];
            let y = q[1];
            let z = q[2];
            let w = q[3];
            let two = V::int_spec(2);
            &&& r[0] == V::one_spec().sub_spec(two.mul_spec(y).mul_spec(y)).sub_spec(
                two.mul_spec(z).mul_spec(z),
            )
            &&& r[1] == two.mul_spec(x).mul_spec(y).add_spec(two.mul_spec(z).mul_spec(w))
            &&& r[2] == two.mul_spec(x).mul_spec(z).sub_spec(two.mul_spec(y).mul_spec(w))
            &&& r[3] == two.mul_spec(x).mul_spec(y).sub_spec(two.mul_spec(z).mul_spec(w))
            &&& r[4] == V::one_spec().sub_spec(two.mul_spec(z).mul_spec(z)).sub_spec(
                two.mul_spec(x).mul_spec(x),
            )
            &&& r[5] == two.mul_spec(y).mul_spec(z).add_spec(two.mul_spec(x).mul_spec(w))
            &&& r[6] == two.mul_spec(z).mul_spec(x).add_spec(two.mul_spec(y).mul_spec(w))
            &&& r[7] == two.mul_spec(y).mul_spec(z).sub_spec(two.mul_spec(x).mul_spec(w))
            &&& r[8] == V::one_spec().sub_spec(two.mul_spec(x).mul_spec(x)).sub_spec(
                two.mul_spec(y).mul_spec(y),
            )
        }),
{
    let x = q[0];
    let y = q[1];
    let z = q[2];
    let w = q[3];
    let one = V::one();
    let two = V::of_int(2);
    let t0 = one.sub(two.mul(y).mul(y)).sub(two.mul(z).mul(z));
    let t1 = two.mul(x).mul(y).add(two.mul(z).mul(w));
    let t2 = two.mul(x).mul(z).sub(two.mul(y).mul(w));
    let t3 = two.mul(x).mul(y).sub(two.mul(z).mul(w));
    let t4 = one.sub(two.mul(z).mul(z)).sub(two.mul(x).mul(x));
    let t5 = two.mul(y).mul(z).add(two.mul(x).mul(w));
    let t6 = two.mul(z).mul(x).add(two.mul(y).mul(w));
    let t7 = two.mul(y).mul(z).sub(two.mul(x).mul(w));
    let t8 = one.sub(two.mul(x).mul(x)).sub(two.mul(y).mul(y));
    [t0, t1, t2, t3, t4, t5, t6, t7, t8]
}

/// Create a rotation 4-by-4 matrix from a quaternion, stored `[i, j, k, r]`.
///
/// The rotation fills the top-left 3-by-3 block; the translation row and
/// column are zero and the bottom-right entry is one.
pub fn from_quat4<V: Float>(q: [V; 4]) -> (r: [V; 16])
    ensures
        ({
            let x = q[0];
            let y = q[1];
            let z = q[2];
            let w = q[3];
            let two = V::int_spec(2);
            &&& r[0] == V::one_spec().sub_spec(two.mul_spec(y).mul_spec(y)).sub_spec(
                two.mul_spec(z).mul_spec(z),
            )
            &&& r[1] == two.mul_spec(x).mul_spec(y).add_spec(two.mul_spec(z).mul_spec(w))
            &&& r[2] == two.mul_spec(x).mul_spec(z).sub_spec(two.mul_spec(y).mul_spec(w))
            &&& r[4] == two.mul_spec(x).mul_spec(y).sub_spec(two.mul_spec(z).mul_spec(w))
            &&& r[5] == V::one_spec().sub_spec(two.mul_spec(z).mul_spec(z)).sub_spec(
                two.mul_spec(x).mul_spec(x),
            )
            &&& r[6] == two.mul_spec(y).mul_spec(z).add_spec(two.mul_spec(x).mul_spec(w))
            &&& r[8] == two.mul_spec(z).mul_spec(x).add_spec(two.mul_spec(y).mul_spec(w))
            &&& r[9] == two.mul_spec(y).mul_spec(z).sub_spec(two.mul_spec(x).mul_spec(w))
            &&& r[10] == V::one_spec().sub_spec(two.mul_spec(x).mul_spec(x)).sub_spec(
                two.mul_spec(y).mul_spec(y),
            )
            &&& r[3] == V::zero_spec()
            &&& r[7] == V::zero_spec()
            &&& r[11] == V::zero_spec()
            &&& r[12] == V::zero_spec()
            &&& r[13] == V::zero_spec()
            &&& r[14] == V::zero_spec()
            &&& r[15] == V::one_spec()
        }),
{
    let x = q[0];
    let y = q[1];
    let z = q[2];
    let w = q[3];
    let one = V::one();
    let two = V::of_int(2);
    let zr = V::zero();
    let t0 = one.sub(two.mul(y).mul(y)).sub(two.mul(z).mul(z));
    let t1 = two.mul(x).mul(y).add(two.mul(z).mul(w));
    let t2 = two.mul(x).mul(z).sub(two.mul(y).mul(w));
    let t4 = two.mul(x).mul(y).sub(two.mul(z).mul(w));
    let t5 = one.sub(two.mul(z).mul(z)).sub(two.mul(x).mul(x));
    let t6 = two.mul(y).mul(z).add(two.mul(x).mul(w));
    let t8 = two.mul(z).mul(x).add(two.mul(y).mul(w));
    let t9 = two.mul(y).mul(z).sub(two.mul(x).mul(w));
    let t10 = one.sub(two.mul(x).mul(x)).sub(two.mul(y).mul(y));
    [t0, t1, t2, zr, t4, t5, t6, zr, t8, t9, t10, zr, zr, zr, zr, one]
}

/// Translate a 4-by-4 matrix by a vector - standard graphics approach.
///
/// Same as postmultiplying by the matrix that is the identity with `v` as its
/// bottom row: only the bottom row of the result changes.
pub fn translate4<V: Num>(m: &[V; 16], v: &[V; 4]) -> (r: [V; 16])
    ensures
        forall|k: int| 0 <= k < 12 ==> r[k] == m[k],
        forall|k: int|
            12 <= k < 16 ==> r[k] == m[k - 12].mul_spec(v[0]).add_spec(
                m[k - 8].mul_spec(v[1]),
            ).add_spec(m[k - 4].mul_spec(v[2])).add_spec(m[k]),
{
    let t12 = m[0].mul(v[0]).add(m[4].mul(v[1])).add(m[8].mul(v[2])).add(m[12]);
    let t13 = m[1].mul(v[0]).add(m[5].mul(v[1])).add(m[9].mul(v[2])).add(m[13]);
    let t14 = m[2].mul(v[0]).add(m[6].mul(v[1])).add(m[10].mul(v[2])).add(m[14]);
    let t15 = m[3].mul(v[0]).add(m[7].mul(v[1])).add(m[11].mul(v[2])).add(m[15]);
    [
        m[0],
        m[1],
        m[2],
        m[3],
        m[4],
        m[5],
        m[6],
        m[7],
        m[8],
        m[9],
        m[10],
        m[11],
        t12,
        t13,
        t14,
        t15,
    ]
}

/// Create a perspective graphics matrix.
pub fn perspective4<V: Float>(fov: V, aspect: V, near: V, far: V) -> (r: [V; 16])
    ensures
        ({
            let two = V::int_spec(2);
            let f = V::one_spec().div_spec(fov.div_spec(two).tan_spec());
            let nf = V::one_spec().div_spec(near.sub_spec(far));
            &&& r[0] == f.div_spec(aspect)
            &&& r[5] == f
            &&& r[10] == far.add_spec(near).mul_spec(nf)
            &&& r[11] == V::one_spec().neg_spec()
            &&& r[14] == two.mul_spec(far).mul_spec(near).mul_spec(nf)
            &&& forall|k: int|
                0 <= k < 16 && k != 0 && k != 5 && k != 10 && k != 11 && k != 14 ==> r[k]
                    == V::zero_spec()
        }),
{
    let two = V::of_int(2);
    let f = V::one().div(fov.div(two).tan());
    let nf = V::one().div(near.sub(far));
    let zr = V::zero();
    let t0 = f.div(aspect);
    let t10 = far.add(near).mul(nf);
    let t11 = V::one().neg();
    let t14 = two.mul(far).mul(near).mul(nf);
    [t0, zr, zr, zr, zr, f, zr, zr, zr, zr, t10, t11, zr, zr, t14, zr]
}

/// The normalization of a 3-vector, at the spec level: zero when the length
/// is below epsilon, the vector scaled to unit length otherwise.
pub open spec fn spec_normalize3<V: Float>(v: Seq<V>) -> Seq<V> {
    let l = vector::spec_dot(v, v, 3).sqrt_spec();
    if l.lt_spec(V::epsilon_spec()) {
        seq![V::zero_spec(), V::zero_spec(), V::zero_spec()]
    } else {
        seq![v[0].div_spec(l), v[1].div_spec(l), v[2].div_spec(l)]
    }
}

/// The cross product of two 3-vectors, at the spec level.
pub open spec fn spec_cross3<V: Num>(x: Seq<V>, y: Seq<V>) -> Seq<V> {
    seq![
        x[1].mul_spec(y[2]).sub_spec(x[2].mul_spec(y[1])),
        x[2].mul_spec(y[0]).sub_spec(x[0].mul_spec(y[2])),
        x[0].mul_spec(y[1]).sub_spec(x[1].mul_spec(y[0])),
    ]
}

/// The rows of the look-at rotation: the camera side axis, the recomputed up
/// axis, and the negated (normalized) view direction.
pub open spec fn spec_look_at3<V: Float>(dirn: Seq<V>, up: Seq<V>) -> Seq<V> {
    let f = spec_normalize3::<V>(dirn);
    let s = spec_normalize3::<V>(spec_cross3(f, up));
    let u = spec_cross3(s, f);
    seq![
        s[0],
        s[1],
        s[2],
        u[0],
        u[1],
        u[2],
        f[0].neg_spec(),
        f[1].neg_spec(),
        f[2].neg_spec(),
    ]
}

/// Create the rotation matrix that maps the unit vector `dirn` to `(0,0,-1)`
/// and a unit `up` perpendicular to it to `(0,1,0)`: the standard camera
/// basis, built from the normalized direction, the side axis (their cross
/// product) and the recomputed up axis.
pub fn look_at3<V: Float>(dirn: &[V; 3], up: &[V; 3]) -> (r: [V; 9])
    ensures
        r@ =~= spec_look_at3(dirn@, up@),
{
    let f = vector::normalize(*dirn);
    let cp = vector::cross_product3(&f, up);
    let s = vector::normalize(cp);
    let u = vector::cross_product3(&s, &f);
    proof {
        assert(f@ =~= spec_normalize3(dirn@));
        assert(cp@ =~= spec_cross3(f@, up@));
        assert(s@ =~= spec_normalize3::<V>(spec_cross3(f@, up@)));
        assert(u@ =~= spec_cross3(s@, f@));
    }
    [s[0], s[1], s[2], u[0], u[1], u[2], f[0].neg(), f[1].neg(), f[2].neg()]
}

} // verus!
