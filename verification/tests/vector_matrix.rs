//! Vector and matrix behaviour, on the integer scalar and the fixed-point
//! scalar.

use geo_nd::fixed::Fx;
use geo_nd::matrix;
use geo_nd::quat;
use geo_nd::vector;
use geo_nd::Float;
use geo_nd::Num;

fn fx(n: isize) -> Fx {
    Fx::of_int(n)
}

fn close(a: Fx, b: Fx, tol_bits: i64) -> bool {
    (a.bits - b.bits).abs() <= tol_bits
}

const TOL: i64 = 40000;

#[test]
fn integer_vector_arithmetic() {
    let a: [i64; 3] = [3, 4, 5];
    let b: [i64; 3] = [2, 17, 1];
    assert_eq!(vector::dot(&a, &b), 3 * 2 + 4 * 17 + 5);
    assert_eq!(vector::length_sq(&a), 50);
    assert_eq!(vector::distance_sq(&[1, -1], &[4, 3]), 25);
    assert_eq!(vector::add([3, 1], &[2, 3], 3), [9, 10]);
    assert_eq!(vector::sub([3, 1], &[2, 3], 1), [1, -2]);
    assert_eq!(vector::scale([1, 2, 3], 2), [2, 4, 6]);
    assert_eq!(vector::reduce([2, 4, 6], 2), [1, 2, 3]);
    assert_eq!(vector::comp_mult([2, 4, 6], &[1, 0, 2]), [2, 0, 12]);
    let x: [i64; 3] = [1, 0, 0];
    let y: [i64; 3] = [0, 1, 0];
    assert_eq!(vector::cross_product3(&x, &y), [0, 0, 1]);
    let mut v: [i64; 3] = [1, 2, 3];
    assert!(!vector::is_zero(&v));
    vector::set_zero(&mut v);
    assert!(vector::is_zero(&v));
    assert_eq!(vector::zero::<i64, 4>(), [0; 4]);
}

#[test]
fn fixed_vector_normalize_and_mix() {
    let n = vector::normalize([fx(3), fx(4)]);
    assert!(close(n[0], Fx::frac(3, 5), TOL));
    assert!(close(n[1], Fx::frac(4, 5), TOL));
    assert_eq!(vector::normalize([fx(0), fx(0)]), [fx(0), fx(0)]);
    let m = vector::mix(&[fx(3), fx(1)], &[fx(2), fx(3)], Fx::frac(1, 2));
    assert!(close(m[0], Fx::frac(5, 2), TOL));
    assert!(close(m[1], fx(2), TOL));
    assert_eq!(vector::clamp([fx(-1), fx(3)], fx(0), fx(1)), [fx(0), fx(1)]);
    assert!(close(vector::length(&[fx(3), fx(4)]), fx(5), TOL));
    assert!(close(vector::distance(&[fx(1), fx(-1)], &[fx(4), fx(3)]), fx(5), TOL));
}

#[test]
fn matrix_identity_and_determinant() {
    let i2: [i64; 4] = matrix::identity2();
    assert_eq!(i2, [1, 0, 0, 1]);
    let i3: [i64; 9] = matrix::identity3();
    assert_eq!(i3, [1, 0, 0, 0, 1, 0, 0, 0, 1]);
    let i4: [i64; 16] = matrix::identity4();
    assert_eq!(matrix::determinant2(&i2), 1);
    assert_eq!(matrix::determinant3(&i3), 1);
    assert_eq!(matrix::determinant4(&i4), 1);
    assert_eq!(matrix::determinant2(&[1, 2, 7, 2]), 2 - 14);
    assert_eq!(matrix::determinant3(&[2, 0, 0, 0, 3, 0, 0, 0, 4]), 24);
}

#[test]
fn matrix_multiply_and_transpose() {
    let a = [fx(1), fx(2), fx(3), fx(4)];
    let id: [Fx; 4] = matrix::identity2();
    assert_eq!(matrix::multiply2(&a, &id), a);
    assert_eq!(matrix::multiply2(&id, &a), a);
    let t = matrix::transpose::<Fx, 4, 2, 2>(a);
    assert_eq!(t, [fx(1), fx(3), fx(2), fx(4)]);
    let v = matrix::transform_vec2(&a, &[fx(1), fx(1)]);
    assert_eq!(v, [fx(3), fx(7)]);
}

#[test]
fn matrix_inverse_round_trip() {
    let a = [fx(1), fx(2), fx(7), fx(2)];
    let ai = matrix::inverse2(&a);
    let prod = matrix::multiply2(&ai, &a);
    let id: [Fx; 4] = matrix::identity2();
    for k in 0..4 {
        assert!(close(prod[k], id[k], TOL));
    }
    let b = [fx(1), fx(3), fx(2), fx(0), fx(2), fx(3), fx(-1), fx(2), fx(3)];
    let bi = matrix::inverse3(&b);
    let prod3 = matrix::multiply3(&bi, &b);
    let id3: [Fx; 9] = matrix::identity3();
    for k in 0..9 {
        assert!(close(prod3[k], id3[k], 4 * TOL));
    }
    // a singular matrix inverts to zero
    let s = [fx(1), fx(2), fx(2), fx(4)];
    assert_eq!(matrix::inverse2(&s), [fx(0); 4]);
}

#[test]
fn matrix_scale_add_absmax() {
    let m = [fx(1), fx(-5), fx(2), fx(3)];
    assert_eq!(matrix::absmax(&m), fx(5));
    assert_eq!(matrix::scale(m, fx(2)), [fx(2), fx(-10), fx(4), fx(6)]);
    assert_eq!(matrix::add(m, &m, fx(1)), [fx(2), fx(-10), fx(4), fx(6)]);
    assert_eq!(matrix::sub(m, &m, fx(1)), [fx(0); 4]);
    let n = matrix::normalize::<Fx, 4, 2>(m);
    assert!(close(n[1], fx(-1), TOL));
}

#[test]
fn translate_matrix() {
    let id: [i64; 16] = matrix::identity4();
    let t = matrix::translate4(&id, &[5, 6, 7, 1]);
    assert_eq!(t[12], 5);
    assert_eq!(t[13], 6);
    assert_eq!(t[14], 7);
    assert_eq!(t[15], 1);
    assert_eq!(t[0], 1);
    assert_eq!(t[5], 1);
}

#[test]
fn rotation_matrix_from_quaternion_agrees_with_apply() {
    // transforming by the converted matrix agrees with applying the quaternion
    let q = quat::normalize([fx(1), fx(2), fx(3), fx(4)]);
    let mut m = [fx(0); 9];
    quat::to_rotation3(&q, &mut m);
    let v = [fx(1), fx(1), fx(1)];
    let mv = matrix::transform_vec3(&m, &v);
    let qv = quat::apply3(&q, &v);
    for k in 0..3 {
        assert!(close(mv[k], qv[k], TOL));
    }
    // the 4x4 embedding keeps the homogeneous coordinate
    let mut m4 = [fx(0); 16];
    quat::to_rotation4(&q, &mut m4);
    assert_eq!(m4[15], fx(1));
    assert_eq!(m4[3], fx(0));
    let v4 = [fx(1), fx(1), fx(1), fx(1)];
    let mv4 = matrix::transform_vec4(&m4, &v4);
    let qv4 = quat::apply4(&q, &v4);
    for k in 0..4 {
        assert!(close(mv4[k], qv4[k], TOL));
    }
}

#[test]
fn axis_of_rotation_recovers_axis() {
    // a quarter turn about z has the z axis as its axis of rotation
    let z = [fx(0), fx(0), fx(1)];
    let q = quat::of_axis_angle(&z, Fx::pi().div(fx(2)));
    let mut m = [fx(0); 9];
    quat::to_rotation3(&q, &mut m);
    let axis = vector::axis_of_rotation3(&m);
    assert!(close(axis[0], fx(0), 8 * TOL));
    assert!(close(axis[1], fx(0), 8 * TOL));
    assert!(close(axis[2].abs(), fx(1), 8 * TOL));
}

#[test]
fn rotate_around_pivot() {
    // rotate (3,4) a quarter turn about the pivot (3,3)
    let ra = Fx::pi().div(fx(2));
    let r = vector::rotate_around([fx(3), fx(4)], &[fx(3), fx(3)], ra, 0, 1);
    assert!(close(r[0], fx(2), TOL));
    assert!(close(r[1], fx(3), TOL));
}

#[test]
fn perspective_matrix_entries() {
    // a 90 degree field of view makes the focal entries one
    let fov = Fx::pi().div(fx(2));
    let p = matrix::perspective4(fov, fx(1), fx(1), fx(3));
    assert!(close(p[0], fx(1), TOL));
    assert!(close(p[5], fx(1), TOL));
    assert!(close(p[11], fx(-1), TOL));
    // (far+near)/(near-far) and 2*far*near/(near-far)
    assert!(close(p[10], fx(-2), TOL));
    assert!(close(p[14], fx(-3), TOL));
    assert_eq!(p[1], fx(0));
    assert_eq!(p[15], fx(0));
}

#[test]
fn quaternion_matrix_builders() {
    // from_quat3 on the identity quaternion gives the identity matrix
    let q = [fx(0), fx(0), fx(0), fx(1)];
    let m3 = matrix::from_quat3(q);
    let id3: [Fx; 9] = matrix::identity3();
    assert_eq!(m3, id3);
    let m4 = matrix::from_quat4(q);
    let id4: [Fx; 16] = matrix::identity4();
    assert_eq!(m4, id4);
    // nlerp halfway between identity and itself is the identity
    let n = quat::nlerp(Fx::frac(1, 2), &q, &q);
    for k in 0..4 {
        assert!(close(n[k], q[k], TOL));
    }
}

#[test]
fn matrix_inverse4_round_trip() {
    let b = [
        fx(1),
        fx(0),
        fx(0),
        fx(0),
        fx(0),
        fx(2),
        fx(0),
        fx(0),
        fx(0),
        fx(0),
        fx(1),
        fx(1),
        fx(0),
        fx(0),
        fx(0),
        fx(1),
    ];
    let bi = matrix::inverse4(&b);
    let prod = matrix::multiply4(&bi, &b);
    let id4: [Fx; 16] = matrix::identity4();
    for k in 0..16 {
        assert!(close(prod[k], id4[k], 4 * TOL));
    }
}
