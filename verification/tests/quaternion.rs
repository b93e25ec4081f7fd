//! Quaternion behaviour on the crate's fixed-point scalar.

use geo_nd::fixed::Fx;
use geo_nd::fixed::SCALE;
use geo_nd::quat;
use geo_nd::Float;
use geo_nd::Num;

fn fx(n: isize) -> Fx {
    Fx::of_int(n)
}

fn fr(n: isize, d: usize) -> Fx {
    Fx::frac(n, d)
}

fn close(a: Fx, b: Fx, tol_bits: i64) -> bool {
    (a.bits - b.bits).abs() <= tol_bits
}

fn quat_close(a: &[Fx; 4], b: &[Fx; 4], tol_bits: i64) -> bool {
    let direct = (0..4).all(|i| close(a[i], b[i], tol_bits));
    let negated = (0..4).all(|i| close(a[i], b[i].neg(), tol_bits));
    direct || negated
}

fn vec_close(a: &[Fx; 3], b: &[Fx; 3], tol_bits: i64) -> bool {
    (0..3).all(|i| close(a[i], b[i], tol_bits))
}

const TOL: i64 = 40000; // about 2.4e-3 in value

#[test]
fn identity_quaternion() {
    let q: [Fx; 4] = quat::identity();
    assert_eq!(q, [fx(0), fx(0), fx(0), fx(1)]);
    assert_eq!(quat::new::<Fx>(), q);
    let (r, i, j, k) = quat::as_rijk(&q);
    assert_eq!((r, i, j, k), (fx(1), fx(0), fx(0), fx(0)));
    assert_eq!(quat::of_rijk(r, i, j, k), q);
    assert_eq!(quat::conjugate(&q), q);
}

#[test]
fn axis_angle_zero_is_identity() {
    // a zero angle about any nonzero axis gives the identity quaternion
    let axes = [
        [fx(1), fx(0), fx(0)],
        [fx(0), fx(1), fx(0)],
        [fx(0), fx(0), fx(1)],
        [fx(3), fx(-4), fx(12)],
    ];
    for axis in axes.iter() {
        let q = quat::of_axis_angle(axis, fx(0));
        assert_eq!(q, [fx(0), fx(0), fx(0), fx(1)]);
    }
}

#[test]
fn quarter_turn_about_x() {
    // rotating (0,1,0) by 90 degrees about x gives (0,0,1); (0,0,1) gives (0,-1,0)
    let x = [fx(1), fx(0), fx(0)];
    let ra = Fx::pi().div(fx(2));
    let q = quat::of_axis_angle(&x, ra);
    let rsqrt2 = fr(1, 2).sqrt();
    assert!(quat_close(&q, &[rsqrt2, fx(0), fx(0), rsqrt2], TOL));
    let y = [fx(0), fx(1), fx(0)];
    let z = [fx(0), fx(0), fx(1)];
    assert!(vec_close(&quat::apply3(&q, &y), &[fx(0), fx(0), fx(1)], TOL));
    assert!(vec_close(&quat::apply3(&q, &z), &[fx(0), fx(-1), fx(0)], TOL));
    assert!(vec_close(&quat::apply3(&q, &x), &x, TOL));
}

#[test]
fn rotation_matrix_round_trip_identity() {
    // (r=1,i=0,j=0,k=0) converts to the exact 3x3 identity matrix and back
    let q = quat::of_rijk(fx(1), fx(0), fx(0), fx(0));
    let mut m = [fx(0); 9];
    quat::to_rotation3(&q, &mut m);
    let id: [Fx; 9] = geo_nd::matrix::identity3();
    assert_eq!(m, id);
    let back = quat::of_rotation(&m);
    assert_eq!(back, q);
}

#[test]
fn rotation_matrix_round_trip_general() {
    // of_rotation(to_rotation3(q)) recovers q up to the global sign
    for raw in [[fx(1), fx(2), fx(3), fx(4)], [fx(4), fx(3), fx(2), fx(1)], [
        fx(-2),
        fx(1),
        fx(0),
        fx(2),
    ]] {
        let q = quat::normalize(raw);
        let mut m = [fx(0); 9];
        quat::to_rotation3(&q, &mut m);
        let back = quat::of_rotation(&m);
        assert!(quat_close(&back, &q, TOL));
    }
}

#[test]
fn rotation_preserves_length() {
    // |apply3(q, v)| equals |v| for a unit quaternion
    let q = quat::normalize([fx(1), fx(2), fx(3), fx(4)]);
    let v = [fx(2), fx(-3), fx(6)];
    let rotated = quat::apply3(&q, &v);
    let before = geo_nd::vector::length_sq(&v);
    let after = geo_nd::vector::length_sq(&rotated);
    assert!(close(before, after, TOL));
}

#[test]
fn conjugate_undoes_rotation() {
    // apply3(q, apply3(conjugate(q), v)) gives v back for unit q
    let q = quat::normalize([fx(3), fx(-1), fx(2), fx(5)]);
    let cq = quat::conjugate(&q);
    let v = [fx(1), fx(2), fx(-2)];
    let there = quat::apply3(&cq, &v);
    let back = quat::apply3(&q, &there);
    assert!(vec_close(&back, &v, TOL));
}

#[test]
fn multiply_composes_rotations() {
    // multiply(a, b) applied to v equals apply3(a, apply3(b, v))
    let a = quat::normalize([fx(1), fx(0), fx(2), fx(3)]);
    let b = quat::normalize([fx(0), fx(2), fx(-1), fx(4)]);
    let v = [fx(3), fx(1), fx(-2)];
    let ab = quat::multiply(&a, &b);
    let chained = quat::apply3(&a, &quat::apply3(&b, &v));
    let direct = quat::apply3(&ab, &v);
    assert!(vec_close(&direct, &chained, TOL));
}

#[test]
fn double_angle_and_full_turn() {
    // rotating twice by theta about x equals rotating by 2*theta; twelve
    // 30-degree steps come back to the identity
    let x = [fx(1), fx(0), fx(0)];
    let theta = fr(1, 2);
    let q1 = quat::of_axis_angle(&x, theta);
    let q2 = quat::of_axis_angle(&x, fx(1));
    let twice = quat::multiply(&q1, &q1);
    assert!(quat_close(&twice, &q2, TOL));

    let axis = [fx(1), fx(1), fx(1)];
    let step = quat::of_axis_angle(&axis, Fx::pi().div(fx(6)));
    let mut total = quat::identity();
    for _ in 0..12 {
        total = quat::multiply(&total, &step);
    }
    assert!(quat_close(&total, &quat::identity(), 4 * TOL));
}

#[test]
fn divide_by_near_zero_gives_zero() {
    // dividing by a quaternion of near-zero magnitude returns all zeros
    let a = quat::normalize([fx(1), fx(2), fx(3), fx(4)]);
    let tiny = [Fx::from_bits(1), fx(0), fx(0), Fx::from_bits(1)];
    assert_eq!(quat::divide(&a, &tiny), [fx(0); 4]);
    // and dividing by itself gives the identity
    let whole = quat::divide(&a, &a);
    assert!(quat_close(&whole, &quat::identity(), TOL));
}

#[test]
fn weighted_average_of_equal_halves() {
    // averaging a unit quaternion with itself, half and half, is a no-op
    let q = quat::normalize([fx(1), fx(2), fx(3), fx(4)]);
    let avg = quat::weighted_average(&q, fr(1, 2), &q, fr(1, 2));
    assert!(quat_close(&avg, &q, TOL));
}

#[test]
fn weighted_average_many_basics() {
    let q = quat::normalize([fx(1), fx(2), fx(3), fx(4)]);
    let single = quat::weighted_average_many(&[(fx(3), q)]);
    assert_eq!(single, q);
    let trio = quat::weighted_average_many(&[(fx(1), q), (fx(1), q), (fx(1), q)]);
    assert!(quat_close(&trio, &q, TOL));
}

#[test]
fn invert_and_multiply() {
    // q * invert(q) is the identity for a unit quaternion
    let q = quat::normalize([fx(2), fx(-1), fx(1), fx(3)]);
    let qi = quat::invert(&q);
    let prod = quat::multiply(&q, &qi);
    assert!(quat_close(&prod, &quat::identity(), TOL));
    assert!(close(quat::distance_sq(&q, &q), fx(0), TOL));
}

#[test]
fn look_at_maps_direction_to_forward() {
    let z = [fx(0), fx(0), fx(1)];
    let y = [fx(0), fx(1), fx(0)];
    let q = quat::look_at(&z, &y);
    assert!(vec_close(&quat::apply3(&q, &z), &[fx(0), fx(0), fx(-1)], TOL));
    assert!(vec_close(&quat::apply3(&q, &y), &y, TOL));
}

#[test]
fn axis_angle_round_trip() {
    let axis = [fx(1), fx(0), fx(0)];
    let angle = fx(1);
    let q = quat::of_axis_angle(&axis, angle);
    // as_axis_angle inverts of_axis_angle: the full rotation angle comes back
    let (back_axis, back_angle) = quat::as_axis_angle(&q);
    assert!(vec_close(&back_axis, &axis, 8 * TOL));
    assert!(close(back_angle, angle, 8 * TOL));
    // get_axis_angle agrees, through the inverse cosine of the real part
    let (axis2, full_angle) = quat::get_axis_angle(&q);
    assert!(vec_close(&axis2, &axis, 8 * TOL));
    assert!(close(full_angle, angle, 8 * TOL));
}

#[test]
fn euler_of_identity_is_zero() {
    let q: [Fx; 4] = quat::identity();
    let (bank, heading, attitude) = quat::to_euler(&q);
    assert!(close(bank, fx(0), TOL));
    assert!(close(heading, fx(0), TOL));
    assert!(close(attitude, fx(0), TOL));
}

#[test]
fn rotation_of_vec_to_vec_quarter() {
    // the rotation mapping x to y is a quarter turn about z
    let x = [fx(1), fx(0), fx(0)];
    let y = [fx(0), fx(1), fx(0)];
    let q = quat::get_rotation_of_vec_to_vec(&x, &y);
    assert!(vec_close(&quat::apply3(&q, &x), &y, 8 * TOL));
    // and the obtuse case picks the supplement of the principal angle
    let mx = [fx(-1), fx(0), fx(0)];
    let diag = geo_nd::vector::normalize([fx(1), fx(1), fx(0)]);
    let q2 = quat::get_rotation_of_vec_to_vec(&diag, &mx);
    assert!(vec_close(&quat::apply3(&q2, &diag), &mx, 8 * TOL));
}

fn rijk(r: Fx, i: Fx, j: Fx, k: Fx) -> [Fx; 4] {
    quat::of_rijk(r, i, j, k)
}

fn unit3(v: [Fx; 3]) -> [Fx; 3] {
    geo_nd::vector::normalize(v)
}

#[test]
fn axis_angle_expected_components() {
    // quarter and half turns about each principal and diagonal axis
    let ra = Fx::pi().div(fx(2));
    let rsqrt2 = fr(1, 2).sqrt();
    let half = fr(1, 2);
    let x = [fx(1), fx(0), fx(0)];
    let y = [fx(0), fx(1), fx(0)];
    let z = [fx(0), fx(0), fx(1)];
    let xy = unit3([fx(1), fx(1), fx(0)]);
    let yz = unit3([fx(0), fx(1), fx(1)]);
    let xz = unit3([fx(1), fx(0), fx(1)]);

    let two_ra = ra.add(ra);
    assert!(quat_close(&quat::of_axis_angle(&x, ra), &rijk(rsqrt2, rsqrt2, fx(0), fx(0)), TOL));
    assert!(quat_close(&quat::of_axis_angle(&x, two_ra), &rijk(fx(0), fx(1), fx(0), fx(0)), TOL));
    assert!(quat_close(&quat::of_axis_angle(&y, ra), &rijk(rsqrt2, fx(0), rsqrt2, fx(0)), TOL));
    assert!(quat_close(&quat::of_axis_angle(&y, two_ra), &rijk(fx(0), fx(0), fx(1), fx(0)), TOL));
    assert!(quat_close(&quat::of_axis_angle(&z, ra), &rijk(rsqrt2, fx(0), fx(0), rsqrt2), TOL));
    assert!(quat_close(&quat::of_axis_angle(&z, two_ra), &rijk(fx(0), fx(0), fx(0), fx(1)), TOL));
    assert!(quat_close(&quat::of_axis_angle(&xy, ra), &rijk(rsqrt2, half, half, fx(0)), TOL));
    assert!(quat_close(&quat::of_axis_angle(&yz, ra), &rijk(rsqrt2, fx(0), half, half), TOL));
    assert!(quat_close(&quat::of_axis_angle(&xz, ra), &rijk(rsqrt2, half, fx(0), half), TOL));
}

#[test]
fn apply_basis_quaternions() {
    // the pure-i, pure-j and pure-k unit quaternions are half turns about
    // their axes
    let x = [fx(1), fx(0), fx(0)];
    let y = [fx(0), fx(1), fx(0)];
    let z = [fx(0), fx(0), fx(1)];

    let qi = rijk(fx(0), fx(1), fx(0), fx(0));
    assert!(vec_close(&quat::apply3(&qi, &x), &[fx(1), fx(0), fx(0)], TOL));
    assert!(vec_close(&quat::apply3(&qi, &y), &[fx(0), fx(-1), fx(0)], TOL));
    assert!(vec_close(&quat::apply3(&qi, &z), &[fx(0), fx(0), fx(-1)], TOL));
    assert_eq!(quat::conjugate(&qi), rijk(fx(0), fx(-1), fx(0), fx(0)));
    assert_eq!(geo_nd::vector::length_sq(&qi), fx(1));

    let qj = rijk(fx(0), fx(0), fx(1), fx(0));
    assert!(vec_close(&quat::apply3(&qj, &x), &[fx(-1), fx(0), fx(0)], TOL));
    assert!(vec_close(&quat::apply3(&qj, &y), &[fx(0), fx(1), fx(0)], TOL));
    assert!(vec_close(&quat::apply3(&qj, &z), &[fx(0), fx(0), fx(-1)], TOL));
    assert_eq!(quat::conjugate(&qj), rijk(fx(0), fx(0), fx(-1), fx(0)));

    let qk = rijk(fx(0), fx(0), fx(0), fx(1));
    assert!(vec_close(&quat::apply3(&qk, &x), &[fx(-1), fx(0), fx(0)], TOL));
    assert!(vec_close(&quat::apply3(&qk, &y), &[fx(0), fx(-1), fx(0)], TOL));
    assert!(vec_close(&quat::apply3(&qk, &z), &[fx(0), fx(0), fx(1)], TOL));
    assert_eq!(quat::conjugate(&qk), rijk(fx(0), fx(0), fx(0), fx(-1)));

    let q1 = rijk(fx(1), fx(1), fx(1), fx(1));
    assert_eq!(geo_nd::vector::length_sq(&q1), fx(4));
    assert_eq!(quat::conjugate(&q1), rijk(fx(1), fx(-1), fx(-1), fx(-1)));
}

#[test]
fn quarter_turn_products() {
    // all six ordered products of distinct 90-degree principal rotations
    let ra = Fx::pi().div(fx(2));
    let x = [fx(1), fx(0), fx(0)];
    let y = [fx(0), fx(1), fx(0)];
    let z = [fx(0), fx(0), fx(1)];
    let x90 = quat::of_axis_angle(&x, ra);
    let y90 = quat::of_axis_angle(&y, ra);
    let z90 = quat::of_axis_angle(&z, ra);
    let half = fr(1, 2);

    let t1 = quat::multiply(&x90, &y90);
    assert!(quat_close(&t1, &rijk(half, half, half, half), TOL));
    assert!(quat_close(&quat::multiply(&z90, &x90), &rijk(half, half, half, half), TOL));
    assert!(quat_close(&quat::multiply(&y90, &z90), &rijk(half, half, half, half), TOL));
    assert!(vec_close(&quat::apply3(&t1, &x), &y, TOL));
    assert!(vec_close(&quat::apply3(&t1, &y), &z, TOL));
    assert!(vec_close(&quat::apply3(&t1, &z), &x, TOL));

    let t2 = quat::multiply(&y90, &x90);
    assert!(quat_close(&t2, &rijk(half, half, half, half.neg()), TOL));
    assert!(quat_close(&quat::multiply(&x90, &z90), &rijk(half, half, half.neg(), half), TOL));
    assert!(quat_close(&quat::multiply(&z90, &y90), &rijk(half, half.neg(), half, half), TOL));
    assert!(vec_close(&quat::apply3(&t2, &x), &[fx(0), fx(0), fx(-1)], TOL));
    assert!(vec_close(&quat::apply3(&t2, &y), &x, TOL));
    assert!(vec_close(&quat::apply3(&t2, &z), &[fx(0), fx(-1), fx(0)], TOL));
}

#[test]
fn quarter_turn_quotients() {
    // all six ordered quotients of distinct 90-degree principal rotations
    let ra = Fx::pi().div(fx(2));
    let x = [fx(1), fx(0), fx(0)];
    let y = [fx(0), fx(1), fx(0)];
    let z = [fx(0), fx(0), fx(1)];
    let x90 = quat::of_axis_angle(&x, ra);
    let y90 = quat::of_axis_angle(&y, ra);
    let z90 = quat::of_axis_angle(&z, ra);
    let half = fr(1, 2);

    let t1 = quat::divide(&x90, &y90);
    assert!(quat_close(&t1, &rijk(half, half, half.neg(), half.neg()), TOL));
    assert!(quat_close(
        &quat::divide(&z90, &x90),
        &rijk(half, half.neg(), half.neg(), half),
        TOL
    ));
    assert!(quat_close(
        &quat::divide(&y90, &z90),
        &rijk(half, half.neg(), half, half.neg()),
        TOL
    ));
    assert!(vec_close(&quat::apply3(&t1, &x), &[fx(0), fx(-1), fx(0)], TOL));
    assert!(vec_close(&quat::apply3(&t1, &y), &z, TOL));
    assert!(vec_close(&quat::apply3(&t1, &z), &[fx(-1), fx(0), fx(0)], TOL));

    let t2 = quat::divide(&y90, &x90);
    assert!(quat_close(&t2, &rijk(half, half.neg(), half, half), TOL));
    assert!(quat_close(&quat::divide(&x90, &z90), &rijk(half, half, half, half.neg()), TOL));
    assert!(quat_close(&quat::divide(&z90, &y90), &rijk(half, half, half.neg(), half), TOL));
    assert!(vec_close(&quat::apply3(&t2, &x), &[fx(0), fx(0), fx(-1)], TOL));
    assert!(vec_close(&quat::apply3(&t2, &y), &[fx(-1), fx(0), fx(0)], TOL));
    assert!(vec_close(&quat::apply3(&t2, &z), &y, TOL));
}

#[test]
fn twelve_steps_every_axis() {
    // twelve 30-degree steps return to the identity about every axis
    let step_angle = Fx::pi().div(fx(6));
    let axes = [
        [fx(1), fx(0), fx(0)],
        [fx(0), fx(1), fx(0)],
        [fx(0), fx(0), fx(1)],
        unit3([fx(1), fx(1), fx(0)]),
        unit3([fx(0), fx(1), fx(1)]),
        unit3([fx(1), fx(0), fx(1)]),
        unit3([fx(1), fx(1), fx(1)]),
    ];
    for axis in axes.iter() {
        let t = quat::of_axis_angle(axis, step_angle);
        let t2 = quat::multiply(&t, &t);
        let t4 = quat::multiply(&t2, &t2);
        let t12 = quat::multiply(&quat::multiply(&t4, &t4), &t4);
        assert!(quat_close(&t12, &quat::identity(), 4 * TOL));
    }
}

#[test]
fn rotation_matrices_of_basis_quaternions() {
    // the four basis quaternions give exact half-turn matrices, and each
    // converts back to the quaternion it came from
    let cases = [
        (rijk(fx(0), fx(1), fx(0), fx(0)), [
            fx(1),
            fx(0),
            fx(0),
            fx(0),
            fx(-1),
            fx(0),
            fx(0),
            fx(0),
            fx(-1),
        ]),
        (rijk(fx(0), fx(0), fx(1), fx(0)), [
            fx(-1),
            fx(0),
            fx(0),
            fx(0),
            fx(1),
            fx(0),
            fx(0),
            fx(0),
            fx(-1),
        ]),
        (rijk(fx(0), fx(0), fx(0), fx(1)), [
            fx(-1),
            fx(0),
            fx(0),
            fx(0),
            fx(-1),
            fx(0),
            fx(0),
            fx(0),
            fx(1),
        ]),
    ];
    for (q, expected) in cases.iter() {
        let mut m = [fx(0); 9];
        quat::to_rotation3(q, &mut m);
        assert_eq!(&m, expected);
        let back = quat::of_rotation(&m);
        assert!(quat_close(&back, q, TOL));
    }
    // a quarter turn about x maps y to z and z to -y in matrix form
    let rsqrt2 = fr(1, 2).sqrt();
    let q = rijk(rsqrt2, rsqrt2, fx(0), fx(0));
    let mut m = [fx(0); 9];
    quat::to_rotation3(&q, &mut m);
    let expected = [fx(1), fx(0), fx(0), fx(0), fx(0), fx(-1), fx(0), fx(1), fx(0)];
    for k in 0..9 {
        assert!(close(m[k], expected[k], TOL));
    }
    let back = quat::of_rotation(&m);
    assert!(quat_close(&back, &q, TOL));
}

#[test]
fn look_at_configurations() {
    // look-at rotations for diagonal directions and various up vectors
    let x = [fx(1), fx(0), fx(0)];
    let y = [fx(0), fx(1), fx(0)];
    let z = [fx(0), fx(0), fx(1)];
    let xy = unit3([fx(1), fx(1), fx(0)]);
    let yz = unit3([fx(0), fx(1), fx(1)]);
    let fwd = [fx(0), fx(0), fx(-1)];

    let q = quat::look_at(&xy, &z);
    assert!(vec_close(&quat::apply3(&q, &xy), &fwd, 2 * TOL));
    assert!(vec_close(&quat::apply3(&q, &z), &y, 2 * TOL));

    let q = quat::look_at(&xy, &yz);
    assert!(vec_close(&quat::apply3(&q, &xy), &fwd, 2 * TOL));

    let q = quat::look_at(&xy, &y);
    assert!(vec_close(&quat::apply3(&q, &xy), &fwd, 2 * TOL));
    assert!(vec_close(&quat::apply3(&q, &z), &x, 2 * TOL));

    let q = quat::look_at(&xy, &x);
    assert!(vec_close(&quat::apply3(&q, &xy), &fwd, 2 * TOL));
    assert!(vec_close(&quat::apply3(&q, &z), &[fx(-1), fx(0), fx(0)], 2 * TOL));
}

#[test]
fn fixed_point_scalar_basics() {
    assert_eq!(fx(2).add(fx(3)), fx(5));
    assert_eq!(fx(2).mul(fr(1, 2)), fx(1));
    assert_eq!(fx(-9).div(fx(3)), fx(-3));
    assert_eq!(fx(4).sqrt(), fx(2));
    assert_eq!(fr(9, 4).sqrt(), fr(3, 2));
    assert_eq!(fx(0).sqrt(), fx(0));
    assert_eq!(fx(-1).sqrt(), fx(0));
    assert_eq!(fx(1).bits, SCALE);
    let (s, c) = fx(0).sin_cos();
    assert_eq!((s, c), (fx(0), fx(1)));
    let (s, c) = Fx::pi().div(fx(2)).sin_cos();
    assert!(close(s, fx(1), TOL));
    assert!(close(c, fx(0), TOL));
    let (s, c) = Fx::pi().sin_cos();
    assert!(close(s, fx(0), TOL));
    assert!(close(c, fx(-1), TOL));
    assert!(close(fx(1).atan2(fx(1)), Fx::pi().div(fx(4)), TOL));
    assert!(close(fx(1).asin(), Fx::pi().div(fx(2)), TOL));
    assert!(close(fx(-1).acos(), Fx::pi(), TOL));
    assert_eq!(fx(-3).abs(), fx(3));
    assert_eq!(fx(-3).signum(), fx(-1));
    assert_eq!(fx(3).signum(), fx(1));
    assert!(fx(1).lt(fx(2)));
    assert!(!fx(2).lt(fx(2)));
}
