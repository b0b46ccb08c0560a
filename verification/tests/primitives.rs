use lattice_rotation::{Angle, ApproxEq, Mat2, Mat3, Quat, Ratio, Rot3, ToMat3, Vec2, Vec3};

#[test]
fn angle_from_quarter_turns_wraps_around() {
    assert_eq!(Angle::from_quarter_turns(0), Angle::Zero);
    assert_eq!(Angle::from_quarter_turns(1), Angle::Quarter);
    assert_eq!(Angle::from_quarter_turns(2), Angle::Half);
    assert_eq!(Angle::from_quarter_turns(3), Angle::ThreeQuarters);
    assert_eq!(Angle::from_quarter_turns(5), Angle::Quarter);
    assert_eq!(Angle::from_quarter_turns(-1), Angle::ThreeQuarters);
    assert_eq!(Angle::from_quarter_turns(-4), Angle::Zero);
    assert_eq!(Angle::from_quarter_turns(-6), Angle::Half);
    assert_eq!(Angle::from_quarter_turns(i64::MAX), Angle::ThreeQuarters);
    assert_eq!(Angle::from_quarter_turns(i64::MIN), Angle::Zero);
}

#[test]
fn angle_from_degrees_takes_whole_quarter_turns_only() {
    assert_eq!(Angle::from_degrees(0), Some(Angle::Zero));
    assert_eq!(Angle::from_degrees(90), Some(Angle::Quarter));
    assert_eq!(Angle::from_degrees(180), Some(Angle::Half));
    assert_eq!(Angle::from_degrees(270), Some(Angle::ThreeQuarters));
    assert_eq!(Angle::from_degrees(360), Some(Angle::Zero));
    assert_eq!(Angle::from_degrees(450), Some(Angle::Quarter));
    assert_eq!(Angle::from_degrees(-90), Some(Angle::ThreeQuarters));
    assert_eq!(Angle::from_degrees(-270), Some(Angle::Quarter));
    assert_eq!(Angle::from_degrees(45), None);
    assert_eq!(Angle::from_degrees(-1), None);
    assert_eq!(Angle::from_degrees(91), None);
    assert_eq!(Angle::from_degrees(i64::MIN), None);
}

#[test]
fn angle_cosine_and_sine() {
    assert_eq!((Angle::Zero.cos(), Angle::Zero.sin()), (1, 0));
    assert_eq!((Angle::Quarter.cos(), Angle::Quarter.sin()), (0, 1));
    assert_eq!((Angle::Half.cos(), Angle::Half.sin()), (-1, 0));
    assert_eq!((Angle::ThreeQuarters.cos(), Angle::ThreeQuarters.sin()), (0, -1));
}

#[test]
fn vector_cross_and_signum() {
    assert_eq!(Vec3::new(1, 0, 0).cross(&Vec3::new(0, 1, 0)), Vec3::new(0, 0, 1));
    assert_eq!(Vec3::new(2, 3, 4).cross(&Vec3::new(5, 6, 7)), Vec3::new(-3, 6, -3));
    assert_eq!(Vec3::new(-9, 0, 4).signum(), Vec3::new(-1, 0, 1));
    assert_eq!(Vec3::new(i64::MIN, i64::MAX, 0).signum(), Vec3::new(-1, 1, 0));
}

#[test]
fn mat2_products() {
    let a = Mat2::new(1, 3, 2, 4);
    assert_eq!(a.x, Vec2::new(1, 3));
    assert_eq!(a.y, Vec2::new(2, 4));
    assert_eq!(Mat2::from_cols(Vec2::new(1, 3), Vec2::new(2, 4)), a);
    assert_eq!(a.transpose(), Mat2::new(1, 2, 3, 4));
    assert_eq!(a.mul_v(&Vec2::new(5, 6)), Vec2::new(17, 39));
    assert_eq!(a.mul_m(&a), Mat2::new(7, 15, 10, 22));
    assert_eq!(a.mul_m(&Mat2::identity()), a);
    assert_eq!(Mat2::from_angle(Angle::Quarter), Mat2::new(0, 1, -1, 0));
    assert_eq!(Mat2::from_angle(Angle::Half), Mat2::new(-1, 0, 0, -1));
}

#[test]
fn mat3_products() {
    let a = Mat3::new(1, 4, 7, 2, 5, 8, 3, 6, 9);
    assert_eq!(a.x, Vec3::new(1, 4, 7));
    assert_eq!(a.z, Vec3::new(3, 6, 9));
    assert_eq!(Mat3::from_cols(a.x, a.y, a.z), a);
    assert_eq!(a.transpose(), Mat3::new(1, 2, 3, 4, 5, 6, 7, 8, 9));
    assert_eq!(a.mul_v(&Vec3::new(1, 1, 1)), Vec3::new(6, 15, 24));
    assert_eq!(a.mul_v(&Vec3::new(1, 0, -1)), Vec3::new(-2, -2, -2));
    assert_eq!(a.mul_m(&a), Mat3::new(30, 66, 102, 36, 81, 126, 42, 96, 150));
    assert_eq!(Mat3::identity().mul_m(&a), a);
}

#[test]
fn mat3_product_uses_the_whole_scalar_range() {
    let m = Mat3::new(i64::MAX, 0, 0, i64::MAX, 1, 0, i64::MIN, 0, 1);
    assert_eq!(m.mul_v(&Vec3::new(i64::MAX, 1, i64::MAX)), Vec3::new(0, 1, i64::MAX));
}

#[test]
fn axis_turns_by_a_quarter() {
    assert_eq!(Mat3::from_angle_x(Angle::Quarter), Mat3::new(1, 0, 0, 0, 0, 1, 0, -1, 0));
    assert_eq!(Mat3::from_angle_y(Angle::Quarter), Mat3::new(0, 0, -1, 0, 1, 0, 1, 0, 0));
    assert_eq!(Mat3::from_angle_z(Angle::Quarter), Mat3::new(0, 1, 0, -1, 0, 0, 0, 0, 1));
    assert_eq!(Mat3::from_angle_x(Angle::Zero), Mat3::identity());
    assert_eq!(Mat3::from_angle_y(Angle::Half), Mat3::new(-1, 0, 0, 0, 1, 0, 0, 0, -1));
    assert_eq!(*Rot3::from_angle_y(Angle::Quarter).as_mat3(), Mat3::from_angle_y(Angle::Quarter));
}

#[test]
fn euler_angles_turn_about_x_first() {
    let m = Mat3::from_euler(Angle::Quarter, Angle::Quarter, Angle::Zero);
    assert_eq!(m, Mat3::new(0, 0, -1, 1, 0, 0, 0, -1, 0));
    let x = Mat3::from_angle_x(Angle::Quarter);
    let y = Mat3::from_angle_y(Angle::Half);
    let z = Mat3::from_angle_z(Angle::ThreeQuarters);
    assert_eq!(
        Mat3::from_euler(Angle::Quarter, Angle::Half, Angle::ThreeQuarters),
        z.mul_m(&y).mul_m(&x)
    );
    assert_eq!(
        *Rot3::from_euler(Angle::Quarter, Angle::Quarter, Angle::Zero).as_mat3(),
        Mat3::new(0, 0, -1, 1, 0, 0, 0, -1, 0)
    );
}

#[test]
fn axis_angle_turns_about_the_given_direction() {
    let q = Angle::Quarter;
    assert_eq!(Mat3::from_axis_angle(&Vec3::new(0, 0, 1), q), Mat3::from_angle_z(q));
    assert_eq!(
        Mat3::from_axis_angle(&Vec3::new(0, 0, -1), q),
        Mat3::from_angle_z(Angle::ThreeQuarters)
    );
    assert_eq!(Mat3::from_axis_angle(&Vec3::new(1, 0, 0), Angle::Half), Mat3::from_angle_x(Angle::Half));
    assert_eq!(Mat3::from_axis_angle(&Vec3::new(0, 1, 0), q), Mat3::from_angle_y(q));
    assert_eq!(Mat3::from_axis_angle(&Vec3::new(0, -1, 0), Angle::Zero), Mat3::identity());
    assert_eq!(
        *Rot3::from_axis_angle(&Vec3::new(-1, 0, 0), q).as_mat3(),
        Mat3::new(1, 0, 0, 0, 0, -1, 0, 1, 0)
    );
}

#[test]
fn look_at_builds_the_up_side_forward_frame() {
    let m = Mat3::look_at(&Vec3::new(0, 0, 5), &Vec3::new(0, 3, 0));
    assert_eq!(m, Mat3::new(0, 1, 0, -1, 0, 0, 0, 0, 1));
    let n = Mat3::look_at(&Vec3::new(1, 0, 0), &Vec3::new(0, 0, 1));
    assert_eq!(n, Mat3::new(0, 0, 1, 0, -1, 0, 1, 0, 0));
    let r = Rot3::look_at(&Vec3::new(0, -2, 0), &Vec3::new(-7, 0, 0));
    assert_eq!(r.as_mat3().z, Vec3::new(0, -1, 0));
    assert_eq!(r.as_mat3().x, Vec3::new(-1, 0, 0));
    assert_eq!(r.as_mat3().y, Vec3::new(0, 0, -1));
    let far = Rot3::look_at(&Vec3::new(0, 0, i64::MIN), &Vec3::new(i64::MAX, 0, 0));
    assert_eq!(*far.as_mat3(), Mat3::new(1, 0, 0, 0, -1, 0, 0, 0, -1));
}

#[test]
fn quaternion_algebra() {
    let p = Quat::new(1, 2, 3, 4);
    let q = Quat::new(5, 6, 7, 8);
    assert_eq!(p.mul_q(&q), Quat::new(-60, 12, 30, 24));
    assert_eq!(q.mul_q(&p), Quat::new(-60, 20, 14, 32));
    assert_eq!(p.conjugate(), Quat::new(1, -2, -3, -4));
    assert_eq!(p.magnitude2(), Ratio::new(30, 1));
    assert_eq!(Quat::fraction(1, 2, 3, 4, 5).magnitude2(), Ratio::new(30, 25));
    assert_eq!(Quat::fraction(1, 2, 3, 4, 5).conjugate(), Quat::fraction(1, -2, -3, -4, 5));
    assert_eq!(
        Quat::fraction(1, 2, 3, 4, 2).mul_q(&Quat::fraction(5, 6, 7, 8, 3)),
        Quat::fraction(-60, 12, 30, 24, 6)
    );
    assert_eq!(Quat::from_sv(1, Vec3::new(2, 3, 4)), p);
    assert_eq!(Quat::identity(), Quat::new(1, 0, 0, 0));
    assert_eq!(p.mul_q(&Quat::identity()), p);
    let big = Quat::new(1 << 30, -(1 << 30), 1 << 30, 0);
    assert_eq!(big.mul_q(&big), Quat::new(-(1 << 60), -(1 << 61), 1 << 61, 0));
    let top = Quat::new(i64::MAX, 0, 0, 0);
    assert_eq!(top.mul_q(&Quat::new(1, -1, 0, 0)), Quat::new(i64::MAX, -i64::MAX, 0, 0));
    let low = Quat::new(i64::MIN, i64::MIN, 0, 0);
    assert_eq!(low.mul_q(&Quat::new(0, 0, 1, 0)), Quat::new(0, 0, i64::MIN, i64::MIN));
    let wide = Quat::new(i64::MIN, i64::MIN, i64::MIN, i64::MIN);
    assert_eq!(wide.mul_q(&Quat::new(1, 0, 0, 0)), wide);
    let cancel = Quat::new(2_000_000_000, 2_000_000_000, 0, 0);
    assert_eq!(cancel.mul_q(&cancel), Quat::new(0, 8_000_000_000_000_000_000, 0, 0));
    assert_eq!(
        Quat::new(3_037_000_499, 0, 0, 0).magnitude2(),
        Ratio::new(9_223_372_030_926_249_001, 1)
    );
}

#[test]
fn quaternion_division_by_a_scalar_is_exact() {
    let q = Quat::new(7, -7, 8, -9);
    assert_eq!(q.div_s(&Ratio::new(2, 1)), Quat::fraction(7, -7, 8, -9, 2));
    assert_eq!(q.div_s(&Ratio::new(-2, 1)), Quat::fraction(-7, 7, -8, 9, 2));
    assert_eq!(q.div_s(&Ratio::new(3, 4)), Quat::fraction(28, -28, 32, -36, 3));
    assert_eq!(q.div_s(&Ratio::new(1, 1)), q);
    assert_eq!(Quat::fraction(1, 0, -2, 0, 5).div_s(&Ratio::new(-7, 3)), Quat::fraction(-3, 0, 6, 0, 35));
    assert_eq!(
        Quat::new(i64::MAX, 0, 0, 1).div_s(&Ratio::new(i64::MAX, 1)),
        Quat::fraction(i64::MAX, 0, 0, 1, i64::MAX)
    );
}

#[test]
fn quaternion_to_matrix() {
    assert_eq!(Quat::new(1, 0, 0, 0).to_mat3(), Mat3::identity());
    assert_eq!(Quat::new(-1, 0, 0, 0).to_mat3(), Mat3::identity());
    assert_eq!(Quat::new(0, 1, 0, 0).to_mat3(), Mat3::new(1, 0, 0, 0, -1, 0, 0, 0, -1));
    assert_eq!(Quat::new(0, 0, -1, 0).to_mat3(), Mat3::new(-1, 0, 0, 0, 1, 0, 0, 0, -1));
    assert_eq!(Quat::new(0, 0, 0, 1).to_mat3(), Mat3::new(-1, 0, 0, 0, -1, 0, 0, 0, 1));
    assert_eq!(Quat::new(0, 0, 1, 0).mul_v(&Vec3::new(1, 2, 3)), Vec3::new(-1, 2, -3));
}

#[test]
fn approximate_equality_of_primitives() {
    let a = Mat3::new(1, 4, 7, 2, 5, 8, 3, 6, 9);
    let b = Mat3::new(1, 4, 7, 2, 5, 8, 3, 6, 11);
    assert!(a.approx_eq(&a));
    assert!(!a.approx_eq(&b));
    assert!(!a.approx_eq_eps(&b, &2));
    assert!(a.approx_eq_eps(&b, &3));
    assert!(b.approx_eq_eps(&a, &3));
    let m = Mat2::new(i64::MIN, 0, 0, 0);
    let n = Mat2::new(i64::MAX, 0, 0, 0);
    assert!(!m.approx_eq_eps(&n, &i64::MAX));
    assert!(Mat2::new(-1, 0, 0, 5).approx_eq_eps(&Mat2::new(1, 0, 0, 4), &3));
    let p = Quat::new(1, 2, 3, 4);
    assert!(p.approx_eq(&p));
    assert!(!p.approx_eq(&Quat::new(1, 2, 3, 5)));
    assert!(p.approx_eq_eps(&Quat::new(0, 3, 2, 5), &2));
    assert!(!p.approx_eq_eps(&Quat::new(0, 3, 2, 6), &2));
    assert!(!p.approx_eq_eps(&p, &0));
    assert!(!p.approx_eq_eps(&p, &-5));
    let half = Quat::fraction(1, 0, 0, 0, 2);
    assert!(half.approx_eq(&Quat::fraction(2, 0, 0, 0, 4)));
    assert!(half.approx_eq(&Quat::new(1, 0, 0, 0)));
    assert!(half.approx_eq(&Quat::fraction(-1, 0, 0, 0, 3)));
    assert!(!half.approx_eq(&Quat::fraction(-1, 0, 0, 0, 2)));
    assert!(!half.approx_eq(&Quat::new(0, 0, 1, 0)));
    assert!(half.approx_eq_eps(&Quat::new(0, 0, 1, 0), &2));
    assert!(!half.approx_eq(&Quat::fraction(1, 0, 0, 0, 0)));
    assert!(!Quat::fraction(1, 0, 0, 0, -2).approx_eq(&half));
    assert!(Quat::fraction(i64::MAX, 0, 0, 0, i64::MAX).approx_eq_eps(&Quat::new(1, 0, 0, 0), &i64::MAX));
    assert!(!Quat::fraction(i64::MIN, 0, 0, 0, 1).approx_eq_eps(&Quat::new(i64::MAX, 0, 0, 0), &i64::MAX));
}

#[test]
fn matrix_is_rotation_only_when_orthogonal_with_determinant_one() {
    assert!(Mat3::identity().is_rotation());
    assert!(Mat3::from_angle_x(Angle::Quarter).is_rotation());
    assert!(Mat3::from_euler(Angle::Quarter, Angle::Half, Angle::ThreeQuarters).is_rotation());
    assert!(Mat3::new(0, 1, 0, 0, 0, 1, 1, 0, 0).is_rotation());
    assert!(!Mat3::new(1, 0, 0, 0, 1, 0, 0, 0, -1).is_rotation());
    assert!(!Mat3::new(0, 1, 0, 1, 0, 0, 0, 0, 1).is_rotation());
    assert!(!Mat3::new(-1, 0, 0, 0, -1, 0, 0, 0, -1).is_rotation());
    assert!(!Mat3::new(1, 1, 0, 0, 1, 0, 0, 0, 1).is_rotation());
    assert!(!Mat3::new(0, 0, 0, 0, 0, 0, 0, 0, 0).is_rotation());
    assert!(!Mat3::new(2, 0, 0, 0, 1, 0, 0, 0, 1).is_rotation());
    assert!(!Mat3::new(1, 4, 7, 2, 5, 8, 3, 6, 9).is_rotation());
    assert!(!Mat3::new(i64::MAX, 0, 0, 0, i64::MIN, 0, 0, 0, 1).is_rotation());
}
