use lattice_rotation::{
    Angle, ApproxEq, Mat2, Mat3, Point2, Point3, Quat, Ray2, Ray3, Rot2, Rot3, Rotation2,
    Rotation3, ToMat2, ToMat3, ToQuat, ToRot2, ToRot3, Vec2, Vec3,
};

#[test]
fn quarter_turn_about_z_takes_x_to_y() {
    let r = Rot3::from_angle_z(Angle::from_degrees(90).unwrap());
    assert_eq!(r.rotate_vec3(&Vec3::new(1, 0, 0)), Vec3::new(0, 1, 0));
    assert_eq!(r.rotate_vec3(&Vec3::new(0, 1, 0)), Vec3::new(-1, 0, 0));
    assert_eq!(r.rotate_vec3(&Vec3::new(0, 0, 1)), Vec3::new(0, 0, 1));
}

#[test]
fn two_quarter_turns_about_x_make_a_half_turn() {
    let quarter = Rot3::from_angle_x(Angle::Quarter);
    let half = Rot3::from_angle_x(Angle::Half);
    let twice = quarter.concat(&quarter);
    assert_eq!(twice, half);
    assert!(twice.approx_eq(&half));
}

#[test]
fn half_turn_quaternion_about_y_negates_x() {
    let q = Quat::new(0, 0, 1, 0);
    assert_eq!(q.rotate_vec3(&Vec3::new(1, 0, 0)), Vec3::new(-1, 0, 0));
    assert_eq!(q.rotate_vec3(&Vec3::new(0, 1, 0)), Vec3::new(0, 1, 0));
    assert_eq!(q.rotate_vec3(&Vec3::new(0, 0, 1)), Vec3::new(0, 0, -1));
}

#[test]
fn concat_of_rotations_is_orthogonal() {
    let a = Rot3::from_euler(Angle::Quarter, Angle::Half, Angle::ThreeQuarters);
    let b = Rot3::from_axis_angle(&Vec3::new(0, -1, 0), Angle::Quarter);
    let m = *a.concat(&b).as_mat3();
    assert_eq!(m.mul_m(&m.transpose()), Mat3::identity());
    assert_eq!(m.transpose().mul_m(&m), Mat3::identity());
}

#[test]
fn concat_multiplies_the_matrices_in_order() {
    let a = Rot3::from_angle_x(Angle::Quarter);
    let b = Rot3::from_angle_z(Angle::Quarter);
    assert_eq!(*a.concat(&b).as_mat3(), a.as_mat3().mul_m(b.as_mat3()));
    let v = Vec3::new(1, 0, 0);
    assert_eq!(a.concat(&b).rotate_vec3(&v), Vec3::new(0, 0, 1));
    assert_eq!(a.concat(&b).rotate_vec3(&v), a.rotate_vec3(&b.rotate_vec3(&v)));
    assert_eq!(b.concat(&a).rotate_vec3(&v), Vec3::new(0, 1, 0));
}

#[test]
fn rot3_concat_with_inverse_is_identity() {
    let turns = [Angle::Zero, Angle::Quarter, Angle::Half, Angle::ThreeQuarters];
    for x in turns {
        for z in turns {
            let r = Rot3::from_euler(x, Angle::Quarter, z);
            assert_eq!(*r.concat(&r.invert()).as_mat3(), Mat3::identity());
            assert_eq!(*r.invert().concat(&r).as_mat3(), Mat3::identity());
            assert!(r.concat(&r.invert()).approx_eq(&Rot3::from_angle_x(Angle::Zero)));
        }
    }
}

#[test]
fn rot2_concat_with_inverse_is_identity() {
    for t in [Angle::Zero, Angle::Quarter, Angle::Half, Angle::ThreeQuarters] {
        let r = Rot2::from_angle(t);
        assert_eq!(*r.concat(&r.invert()).as_mat2(), Mat2::identity());
        assert!(r.concat(&r.invert()).approx_eq(&Rot2::from_angle(Angle::Zero)));
    }
}

#[test]
fn quat_concat_with_inverse_is_identity() {
    for q in unit_quats() {
        assert_eq!(q.concat(&q.invert()), Quat::identity());
        assert_eq!(q.invert().concat(&q), Quat::identity());
    }
}

fn unit_quats() -> [Quat; 8] {
    [
        Quat::new(1, 0, 0, 0),
        Quat::new(-1, 0, 0, 0),
        Quat::new(0, 1, 0, 0),
        Quat::new(0, -1, 0, 0),
        Quat::new(0, 0, 1, 0),
        Quat::new(0, 0, -1, 0),
        Quat::new(0, 0, 0, 1),
        Quat::new(0, 0, 0, -1),
    ]
}

#[test]
fn quaternion_and_its_matrix_rotate_alike() {
    let v = Vec3::new(3, -5, 7);
    for q in unit_quats() {
        let m = q.to_rot3();
        assert_eq!(q.rotate_vec3(&v), m.rotate_vec3(&v));
        assert_eq!(q.to_mat3(), *m.as_mat3());
    }
    assert_eq!(Quat::new(0, 1, 0, 0).rotate_vec3(&v), Vec3::new(3, 5, -7));
    assert_eq!(Quat::new(0, 0, 0, -1).rotate_vec3(&v), Vec3::new(-3, 5, 7));
}

#[test]
fn quaternion_concat_agrees_with_matrix_concat() {
    for p in unit_quats() {
        for q in unit_quats() {
            assert_eq!(p.concat(&q).to_rot3(), p.to_rot3().concat(&q.to_rot3()));
        }
    }
    assert_eq!(Quat::new(0, 1, 0, 0).concat(&Quat::new(0, 0, 1, 0)), Quat::new(0, 0, 0, 1));
    assert_eq!(Quat::new(0, 0, 1, 0).concat(&Quat::new(0, 1, 0, 0)), Quat::new(0, 0, 0, -1));
}

#[test]
fn quaternion_to_quaternion_is_itself() {
    for q in unit_quats() {
        assert_eq!(q.to_quat(), q);
    }
}

#[test]
fn opposite_quaternions_have_the_same_matrix_and_no_others() {
    for p in unit_quats() {
        for q in unit_quats() {
            let same = p.to_rot3() == q.to_rot3();
            let up_to_sign = p == q || p == Quat::new(-q.s, -q.v.x, -q.v.y, -q.v.z);
            assert_eq!(same, up_to_sign);
        }
    }
    assert_eq!(Quat::new(0, 0, 1, 0).to_rot3(), Rot3::from_angle_y(Angle::Half));
    assert_eq!(Quat::new(0, 1, 0, 0).to_rot3(), Rot3::from_angle_x(Angle::Half));
    assert_eq!(Quat::new(0, 0, 0, -1).to_rot3(), Rot3::from_angle_z(Angle::Half));
    assert_eq!(Quat::new(-1, 0, 0, 0).to_rot3(), Rot3::from_angle_x(Angle::Zero));
}

#[test]
fn invert_self_agrees_with_invert() {
    let r3 = Rot3::from_euler(Angle::Quarter, Angle::Half, Angle::Quarter);
    let mut s3 = r3;
    s3.invert_self();
    assert_eq!(s3, r3.invert());

    let r2 = Rot2::from_angle(Angle::Quarter);
    let mut s2 = r2;
    s2.invert_self();
    assert_eq!(s2, r2.invert());
    assert_eq!(s2, Rot2::from_angle(Angle::ThreeQuarters));

    for q in unit_quats() {
        let mut p = q;
        p.invert_self();
        assert_eq!(p, q.invert());
    }
    assert_eq!(Quat::new(0, 0, 0, 1).invert(), Quat::new(0, 0, 0, -1));
    assert_eq!(Quat::new(-1, 0, 0, 0).invert(), Quat::new(-1, 0, 0, 0));
}

#[test]
fn concat_self_agrees_with_concat() {
    let a = Rot3::from_angle_x(Angle::Quarter);
    let b = Rot3::from_angle_y(Angle::Quarter);
    let mut c = a;
    c.concat_self(&b);
    assert_eq!(c, a.concat(&b));
    assert_eq!(*c.as_mat3(), Mat3::new(0, 1, 0, 0, 0, 1, 1, 0, 0));

    let p = Rot2::from_angle(Angle::Quarter);
    let mut q = p;
    q.concat_self(&p);
    assert_eq!(q, p.concat(&p));
    assert_eq!(q, Rot2::from_angle(Angle::Half));

    let i = Quat::new(0, 1, 0, 0);
    let mut k = i;
    k.concat_self(&Quat::new(0, 0, 1, 0));
    assert_eq!(k, Quat::new(0, 0, 0, 1));
}

#[test]
fn quaternion_concat_is_the_hamilton_product_of_any_two() {
    let p = Quat::new(1, 2, 3, 4);
    let q = Quat::new(5, 6, 7, 8);
    assert_eq!(p.concat(&q), Quat::new(-60, 12, 30, 24));
    assert_eq!(q.concat(&p), Quat::new(-60, 20, 14, 32));
    let mut r = p;
    r.concat_self(&q);
    assert_eq!(r, p.concat(&q));
    let top = Quat::new(i64::MAX, 0, 0, 0);
    assert_eq!(top.concat(&Quat::new(0, 0, -1, 0)), Quat::new(0, 0, -i64::MAX, 0));
}

#[test]
fn quaternion_invert_is_conjugate_over_squared_magnitude() {
    for q in unit_quats() {
        assert_eq!(q.invert(), q.conjugate().div_s(&q.magnitude2()));
        assert_eq!(q.invert(), q.conjugate());
    }
    let q = Quat::new(1, 1, 1, 1);
    assert_eq!(q.invert(), Quat::fraction(1, -1, -1, -1, 4));
    assert_eq!(q.invert(), q.conjugate().div_s(&q.magnitude2()));
    assert_eq!(q.concat(&q.invert()), Quat::fraction(4, 0, 0, 0, 4));
    assert_eq!(q.invert().concat(&q), Quat::fraction(4, 0, 0, 0, 4));
    assert!(q.concat(&q.invert()).approx_eq(&Quat::identity()));
    let p = Quat::fraction(1, 2, 0, 0, 3);
    assert_eq!(p.invert(), Quat::fraction(9, -18, 0, 0, 15));
    assert_eq!(p.concat(&p.invert()), Quat::fraction(45, 0, 0, 0, 45));
    assert_eq!(p.invert().concat(&p), Quat::fraction(45, 0, 0, 0, 45));
    let big = Quat::new(0, 0, -3, 4);
    assert_eq!(big.invert(), Quat::fraction(0, 0, 3, -4, 25));
    assert_eq!(big.invert().invert(), Quat::fraction(0, 0, -1875, 2500, 625));
    assert!(big.invert().invert().approx_eq_eps(&big, &1));
}

#[test]
fn quaternion_invert_self_agrees_with_invert_whatever_the_magnitude() {
    for q in [
        Quat::new(1, 1, 1, 1),
        Quat::new(2, 0, 0, 0),
        Quat::new(1, -2, 3, -4),
        Quat::fraction(1, 2, 0, 0, 3),
        Quat::fraction(-5, 0, 0, 12, 13),
    ] {
        let mut p = q;
        p.invert_self();
        assert_eq!(p, q.invert());
    }
    let mut h = Quat::new(2, 0, 0, 0);
    h.invert_self();
    assert_eq!(h, Quat::fraction(2, 0, 0, 0, 4));
}

#[test]
fn quaternion_to_quaternion_is_itself_whatever_the_length() {
    for q in [Quat::new(1, 1, 1, 1), Quat::fraction(3, 0, 4, 0, 7), Quat::new(0, 0, 0, 0)] {
        assert_eq!(q.to_quat(), q);
    }
}

#[test]
fn invert_is_the_transpose() {
    let r = Rot3::from_angle_z(Angle::Quarter);
    assert_eq!(*r.invert().as_mat3(), r.as_mat3().transpose());
    assert_eq!(r.invert(), Rot3::from_angle_z(Angle::ThreeQuarters));
    assert_eq!(r.invert().rotate_vec3(&Vec3::new(0, 1, 0)), Vec3::new(1, 0, 0));
}

#[test]
fn rot2_rotates_vectors_points_and_rays() {
    let r = Rot2::from_angle(Angle::Quarter);
    assert_eq!(*r.as_mat2(), Mat2::new(0, 1, -1, 0));
    assert_eq!(r.to_mat2(), Mat2::new(0, 1, -1, 0));
    assert_eq!(r.to_rot2(), r);
    assert_eq!(r.rotate_vec2(&Vec2::new(1, 0)), Vec2::new(0, 1));
    assert_eq!(r.rotate_point2(&Point2::new(2, 3)), Point2::new(-3, 2));
    let ray = Ray2::new(Point2::new(2, 3), Vec2::new(0, -4));
    assert_eq!(r.rotate_ray2(&ray), Ray2::new(Point2::new(-3, 2), Vec2::new(4, 0)));
}

#[test]
fn rot3_rotates_points_and_rays() {
    let r = Rot3::from_angle_x(Angle::Quarter);
    assert_eq!(r.to_mat3(), Mat3::new(1, 0, 0, 0, 0, 1, 0, -1, 0));
    assert_eq!(r.to_rot3(), r);
    assert_eq!(r.rotate_point3(&Point3::new(1, 2, 3)), Point3::new(1, -3, 2));
    assert_eq!(r.rotate_vec3(&Vec3::new(1, 2, 3)), Vec3::new(1, -3, 2));
    let ray = Ray3::new(Point3::new(1, 2, 3), Vec3::new(0, 0, 1));
    assert_eq!(r.rotate_ray3(&ray), Ray3::new(Point3::new(1, -3, 2), Vec3::new(0, -1, 0)));
}

#[test]
fn quat_rotates_points_and_rays() {
    let q = Quat::new(0, 0, 0, 1);
    assert_eq!(q.rotate_point3(&Point3::new(1, 2, 3)), Point3::new(-1, -2, 3));
    let ray = Ray3::new(Point3::new(1, 2, 3), Vec3::new(4, 0, -1));
    assert_eq!(q.rotate_ray3(&ray), Ray3::new(Point3::new(-1, -2, 3), Vec3::new(-4, 0, -1)));
}

#[test]
fn rotation_of_the_largest_coordinates() {
    let r = Rot3::from_angle_z(Angle::Quarter);
    assert_eq!(r.rotate_vec3(&Vec3::new(i64::MAX, 5, -7)), Vec3::new(-5, i64::MAX, -7));
    assert_eq!(r.rotate_vec3(&Vec3::new(5, i64::MIN + 1, 0)), Vec3::new(i64::MAX, 5, 0));
    assert_eq!(r.rotate_vec3(&Vec3::new(i64::MIN, 0, 0)), Vec3::new(0, i64::MIN, 0));
    let q = Quat::new(0, 1, 0, 0);
    assert_eq!(
        q.rotate_vec3(&Vec3::new(i64::MIN, i64::MAX, -i64::MAX)),
        Vec3::new(i64::MIN, -i64::MAX, i64::MAX)
    );
}

#[test]
fn tolerance_is_one_and_means_equality() {
    assert_eq!(<Rot3 as ApproxEq>::approx_epsilon(), 1);
    assert_eq!(<Rot2 as ApproxEq>::approx_epsilon(), 1);
    assert_eq!(<Quat as ApproxEq>::approx_epsilon(), 1);
    assert_eq!(<Mat3 as ApproxEq>::approx_epsilon(), 1);
    assert_eq!(<Mat2 as ApproxEq>::approx_epsilon(), 1);
    let a = Rot3::from_angle_z(Angle::Quarter);
    let b = Rot3::from_angle_z(Angle::Half);
    assert!(a.approx_eq(&a));
    assert!(!a.approx_eq(&b));
    assert!(!a.approx_eq_eps(&b, &1));
    assert!(a.approx_eq_eps(&b, &2));
    assert!(!a.approx_eq_eps(&a, &0));
    let p = Rot2::from_angle(Angle::Zero);
    let q = Rot2::from_angle(Angle::Half);
    assert!(!p.approx_eq(&q));
    assert!(!p.approx_eq_eps(&q, &2));
    assert!(p.approx_eq_eps(&q, &3));
}

fn dot3(a: Vec3, b: Vec3) -> i64 {
    a.x * b.x + a.y * b.y + a.z * b.z
}

#[test]
fn rotations_keep_dot_products() {
    let u = Vec3::new(3, -5, 7);
    let v = Vec3::new(-2, 11, 4);
    let turns = [Angle::Zero, Angle::Quarter, Angle::Half, Angle::ThreeQuarters];
    for x in turns {
        for y in turns {
            for z in turns {
                let r = Rot3::from_euler(x, y, z);
                assert_eq!(dot3(r.rotate_vec3(&u), r.rotate_vec3(&v)), dot3(u, v));
                assert_eq!(dot3(r.rotate_vec3(&u), r.rotate_vec3(&u)), 83);
            }
        }
    }
    for q in unit_quats() {
        assert_eq!(dot3(q.rotate_vec3(&u), q.rotate_vec3(&v)), -33);
    }
    for t in turns {
        let r = Rot2::from_angle(t);
        let a = r.rotate_vec2(&Vec2::new(3, 4));
        let b = r.rotate_vec2(&Vec2::new(-1, 2));
        assert_eq!(a.x * a.x + a.y * a.y, 25);
        assert_eq!(a.x * b.x + a.y * b.y, 5);
    }
}

fn turn_matrix(q: Quat) -> Mat3 {
    let (s, x, y, z) = (q.s, q.v.x, q.v.y, q.v.z);
    Mat3::new(
        s * s + x * x - y * y - z * z,
        2 * (x * y + s * z),
        2 * (x * z - s * y),
        2 * (x * y - s * z),
        s * s - x * x + y * y - z * z,
        2 * (y * z + s * x),
        2 * (x * z + s * y),
        2 * (y * z - s * x),
        s * s - x * x - y * y + z * z,
    )
}

fn scaled(m: &Mat3, k: i64) -> Mat3 {
    Mat3::new(
        k * m.x.x, k * m.x.y, k * m.x.z,
        k * m.y.x, k * m.y.y, k * m.y.z,
        k * m.z.x, k * m.z.y, k * m.z.z,
    )
}

#[test]
fn scaled_quaternion_of_every_rotation_gives_the_matrix_back() {
    let turns = [Angle::Zero, Angle::Quarter, Angle::Half, Angle::ThreeQuarters];
    for x in turns {
        for y in turns {
            for z in turns {
                let r = Rot3::from_euler(x, y, z);
                let q = r.to_scaled_quat();
                let m2 = q.magnitude2().num;
                assert_eq!(q.den, 1);
                assert!(m2 == 1 || m2 == 2 || m2 == 4);
                assert_eq!(turn_matrix(q), scaled(r.as_mat3(), m2));
                if m2 == 1 {
                    assert_eq!(q.to_rot3(), r);
                }
            }
        }
    }
}

#[test]
fn scaled_quaternions_of_named_turns() {
    assert_eq!(Rot3::from_angle_x(Angle::Zero).to_scaled_quat(), Quat::new(1, 0, 0, 0));
    assert_eq!(Rot3::from_angle_z(Angle::Quarter).to_scaled_quat(), Quat::new(1, 0, 0, 1));
    assert_eq!(Rot3::from_angle_z(Angle::ThreeQuarters).to_scaled_quat(), Quat::new(1, 0, 0, -1));
    assert_eq!(Rot3::from_angle_x(Angle::Quarter).to_scaled_quat(), Quat::new(1, 1, 0, 0));
    assert_eq!(Rot3::from_angle_y(Angle::Quarter).to_scaled_quat(), Quat::new(1, 0, 1, 0));
    assert_eq!(Rot3::from_angle_x(Angle::Half).to_scaled_quat(), Quat::new(0, 1, 0, 0));
    assert_eq!(Rot3::from_angle_y(Angle::Half).to_scaled_quat(), Quat::new(0, 0, 1, 0));
    assert_eq!(Rot3::from_angle_z(Angle::Half).to_scaled_quat(), Quat::new(0, 0, 0, 1));
    let third = Rot3::look_at(&Vec3::new(0, 1, 0), &Vec3::new(0, 0, 1));
    assert_eq!(*third.as_mat3(), Mat3::new(0, 0, 1, 1, 0, 0, 0, 1, 0));
    assert_eq!(third.to_scaled_quat(), Quat::new(1, -1, -1, -1));
    let edge = Rot3::from_angle_z(Angle::Quarter).concat(&Rot3::from_angle_x(Angle::Half));
    assert_eq!(*edge.as_mat3(), Mat3::new(0, 1, 0, 1, 0, 0, 0, 0, -1));
    assert_eq!(edge.to_scaled_quat(), Quat::new(0, 1, 1, 0));
    assert_eq!(Quat::new(0, 0, -1, 0).to_rot3().to_scaled_quat(), Quat::new(0, 0, 1, 0));
    assert_eq!(Mat3::new(0, 1, 0, -1, 0, 0, 0, 0, 1).to_scaled_quat(), Quat::new(1, 0, 0, 1));
}

#[test]
fn rotation_to_scaled_quaternion_and_back() {
    let turns = [Angle::Zero, Angle::Quarter, Angle::Half, Angle::ThreeQuarters];
    for x in turns {
        for y in turns {
            for z in turns {
                let r = Rot3::from_euler(x, y, z);
                assert_eq!(Rot3::from_scaled_quat(&r.to_scaled_quat()), Some(r));
            }
        }
    }
    let quarter = Rot3::from_angle_z(Angle::Quarter);
    assert_eq!(Rot3::from_scaled_quat(&Quat::new(1, 0, 0, 1)), Some(quarter));
    assert_eq!(Rot3::from_scaled_quat(&Quat::new(2, 0, 0, 2)), Some(quarter));
    assert_eq!(Rot3::from_scaled_quat(&Quat::new(-1, 0, 0, -1)), Some(quarter));
    assert_eq!(Rot3::from_scaled_quat(&Quat::fraction(5, 0, 0, 5, 7)), Some(quarter));
    assert_eq!(Rot3::from_scaled_quat(&Quat::new(1, 0, 0, -1)), Some(quarter.invert()));
    assert_eq!(
        Rot3::from_scaled_quat(&Quat::new(1, 1, 1, 1)).map(|r| *r.as_mat3()),
        Some(Mat3::new(0, 1, 0, 0, 0, 1, 1, 0, 0))
    );
    assert_eq!(Rot3::from_scaled_quat(&Quat::new(1, 2, 0, 0)), None);
    assert_eq!(Rot3::from_scaled_quat(&Quat::new(1, 1, 1, 0)), None);
    assert_eq!(Rot3::from_scaled_quat(&Quat::new(0, 0, 0, 0)), None);
    for q in unit_quats() {
        assert_eq!(Rot3::from_scaled_quat(&q), Some(q.to_rot3()));
    }
}
