//! Rotations: the operations that every representation offers, and the two
//! matrix representations.
//!
//! `a.concat(&b)` multiplies the matrices in that order. Applied to a column
//! vector, the result turns by `b` first and by `a` second.

use crate::angle::Angle;
use crate::approx::ApproxEq;
use crate::arith::{
    fits_i64, lemma_mul_by_sign, lemma_square_nonneg, lemma_unit_square_sum4, narrow, sign_mul,
    sum_of_products, wide_mul,
};
use crate::cases::lemma_orthogonal_determinant3;
use crate::convert::{AsRotation2, AsRotation3, ToMat2, ToMat3};
use crate::lemmas::{
    lemma_orthogonal_entries2, lemma_orthogonal_entries3, lemma_rotation_mul2,
    lemma_rotation_mul3, lemma_rotation_transpose2, lemma_rotation_transpose3,
    lemma_inverse_cancels, lemma_unit_quat_inverse, lemma_unit_quat_matrix, lemma_unit_quat_mul,
};
use crate::matrix::{Mat2, Mat3};
use crate::model::{IntMat2, IntMat3, IntVec3, RatQuat};
use crate::point::{Point2, Point3};
use crate::quaternion::{Quat, Ratio};
use crate::ray::{Ray2, Ray3};
use crate::vector::{Vec2, Vec3};
use vstd::prelude::*;

verus! {

/// A two-dimensional rotation.
pub trait Rotation2: PartialEq + Eq + ApproxEq + ToMat2 + ToRot2 {
    /// The value that `concat` returns.
    spec fn concat_spec(&self, other: &Self) -> Self;

    /// The value that `invert` returns.
    spec fn invert_spec(&self) -> Self;

    /// Whether this representation can hold the composition of `self` and `other`.
    spec fn composable(&self, other: &Self) -> bool;

    /// The composition of two rotations can always be held.
    proof fn lemma_rotations_composable(&self, other: &Self)
        requires
            self.is_rotation(),
            other.is_rotation(),
        ensures
            self.composable(other),
    ;

    /// Whether this representation can hold the inverse of `self`.
    spec fn invertible(&self) -> bool;

    /// The inverse of a rotation can always be held.
    proof fn lemma_rotation_invertible(&self)
        requires
            self.is_rotation(),
        ensures
            self.invertible(),
    ;

    /// The composition is a rotation, and its matrix is the product.
    proof fn lemma_concat(&self, other: &Self)
        requires
            self.is_rotation(),
            other.is_rotation(),
        ensures
            self.concat_spec(other).is_rotation(),
            self.concat_spec(other).matrix() == self.matrix().mul_m(other.matrix()),
    ;

    /// The inverse is a rotation, and its matrix is the transpose, which is
    /// the inverse of the matrix on both sides.
    proof fn lemma_invert(&self)
        requires
            self.is_rotation(),
        ensures
            self.invert_spec().is_rotation(),
            self.invert_spec().matrix() == self.matrix().transpose(),
            self.matrix().mul_m(self.invert_spec().matrix()) == IntMat2::identity(),
            self.invert_spec().matrix().mul_m(self.matrix()) == IntMat2::identity(),
    ;

    /// The point turned about the origin.
    fn rotate_point2(&self, point: &Point2) -> (r: Point2)
        requires
            self.is_rotation(),
            self.matrix().mul_v(point@).fits(),
        ensures
            r@ == self.matrix().mul_v(point@),
    ;

    /// The vector turned.
    fn rotate_vec2(&self, vec: &Vec2) -> (r: Vec2)
        requires
            self.is_rotation(),
            self.matrix().mul_v(vec@).fits(),
        ensures
            r@ == self.matrix().mul_v(vec@),
    ;

    /// The ray with its origin and its direction turned.
    fn rotate_ray2(&self, ray: &Ray2) -> (r: Ray2)
        requires
            self.is_rotation(),
            self.matrix().mul_v(ray.origin@).fits(),
            self.matrix().mul_v(ray.direction@).fits(),
        ensures
            r.origin@ == self.matrix().mul_v(ray.origin@),
            r.direction@ == self.matrix().mul_v(ray.direction@),
    ;

    /// The composition of `self` and `other`, wherever this representation
    /// can hold it. The composition of two rotations is the rotation that
    /// turns by `other` and then by `self`.
    fn concat(&self, other: &Self) -> (r: Self)
        requires
            self.composable(other),
        ensures
            r == self.concat_spec(other),
            self.is_rotation() && other.is_rotation() ==> r.is_rotation(),
            self.is_rotation() && other.is_rotation() ==> r.matrix() == self.matrix().mul_m(
                other.matrix(),
            ),
    ;

    /// `concat` in place.
    fn concat_self(&mut self, other: &Self)
        requires
            old(self).composable(other),
        ensures
            *final(self) == old(self).concat_spec(other),
            old(self).is_rotation() && other.is_rotation() ==> final(self).is_rotation(),
            old(self).is_rotation() && other.is_rotation() ==> final(self).matrix() == old(
                self,
            ).matrix().mul_m(other.matrix()),
    ;

    /// The inverse of `self`, wherever this representation can hold one. The
    /// inverse of a rotation is the rotation that undoes it: its matrix is the
    /// inverse matrix, which for a rotation is the transpose.
    fn invert(&self) -> (r: Self)
        requires
            self.invertible(),
        ensures
            r == self.invert_spec(),
            self.is_rotation() ==> r.is_rotation(),
            self.is_rotation() ==> r.matrix() == self.matrix().transpose(),
            self.is_rotation() ==> self.matrix().mul_m(r.matrix()) == IntMat2::identity(),
            self.is_rotation() ==> r.matrix().mul_m(self.matrix()) == IntMat2::identity(),
    ;

    /// `invert` in place.
    fn invert_self(&mut self)
        requires
            old(self).invertible(),
        ensures
            *final(self) == old(self).invert_spec(),
            old(self).is_rotation() ==> final(self).is_rotation(),
            old(self).is_rotation() ==> final(self).matrix() == old(self).matrix().transpose(),
            old(self).is_rotation() ==> old(self).matrix().mul_m(final(self).matrix()) == IntMat2::identity(),
            old(self).is_rotation() ==> final(self).matrix().mul_m(old(self).matrix()) == IntMat2::identity(),
    ;
}

/// A three-dimensional rotation.
///
/// The trait does not ask for a unit quaternion of every rotation: with
/// whole components only the identity and the half turns about the axes
/// have one. A matrix rotation gives its quaternion up to a positive factor
/// (`Rot3::to_scaled_quat`), and the division by a square root that makes
/// it a unit is left to callers that work in floating point.
pub trait Rotation3: PartialEq + Eq + ApproxEq + ToMat3 + ToRot3 {
    /// The value that `concat` returns.
    spec fn concat_spec(&self, other: &Self) -> Self;

    /// The value that `invert` returns.
    spec fn invert_spec(&self) -> Self;

    /// Whether this representation can hold the composition of `self` and `other`.
    spec fn composable(&self, other: &Self) -> bool;

    /// The composition of two rotations can always be held.
    proof fn lemma_rotations_composable(&self, other: &Self)
        requires
            self.is_rotation(),
            other.is_rotation(),
        ensures
            self.composable(other),
    ;

    /// Whether this representation can hold the inverse of `self`.
    spec fn invertible(&self) -> bool;

    /// The inverse of a rotation can always be held.
    proof fn lemma_rotation_invertible(&self)
        requires
            self.is_rotation(),
        ensures
            self.invertible(),
    ;

    /// The composition is a rotation, and its matrix is the product.
    proof fn lemma_concat(&self, other: &Self)
        requires
            self.is_rotation(),
            other.is_rotation(),
        ensures
            self.concat_spec(other).is_rotation(),
            self.concat_spec(other).matrix() == self.matrix().mul_m(other.matrix()),
    ;

    /// The inverse is a rotation, and its matrix is the transpose, which is
    /// the inverse of the matrix on both sides.
    proof fn lemma_invert(&self)
        requires
            self.is_rotation(),
        ensures
            self.invert_spec().is_rotation(),
            self.invert_spec().matrix() == self.matrix().transpose(),
            self.matrix().mul_m(self.invert_spec().matrix()) == IntMat3::identity(),
            self.invert_spec().matrix().mul_m(self.matrix()) == IntMat3::identity(),
    ;

    /// The point turned about the origin.
    fn rotate_point3(&self, point: &Point3) -> (r: Point3)
        requires
            self.is_rotation(),
            self.matrix().mul_v(point@).fits(),
        ensures
            r@ == self.matrix().mul_v(point@),
    ;

    /// The vector turned.
    fn rotate_vec3(&self, vec: &Vec3) -> (r: Vec3)
        requires
            self.is_rotation(),
            self.matrix().mul_v(vec@).fits(),
        ensures
            r@ == self.matrix().mul_v(vec@),
    ;

    /// The ray with its origin and its direction turned.
    fn rotate_ray3(&self, ray: &Ray3) -> (r: Ray3)
        requires
            self.is_rotation(),
            self.matrix().mul_v(ray.origin@).fits(),
            self.matrix().mul_v(ray.direction@).fits(),
        ensures
            r.origin@ == self.matrix().mul_v(ray.origin@),
            r.direction@ == self.matrix().mul_v(ray.direction@),
    ;

    /// The composition of `self` and `other`, wherever this representation
    /// can hold it. The composition of two rotations is the rotation that
    /// turns by `other` and then by `self`.
    fn concat(&self, other: &Self) -> (r: Self)
        requires
            self.composable(other),
        ensures
            r == self.concat_spec(other),
            self.is_rotation() && other.is_rotation() ==> r.is_rotation(),
            self.is_rotation() && other.is_rotation() ==> r.matrix() == self.matrix().mul_m(
                other.matrix(),
            ),
    ;

    /// `concat` in place.
    fn concat_self(&mut self, other: &Self)
        requires
            old(self).composable(other),
        ensures
            *final(self) == old(self).concat_spec(other),
            old(self).is_rotation() && other.is_rotation() ==> final(self).is_rotation(),
            old(self).is_rotation() && other.is_rotation() ==> final(self).matrix() == old(
                self,
            ).matrix().mul_m(other.matrix()),
    ;

    /// The inverse of `self`, wherever this representation can hold one. The
    /// inverse of a rotation is the rotation that undoes it: its matrix is the
    /// inverse matrix, which for a rotation is the transpose.
    fn invert(&self) -> (r: Self)
        requires
            self.invertible(),
        ensures
            r == self.invert_spec(),
            self.is_rotation() ==> r.is_rotation(),
            self.is_rotation() ==> r.matrix() == self.matrix().transpose(),
            self.is_rotation() ==> self.matrix().mul_m(r.matrix()) == IntMat3::identity(),
            self.is_rotation() ==> r.matrix().mul_m(self.matrix()) == IntMat3::identity(),
    ;

    /// `invert` in place.
    fn invert_self(&mut self)
        requires
            old(self).invertible(),
        ensures
            *final(self) == old(self).invert_spec(),
            old(self).is_rotation() ==> final(self).is_rotation(),
            old(self).is_rotation() ==> final(self).matrix() == old(self).matrix().transpose(),
            old(self).is_rotation() ==> old(self).matrix().mul_m(final(self).matrix()) == IntMat3::identity(),
            old(self).is_rotation() ==> final(self).matrix().mul_m(old(self).matrix()) == IntMat3::identity(),
    ;
}

/// A two-dimensional rotation matrix.
///
/// The matrix is orthogonal and its determinant is one. To keep it so, a
/// value is made only by a named constructor, by composition or by
/// inversion, and the matrix is handed out read-only.
#[derive(Clone, Copy, Debug, PartialEq, Eq, Structural)]
pub struct Rot2 {
    mat: Mat2,
}

impl View for Rot2 {
    type V = IntMat2;

    closed spec fn view(&self) -> IntMat2 {
        self.mat@
    }
}

impl Rot2 {
    /// Every value wraps an orthogonal matrix of determinant one. Executable
    /// code learns this of a value in hand from `use_type_invariant`.
    #[verifier::type_invariant]
    pub open spec fn wraps_rotation(&self) -> bool {
        self@.is_rotation()
    }

    /// Two values that wrap the same matrix are the same value.
    pub proof fn lemma_same_matrix(a: Rot2, b: Rot2)
        requires
            a@ == b@,
        ensures
            a == b,
    {
    }

    /// The counter-clockwise turn by `theta`.
    pub fn from_angle(theta: Angle) -> (r: Rot2)
        ensures
            r.is_rotation(),
            r@ == IntMat2::rotation(theta.cos_spec(), theta.sin_spec()),
    {
        Rot2 { mat: Mat2::from_angle(theta) }
    }

    #[inline]
    pub fn as_mat2<'a>(&'a self) -> (m: &'a Mat2)
        ensures
            m@ == self@,
            m@.is_rotation(),
    {
        proof {
            use_type_invariant(self);
        }
        &self.mat
    }
}

/// Values that can be given as a two-dimensional rotation matrix.
pub trait ToRot2: AsRotation2 {
    fn to_rot2(&self) -> (r: Rot2)
        requires
            self.is_rotation(),
        ensures
            r.is_rotation(),
            r@ == self.matrix(),
    ;
}

impl AsRotation2 for Rot2 {
    open spec fn is_rotation(&self) -> bool {
        self@.is_rotation()
    }

    open spec fn matrix(&self) -> IntMat2 {
        self@
    }

    proof fn lemma_matrix_is_rotation(&self) {
    }
}

impl ToRot2 for Rot2 {
    #[inline]
    fn to_rot2(&self) -> (r: Rot2)
        ensures
            r == *self,
    {
        *self
    }
}

impl ToMat2 for Rot2 {
    #[inline]
    fn to_mat2(&self) -> (m: Mat2) {
        self.mat
    }
}

impl Rotation2 for Rot2 {
    closed spec fn concat_spec(&self, other: &Rot2) -> Rot2 {
        Rot2 { mat: Mat2::holding(self@.mul_m(other@)) }
    }

    closed spec fn invert_spec(&self) -> Rot2 {
        Rot2 { mat: Mat2::holding(self@.transpose()) }
    }

    open spec fn composable(&self, other: &Rot2) -> bool {
        self.is_rotation() && other.is_rotation()
    }

    proof fn lemma_rotations_composable(&self, other: &Rot2) {
    }

    open spec fn invertible(&self) -> bool {
        self.is_rotation()
    }

    proof fn lemma_rotation_invertible(&self) {
    }

    proof fn lemma_concat(&self, other: &Rot2) {
        lemma_rotation_mul2(self@, other@);
        lemma_orthogonal_entries2(self@.mul_m(other@));
    }

    proof fn lemma_invert(&self) {
        lemma_rotation_transpose2(self@);
        lemma_orthogonal_entries2(self@.transpose());
    }

    #[inline]
    fn rotate_point2(&self, point: &Point2) -> (r: Point2) {
        let v: Vec2 = self.mat.mul_v(&Vec2::new(point.x, point.y));
        Point2::new(v.x, v.y)
    }

    #[inline]
    fn rotate_vec2(&self, vec: &Vec2) -> (r: Vec2) {
        self.mat.mul_v(vec)
    }

    #[inline]
    fn rotate_ray2(&self, ray: &Ray2) -> (r: Ray2) {
        Ray2::new(self.rotate_point2(&ray.origin), self.rotate_vec2(&ray.direction))
    }

    #[inline]
    fn concat(&self, other: &Rot2) -> (r: Rot2) {
        proof {
            self.lemma_concat(other);
        }
        Rot2 { mat: self.mat.mul_m(&other.mat) }
    }

    #[inline]
    fn concat_self(&mut self, other: &Rot2) {
        proof {
            self.lemma_concat(other);
        }
        self.mat = self.mat.mul_m(&other.mat);
    }

    #[inline]
    fn invert(&self) -> (r: Rot2) {
        proof {
            self.lemma_invert();
        }
        Rot2 { mat: self.mat.transpose() }
    }

    #[inline]
    fn invert_self(&mut self) {
        proof {
            self.lemma_invert();
        }
        self.mat = self.mat.transpose();
    }
}

impl ApproxEq for Rot2 {
    open spec fn within(&self, other: &Rot2, eps: int) -> bool {
        self@.within(other@, eps)
    }

    #[inline]
    fn approx_epsilon() -> (eps: i64) {
        1
    }

    #[inline]
    fn approx_eq(&self, other: &Rot2) -> (r: bool) {
        self.mat.approx_eq(&other.mat)
    }

    #[inline]
    fn approx_eq_eps(&self, other: &Rot2, approx_epsilon: &i64) -> (r: bool) {
        self.mat.approx_eq_eps(&other.mat, approx_epsilon)
    }
}

/// A three-dimensional rotation matrix.
///
/// The matrix is orthogonal and its determinant is one. To keep it so, a
/// value is made only by a named constructor, by composition, by inversion
/// or from a unit quaternion, and the matrix is handed out read-only.
#[derive(Clone, Copy, Debug, PartialEq, Eq, Structural)]
pub struct Rot3 {
    mat: Mat3,
}

impl View for Rot3 {
    type V = IntMat3;

    closed spec fn view(&self) -> IntMat3 {
        self.mat@
    }
}

impl Rot3 {
    /// Every value wraps an orthogonal matrix of determinant one. Executable
    /// code learns this of a value in hand from `use_type_invariant`.
    #[verifier::type_invariant]
    pub open spec fn wraps_rotation(&self) -> bool {
        self@.is_rotation()
    }

    /// Two values that wrap the same matrix are the same value.
    pub proof fn lemma_same_matrix(a: Rot3, b: Rot3)
        requires
            a@ == b@,
        ensures
            a == b,
    {
    }

    /// The frame that looks along `dir` with `up` upwards. Both lie along
    /// coordinate axes, and not along the same one.
    #[inline]
    pub fn look_at(dir: &Vec3, up: &Vec3) -> (r: Rot3)
        requires
            dir@.is_axis(),
            up@.is_axis(),
            !dir@.shares_axis(up@),
        ensures
            r.is_rotation(),
            r@ == IntMat3::look_at(dir@, up@),
    {
        Rot3 { mat: Mat3::look_at(dir, up) }
    }

    /// Create a rotation matrix from a rotation around the `x` axis (pitch).
    pub fn from_angle_x(theta: Angle) -> (r: Rot3)
        ensures
            r.is_rotation(),
            r@ == IntMat3::rotation_x(theta.cos_spec(), theta.sin_spec()),
    {
        Rot3 { mat: Mat3::from_angle_x(theta) }
    }

    /// Create a rotation matrix from a rotation around the `y` axis (yaw).
    pub fn from_angle_y(theta: Angle) -> (r: Rot3)
        ensures
            r.is_rotation(),
            r@ == IntMat3::rotation_y(theta.cos_spec(), theta.sin_spec()),
    {
        Rot3 { mat: Mat3::from_angle_y(theta) }
    }

    /// Create a rotation matrix from a rotation around the `z` axis (roll).
    pub fn from_angle_z(theta: Angle) -> (r: Rot3)
        ensures
            r.is_rotation(),
            r@ == IntMat3::rotation_z(theta.cos_spec(), theta.sin_spec()),
    {
        Rot3 { mat: Mat3::from_angle_z(theta) }
    }

    /// Create a rotation matrix from a set of euler angles.
    ///
    /// # Parameters
    ///
    /// - `x`: the angular rotation around the `x` axis (pitch).
    /// - `y`: the angular rotation around the `y` axis (yaw).
    /// - `z`: the angular rotation around the `z` axis (roll).
    ///
    /// The turn about `x` is applied first and the turn about `z` last.
    pub fn from_euler(x: Angle, y: Angle, z: Angle) -> (r: Rot3)
        ensures
            r.is_rotation(),
            r@ == IntMat3::euler(
                x.cos_spec(),
                x.sin_spec(),
                y.cos_spec(),
                y.sin_spec(),
                z.cos_spec(),
                z.sin_spec(),
            ),
    {
        Rot3 { mat: Mat3::from_euler(x, y, z) }
    }

    /// Create a rotation matrix from a rotation around a unit vector.
    pub fn from_axis_angle(axis: &Vec3, angle: Angle) -> (r: Rot3)
        requires
            axis@.is_unit(),
        ensures
            r.is_rotation(),
            r@ == IntMat3::axis_angle(axis@, angle.cos_spec(), angle.sin_spec()),
    {
        Rot3 { mat: Mat3::from_axis_angle(axis, angle) }
    }

    /// A positive multiple of the unit quaternion of the rotation, in
    /// lowest terms: its components are -1, 0 or 1, and it turns every
    /// vector as the rotation does, times its squared magnitude. The unit
    /// quaternion itself is this one over the square root of its squared
    /// magnitude, which whole numbers hold only where that is 1.
    pub fn to_scaled_quat(&self) -> (q: Quat)
        ensures
            q@.d == 1,
            q@.n == self@.scaled_quat(),
            q@.n.magnitude2() > 0,
            q@.n.turn_matrix() == self@.scaled(q@.n.magnitude2()),
    {
        proof {
            use_type_invariant(self);
            lemma_orthogonal_determinant3(
                self@,
                IntVec3 { x: 0, y: 0, z: 0 },
                IntVec3 { x: 0, y: 0, z: 0 },
            );
        }
        self.mat.to_scaled_quat()
    }

    /// The rotation that a quaternion of any length stands for once brought
    /// to unit length, if the matrix of that rotation has whole entries.
    /// The scaled quaternion of a rotation gives the rotation back.
    pub fn from_scaled_quat(q: &Quat) -> (r: Option<Rot3>)
        requires
            fits_i64(q@.n.magnitude2()),
            q@.n.turn_matrix().fits(),
        ensures
            r.is_some() == q@.n.has_rotation(),
            r matches Some(rot) ==> rot@ == q@.n.turn_signs(),
    {
        let ss: i128 = wide_mul(q.s, q.s);
        let xx: i128 = wide_mul(q.v.x, q.v.x);
        let yy: i128 = wide_mul(q.v.y, q.v.y);
        let zz: i128 = wide_mul(q.v.z, q.v.z);
        proof {
            lemma_square_nonneg(q.s as int);
            lemma_square_nonneg(q.v.x as int);
            lemma_square_nonneg(q.v.y as int);
            lemma_square_nonneg(q.v.z as int);
        }
        let m2: i64 = narrow(ss + xx + yy + zz);
        if m2 <= 0 {
            return None;
        }
        let xy: i128 = wide_mul(q.v.x, q.v.y);
        let xz: i128 = wide_mul(q.v.x, q.v.z);
        let yz: i128 = wide_mul(q.v.y, q.v.z);
        let sx: i128 = wide_mul(q.s, q.v.x);
        let sy: i128 = wide_mul(q.s, q.v.y);
        let sz: i128 = wide_mul(q.s, q.v.z);
        let turn: Mat3 = Mat3::new(
            sum_of_products(ss, yy, xx, -zz),
            2 * sum_of_products(xy, 0, sz, 0),
            2 * sum_of_products(xz, sy, 0, 0),
            2 * sum_of_products(xy, sz, 0, 0),
            sum_of_products(ss, xx, yy, -zz),
            2 * sum_of_products(yz, 0, sx, 0),
            2 * sum_of_products(xz, 0, sy, 0),
            2 * sum_of_products(yz, sx, 0, 0),
            sum_of_products(ss, xx, -yy, zz),
        );
        assert(turn@ == q@.n.turn_matrix());
        let signs: Mat3 = Mat3::from_cols(turn.x.signum(), turn.y.signum(), turn.z.signum());
        if !signs.is_rotation() {
            return None;
        }
        proof {
            lemma_orthogonal_entries3(signs@);
        }
        let scaled: Mat3 = Mat3::new(
            sign_mul(signs.x.x, m2),
            sign_mul(signs.x.y, m2),
            sign_mul(signs.x.z, m2),
            sign_mul(signs.y.x, m2),
            sign_mul(signs.y.y, m2),
            sign_mul(signs.y.z, m2),
            sign_mul(signs.z.x, m2),
            sign_mul(signs.z.y, m2),
            sign_mul(signs.z.z, m2),
        );
        assert(scaled@ == signs@.scaled(m2 as int));
        if scaled == turn {
            Some(Rot3 { mat: signs })
        } else {
            None
        }
    }

    #[inline]
    pub fn as_mat3<'a>(&'a self) -> (m: &'a Mat3)
        ensures
            m@ == self@,
            m@.is_rotation(),
    {
        proof {
            use_type_invariant(self);
        }
        &self.mat
    }
}

/// Values that can be given as a three-dimensional rotation matrix.
pub trait ToRot3: AsRotation3 {
    fn to_rot3(&self) -> (r: Rot3)
        requires
            self.is_rotation(),
        ensures
            r.is_rotation(),
            r@ == self.matrix(),
    ;
}

impl AsRotation3 for Rot3 {
    open spec fn is_rotation(&self) -> bool {
        self@.is_rotation()
    }

    open spec fn matrix(&self) -> IntMat3 {
        self@
    }

    proof fn lemma_matrix_is_rotation(&self) {
    }
}

impl ToRot3 for Rot3 {
    #[inline]
    fn to_rot3(&self) -> (r: Rot3)
        ensures
            r == *self,
    {
        *self
    }
}

impl ToMat3 for Rot3 {
    #[inline]
    fn to_mat3(&self) -> (m: Mat3) {
        self.mat
    }
}

impl Rotation3 for Rot3 {
    closed spec fn concat_spec(&self, other: &Rot3) -> Rot3 {
        Rot3 { mat: Mat3::holding(self@.mul_m(other@)) }
    }

    closed spec fn invert_spec(&self) -> Rot3 {
        Rot3 { mat: Mat3::holding(self@.transpose()) }
    }

    open spec fn composable(&self, other: &Rot3) -> bool {
        self.is_rotation() && other.is_rotation()
    }

    proof fn lemma_rotations_composable(&self, other: &Rot3) {
    }

    open spec fn invertible(&self) -> bool {
        self.is_rotation()
    }

    proof fn lemma_rotation_invertible(&self) {
    }

    proof fn lemma_concat(&self, other: &Rot3) {
        lemma_rotation_mul3(self@, other@);
        lemma_orthogonal_entries3(self@.mul_m(other@));
    }

    proof fn lemma_invert(&self) {
        lemma_rotation_transpose3(self@);
        lemma_orthogonal_entries3(self@.transpose());
    }

    #[inline]
    fn rotate_point3(&self, point: &Point3) -> (r: Point3) {
        let v: Vec3 = self.mat.mul_v(&Vec3::new(point.x, point.y, point.z));
        Point3::new(v.x, v.y, v.z)
    }

    #[inline]
    fn rotate_vec3(&self, vec: &Vec3) -> (r: Vec3) {
        self.mat.mul_v(vec)
    }

    #[inline]
    fn rotate_ray3(&self, ray: &Ray3) -> (r: Ray3) {
        Ray3::new(self.rotate_point3(&ray.origin), self.rotate_vec3(&ray.direction))
    }

    #[inline]
    fn concat(&self, other: &Rot3) -> (r: Rot3) {
        proof {
            self.lemma_concat(other);
        }
        Rot3 { mat: self.mat.mul_m(&other.mat) }
    }

    #[inline]
    fn concat_self(&mut self, other: &Rot3) {
        proof {
            self.lemma_concat(other);
        }
        self.mat = self.mat.mul_m(&other.mat);
    }

    #[inline]
    fn invert(&self) -> (r: Rot3) {
        proof {
            self.lemma_invert();
        }
        Rot3 { mat: self.mat.transpose() }
    }

    #[inline]
    fn invert_self(&mut self) {
        proof {
            self.lemma_invert();
        }
        self.mat = self.mat.transpose();
    }
}

impl ApproxEq for Rot3 {
    open spec fn within(&self, other: &Rot3, eps: int) -> bool {
        self@.within(other@, eps)
    }

    #[inline]
    fn approx_epsilon() -> (eps: i64) {
        1
    }

    #[inline]
    fn approx_eq(&self, other: &Rot3) -> (r: bool) {
        self.mat.approx_eq(&other.mat)
    }

    #[inline]
    fn approx_eq_eps(&self, other: &Rot3, approx_epsilon: &i64) -> (r: bool) {
        self.mat.approx_eq_eps(&other.mat, approx_epsilon)
    }
}

// Quaternion rotation impls

impl ToRot3 for Quat {
    #[inline]
    fn to_rot3(&self) -> (r: Rot3) {
        proof {
            self.lemma_matrix_is_rotation();
        }
        Rot3 { mat: self.to_mat3() }
    }
}

impl Rotation3 for Quat {
    open spec fn concat_spec(&self, other: &Quat) -> Quat {
        Quat::holding(self@.mul_q(other@))
    }

    open spec fn invert_spec(&self) -> Quat {
        Quat::holding(self@.inverse())
    }

    /// The Hamilton product can be held.
    open spec fn composable(&self, other: &Quat) -> bool {
        self@.mul_q(other@).fits()
    }

    proof fn lemma_rotations_composable(&self, other: &Quat) {
        let p = self@.n.mul_q(other@.n);
        lemma_unit_quat_mul(self@.n, other@.n);
        lemma_unit_square_sum4(p.s, p.v.x, p.v.y, p.v.z);
        lemma_mul_by_sign(self@.d, other@.d);
        assert(self@.mul_q(other@) == (RatQuat { n: p, d: 1 }));
    }

    /// The squared magnitude is not zero, whether it is one or not, and the
    /// conjugate, the squared magnitude and the inverse can be held.
    open spec fn invertible(&self) -> bool {
        self@.invertible()
    }

    proof fn lemma_rotation_invertible(&self) {
        let n = self@.n;
        let c = n.conjugate();
        lemma_unit_quat_inverse(n);
        lemma_unit_square_sum4(n.s, n.v.x, n.v.y, n.v.z);
        lemma_unit_square_sum4(c.s, c.v.x, c.v.y, c.v.z);
        lemma_mul_by_sign(self@.d, self@.d);
        lemma_mul_by_sign(self@.d, n.magnitude2());
        assert(c.mul_s(1) == c);
        assert(self@.inverse() == (RatQuat { n: c, d: 1 }));
    }

    proof fn lemma_concat(&self, other: &Quat) {
        let p = self@.n.mul_q(other@.n);
        lemma_unit_quat_mul(self@.n, other@.n);
        lemma_unit_square_sum4(p.s, p.v.x, p.v.y, p.v.z);
        lemma_mul_by_sign(self@.d, other@.d);
        assert(self@.mul_q(other@) == (RatQuat { n: p, d: 1 }));
        assert(Quat::holding(self@.mul_q(other@))@ == self@.mul_q(other@));
    }

    proof fn lemma_invert(&self) {
        let n = self@.n;
        let c = n.conjugate();
        lemma_unit_quat_inverse(n);
        lemma_unit_quat_matrix(n, IntVec3 { x: 0, y: 0, z: 0 });
        lemma_unit_square_sum4(n.s, n.v.x, n.v.y, n.v.z);
        lemma_unit_square_sum4(c.s, c.v.x, c.v.y, c.v.z);
        lemma_mul_by_sign(self@.d, self@.d);
        lemma_mul_by_sign(self@.d, n.magnitude2());
        assert(c.mul_s(1) == c);
        assert(self@.inverse() == (RatQuat { n: c, d: 1 }));
        assert(Quat::holding(self@.inverse())@ == self@.inverse());
    }

    #[inline]
    fn rotate_point3(&self, point: &Point3) -> (r: Point3) {
        proof {
            lemma_unit_quat_matrix(self@.n, point@);
        }
        let v: Vec3 = self.mul_v(&Vec3::new(point.x, point.y, point.z));
        Point3::new(v.x, v.y, v.z)
    }

    #[inline]
    fn rotate_vec3(&self, vec: &Vec3) -> (r: Vec3)
        ensures
            r@ == self@.n.mul_v(vec@),
    {
        proof {
            lemma_unit_quat_matrix(self@.n, vec@);
        }
        self.mul_v(vec)
    }

    #[inline]
    fn rotate_ray3(&self, ray: &Ray3) -> (r: Ray3) {
        Ray3::new(self.rotate_point3(&ray.origin), self.rotate_vec3(&ray.direction))
    }

    #[inline]
    fn concat(&self, other: &Quat) -> (r: Quat)
        ensures
            r@ == self@.mul_q(other@),
    {
        proof {
            assert(Quat::holding(self@.mul_q(other@))@ == self@.mul_q(other@));
            if self.is_rotation() && other.is_rotation() {
                self.lemma_concat(other);
            }
        }
        self.mul_q(other)
    }

    #[inline]
    fn concat_self(&mut self, other: &Quat)
        ensures
            final(self)@ == old(self)@.mul_q(other@),
    {
        *self = self.concat(other);
    }

    /// The inverse of any quaternion that is not zero: the conjugate over
    /// the squared magnitude.
    #[inline]
    fn invert(&self) -> (r: Quat)
        ensures
            r@ == self@.inverse(),
            self@.mul_q(r@).is_one(),
            r@.mul_q(self@).is_one(),
    {
        proof {
            lemma_inverse_cancels(self@);
            assert(Quat::holding(self@.inverse())@ == self@.inverse());
            if self.is_rotation() {
                self.lemma_invert();
            }
        }
        let m: Ratio = self.magnitude2();
        self.conjugate().div_s(&m)
    }

    #[inline]
    fn invert_self(&mut self)
        ensures
            final(self)@ == old(self)@.inverse(),
            old(self)@.mul_q(final(self)@).is_one(),
            final(self)@.mul_q(old(self)@).is_one(),
    {
        *self = self.invert()
    }
}

} // verus!
