//! What holds of every rotation, whatever its representation.

use crate::convert::AsRotation3;
use crate::arith::lemma_mul_neg;
use crate::cases::lemma_orthogonal_determinant3;
use crate::lemmas::{
    lemma_inverse_cancels, lemma_orthogonal_image_fits2, lemma_orthogonal_image_fits3,
    lemma_orthogonal_keeps_dot2, lemma_scaled_quat_gives_back,
    lemma_orthogonal_keeps_dot3, lemma_same_matrix_quat, lemma_unit_quat_matrix,
    lemma_unit_turn_matrix,
};
use crate::vector::Vec3;
use crate::model::{IntMat2, IntMat3, IntVec2, IntVec3};
use crate::quaternion::Quat;
use crate::rotation::{Rot3, Rotation2, Rotation3};
use vstd::prelude::*;

verus! {

/// Rotations of the plane are closed under composition: the composition of
/// two rotations is a rotation, its matrix is orthogonal with determinant
/// one, and it is the product of the two matrices in the order of the call.
pub proof fn law_concat_closed2<R: Rotation2>(a: R, b: R)
    requires
        a.is_rotation(),
        b.is_rotation(),
    ensures
        a.concat_spec(&b).is_rotation(),
        a.concat_spec(&b).matrix().is_orthogonal(),
        a.concat_spec(&b).matrix().determinant() == 1,
        a.concat_spec(&b).matrix() == a.matrix().mul_m(b.matrix()),
{
    a.lemma_concat(&b);
    a.concat_spec(&b).lemma_matrix_is_rotation();
}

/// Rotations of space are closed under composition: the composition of two
/// rotations is a rotation, its matrix is orthogonal with determinant one,
/// and it is the product of the two matrices in the order of the call. For
/// two quaternions this says that converting to matrices and composing
/// commute.
pub proof fn law_concat_closed3<R: Rotation3>(a: R, b: R)
    requires
        a.is_rotation(),
        b.is_rotation(),
    ensures
        a.concat_spec(&b).is_rotation(),
        a.concat_spec(&b).matrix().is_orthogonal(),
        a.concat_spec(&b).matrix().determinant() == 1,
        a.concat_spec(&b).matrix() == a.matrix().mul_m(b.matrix()),
{
    a.lemma_concat(&b);
    a.concat_spec(&b).lemma_matrix_is_rotation();
}

/// A rotation of the plane composed with its inverse, on either side, is
/// the identity, exactly and so also within the tolerance of 1.
pub proof fn law_inverse_cancels2<R: Rotation2>(r: R)
    requires
        r.is_rotation(),
    ensures
        r.concat_spec(&r.invert_spec()).matrix() == IntMat2::identity(),
        r.invert_spec().concat_spec(&r).matrix() == IntMat2::identity(),
        r.concat_spec(&r.invert_spec()).matrix().within(IntMat2::identity(), 1),
{
    r.lemma_invert();
    r.lemma_matrix_is_rotation();
    r.lemma_concat(&r.invert_spec());
    r.invert_spec().lemma_concat(&r);
}

/// A rotation of space composed with its inverse, on either side, is the
/// identity, exactly and so also within the tolerance of 1.
pub proof fn law_inverse_cancels3<R: Rotation3>(r: R)
    requires
        r.is_rotation(),
    ensures
        r.concat_spec(&r.invert_spec()).matrix() == IntMat3::identity(),
        r.invert_spec().concat_spec(&r).matrix() == IntMat3::identity(),
        r.concat_spec(&r.invert_spec()).matrix().within(IntMat3::identity(), 1),
{
    r.lemma_invert();
    r.lemma_matrix_is_rotation();
    r.lemma_concat(&r.invert_spec());
    r.invert_spec().lemma_concat(&r);
}

/// A rotation of the plane keeps the dot product of any two vectors, and
/// so every length and every angle.
pub proof fn law_keeps_dot2<R: Rotation2>(r: R, u: IntVec2, v: IntVec2)
    requires
        r.is_rotation(),
    ensures
        r.matrix().mul_v(u).dot(r.matrix().mul_v(v)) == u.dot(v),
{
    r.lemma_matrix_is_rotation();
    lemma_orthogonal_keeps_dot2(r.matrix(), u, v);
}

/// A rotation of space keeps the dot product of any two vectors, and so
/// every length and every angle.
pub proof fn law_keeps_dot3<R: Rotation3>(r: R, u: IntVec3, v: IntVec3)
    requires
        r.is_rotation(),
    ensures
        r.matrix().mul_v(u).dot(r.matrix().mul_v(v)) == u.dot(v),
{
    r.lemma_matrix_is_rotation();
    lemma_orthogonal_keeps_dot3(r.matrix(), u, v);
}

/// A rotation of the plane turns a vector into one that can be held, if
/// every coordinate of the vector can be held and negated.
pub proof fn law_image_fits2<R: Rotation2>(r: R, v: IntVec2)
    requires
        r.is_rotation(),
        i64::MIN < v.x <= i64::MAX,
        i64::MIN < v.y <= i64::MAX,
    ensures
        r.matrix().mul_v(v).fits(),
{
    r.lemma_matrix_is_rotation();
    lemma_orthogonal_image_fits2(r.matrix(), v);
}

/// A rotation of space turns a vector into one that can be held, if every
/// coordinate of the vector can be held and negated.
pub proof fn law_image_fits3<R: Rotation3>(r: R, v: IntVec3)
    requires
        r.is_rotation(),
        i64::MIN < v.x <= i64::MAX,
        i64::MIN < v.y <= i64::MAX,
        i64::MIN < v.z <= i64::MAX,
    ensures
        r.matrix().mul_v(v).fits(),
{
    r.lemma_matrix_is_rotation();
    lemma_orthogonal_image_fits3(r.matrix(), v);
}

/// A unit quaternion turns every vector exactly as its matrix does.
pub proof fn law_quat_turns_as_matrix(q: Quat, v: IntVec3)
    requires
        q.is_rotation(),
    ensures
        q@.n.mul_v(v) == q.matrix().mul_v(v),
        q.matrix() == q@.n.to_mat3(),
{
    lemma_unit_quat_matrix(q@.n, v);
}

/// Converting a rotation matrix to its scaled quaternion loses nothing: the
/// quaternion is not zero, and the matrix of `u -> q u conj(q)` is the
/// rotation matrix times the squared magnitude, so that dividing by the
/// squared magnitude gives the matrix back. Where the squared magnitude is
/// 1 the scaled quaternion is the unit quaternion of the rotation.
pub proof fn law_scaled_quat_lossless(r: Rot3)
    requires
        r.is_rotation(),
    ensures
        r@.scaled_quat().magnitude2() > 0,
        r@.scaled_quat().turn_matrix() == r@.scaled(r@.scaled_quat().magnitude2()),
        r@.scaled_quat().is_unit() ==> r@.scaled_quat().to_mat3() == r@,
{
    let zero = IntVec3 { x: 0, y: 0, z: 0 };
    lemma_orthogonal_determinant3(r@, zero, zero);
    if r@.scaled_quat().is_unit() {
        lemma_unit_turn_matrix(r@.scaled_quat());
    }
}

/// A rotation matrix, its scaled quaternion, and the rotation matrix of
/// that quaternion: the last is the first. So is it for the value that
/// `to_scaled_quat` returns and the one that `from_scaled_quat` makes of it.
pub proof fn law_matrix_quat_round_trip(r: Rot3)
    requires
        r.is_rotation(),
    ensures
        r@.scaled_quat().has_rotation(),
        r@.scaled_quat().turn_signs() == r@,
{
    lemma_scaled_quat_gives_back(r@);
}

/// Converting a unit quaternion to a rotation matrix loses nothing but the
/// sign: two unit quaternions with the same matrix are the same or
/// opposite, and opposite quaternions stand for the same rotation.
pub proof fn law_quat_matrix_lossless(p: Quat, q: Quat)
    requires
        p.is_rotation(),
        q.is_rotation(),
    ensures
        p.matrix() == q.matrix() <==> (p@.n == q@.n || p@.n == q@.n.neg()),
{
    if p.matrix() == q.matrix() {
        lemma_same_matrix_quat(p@.n, q@.n);
    }
    if p@.n == q@.n.neg() {
        lemma_mul_neg(q@.n.s, q@.n.s);
        lemma_mul_neg(q@.n.s, q@.n.v.x);
        lemma_mul_neg(q@.n.s, q@.n.v.y);
        lemma_mul_neg(q@.n.s, q@.n.v.z);
        lemma_mul_neg(q@.n.v.x, q@.n.v.x);
        lemma_mul_neg(q@.n.v.x, q@.n.v.y);
        lemma_mul_neg(q@.n.v.x, q@.n.v.z);
        lemma_mul_neg(q@.n.v.y, q@.n.v.y);
        lemma_mul_neg(q@.n.v.y, q@.n.v.z);
        lemma_mul_neg(q@.n.v.z, q@.n.v.z);
    }
}

/// A unit quaternion and a rotation matrix that wraps the quaternion's
/// matrix turn a vector alike, and both can turn every vector whose
/// coordinates can be held and negated.
pub proof fn law_quat_and_rot3_turn_alike(q: Quat, m: Rot3, v: Vec3)
    requires
        q.is_rotation(),
        m@ == q.matrix(),
    ensures
        m.is_rotation(),
        q@.n.mul_v(v@) == m.matrix().mul_v(v@),
        q.matrix().mul_v(v@) == m.matrix().mul_v(v@),
        v.x > i64::MIN && v.y > i64::MIN && v.z > i64::MIN ==> m.matrix().mul_v(v@).fits(),
{
    lemma_unit_quat_matrix(q@.n, v@);
    if v.x > i64::MIN && v.y > i64::MIN && v.z > i64::MIN {
        lemma_orthogonal_image_fits3(m@, v@);
    }
}

/// Every quaternion that is not zero has an inverse, the conjugate over the
/// squared magnitude, and the product of the two is the quaternion 1 on
/// either side, whether the quaternion has unit length or not.
pub proof fn law_quat_inverse_cancels(q: Quat)
    requires
        q@.d != 0,
        q@.n.magnitude2() != 0,
    ensures
        q@.mul_q(q@.inverse()).is_one(),
        q@.inverse().mul_q(q@).is_one(),
        q@.inverse().d != 0,
{
    lemma_inverse_cancels(q@);
}

} // verus!
