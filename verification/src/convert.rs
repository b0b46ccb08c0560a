//! What it is to stand for a rotation, and the conversions between the
//! representations. A conversion loses nothing: the result stands for the
//! same matrix.

use crate::matrix::{Mat2, Mat3};
use crate::model::{IntMat2, IntMat3};
use crate::quaternion::Quat;
use vstd::prelude::*;

verus! {

/// A value that stands for a rotation of the plane.
pub trait AsRotation2: Sized {
    /// Whether the value is well formed, so that it stands for a rotation.
    spec fn is_rotation(&self) -> bool;

    /// The matrix of the rotation.
    spec fn matrix(&self) -> IntMat2;

    /// A well-formed value stands for an orthogonal matrix of determinant one.
    proof fn lemma_matrix_is_rotation(&self)
        requires
            self.is_rotation(),
        ensures
            self.matrix().is_rotation(),
    ;
}

/// A value that stands for a rotation of space.
pub trait AsRotation3: Sized {
    /// Whether the value is well formed, so that it stands for a rotation.
    spec fn is_rotation(&self) -> bool;

    /// The matrix of the rotation.
    spec fn matrix(&self) -> IntMat3;

    /// A well-formed value stands for an orthogonal matrix of determinant one.
    proof fn lemma_matrix_is_rotation(&self)
        requires
            self.is_rotation(),
        ensures
            self.matrix().is_rotation(),
    ;
}

/// Rotations of the plane that can be given as a matrix.
pub trait ToMat2: AsRotation2 {
    fn to_mat2(&self) -> (m: Mat2)
        requires
            self.is_rotation(),
        ensures
            m@ == self.matrix(),
    ;
}

/// Rotations of space that can be given as a matrix.
pub trait ToMat3: AsRotation3 {
    fn to_mat3(&self) -> (m: Mat3)
        requires
            self.is_rotation(),
        ensures
            m@ == self.matrix(),
    ;
}

/// Values that can be given as a quaternion; a rotation is given as a unit
/// quaternion with the same matrix.
pub trait ToQuat: AsRotation3 {
    fn to_quat(&self) -> (q: Quat)
        ensures
            self.is_rotation() ==> q@.is_whole_unit(),
            self.is_rotation() ==> q@.n.to_mat3() == self.matrix(),
    ;
}

} // verus!
