//! Exact rotations of the integer lattice in two and three dimensions.
//!
//! A rotation is held either as an orthogonal matrix with integer entries
//! ([`Rot2`], [`Rot3`]) or, in three dimensions, as a unit quaternion with
//! whole components ([`Quat`]). All arithmetic is exact, so composing a
//! rotation with its inverse gives the identity itself, not something near it.
//! A quaternion holds fractions, whole numerators over one denominator, so
//! that every quaternion that is not zero has its inverse.
//!
//! Composition follows matrix multiplication applied to column vectors:
//! `a.concat(&b)` rotates by `b` first and by `a` second.
//!
//! Matrices with whole entries hold the turns by whole quarter turns and no
//! others. Turns by other angles have irrational entries; they are left to
//! callers that work in floating point.

pub mod angle;
pub mod approx;
pub mod arith;
pub mod cases;
pub mod convert;
pub mod laws;
pub mod lemmas;
pub mod matrix;
pub mod model;
pub mod point;
pub mod quaternion;
pub mod ray;
pub mod rotation;
pub mod vector;

pub use angle::Angle;
pub use approx::ApproxEq;
pub use convert::{AsRotation2, AsRotation3, ToMat2, ToMat3, ToQuat};
pub use matrix::{Mat2, Mat3};
pub use point::{Point2, Point3};
pub use quaternion::{Quat, Ratio};
pub use ray::{Ray2, Ray3};
pub use rotation::{Rot2, Rot3, Rotation2, Rotation3, ToRot2, ToRot3};
pub use vector::{Vec2, Vec3};
