//! Vectors with machine-integer coordinates.

use crate::arith::{narrow, tiny_mul, wide_mul};
use crate::model::{IntVec2, IntVec3};
use vstd::prelude::*;

verus! {

/// A vector of the plane.
#[derive(Clone, Copy, Debug, PartialEq, Eq, Structural)]
pub struct Vec2 {
    pub x: i64,
    pub y: i64,
}

impl View for Vec2 {
    type V = IntVec2;

    open spec fn view(&self) -> IntVec2 {
        IntVec2 { x: self.x as int, y: self.y as int }
    }
}

impl Vec2 {
    /// The machine vector that holds `v`, for a `v` that fits.
    pub open spec fn holding(v: IntVec2) -> Vec2 {
        Vec2 { x: v.x as i64, y: v.y as i64 }
    }

    pub fn new(x: i64, y: i64) -> (v: Vec2)
        ensures
            v@ == (IntVec2 { x: x as int, y: y as int }),
    {
        Vec2 { x, y }
    }
}

/// A vector of space.
#[derive(Clone, Copy, Debug, PartialEq, Eq, Structural)]
pub struct Vec3 {
    pub x: i64,
    pub y: i64,
    pub z: i64,
}

impl View for Vec3 {
    type V = IntVec3;

    open spec fn view(&self) -> IntVec3 {
        IntVec3 { x: self.x as int, y: self.y as int, z: self.z as int }
    }
}

/// -1, 0 or 1 according to the sign of a wide value.
pub(crate) fn sign_of_wide(v: i128) -> (s: i64)
    ensures
        s == crate::model::sign(v as int),
{
    if v > 0 {
        1
    } else if v < 0 {
        -1
    } else {
        0
    }
}

/// -1, 0 or 1 according to the sign of `v`.
fn sign_of(v: i64) -> (s: i64)
    ensures
        s == crate::model::sign(v as int),
{
    if v > 0 {
        1
    } else if v < 0 {
        -1
    } else {
        0
    }
}

impl Vec3 {
    /// The machine vector that holds `v`, for a `v` that fits.
    pub open spec fn holding(v: IntVec3) -> Vec3 {
        Vec3 { x: v.x as i64, y: v.y as i64, z: v.z as i64 }
    }

    pub fn new(x: i64, y: i64, z: i64) -> (v: Vec3)
        ensures
            v@ == (IntVec3 { x: x as int, y: y as int, z: z as int }),
    {
        Vec3 { x, y, z }
    }

    /// The vector of the signs of the coordinates.
    pub fn signum(&self) -> (v: Vec3)
        ensures
            v@ == self@.signum(),
    {
        Vec3 { x: sign_of(self.x), y: sign_of(self.y), z: sign_of(self.z) }
    }

    /// The cross product of two vectors whose coordinates are -1, 0 or 1.
    pub(crate) fn cross_small(&self, other: &Vec3) -> (v: Vec3)
        requires
            -1 <= self.x <= 1 && -1 <= self.y <= 1 && -1 <= self.z <= 1,
            -1 <= other.x <= 1 && -1 <= other.y <= 1 && -1 <= other.z <= 1,
        ensures
            v@ == self@.cross(other@),
            -2 <= v.x <= 2 && -2 <= v.y <= 2 && -2 <= v.z <= 2,
    {
        let x: i64 = tiny_mul(self.y, other.z) - tiny_mul(self.z, other.y);
        let y: i64 = tiny_mul(self.z, other.x) - tiny_mul(self.x, other.z);
        let z: i64 = tiny_mul(self.x, other.y) - tiny_mul(self.y, other.x);
        proof {
            crate::arith::lemma_mul_by_sign(self.y as int, other.z as int);
            crate::arith::lemma_mul_by_sign(self.z as int, other.y as int);
            crate::arith::lemma_mul_by_sign(self.z as int, other.x as int);
            crate::arith::lemma_mul_by_sign(self.x as int, other.z as int);
            crate::arith::lemma_mul_by_sign(self.x as int, other.y as int);
            crate::arith::lemma_mul_by_sign(self.y as int, other.x as int);
        }
        Vec3 { x, y, z }
    }

    /// The cross product, where it can be held.
    pub fn cross(&self, other: &Vec3) -> (v: Vec3)
        requires
            self@.cross(other@).fits(),
        ensures
            v@ == self@.cross(other@),
    {
        let x: i128 = wide_mul(self.y, other.z) - wide_mul(self.z, other.y);
        let y: i128 = wide_mul(self.z, other.x) - wide_mul(self.x, other.z);
        let z: i128 = wide_mul(self.x, other.y) - wide_mul(self.y, other.x);
        Vec3 { x: narrow(x), y: narrow(y), z: narrow(z) }
    }
}

} // verus!
