//! Points with machine-integer coordinates. A point is viewed as its
//! position vector from the origin.

use crate::model::{IntVec2, IntVec3};
use vstd::prelude::*;

verus! {

/// A point of the plane.
#[derive(Clone, Copy, Debug, PartialEq, Eq, Structural)]
pub struct Point2 {
    pub x: i64,
    pub y: i64,
}

impl View for Point2 {
    type V = IntVec2;

    open spec fn view(&self) -> IntVec2 {
        IntVec2 { x: self.x as int, y: self.y as int }
    }
}

impl Point2 {
    pub fn new(x: i64, y: i64) -> (p: Point2)
        ensures
            p@ == (IntVec2 { x: x as int, y: y as int }),
    {
        Point2 { x, y }
    }
}

/// A point of space.
#[derive(Clone, Copy, Debug, PartialEq, Eq, Structural)]
pub struct Point3 {
    pub x: i64,
    pub y: i64,
    pub z: i64,
}

impl View for Point3 {
    type V = IntVec3;

    open spec fn view(&self) -> IntVec3 {
        IntVec3 { x: self.x as int, y: self.y as int, z: self.z as int }
    }
}

impl Point3 {
    pub fn new(x: i64, y: i64, z: i64) -> (p: Point3)
        ensures
            p@ == (IntVec3 { x: x as int, y: y as int, z: z as int }),
    {
        Point3 { x, y, z }
    }
}

} // verus!
