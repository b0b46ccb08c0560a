//! Rays: an origin and a direction.

use crate::point::{Point2, Point3};
use crate::vector::{Vec2, Vec3};
use vstd::prelude::*;

verus! {

/// A ray of the plane.
#[derive(Clone, Copy, Debug, PartialEq, Eq, Structural)]
pub struct Ray2 {
    pub origin: Point2,
    pub direction: Vec2,
}

impl Ray2 {
    pub fn new(origin: Point2, direction: Vec2) -> (r: Ray2)
        ensures
            r.origin == origin,
            r.direction == direction,
    {
        Ray2 { origin, direction }
    }
}

/// A ray of space.
#[derive(Clone, Copy, Debug, PartialEq, Eq, Structural)]
pub struct Ray3 {
    pub origin: Point3,
    pub direction: Vec3,
}

impl Ray3 {
    pub fn new(origin: Point3, direction: Vec3) -> (r: Ray3)
        ensures
            r.origin == origin,
            r.direction == direction,
    {
        Ray3 { origin, direction }
    }
}

} // verus!
