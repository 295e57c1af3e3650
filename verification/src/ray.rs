//! Rays: an origin point and a direction vector.

use vstd::prelude::*;
use crate::scalar::Scalar;
use crate::tuple::{Point, Vector, TupleV, t_add, t_scale};
use crate::matrix::{Matrix4, m4_mul_tuple};

verus! {

/// Scene objects are told apart by an identity number, distinct from
/// geometric equality.
pub trait Object {
    fn id(&self) -> u32;
}

#[derive(Clone, Copy, Debug, PartialEq, Eq, Structural)]
pub struct Ray {
    pub origin: Point,
    pub direction: Vector,
}

/// The point at parameter `t` along the ray: origin + direction * t.
pub open spec fn position_spec(r: Ray, t: int) -> TupleV {
    t_add(r.origin@, t_scale(r.direction@, t))
}

impl Ray {
    pub fn new(origin: Point, direction: Vector) -> (r: Ray)
        ensures
            r.origin == origin,
            r.direction == direction,
    {
        Ray { origin, direction }
    }

    /// The point at parameter `t` along the ray.
    pub fn position(&self, t: Scalar) -> (p: Point)
        ensures
            p@ == position_spec(*self, t@),
    {
        Point(self.origin.0.add(self.direction.0.scale(t)))
    }

    /// The ray taken through a matrix: both origin and direction are
    /// transformed, the direction as a vector.
    pub fn transform(&self, m: &Matrix4) -> (r: Ray)
        ensures
            r.origin@ == m4_mul_tuple(m@, self.origin@),
            r.direction@ == m4_mul_tuple(m@, self.direction@),
    {
        Ray {
            origin: Point(m.mul_tuple(self.origin.0)),
            direction: Vector(m.mul_tuple(self.direction.0)),
        }
    }
}

} // verus!
