//! Point light sources.

use vstd::prelude::*;
use crate::color::Color;
use crate::tuple::Point;

verus! {

/// A single unshadowed point source with a position and an intensity.
#[derive(Clone, Copy, Debug, PartialEq, Eq, Structural)]
pub struct PointLight {
    pub intensity: Color,
    pub position: Point,
}

impl PointLight {
    pub fn new(position: Point, intensity: Color) -> (r: PointLight)
        ensures
            r.position == position,
            r.intensity == intensity,
    {
        PointLight { intensity, position }
    }
}

} // verus!
