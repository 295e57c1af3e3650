//! Phong materials and the lighting model.

use vstd::prelude::*;
use crate::scalar::{Scalar, SCALE, powi_loop};
use crate::color::{Color, ColorV, c_add, c_mul, c_scale, c_black};
use crate::light::PointLight;
use crate::tuple::{Point, Vector, TupleV, t_sub, t_dot, t_normalize, t_reflect, t_neg};

verus! {

/// Surface color and the four Phong coefficients.
#[derive(Clone, Copy, Debug, PartialEq, Eq, Structural)]
pub struct Material {
    pub color: Color,
    pub ambient: Scalar,
    pub diffuse: Scalar,
    pub specular: Scalar,
    pub shininess: Scalar,
}

/// The standard Phong defaults: white, ambient 0.1, diffuse 0.9,
/// specular 0.9, shininess 200.
pub open spec fn default_material() -> Material {
    Material {
        color: Color {
            red: Scalar { raw: SCALE },
            green: Scalar { raw: SCALE },
            blue: Scalar { raw: SCALE },
        },
        ambient: Scalar { raw: 100_000_000 },
        diffuse: Scalar { raw: 900_000_000 },
        specular: Scalar { raw: 900_000_000 },
        shininess: Scalar { raw: 200_000_000_000 },
    }
}

impl Default for Material {
    fn default() -> (r: Material)
        ensures
            r == default_material(),
    {
        Material {
            color: Color {
                red: Scalar { raw: SCALE },
                green: Scalar { raw: SCALE },
                blue: Scalar { raw: SCALE },
            },
            ambient: Scalar { raw: 100_000_000 },
            diffuse: Scalar { raw: 900_000_000 },
            specular: Scalar { raw: 900_000_000 },
            shininess: Scalar { raw: 200_000_000_000 },
        }
    }
}

/// The whole part of a shininess value, used as the specular exponent.
pub open spec fn shininess_exponent(s: int) -> nat {
    if s <= 0 {
        0
    } else {
        (s / (SCALE as int)) as nat
    }
}

/// Mirror of `lighting`: ambient plus, when lit, diffuse and specular.
pub open spec fn lighting_spec(
    material: Material,
    light: PointLight,
    point: TupleV,
    eyev: TupleV,
    normalv: TupleV,
    in_shadow: bool,
) -> ColorV {
    let effective = c_mul(material.color@, light.intensity@);
    let lightv = t_normalize(t_sub(light.position@, point));
    let ambient = c_scale(effective, material.ambient@);
    if in_shadow {
        ambient
    } else {
        let ldn = t_dot(lightv, normalv);
        if ldn < 0 {
            c_add(c_add(ambient, c_black()), c_black())
        } else {
            let diffuse = c_scale(c_scale(effective, material.diffuse@), ldn);
            let reflectv = t_neg(t_reflect(lightv, normalv));
            let rde = t_dot(reflectv, eyev);
            let specular = if rde <= 0 {
                c_black()
            } else {
                let factor = powi_loop(SCALE as int, rde, shininess_exponent(material.shininess@));
                c_scale(c_scale(light.intensity@, material.specular@), factor)
            };
            c_add(c_add(ambient, diffuse), specular)
        }
    }
}

/// Phong shading of one point under one light. In shadow only the
/// ambient term survives; a light behind the surface contributes no
/// diffuse or specular term.
pub fn lighting(
    material: Material,
    light: PointLight,
    point: Point,
    eyev: Vector,
    normalv: Vector,
    in_shadow: bool,
) -> (r: Color)
    ensures
        r@ == lighting_spec(material, light, point@, eyev@, normalv@, in_shadow),
{
    let effective = material.color.mul(light.intensity);
    let lightv = light.position.sub(point).normalize();
    let ambient = effective.scale(material.ambient);
    if in_shadow {
        return ambient;
    }
    let ldn = lightv.dot(normalv);
    let (diffuse, specular) = if ldn.raw < 0 {
        (crate::color::black(), crate::color::black())
    } else {
        let diffuse = effective.scale(material.diffuse).scale(ldn);
        let reflectv = lightv.reflect(normalv).neg();
        let rde = reflectv.dot(eyev);
        let specular = if rde.raw <= 0 {
            crate::color::black()
        } else {
            let n: u64 = if material.shininess.raw <= 0 {
                0
            } else {
                (material.shininess.raw / SCALE) as u64
            };
            let factor = rde.powi(n);
            light.intensity.scale(material.specular).scale(factor)
        };
        (diffuse, specular)
    };
    ambient.add(diffuse).add(specular)
}

} // verus!
