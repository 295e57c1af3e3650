//! The unit sphere, placed in the scene by an affine transform.

use vstd::prelude::*;
use crate::scalar::{Scalar, SCALE, fadd, fsub, fneg, fmul, fdiv, fsqrt};
use crate::tuple::{Point, Vector, TupleV, t_sub, t_dot, t_normalize};
use crate::matrix::{Matrix4, MatrixError, m4_mul_tuple, m4_transpose, m4_det, m4_inverse};
use crate::material::{Material, default_material};
use crate::ray::{Object, Ray};
use crate::intersection::{Intersection, Intersections, HitV};

verus! {

/// A unit sphere at the object-space origin, carrying its placement
/// transform, the cached inverse of that transform, and a material.
#[derive(Clone, Copy, Debug, PartialEq, Eq, Structural)]
pub struct Sphere {
    pub id: u32,
    pub transform: Matrix4,
    pub inv_transform: Matrix4,
    pub material: Material,
}

impl Object for Sphere {
    fn id(&self) -> u32 {
        self.id
    }
}

/// The origin point of object space, as a model tuple.
pub open spec fn origin_v() -> TupleV {
    TupleV { x: 0, y: 0, z: 0, w: SCALE as int }
}

/// The parametric distances at which a ray meets the sphere: the ray is
/// taken into object space by the cached inverse transform and the
/// quadratic for the unit sphere is solved. A negative discriminant
/// yields no hits, otherwise the two roots in order.
pub open spec fn sphere_hits(s: Sphere, origin: TupleV, direction: TupleV) -> Seq<int> {
    let o = m4_mul_tuple(s.inv_transform@, origin);
    let d = m4_mul_tuple(s.inv_transform@, direction);
    let sphere_to_ray = t_sub(o, origin_v());
    let a = t_dot(d, d);
    let b = fmul(2 * SCALE, t_dot(d, sphere_to_ray));
    let c = fsub(t_dot(sphere_to_ray, sphere_to_ray), SCALE as int);
    let disc = fsub(fmul(b, b), fmul(fmul(4 * SCALE, a), c));
    if disc < 0 {
        Seq::empty()
    } else {
        let sq = fsqrt(disc);
        let t1 = fdiv(fsub(fneg(b), sq), fmul(2 * SCALE, a));
        let t2 = fdiv(fadd(fneg(b), sq), fmul(2 * SCALE, a));
        seq![t1, t2]
    }
}

/// The same hits, paired with the sphere itself.
pub open spec fn sphere_hitv(s: Sphere, origin: TupleV, direction: TupleV) -> Seq<HitV> {
    sphere_hits(s, origin, direction).map_values(|t: int| HitV { t, object: s })
}

/// The surface normal at a world point: the point is taken into object
/// space, the object normal is taken back through the transposed inverse
/// with its w component zeroed, and the result is normalized.
pub open spec fn normal_at_spec(s: Sphere, world_p: TupleV) -> TupleV {
    let op = m4_mul_tuple(s.inv_transform@, world_p);
    let on = t_sub(op, origin_v());
    let wn = m4_mul_tuple(m4_transpose(s.inv_transform@), on);
    t_normalize(TupleV { x: wn.x, y: wn.y, z: wn.z, w: 0 })
}

impl Sphere {
    /// A fresh unit sphere with the identity placement and the default
    /// material. Identity numbers are handed out by the caller; this
    /// constructor uses 0.
    pub fn new() -> (r: Sphere)
        ensures
            r.id == 0,
            r.transform@ == crate::matrix::m4_identity(),
            r.inv_transform@ == crate::matrix::m4_identity(),
            r.material == default_material(),
    {
        Sphere {
            id: 0,
            transform: Matrix4::identity(),
            inv_transform: Matrix4::identity(),
            material: Material::default(),
        }
    }

    /// A fresh unit sphere with an identity number from an explicit
    /// allocation scheme of the caller's.
    pub fn new_with_id(id: u32) -> (r: Sphere)
        ensures
            r.id == id,
            r.transform@ == crate::matrix::m4_identity(),
            r.inv_transform@ == crate::matrix::m4_identity(),
            r.material == default_material(),
    {
        Sphere {
            id,
            transform: Matrix4::identity(),
            inv_transform: Matrix4::identity(),
            material: Material::default(),
        }
    }

    /// A copy of the sphere with the given placement and its cached
    /// inverse, or an error exactly when the matrix cannot be inverted.
    pub fn set_transform(self, transform: Matrix4) -> (r: Result<Sphere, MatrixError>)
        ensures
            m4_det(transform@) != 0 ==> (r matches Ok(s) && s.id == self.id && s.transform
                == transform && s.inv_transform@ == m4_inverse(transform@) && s.material
                == self.material),
            m4_det(transform@) == 0 ==> r == Err::<Sphere, MatrixError>(
                MatrixError::NotInvertible,
            ),
    {
        match transform.inverse() {
            Ok(inv) => Ok(Sphere { transform, inv_transform: inv, ..self }),
            Err(e) => Err(e),
        }
    }

    /// A copy of the sphere with the given material.
    pub fn set_material(self, material: Material) -> (r: Sphere)
        ensures
            r.id == self.id,
            r.transform == self.transform,
            r.inv_transform == self.inv_transform,
            r.material == material,
    {
        Sphere { material, ..self }
    }

    /// Where the ray meets this sphere, ordered by distance.
    #[verifier::rlimit(60)]
    pub fn intersect<'a>(&'a self, ray: Ray) -> (r: Intersections<'a>)
        ensures
            r@ == sphere_hitv(*self, ray.origin@, ray.direction@),
    {
        let object_ray = ray.transform(&self.inv_transform);
        let origin = object_ray.origin;
        let direction = object_ray.direction;

        let sphere_to_ray = origin.sub(Point::zero());

        let two = Scalar { raw: 2 * SCALE };
        let four = Scalar { raw: 4 * SCALE };
        let a = direction.dot(direction);
        let b = two.mul(direction.dot(sphere_to_ray));
        let c = sphere_to_ray.dot(sphere_to_ray).sub(Scalar::one());

        let disc = b.mul(b).sub(four.mul(a).mul(c));
        if disc.raw < 0 {
            let r = Intersections::new();
            proof {
                assert(r@ =~= sphere_hitv(*self, ray.origin@, ray.direction@));
            }
            return r;
        }
        let sq = disc.sqrt();
        let t1 = b.neg().sub(sq).div(two.mul(a));
        let t2 = b.neg().add(sq).div(two.mul(a));

        let i1 = Intersection::new(t1, self);
        let i2 = Intersection::new(t2, self);
        let mut v: Vec<Intersection<'a>> = Vec::new();
        v.push(i1);
        v.push(i2);
        let r = Intersections::from_vec(v);
        proof {
            assert(r@ =~= sphere_hitv(*self, ray.origin@, ray.direction@));
        }
        r
    }

    /// The outward surface normal at a world-space point of the surface.
    pub fn normal_at(&self, world_p: Point) -> (r: Vector)
        ensures
            r@ == normal_at_spec(*self, world_p@),
    {
        let object_p = self.inv_transform.mul_tuple(world_p.0);
        let object_normal = object_p.sub(Point::zero().0);
        let wn = self.inv_transform.transpose().mul_tuple(object_normal);
        let capped = Vector::new(wn.x, wn.y, wn.z);
        capped.normalize()
    }
}

} // verus!
