//! The scene: spheres and point lights, with intersection, shadowing and
//! shading against the whole scene.

use vstd::prelude::*;
use crate::scalar::{Scalar, EPSILON_RAW};
use crate::color::{Color, ColorV, c_add, c_black, black};
use crate::tuple::{Point, TupleV, t_add, t_sub, t_scale, t_neg, t_dot, t_magnitude, t_normalize};
use crate::material::{Material, lighting, lighting_spec, default_material};
use crate::light::PointLight;
use crate::ray::Ray;
use crate::sphere::{Sphere, sphere_hitv, normal_at_spec};
use crate::intersection::{
    Intersections, HitV, hit_fold, merge_sorted, lemma_merge_sorted_multiset,
};
use vstd::multiset::Multiset;
use crate::transformations::{scaling, scaling_m};

verus! {

/// A scene: the spheres in it and the lights on it.
#[derive(Debug)]
pub struct World {
    pub objects: Vec<Sphere>,
    pub lights: Vec<PointLight>,
}

/// Every object's hits merged into one collection ordered by `t`.
pub open spec fn world_merge(objs: Seq<Sphere>, o: TupleV, d: TupleV, acc: Seq<HitV>) -> Seq<HitV>
    decreases objs.len(),
{
    if objs.len() == 0 {
        acc
    } else {
        world_merge(objs.drop_first(), o, d, merge_sorted(acc, sphere_hitv(objs[0], o, d)))
    }
}

pub open spec fn world_hits(objs: Seq<Sphere>, o: TupleV, d: TupleV) -> Seq<HitV> {
    world_merge(objs, o, d, Seq::empty())
}

/// Whether some object stands between the point and the light: the
/// shadow ray from the point toward the light hits strictly before the
/// light itself.
pub open spec fn shadowed_for_light(objs: Seq<Sphere>, p: TupleV, light: PointLight) -> bool {
    let v = t_sub(light.position@, p);
    let dist = t_magnitude(v);
    let dir = t_normalize(v);
    match hit_fold(world_hits(objs, p, dir), Option::None) {
        Option::Some(h) => h.t < dist,
        Option::None => false,
    }
}

/// The per-light loop of `is_shadowed`: not shadowed as soon as one light
/// is unobstructed, shadowed only when every light is blocked.
pub open spec fn is_shadowed_spec(objs: Seq<Sphere>, lights: Seq<PointLight>, p: TupleV) -> bool
    decreases lights.len(),
{
    if lights.len() == 0 {
        true
    } else if !shadowed_for_light(objs, p, lights[0]) {
        false
    } else {
        is_shadowed_spec(objs, lights.drop_first(), p)
    }
}

/// Sum of the lighting contribution of each light in order, each with its
/// own shadow test from the nudged point.
pub open spec fn shade_fold(
    objs: Seq<Sphere>,
    lights: Seq<PointLight>,
    material: Material,
    point: TupleV,
    eyev: TupleV,
    normal: TupleV,
    over: TupleV,
    acc: ColorV,
) -> ColorV
    decreases lights.len(),
{
    if lights.len() == 0 {
        acc
    } else {
        let l = lights[0];
        let c = lighting_spec(material, l, point, eyev, normal, shadowed_for_light(objs, over, l));
        shade_fold(objs, lights.drop_first(), material, point, eyev, normal, over, c_add(acc, c))
    }
}

/// The color seen along a ray: black when nothing is hit, otherwise the
/// shading of the nearest hit in front of the ray.
pub open spec fn color_at_spec(
    objs: Seq<Sphere>,
    lights: Seq<PointLight>,
    o: TupleV,
    d: TupleV,
) -> ColorV {
    match hit_fold(world_hits(objs, o, d), Option::None) {
        Option::None => c_black(),
        Option::Some(h) => {
            let point = t_add(o, t_scale(d, h.t));
            let eyev = t_neg(d);
            let n0 = normal_at_spec(h.object, point);
            let inside = t_dot(n0, eyev) < 0;
            let normal = if inside {
                t_neg(n0)
            } else {
                n0
            };
            let over = t_add(point, t_scale(normal, EPSILON_RAW as int));
            shade_fold(objs, lights, h.object.material, point, eyev, normal, over, c_black())
        },
    }
}

/// The pool of every object's hits against a ray, as a multiset.
pub open spec fn world_hits_pool(objs: Seq<Sphere>, o: TupleV, d: TupleV) -> Multiset<HitV>
    decreases objs.len(),
{
    if objs.len() == 0 {
        Multiset::empty()
    } else {
        sphere_hitv(objs[0], o, d).to_multiset().add(world_hits_pool(objs.drop_first(), o, d))
    }
}

/// The merged scene intersections hold exactly every object's hits: none
/// is lost and none is invented.
pub proof fn lemma_world_hits_complete(objs: Seq<Sphere>, o: TupleV, d: TupleV)
    ensures
        world_hits(objs, o, d).to_multiset() == world_hits_pool(objs, o, d),
{
    broadcast use vstd::multiset::group_multiset_axioms;
    broadcast use vstd::seq_lib::group_to_multiset_ensures;

    lemma_world_merge_multiset(objs, o, d, Seq::empty());
    assert(forall|h: HitV| Seq::<HitV>::empty().to_multiset().count(h) == 0);
    assert(world_hits(objs, o, d).to_multiset() =~= world_hits_pool(objs, o, d));
}

proof fn lemma_world_merge_multiset(objs: Seq<Sphere>, o: TupleV, d: TupleV, acc: Seq<HitV>)
    ensures
        world_merge(objs, o, d, acc).to_multiset() == acc.to_multiset().add(
            world_hits_pool(objs, o, d),
        ),
    decreases objs.len(),
{
    broadcast use vstd::multiset::group_multiset_axioms;

    if objs.len() == 0 {
        assert(world_merge(objs, o, d, acc).to_multiset() =~= acc.to_multiset().add(
            world_hits_pool(objs, o, d),
        ));
    } else {
        let hits = sphere_hitv(objs[0], o, d);
        lemma_merge_sorted_multiset(acc, hits);
        lemma_world_merge_multiset(objs.drop_first(), o, d, merge_sorted(acc, hits));
        assert(world_merge(objs, o, d, acc).to_multiset() =~= acc.to_multiset().add(
            world_hits_pool(objs, o, d),
        ));
    }
}

/// Intersecting the whole scene yields a collection ordered by `t`.
pub proof fn lemma_world_hits_sorted(objs: Seq<Sphere>, o: TupleV, d: TupleV)
    ensures
        crate::intersection::sorted_by_t(world_hits(objs, o, d)),
{
    lemma_world_merge_sorted(objs, o, d, Seq::empty());
}

proof fn lemma_world_merge_sorted(objs: Seq<Sphere>, o: TupleV, d: TupleV, acc: Seq<HitV>)
    requires
        crate::intersection::sorted_by_t(acc),
    ensures
        crate::intersection::sorted_by_t(world_merge(objs, o, d, acc)),
    decreases objs.len(),
{
    if objs.len() == 0 {
    } else {
        crate::intersection::lemma_merge_sorted_keeps_order(acc, sphere_hitv(objs[0], o, d));
        lemma_world_merge_sorted(
            objs.drop_first(),
            o,
            d,
            merge_sorted(acc, sphere_hitv(objs[0], o, d)),
        );
    }
}

impl World {
    /// An empty scene.
    pub fn new() -> (w: World)
        ensures
            w.objects@ == Seq::<Sphere>::empty(),
            w.lights@ == Seq::<PointLight>::empty(),
    {
        let w = World { objects: Vec::new(), lights: Vec::new() };
        proof {
            assert(w.objects@ =~= Seq::<Sphere>::empty());
            assert(w.lights@ =~= Seq::<PointLight>::empty());
        }
        w
    }

    /// Every object's intersections with the ray, merged in order of `t`.
    pub fn intersect<'a>(&'a self, ray: Ray) -> (r: Intersections<'a>)
        ensures
            r@ == world_hits(self.objects@, ray.origin@, ray.direction@),
    {
        let mut acc = Intersections::new();
        let n = self.objects.len();
        let mut i: usize = 0;
        proof {
            assert(self.objects@.skip(0) =~= self.objects@);
        }
        while i < n
            invariant
                0 <= i <= n,
                n == self.objects.len(),
                world_merge(self.objects@.skip(i as int), ray.origin@, ray.direction@, acc@)
                    == world_hits(self.objects@, ray.origin@, ray.direction@),
            decreases n - i,
        {
            let hits = self.objects[i].intersect(ray);
            acc.concat(hits);
            proof {
                assert(self.objects@.skip(i as int).drop_first() =~= self.objects@.skip(
                    i as int + 1,
                ));
                assert(self.objects@.skip(i as int)[0] == self.objects@[i as int]);
            }
            i = i + 1;
        }
        proof {
            assert(self.objects@.skip(n as int) =~= Seq::<Sphere>::empty());
        }
        acc
    }

    /// Whether the light is blocked from the point by some object.
    fn light_blocked(&self, point: Point, light: PointLight) -> (r: bool)
        ensures
            r == shadowed_for_light(self.objects@, point@, light),
    {
        let v = light.position.sub(point);
        let distance = v.magnitude();
        let direction = v.normalize();
        let ray = Ray::new(point, direction);
        let inters = self.intersect(ray);
        match inters.hit() {
            Option::Some(h) => h.t.raw < distance.raw,
            Option::None => false,
        }
    }

    /// The summed Phong contribution of every light at a prepared hit,
    /// with a shadow test per light from the nudged point.
    #[verifier::rlimit(100)]
    pub fn shade_hit(&self, comp: &crate::intersection::Computations) -> (r: Color)
        ensures
            r@ == shade_fold(
                self.objects@,
                self.lights@,
                comp.object.material,
                comp.point@,
                comp.eyev@,
                comp.normal@,
                comp.over_point@,
                c_black(),
            ),
    {
        let mut c = black();
        let n = self.lights.len();
        let mut i: usize = 0;
        proof {
            assert(self.lights@.skip(0) =~= self.lights@);
        }
        while i < n
            invariant
                0 <= i <= n,
                n == self.lights.len(),
                shade_fold(
                    self.objects@,
                    self.lights@.skip(i as int),
                    comp.object.material,
                    comp.point@,
                    comp.eyev@,
                    comp.normal@,
                    comp.over_point@,
                    c@,
                ) == shade_fold(
                    self.objects@,
                    self.lights@,
                    comp.object.material,
                    comp.point@,
                    comp.eyev@,
                    comp.normal@,
                    comp.over_point@,
                    c_black(),
                ),
            decreases n - i,
        {
            let light = self.lights[i];
            let shadowed = self.light_blocked(comp.over_point, light);
            let contribution = lighting(
                comp.object.material,
                light,
                comp.point,
                comp.eyev,
                comp.normal,
                shadowed,
            );
            c = c.add(contribution);
            proof {
                assert(self.lights@.skip(i as int).drop_first() =~= self.lights@.skip(i as int + 1));
                assert(self.lights@.skip(i as int)[0] == self.lights@[i as int]);
            }
            i = i + 1;
        }
        proof {
            assert(self.lights@.skip(n as int) =~= Seq::<PointLight>::empty());
        }
        c
    }

    /// The color seen along a ray through the scene.
    pub fn color_at(&self, ray: Ray) -> (r: Color)
        ensures
            r@ == color_at_spec(self.objects@, self.lights@, ray.origin@, ray.direction@),
    {
        let inters = self.intersect(ray);
        match inters.hit() {
            Option::Some(hit) => {
                let comps = hit.prepare_computations(ray);
                self.shade_hit(&comps)
            },
            Option::None => black(),
        }
    }

    /// Whether the point is in shadow: every light is blocked; the loop
    /// stops at the first unobstructed light.
    pub fn is_shadowed(&self, point: Point) -> (r: bool)
        ensures
            r == is_shadowed_spec(self.objects@, self.lights@, point@),
    {
        let n = self.lights.len();
        let mut i: usize = 0;
        proof {
            assert(self.lights@.skip(0) =~= self.lights@);
        }
        while i < n
            invariant
                0 <= i <= n,
                n == self.lights.len(),
                is_shadowed_spec(self.objects@, self.lights@.skip(i as int), point@)
                    == is_shadowed_spec(self.objects@, self.lights@, point@),
            decreases n - i,
        {
            let light = self.lights[i];
            proof {
                assert(self.lights@.skip(i as int).drop_first() =~= self.lights@.skip(i as int + 1));
                assert(self.lights@.skip(i as int)[0] == self.lights@[i as int]);
            }
            if !self.light_blocked(point, light) {
                return false;
            }
            i = i + 1;
        }
        proof {
            assert(self.lights@.skip(n as int) =~= Seq::<PointLight>::empty());
        }
        true
    }
}

/// The material of the outer sphere of the canonical default world.
pub open spec fn default_world_material() -> Material {
    Material {
        color: Color {
            red: Scalar { raw: 800_000_000 },
            green: Scalar { raw: 1_000_000_000 },
            blue: Scalar { raw: 600_000_000 },
        },
        ambient: Scalar { raw: 100_000_000 },
        diffuse: Scalar { raw: 700_000_000 },
        specular: Scalar { raw: 200_000_000 },
        shininess: Scalar { raw: 200_000_000_000 },
    }
}

/// The canonical test scene: a colored outer sphere, a half-size inner
/// sphere, and one white light above and behind the eye.
pub fn default_world() -> (w: World)
    ensures
        w.objects@.len() == 2,
        w.lights@.len() == 1,
        w.objects@[0].id == 0,
        w.objects@[0].transform@ == crate::matrix::m4_identity(),
        w.objects@[0].inv_transform@ == crate::matrix::m4_identity(),
        w.objects@[0].material == default_world_material(),
        w.objects@[1].id == 0,
        w.objects@[1].transform@ == scaling_m(500_000_000, 500_000_000, 500_000_000),
        w.objects@[1].inv_transform@ == scaling_m(
            2_000_000_000,
            2_000_000_000,
            2_000_000_000,
        ),
        w.objects@[1].material == default_material(),
        w.lights@[0] == (PointLight {
            position: Point(crate::tuple::Tuple {
                x: Scalar { raw: -10_000_000_000i64 },
                y: Scalar { raw: 10_000_000_000 },
                z: Scalar { raw: -10_000_000_000i64 },
                w: Scalar { raw: 1_000_000_000 },
            }),
            intensity: Color {
                red: Scalar { raw: 1_000_000_000 },
                green: Scalar { raw: 1_000_000_000 },
                blue: Scalar { raw: 1_000_000_000 },
            },
        }),
{
    let mut w = World::new();
    let m = Material {
        color: Color::new(
            Scalar { raw: 800_000_000 },
            Scalar { raw: 1_000_000_000 },
            Scalar { raw: 600_000_000 },
        ),
        diffuse: Scalar { raw: 700_000_000 },
        specular: Scalar { raw: 200_000_000 },
        ..Material::default()
    };
    let s1 = Sphere::new().set_material(m);
    w.objects.push(s1);

    let half = Scalar { raw: 500_000_000 };
    let double = Scalar { raw: 2_000_000_000 };
    let s2 = Sphere {
        id: 0,
        transform: scaling(half, half, half),
        inv_transform: scaling(double, double, double),
        material: Material::default(),
    };
    w.objects.push(s2);

    let light = PointLight::new(
        Point::new(
            Scalar { raw: -10_000_000_000i64 },
            Scalar { raw: 10_000_000_000 },
            Scalar { raw: -10_000_000_000i64 },
        ),
        Color::new(
            Scalar { raw: 1_000_000_000 },
            Scalar { raw: 1_000_000_000 },
            Scalar { raw: 1_000_000_000 },
        ),
    );
    w.lights.push(light);
    w
}

} // verus!
