use tracer::intersection::{Intersection, Intersections};
use tracer::ray::{Object, Ray};
use tracer::scalar::Scalar;
use tracer::sphere::Sphere;
use tracer::tuple::{Point, Vector};

fn fx(v: f64) -> Scalar {
    Scalar::from_raw((v * 1e9).round() as i64)
}

fn point(x: f64, y: f64, z: f64) -> Point {
    Point::new(fx(x), fx(y), fx(z))
}

fn vector(x: f64, y: f64, z: f64) -> Vector {
    Vector::new(fx(x), fx(y), fx(z))
}

#[test]
fn create_and_query_ray() {
    let origin = point(1.0, 2.0, 3.0);
    let direction = vector(4.0, 5.0, 6.0);
    let ray = Ray::new(origin, direction);
    assert!(ray.origin.approx_eq(&origin));
    assert!(ray.direction.approx_eq(&direction));
}

#[test]
fn compute_a_point() {
    let r = Ray::new(point(2.0, 3.0, 4.0), vector(1.0, 0.0, 0.0));
    assert!(r.position(fx(0.0)).approx_eq(&point(2.0, 3.0, 4.0)));
    assert!(r.position(fx(1.0)).approx_eq(&point(3.0, 3.0, 4.0)));
    assert!(r.position(fx(-1.0)).approx_eq(&point(1.0, 3.0, 4.0)));
    assert!(r.position(fx(2.5)).approx_eq(&point(4.5, 3.0, 4.0)));
}

#[test]
fn ray_ray_intersects_sphere_at_2_points() {
    let r = Ray::new(point(0.0, 0.0, -5.0), vector(0.0, 0.0, 1.0));
    let s = Sphere::new();
    let xs = s.intersect(r).0;
    assert_eq!(xs.len(), 2);
    assert!(xs[0].t.approx_eq(fx(4.0)));
    assert!(xs[1].t.approx_eq(fx(6.0)));
}

#[test]
fn ray_ray_intersects_sphere_at_tangent() {
    let r = Ray::new(point(0.0, 1.0, -5.0), vector(0.0, 0.0, 1.0));
    let s = Sphere::new();
    let xs = s.intersect(r).0;
    assert_eq!(xs.len(), 2);
    assert!(xs[0].t.approx_eq(fx(5.0)));
    assert!(xs[1].t.approx_eq(fx(5.0)));
}

#[test]
fn ray_ray_misses_sphere() {
    let r = Ray::new(point(0.0, 2.0, -5.0), vector(0.0, 0.0, 1.0));
    let s = Sphere::new();
    let xs = s.intersect(r).0;
    assert_eq!(xs.len(), 0);
}

#[test]
fn ray_ray_originates_inside_sphere() {
    let r = Ray::new(point(0.0, 0.0, 0.0), vector(0.0, 0.0, 1.0));
    let s = Sphere::new();
    let xs = s.intersect(r).0;
    assert_eq!(xs.len(), 2);
    assert!(xs[0].t.approx_eq(fx(-1.0)));
    assert!(xs[1].t.approx_eq(fx(1.0)));
}

#[test]
fn ray_sphere_is_behind_ray() {
    let r = Ray::new(point(0.0, 0.0, 5.0), vector(0.0, 0.0, 1.0));
    let s = Sphere::new();
    let xs = s.intersect(r).0;
    assert_eq!(xs.len(), 2);
    assert!(xs[0].t.approx_eq(fx(-6.0)));
    assert!(xs[1].t.approx_eq(fx(-4.0)));
}

#[test]
fn ray_intersection_encapsulates_t_and_object() {
    let t = fx(3.5);
    let s = Sphere::new();
    let intersection = Intersection::new(t, &s);
    assert!(intersection.t.approx_eq(t));
    assert_eq!(intersection.object.id(), s.id());
}

#[test]
fn ray_aggregating_intersections() {
    let s = Sphere::new();
    let i1 = Intersection::new(fx(1.0), &s);
    let i2 = Intersection::new(fx(2.0), &s);
    let xs = Intersections::from_vec(vec![i1, i2]);
    assert_eq!(xs.0.len(), 2);
    assert_eq!(xs.0[0].object.id(), s.id());
    assert_eq!(xs.0[1].object.id(), s.id());
}

#[test]
fn ray_intersect_sets_the_object() {
    let r = Ray::new(point(0.0, 0.0, -5.0), vector(0.0, 0.0, 1.0));
    let s = Sphere::new();
    let xs = s.intersect(r).0;
    assert_eq!(xs.len(), 2);
    assert_eq!(xs[0].object.id(), s.id());
    assert_eq!(xs[1].object.id(), s.id());
}
