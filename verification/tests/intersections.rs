use tracer::intersection::{Intersection, Intersections};
use tracer::ray::Ray;
use tracer::scalar::Scalar;
use tracer::sphere::Sphere;
use tracer::tuple::{Point, Vector};

fn fx(v: f64) -> Scalar {
    Scalar::from_raw((v * 1e9).round() as i64)
}

fn point(x: f64, y: f64, z: f64) -> Point {
    Point::new(fx(x), fx(y), fx(z))
}

fn vector(x: f64, y: f64, z: f64) -> Vector {
    Vector::new(fx(x), fx(y), fx(z))
}

#[test]
fn intersection_intersection_encapsulates_t_and_object() {
    let t = fx(3.5);
    let s = Sphere::new();
    let intersection = Intersection::new(t, &s);
    assert!(intersection.t.approx_eq(t));
    assert_eq!(intersection.object, &s);
}

#[test]
fn intersection_aggregating_intersections() {
    let s = Sphere::new();
    let i1 = Intersection::new(fx(1.0), &s);
    let i2 = Intersection::new(fx(2.0), &s);
    let xs = Intersections::from_vec(vec![i1, i2]);
    assert_eq!(xs.0.len(), 2);
    assert_eq!(xs.0[0].object, &s);
    assert_eq!(xs.0[1].object, &s);
}

#[test]
fn intersection_intersect_sets_the_object() {
    let r = Ray::new(point(0.0, 0.0, -5.0), vector(0.0, 0.0, 1.0));
    let s = Sphere::new();
    let xs = s.intersect(r).0;
    assert_eq!(xs.len(), 2);
    assert_eq!(xs[0].object, &s);
    assert_eq!(xs[1].object, &s);
}

#[test]
fn hit_all_positive_intersections() {
    let s = Sphere::new();
    let i1 = Intersection::new(fx(1.0), &s);
    let i2 = Intersection::new(fx(2.0), &s);
    let xs = Intersections::from_vec(vec![i1, i2]);
    let hit = xs.hit().unwrap();
    assert!(hit.t.approx_eq(i1.t));
    assert_eq!(hit.object, i1.object);
}

#[test]
fn hit_some_negative_intersections() {
    let s = Sphere::new();
    let i1 = Intersection::new(fx(-1.0), &s);
    let i2 = Intersection::new(fx(2.0), &s);
    let xs = Intersections::from_vec(vec![i1, i2]);
    let hit = xs.hit().unwrap();
    assert!(hit.t.approx_eq(i2.t));
    assert_eq!(hit.object, i2.object);
}

#[test]
fn hit_all_negative_intersections() {
    let s = Sphere::new();
    let i1 = Intersection::new(fx(-1.0), &s);
    let i2 = Intersection::new(fx(-2.0), &s);
    let xs = Intersections::from_vec(vec![i1, i2]);
    assert!(xs.hit().is_none());
}

#[test]
fn hit_lowest_nonnegative_intersection() {
    let s = Sphere::new();
    let i1 = Intersection::new(fx(5.0), &s);
    let i2 = Intersection::new(fx(7.0), &s);
    let i3 = Intersection::new(fx(-3.0), &s);
    let i4 = Intersection::new(fx(2.0), &s);
    let xs = Intersections::from_vec(vec![i1, i2, i3, i4]);
    let hit = xs.hit().unwrap();
    assert!(hit.t.approx_eq(i4.t));
    assert_eq!(hit.object, i4.object);
}

#[test]
fn precompute_state_of_intersection() {
    let r = Ray::new(point(0.0, 0.0, -5.0), vector(0.0, 0.0, 1.0));
    let s = Sphere::new();
    let i = Intersection::new(fx(4.0), &s);
    let comps = i.prepare_computations(r);
    assert_eq!(comps.object, &s);
    assert!(comps.point.approx_eq(&point(0.0, 0.0, -1.0)));
    assert!(comps.eyev.approx_eq(&vector(0.0, 0.0, -1.0)));
    assert!(comps.normal.approx_eq(&vector(0.0, 0.0, -1.0)));
}

#[test]
fn test_hit_on_intersection_on_outside() {
    let r = Ray::new(point(0.0, 0.0, -5.0), vector(0.0, 0.0, 1.0));
    let s = Sphere::new();
    let i = Intersection::new(fx(4.0), &s);
    let comps = i.prepare_computations(r);
    assert!(!comps.inside)
}

#[test]
fn test_hit_on_intersection_on_inside() {
    let r = Ray::new(point(0.0, 0.0, 0.0), vector(0.0, 0.0, 1.0));
    let s = Sphere::new();
    let i = Intersection::new(fx(1.0), &s);
    let comps = i.prepare_computations(r);
    assert!(comps.point.approx_eq(&point(0.0, 0.0, 1.0)));
    assert!(comps.eyev.approx_eq(&vector(0.0, 0.0, -1.0)));
    assert!(comps.normal.approx_eq(&vector(0.0, 0.0, -1.0)));
    assert!(comps.inside)
}
