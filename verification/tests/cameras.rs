use std::f64::consts::PI;
use tracer::camera::Camera;
use tracer::color::Color;
use tracer::scalar::Scalar;
use tracer::transformations::{rotation_y, translation, view_transform};
use tracer::tuple::{Point, Vector};
use tracer::world::default_world;

fn fx(v: f64) -> Scalar {
    Scalar::from_raw((v * 1e9).round() as i64)
}

fn point(x: f64, y: f64, z: f64) -> Point {
    Point::new(fx(x), fx(y), fx(z))
}

fn vector(x: f64, y: f64, z: f64) -> Vector {
    Vector::new(fx(x), fx(y), fx(z))
}

fn color(r: f64, g: f64, b: f64) -> Color {
    Color::new(fx(r), fx(g), fx(b))
}

#[test]
fn constructing_a_camera() {
    let hsize = 160;
    let vsize = 120;
    let field_of_view = fx(PI / 2.0);
    let c = Camera::new(hsize, vsize, field_of_view);
    assert_eq!(c.hsize, hsize);
    assert_eq!(c.vsize, vsize);
    assert!(c.field_of_view.approx_eq(field_of_view));
}

#[test]
fn pixel_size_for_vertical_canvas() {
    let camera = Camera::new(125, 200, fx(PI / 2.0));
    assert!(camera.pixel_size.approx_eq(fx(0.01)));
}

#[test]
fn pixel_size_for_horizontal_canvas() {
    let camera = Camera::new(200, 125, fx(PI / 2.0));
    assert!(camera.pixel_size.approx_eq(fx(0.01)));
}

#[test]
fn constructing_a_ray_through_center() {
    let camera = Camera::new(201, 101, fx(PI / 2.0));
    let r = camera.ray_for_pixel(100, 50);
    assert!(r.origin.approx_eq(&point(0.0, 0.0, 0.0)));
    assert!(r.direction.approx_eq(&vector(0.0, 0.0, -1.0)));
}

#[test]
fn constructing_ray_through_corner() {
    let camera = Camera::new(201, 101, fx(PI / 2.0));
    let r = camera.ray_for_pixel(0, 0);
    assert!(r.origin.approx_eq(&point(0.0, 0.0, 0.0)));
    assert!(r.direction.approx_eq(&vector(0.66519, 0.33259, -0.66851)));
}

#[test]
fn constructing_ray_when_camera_transformed() {
    let mut camera = Camera::new(201, 101, fx(PI / 2.0));
    camera
        .set_transform(rotation_y(fx(PI / 4.0)).mul(&translation(fx(0.0), fx(-2.0), fx(5.0))))
        .unwrap();
    let r = camera.ray_for_pixel(100, 50);
    assert!(r.origin.approx_eq(&point(0.0, 2.0, -5.0)));
    assert!(r.direction.approx_eq(&vector(2f64.sqrt() / 2.0, 0.0, -(2f64.sqrt()) / 2.0)));
}

#[test]
fn rendering_a_world_with_camera() {
    let world = default_world();
    let mut camera = Camera::new(11, 11, fx(PI / 2.0));
    let from = point(0.0, 0.0, -5.0);
    let to = point(0.0, 0.0, 0.0);
    let up = vector(0.0, 1.0, 0.0);
    camera.set_transform(view_transform(from, to, up)).unwrap();
    let image = camera.render(&world);
    assert!(image.read_pixel(5, 5).unwrap().approx_eq(&color(0.38066, 0.47583, 0.2855)));
}
