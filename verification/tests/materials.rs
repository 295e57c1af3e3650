use tracer::color::Color;
use tracer::light::PointLight;
use tracer::material::{lighting, Material};
use tracer::scalar::Scalar;
use tracer::tuple::{Point, Vector};

fn fx(v: f64) -> Scalar {
    Scalar::from_raw((v * 1e9).round() as i64)
}

fn point(x: f64, y: f64, z: f64) -> Point {
    Point::new(fx(x), fx(y), fx(z))
}

fn vector(x: f64, y: f64, z: f64) -> Vector {
    Vector::new(fx(x), fx(y), fx(z))
}

fn color(r: f64, g: f64, b: f64) -> Color {
    Color::new(fx(r), fx(g), fx(b))
}

fn background() -> (Material, Point) {
    (Material::default(), point(0.0, 0.0, 0.0))
}

#[test]
fn point_light_with_features() {
    let intensity = color(0.5, 0.5, 0.5);
    let position = point(0.0, 0.0, 0.0);
    let light = PointLight::new(position, intensity);
    assert!(light.position.approx_eq(&position));
    assert!(light.intensity.approx_eq(&intensity));
}

#[test]
fn default_material() {
    let m = Material::default();
    assert!(m.ambient.approx_eq(fx(0.1)));
    assert!(m.diffuse.approx_eq(fx(0.9)));
    assert!(m.specular.approx_eq(fx(0.9)));
    assert!(m.shininess.approx_eq(fx(200.0)));
}

#[test]
fn lighting_eye_between_light_and_surface() {
    let (m, position) = background();
    let eyev = vector(0.0, 0.0, -1.0);
    let normalv = vector(0.0, 0.0, -1.0);
    let light = PointLight::new(point(0.0, 0.0, -10.0), color(1.0, 1.0, 1.0));
    let result = lighting(m, light, position, eyev, normalv, false);
    assert!(result.approx_eq(&color(1.9, 1.9, 1.9)));
}

#[test]
fn lighting_eye_between_light_and_surface_offset_45deg() {
    let (m, position) = background();
    let eyev = vector(0.0, 2f64.sqrt() / 2.0, -(2f64.sqrt()) / 2.0);
    let normalv = vector(0.0, 0.0, -1.0);
    let light = PointLight::new(point(0.0, 0.0, -10.0), color(1.0, 1.0, 1.0));
    let result = lighting(m, light, position, eyev, normalv, false);
    assert!(result.approx_eq(&color(1.0, 1.0, 1.0)));
}

#[test]
fn lighting_with_eye_opposite_surface_light_offset_45deg() {
    let (m, position) = background();
    let eyev = vector(0.0, 0.0, -1.0);
    let normalv = vector(0.0, 0.0, -1.0);
    let light = PointLight::new(point(0.0, 10.0, -10.0), color(1.0, 1.0, 1.0));
    let result = lighting(m, light, position, eyev, normalv, false);
    assert!(result.approx_eq(&color(0.7364, 0.7364, 0.7364)));
}

#[test]
fn lighting_with_eye_in_the_path_of_reflection() {
    let (m, position) = background();
    let eyev = vector(0.0, -(2f64.sqrt()) / 2.0, -(2f64.sqrt()) / 2.0);
    let normalv = vector(0.0, 0.0, -1.0);
    let light = PointLight::new(point(0.0, 10.0, -10.0), color(1.0, 1.0, 1.0));
    let result = lighting(m, light, position, eyev, normalv, false);
    assert!(result.approx_eq(&color(1.6364, 1.6364, 1.6364)));
}

#[test]
fn lighting_light_behind_surface() {
    let (m, position) = background();
    let eyev = vector(0.0, 0.0, -1.0);
    let normalv = vector(0.0, 0.0, -1.0);
    let light = PointLight::new(point(0.0, 0.0, 10.0), color(1.0, 1.0, 1.0));
    let result = lighting(m, light, position, eyev, normalv, false);
    assert!(result.approx_eq(&color(0.1, 0.1, 0.1)));
}

#[test]
fn lighting_with_surface_in_shadow() {
    let (m, position) = background();
    let eyev = vector(0.0, 0.0, -1.0);
    let normalv = vector(0.0, 0.0, -1.0);
    let light = PointLight::new(point(0.0, 0.0, -1.0), color(1.0, 1.0, 1.0));
    let in_shadow = true;
    let result = lighting(m, light, position, eyev, normalv, in_shadow);
    assert!(result.approx_eq(&color(0.1, 0.1, 0.1)));
}
