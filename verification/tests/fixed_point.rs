use std::f64::consts::PI;
use tracer::camera::Camera;
use tracer::color::Color;
use tracer::canvas::{Canvas, CanvasError};
use tracer::matrix::{Matrix4, MatrixError};
use tracer::scalar::Scalar;
use tracer::sphere::Sphere;
use tracer::tuple::{ConvertError, Point, Tuple, Vector};

fn fx(v: f64) -> Scalar {
    Scalar::from_raw((v * 1e9).round() as i64)
}

fn point(x: f64, y: f64, z: f64) -> Point {
    Point::new(fx(x), fx(y), fx(z))
}

fn vector(x: f64, y: f64, z: f64) -> Vector {
    Vector::new(fx(x), fx(y), fx(z))
}

#[test]
fn scalar_arithmetic_is_exact_in_raw_units() {
    assert_eq!(fx(1.5).add(fx(0.25)).raw, 1_750_000_000);
    assert_eq!(fx(1.5).sub(fx(2.0)).raw, -500_000_000);
    assert_eq!(fx(1.5).mul(fx(2.0)).raw, 3_000_000_000);
    assert_eq!(fx(3.0).div(fx(2.0)).raw, 1_500_000_000);
    assert_eq!(fx(2.0).sqrt().raw, 1_414_213_562);
    assert_eq!(fx(2.0).powi(10).raw, 1_024_000_000_000);
}

#[test]
fn scalar_saturates_instead_of_wrapping() {
    let big = Scalar::from_raw(i64::MAX);
    assert_eq!(big.add(big).raw, i64::MAX);
    assert_eq!(big.neg().sub(big).raw, i64::MIN);
    assert_eq!(big.mul(big).raw, i64::MAX);
}

#[test]
fn scalar_division_by_zero_saturates_by_sign() {
    assert_eq!(fx(1.0).div(fx(0.0)).raw, i64::MAX);
    assert_eq!(fx(-1.0).div(fx(0.0)).raw, i64::MIN);
    assert_eq!(fx(0.0).div(fx(0.0)).raw, 0);
}

#[test]
fn point_difference_plus_base_returns_the_point_exactly() {
    let p = point(3.25, -2.5, 7.125);
    let q = point(-1.75, 4.0, 2.625);
    let d = p.sub(q);
    assert_eq!(d.as_tuple().w.raw, 0);
    let back = q.add_vector(d);
    assert_eq!(back, p);
}

#[test]
fn normalized_vector_has_unit_magnitude() {
    let v = vector(1.0, 2.0, 3.0);
    assert!(v.normalize().magnitude().approx_eq(fx(1.0)));
    let w = vector(-0.3, 0.4, 12.5);
    assert!(w.normalize().magnitude().approx_eq(fx(1.0)));
}

#[test]
fn singular_matrix_inverse_reports_not_invertible() {
    let z = fx(0.0);
    let m = Matrix4::new(z, z, z, z, z, z, z, z, z, z, z, z, z, z, z, z);
    assert_eq!(m.inverse(), Err(MatrixError::NotInvertible));
}

#[test]
fn sphere_rejects_singular_transform() {
    let z = fx(0.0);
    let m = Matrix4::new(z, z, z, z, z, z, z, z, z, z, z, z, z, z, z, z);
    assert_eq!(Sphere::new().set_transform(m), Err(MatrixError::NotInvertible));
}

#[test]
fn camera_rejects_singular_transform() {
    let z = fx(0.0);
    let m = Matrix4::new(z, z, z, z, z, z, z, z, z, z, z, z, z, z, z, z);
    let mut c = Camera::new(10, 10, fx(PI / 2.0));
    assert_eq!(c.set_transform(m), Err(MatrixError::NotInvertible));
    assert!(c.transform.approx_eq(&Matrix4::identity()));
}

#[test]
fn tuple_conversions_fail_with_typed_errors() {
    let t = Tuple::new(fx(1.0), fx(2.0), fx(3.0), fx(0.5));
    assert_eq!(t.to_point(), Err(ConvertError::NotAPoint));
    assert_eq!(t.to_vector(), Err(ConvertError::NotAVector));
    let p = Tuple::new(fx(1.0), fx(2.0), fx(3.0), fx(1.0));
    assert!(p.to_point().is_ok());
    let v = Tuple::new(fx(1.0), fx(2.0), fx(3.0), fx(0.0));
    assert!(v.to_vector().is_ok());
}

#[test]
fn reading_off_the_canvas_is_an_error() {
    let c = Canvas::new(4, 4);
    assert_eq!(c.read_pixel(4, 0), Err(CanvasError::ReadError));
    assert_eq!(c.read_pixel(0, -1), Err(CanvasError::ReadError));
}

#[test]
fn writing_off_the_canvas_changes_nothing() {
    let c = Canvas::new(4, 4).write_pixel(7, 7, Color::new(fx(1.0), fx(1.0), fx(1.0)));
    for p in &c.pixels {
        assert!(p.approx_eq(&Color::new(fx(0.0), fx(0.0), fx(0.0))));
    }
}

#[test]
fn color_line_has_whole_channel_values() {
    assert_eq!(Color::new(fx(1.0), fx(0.8), fx(0.6)).to_string(), "255 204 153");
    assert_eq!(Color::new(fx(-0.5), fx(0.5), fx(1.5)).to_string(), "0 128 255");
}

#[test]
fn scaling_matrix_times_inverse_is_identity() {
    let m = tracer::transformations::scaling(fx(2.0), fx(3.0), fx(4.0));
    let inv = m.inverse().unwrap();
    assert!(m.mul(&inv).approx_eq(&Matrix4::identity()));
}

#[test]
fn inverse_of_inverse_returns_the_matrix() {
    let m = tracer::transformations::rotation_x(fx(PI / 4.0));
    let back = m.inverse().unwrap().inverse().unwrap();
    assert!(back.approx_eq(&m));
    let s = tracer::transformations::scaling(fx(2.0), fx(3.0), fx(4.0));
    let back = s.inverse().unwrap().inverse().unwrap();
    assert!(back.approx_eq(&s));
}

#[test]
fn trig_matches_reference_values() {
    assert!(fx(PI / 6.0).sin().approx_eq(fx(0.5)));
    assert!(fx(PI / 3.0).cos().approx_eq(fx(0.5)));
    assert!(fx(PI / 4.0).tan().approx_eq(fx(1.0)));
    assert!(fx(PI).sin().approx_eq(fx(0.0)));
    assert!(fx(-PI / 2.0).cos().approx_eq(fx(0.0)));
    assert!(fx(3.0 * PI / 4.0).sin().approx_eq(fx(2f64.sqrt() / 2.0)));
}
