use std::f64::consts::PI;
use tracer::matrix::Matrix4;
use tracer::scalar::Scalar;
use tracer::transformations::{
    rotation_x, rotation_y, rotation_z, scaling, shearing, translation, view_transform,
};
use tracer::tuple::{Point, Vector};

fn fx(v: f64) -> Scalar {
    Scalar::from_raw((v * 1e9).round() as i64)
}

fn point(x: f64, y: f64, z: f64) -> Point {
    Point::new(fx(x), fx(y), fx(z))
}

fn vector(x: f64, y: f64, z: f64) -> Vector {
    Vector::new(fx(x), fx(y), fx(z))
}

fn m4(r: [[f64; 4]; 4]) -> Matrix4 {
    Matrix4::new(
        fx(r[0][0]), fx(r[0][1]), fx(r[0][2]), fx(r[0][3]),
        fx(r[1][0]), fx(r[1][1]), fx(r[1][2]), fx(r[1][3]),
        fx(r[2][0]), fx(r[2][1]), fx(r[2][2]), fx(r[2][3]),
        fx(r[3][0]), fx(r[3][1]), fx(r[3][2]), fx(r[3][3]),
    )
}

#[test]
fn multiply_translation_matrix() {
    let transform = translation(fx(5.), fx(-3.), fx(2.));
    let p = point(-3., 4., 5.);
    let moved = transform.mul_tuple(p.as_tuple()).to_point().unwrap();
    assert!(moved.approx_eq(&point(2., 1., 7.)));
}

#[test]
fn mulitply_inverse_translation_matrix() {
    let transform = translation(fx(5.), fx(-3.0), fx(2.));
    let inv = transform.inverse().unwrap();
    let p = point(-3., 4., 5.);
    let moved = inv.mul_tuple(p.as_tuple()).to_point().unwrap();
    assert!(moved.approx_eq(&point(-8.0, 7.0, 3.0)));
}

#[test]
fn multiply_vector_translation_matrix() {
    let transform = translation(fx(5.0), fx(-3.0), fx(2.0));
    let v = vector(-3.0, 4.0, 5.0);
    let moved = transform.mul_tuple(v.as_tuple()).to_vector().unwrap();
    assert!(moved.approx_eq(&v));
}

#[test]
fn multiply_point_by_scaling_matrix() {
    let transform = scaling(fx(2.0), fx(3.0), fx(4.0));
    let p = vector(-4.0, 6.0, 8.0);
    let scaled = transform.mul_tuple(p.as_tuple()).to_vector().unwrap();
    assert!(scaled.approx_eq(&vector(-8.0, 18.0, 32.0)));
}

#[test]
fn multiply_vector_by_scaling_matrix() {
    let transform = scaling(fx(2.0), fx(3.0), fx(4.0));
    let p = vector(-4.0, 6.0, 8.0);
    let scaled = transform.mul_tuple(p.as_tuple()).to_vector().unwrap();
    assert!(scaled.approx_eq(&vector(-8.0, 18.0, 32.0)));
}

#[test]
fn mulitply_by_inverse_scaling_matrix() {
    let transform = scaling(fx(2.0), fx(3.0), fx(4.0));
    let inv = transform.inverse().unwrap();
    let v = vector(-4.0, 6.0, 8.0);
    let scaled = inv.mul_tuple(v.as_tuple()).to_vector().unwrap();
    assert!(scaled.approx_eq(&vector(-2.0, 2.0, 2.0)));
}

#[test]
fn reflection_by_scaling() {
    let transform = scaling(fx(-1.0), fx(1.0), fx(1.0));
    let p = point(2.0, 3.0, 4.0);
    let reflected = transform.mul_tuple(p.as_tuple()).to_point().unwrap();
    assert!(reflected.approx_eq(&point(-2.0, 3.0, 4.0)));
}

#[test]
fn rotation_around_x_axis() {
    let p = point(0.0, 1.0, 0.0);
    let half_quarter = rotation_x(fx(PI / 4.0));
    let full_quarter = rotation_x(fx(PI / 2.0));

    let a = half_quarter.mul_tuple(p.as_tuple()).to_point().unwrap();
    assert!(a.approx_eq(&point(0.0, 2.0_f64.sqrt() / 2.0, 2.0_f64.sqrt() / 2.0)));
    let b = full_quarter.mul_tuple(p.as_tuple()).to_point().unwrap();
    assert!(b.approx_eq(&point(0.0, 0.0, 1.0)));
}

#[test]
fn inverse_rotation_around_x_axis() {
    let p = point(0.0, 1.0, 0.0);
    let half_quarter = rotation_x(fx(PI / 4.0));
    let inv = half_quarter.inverse().unwrap();
    let a = inv.mul_tuple(p.as_tuple()).to_point().unwrap();
    assert!(a.approx_eq(&point(0.0, 2.0_f64.sqrt() / 2.0, -(2.0_f64.sqrt()) / 2.0)));
}

#[test]
fn rotation_around_y_axis() {
    let p = point(0.0, 0.0, 1.0);
    let half_quarter = rotation_y(fx(PI / 4.0));
    let full_quarter = rotation_y(fx(PI / 2.0));

    let a = half_quarter.mul_tuple(p.as_tuple()).to_point().unwrap();
    assert!(a.approx_eq(&point(2.0_f64.sqrt() / 2.0, 0.0, 2.0_f64.sqrt() / 2.0)));
    let b = full_quarter.mul_tuple(p.as_tuple()).to_point().unwrap();
    assert!(b.approx_eq(&point(1.0, 0.0, 0.0)));
}

#[test]
fn rotation_around_z_axis() {
    let p = point(0.0, 1.0, 0.0);
    let half_quarter = rotation_z(fx(PI / 4.0));
    let full_quarter = rotation_z(fx(PI / 2.0));

    let a = half_quarter.mul_tuple(p.as_tuple()).to_point().unwrap();
    assert!(a.approx_eq(&point(-(2.0_f64.sqrt()) / 2.0, 2.0_f64.sqrt() / 2.0, 0.0)));
    let b = full_quarter.mul_tuple(p.as_tuple()).to_point().unwrap();
    assert!(b.approx_eq(&point(-1.0, 0.0, 0.0)));
}

#[test]
fn shearing_moves_x_in_proportion_to_y() {
    let p = point(2.0, 3.0, 4.0);
    let transform = shearing(fx(1.0), fx(0.0), fx(0.0), fx(0.0), fx(0.0), fx(0.0));
    let a = transform.mul_tuple(p.as_tuple()).to_point().unwrap();
    assert!(a.approx_eq(&point(5.0, 3.0, 4.0)));
}

#[test]
fn shearing_moves_x_in_proportion_to_z() {
    let p = point(2.0, 3.0, 4.0);
    let transform = shearing(fx(0.0), fx(1.0), fx(0.0), fx(0.0), fx(0.0), fx(0.0));
    let a = transform.mul_tuple(p.as_tuple()).to_point().unwrap();
    assert!(a.approx_eq(&point(6.0, 3.0, 4.0)));
}

#[test]
fn shearing_moves_y_in_proportion_to_x() {
    let p = point(2.0, 3.0, 4.0);
    let transform = shearing(fx(0.0), fx(0.0), fx(1.0), fx(0.0), fx(0.0), fx(0.0));
    let a = transform.mul_tuple(p.as_tuple()).to_point().unwrap();
    assert!(a.approx_eq(&point(2.0, 5.0, 4.0)));
}

#[test]
fn shearing_moves_y_in_proportion_to_z() {
    let p = point(2.0, 3.0, 4.0);
    let transform = shearing(fx(0.0), fx(0.0), fx(0.0), fx(1.0), fx(0.0), fx(0.0));
    let a = transform.mul_tuple(p.as_tuple()).to_point().unwrap();
    assert!(a.approx_eq(&point(2.0, 7.0, 4.0)));
}

#[test]
fn shearing_moves_z_in_proportion_to_x() {
    let p = point(2.0, 3.0, 4.0);
    let transform = shearing(fx(0.0), fx(0.0), fx(0.0), fx(0.0), fx(1.0), fx(0.0));
    let a = transform.mul_tuple(p.as_tuple()).to_point().unwrap();
    assert!(a.approx_eq(&point(2.0, 3.0, 6.0)));
}

#[test]
fn shearing_moves_z_in_proportion_to_y() {
    let p = point(2.0, 3.0, 4.0);
    let transform = shearing(fx(0.0), fx(0.0), fx(0.0), fx(0.0), fx(0.0), fx(1.0));
    let a = transform.mul_tuple(p.as_tuple()).to_point().unwrap();
    assert!(a.approx_eq(&point(2.0, 3.0, 7.0)));
}

#[test]
fn indivisual_transformation_in_sequence() {
    let p = point(1.0, 0.0, 1.0);
    let a = rotation_x(fx(PI / 2.0));
    let b = scaling(fx(5.0), fx(5.0), fx(5.0));
    let c = translation(fx(10.0), fx(5.0), fx(7.0));

    let p2 = a.mul_tuple(p.as_tuple());
    assert!(p2.to_point().unwrap().approx_eq(&point(1.0, -1.0, 0.0)));

    let p3 = b.mul_tuple(p2);
    assert!(p3.to_point().unwrap().approx_eq(&point(5.0, -5.0, 0.0)));

    let p4 = c.mul_tuple(p3);
    assert!(p4.to_point().unwrap().approx_eq(&point(15.0, 0.0, 7.0)));
}

#[test]
fn chained_transformations() {
    let p = point(1.0, 0.0, 1.0);
    let a = rotation_x(fx(PI / 2.0));
    let b = scaling(fx(5.0), fx(5.0), fx(5.0));
    let c = translation(fx(10.0), fx(5.0), fx(7.0));
    let t = c.mul(&b).mul(&a);
    let moved = t.mul_tuple(p.as_tuple()).to_point().unwrap();
    assert!(moved.approx_eq(&point(15.0, 0.0, 7.0)));
}

#[test]
fn transformation_matrix_for_default_orientation() {
    let from = point(0.0, 0.0, 0.0);
    let to = point(0.0, 0.0, -1.0);
    let up = vector(0.0, 1.0, 0.0);
    let t = view_transform(from, to, up);
    assert!(t.approx_eq(&Matrix4::identity()));
}

#[test]
fn transformation_matrix_looking_in_positive_z_direction() {
    let from = point(0.0, 0.0, 0.0);
    let to = point(0.0, 0.0, 1.0);
    let up = vector(0.0, 1.0, 0.0);
    let t = view_transform(from, to, up);
    assert!(t.approx_eq(&scaling(fx(-1.0), fx(1.0), fx(-1.0))));
}

#[test]
fn view_transformation_moves_the_world() {
    let from = point(0.0, 0.0, 8.0);
    let to = point(0.0, 0.0, 0.0);
    let up = vector(0.0, 1.0, 0.0);
    let t = view_transform(from, to, up);
    assert!(t.approx_eq(&translation(fx(0.0), fx(0.0), fx(-8.0))));
}

#[test]
fn arbitrary_view_transformation() {
    let from = point(1.0, 3.0, 2.0);
    let to = point(4.0, -2.0, 8.0);
    let up = vector(1.0, 1.0, 0.0);
    let t = view_transform(from, to, up);
    assert!(t.approx_eq(&m4([
        [-0.50709, 0.50709, 0.67612, -2.36643],
        [0.76772, 0.60609, 0.12122, -2.82843],
        [-0.35857, 0.59761, -0.71714, 0.00000],
        [0.00000, 0.00000, 0.00000, 1.00000],
    ])));
}
