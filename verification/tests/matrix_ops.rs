use tracer::matrix::{Matrix2, Matrix3, Matrix4};
use tracer::scalar::Scalar;
use tracer::tuple::Tuple;

fn fx(v: f64) -> Scalar {
    Scalar::from_raw((v * 1e9).round() as i64)
}

fn m4(r: [[f64; 4]; 4]) -> Matrix4 {
    Matrix4::new(
        fx(r[0][0]), fx(r[0][1]), fx(r[0][2]), fx(r[0][3]),
        fx(r[1][0]), fx(r[1][1]), fx(r[1][2]), fx(r[1][3]),
        fx(r[2][0]), fx(r[2][1]), fx(r[2][2]), fx(r[2][3]),
        fx(r[3][0]), fx(r[3][1]), fx(r[3][2]), fx(r[3][3]),
    )
}

fn m3(r: [[f64; 3]; 3]) -> Matrix3 {
    Matrix3::new(
        fx(r[0][0]), fx(r[0][1]), fx(r[0][2]),
        fx(r[1][0]), fx(r[1][1]), fx(r[1][2]),
        fx(r[2][0]), fx(r[2][1]), fx(r[2][2]),
    )
}

fn m2(r: [[f64; 2]; 2]) -> Matrix2 {
    Matrix2::new(fx(r[0][0]), fx(r[0][1]), fx(r[1][0]), fx(r[1][1]))
}

fn tuple(x: f64, y: f64, z: f64, w: f64) -> Tuple {
    Tuple::new(fx(x), fx(y), fx(z), fx(w))
}

#[test]
fn construct_4x4_matrix() {
    let m = m4([
        [1.0, 2.0, 3.0, 4.0],
        [5.5, 6.5, 7.5, 8.5],
        [9.0, 10., 11., 12.],
        [13.5, 14.5, 15.5, 16.5],
    ]);
    assert!(m.get(0, 0).approx_eq(fx(1.0)));
    assert!(m.get(0, 3).approx_eq(fx(4.0)));
    assert!(m.get(1, 0).approx_eq(fx(5.5)));
    assert!(m.get(1, 2).approx_eq(fx(7.5)));
    assert!(m.get(2, 2).approx_eq(fx(11.)));
    assert!(m.get(3, 0).approx_eq(fx(13.5)));
    assert!(m.get(3, 2).approx_eq(fx(15.5)));
}

#[test]
fn construct_3x3_matrix() {
    let m = m3([[-3.0, 5.0, 0.0], [1.0, -2.0, -7.0], [0.0, 1.0, 1.0]]);
    assert!(m.get(0, 0).approx_eq(fx(-3.0)));
    assert!(m.get(1, 1).approx_eq(fx(-2.0)));
    assert!(m.get(2, 2).approx_eq(fx(1.0)));
}

#[test]
fn construxt_2x2_matrix() {
    let m = m2([[-3.0, 5.0], [1.0, -2.0]]);
    assert!(m.get(0, 0).approx_eq(fx(-3.0)));
    assert!(m.get(0, 1).approx_eq(fx(5.0)));
    assert!(m.get(1, 0).approx_eq(fx(1.0)));
    assert!(m.get(1, 1).approx_eq(fx(-2.0)));
}

#[test]
fn compare_similar_matrix() {
    let a = m4([
        [1.0, 2.0, 3.0, 4.0],
        [5.0, 6.0, 7.0, 8.0],
        [9.0, 8.0, 7.0, 6.0],
        [5.0, 4.0, 3.0, 2.0],
    ]);
    let b = m4([
        [1.0, 2.0, 3.0, 4.0],
        [5.0, 6.0, 7.0, 8.0],
        [9.0, 8.0, 7.0, 6.0],
        [5.0, 4.0, 3.0, 2.0],
    ]);
    assert!(a.approx_eq(&b));
}

#[test]
fn compare_disimilar_matrix() {
    let a = m4([
        [1.0, 2.0, 3.0, 4.0],
        [5.0, 6.0, 7.0, 8.0],
        [9.0, 8.0, 7.0, 6.0],
        [5.0, 4.0, 3.0, 2.0],
    ]);
    let b = m4([
        [2.0, 3.0, 4.0, 5.0],
        [6.0, 7.0, 8.0, 9.0],
        [8.0, 7.0, 6.0, 5.0],
        [4.0, 3.0, 2.0, 1.0],
    ]);
    assert!(!a.approx_eq(&b));
}

#[test]
fn multiply_two_matrices() {
    let a = m4([
        [1.0, 2.0, 3.0, 4.0],
        [5.0, 6.0, 7.0, 8.0],
        [9.0, 8.0, 7.0, 6.0],
        [5.0, 4.0, 3.0, 2.0],
    ]);
    let b = m4([
        [-2.0, 1.0, 2.0, 3.0],
        [3.0, 2.0, 1.0, -1.0],
        [4.0, 3.0, 6.0, 5.0],
        [1.0, 2.0, 7.0, 8.0],
    ]);
    let result = m4([
        [20.0, 22.0, 50.0, 48.0],
        [44.0, 54.0, 114.0, 108.0],
        [40.0, 58.0, 110.0, 102.0],
        [16.0, 26.0, 46.0, 42.0],
    ]);
    assert!(a.mul(&b).approx_eq(&result));
}

#[test]
fn multiply_matrix_by_tuple() {
    let a = m4([
        [1.0, 2.0, 3.0, 4.0],
        [2.0, 4.0, 4.0, 2.0],
        [8.0, 6.0, 4.0, 1.0],
        [0.0, 0.0, 0.0, 1.0],
    ]);
    let b = tuple(1.0, 2.0, 3.0, 1.0);
    let result = tuple(18.0, 24.0, 33.0, 1.0);
    assert!(a.mul_tuple(b).approx_eq(&result));
}

#[test]
fn multiply_matrix_by_identity() {
    let a = m4([
        [0.0, 1.0, 2.0, 4.0],
        [1.0, 2.0, 4.0, 8.0],
        [2.0, 4.0, 8.0, 16.0],
        [4.0, 8.0, 16.0, 32.0],
    ]);
    assert!(a.mul(&Matrix4::identity()).approx_eq(&a));
}

#[test]
fn transpose_matrix() {
    let a = m4([[0., 9., 3., 0.], [9., 8., 0., 8.], [1., 8., 5., 3.], [0., 0., 5., 8.]]);
    let result = m4([[0., 9., 1., 0.], [9., 8., 8., 0.], [3., 0., 5., 5.], [0., 8., 3., 8.]]);
    assert!(a.transpose().approx_eq(&result));
}

#[test]
fn transpose_identity_matrix() {
    let a = Matrix4::identity();
    assert!(a.transpose().approx_eq(&a));
}

#[test]
fn determinant_2x2_matrix() {
    let a = m2([[1., 5.], [-3., 2.]]);
    assert!(a.determinant().approx_eq(fx(17.)));
}

#[test]
fn submatrix_of_3x3_matrix() {
    let a = m3([[1., 5., 0.], [-3., 2., 7.], [0., 6., -3.]]);
    assert!(a.submatrix(0, 2).approx_eq(&m2([[-3., 2.], [0., 6.]])));
}

#[test]
fn submatrix_of_4x4_matrix() {
    let a = m4([[-6., 1., 1., 6.], [-8., 5., 8., 6.], [-1., 0., 8., 2.], [-7., 1., -1., 1.]]);
    let b = m3([[-6., 1., 6.], [-8., 8., 6.], [-7., -1., 1.]]);
    assert!(a.submatrix(2, 1).approx_eq(&b));
}

#[test]
fn calculate_minor_of_3x3_matrix() {
    let a = m3([[3., 5., 0.], [2., -1., 7.], [6., -1., 5.]]);
    let b = a.submatrix(1, 0);
    assert!(b.determinant().approx_eq(fx(25.)));
    assert!(a.minor(1, 0).approx_eq(fx(25.)));
}

#[test]
fn calculate_cofactor_of_3x3_matrix() {
    let a = m3([[3., 5., 0.], [2., -1., -7.], [6., -1., 5.]]);
    assert!(a.minor(0, 0).approx_eq(fx(-12.)));
    assert!(a.cofactor(0, 0).approx_eq(fx(-12.)));
    assert!(a.minor(1, 0).approx_eq(fx(25.)));
    assert!(a.cofactor(1, 0).approx_eq(fx(-25.)));
}

#[test]
fn determinant_3x3_matrix() {
    let a = m3([[1., 2., 6.], [-5., 8., -4.], [2., 6., 4.]]);
    assert!(a.cofactor(0, 0).approx_eq(fx(56.)));
    assert!(a.cofactor(0, 1).approx_eq(fx(12.)));
    assert!(a.cofactor(0, 2).approx_eq(fx(-46.)));
    assert!(a.determinant().approx_eq(fx(-196.)));
}

#[test]
fn determinant_4x4_matrix() {
    let a = m4([[-2., -8., 3., 5.], [-3., 1., 7., 3.], [1., 2., -9., 6.], [-6., 7., 7., -9.]]);
    assert!(a.cofactor(0, 0).approx_eq(fx(690.)));
    assert!(a.cofactor(0, 1).approx_eq(fx(447.)));
    assert!(a.cofactor(0, 2).approx_eq(fx(210.)));
    assert!(a.cofactor(0, 3).approx_eq(fx(51.)));
    assert!(a.determinant().approx_eq(fx(-4071.)));
}

#[test]
fn test_invertible_matrix_invertibility() {
    let a = m4([[6., 4., 4., 4.], [5., 5., 7., 6.], [4., -9., 3., -7.], [9., 1., 7., -6.]]);
    assert!(a.determinant().approx_eq(fx(-2120.)));
    assert!(a.invertible());
}

#[test]
fn test_noninvertible_matrix_invertibility() {
    let a = m4([[-4., 2., -2., -3.], [9., 6., 2., 6.], [0., -5., 1., -5.], [0., 0., 0., 0.]]);
    assert!(a.determinant().approx_eq(fx(0.)));
    assert!(!a.invertible());
}

#[test]
fn calculate_inverse_4x4_matrix() {
    let a = m4([[-5., 2., 6., -8.], [1., -5., 1., 8.], [7., 7., -6., -7.], [1., -3., 7., 4.]]);
    let b = a.inverse().unwrap();

    assert!(a.determinant().approx_eq(fx(532.)));
    assert!(a.cofactor(2, 3).approx_eq(fx(-160.)));
    assert!(b.get(3, 2).approx_eq(fx(-160. / 532.)));
    assert!(a.cofactor(3, 2).approx_eq(fx(105.)));
    assert!(b.get(2, 3).approx_eq(fx(105. / 532.)));

    assert!(b.approx_eq(&m4([
        [0.21805, 0.45113, 0.24060, -0.04511],
        [-0.80827, -1.45677, -0.44361, 0.52068],
        [-0.07895, -0.22368, -0.05263, 0.19737],
        [-0.52256, -0.81391, -0.30075, 0.30639],
    ])));

    let a = m4([[8., -5., 9., 2.], [7., 5., 6., 1.], [-6., 0., 9., 6.], [-3., 0., -9., -4.]]);
    let b = a.inverse().unwrap();
    assert!(b.approx_eq(&m4([
        [-0.15385, -0.15385, -0.28205, -0.53846],
        [-0.07692, 0.12308, 0.02564, 0.03077],
        [0.35897, 0.35897, 0.43590, 0.92308],
        [-0.69231, -0.69231, -0.76923, -1.92308],
    ])));

    let a = m4([[9., 3., 0., 9.], [-5., -2., -6., -3.], [-4., 9., 6., 4.], [-7., 6., 6., 2.]]);
    let b = a.inverse().unwrap();
    assert!(b.approx_eq(&m4([
        [-0.04074, -0.07778, 0.14444, -0.22222],
        [-0.07778, 0.03333, 0.36667, -0.33333],
        [-0.02901, -0.14630, -0.10926, 0.12963],
        [0.17778, 0.06667, -0.26667, 0.33333],
    ])));
}

#[test]
fn multiple_matrix_by_inverse() {
    let a = m4([[3., -9., 7., 3.], [3., -8., 2., -9.], [-4., 4., 4., 1.], [-6., 5., -1., 1.]]);
    let b = m4([[8., 2., 2., 2.], [3., -1., 7., 0.], [7., 0., 5., 4.], [6., -2., 0., 5.]]);
    let c = a.mul(&b);
    assert!(c.mul(&b.inverse().unwrap()).approx_eq(&a));
}
