//! Builders for the affine transform matrices and the view transform.

use vstd::prelude::*;
use crate::scalar::{
    Scalar, SCALE, fneg, fmul, fdiv, iabs, lemma_fmul_close, lemma_fmul_close_wide,
    lemma_fdiv_close, lemma_fdiv_zero, lemma_fmul_zero_all, lemma_fmul_one_all,
};
use crate::trig::{sin_fx, cos_fx};
use crate::tuple::{Point, Vector, TupleV, t_sub, t_cross, t_normalize};
use crate::matrix::{
    Matrix4, Mat4V, m4_mul, m4_cof, m4_det, m4_inverse, m4_identity, m4_approx,
};

verus! {

pub open spec fn translation_m(x: int, y: int, z: int) -> Mat4V {
    Mat4V {
        m00: SCALE as int, m01: 0, m02: 0, m03: x,
        m10: 0, m11: SCALE as int, m12: 0, m13: y,
        m20: 0, m21: 0, m22: SCALE as int, m23: z,
        m30: 0, m31: 0, m32: 0, m33: SCALE as int,
    }
}

pub open spec fn scaling_m(x: int, y: int, z: int) -> Mat4V {
    Mat4V {
        m00: x, m01: 0, m02: 0, m03: 0,
        m10: 0, m11: y, m12: 0, m13: 0,
        m20: 0, m21: 0, m22: z, m23: 0,
        m30: 0, m31: 0, m32: 0, m33: SCALE as int,
    }
}

pub open spec fn rotation_x_m(r: int) -> Mat4V {
    Mat4V {
        m00: SCALE as int, m01: 0, m02: 0, m03: 0,
        m10: 0, m11: cos_fx(r), m12: fneg(sin_fx(r)), m13: 0,
        m20: 0, m21: sin_fx(r), m22: cos_fx(r), m23: 0,
        m30: 0, m31: 0, m32: 0, m33: SCALE as int,
    }
}

pub open spec fn rotation_y_m(r: int) -> Mat4V {
    Mat4V {
        m00: cos_fx(r), m01: 0, m02: sin_fx(r), m03: 0,
        m10: 0, m11: SCALE as int, m12: 0, m13: 0,
        m20: fneg(sin_fx(r)), m21: 0, m22: cos_fx(r), m23: 0,
        m30: 0, m31: 0, m32: 0, m33: SCALE as int,
    }
}

pub open spec fn rotation_z_m(r: int) -> Mat4V {
    Mat4V {
        m00: cos_fx(r), m01: fneg(sin_fx(r)), m02: 0, m03: 0,
        m10: sin_fx(r), m11: cos_fx(r), m12: 0, m13: 0,
        m20: 0, m21: 0, m22: SCALE as int, m23: 0,
        m30: 0, m31: 0, m32: 0, m33: SCALE as int,
    }
}

pub open spec fn shearing_m(xy: int, xz: int, yx: int, yz: int, zx: int, zy: int) -> Mat4V {
    Mat4V {
        m00: SCALE as int, m01: xy, m02: xz, m03: 0,
        m10: yx, m11: SCALE as int, m12: yz, m13: 0,
        m20: zx, m21: zy, m22: SCALE as int, m23: 0,
        m30: 0, m31: 0, m32: 0, m33: SCALE as int,
    }
}

/// Mirror of `view_transform`: the look-at orientation composed with a
/// translation of the eye to the origin.
pub open spec fn view_transform_m(from: TupleV, to: TupleV, up: TupleV) -> Mat4V {
    let forward = t_normalize(t_sub(to, from));
    let left = t_cross(forward, t_normalize(up));
    let true_up = t_cross(left, forward);
    let orientation = Mat4V {
        m00: left.x, m01: left.y, m02: left.z, m03: 0,
        m10: true_up.x, m11: true_up.y, m12: true_up.z, m13: 0,
        m20: fneg(forward.x), m21: fneg(forward.y), m22: fneg(forward.z), m23: 0,
        m30: 0, m31: 0, m32: 0, m33: SCALE as int,
    };
    m4_mul(orientation, translation_m(fneg(from.x), fneg(from.y), fneg(from.z)))
}

/// The matrix that moves a point by (x, y, z).
pub fn translation(x: Scalar, y: Scalar, z: Scalar) -> (m: Matrix4)
    ensures
        m@ == translation_m(x@, y@, z@),
{
    let o = Scalar::one();
    let n = Scalar::zero();
    Matrix4::new(o, n, n, x, n, o, n, y, n, n, o, z, n, n, n, o)
}

/// The matrix that scales each axis by the given factor.
pub fn scaling(x: Scalar, y: Scalar, z: Scalar) -> (m: Matrix4)
    ensures
        m@ == scaling_m(x@, y@, z@),
{
    let o = Scalar::one();
    let n = Scalar::zero();
    Matrix4::new(x, n, n, n, n, y, n, n, n, n, z, n, n, n, n, o)
}

/// Right-handed rotation about the x axis by `r` radians.
pub fn rotation_x(r: Scalar) -> (m: Matrix4)
    ensures
        m@ == rotation_x_m(r@),
{
    let c = r.cos();
    let s = r.sin();
    let o = Scalar::one();
    let n = Scalar::zero();
    Matrix4::new(o, n, n, n, n, c, s.neg(), n, n, s, c, n, n, n, n, o)
}

/// Right-handed rotation about the y axis by `r` radians.
pub fn rotation_y(r: Scalar) -> (m: Matrix4)
    ensures
        m@ == rotation_y_m(r@),
{
    let c = r.cos();
    let s = r.sin();
    let o = Scalar::one();
    let n = Scalar::zero();
    Matrix4::new(c, n, s, n, n, o, n, n, s.neg(), n, c, n, n, n, n, o)
}

/// Right-handed rotation about the z axis by `r` radians.
pub fn rotation_z(r: Scalar) -> (m: Matrix4)
    ensures
        m@ == rotation_z_m(r@),
{
    let c = r.cos();
    let s = r.sin();
    let o = Scalar::one();
    let n = Scalar::zero();
    Matrix4::new(c, s.neg(), n, n, s, c, n, n, n, n, o, n, n, n, n, o)
}

/// The matrix that shears each axis in proportion to the other two.
pub fn shearing(xy: Scalar, xz: Scalar, yx: Scalar, yz: Scalar, zx: Scalar, zy: Scalar) -> (m:
    Matrix4)
    ensures
        m@ == shearing_m(xy@, xz@, yx@, yz@, zx@, zy@),
{
    let o = Scalar::one();
    let n = Scalar::zero();
    Matrix4::new(o, xy, xz, n, yx, o, yz, n, zx, zy, o, n, n, n, n, o)
}

/// The world-to-camera matrix for an eye at `from` looking at `to` with
/// the given up hint.
pub fn view_transform(from: Point, to: Point, up: Vector) -> (m: Matrix4)
    ensures
        m@ == view_transform_m(from@, to@, up@),
{
    let forward = to.sub(from).normalize();
    let left = forward.cross(up.normalize());
    let true_up = left.cross(forward);
    let n = Scalar::zero();
    let o = Scalar::one();
    let orientation = Matrix4::new(
        left.0.x, left.0.y, left.0.z, n,
        true_up.0.x, true_up.0.y, true_up.0.z, n,
        forward.0.x.neg(), forward.0.y.neg(), forward.0.z.neg(), n,
        n, n, n, o,
    );
    let t = translation(from.0.x.neg(), from.0.y.neg(), from.0.z.neg());
    orientation.mul(&t)
}

/// One diagonal entry of the product of a scaling matrix with its
/// computed inverse: the axis factor times the quotient of its cofactor
/// by the determinant lands close to 1.
proof fn lemma_diag_entry(f: int, p: int, det: int, k: int)
    requires
        1_000_000_000 <= f <= 1_000_000_000_000,
        0 <= p,
        iabs(p) <= 4 * det,
        999_999_998 <= det,
        0 <= k <= 4 * det,
        -k <= 1_000_000_000 * det - f * p <= k,
    ensures
        -6000 <= fmul(f, fdiv(p, det)) - 1_000_000_000 <= 6000,
{
    lemma_fdiv_close(p, det);
    let inv = fdiv(p, det);
    assert(-det <= det * inv - p * 1_000_000_000 <= det);
    assert(-(4 * 1_000_000_000 + 1) <= inv <= 4 * 1_000_000_000 + 1);
    lemma_fmul_close(f, inv);
    let r = fmul(f, inv);
    assert(-1_000_000_000 <= 1_000_000_000 * r - f * inv <= 1_000_000_000);
    assert(-(1_000_000_000 * det) <= det * (1_000_000_000 * r) - det * (f * inv) <= 1_000_000_000
        * det) by (nonlinear_arith)
        requires
            -1_000_000_000 <= 1_000_000_000 * r - f * inv <= 1_000_000_000,
            det > 0,
    ;
    assert(-(f * det) <= f * (det * inv) - f * (p * 1_000_000_000) <= f * det) by (nonlinear_arith)
        requires
            -det <= det * inv - p * 1_000_000_000 <= det,
            f > 0,
    ;
    assert(det * (f * inv) == f * (det * inv)) by (nonlinear_arith);
    assert(f * (p * 1_000_000_000) == 1_000_000_000 * (f * p)) by (nonlinear_arith);
    assert(-(1_000_000_000 * k) <= 1_000_000_000 * (f * p) - 1_000_000_000 * (1_000_000_000 * det)
        <= 1_000_000_000 * k);
    assert(f * det <= 1_000_000_000_000 * det) by (nonlinear_arith)
        requires
            f <= 1_000_000_000_000,
            det > 0,
    ;
    assert(1_000_000_000 * k <= 4_000_000_000 * det);
    assert(-(1_005_000_000_000 * det) <= det * (1_000_000_000 * r) - 1_000_000_000 * (1_000_000_000
        * det) <= 1_005_000_000_000 * det);
    assert(-6000 <= r - 1_000_000_000 <= 6000) by (nonlinear_arith)
        requires
            -(1_005_000_000_000 * det) <= det * (1_000_000_000 * r) - 1_000_000_000 * (
            1_000_000_000 * det) <= 1_005_000_000_000 * det,
            det >= 999_999_998,
    ;
}

/// For a scaling placement with axis factors between 1 and 1000 scalar
/// units, the matrix is invertible and multiplying it by its computed
/// inverse gives the identity within the tolerance: the off-diagonal
/// entries come out exactly 0 and each diagonal entry lands within a few
/// thousandths of the tolerance of 1. Factors far below the fixed-point
/// granularity can lose the determinant to rounding, so a lower bound on
/// the factors is needed.
#[verifier::rlimit(100)]
pub proof fn lemma_scaling_inverse_roundtrip(a: int, b: int, c: int)
    requires
        SCALE <= a <= 1_000 * SCALE,
        SCALE <= b <= 1_000 * SCALE,
        SCALE <= c <= 1_000 * SCALE,
    ensures
        m4_det(scaling_m(a, b, c)) != 0,
        m4_approx(m4_mul(scaling_m(a, b, c), m4_inverse(scaling_m(a, b, c))), m4_identity()),
{
    lemma_fmul_zero_all();
    lemma_fmul_one_all();
    let mm = scaling_m(a, b, c);

    // The three pairwise products and their closeness to the true values.
    lemma_fmul_close(b, c);
    lemma_fmul_close(a, c);
    lemma_fmul_close(a, b);
    let bc = fmul(b, c);
    let ac = fmul(a, c);
    let ab = fmul(a, b);
    assert(1_000_000_000_000_000_000 <= b * c <= 1_000_000_000_000_000_000_000_000)
        by (nonlinear_arith)
        requires
            1_000_000_000 <= b <= 1_000_000_000_000,
            1_000_000_000 <= c <= 1_000_000_000_000,
    ;
    assert(1_000_000_000_000_000_000 <= a * c <= 1_000_000_000_000_000_000_000_000)
        by (nonlinear_arith)
        requires
            1_000_000_000 <= a <= 1_000_000_000_000,
            1_000_000_000 <= c <= 1_000_000_000_000,
    ;
    assert(1_000_000_000_000_000_000 <= a * b <= 1_000_000_000_000_000_000_000_000)
        by (nonlinear_arith)
        requires
            1_000_000_000 <= a <= 1_000_000_000_000,
            1_000_000_000 <= b <= 1_000_000_000_000,
    ;
    assert(999_999_999 <= bc <= 1_000_000_000_000_001);
    assert(999_999_999 <= ac <= 1_000_000_000_000_001);
    assert(999_999_999 <= ab <= 1_000_000_000_000_001);

    // The diagonal cofactors are the products of the other two factors.
    assert(m4_cof(mm, 0, 0) == bc);
    assert(m4_cof(mm, 1, 1) == ac);
    assert(m4_cof(mm, 2, 2) == ab);
    assert(m4_cof(mm, 3, 3) == fmul(a, bc));

    // Every off-diagonal cofactor vanishes.
    assert(m4_cof(mm, 0, 1) == 0);
    assert(m4_cof(mm, 0, 2) == 0);
    assert(m4_cof(mm, 0, 3) == 0);
    assert(m4_cof(mm, 1, 0) == 0);
    assert(m4_cof(mm, 1, 2) == 0);
    assert(m4_cof(mm, 1, 3) == 0);
    assert(m4_cof(mm, 2, 0) == 0);
    assert(m4_cof(mm, 2, 1) == 0);
    assert(m4_cof(mm, 2, 3) == 0);
    assert(m4_cof(mm, 3, 0) == 0);
    assert(m4_cof(mm, 3, 1) == 0);
    assert(m4_cof(mm, 3, 2) == 0);

    // The determinant.
    lemma_fmul_close_wide(a, bc);
    let det = m4_det(mm);
    assert(det == fmul(a, bc));
    assert(-1_000_000_000 <= 1_000_000_000 * det - a * bc <= 1_000_000_000);
    assert(a * bc >= 1_000_000_000 * 999_999_999) by (nonlinear_arith)
        requires
            a >= 1_000_000_000,
            bc >= 999_999_999,
    ;
    assert(det >= 999_999_998);
    assert(det != 0);

    // Each product of two factors stays below four determinants, and
    // the determinant is at least each single factor, nearly.
    assert(a * bc >= 1_000_000_000 * bc) by (nonlinear_arith)
        requires
            a >= 1_000_000_000,
            bc >= 0,
    ;
    assert(bc <= det + 1);
    assert(iabs(bc) <= 4 * det);
    assert(iabs(det) <= 4 * det);

    // S^2 det is within aS + S^2 of the true triple product abc.
    assert(a * (1_000_000_000 * bc) == 1_000_000_000 * (a * bc)) by (nonlinear_arith);
    assert(-(a * 1_000_000_000) <= a * (1_000_000_000 * bc) - a * (b * c) <= a * 1_000_000_000)
        by (nonlinear_arith)
        requires
            -1_000_000_000 <= 1_000_000_000 * bc - b * c <= 1_000_000_000,
            a > 0,
    ;

    // Closeness of S det to b * ac and to c * ab.
    assert(b * (a * c) == a * (b * c)) by (nonlinear_arith);
    assert(c * (a * b) == a * (b * c)) by (nonlinear_arith);
    assert(b * (1_000_000_000 * ac) == 1_000_000_000 * (b * ac)) by (nonlinear_arith);
    assert(c * (1_000_000_000 * ab) == 1_000_000_000 * (c * ab)) by (nonlinear_arith);
    assert(-(b * 1_000_000_000) <= b * (1_000_000_000 * ac) - b * (a * c) <= b * 1_000_000_000)
        by (nonlinear_arith)
        requires
            -1_000_000_000 <= 1_000_000_000 * ac - a * c <= 1_000_000_000,
            b > 0,
    ;
    assert(-(c * 1_000_000_000) <= c * (1_000_000_000 * ab) - c * (a * b) <= c * 1_000_000_000)
        by (nonlinear_arith)
        requires
            -1_000_000_000 <= 1_000_000_000 * ab - a * b <= 1_000_000_000,
            c > 0,
    ;
    let kb = a + b + 1_000_000_000;
    let kc = a + c + 1_000_000_000;
    assert(-(1_000_000_000 * kb) <= 1_000_000_000 * (1_000_000_000 * det) - 1_000_000_000 * (b
        * ac) <= 1_000_000_000 * kb);
    assert(-(1_000_000_000 * kc) <= 1_000_000_000 * (1_000_000_000 * det) - 1_000_000_000 * (c
        * ab) <= 1_000_000_000 * kc);
    assert(-kb <= 1_000_000_000 * det - b * ac <= kb);
    assert(-kc <= 1_000_000_000 * det - c * ab <= kc);

    // det is nearly at least each factor, so the error budgets fit.
    assert(a * bc >= a * 999_999_999) by (nonlinear_arith)
        requires
            bc >= 999_999_999,
            a >= 0,
    ;
    assert(1_000_000_000 * det >= a * 999_999_999 - 1_000_000_000);
    assert(det >= a - 1002) by (nonlinear_arith)
        requires
            1_000_000_000 * det >= a * 999_999_999 - 1_000_000_000,
            1_000_000_000 <= a <= 1_000_000_000_000,
    ;
    assert(a * bc >= 1_000_000_000 * bc);
    assert(1_000_000_000 * bc >= b * c - 1_000_000_000);
    assert(b * c >= b * 1_000_000_000) by (nonlinear_arith)
        requires
            c >= 1_000_000_000,
            b >= 0,
    ;
    assert(det >= b - 2);
    assert(b * c >= c * 1_000_000_000) by (nonlinear_arith)
        requires
            b >= 1_000_000_000,
            c >= 0,
    ;
    assert(det >= c - 2);
    assert(kb <= 4 * det);
    assert(kc <= 4 * det);
    assert(b * ac >= 1_000_000_000 * ac) by (nonlinear_arith)
        requires
            b >= 1_000_000_000,
            ac >= 0,
    ;
    assert(c * ab >= 1_000_000_000 * ab) by (nonlinear_arith)
        requires
            c >= 1_000_000_000,
            ab >= 0,
    ;
    assert(ac <= det + 2002);
    assert(iabs(ac) <= 4 * det);
    assert(ab <= det + 2002);
    assert(iabs(ab) <= 4 * det);

    // The inverse entries.
    let minv = m4_inverse(mm);
    lemma_fdiv_zero(det);
    assert(minv.m01 == 0 && minv.m02 == 0 && minv.m03 == 0);
    assert(minv.m10 == 0 && minv.m12 == 0 && minv.m13 == 0);
    assert(minv.m20 == 0 && minv.m21 == 0 && minv.m23 == 0);
    assert(minv.m30 == 0 && minv.m31 == 0 && minv.m32 == 0);
    assert(minv.m00 == fdiv(bc, det));
    assert(minv.m11 == fdiv(ac, det));
    assert(minv.m22 == fdiv(ab, det));
    assert(minv.m33 == fdiv(det, det));

    // The product entries.
    let prod = m4_mul(mm, minv);
    lemma_fdiv_close(bc, det);
    lemma_fdiv_close(ac, det);
    lemma_fdiv_close(ab, det);
    lemma_fdiv_close(det, det);
    assert(prod.m00 == fmul(a, minv.m00));
    assert(prod.m11 == fmul(b, minv.m11));
    assert(prod.m22 == fmul(c, minv.m22));
    assert(prod.m33 == fmul(SCALE as int, minv.m33));
    assert(prod.m01 == 0 && prod.m02 == 0 && prod.m03 == 0);
    assert(prod.m10 == 0 && prod.m12 == 0 && prod.m13 == 0);
    assert(prod.m20 == 0 && prod.m21 == 0 && prod.m23 == 0);
    assert(prod.m30 == 0 && prod.m31 == 0 && prod.m32 == 0);

    lemma_diag_entry(a, bc, det, 1_000_000_000);
    lemma_diag_entry(b, ac, det, kb);
    lemma_diag_entry(c, ab, det, kc);
    lemma_diag_entry(1_000_000_000, det, det, 0);
}

} // verus!
