//! Square matrices of fixed-point scalars: 2x2, 3x3 and 4x4.
//!
//! The sizes the tracer needs are fixed, so each size is its own struct
//! with one field per entry, and every operation is written out entry by
//! entry. The ghost models `Mat2V`, `Mat3V` and `Mat4V` carry the raw
//! entries as unbounded integers; determinants follow cofactor expansion
//! along the first row, and the inverse divides each cofactor by the
//! determinant.

use vstd::prelude::*;
use crate::scalar::{Scalar, SCALE, fadd, fsub, fneg, fmul, fdiv, approx};
use crate::tuple::{Tuple, TupleV};

verus! {

/// Inverting a matrix whose determinant is zero fails with this error.
#[derive(Clone, Copy, Debug, PartialEq, Eq, Structural)]
pub enum MatrixError {
    NotInvertible,
}

/// Model of a 2x2 matrix: the raw entries.
pub ghost struct Mat2V {
    pub m00: int,
    pub m01: int,
    pub m10: int,
    pub m11: int,
}

/// Model of a 3x3 matrix: the raw entries.
pub ghost struct Mat3V {
    pub m00: int,
    pub m01: int,
    pub m02: int,
    pub m10: int,
    pub m11: int,
    pub m12: int,
    pub m20: int,
    pub m21: int,
    pub m22: int,
}

/// Model of a 4x4 matrix: the raw entries.
pub ghost struct Mat4V {
    pub m00: int,
    pub m01: int,
    pub m02: int,
    pub m03: int,
    pub m10: int,
    pub m11: int,
    pub m12: int,
    pub m13: int,
    pub m20: int,
    pub m21: int,
    pub m22: int,
    pub m23: int,
    pub m30: int,
    pub m31: int,
    pub m32: int,
    pub m33: int,
}

pub open spec fn m2_get(m: Mat2V, r: int, c: int) -> int {
    if r == 0 { if c == 0 { m.m00 } else { m.m01 } } else { if c == 0 { m.m10 } else { m.m11 } }
}

pub open spec fn m3_get(m: Mat3V, r: int, c: int) -> int {
    if r == 0 { if c == 0 { m.m00 } else if c == 1 { m.m01 } else { m.m02 } } else if r == 1 { if c == 0 { m.m10 } else if c == 1 { m.m11 } else { m.m12 } } else { if c == 0 { m.m20 } else if c == 1 { m.m21 } else { m.m22 } }
}

pub open spec fn m4_get(m: Mat4V, r: int, c: int) -> int {
    if r == 0 { if c == 0 { m.m00 } else if c == 1 { m.m01 } else if c == 2 { m.m02 } else { m.m03 } } else if r == 1 { if c == 0 { m.m10 } else if c == 1 { m.m11 } else if c == 2 { m.m12 } else { m.m13 } } else if r == 2 { if c == 0 { m.m20 } else if c == 1 { m.m21 } else if c == 2 { m.m22 } else { m.m23 } } else { if c == 0 { m.m30 } else if c == 1 { m.m31 } else if c == 2 { m.m32 } else { m.m33 } }
}

pub open spec fn m2_det(m: Mat2V) -> int {
    fsub(fmul(m.m00, m.m11), fmul(m.m01, m.m10))
}

/// The 2x2 matrix left after dropping row `r` and column `c`.
pub open spec fn m3_sub(m: Mat3V, r: int, c: int) -> Mat2V {
    if r == 0 { if c == 0 { Mat2V { m00: m.m11, m01: m.m12, m10: m.m21, m11: m.m22 } } else if c == 1 { Mat2V { m00: m.m10, m01: m.m12, m10: m.m20, m11: m.m22 } } else { Mat2V { m00: m.m10, m01: m.m11, m10: m.m20, m11: m.m21 } } } else if r == 1 { if c == 0 { Mat2V { m00: m.m01, m01: m.m02, m10: m.m21, m11: m.m22 } } else if c == 1 { Mat2V { m00: m.m00, m01: m.m02, m10: m.m20, m11: m.m22 } } else { Mat2V { m00: m.m00, m01: m.m01, m10: m.m20, m11: m.m21 } } } else { if c == 0 { Mat2V { m00: m.m01, m01: m.m02, m10: m.m11, m11: m.m12 } } else if c == 1 { Mat2V { m00: m.m00, m01: m.m02, m10: m.m10, m11: m.m12 } } else { Mat2V { m00: m.m00, m01: m.m01, m10: m.m10, m11: m.m11 } } }
}

/// The 3x3 matrix left after dropping row `r` and column `c`.
pub open spec fn m4_sub(m: Mat4V, r: int, c: int) -> Mat3V {
    if r == 0 { if c == 0 { Mat3V { m00: m.m11, m01: m.m12, m02: m.m13, m10: m.m21, m11: m.m22, m12: m.m23, m20: m.m31, m21: m.m32, m22: m.m33 } } else if c == 1 { Mat3V { m00: m.m10, m01: m.m12, m02: m.m13, m10: m.m20, m11: m.m22, m12: m.m23, m20: m.m30, m21: m.m32, m22: m.m33 } } else if c == 2 { Mat3V { m00: m.m10, m01: m.m11, m02: m.m13, m10: m.m20, m11: m.m21, m12: m.m23, m20: m.m30, m21: m.m31, m22: m.m33 } } else { Mat3V { m00: m.m10, m01: m.m11, m02: m.m12, m10: m.m20, m11: m.m21, m12: m.m22, m20: m.m30, m21: m.m31, m22: m.m32 } } } else if r == 1 { if c == 0 { Mat3V { m00: m.m01, m01: m.m02, m02: m.m03, m10: m.m21, m11: m.m22, m12: m.m23, m20: m.m31, m21: m.m32, m22: m.m33 } } else if c == 1 { Mat3V { m00: m.m00, m01: m.m02, m02: m.m03, m10: m.m20, m11: m.m22, m12: m.m23, m20: m.m30, m21: m.m32, m22: m.m33 } } else if c == 2 { Mat3V { m00: m.m00, m01: m.m01, m02: m.m03, m10: m.m20, m11: m.m21, m12: m.m23, m20: m.m30, m21: m.m31, m22: m.m33 } } else { Mat3V { m00: m.m00, m01: m.m01, m02: m.m02, m10: m.m20, m11: m.m21, m12: m.m22, m20: m.m30, m21: m.m31, m22: m.m32 } } } else if r == 2 { if c == 0 { Mat3V { m00: m.m01, m01: m.m02, m02: m.m03, m10: m.m11, m11: m.m12, m12: m.m13, m20: m.m31, m21: m.m32, m22: m.m33 } } else if c == 1 { Mat3V { m00: m.m00, m01: m.m02, m02: m.m03, m10: m.m10, m11: m.m12, m12: m.m13, m20: m.m30, m21: m.m32, m22: m.m33 } } else if c == 2 { Mat3V { m00: m.m00, m01: m.m01, m02: m.m03, m10: m.m10, m11: m.m11, m12: m.m13, m20: m.m30, m21: m.m31, m22: m.m33 } } else { Mat3V { m00: m.m00, m01: m.m01, m02: m.m02, m10: m.m10, m11: m.m11, m12: m.m12, m20: m.m30, m21: m.m31, m22: m.m32 } } } else { if c == 0 { Mat3V { m00: m.m01, m01: m.m02, m02: m.m03, m10: m.m11, m11: m.m12, m12: m.m13, m20: m.m21, m21: m.m22, m22: m.m23 } } else if c == 1 { Mat3V { m00: m.m00, m01: m.m02, m02: m.m03, m10: m.m10, m11: m.m12, m12: m.m13, m20: m.m20, m21: m.m22, m22: m.m23 } } else if c == 2 { Mat3V { m00: m.m00, m01: m.m01, m02: m.m03, m10: m.m10, m11: m.m11, m12: m.m13, m20: m.m20, m21: m.m21, m22: m.m23 } } else { Mat3V { m00: m.m00, m01: m.m01, m02: m.m02, m10: m.m10, m11: m.m11, m12: m.m12, m20: m.m20, m21: m.m21, m22: m.m22 } } }
}

pub open spec fn m3_minor(m: Mat3V, r: int, c: int) -> int {
    m2_det(m3_sub(m, r, c))
}

pub open spec fn m3_cof(m: Mat3V, r: int, c: int) -> int {
    if (r + c) % 2 == 1 {
        fneg(m3_minor(m, r, c))
    } else {
        m3_minor(m, r, c)
    }
}

/// Cofactor expansion along the first row.
pub open spec fn m3_det(m: Mat3V) -> int {
    fadd(
        fadd(fmul(m.m00, m3_cof(m, 0, 0)), fmul(m.m01, m3_cof(m, 0, 1))),
        fmul(m.m02, m3_cof(m, 0, 2)),
    )
}

pub open spec fn m4_minor(m: Mat4V, r: int, c: int) -> int {
    m3_det(m4_sub(m, r, c))
}

pub open spec fn m4_cof(m: Mat4V, r: int, c: int) -> int {
    if (r + c) % 2 == 1 {
        fneg(m4_minor(m, r, c))
    } else {
        m4_minor(m, r, c)
    }
}

/// Cofactor expansion along the first row.
pub open spec fn m4_det(m: Mat4V) -> int {
    fadd(
        fadd(
            fadd(fmul(m.m00, m4_cof(m, 0, 0)), fmul(m.m01, m4_cof(m, 0, 1))),
            fmul(m.m02, m4_cof(m, 0, 2)),
        ),
        fmul(m.m03, m4_cof(m, 0, 3)),
    )
}

/// Four-term product row, folded left like the implementation.
pub open spec fn dot4(
    a0: int, a1: int, a2: int, a3: int,
    b0: int, b1: int, b2: int, b3: int,
) -> int {
    fadd(fadd(fadd(fmul(a0, b0), fmul(a1, b1)), fmul(a2, b2)), fmul(a3, b3))
}

pub open spec fn m4_transpose(m: Mat4V) -> Mat4V {
    Mat4V { m00: m.m00, m01: m.m10, m02: m.m20, m03: m.m30, m10: m.m01, m11: m.m11, m12: m.m21, m13: m.m31, m20: m.m02, m21: m.m12, m22: m.m22, m23: m.m32, m30: m.m03, m31: m.m13, m32: m.m23, m33: m.m33 }
}

pub open spec fn m4_identity() -> Mat4V {
    Mat4V { m00: SCALE as int, m01: 0, m02: 0, m03: 0, m10: 0, m11: SCALE as int, m12: 0, m13: 0, m20: 0, m21: 0, m22: SCALE as int, m23: 0, m30: 0, m31: 0, m32: 0, m33: SCALE as int }
}

pub open spec fn m4_mul(a: Mat4V, b: Mat4V) -> Mat4V {
    Mat4V {
        m00: dot4(a.m00, a.m01, a.m02, a.m03, b.m00, b.m10, b.m20, b.m30), m01: dot4(a.m00, a.m01, a.m02, a.m03, b.m01, b.m11, b.m21, b.m31), m02: dot4(a.m00, a.m01, a.m02, a.m03, b.m02, b.m12, b.m22, b.m32), m03: dot4(a.m00, a.m01, a.m02, a.m03, b.m03, b.m13, b.m23, b.m33), m10: dot4(a.m10, a.m11, a.m12, a.m13, b.m00, b.m10, b.m20, b.m30), m11: dot4(a.m10, a.m11, a.m12, a.m13, b.m01, b.m11, b.m21, b.m31), m12: dot4(a.m10, a.m11, a.m12, a.m13, b.m02, b.m12, b.m22, b.m32), m13: dot4(a.m10, a.m11, a.m12, a.m13, b.m03, b.m13, b.m23, b.m33), m20: dot4(a.m20, a.m21, a.m22, a.m23, b.m00, b.m10, b.m20, b.m30), m21: dot4(a.m20, a.m21, a.m22, a.m23, b.m01, b.m11, b.m21, b.m31), m22: dot4(a.m20, a.m21, a.m22, a.m23, b.m02, b.m12, b.m22, b.m32), m23: dot4(a.m20, a.m21, a.m22, a.m23, b.m03, b.m13, b.m23, b.m33), m30: dot4(a.m30, a.m31, a.m32, a.m33, b.m00, b.m10, b.m20, b.m30), m31: dot4(a.m30, a.m31, a.m32, a.m33, b.m01, b.m11, b.m21, b.m31), m32: dot4(a.m30, a.m31, a.m32, a.m33, b.m02, b.m12, b.m22, b.m32), m33: dot4(a.m30, a.m31, a.m32, a.m33, b.m03, b.m13, b.m23, b.m33)
    }
}

/// A matrix applied to a tuple as a linear map in homogeneous coordinates.
pub open spec fn m4_mul_tuple(m: Mat4V, t: TupleV) -> TupleV {
    TupleV {
        x: dot4(m.m00, m.m01, m.m02, m.m03, t.x, t.y, t.z, t.w),
        y: dot4(m.m10, m.m11, m.m12, m.m13, t.x, t.y, t.z, t.w),
        z: dot4(m.m20, m.m21, m.m22, m.m23, t.x, t.y, t.z, t.w),
        w: dot4(m.m30, m.m31, m.m32, m.m33, t.x, t.y, t.z, t.w),
    }
}

/// Each entry is the transposed cofactor divided by the determinant.
pub open spec fn m4_inverse(m: Mat4V) -> Mat4V {
    Mat4V {
        m00: fdiv(m4_cof(m, 0, 0), m4_det(m)), m01: fdiv(m4_cof(m, 1, 0), m4_det(m)), m02: fdiv(m4_cof(m, 2, 0), m4_det(m)), m03: fdiv(m4_cof(m, 3, 0), m4_det(m)), m10: fdiv(m4_cof(m, 0, 1), m4_det(m)), m11: fdiv(m4_cof(m, 1, 1), m4_det(m)), m12: fdiv(m4_cof(m, 2, 1), m4_det(m)), m13: fdiv(m4_cof(m, 3, 1), m4_det(m)), m20: fdiv(m4_cof(m, 0, 2), m4_det(m)), m21: fdiv(m4_cof(m, 1, 2), m4_det(m)), m22: fdiv(m4_cof(m, 2, 2), m4_det(m)), m23: fdiv(m4_cof(m, 3, 2), m4_det(m)), m30: fdiv(m4_cof(m, 0, 3), m4_det(m)), m31: fdiv(m4_cof(m, 1, 3), m4_det(m)), m32: fdiv(m4_cof(m, 2, 3), m4_det(m)), m33: fdiv(m4_cof(m, 3, 3), m4_det(m))
    }
}

pub open spec fn m4_approx(a: Mat4V, b: Mat4V) -> bool {
    approx(a.m00, b.m00) && approx(a.m01, b.m01) && approx(a.m02, b.m02) && approx(a.m03, b.m03) && approx(a.m10, b.m10) && approx(a.m11, b.m11) && approx(a.m12, b.m12) && approx(a.m13, b.m13) && approx(a.m20, b.m20) && approx(a.m21, b.m21) && approx(a.m22, b.m22) && approx(a.m23, b.m23) && approx(a.m30, b.m30) && approx(a.m31, b.m31) && approx(a.m32, b.m32) && approx(a.m33, b.m33)
}

pub open spec fn m3_approx(a: Mat3V, b: Mat3V) -> bool {
    approx(a.m00, b.m00) && approx(a.m01, b.m01) && approx(a.m02, b.m02) && approx(a.m10, b.m10) && approx(a.m11, b.m11) && approx(a.m12, b.m12) && approx(a.m20, b.m20) && approx(a.m21, b.m21) && approx(a.m22, b.m22)
}

pub open spec fn m2_approx(a: Mat2V, b: Mat2V) -> bool {
    approx(a.m00, b.m00) && approx(a.m01, b.m01) && approx(a.m10, b.m10) && approx(a.m11, b.m11)
}
/// A 2x2 matrix of fixed-point scalars.
#[derive(Clone, Copy, Debug, PartialEq, Eq, Structural)]
pub struct Matrix2 {
    pub m00: Scalar,
    pub m01: Scalar,
    pub m10: Scalar,
    pub m11: Scalar,
}

impl View for Matrix2 {
    type V = Mat2V;

    open spec fn view(&self) -> Mat2V {
        Mat2V { m00: self.m00@, m01: self.m01@, m10: self.m10@, m11: self.m11@ }
    }
}

/// A 3x3 matrix of fixed-point scalars.
#[derive(Clone, Copy, Debug, PartialEq, Eq, Structural)]
pub struct Matrix3 {
    pub m00: Scalar,
    pub m01: Scalar,
    pub m02: Scalar,
    pub m10: Scalar,
    pub m11: Scalar,
    pub m12: Scalar,
    pub m20: Scalar,
    pub m21: Scalar,
    pub m22: Scalar,
}

impl View for Matrix3 {
    type V = Mat3V;

    open spec fn view(&self) -> Mat3V {
        Mat3V { m00: self.m00@, m01: self.m01@, m02: self.m02@, m10: self.m10@, m11: self.m11@, m12: self.m12@, m20: self.m20@, m21: self.m21@, m22: self.m22@ }
    }
}

/// A 4x4 matrix of fixed-point scalars.
#[derive(Clone, Copy, Debug, PartialEq, Eq, Structural)]
pub struct Matrix4 {
    pub m00: Scalar,
    pub m01: Scalar,
    pub m02: Scalar,
    pub m03: Scalar,
    pub m10: Scalar,
    pub m11: Scalar,
    pub m12: Scalar,
    pub m13: Scalar,
    pub m20: Scalar,
    pub m21: Scalar,
    pub m22: Scalar,
    pub m23: Scalar,
    pub m30: Scalar,
    pub m31: Scalar,
    pub m32: Scalar,
    pub m33: Scalar,
}

impl View for Matrix4 {
    type V = Mat4V;

    open spec fn view(&self) -> Mat4V {
        Mat4V { m00: self.m00@, m01: self.m01@, m02: self.m02@, m03: self.m03@, m10: self.m10@, m11: self.m11@, m12: self.m12@, m13: self.m13@, m20: self.m20@, m21: self.m21@, m22: self.m22@, m23: self.m23@, m30: self.m30@, m31: self.m31@, m32: self.m32@, m33: self.m33@ }
    }
}

/// Four-term product row, folded left.
fn dot4_exec(
    a0: Scalar, a1: Scalar, a2: Scalar, a3: Scalar,
    b0: Scalar, b1: Scalar, b2: Scalar, b3: Scalar,
) -> (r: Scalar)
    ensures
        r@ == dot4(a0@, a1@, a2@, a3@, b0@, b1@, b2@, b3@),
{
    a0.mul(b0).add(a1.mul(b1)).add(a2.mul(b2)).add(a3.mul(b3))
}

impl Matrix2 {
    pub fn new(m00: Scalar, m01: Scalar, m10: Scalar, m11: Scalar) -> (r: Matrix2)
        ensures
            r@ == (Mat2V { m00: m00@, m01: m01@, m10: m10@, m11: m11@ }),
    {
        Matrix2 { m00, m01, m10, m11 }
    }

    pub fn get(&self, r: usize, c: usize) -> (v: Scalar)
        requires
            r < 2,
            c < 2,
        ensures
            v@ == m2_get(self@, r as int, c as int),
    {
        if r == 0 {
            if c == 0 { self.m00 } else { self.m01 }
        } else {
            if c == 0 { self.m10 } else { self.m11 }
        }
    }

    pub fn determinant(&self) -> (d: Scalar)
        ensures
            d@ == m2_det(self@),
    {
        self.m00.mul(self.m11).sub(self.m01.mul(self.m10))
    }

    pub fn approx_eq(&self, other: &Matrix2) -> (r: bool)
        ensures
            r == m2_approx(self@, other@),
    {
        self.m00.approx_eq(other.m00) && self.m01.approx_eq(other.m01)
            && self.m10.approx_eq(other.m10) && self.m11.approx_eq(other.m11)
    }
}

impl Matrix3 {
    pub fn new(m00: Scalar, m01: Scalar, m02: Scalar, m10: Scalar, m11: Scalar, m12: Scalar, m20: Scalar, m21: Scalar, m22: Scalar) -> (r: Matrix3)
        ensures
            r@ == (Mat3V { m00: m00@, m01: m01@, m02: m02@, m10: m10@, m11: m11@, m12: m12@, m20: m20@, m21: m21@, m22: m22@ }),
    {
        Matrix3 { m00, m01, m02, m10, m11, m12, m20, m21, m22 }
    }

    pub fn get(&self, r: usize, c: usize) -> (v: Scalar)
        requires
            r < 3,
            c < 3,
        ensures
            v@ == m3_get(self@, r as int, c as int),
    {
        if r == 0 { if c == 0 { self.m00 } else if c == 1 { self.m01 } else { self.m02 } } else if r == 1 { if c == 0 { self.m10 } else if c == 1 { self.m11 } else { self.m12 } } else { if c == 0 { self.m20 } else if c == 1 { self.m21 } else { self.m22 } }
    }

    /// The 2x2 matrix left after dropping row `r` and column `c`.
    pub fn submatrix(&self, r: usize, c: usize) -> (s: Matrix2)
        requires
            r < 3,
            c < 3,
        ensures
            s@ == m3_sub(self@, r as int, c as int),
    {
        if r == 0 { if c == 0 { Matrix2 { m00: self.m11, m01: self.m12, m10: self.m21, m11: self.m22 } } else if c == 1 { Matrix2 { m00: self.m10, m01: self.m12, m10: self.m20, m11: self.m22 } } else { Matrix2 { m00: self.m10, m01: self.m11, m10: self.m20, m11: self.m21 } } } else if r == 1 { if c == 0 { Matrix2 { m00: self.m01, m01: self.m02, m10: self.m21, m11: self.m22 } } else if c == 1 { Matrix2 { m00: self.m00, m01: self.m02, m10: self.m20, m11: self.m22 } } else { Matrix2 { m00: self.m00, m01: self.m01, m10: self.m20, m11: self.m21 } } } else { if c == 0 { Matrix2 { m00: self.m01, m01: self.m02, m10: self.m11, m11: self.m12 } } else if c == 1 { Matrix2 { m00: self.m00, m01: self.m02, m10: self.m10, m11: self.m12 } } else { Matrix2 { m00: self.m00, m01: self.m01, m10: self.m10, m11: self.m11 } } }
    }

    /// The determinant of the submatrix at `r`, `c`.
    pub fn minor(&self, r: usize, c: usize) -> (v: Scalar)
        requires
            r < 3,
            c < 3,
        ensures
            v@ == m3_minor(self@, r as int, c as int),
    {
        self.submatrix(r, c).determinant()
    }

    /// The minor with the checkerboard sign applied.
    pub fn cofactor(&self, r: usize, c: usize) -> (v: Scalar)
        requires
            r < 3,
            c < 3,
        ensures
            v@ == m3_cof(self@, r as int, c as int),
    {
        let m = self.minor(r, c);
        if (r + c) % 2 == 1 {
            m.neg()
        } else {
            m
        }
    }

    /// Cofactor expansion along the first row.
    pub fn determinant(&self) -> (d: Scalar)
        ensures
            d@ == m3_det(self@),
    {
        self.m00.mul(self.cofactor(0, 0)).add(self.m01.mul(self.cofactor(0, 1))).add(
            self.m02.mul(self.cofactor(0, 2)),
        )
    }

    pub fn approx_eq(&self, other: &Matrix3) -> (r: bool)
        ensures
            r == m3_approx(self@, other@),
    {
        self.m00.approx_eq(other.m00) && self.m01.approx_eq(other.m01) && self.m02.approx_eq(other.m02) && self.m10.approx_eq(other.m10) && self.m11.approx_eq(other.m11) && self.m12.approx_eq(other.m12) && self.m20.approx_eq(other.m20) && self.m21.approx_eq(other.m21) && self.m22.approx_eq(other.m22)
    }
}

impl Matrix4 {
    pub fn new(
        m00: Scalar,
        m01: Scalar,
        m02: Scalar,
        m03: Scalar,
        m10: Scalar,
        m11: Scalar,
        m12: Scalar,
        m13: Scalar,
        m20: Scalar,
        m21: Scalar,
        m22: Scalar,
        m23: Scalar,
        m30: Scalar,
        m31: Scalar,
        m32: Scalar,
        m33: Scalar,
    ) -> (r: Matrix4)
        ensures
            r@ == (Mat4V { m00: m00@, m01: m01@, m02: m02@, m03: m03@, m10: m10@, m11: m11@, m12: m12@, m13: m13@, m20: m20@, m21: m21@, m22: m22@, m23: m23@, m30: m30@, m31: m31@, m32: m32@, m33: m33@ }),
    {
        Matrix4 { m00, m01, m02, m03, m10, m11, m12, m13, m20, m21, m22, m23, m30, m31, m32, m33 }
    }

    pub fn identity() -> (r: Matrix4)
        ensures
            r@ == m4_identity(),
    {
        Matrix4 { m00: Scalar::one(), m01: Scalar::zero(), m02: Scalar::zero(), m03: Scalar::zero(), m10: Scalar::zero(), m11: Scalar::one(), m12: Scalar::zero(), m13: Scalar::zero(), m20: Scalar::zero(), m21: Scalar::zero(), m22: Scalar::one(), m23: Scalar::zero(), m30: Scalar::zero(), m31: Scalar::zero(), m32: Scalar::zero(), m33: Scalar::one() }
    }

    pub fn get(&self, r: usize, c: usize) -> (v: Scalar)
        requires
            r < 4,
            c < 4,
        ensures
            v@ == m4_get(self@, r as int, c as int),
    {
        if r == 0 { if c == 0 { self.m00 } else if c == 1 { self.m01 } else if c == 2 { self.m02 } else { self.m03 } } else if r == 1 { if c == 0 { self.m10 } else if c == 1 { self.m11 } else if c == 2 { self.m12 } else { self.m13 } } else if r == 2 { if c == 0 { self.m20 } else if c == 1 { self.m21 } else if c == 2 { self.m22 } else { self.m23 } } else { if c == 0 { self.m30 } else if c == 1 { self.m31 } else if c == 2 { self.m32 } else { self.m33 } }
    }

    pub fn transpose(&self) -> (t: Matrix4)
        ensures
            t@ == m4_transpose(self@),
    {
        Matrix4 { m00: self.m00, m01: self.m10, m02: self.m20, m03: self.m30, m10: self.m01, m11: self.m11, m12: self.m21, m13: self.m31, m20: self.m02, m21: self.m12, m22: self.m22, m23: self.m32, m30: self.m03, m31: self.m13, m32: self.m23, m33: self.m33 }
    }

    /// The standard matrix product.
    pub fn mul(&self, other: &Matrix4) -> (r: Matrix4)
        ensures
            r@ == m4_mul(self@, other@),
    {
        let r00 = dot4_exec(self.m00, self.m01, self.m02, self.m03, other.m00, other.m10, other.m20, other.m30);
        let r01 = dot4_exec(self.m00, self.m01, self.m02, self.m03, other.m01, other.m11, other.m21, other.m31);
        let r02 = dot4_exec(self.m00, self.m01, self.m02, self.m03, other.m02, other.m12, other.m22, other.m32);
        let r03 = dot4_exec(self.m00, self.m01, self.m02, self.m03, other.m03, other.m13, other.m23, other.m33);
        let r10 = dot4_exec(self.m10, self.m11, self.m12, self.m13, other.m00, other.m10, other.m20, other.m30);
        let r11 = dot4_exec(self.m10, self.m11, self.m12, self.m13, other.m01, other.m11, other.m21, other.m31);
        let r12 = dot4_exec(self.m10, self.m11, self.m12, self.m13, other.m02, other.m12, other.m22, other.m32);
        let r13 = dot4_exec(self.m10, self.m11, self.m12, self.m13, other.m03, other.m13, other.m23, other.m33);
        let r20 = dot4_exec(self.m20, self.m21, self.m22, self.m23, other.m00, other.m10, other.m20, other.m30);
        let r21 = dot4_exec(self.m20, self.m21, self.m22, self.m23, other.m01, other.m11, other.m21, other.m31);
        let r22 = dot4_exec(self.m20, self.m21, self.m22, self.m23, other.m02, other.m12, other.m22, other.m32);
        let r23 = dot4_exec(self.m20, self.m21, self.m22, self.m23, other.m03, other.m13, other.m23, other.m33);
        let r30 = dot4_exec(self.m30, self.m31, self.m32, self.m33, other.m00, other.m10, other.m20, other.m30);
        let r31 = dot4_exec(self.m30, self.m31, self.m32, self.m33, other.m01, other.m11, other.m21, other.m31);
        let r32 = dot4_exec(self.m30, self.m31, self.m32, self.m33, other.m02, other.m12, other.m22, other.m32);
        let r33 = dot4_exec(self.m30, self.m31, self.m32, self.m33, other.m03, other.m13, other.m23, other.m33);
        Matrix4 { m00: r00, m01: r01, m02: r02, m03: r03, m10: r10, m11: r11, m12: r12, m13: r13, m20: r20, m21: r21, m22: r22, m23: r23, m30: r30, m31: r31, m32: r32, m33: r33 }
    }

    /// The matrix applied to a tuple in homogeneous coordinates.
    pub fn mul_tuple(&self, t: Tuple) -> (r: Tuple)
        ensures
            r@ == m4_mul_tuple(self@, t@),
    {
        let x = dot4_exec(self.m00, self.m01, self.m02, self.m03, t.x, t.y, t.z, t.w);
        let y = dot4_exec(self.m10, self.m11, self.m12, self.m13, t.x, t.y, t.z, t.w);
        let z = dot4_exec(self.m20, self.m21, self.m22, self.m23, t.x, t.y, t.z, t.w);
        let w = dot4_exec(self.m30, self.m31, self.m32, self.m33, t.x, t.y, t.z, t.w);
        Tuple { x, y, z, w }
    }

    /// The 3x3 matrix left after dropping row `r` and column `c`.
    pub fn submatrix(&self, r: usize, c: usize) -> (s: Matrix3)
        requires
            r < 4,
            c < 4,
        ensures
            s@ == m4_sub(self@, r as int, c as int),
    {
        if r == 0 { if c == 0 { Matrix3 { m00: self.m11, m01: self.m12, m02: self.m13, m10: self.m21, m11: self.m22, m12: self.m23, m20: self.m31, m21: self.m32, m22: self.m33 } } else if c == 1 { Matrix3 { m00: self.m10, m01: self.m12, m02: self.m13, m10: self.m20, m11: self.m22, m12: self.m23, m20: self.m30, m21: self.m32, m22: self.m33 } } else if c == 2 { Matrix3 { m00: self.m10, m01: self.m11, m02: self.m13, m10: self.m20, m11: self.m21, m12: self.m23, m20: self.m30, m21: self.m31, m22: self.m33 } } else { Matrix3 { m00: self.m10, m01: self.m11, m02: self.m12, m10: self.m20, m11: self.m21, m12: self.m22, m20: self.m30, m21: self.m31, m22: self.m32 } } } else if r == 1 { if c == 0 { Matrix3 { m00: self.m01, m01: self.m02, m02: self.m03, m10: self.m21, m11: self.m22, m12: self.m23, m20: self.m31, m21: self.m32, m22: self.m33 } } else if c == 1 { Matrix3 { m00: self.m00, m01: self.m02, m02: self.m03, m10: self.m20, m11: self.m22, m12: self.m23, m20: self.m30, m21: self.m32, m22: self.m33 } } else if c == 2 { Matrix3 { m00: self.m00, m01: self.m01, m02: self.m03, m10: self.m20, m11: self.m21, m12: self.m23, m20: self.m30, m21: self.m31, m22: self.m33 } } else { Matrix3 { m00: self.m00, m01: self.m01, m02: self.m02, m10: self.m20, m11: self.m21, m12: self.m22, m20: self.m30, m21: self.m31, m22: self.m32 } } } else if r == 2 { if c == 0 { Matrix3 { m00: self.m01, m01: self.m02, m02: self.m03, m10: self.m11, m11: self.m12, m12: self.m13, m20: self.m31, m21: self.m32, m22: self.m33 } } else if c == 1 { Matrix3 { m00: self.m00, m01: self.m02, m02: self.m03, m10: self.m10, m11: self.m12, m12: self.m13, m20: self.m30, m21: self.m32, m22: self.m33 } } else if c == 2 { Matrix3 { m00: self.m00, m01: self.m01, m02: self.m03, m10: self.m10, m11: self.m11, m12: self.m13, m20: self.m30, m21: self.m31, m22: self.m33 } } else { Matrix3 { m00: self.m00, m01: self.m01, m02: self.m02, m10: self.m10, m11: self.m11, m12: self.m12, m20: self.m30, m21: self.m31, m22: self.m32 } } } else { if c == 0 { Matrix3 { m00: self.m01, m01: self.m02, m02: self.m03, m10: self.m11, m11: self.m12, m12: self.m13, m20: self.m21, m21: self.m22, m22: self.m23 } } else if c == 1 { Matrix3 { m00: self.m00, m01: self.m02, m02: self.m03, m10: self.m10, m11: self.m12, m12: self.m13, m20: self.m20, m21: self.m22, m22: self.m23 } } else if c == 2 { Matrix3 { m00: self.m00, m01: self.m01, m02: self.m03, m10: self.m10, m11: self.m11, m12: self.m13, m20: self.m20, m21: self.m21, m22: self.m23 } } else { Matrix3 { m00: self.m00, m01: self.m01, m02: self.m02, m10: self.m10, m11: self.m11, m12: self.m12, m20: self.m20, m21: self.m21, m22: self.m22 } } }
    }

    /// The determinant of the submatrix at `r`, `c`.
    pub fn minor(&self, r: usize, c: usize) -> (v: Scalar)
        requires
            r < 4,
            c < 4,
        ensures
            v@ == m4_minor(self@, r as int, c as int),
    {
        self.submatrix(r, c).determinant()
    }

    /// The minor with the checkerboard sign applied.
    pub fn cofactor(&self, r: usize, c: usize) -> (v: Scalar)
        requires
            r < 4,
            c < 4,
        ensures
            v@ == m4_cof(self@, r as int, c as int),
    {
        let m = self.minor(r, c);
        if (r + c) % 2 == 1 {
            m.neg()
        } else {
            m
        }
    }

    /// Cofactor expansion along the first row.
    pub fn determinant(&self) -> (d: Scalar)
        ensures
            d@ == m4_det(self@),
    {
        self.m00.mul(self.cofactor(0, 0)).add(self.m01.mul(self.cofactor(0, 1))).add(
            self.m02.mul(self.cofactor(0, 2)),
        ).add(self.m03.mul(self.cofactor(0, 3)))
    }

    /// Whether the determinant is nonzero.
    pub fn invertible(&self) -> (r: bool)
        ensures
            r == (m4_det(self@) != 0),
    {
        self.determinant().raw != 0
    }

    /// The inverse, or `MatrixError::NotInvertible` exactly when the
    /// determinant is zero.
    pub fn inverse(&self) -> (r: Result<Matrix4, MatrixError>)
        ensures
            m4_det(self@) != 0 ==> (r matches Ok(m) && m@ == m4_inverse(self@)),
            m4_det(self@) == 0 ==> r == Err::<Matrix4, MatrixError>(MatrixError::NotInvertible),
    {
        let d = self.determinant();
        if d.raw == 0 {
            Err(MatrixError::NotInvertible)
        } else {
            let r00 = self.cofactor(0, 0).div(d);
            let r01 = self.cofactor(1, 0).div(d);
            let r02 = self.cofactor(2, 0).div(d);
            let r03 = self.cofactor(3, 0).div(d);
            let r10 = self.cofactor(0, 1).div(d);
            let r11 = self.cofactor(1, 1).div(d);
            let r12 = self.cofactor(2, 1).div(d);
            let r13 = self.cofactor(3, 1).div(d);
            let r20 = self.cofactor(0, 2).div(d);
            let r21 = self.cofactor(1, 2).div(d);
            let r22 = self.cofactor(2, 2).div(d);
            let r23 = self.cofactor(3, 2).div(d);
            let r30 = self.cofactor(0, 3).div(d);
            let r31 = self.cofactor(1, 3).div(d);
            let r32 = self.cofactor(2, 3).div(d);
            let r33 = self.cofactor(3, 3).div(d);
            Ok(Matrix4 { m00: r00, m01: r01, m02: r02, m03: r03, m10: r10, m11: r11, m12: r12, m13: r13, m20: r20, m21: r21, m22: r22, m23: r23, m30: r30, m31: r31, m32: r32, m33: r33 })
        }
    }

    pub fn approx_eq(&self, other: &Matrix4) -> (r: bool)
        ensures
            r == m4_approx(self@, other@),
    {
        self.m00.approx_eq(other.m00) && self.m01.approx_eq(other.m01) && self.m02.approx_eq(other.m02) && self.m03.approx_eq(other.m03) && self.m10.approx_eq(other.m10) && self.m11.approx_eq(other.m11) && self.m12.approx_eq(other.m12) && self.m13.approx_eq(other.m13) && self.m20.approx_eq(other.m20) && self.m21.approx_eq(other.m21) && self.m22.approx_eq(other.m22) && self.m23.approx_eq(other.m23) && self.m30.approx_eq(other.m30) && self.m31.approx_eq(other.m31) && self.m32.approx_eq(other.m32) && self.m33.approx_eq(other.m33)
    }
}

} // verus!
