//! Homogeneous 4-component tuples, with `Point` (w = 1) and `Vector`
//! (w = 0) as tagged wrappers.
//!
//! The ghost type `TupleV` models a tuple as four unbounded integers (raw
//! fixed-point units); every operation's contract states the result exactly
//! over that model.

use vstd::prelude::*;
use crate::scalar::{
    Scalar, SCALE, fadd, fsub, fneg, fmul, fdiv, fsqrt, approx, iabs, lemma_fmul_close,
    lemma_fmul_zero, lemma_fdiv_close, lemma_fdiv_zero, lemma_fsqrt_close,
};

verus! {

/// Model of a tuple: the four raw component values.
pub ghost struct TupleV {
    pub x: int,
    pub y: int,
    pub z: int,
    pub w: int,
}

pub open spec fn t_add(a: TupleV, b: TupleV) -> TupleV {
    TupleV { x: fadd(a.x, b.x), y: fadd(a.y, b.y), z: fadd(a.z, b.z), w: fadd(a.w, b.w) }
}

pub open spec fn t_sub(a: TupleV, b: TupleV) -> TupleV {
    TupleV { x: fsub(a.x, b.x), y: fsub(a.y, b.y), z: fsub(a.z, b.z), w: fsub(a.w, b.w) }
}

pub open spec fn t_neg(a: TupleV) -> TupleV {
    t_sub(TupleV { x: 0, y: 0, z: 0, w: 0 }, a)
}

pub open spec fn t_scale(a: TupleV, s: int) -> TupleV {
    TupleV { x: fmul(a.x, s), y: fmul(a.y, s), z: fmul(a.z, s), w: fmul(a.w, s) }
}

pub open spec fn t_div(a: TupleV, s: int) -> TupleV {
    TupleV { x: fdiv(a.x, s), y: fdiv(a.y, s), z: fdiv(a.z, s), w: fdiv(a.w, s) }
}

pub open spec fn t_dot(a: TupleV, b: TupleV) -> int {
    fadd(fadd(fadd(fmul(a.x, b.x), fmul(a.y, b.y)), fmul(a.z, b.z)), fmul(a.w, b.w))
}

pub open spec fn t_magnitude(a: TupleV) -> int {
    fsqrt(t_dot(a, a))
}

pub open spec fn t_normalize(a: TupleV) -> TupleV {
    t_div(a, t_magnitude(a))
}

pub open spec fn t_cross(a: TupleV, b: TupleV) -> TupleV {
    TupleV {
        x: fsub(fmul(a.y, b.z), fmul(a.z, b.y)),
        y: fsub(fmul(a.z, b.x), fmul(a.x, b.z)),
        z: fsub(fmul(a.x, b.y), fmul(a.y, b.x)),
        w: 0,
    }
}

/// Mirror of `Vector::reflect`: `v - n * 2 * dot(v, n)`.
pub open spec fn t_reflect(v: TupleV, n: TupleV) -> TupleV {
    t_sub(v, t_scale(t_scale(n, 2 * SCALE), t_dot(v, n)))
}

pub open spec fn t_approx(a: TupleV, b: TupleV) -> bool {
    approx(a.x, b.x) && approx(a.y, b.y) && approx(a.z, b.z) && approx(a.w, b.w)
}

pub open spec fn t_is_point(a: TupleV) -> bool {
    approx(a.w, SCALE as int)
}

pub open spec fn t_is_vector(a: TupleV) -> bool {
    approx(a.w, 0)
}

/// A 4-component homogeneous tuple of fixed-point scalars.
#[derive(Clone, Copy, Debug, PartialEq, Eq, Structural)]
pub struct Tuple {
    pub x: Scalar,
    pub y: Scalar,
    pub z: Scalar,
    pub w: Scalar,
}

impl View for Tuple {
    type V = TupleV;

    open spec fn view(&self) -> TupleV {
        TupleV { x: self.x@, y: self.y@, z: self.z@, w: self.w@ }
    }
}

/// Why a tuple cannot be converted to the requested tagged kind.
#[derive(Clone, Copy, Debug, PartialEq, Eq, Structural)]
pub enum ConvertError {
    NotAPoint,
    NotAVector,
}

impl Tuple {
    pub fn new(x: Scalar, y: Scalar, z: Scalar, w: Scalar) -> (r: Tuple)
        ensures
            r@ == (TupleV { x: x@, y: y@, z: z@, w: w@ }),
    {
        Tuple { x, y, z, w }
    }

    pub fn zero() -> (r: Tuple)
        ensures
            r@ == (TupleV { x: 0, y: 0, z: 0, w: 0 }),
    {
        Tuple { x: Scalar::zero(), y: Scalar::zero(), z: Scalar::zero(), w: Scalar::zero() }
    }

    /// Whether the w component is (approximately) 1.
    pub fn is_point(&self) -> (r: bool)
        ensures
            r == t_is_point(self@),
    {
        self.w.approx_eq(Scalar::one())
    }

    /// Whether the w component is (approximately) 0.
    pub fn is_vector(&self) -> (r: bool)
        ensures
            r == t_is_vector(self@),
    {
        self.w.approx_eq(Scalar::zero())
    }

    /// The tuple as a point, if its w component is 1.
    pub fn to_point(self) -> (r: Result<Point, ConvertError>)
        ensures
            t_is_point(self@) ==> r == Ok::<Point, ConvertError>(Point(self)),
            !t_is_point(self@) ==> r == Err::<Point, ConvertError>(ConvertError::NotAPoint),
    {
        if self.is_point() {
            Ok(Point(self))
        } else {
            Err(ConvertError::NotAPoint)
        }
    }

    /// The tuple as a vector, if its w component is 0.
    pub fn to_vector(self) -> (r: Result<Vector, ConvertError>)
        ensures
            t_is_vector(self@) ==> r == Ok::<Vector, ConvertError>(Vector(self)),
            !t_is_vector(self@) ==> r == Err::<Vector, ConvertError>(ConvertError::NotAVector),
    {
        if self.is_vector() {
            Ok(Vector(self))
        } else {
            Err(ConvertError::NotAVector)
        }
    }

    pub fn add(self, other: Tuple) -> (r: Tuple)
        ensures
            r@ == t_add(self@, other@),
    {
        Tuple {
            x: self.x.add(other.x),
            y: self.y.add(other.y),
            z: self.z.add(other.z),
            w: self.w.add(other.w),
        }
    }

    pub fn sub(self, other: Tuple) -> (r: Tuple)
        ensures
            r@ == t_sub(self@, other@),
    {
        Tuple {
            x: self.x.sub(other.x),
            y: self.y.sub(other.y),
            z: self.z.sub(other.z),
            w: self.w.sub(other.w),
        }
    }

    pub fn neg(self) -> (r: Tuple)
        ensures
            r@ == t_neg(self@),
    {
        Tuple::zero().sub(self)
    }

    /// Componentwise product with a scalar.
    pub fn scale(self, s: Scalar) -> (r: Tuple)
        ensures
            r@ == t_scale(self@, s@),
    {
        Tuple {
            x: self.x.mul(s),
            y: self.y.mul(s),
            z: self.z.mul(s),
            w: self.w.mul(s),
        }
    }

    /// Componentwise quotient by a scalar.
    pub fn div_scale(self, s: Scalar) -> (r: Tuple)
        ensures
            r@ == t_div(self@, s@),
    {
        Tuple {
            x: self.x.div(s),
            y: self.y.div(s),
            z: self.z.div(s),
            w: self.w.div(s),
        }
    }

    pub fn dot(self, other: Tuple) -> (r: Scalar)
        ensures
            r@ == t_dot(self@, other@),
    {
        self.x.mul(other.x).add(self.y.mul(other.y)).add(self.z.mul(other.z)).add(
            self.w.mul(other.w),
        )
    }

    /// Euclidean length over all four components.
    pub fn magnitude(self) -> (r: Scalar)
        ensures
            r@ == t_magnitude(self@),
    {
        self.dot(self).sqrt()
    }

    /// The tuple divided by its own magnitude.
    pub fn normalize(self) -> (r: Tuple)
        ensures
            r@ == t_normalize(self@),
    {
        let m = self.magnitude();
        self.div_scale(m)
    }

    pub fn cross(self, other: Tuple) -> (r: Vector)
        ensures
            r@ == t_cross(self@, other@),
    {
        Vector::new(
            self.y.mul(other.z).sub(self.z.mul(other.y)),
            self.z.mul(other.x).sub(self.x.mul(other.z)),
            self.x.mul(other.y).sub(self.y.mul(other.x)),
        )
    }

    /// Whether the tuples agree componentwise within the tolerance.
    pub fn approx_eq(&self, other: &Tuple) -> (r: bool)
        ensures
            r == t_approx(self@, other@),
    {
        self.x.approx_eq(other.x) && self.y.approx_eq(other.y) && self.z.approx_eq(other.z)
            && self.w.approx_eq(other.w)
    }
}

/// A direction: a tuple whose w component is 0.
#[derive(Clone, Copy, Debug, PartialEq, Eq, Structural)]
pub struct Vector(pub Tuple);

impl View for Vector {
    type V = TupleV;

    open spec fn view(&self) -> TupleV {
        self.0@
    }
}

impl Vector {
    pub fn new(x: Scalar, y: Scalar, z: Scalar) -> (r: Vector)
        ensures
            r@ == (TupleV { x: x@, y: y@, z: z@, w: 0 }),
    {
        Vector(Tuple { x, y, z, w: Scalar::zero() })
    }

    pub fn zero() -> (r: Vector)
        ensures
            r@ == (TupleV { x: 0, y: 0, z: 0, w: 0 }),
    {
        Vector::new(Scalar::zero(), Scalar::zero(), Scalar::zero())
    }

    pub fn as_tuple(self) -> (r: Tuple)
        ensures
            r@ == self@,
    {
        self.0
    }

    /// The reflection of `self` about the (unit) normal `normal`.
    pub fn reflect(self, normal: Vector) -> (r: Vector)
        ensures
            r@ == t_reflect(self@, normal@),
    {
        let two = Scalar::from_raw(2 * SCALE);
        let d = self.0.dot(normal.0);
        Vector(self.0.sub(normal.0.scale(two).scale(d)))
    }

    pub fn normalize(self) -> (r: Vector)
        ensures
            r@ == t_normalize(self@),
    {
        Vector(self.0.normalize())
    }

    pub fn cross(self, rhs: Vector) -> (r: Vector)
        ensures
            r@ == t_cross(self@, rhs@),
    {
        self.0.cross(rhs.0)
    }

    pub fn dot(self, rhs: Vector) -> (r: Scalar)
        ensures
            r@ == t_dot(self@, rhs@),
    {
        self.0.dot(rhs.0)
    }

    pub fn magnitude(self) -> (r: Scalar)
        ensures
            r@ == t_magnitude(self@),
    {
        self.0.magnitude()
    }

    pub fn add(self, rhs: Vector) -> (r: Vector)
        ensures
            r@ == t_add(self@, rhs@),
    {
        Vector(self.0.add(rhs.0))
    }

    pub fn sub(self, rhs: Vector) -> (r: Vector)
        ensures
            r@ == t_sub(self@, rhs@),
    {
        Vector(self.0.sub(rhs.0))
    }

    pub fn neg(self) -> (r: Vector)
        ensures
            r@ == t_neg(self@),
    {
        Vector(self.0.neg())
    }

    pub fn scale(self, s: Scalar) -> (r: Vector)
        ensures
            r@ == t_scale(self@, s@),
    {
        Vector(self.0.scale(s))
    }

    pub fn div_scale(self, s: Scalar) -> (r: Vector)
        ensures
            r@ == t_div(self@, s@),
    {
        Vector(self.0.div_scale(s))
    }

    pub fn approx_eq(&self, other: &Vector) -> (r: bool)
        ensures
            r == t_approx(self@, other@),
    {
        self.0.approx_eq(&other.0)
    }
}

/// A location: a tuple whose w component is 1.
#[derive(Clone, Copy, Debug, PartialEq, Eq, Structural)]
pub struct Point(pub Tuple);

impl View for Point {
    type V = TupleV;

    open spec fn view(&self) -> TupleV {
        self.0@
    }
}

impl Point {
    pub fn new(x: Scalar, y: Scalar, z: Scalar) -> (r: Point)
        ensures
            r@ == (TupleV { x: x@, y: y@, z: z@, w: SCALE as int }),
    {
        Point(Tuple { x, y, z, w: Scalar::one() })
    }

    pub fn zero() -> (r: Point)
        ensures
            r@ == (TupleV { x: 0, y: 0, z: 0, w: SCALE as int }),
    {
        Point::new(Scalar::zero(), Scalar::zero(), Scalar::zero())
    }

    pub fn as_tuple(self) -> (r: Tuple)
        ensures
            r@ == self@,
    {
        self.0
    }

    /// The difference of two points is the vector between them.
    pub fn sub(self, rhs: Point) -> (r: Vector)
        ensures
            r@ == t_sub(self@, rhs@),
    {
        Vector(self.0.sub(rhs.0))
    }

    /// Moving a point along a vector gives a point.
    pub fn add_vector(self, rhs: Vector) -> (r: Point)
        ensures
            r@ == t_add(self@, rhs@),
    {
        Point(self.0.add(rhs.0))
    }

    pub fn approx_eq(&self, other: &Point) -> (r: bool)
        ensures
            r == t_approx(self@, other@),
    {
        self.0.approx_eq(&other.0)
    }
}

/// Componentwise raw bound, used to state when the algebra is exact.
pub open spec fn t_bounded(a: TupleV, bound: int) -> bool {
    -bound <= a.x <= bound && -bound <= a.y <= bound && -bound <= a.z <= bound && -bound <= a.w
        <= bound
}

/// Subtracting one point from another gives a vector (w drops to exactly
/// 0), and adding the second point's tuple back returns the first exactly,
/// as long as no component saturates.
pub proof fn lemma_point_sub_add(p: TupleV, q: TupleV)
    requires
        t_bounded(p, 0x2000_0000_0000_0000),
        t_bounded(q, 0x2000_0000_0000_0000),
    ensures
        p.w == SCALE && q.w == SCALE ==> t_sub(p, q).w == 0 && t_is_vector(t_sub(p, q)),
        t_add(t_sub(p, q), q) == p,
{
}

/// Bounding one component of a vector by its magnitude root.
proof fn lemma_component_bound(x: int, m2: int, m: int)
    requires
        x * x <= m2,
        m2 - m * m <= m + 3_000_000_000,
        m >= 999_000_000,
    ensures
        iabs(x) <= m + 2_000_000_000,
{
    let xa = iabs(x);
    assert(xa * xa == x * x) by (nonlinear_arith)
        requires
            xa == (if x < 0 { -x } else { x }),
    ;
    assert(xa <= m + 2_000_000_000) by (nonlinear_arith)
        requires
            xa >= 0,
            xa * xa <= m * m + m + 3_000_000_000,
            m >= 999_000_000,
    ;
}

/// One squared component of the normalized vector, scaled by the squared
/// magnitude root, stays close to the squared scaled component.
proof fn lemma_scaled_square_bound(x: int, m: int, nx: int)
    requires
        -m <= m * nx - x * 1_000_000_000 <= m,
        iabs(x) <= m + 2_000_000_000,
        999_000_000 <= m <= 1_001_000_000_000,
    ensures
        -(7_000_000_000 * (m * m)) <= m * m * (nx * nx) - x * x * 1_000_000_000_000_000_000 <= 7_000_000_000
            * (m * m),
{
    let e = m * nx - x * 1_000_000_000;
    let cross = 2_000_000_000 * (x * e) + e * e;
    assert(m * m * (nx * nx) == x * x * 1_000_000_000_000_000_000 + cross) by (nonlinear_arith)
        requires
            e == m * nx - x * 1_000_000_000,
            cross == 2_000_000_000 * (x * e) + e * e,
    ;
    let xa = iabs(x);
    assert(-(xa * m) <= x * e <= xa * m) by (nonlinear_arith)
        requires
            -m <= e <= m,
            xa == (if x < 0 { -x } else { x }),
            m >= 0,
    ;
    assert(0 <= e * e <= m * m) by (nonlinear_arith)
        requires
            -m <= e <= m,
    ;
    assert(2_000_000_000 * (xa * m) + m * m <= 7_000_000_000 * (m * m)) by (nonlinear_arith)
        requires
            xa <= m + 2_000_000_000,
            xa >= 0,
            999_000_000 <= m <= 1_001_000_000_000,
    ;
    assert(-(2_000_000_000 * (xa * m)) - m * m <= cross <= 2_000_000_000 * (xa * m) + m * m)
        by (nonlinear_arith)
        requires
            cross == 2_000_000_000 * (x * e) + e * e,
            -(xa * m) <= x * e <= xa * m,
            0 <= e * e <= m * m,
    ;
}

/// Normalizing a vector whose length lies between one and a thousand
/// scalar units and then taking the magnitude gives 1 within the
/// tolerance. Vectors far shorter than the fixed-point granularity can
/// lose their length to rounding, so a lower bound on the length is
/// needed.
#[verifier::rlimit(100)]
pub proof fn lemma_normalize_magnitude(v: TupleV)
    requires
        v.w == 0,
        SCALE * SCALE <= v.x * v.x + v.y * v.y + v.z * v.z,
        v.x * v.x + v.y * v.y + v.z * v.z <= 1_000_000_000_000_000_000_000_000,
    ensures
        approx(t_magnitude(t_normalize(v)), SCALE as int),
{
    let x = v.x;
    let y = v.y;
    let z = v.z;
    let m2 = x * x + y * y + z * z;
    assert(x * x >= 0 && y * y >= 0 && z * z >= 0) by (nonlinear_arith);
    assert(iabs(x) <= 1_000_000_000_000 && iabs(y) <= 1_000_000_000_000 && iabs(z)
        <= 1_000_000_000_000) by (nonlinear_arith)
        requires
            x * x <= 1_000_000_000_000_000_000_000_000,
            y * y <= 1_000_000_000_000_000_000_000_000,
            z * z <= 1_000_000_000_000_000_000_000_000,
            iabs(x) == (if x < 0 { -x } else { x }),
            iabs(y) == (if y < 0 { -y } else { y }),
            iabs(z) == (if z < 0 { -z } else { z }),
    ;

    // The raw dot product stays within three raw units of the scaled
    // true square of the length.
    lemma_fmul_close(x, x);
    lemma_fmul_close(y, y);
    lemma_fmul_close(z, z);
    lemma_fmul_zero();
    let f1 = fmul(x, x);
    let f2 = fmul(y, y);
    let f3 = fmul(z, z);
    let d = t_dot(v, v);
    assert(d == f1 + f2 + f3);
    assert(-3 * SCALE <= SCALE * d - m2 <= 3 * SCALE);
    assert(SCALE - 3 <= d <= 1_000_000_000_000_003);

    // Its square root stays within a few raw units of the true length.
    lemma_fsqrt_close(d);
    let m = fsqrt(d);
    assert(t_magnitude(v) == m);
    assert(-m <= m * m - SCALE * d <= m);
    assert(-(m + 3_000_000_000) <= m * m - m2 <= m + 3_000_000_000);
    assert(m >= 999_000_000) by (nonlinear_arith)
        requires
            0 <= m,
            m2 >= 1_000_000_000_000_000_000,
            m2 - m * m <= m + 3_000_000_000,
    ;
    assert(m <= 1_001_000_000_000) by (nonlinear_arith)
        requires
            0 <= m,
            m2 <= 1_000_000_000_000_000_000_000_000,
            m * m - m2 <= m + 3_000_000_000,
    ;
    lemma_component_bound(x, m2, m);
    lemma_component_bound(y, m2, m);
    lemma_component_bound(z, m2, m);

    // Each normalized component stays within one part in m of the exact
    // ratio.
    lemma_fdiv_close(x, m);
    lemma_fdiv_close(y, m);
    lemma_fdiv_close(z, m);
    lemma_fdiv_zero(m);
    let nx = fdiv(x, m);
    let ny = fdiv(y, m);
    let nz = fdiv(z, m);
    let nv = t_normalize(v);
    assert(nv == (TupleV { x: nx, y: ny, z: nz, w: 0 }));
    assert(-m <= m * nx - x * 1_000_000_000 <= m);
    assert(-m <= m * ny - y * 1_000_000_000 <= m);
    assert(-m <= m * nz - z * 1_000_000_000 <= m);
    lemma_scaled_square_bound(x, m, nx);
    lemma_scaled_square_bound(y, m, ny);
    lemma_scaled_square_bound(z, m, nz);

    // The dot product of the normalized vector, scaled by m^2, stays
    // close to the scaled square of the original length.
    lemma_fmul_close(nx, nx);
    lemma_fmul_close(ny, ny);
    lemma_fmul_close(nz, nz);
    let g1 = fmul(nx, nx);
    let g2 = fmul(ny, ny);
    let g3 = fmul(nz, nz);
    let n2 = t_dot(nv, nv);
    assert(n2 == g1 + g2 + g3);
    let sq = nx * nx + ny * ny + nz * nz;
    assert(-3_000_000_000 <= 1_000_000_000 * n2 - sq <= 3_000_000_000);
    assert(-(21_000_000_000 * (m * m)) <= m * m * sq - m2 * 1_000_000_000_000_000_000 <= 21_000_000_000
        * (m * m)) by (nonlinear_arith)
        requires
            -(7_000_000_000 * (m * m)) <= m * m * (nx * nx) - x * x * 1_000_000_000_000_000_000
                <= 7_000_000_000 * (m * m),
            -(7_000_000_000 * (m * m)) <= m * m * (ny * ny) - y * y * 1_000_000_000_000_000_000
                <= 7_000_000_000 * (m * m),
            -(7_000_000_000 * (m * m)) <= m * m * (nz * nz) - z * z * 1_000_000_000_000_000_000
                <= 7_000_000_000 * (m * m),
            sq == nx * nx + ny * ny + nz * nz,
            m2 == x * x + y * y + z * z,
    ;

    // Swap the scaled dot product in, and the squared length for the
    // squared root, to conclude that n2 is close to one.
    assert(-(25_000_000_000 * (m * m)) <= m * m * (1_000_000_000 * n2) - m2
        * 1_000_000_000_000_000_000 <= 25_000_000_000 * (m * m)) by (nonlinear_arith)
        requires
            -(21_000_000_000 * (m * m)) <= m * m * sq - m2 * 1_000_000_000_000_000_000
                <= 21_000_000_000 * (m * m),
            -3_000_000_000 <= 1_000_000_000 * n2 - sq <= 3_000_000_000,
            m * m >= 0,
    ;
    assert(-(31_000_000_000 * (m * m)) <= m * m * (1_000_000_000 * n2) - m * m
        * 1_000_000_000_000_000_000 <= 31_000_000_000 * (m * m)) by (nonlinear_arith)
        requires
            -(25_000_000_000 * (m * m)) <= m * m * (1_000_000_000 * n2) - m2
                * 1_000_000_000_000_000_000 <= 25_000_000_000 * (m * m),
            -(m + 3_000_000_000) <= m * m - m2 <= m + 3_000_000_000,
            999_000_000 <= m <= 1_001_000_000_000,
    ;
    assert(-31_000_000_000 <= 1_000_000_000 * n2 - 1_000_000_000_000_000_000 <= 31_000_000_000)
        by (nonlinear_arith)
        requires
            -(31_000_000_000 * (m * m)) <= m * m * (1_000_000_000 * n2) - m * m
                * 1_000_000_000_000_000_000 <= 31_000_000_000 * (m * m),
            m >= 999_000_000,
    ;
    assert(1_000_000_000 - 31 <= n2 <= 1_000_000_000 + 31);

    // The final square root lands within a few dozen raw units of 1.
    lemma_fsqrt_close(n2);
    let mag = fsqrt(n2);
    assert(t_magnitude(nv) == mag);
    assert(-mag <= mag * mag - SCALE * n2 <= mag);
    assert(-(mag + 31_000_000_000) <= mag * mag - 1_000_000_000_000_000_000 <= mag
        + 31_000_000_000);
    assert(900_000_000 <= mag <= 1_100_000_000) by (nonlinear_arith)
        requires
            0 <= mag,
            -(mag + 31_000_000_000) <= mag * mag - 1_000_000_000_000_000_000 <= mag
                + 31_000_000_000,
    ;
    assert(-100 <= mag - 1_000_000_000 <= 100) by (nonlinear_arith)
        requires
            900_000_000 <= mag <= 1_100_000_000,
            -(mag + 31_000_000_000) <= mag * mag - 1_000_000_000_000_000_000 <= mag
                + 31_000_000_000,
    ;
}

} // verus!
