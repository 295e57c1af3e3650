//! Fixed-point scalars.
//!
//! A `Scalar` stores a signed 64-bit count of billionths: the value it
//! denotes is `raw / SCALE`. Every operation saturates at the `i64` range
//! instead of wrapping, so all operations are total and their results are
//! pinned exactly by the spec functions below.

use vstd::prelude::*;

verus! {

/// Raw units per 1.0: nine decimal places.
pub const SCALE: i64 = 1_000_000_000;

/// Tolerance of the approximate comparisons, in raw units: 1e-5.
pub const EPSILON_RAW: i64 = 10_000;

/// Clamp an unbounded integer into the `i64` range.
pub open spec fn sat(x: int) -> int {
    if x > i64::MAX {
        i64::MAX as int
    } else if x < i64::MIN {
        i64::MIN as int
    } else {
        x
    }
}

pub open spec fn iabs(x: int) -> int {
    if x < 0 {
        -x
    } else {
        x
    }
}

pub open spec fn fadd(a: int, b: int) -> int {
    sat(a + b)
}

pub open spec fn fsub(a: int, b: int) -> int {
    sat(a - b)
}

pub open spec fn fneg(a: int) -> int {
    sat(-a)
}

/// Magnitude of a product, rounded to the nearest raw unit.
pub open spec fn mul_mag(a: int, b: int) -> int {
    (iabs(a) * iabs(b) + SCALE / 2) / (SCALE as int)
}

/// Fixed-point product: round the magnitude, then apply the sign, then clamp.
pub open spec fn fmul(a: int, b: int) -> int {
    if (a < 0) != (b < 0) {
        sat(-mul_mag(a, b))
    } else {
        sat(mul_mag(a, b))
    }
}

/// Magnitude of a quotient, rounded to the nearest raw unit.
pub open spec fn div_mag(a: int, b: int) -> int {
    (iabs(a) * SCALE + iabs(b) / 2) / iabs(b)
}

/// Fixed-point quotient. A zero divisor saturates by the sign of the
/// dividend, the closest analogue of the infinities the operation would
/// produce over the reals.
pub open spec fn fdiv(a: int, b: int) -> int {
    if b == 0 {
        if a > 0 {
            i64::MAX as int
        } else if a < 0 {
            i64::MIN as int
        } else {
            0
        }
    } else if (a < 0) != (b < 0) {
        sat(-div_mag(a, b))
    } else {
        sat(div_mag(a, b))
    }
}

pub open spec fn fabs(a: int) -> int {
    sat(iabs(a))
}

/// Approximate equality: the raw values differ by less than `EPSILON_RAW`.
pub open spec fn approx(a: int, b: int) -> bool {
    -(EPSILON_RAW as int) < a - b < EPSILON_RAW as int
}

/// Largest `r` with `r * r <= n`; 0 for nonpositive `n`.
pub open spec fn fsqrt_floor(n: int) -> int
    decreases n,
{
    if n <= 0 {
        0
    } else {
        let r = fsqrt_floor(n - 1);
        if (r + 1) * (r + 1) <= n {
            r + 1
        } else {
            r
        }
    }
}

pub proof fn lemma_fsqrt_floor(n: int)
    requires
        n >= 0,
    ensures
        fsqrt_floor(n) >= 0,
        fsqrt_floor(n) * fsqrt_floor(n) <= n,
        n < (fsqrt_floor(n) + 1) * (fsqrt_floor(n) + 1),
    decreases n,
{
    if n <= 0 {
    } else {
        lemma_fsqrt_floor(n - 1);
        let r = fsqrt_floor(n - 1);
        if (r + 1) * (r + 1) <= n {
            assert(fsqrt_floor(n) == r + 1);
            assert(n == (r + 1) * (r + 1));
            assert((r + 1 + 1) * (r + 1 + 1) > (r + 1) * (r + 1)) by (nonlinear_arith)
                requires
                    r >= 0,
            ;
        } else {
            assert(fsqrt_floor(n) == r);
        }
    }
}

/// Two integers that both satisfy the floor-square-root bounds are equal.
proof fn lemma_sqrt_unique(n: int, a: int, b: int)
    requires
        a >= 0,
        b >= 0,
        a * a <= n < (a + 1) * (a + 1),
        b * b <= n < (b + 1) * (b + 1),
    ensures
        a == b,
{
    assert(a == b) by (nonlinear_arith)
        requires
            a >= 0,
            b >= 0,
            a * a <= n < (a + 1) * (a + 1),
            b * b <= n < (b + 1) * (b + 1),
    ;
}

/// The square root of a nonnegative scalar, rounded to the nearest raw
/// unit; nonpositive inputs give 0.
pub open spec fn fsqrt(a: int) -> int {
    if a <= 0 {
        0
    } else {
        (fsqrt_floor(4 * a * SCALE) + 1) / 2
    }
}

/// One step of square-and-multiply exponentiation over `fmul`.
pub open spec fn powi_loop(acc: int, b: int, n: nat) -> int
    decreases n,
{
    if n == 0 {
        acc
    } else {
        powi_loop(
            if n % 2 == 1 {
                fmul(acc, b)
            } else {
                acc
            },
            fmul(b, b),
            n / 2,
        )
    }
}

/// Largest `r` with `r * r <= n`, computed by bisection.
fn isqrt(n: u128) -> (r: u128)
    requires
        n < 0x1_0000_0000_0000_0000_0000_0000u128,
    ensures
        r * r <= n,
        n < (r + 1) * (r + 1),
{
    let mut lo: u128 = 0;
    let mut hi: u128 = 0x1_0000_0000_0000u128;
    assert(n < hi * hi) by (nonlinear_arith)
        requires
            n < 0x1_0000_0000_0000_0000_0000_0000u128,
            hi == 0x1_0000_0000_0000u128,
    ;
    while lo + 1 < hi
        invariant
            lo < hi,
            hi <= 0x1_0000_0000_0000u128,
            lo * lo <= n,
            n < hi * hi,
        decreases hi - lo,
    {
        let mid = lo + (hi - lo) / 2;
        assert(mid * mid <= 0x1_0000_0000_0000u128 * 0x1_0000_0000_0000u128)
            by (nonlinear_arith)
            requires
                mid <= 0x1_0000_0000_0000u128,
        ;
        if mid * mid <= n {
            lo = mid;
        } else {
            hi = mid;
        }
    }
    lo
}

/// A product rounds to the true quotient by `SCALE` within one raw unit,
/// and does not saturate, for factors below four thousand (in value).
pub proof fn lemma_fmul_close(a: int, b: int)
    requires
        iabs(a) <= 4_000_000_000_000,
        iabs(b) <= 4_000_000_000_000,
    ensures
        iabs(SCALE * fmul(a, b) - a * b) <= SCALE,
        iabs(fmul(a, b)) <= 16_000_000_000_000_000,
{
    let ia = iabs(a);
    let ib = iabs(b);
    assert(ia * ib <= 16_000_000_000_000_000_000_000_000) by (nonlinear_arith)
        requires
            0 <= ia <= 4_000_000_000_000,
            0 <= ib <= 4_000_000_000_000,
    ;
    let p = ia * ib;
    assert(p >= 0) by (nonlinear_arith)
        requires
            ia >= 0,
            ib >= 0,
            p == ia * ib,
    ;
    let q = mul_mag(a, b);
    vstd::arithmetic::div_mod::lemma_fundamental_div_mod(p + SCALE / 2, SCALE as int);
    vstd::arithmetic::div_mod::lemma_mod_bound(p + SCALE / 2, SCALE as int);
    assert(-(SCALE as int) <= SCALE * q - p <= SCALE);
    assert(0 <= q <= 16_000_000_000_000_000);
    assert(a * b == if (a < 0) != (b < 0) {
        -p
    } else {
        p
    }) by (nonlinear_arith)
        requires
            ia == (if a < 0 { -a } else { a }),
            ib == (if b < 0 { -b } else { b }),
            p == ia * ib,
    ;
    assert(fmul(a, b) == if (a < 0) != (b < 0) {
        -q
    } else {
        q
    });
}

/// A quotient by a positive divisor rounds to the true scaled ratio
/// within one divisor, and does not saturate, while the dividend is at
/// most four times the divisor.
pub proof fn lemma_fdiv_close(a: int, b: int)
    requires
        0 < b,
        iabs(a) <= 4 * b,
    ensures
        iabs(b * fdiv(a, b) - a * SCALE) <= b,
        iabs(fdiv(a, b)) <= 4 * SCALE + 1,
{
    let ia = iabs(a);
    let q = div_mag(a, b);
    vstd::arithmetic::div_mod::lemma_fundamental_div_mod(ia * SCALE + b / 2, b);
    vstd::arithmetic::div_mod::lemma_mod_bound(ia * SCALE + b / 2, b);
    assert(-b <= b * q - ia * SCALE <= b);
    assert(ia * SCALE <= 4 * b * SCALE) by (nonlinear_arith)
        requires
            0 <= ia <= 4 * b,
    ;
    assert(q <= 4 * SCALE + 1) by (nonlinear_arith)
        requires
            b >= 1,
            b * q <= ia * SCALE + b,
            ia * SCALE <= 4 * b * SCALE,
    ;
    vstd::arithmetic::div_mod::lemma_div_pos_is_pos(ia * SCALE + b / 2, b);
    assert(q >= 0);
    assert(a * SCALE == if a < 0 {
        -(ia * SCALE)
    } else {
        ia * SCALE
    }) by (nonlinear_arith)
        requires
            ia == (if a < 0 { -a } else { a }),
    ;
    assert(fdiv(a, b) == if (a < 0) != (b < 0) {
        -q
    } else {
        q
    });
    if a < 0 {
        assert(b * fdiv(a, b) == -(b * q)) by (nonlinear_arith)
            requires
                fdiv(a, b) == -q,
        ;
    }
}

/// Dividing zero gives zero.
pub proof fn lemma_fdiv_zero(b: int)
    requires
        b > 0,
    ensures
        fdiv(0, b) == 0,
{
    vstd::arithmetic::div_mod::lemma_basic_div(b / 2, b);
}

/// The square of zero is zero.
pub proof fn lemma_fmul_zero()
    ensures
        fmul(0, 0) == 0,
{
    assert(iabs(0) * iabs(0) == 0) by (nonlinear_arith);
    vstd::arithmetic::div_mod::lemma_basic_div(SCALE / 2, SCALE as int);
}

/// A product of one factor below four thousand and one below two
/// million (in value) also rounds within one raw unit, without
/// saturating.
pub proof fn lemma_fmul_close_wide(a: int, b: int)
    requires
        iabs(a) <= 4_000_000_000_000,
        iabs(b) <= 2_000_000_000_000_000,
    ensures
        iabs(SCALE * fmul(a, b) - a * b) <= SCALE,
{
    let ia = iabs(a);
    let ib = iabs(b);
    assert(ia * ib <= 8_000_000_000_000_000_000_000_000_000) by (nonlinear_arith)
        requires
            0 <= ia <= 4_000_000_000_000,
            0 <= ib <= 2_000_000_000_000_000,
    ;
    let p = ia * ib;
    assert(p >= 0) by (nonlinear_arith)
        requires
            ia >= 0,
            ib >= 0,
            p == ia * ib,
    ;
    let q = mul_mag(a, b);
    vstd::arithmetic::div_mod::lemma_fundamental_div_mod(p + SCALE / 2, SCALE as int);
    vstd::arithmetic::div_mod::lemma_mod_bound(p + SCALE / 2, SCALE as int);
    assert(-(SCALE as int) <= SCALE * q - p <= SCALE);
    assert(0 <= q <= 8_000_000_000_000_000_001);
    assert(a * b == if (a < 0) != (b < 0) {
        -p
    } else {
        p
    }) by (nonlinear_arith)
        requires
            ia == (if a < 0 { -a } else { a }),
            ib == (if b < 0 { -b } else { b }),
            p == ia * ib,
    ;
    assert(fmul(a, b) == if (a < 0) != (b < 0) {
        -q
    } else {
        q
    });
}

/// A product with zero is zero.
pub proof fn lemma_fmul_zero_all()
    ensures
        forall|t: int| #[trigger] fmul(0, t) == 0,
        forall|t: int| #[trigger] fmul(t, 0) == 0,
{
    assert forall|t: int| #[trigger] fmul(0, t) == 0 by {
        assert(iabs(0) * iabs(t) == 0) by (nonlinear_arith);
        vstd::arithmetic::div_mod::lemma_basic_div(SCALE / 2, SCALE as int);
    }
    assert forall|t: int| #[trigger] fmul(t, 0) == 0 by {
        assert(iabs(t) * iabs(0) == 0) by (nonlinear_arith);
        vstd::arithmetic::div_mod::lemma_basic_div(SCALE / 2, SCALE as int);
    }
}

/// A product with 1 (the scalar `SCALE`) gives the other factor back
/// exactly, for factors in the representable range.
pub proof fn lemma_fmul_one_all()
    ensures
        forall|t: int|
            i64::MIN <= t <= i64::MAX ==> #[trigger] fmul(t, SCALE as int) == t,
        forall|t: int|
            i64::MIN <= t <= i64::MAX ==> #[trigger] fmul(SCALE as int, t) == t,
{
    assert forall|t: int| i64::MIN <= t <= i64::MAX implies #[trigger] fmul(t, SCALE as int)
        == t by {
        lemma_fmul_one_case(t);
    }
    assert forall|t: int| i64::MIN <= t <= i64::MAX implies #[trigger] fmul(SCALE as int, t)
        == t by {
        lemma_fmul_one_case(t);
        assert(iabs(SCALE as int) * iabs(t) == iabs(t) * iabs(SCALE as int)) by (nonlinear_arith);
    }
}

proof fn lemma_fmul_one_case(t: int)
    requires
        i64::MIN <= t <= i64::MAX,
    ensures
        fmul(t, SCALE as int) == t,
{
    let ta = iabs(t);
    assert(ta * iabs(SCALE as int) == ta * SCALE) by (nonlinear_arith)
        requires
            iabs(SCALE as int) == SCALE as int,
            SCALE as int == 1_000_000_000,
    ;
    vstd::arithmetic::div_mod::lemma_fundamental_div_mod_converse(
        ta * SCALE + SCALE / 2,
        SCALE as int,
        ta,
        SCALE / 2,
    );
    assert(mul_mag(t, SCALE as int) == ta);
}

/// The fixed-point square root squares back to the scaled input within
/// one root.
pub proof fn lemma_fsqrt_close(a: int)
    requires
        0 <= a <= 2_000_000_000_000_000,
    ensures
        0 <= fsqrt(a) <= 1_500_000_000_000,
        iabs(fsqrt(a) * fsqrt(a) - a * SCALE) <= fsqrt(a),
{
    if a == 0 {
    } else {
        let n = 4 * a * SCALE;
        lemma_fsqrt_floor(n);
        let s = fsqrt_floor(n);
        let r = (s + 1) / 2;
        vstd::arithmetic::div_mod::lemma_fundamental_div_mod(s + 1, 2);
        vstd::arithmetic::div_mod::lemma_mod_bound(s + 1, 2);
        let rem = (s + 1) % 2;
        assert(s + 1 == 2 * r + rem);
        if rem == 0 {
            assert((2 * r - 1) * (2 * r - 1) <= 4 * a * SCALE) by (nonlinear_arith)
                requires
                    s == 2 * r - 1,
                    s * s <= n,
                    n == 4 * a * SCALE,
            ;
            assert(4 * a * SCALE < (2 * r) * (2 * r)) by (nonlinear_arith)
                requires
                    s == 2 * r - 1,
                    n < (s + 1) * (s + 1),
                    n == 4 * a * SCALE,
            ;
            assert(-r <= r * r - a * SCALE <= r) by (nonlinear_arith)
                requires
                    (2 * r - 1) * (2 * r - 1) <= 4 * a * SCALE < (2 * r) * (2 * r),
                    r >= 1,
            ;
        } else {
            assert((2 * r) * (2 * r) <= 4 * a * SCALE) by (nonlinear_arith)
                requires
                    s == 2 * r,
                    s * s <= n,
                    n == 4 * a * SCALE,
            ;
            assert(4 * a * SCALE < (2 * r + 1) * (2 * r + 1)) by (nonlinear_arith)
                requires
                    s == 2 * r,
                    n < (s + 1) * (s + 1),
                    n == 4 * a * SCALE,
            ;
            assert(-r <= r * r - a * SCALE <= r) by (nonlinear_arith)
                requires
                    (2 * r) * (2 * r) <= 4 * a * SCALE < (2 * r + 1) * (2 * r + 1),
                    r >= 0,
            ;
        }
        assert(r <= 1_500_000_000_000) by (nonlinear_arith)
            requires
                r * r - a * SCALE <= r,
                a <= 2_000_000_000_000_000,
                SCALE as int == 1_000_000_000,
                r >= 0,
        ;
    }
}

/// A fixed-point number: the value `raw / SCALE`.
#[derive(Clone, Copy, Debug, PartialEq, Eq, Structural)]
pub struct Scalar {
    pub raw: i64,
}

impl View for Scalar {
    type V = int;

    open spec fn view(&self) -> int {
        self.raw as int
    }
}

/// Clamp an `i128` into the `i64` range.
fn sat_i128(x: i128) -> (r: i64)
    ensures
        r as int == sat(x as int),
{
    if x > i64::MAX as i128 {
        i64::MAX
    } else if x < i64::MIN as i128 {
        i64::MIN
    } else {
        x as i64
    }
}

/// Magnitude of an `i64` as a `u128`.
fn abs_u128(x: i64) -> (m: u128)
    ensures
        m as int == iabs(x as int),
        m <= 0x8000_0000_0000_0000u128,
{
    if x < 0 {
        let xi: i128 = x as i128;
        (-xi) as u128
    } else {
        x as u128
    }
}

impl Scalar {
    pub fn from_raw(raw: i64) -> (r: Scalar)
        ensures
            r@ == raw as int,
    {
        Scalar { raw }
    }

    /// The scalar denoting the integer `v`.
    pub fn from_int(v: i64) -> (r: Scalar)
        requires
            -9_223_372_036 <= v <= 9_223_372_036,
        ensures
            r@ == v * SCALE,
    {
        Scalar { raw: v * SCALE }
    }

    pub fn zero() -> (r: Scalar)
        ensures
            r@ == 0,
    {
        Scalar { raw: 0 }
    }

    pub fn one() -> (r: Scalar)
        ensures
            r@ == SCALE as int,
    {
        Scalar { raw: SCALE }
    }

    pub fn add(self, other: Scalar) -> (r: Scalar)
        ensures
            r@ == fadd(self@, other@),
    {
        let s: i128 = self.raw as i128 + other.raw as i128;
        Scalar { raw: sat_i128(s) }
    }

    pub fn sub(self, other: Scalar) -> (r: Scalar)
        ensures
            r@ == fsub(self@, other@),
    {
        let s: i128 = self.raw as i128 - other.raw as i128;
        Scalar { raw: sat_i128(s) }
    }

    pub fn neg(self) -> (r: Scalar)
        ensures
            r@ == fneg(self@),
    {
        let s: i128 = -(self.raw as i128);
        Scalar { raw: sat_i128(s) }
    }

    pub fn abs(self) -> (r: Scalar)
        ensures
            r@ == fabs(self@),
    {
        if self.raw < 0 {
            self.neg()
        } else {
            self
        }
    }

    pub fn mul(self, other: Scalar) -> (r: Scalar)
        ensures
            r@ == fmul(self@, other@),
    {
        let neg = (self.raw < 0) != (other.raw < 0);
        let ma = abs_u128(self.raw);
        let mb = abs_u128(other.raw);
        assert(ma * mb <= 0x8000_0000_0000_0000u128 * 0x8000_0000_0000_0000u128)
            by (nonlinear_arith)
            requires
                ma <= 0x8000_0000_0000_0000u128,
                mb <= 0x8000_0000_0000_0000u128,
        ;
        let p: u128 = ma * mb;
        let q: u128 = (p + (SCALE as u128) / 2) / (SCALE as u128);
        assert(q as int == mul_mag(self@, other@));
        let signed: i128 = if neg {
            -(q as i128)
        } else {
            q as i128
        };
        Scalar { raw: sat_i128(signed) }
    }

    pub fn div(self, other: Scalar) -> (r: Scalar)
        ensures
            r@ == fdiv(self@, other@),
    {
        if other.raw == 0 {
            if self.raw > 0 {
                Scalar { raw: i64::MAX }
            } else if self.raw < 0 {
                Scalar { raw: i64::MIN }
            } else {
                Scalar { raw: 0 }
            }
        } else {
            let neg = (self.raw < 0) != (other.raw < 0);
            let ma = abs_u128(self.raw);
            let mb = abs_u128(other.raw);
            assert(ma * (SCALE as u128) <= 0x8000_0000_0000_0000u128 * 1_000_000_000u128)
                by (nonlinear_arith)
                requires
                    ma <= 0x8000_0000_0000_0000u128,
            ;
            let p: u128 = ma * (SCALE as u128);
            let q: u128 = (p + mb / 2) / mb;
            assert(q <= p + mb / 2) by (nonlinear_arith)
                requires
                    mb >= 1u128,
                    q as int == (p as int + (mb as int) / 2) / (mb as int),
            ;
            assert(q as int == div_mag(self@, other@));
            let signed: i128 = if neg {
                -(q as i128)
            } else {
                q as i128
            };
            Scalar { raw: sat_i128(signed) }
        }
    }

    /// Square root, rounded to the nearest raw unit.
    pub fn sqrt(self) -> (r: Scalar)
        ensures
            r@ == fsqrt(self@),
    {
        if self.raw <= 0 {
            Scalar { raw: 0 }
        } else {
            let n: u128 = (self.raw as u128) * 4u128 * (SCALE as u128);
            assert(n < 0x1_0000_0000_0000_0000_0000_0000u128) by (nonlinear_arith)
                requires
                    n == (self.raw as u128) * 4u128 * (SCALE as u128),
                    self.raw as u128 <= 0x7fff_ffff_ffff_ffffu128,
            ;
            let s = isqrt(n);
            assert(s < 0x1_0000_0000_0000u128) by (nonlinear_arith)
                requires
                    (s as int) * (s as int) <= n as int,
                    (n as int) < 0x1_0000_0000_0000_0000_0000_0000int,
            ;
            proof {
                lemma_fsqrt_floor(n as int);
                lemma_sqrt_unique(n as int, s as int, fsqrt_floor(n as int));
                assert(n as int == 4 * self@ * SCALE);
            }
            let root: u128 = (s + 1) / 2;
            Scalar { raw: root as i64 }
        }
    }

    /// `self` raised to the integer power `n`, by square-and-multiply.
    pub fn powi(self, n: u64) -> (r: Scalar)
        ensures
            r@ == powi_loop(SCALE as int, self@, n as nat),
    {
        let mut acc = Scalar { raw: SCALE };
        let mut base = self;
        let mut k = n;
        while k > 0
            invariant
                powi_loop(acc@, base@, k as nat) == powi_loop(SCALE as int, self@, n as nat),
            decreases k,
        {
            if k % 2 == 1 {
                acc = acc.mul(base);
            }
            base = base.mul(base);
            k = k / 2;
        }
        acc
    }

    /// Whether the two scalars differ by less than the tolerance.
    pub fn approx_eq(self, other: Scalar) -> (r: bool)
        ensures
            r == approx(self@, other@),
    {
        let d: i128 = self.raw as i128 - other.raw as i128;
        -(EPSILON_RAW as i128) < d && d < EPSILON_RAW as i128
    }
}

} // verus!
