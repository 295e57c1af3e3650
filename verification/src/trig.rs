//! Sine, cosine and tangent on fixed-point scalars.
//!
//! An angle is reduced to a quarter turn around zero and the polynomial
//! approximations below are evaluated on the remainder. The contracts pin
//! each result to the spec functions that mirror this computation exactly.

use vstd::prelude::*;
use crate::scalar::{Scalar, SCALE, fsub, fneg, fmul, fdiv, iabs};

verus! {

/// A quarter turn in raw units: pi / 2.
pub const HALF_PI_RAW: i64 = 1_570_796_327;

pub const C3: i64 = 166_666_667;
pub const C5: i64 = 8_333_333;
pub const C7: i64 = 198_413;
pub const C9: i64 = 2_756;

pub const D2: i64 = 500_000_000;
pub const D4: i64 = 41_666_667;
pub const D6: i64 = 1_388_889;
pub const D8: i64 = 24_802;

/// How many quarter turns are closest to the angle `a` (raw units).
pub open spec fn reduce_k(a: int) -> int {
    if a < 0 {
        -((iabs(a) + HALF_PI_RAW / 2) / (HALF_PI_RAW as int))
    } else {
        (a + HALF_PI_RAW / 2) / (HALF_PI_RAW as int)
    }
}

/// The remainder of the angle after taking out the quarter turns.
pub open spec fn reduce_r(a: int) -> int {
    a - reduce_k(a) * HALF_PI_RAW
}

/// The quarter-turn count modulo 4, in 0..=3.
pub open spec fn quadrant(a: int) -> int {
    let mu = ((iabs(a) + HALF_PI_RAW / 2) / (HALF_PI_RAW as int)) % 4;
    if a < 0 && mu != 0 {
        4 - mu
    } else if a < 0 {
        0
    } else {
        mu
    }
}

/// Taylor polynomial for the sine of a remainder no larger than an eighth
/// of a turn.
pub open spec fn sin_poly(r: int) -> int {
    let x2 = fmul(r, r);
    let v1 = fsub(C7 as int, fmul(x2, C9 as int));
    let v2 = fsub(C5 as int, fmul(x2, v1));
    let v3 = fsub(C3 as int, fmul(x2, v2));
    let q = fsub(SCALE as int, fmul(x2, v3));
    fmul(r, q)
}

/// Taylor polynomial for the cosine of a remainder no larger than an
/// eighth of a turn.
pub open spec fn cos_poly(r: int) -> int {
    let x2 = fmul(r, r);
    let w1 = fsub(D6 as int, fmul(x2, D8 as int));
    let w2 = fsub(D4 as int, fmul(x2, w1));
    let w3 = fsub(D2 as int, fmul(x2, w2));
    fsub(SCALE as int, fmul(x2, w3))
}

/// The sine of the angle `a` in raw radians.
pub open spec fn sin_fx(a: int) -> int {
    let m = quadrant(a);
    let r = reduce_r(a);
    if m == 0 {
        sin_poly(r)
    } else if m == 1 {
        cos_poly(r)
    } else if m == 2 {
        fneg(sin_poly(r))
    } else {
        fneg(cos_poly(r))
    }
}

/// The cosine of the angle `a` in raw radians.
pub open spec fn cos_fx(a: int) -> int {
    let m = quadrant(a);
    let r = reduce_r(a);
    if m == 0 {
        cos_poly(r)
    } else if m == 1 {
        fneg(sin_poly(r))
    } else if m == 2 {
        fneg(cos_poly(r))
    } else {
        sin_poly(r)
    }
}

/// The tangent of the angle `a` in raw radians.
pub open spec fn tan_fx(a: int) -> int {
    fdiv(sin_fx(a), cos_fx(a))
}

/// Quarter-turn range reduction: the quadrant in 0..=3 and the remainder.
fn reduce(a: Scalar) -> (res: (u64, Scalar))
    ensures
        res.0 as int == quadrant(a@),
        res.1@ == reduce_r(a@),
{
    let h: u64 = HALF_PI_RAW as u64;
    let ma: u64 = if a.raw < 0 {
        ((-(a.raw as i128)) as u64)
    } else {
        a.raw as u64
    };
    let ku: u64 = (ma + h / 2) / h;
    let mu: u64 = ku % 4;
    let m: u64 = if a.raw < 0 && mu != 0 {
        4 - mu
    } else if a.raw < 0 {
        0
    } else {
        mu
    };
    proof {
        vstd::arithmetic::div_mod::lemma_fundamental_div_mod(ma as int + HALF_PI_RAW / 2, HALF_PI_RAW as int);
        vstd::arithmetic::div_mod::lemma_mod_bound(ma as int + HALF_PI_RAW / 2, HALF_PI_RAW as int);
    }
    let r128: i128 = a.raw as i128 - (if a.raw < 0 {
        -(ku as i128)
    } else {
        ku as i128
    }) * (HALF_PI_RAW as i128);
    assert(-(HALF_PI_RAW as i128) <= r128 <= HALF_PI_RAW as i128);
    (m, Scalar { raw: r128 as i64 })
}

impl Scalar {
    /// Sine of `self`, taken as an angle in radians.
    pub fn sin(self) -> (res: Scalar)
        ensures
            res@ == sin_fx(self@),
    {
        let (m, r) = reduce(self);
        if m == 0 {
            sin_poly_exec(r)
        } else if m == 1 {
            cos_poly_exec(r)
        } else if m == 2 {
            sin_poly_exec(r).neg()
        } else {
            cos_poly_exec(r).neg()
        }
    }

    /// Cosine of `self`, taken as an angle in radians.
    pub fn cos(self) -> (res: Scalar)
        ensures
            res@ == cos_fx(self@),
    {
        let (m, r) = reduce(self);
        if m == 0 {
            cos_poly_exec(r)
        } else if m == 1 {
            sin_poly_exec(r).neg()
        } else if m == 2 {
            cos_poly_exec(r).neg()
        } else {
            sin_poly_exec(r)
        }
    }

    /// Tangent of `self`, taken as an angle in radians.
    pub fn tan(self) -> (res: Scalar)
        ensures
            res@ == tan_fx(self@),
    {
        let s = self.sin();
        let c = self.cos();
        s.div(c)
    }
}

fn sin_poly_exec(r: Scalar) -> (res: Scalar)
    ensures
        res@ == sin_poly(r@),
{
    let x2 = r.mul(r);
    let v1 = Scalar { raw: C7 }.sub(x2.mul(Scalar { raw: C9 }));
    let v2 = Scalar { raw: C5 }.sub(x2.mul(v1));
    let v3 = Scalar { raw: C3 }.sub(x2.mul(v2));
    let q = Scalar { raw: SCALE }.sub(x2.mul(v3));
    r.mul(q)
}

fn cos_poly_exec(r: Scalar) -> (res: Scalar)
    ensures
        res@ == cos_poly(r@),
{
    let x2 = r.mul(r);
    let w1 = Scalar { raw: D6 }.sub(x2.mul(Scalar { raw: D8 }));
    let w2 = Scalar { raw: D4 }.sub(x2.mul(w1));
    let w3 = Scalar { raw: D2 }.sub(x2.mul(w2));
    Scalar { raw: SCALE }.sub(x2.mul(w3))
}

} // verus!
