//! RGB colors over fixed-point scalars.

use vstd::prelude::*;
use crate::scalar::{Scalar, SCALE, fadd, fsub, fmul, approx};

verus! {

/// Model of a color: the three raw channel values.
pub ghost struct ColorV {
    pub red: int,
    pub green: int,
    pub blue: int,
}

pub open spec fn c_add(a: ColorV, b: ColorV) -> ColorV {
    ColorV { red: fadd(a.red, b.red), green: fadd(a.green, b.green), blue: fadd(a.blue, b.blue) }
}

pub open spec fn c_sub(a: ColorV, b: ColorV) -> ColorV {
    ColorV { red: fsub(a.red, b.red), green: fsub(a.green, b.green), blue: fsub(a.blue, b.blue) }
}

pub open spec fn c_scale(a: ColorV, s: int) -> ColorV {
    ColorV { red: fmul(a.red, s), green: fmul(a.green, s), blue: fmul(a.blue, s) }
}

/// Componentwise (Hadamard) product.
pub open spec fn c_mul(a: ColorV, b: ColorV) -> ColorV {
    ColorV { red: fmul(a.red, b.red), green: fmul(a.green, b.green), blue: fmul(a.blue, b.blue) }
}

pub open spec fn c_approx(a: ColorV, b: ColorV) -> bool {
    approx(a.red, b.red) && approx(a.green, b.green) && approx(a.blue, b.blue)
}

pub open spec fn c_black() -> ColorV {
    ColorV { red: 0, green: 0, blue: 0 }
}

/// A channel scaled to 0..=255 for image output: the value times 256,
/// clamped, and truncated to a whole number.
pub open spec fn to_255(c: int) -> int {
    if c <= 0 {
        0
    } else if c * 256 / (SCALE as int) >= 255 {
        255
    } else {
        c * 256 / (SCALE as int)
    }
}

/// The character of a decimal digit.
pub open spec fn dec_digit(d: int) -> char {
    if d == 0 {
        '0'
    } else if d == 1 {
        '1'
    } else if d == 2 {
        '2'
    } else if d == 3 {
        '3'
    } else if d == 4 {
        '4'
    } else if d == 5 {
        '5'
    } else if d == 6 {
        '6'
    } else if d == 7 {
        '7'
    } else if d == 8 {
        '8'
    } else {
        '9'
    }
}

/// The decimal digits of a nonnegative number.
pub open spec fn dec_seq(n: int) -> Seq<char>
    decreases n,
{
    if n < 10 {
        seq![dec_digit(n)]
    } else {
        dec_seq(n / 10).push(dec_digit(n % 10))
    }
}

/// The "r g b" line that a color contributes to an image file.
pub open spec fn color_string(c: ColorV) -> Seq<char> {
    dec_seq(to_255(c.red)) + seq![' '] + dec_seq(to_255(c.green)) + seq![' '] + dec_seq(
        to_255(c.blue),
    )
}

/// An RGB color; channels nominally in 0..=1 but unclamped.
#[derive(Clone, Copy, Debug, PartialEq, Eq, Structural)]
pub struct Color {
    pub red: Scalar,
    pub green: Scalar,
    pub blue: Scalar,
}

impl View for Color {
    type V = ColorV;

    open spec fn view(&self) -> ColorV {
        ColorV { red: self.red@, green: self.green@, blue: self.blue@ }
    }
}

/// The color with every channel 0.
pub fn black() -> (r: Color)
    ensures
        r@ == c_black(),
{
    Color { red: Scalar::zero(), green: Scalar::zero(), blue: Scalar::zero() }
}

fn digit_str(d: u32) -> (s: &'static str)
    requires
        d < 10,
    ensures
        s@ == seq![dec_digit(d as int)],
{
    proof {
        reveal_strlit("0");
        reveal_strlit("1");
        reveal_strlit("2");
        reveal_strlit("3");
        reveal_strlit("4");
        reveal_strlit("5");
        reveal_strlit("6");
        reveal_strlit("7");
        reveal_strlit("8");
        reveal_strlit("9");
    }
    if d == 0 {
        "0"
    } else if d == 1 {
        "1"
    } else if d == 2 {
        "2"
    } else if d == 3 {
        "3"
    } else if d == 4 {
        "4"
    } else if d == 5 {
        "5"
    } else if d == 6 {
        "6"
    } else if d == 7 {
        "7"
    } else if d == 8 {
        "8"
    } else {
        "9"
    }
}

/// The decimal digits of `n` as a string.
pub fn u32_dec(n: u32) -> (s: String)
    ensures
        s@ == dec_seq(n as int),
    decreases n,
{
    if n < 10 {
        String::from_str(digit_str(n))
    } else {
        let mut s = u32_dec(n / 10);
        s.append(digit_str(n % 10));
        assert(s@ == dec_seq(n as int));
        s
    }
}

impl Color {
    pub fn new(red: Scalar, green: Scalar, blue: Scalar) -> (r: Color)
        ensures
            r@ == (ColorV { red: red@, green: green@, blue: blue@ }),
    {
        Color { red, green, blue }
    }

    pub fn add(self, other: Color) -> (r: Color)
        ensures
            r@ == c_add(self@, other@),
    {
        Color {
            red: self.red.add(other.red),
            green: self.green.add(other.green),
            blue: self.blue.add(other.blue),
        }
    }

    pub fn sub(self, other: Color) -> (r: Color)
        ensures
            r@ == c_sub(self@, other@),
    {
        Color {
            red: self.red.sub(other.red),
            green: self.green.sub(other.green),
            blue: self.blue.sub(other.blue),
        }
    }

    pub fn scale(self, s: Scalar) -> (r: Color)
        ensures
            r@ == c_scale(self@, s@),
    {
        Color { red: self.red.mul(s), green: self.green.mul(s), blue: self.blue.mul(s) }
    }

    /// Componentwise (Hadamard) product.
    pub fn mul(self, other: Color) -> (r: Color)
        ensures
            r@ == c_mul(self@, other@),
    {
        Color {
            red: self.red.mul(other.red),
            green: self.green.mul(other.green),
            blue: self.blue.mul(other.blue),
        }
    }

    /// Whether the colors agree channelwise within the tolerance.
    pub fn approx_eq(&self, other: &Color) -> (r: bool)
        ensures
            r == c_approx(self@, other@),
    {
        self.red.approx_eq(other.red) && self.green.approx_eq(other.green)
            && self.blue.approx_eq(other.blue)
    }

    /// One channel scaled into 0..=255.
    fn channel_255(c: Scalar) -> (r: u32)
        ensures
            r as int == to_255(c@),
    {
        if c.raw <= 0 {
            0
        } else {
            let v: i128 = (c.raw as i128) * 256 / (SCALE as i128);
            if v >= 255 {
                255
            } else {
                v as u32
            }
        }
    }

    /// The color as an "r g b" line of whole channel values in 0..=255.
    pub fn to_string(&self) -> (s: String)
        ensures
            s@ == color_string(self@),
    {
        proof {
            reveal_strlit(" ");
        }
        let mut s = u32_dec(Self::channel_255(self.red));
        s.append(" ");
        let g = u32_dec(Self::channel_255(self.green));
        s.append(g.as_str());
        s.append(" ");
        let b = u32_dec(Self::channel_255(self.blue));
        s.append(b.as_str());
        s
    }
}

} // verus!
