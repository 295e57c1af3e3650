//! The pixel grid and its serialization to the plain PPM text format.

use vstd::prelude::*;
use vstd::string::*;
use crate::color::{Color, ColorV, color_string, dec_seq, black, c_black, u32_dec};

verus! {

/// Reading or writing outside the pixel grid fails with one of these.
#[derive(Clone, Copy, Debug, PartialEq, Eq, Structural)]
pub enum CanvasError {
    ReadError,
    WriteError,
}

/// A grid of pixels, row-major.
#[derive(Debug)]
pub struct Canvas {
    pub width: isize,
    pub height: isize,
    pub pixels: Vec<Color>,
}

/// The pixel store matches the dimensions and fits the index arithmetic.
pub open spec fn canvas_wf(c: &Canvas) -> bool {
    &&& 0 <= c.width <= u32::MAX
    &&& 0 <= c.height <= u32::MAX
    &&& c.width * c.height <= usize::MAX
    &&& c.pixels@.len() == c.width * c.height
}

/// The pixels as model colors.
pub open spec fn canvas_pixels(c: &Canvas) -> Seq<ColorV> {
    c.pixels@.map_values(|p: Color| p@)
}

/// The last space at or before position `i`, or -1 when there is none.
pub open spec fn find_space(s: Seq<char>, i: int) -> int
    decreases i + 1,
{
    if i < 0 {
        -1
    } else if s[i] == ' ' {
        i
    } else {
        find_space(s, i - 1)
    }
}

/// A long line is broken at the last space within the first 70
/// characters, and the rest wrapped again; a line with no such space, or
/// one of 70 characters or fewer, stays as it is.
pub open spec fn line_wrap_spec(s: Seq<char>) -> Seq<char>
    decreases s.len(),
{
    if s.len() <= 70 {
        s
    } else {
        let i = find_space(s, 69);
        if 0 <= i <= 69 {
            s.subrange(0, i) + seq!['\n'] + line_wrap_spec(s.subrange(i + 1, s.len() as int))
        } else {
            s
        }
    }
}

/// One image row: the pixel strings joined by single spaces, left fold.
pub open spec fn row_fold(pix: Seq<ColorV>, w: int, y: int, x: int, acc: Seq<char>) -> Seq<char>
    decreases w - x,
{
    if x >= w {
        acc
    } else {
        row_fold(pix, w, y, x + 1, acc + seq![' '] + color_string(pix[y * w + x]))
    }
}

pub open spec fn row_string(pix: Seq<ColorV>, w: int, y: int) -> Seq<char> {
    row_fold(pix, w, y, 1, color_string(pix[y * w]))
}

/// The image body: each row wrapped, rows joined by newlines, left fold.
pub open spec fn body_fold(pix: Seq<ColorV>, w: int, h: int, y: int, acc: Seq<char>) -> Seq<char>
    decreases h - y,
{
    if y >= h {
        acc
    } else {
        body_fold(pix, w, h, y + 1, acc + seq!['\n'] + line_wrap_spec(row_string(pix, w, y)))
    }
}

pub open spec fn body_string(pix: Seq<ColorV>, w: int, h: int) -> Seq<char> {
    body_fold(pix, w, h, 1, line_wrap_spec(row_string(pix, w, 0)))
}

/// The whole file: the "P3" header with the dimensions and the channel
/// maximum, then the body, with a final newline.
pub open spec fn ppm_spec(pix: Seq<ColorV>, w: int, h: int) -> Seq<char> {
    seq!['P', '3', '\n'] + dec_seq(w) + seq![' '] + dec_seq(h) + seq!['\n', '2', '5', '5', '\n']
        + body_string(pix, w, h) + seq!['\n']
}

/// Break a line at spaces so that no piece is longer than 70 characters,
/// as long as spaces come often enough.
pub fn line_wrap(s: String) -> (r: String)
    ensures
        r@ == line_wrap_spec(s@),
    decreases s@.len(),
{
    let len = s.as_str().unicode_len();
    if len <= 70 {
        return s;
    }
    let mut k: usize = 70;
    while k > 0
        invariant
            k <= 70,
            70 < s@.len(),
            len == s@.len(),
            find_space(s@, 69) == find_space(s@, k as int - 1),
        decreases k,
    {
        let c = s.as_str().get_char(k - 1);
        if c == ' ' {
            assert(find_space(s@, k as int - 1) == k as int - 1);
            assert(k <= len);
            let head = s.as_str().substring_char(0, k - 1);
            let tail = s.as_str().substring_char(k, len);
            assert(tail@.len() < s@.len());
            let mut r = String::from_str(head);
            proof {
                reveal_strlit("\n");
            }
            r.append("\n");
            let rest = line_wrap(String::from_str(tail));
            r.append(rest.as_str());
            proof {
                assert(r@ =~= line_wrap_spec(s@));
            }
            return r;
        }
        k = k - 1;
    }
    s
}

impl Canvas {
    /// A canvas of the given size with every pixel black.
    pub fn new(width: isize, height: isize) -> (c: Canvas)
        requires
            0 <= width <= u32::MAX,
            0 <= height <= u32::MAX,
            width * height <= usize::MAX,
        ensures
            canvas_wf(&c),
            c.width == width,
            c.height == height,
            forall|j: int| 0 <= j < canvas_pixels(&c).len() ==> canvas_pixels(&c)[j] == c_black(),
    {
        let count: usize = (width as usize) * (height as usize);
        let mut pixels: Vec<Color> = Vec::new();
        let mut i: usize = 0;
        while i < count
            invariant
                i <= count,
                pixels@.len() == i,
                forall|j: int| 0 <= j < i ==> pixels@[j]@ == c_black(),
            decreases count - i,
        {
            pixels.push(black());
            i = i + 1;
        }
        Canvas { width, height, pixels }
    }

    /// A copy of the canvas with the pixel at (x, y) set; writes outside
    /// the grid leave the canvas unchanged.
    pub fn write_pixel(self, x: isize, y: isize, color: Color) -> (c: Canvas)
        requires
            canvas_wf(&self),
        ensures
            canvas_wf(&c),
            c.width == self.width,
            c.height == self.height,
            (x < 0 || x >= self.width || y < 0 || y >= self.height) ==> c.pixels@ == self.pixels@,
            (0 <= x < self.width && 0 <= y < self.height) ==> c.pixels@ == self.pixels@.update(
                y * self.width + x,
                color,
            ),
    {
        if x < 0 || x >= self.width || y < 0 || y >= self.height {
            return self;
        }
        assert(y * self.width + x < self.width * self.height) by (nonlinear_arith)
            requires
                0 <= x < self.width,
                0 <= y < self.height,
        ;
        assert(0 <= y * self.width) by (nonlinear_arith)
            requires
                0 <= y,
                0 <= self.width,
        ;
        let mut pixels = self.pixels;
        let idx: usize = (y as usize) * (self.width as usize) + (x as usize);
        pixels.set(idx, color);
        Canvas { width: self.width, height: self.height, pixels }
    }

    /// The pixel at (x, y), or an error for coordinates off the grid.
    pub fn read_pixel(&self, x: isize, y: isize) -> (r: Result<Color, CanvasError>)
        requires
            canvas_wf(self),
        ensures
            (0 <= x < self.width && 0 <= y < self.height) ==> r == Ok::<Color, CanvasError>(
                self.pixels[y * self.width + x],
            ),
            !(0 <= x < self.width && 0 <= y < self.height) ==> r == Err::<Color, CanvasError>(
                CanvasError::ReadError,
            ),
    {
        if x < 0 || x >= self.width || y < 0 || y >= self.height {
            return Err(CanvasError::ReadError);
        }
        assert(y * self.width + x < self.width * self.height) by (nonlinear_arith)
            requires
                0 <= x < self.width,
                0 <= y < self.height,
        ;
        assert(0 <= y * self.width) by (nonlinear_arith)
            requires
                0 <= y,
                0 <= self.width,
        ;
        let idx: usize = (y as usize) * (self.width as usize) + (x as usize);
        Ok(self.pixels[idx])
    }

    /// One row of the image as text: pixel strings joined by spaces.
    fn row_text(&self, y: isize) -> (s: String)
        requires
            canvas_wf(self),
            1 <= self.width,
            0 <= y < self.height,
        ensures
            s@ == row_string(canvas_pixels(self), self.width as int, y as int),
    {
        proof {
            reveal_strlit(" ");
            assert(y * self.width + 0 < self.width * self.height) by (nonlinear_arith)
                requires
                    0 <= y < self.height,
                    1 <= self.width,
            ;
            assert(0 <= y * self.width) by (nonlinear_arith)
                requires
                    0 <= y,
                    0 <= self.width,
            ;
        }
        let first = match self.read_pixel(0, y) {
            Ok(p) => p,
            Err(_) => black(),
        };
        proof {
            assert(canvas_pixels(self)[y as int * self.width] == self.pixels@[y as int
                * self.width]@);
        }
        let mut s = first.to_string();
        let w = self.width;
        let mut x: isize = 1;
        while x < w
            invariant
                1 <= x <= w,
                w == self.width,
                canvas_wf(self),
                0 <= y < self.height,
                row_fold(
                    canvas_pixels(self),
                    self.width as int,
                    y as int,
                    x as int,
                    s@,
                ) == row_string(canvas_pixels(self), self.width as int, y as int),
            decreases w - x,
        {
            proof {
                assert(y * self.width + x < self.width * self.height) by (nonlinear_arith)
                    requires
                        0 <= x < self.width,
                        0 <= y < self.height,
                ;
            }
            let p = match self.read_pixel(x, y) {
                Ok(p) => p,
                Err(_) => black(),
            };
            proof {
                reveal_strlit(" ");
                assert(canvas_pixels(self)[y as int * self.width + x as int] == self.pixels@[
                    y as int * self.width + x as int
                ]@);
            }
            let ghost s_pre = s@;
            s.append(" ");
            let ps = p.to_string();
            s.append(ps.as_str());
            proof {
                assert(s@ =~= s_pre + seq![' '] + color_string(
                    canvas_pixels(self)[y as int * self.width + x as int],
                ));
            }
            x = x + 1;
        }
        s
    }

    /// The canvas as a plain PPM text image.
    pub fn to_ppm(&self) -> (s: String)
        requires
            canvas_wf(self),
            1 <= self.width,
            1 <= self.height,
        ensures
            s@ == ppm_spec(canvas_pixels(self), self.width as int, self.height as int),
    {
        proof {
            reveal_strlit("P3\n");
            reveal_strlit(" ");
            reveal_strlit("\n255\n");
            reveal_strlit("\n");
        }
        let mut s = String::from_str("P3\n");
        let wd = u32_dec(self.width as u32);
        s.append(wd.as_str());
        s.append(" ");
        let hd = u32_dec(self.height as u32);
        s.append(hd.as_str());
        s.append("\n255\n");

        let row0 = self.row_text(0);
        let mut body = line_wrap(row0);
        let h = self.height;
        let mut y: isize = 1;
        while y < h
            invariant
                1 <= y <= h,
                h == self.height,
                canvas_wf(self),
                1 <= self.width,
                body_fold(
                    canvas_pixels(self),
                    self.width as int,
                    self.height as int,
                    y as int,
                    body@,
                ) == body_string(canvas_pixels(self), self.width as int, self.height as int),
            decreases h - y,
        {
            proof {
                reveal_strlit("\n");
            }
            let ghost body_pre = body@;
            body.append("\n");
            let row = self.row_text(y);
            let wrapped = line_wrap(row);
            body.append(wrapped.as_str());
            proof {
                assert(body@ =~= body_pre + seq!['\n'] + line_wrap_spec(
                    row_string(canvas_pixels(self), self.width as int, y as int),
                ));
            }
            y = y + 1;
        }
        s.append(body.as_str());
        s.append("\n");
        proof {
            assert(s@ =~= ppm_spec(canvas_pixels(self), self.width as int, self.height as int));
        }
        s
    }
}

} // verus!
