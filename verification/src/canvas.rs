//! A rectangle of pixels, and the image file it is written to.
use crate::arithmetic::Arithmetic;
use crate::color::Color;
use crate::scalar::Scalar;
use crate::grid::{lemma_offset, offset};
use crate::ppm::{
    append_decimal, blank, header_text, lemma_ppm_lines_within, lines_within, place_row, ppm_text,
    put_pixel, row_text, rows_text, LINE_LIMIT,
};
use vstd::prelude::*;
use vstd::string::StringExecFns;

verus! {

/// The encoding of 255, the largest value of a colour component in a file.
pub const FULL_BITS: u64 = 0x406F_E000_0000_0000;

/// A canvas of `width` by `height` pixels, kept row by row from the top, each
/// row from the left.
pub struct Canvas {
    width: usize,
    height: usize,
    pixels: Vec<Color>,
}

/// A canvas as the contracts see it: its size, and its pixels row after row.
pub struct Picture {
    pub width: nat,
    pub height: nat,
    pub pixels: Seq<Color>,
}

impl View for Canvas {
    type V = Picture;

    closed spec fn view(&self) -> Picture {
        Picture { width: self.width as nat, height: self.height as nat, pixels: self.pixels@ }
    }
}

/// The colour component `x` on the scale of the file: `x` times 255,
/// rounded.
pub open spec fn spec_level<A: Arithmetic>(x: Scalar, f: &A) -> i32 {
    f.rounded(f.product(x, (Scalar { bits: FULL_BITS })))
}

/// A colour component on the scale of the file.
fn level<A: Arithmetic>(x: Scalar, f: &A) -> (r: i32)
    requires
        f.ready(),
    ensures
        r == spec_level(x, f),
{
    f.round(f.mul(x, Scalar::from_bits(FULL_BITS)))
}

impl Canvas {
    /// The canvas holds one pixel for each place of its rectangle.
    pub open spec fn wf(&self) -> bool {
        self@.pixels.len() == self@.width * self@.height
    }

    /// The number of pixels in a row.
    pub open spec fn spec_width(&self) -> nat {
        self@.width
    }

    /// The number of rows.
    pub open spec fn spec_height(&self) -> nat {
        self@.height
    }

    /// The pixel in column `x` of row `y`.
    pub open spec fn pixel(&self, x: int, y: int) -> Color {
        self@.pixels[offset(self@.width, x, y)]
    }

    /// A canvas of the given size with every pixel black.
    pub fn new(width: usize, height: usize) -> (c: Canvas)
        requires
            width * height <= usize::MAX,
        ensures
            c.wf(),
            c@ == (Picture {
                width: width as nat,
                height: height as nat,
                pixels: Seq::new((width * height) as nat, |i: int| Color::spec_black()),
            }),
    {
        let n: usize = width * height;
        let mut pixels: Vec<Color> = Vec::new();
        let mut i: usize = 0;
        while i < n
            invariant
                i <= n,
                pixels.len() == i,
                forall|k: int| 0 <= k < i ==> pixels@[k] == Color::spec_black(),
            decreases n - i,
        {
            pixels.push(Color::black());
            i += 1;
        }
        assert(pixels@ =~= Seq::new((width * height) as nat, |i: int| Color::spec_black()));
        Canvas { width, height, pixels }
    }

    /// The number of pixels in a row.
    pub fn width(&self) -> (w: usize)
        ensures
            w == self.spec_width(),
    {
        self.width
    }

    /// The number of rows.
    pub fn height(&self) -> (h: usize)
        ensures
            h == self.spec_height(),
    {
        self.height
    }

    /// Sets the pixel in column `x` of row `y`, counted from the top left, and
    /// leaves every other pixel as it was.
    pub fn write_pixel(&mut self, x: usize, y: usize, color: Color)
        requires
            old(self).wf(),
            x < old(self).spec_width(),
            y < old(self).spec_height(),
        ensures
            final(self).wf(),
            final(self)@ == (Picture {
                pixels: old(self)@.pixels.update(offset(old(self)@.width, x as int, y as int), color),
                ..old(self)@
            }),
            final(self).pixel(x as int, y as int) == color,
            forall|i: int, j: int|
                0 <= i < old(self).spec_width() && 0 <= j < old(self).spec_height() && (i != x || j
                    != y) ==> final(self).pixel(i, j) == old(self).pixel(i, j),
    {
        proof {
            lemma_offset(self.spec_width(), self.spec_height(), x as int, y as int);
            assert(self.pixels.len() == self.width * self.height);
            assert(offset(self@.width, x as int, y as int) == y * self.width + x);
            assert(0 <= y * self.width) by (nonlinear_arith);
        }
        let index: usize = y * self.width + x;
        self.pixels.set(index, color);
        proof {
            assert forall|i: int, j: int|
                0 <= i < old(self).spec_width() && 0 <= j < old(self).spec_height() && (i != x || j
                    != y) implies self.pixel(i, j) == old(self).pixel(i, j) by {
                lemma_offset(self.spec_width(), self.spec_height(), i, j);
            }
        }
    }

    /// The pixel in column `x` of row `y`, counted from the top left.
    pub fn pixel_at(&self, x: usize, y: usize) -> (c: &Color)
        requires
            self.wf(),
            x < self.spec_width(),
            y < self.spec_height(),
        ensures
            *c == self.pixel(x as int, y as int),
    {
        proof {
            lemma_offset(self.spec_width(), self.spec_height(), x as int, y as int);
            assert(self.pixels.len() == self.width * self.height);
            assert(offset(self@.width, x as int, y as int) == y * self.width + x);
            assert(0 <= y * self.width) by (nonlinear_arith);
        }
        let index: usize = y * self.width + x;
        &self.pixels[index]
    }

    /// The red, the green and the blue component of each pixel of the
    /// canvas on the scale of the file, pixel by pixel.
    pub open spec fn spec_samples<A: Arithmetic>(&self, f: &A) -> Seq<(i32, i32, i32)> {
        Seq::new(
            self@.pixels.len(),
            |i: int|
                (
                    spec_level(self@.pixels[i].red, f),
                    spec_level(self@.pixels[i].green, f),
                    spec_level(self@.pixels[i].blue, f),
                ),
        )
    }

    /// The canvas as the text of a plain PPM file.
    pub open spec fn spec_to_ppm<A: Arithmetic>(&self, f: &A) -> Seq<char> {
        ppm_text(self.spec_width(), self.spec_height(), self.spec_samples(f))
    }

    /// The canvas as the text of a plain PPM file.
    ///
    /// Each colour component is brought to the scale of the file: it is
    /// multiplied by 255 and rounded to a whole number, which is written as 0
    /// where it is below 0 and as 255 where it is above. No line of the text
    /// is longer than 70 characters with its newline, and the text ends with
    /// a newline.
    pub fn to_ppm<A: Arithmetic>(&self, f: &A) -> (text: String)
        requires
            f.ready(),
            self.wf(),
        ensures
            text@ == self.spec_to_ppm(f),
            lines_within(text@, LINE_LIMIT as nat),
            text@.len() > 0,
            text@.last() == '\n',
    {
        let mut scaled: Vec<(i32, i32, i32)> = Vec::new();
        let mut i: usize = 0;
        while i < self.pixels.len()
            invariant
                f.ready(),
                i <= self.pixels.len(),
                scaled.len() == i,
                forall|k: int| 0 <= k < i ==> #[trigger] scaled@[k] == self.spec_samples(f)[k],
            decreases self.pixels.len() - i,
        {
            let pixel = self.pixels[i];
            let sample = (
                level(pixel.red, f),
                level(pixel.green, f),
                level(pixel.blue, f),
            );
            scaled.push(sample);
            i += 1;
        }
        assert(scaled@ =~= self.spec_samples(f));
        self.write(&scaled)
    }

    /// The text of a plain PPM file of the canvas's size with the given
    /// samples.
    fn write(&self, scaled: &Vec<(i32, i32, i32)>) -> (text: String)
        requires
            self.wf(),
            scaled.len() == self.spec_width() * self.spec_height(),
        ensures
            text@ == ppm_text(self.spec_width(), self.spec_height(), scaled@),
            lines_within(text@, LINE_LIMIT as nat),
            text@.len() > 0,
            text@.last() == '\n',
    {
        proof {
            lemma_ppm_lines_within(self.spec_width(), self.spec_height(), scaled@);
            reveal_strlit("P3\n");
            reveal_strlit(" ");
            reveal_strlit("\n255\n");
            reveal_strlit("\n");
        }
        let width: usize = self.width;
        let height: usize = self.height;
        let mut result = String::from_str("P3\n");
        append_decimal(&mut result, width as u64);
        result.append(" ");
        append_decimal(&mut result, height as u64);
        result.append("\n255\n");
        assert(result@ =~= header_text(width as nat, height as nat));
        let mut y: usize = 0;
        while y < height
            invariant
                y <= height,
                scaled.len() == width * height,
                result@ == header_text(width as nat, height as nat) + rows_text(
                    width as nat,
                    scaled@,
                    y as nat,
                ),
            decreases height - y,
        {
            proof {
                assert(0 <= y * width && (y + 1) * width == y * width + width && (y + 1) * width
                    <= width * height) by (nonlinear_arith)
                    requires
                        0 <= y < height,
                        0 <= width,
                ;
            }
            let ghost base = result@;
            let ghost row = scaled@.subrange(y * width, (y + 1) * width);
            let mut line = String::new();
            let mut line_len: usize = 0;
            let mut x: usize = 0;
            assert(row.take(0) =~= Seq::<(i32, i32, i32)>::empty());
            assert(result@ =~= base + blank().done);
            while x < width
                invariant
                    x <= width,
                    y < height,
                    scaled.len() == width * height,
                    0 <= y * width,
                    (y + 1) * width == y * width + width,
                    (y + 1) * width <= width * height,
                    row == scaled@.subrange(y * width, (y + 1) * width),
                    row.len() == width,
                    result@ == base + place_row(row.take(x as int)).done,
                    line@ == place_row(row.take(x as int)).line,
                    line_len == line@.len(),
                    line_len <= LINE_LIMIT,
                decreases width - x,
            {
                proof {
                    lemma_offset(width as nat, height as nat, x as int, y as int);
                    assert(row.take(x + 1).drop_last() =~= row.take(x as int));
                    assert(row.take(x + 1).last() == scaled@[y * width + x]);
                }
                let p = scaled[y * width + x];
                put_pixel(
                    &mut result,
                    &mut line,
                    &mut line_len,
                    p,
                    Ghost(base),
                    Ghost(place_row(row.take(x as int))),
                );
                x += 1;
            }
            assert(row.take(width as int) =~= row);
            let ghost filled = result@;
            result.append(line.as_str());
            result.append("\n");
            proof {
                reveal_strlit("\n");
                assert(filled == base + place_row(row).done);
                assert(result@ == filled + place_row(row).line + seq!['\n']);
                assert(result@ =~= base + row_text(row));
                assert(rows_text(width as nat, scaled@, (y + 1) as nat) == rows_text(
                    width as nat,
                    scaled@,
                    y as nat,
                ) + row_text(row));
                assert(result@ =~= header_text(width as nat, height as nat) + rows_text(
                    width as nat,
                    scaled@,
                    (y + 1) as nat,
                ));
            }
            y += 1;
        }
        result
    }
}

} // verus!
