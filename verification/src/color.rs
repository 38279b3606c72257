use vstd::prelude::*;
use vstd::string::StrSliceExecFns;

use crate::decimal::{dec_rep, dec_string, lemma_dec_rep_len};

verus! {

/// The header of a plain-text PPM file: magic number, dimensions, and the
/// maximum component value.
pub open spec fn ppm_header(width: int, height: int) -> Seq<char> {
    seq!['P', '3', '\n'] + dec_rep(width) + seq![' '] + dec_rep(height) + seq![
        '\n',
        '2',
        '5',
        '5',
        '\n',
    ]
}

/// One step of PPM body assembly: the component `c` joins the line under
/// construction, moving the line into the finished text first whenever it
/// would grow past 70 characters.
pub open spec fn ppm_add(st: (Seq<char>, Seq<char>), c: int) -> (Seq<char>, Seq<char>) {
    let s = dec_rep(c);
    if st.1.len() == 0 {
        (st.0, s)
    } else if st.1.len() + 1 + s.len() > 70 {
        (st.0 + st.1 + seq!['\n'], s)
    } else {
        (st.0, st.1 + seq![' '] + s)
    }
}

/// Moves a non-empty line under construction into the finished text,
/// terminated by a newline.
pub open spec fn ppm_flush(st: (Seq<char>, Seq<char>)) -> (Seq<char>, Seq<char>) {
    if st.1.len() == 0 {
        st
    } else {
        (st.0 + st.1 + seq!['\n'], Seq::empty())
    }
}

/// Assembles the text of a plain-text PPM image: a header followed by
/// component lines that are wrapped at 70 characters.
pub struct PPMBuilder {
    result: String,
    current_line: String,
}

impl PPMBuilder {
    /// The finished part of the text.
    pub closed spec fn text(&self) -> Seq<char> {
        self.result@
    }

    /// The line still under construction.
    pub closed spec fn line(&self) -> Seq<char> {
        self.current_line@
    }

    pub fn new(width: i64, height: i64) -> (r: PPMBuilder)
        ensures
            r.text() == ppm_header(width as int, height as int),
            r.line() == Seq::<char>::empty(),
    {
        let mut result = String::new();
        result.append("P3\n");
        let w = dec_string(width);
        result.append(w.as_str());
        result.append(" ");
        let h = dec_string(height);
        result.append(h.as_str());
        result.append("\n255\n");
        proof {
            reveal_strlit("P3\n");
            reveal_strlit(" ");
            reveal_strlit("\n255\n");
            assert(result@ =~= ppm_header(width as int, height as int));
        }
        PPMBuilder { result, current_line: String::new() }
    }

    pub fn add_component(&mut self, component: i32)
        ensures
            (final(self).text(), final(self).line()) == ppm_add(
                (old(self).text(), old(self).line()),
                component as int,
            ),
    {
        proof {
            lemma_dec_rep_len(component as int);
        }
        let comp = dec_string(component as i64);
        if self.current_line.as_str().is_empty() {
            self.current_line.append(comp.as_str());
        } else {
            let line_len: usize = self.current_line.as_str().unicode_len();
            let comp_len: usize = comp.as_str().unicode_len();
            let wrap: bool = if line_len >= 70 {
                true
            } else {
                line_len + 1 + comp_len > 70
            };
            if wrap {
                self.force_next_line();
                self.current_line.append(comp.as_str());
            } else {
                self.current_line.append(" ");
                self.current_line.append(comp.as_str());
                proof {
                    reveal_strlit(" ");
                    assert(self.current_line@ =~= old(self).line() + seq![' '] + dec_rep(
                        component as int,
                    ));
                }
            }
        }
    }

    pub fn force_next_line(&mut self)
        ensures
            (final(self).text(), final(self).line()) == ppm_flush(
                (old(self).text(), old(self).line()),
            ),
    {
        if !self.current_line.as_str().is_empty() {
            let line = self.current_line.as_str();
            proof {
                reveal_strlit("\n");
            }
            self.result.append(line);
            self.result.append("\n");
            self.current_line = String::new();
            proof {
                assert(self.result@ =~= old(self).text() + old(self).line() + seq!['\n']);
            }
        }
    }

    /// Hands out the finished text; a line still under construction is
    /// dropped, exactly as `text()` says.
    pub fn into_text(self) -> (r: String)
        ensures
            r@ == self.text(),
    {
        self.result
    }
}

/// A rectangular pixel grid, stored row-major. The pixel type is a
/// parameter: the grid itself only moves values around.
pub struct Canvas<T> {
    pixels: Vec<T>,
    width: i64,
    height: i64,
}

impl<T> Canvas<T> {
    #[verifier::type_invariant]
    spec fn grid_invariant(self) -> bool {
        &&& 0 <= self.width
        &&& 0 <= self.height
        &&& self.pixels@.len() == self.width * self.height
    }

    pub closed spec fn spec_width(&self) -> i64 {
        self.width
    }

    pub closed spec fn spec_height(&self) -> i64 {
        self.height
    }

    /// The pixels, row-major: pixel (x, y) sits at x + y * width.
    pub closed spec fn spec_pixels(&self) -> Seq<T> {
        self.pixels@
    }

    pub open spec fn in_range(&self, x: int, y: int) -> bool {
        &&& 0 <= x < self.spec_width()
        &&& 0 <= y < self.spec_height()
    }
}

impl<T: Copy> Canvas<T> {
    pub fn new(width: i64, height: i64, fill: T) -> (r: Canvas<T>)
        requires
            0 <= width <= usize::MAX,
            0 <= height <= usize::MAX,
            width * height <= usize::MAX,
        ensures
            r.spec_width() == width,
            r.spec_height() == height,
            r.spec_pixels() == Seq::new((width * height) as nat, |i: int| fill),
    {
        proof {
            assert((width as usize) * (height as usize) == width * height) by (nonlinear_arith)
                requires
                    0 <= width <= usize::MAX,
                    0 <= height <= usize::MAX,
                    width * height <= usize::MAX,
            ;
        }
        let total: usize = (width as usize) * (height as usize);
        let mut pixels: Vec<T> = Vec::new();
        let mut i: usize = 0;
        while i < total
            invariant
                i <= total,
                pixels@ =~= Seq::new(i as nat, |j: int| fill),
            decreases total - i,
        {
            pixels.push(fill);
            i = i + 1;
        }
        proof {
            assert(pixels@ =~= Seq::new((width * height) as nat, |i: int| fill));
        }
        Canvas { pixels, width, height }
    }

    pub fn width(&self) -> (w: i64)
        ensures
            w == self.spec_width(),
    {
        self.width
    }

    pub fn height(&self) -> (h: i64)
        ensures
            h == self.spec_height(),
    {
        self.height
    }

    /// The pixel at (x, y), or nothing when the coordinate lies outside
    /// the grid.
    pub fn pixel_at(&self, x: i64, y: i64) -> (r: Option<&T>)
        ensures
            self.in_range(x as int, y as int) ==> (r matches Some(p) && *p == self.spec_pixels()[x
                + y * self.spec_width()]),
            !self.in_range(x as int, y as int) ==> r is None,
    {
        proof {
            use_type_invariant(&*self);
        }
        if 0 <= x && x < self.width && 0 <= y && y < self.height {
            let n: usize = self.pixels.len();
            proof {
                assert(x + y * self.width < self.width * self.height && self.width <= self.width
                    * self.height && self.height <= self.width * self.height && y * self.width
                    <= self.width * self.height) by (nonlinear_arith)
                    requires
                        0 <= x < self.width,
                        0 <= y < self.height,
                ;
            }
            let idx: usize = (x as usize) + (y as usize) * (self.width as usize);
            Some(&self.pixels[idx])
        } else {
            None
        }
    }

    /// Stores a pixel at (x, y); reports whether the coordinate was inside
    /// the grid, leaving the grid unchanged when it was not.
    pub fn write_pixel(&mut self, x: i64, y: i64, color: &T) -> (r: Option<()>)
        ensures
            final(self).spec_width() == old(self).spec_width(),
            final(self).spec_height() == old(self).spec_height(),
            old(self).in_range(x as int, y as int) ==> r == Some(()) && final(self).spec_pixels()
                == old(self).spec_pixels().update(x + y * old(self).spec_width(), *color),
            !old(self).in_range(x as int, y as int) ==> r is None && final(self).spec_pixels()
                == old(self).spec_pixels(),
    {
        proof {
            use_type_invariant(&*self);
        }
        if 0 <= x && x < self.width && 0 <= y && y < self.height {
            let n: usize = self.pixels.len();
            proof {
                assert(x + y * self.width < self.width * self.height && self.width <= self.width
                    * self.height && self.height <= self.width * self.height && y * self.width
                    <= self.width * self.height) by (nonlinear_arith)
                    requires
                        0 <= x < self.width,
                        0 <= y < self.height,
                ;
            }
            let idx: usize = (x as usize) + (y as usize) * (self.width as usize);
            self.pixels[idx] = *color;
            Some(())
        } else {
            None
        }
    }
}

/// One pixel's three components join the text in red, green, blue order.
pub open spec fn ppm_add_pixel(st: (Seq<char>, Seq<char>), p: [i32; 3]) -> (Seq<char>, Seq<char>) {
    ppm_add(ppm_add(ppm_add(st, p@[0] as int), p@[1] as int), p@[2] as int)
}

/// A row's pixels join the text left to right.
pub open spec fn ppm_add_row(st: (Seq<char>, Seq<char>), row: Seq<[i32; 3]>) -> (
    Seq<char>,
    Seq<char>,
)
    decreases row.len(),
{
    if row.len() == 0 {
        st
    } else {
        ppm_add_pixel(ppm_add_row(st, row.drop_last()), row.last())
    }
}

/// The first `y` rows of a row-major grid join the text top to bottom,
/// each row followed by a line break.
pub open spec fn ppm_rows(
    st: (Seq<char>, Seq<char>),
    pixels: Seq<[i32; 3]>,
    width: int,
    y: int,
) -> (Seq<char>, Seq<char>)
    decreases y,
{
    if y <= 0 {
        st
    } else {
        ppm_flush(
            ppm_add_row(
                ppm_rows(st, pixels, width, y - 1),
                pixels.subrange(width * (y - 1), width * y),
            ),
        )
    }
}

/// The complete text of the PPM image for a grid of component triples.
pub open spec fn ppm_text(width: int, height: int, pixels: Seq<[i32; 3]>) -> Seq<char> {
    ppm_flush(
        ppm_rows((ppm_header(width, height), Seq::<char>::empty()), pixels, width, height),
    ).0
}

/// Serializes a canvas of color components, each already clamped to
/// 0..=255 by the caller, into the text of a plain-text PPM file.
pub fn generate_ppm(canvas: &Canvas<[i32; 3]>) -> (r: String)
    ensures
        r@ == ppm_text(
            canvas.spec_width() as int,
            canvas.spec_height() as int,
            canvas.spec_pixels(),
        ),
{
    let w: i64 = canvas.width();
    let h: i64 = canvas.height();
    let ghost pixels = canvas.spec_pixels();
    let ghost init = (ppm_header(w as int, h as int), Seq::<char>::empty());
    proof {
        use_type_invariant(canvas);
        assert(pixels.len() == w * h);
    }
    let mut builder = PPMBuilder::new(w, h);
    let mut y: i64 = 0;
    while y < h
        invariant
            0 <= y <= h,
            0 <= w,
            w == canvas.spec_width(),
            h == canvas.spec_height(),
            pixels == canvas.spec_pixels(),
            pixels.len() == w * h,
            init == (ppm_header(w as int, h as int), Seq::<char>::empty()),
            (builder.text(), builder.line()) == ppm_rows(init, pixels, w as int, y as int),
        decreases h - y,
    {
        let ghost row_base = ppm_rows(init, pixels, w as int, y as int);
        proof {
            assert(0 <= w * y && w * y <= w * h) by (nonlinear_arith)
                requires
                    0 <= w,
                    0 <= y <= h,
            ;
            assert(pixels.subrange(w * y, w * y) =~= Seq::<[i32; 3]>::empty());
        }
        let mut x: i64 = 0;
        while x < w
            invariant
                0 <= x <= w,
                0 <= y < h,
                w == canvas.spec_width(),
                h == canvas.spec_height(),
                pixels == canvas.spec_pixels(),
                pixels.len() == w * h,
                (builder.text(), builder.line()) == ppm_add_row(
                    row_base,
                    pixels.subrange(w * y, w * y + x),
                ),
            decreases w - x,
        {
            proof {
                assert(w * y + x < w * h && 0 <= w * y && w * y + w <= w * h) by (nonlinear_arith)
                    requires
                        0 <= x < w,
                        0 <= y < h,
                ;
            }
            if let Some(pix) = canvas.pixel_at(x, y) {
                let ghost before = (builder.text(), builder.line());
                builder.add_component(pix[0]);
                builder.add_component(pix[1]);
                builder.add_component(pix[2]);
                proof {
                    let prev = pixels.subrange(w * y, w * y + x);
                    let next = pixels.subrange(w * y, w * y + x + 1);
                    assert(next.drop_last() =~= prev);
                    assert(next.last() == pixels[w * y + x]);
                    assert(x + y * w == w * y + x) by (nonlinear_arith);
                    assert((builder.text(), builder.line()) == ppm_add_pixel(
                        before,
                        pixels[w * y + x],
                    ));
                }
            } else {
                proof {
                    assert(false);
                }
            }
            x = x + 1;
        }
        builder.force_next_line();
        proof {
            assert(0 <= w * y && w * y + w <= w * h && w * (y + 1) == w * y + w)
                by (nonlinear_arith)
                requires
                    0 <= w,
                    0 <= y < h,
            ;
            assert(pixels.subrange(w * y, w * y + w) =~= pixels.subrange(
                (w as int) * ((y + 1) - 1),
                (w as int) * (y + 1),
            ));
        }
        y = y + 1;
    }
    builder.force_next_line();
    builder.into_text()
}

} // verus!

