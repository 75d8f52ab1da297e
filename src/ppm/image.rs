//! A PPM image: a grid of pixels in row-major order, and its text encoding.

use vstd::prelude::*;

use crate::ppm::color::{color_text, PpmColor};
use crate::ppm::text::{decimal, push_decimal};

verus! {

/// The text of the pixels of `s`, one line each, in order.
pub open spec fn pixels_text(s: Seq<(u8, u8, u8)>) -> Seq<u8>
    decreases s.len(),
{
    if s.len() == 0 {
        Seq::empty()
    } else {
        pixels_text(s.drop_last()) + color_text(s.last())
    }
}

/// A `w` by `h` image of 8-bit pixels. Pixel `(x, y)` is at `x + y * w`, row 0
/// being the top row.
#[derive(Debug)]
pub struct Ppm {
    w: u32,
    h: u32,
    depth: u32,
    body: Vec<PpmColor>,
}

impl Ppm {
    /// The pixel count matches the size, which fits in a `u32`.
    pub closed spec fn well_formed(&self) -> bool {
        &&& self.w * self.h <= u32::MAX
        &&& self.body@.len() == self.w * self.h
    }

    #[verifier::when_used_as_spec(spec_width)]
    pub fn width(&self) -> (w: u32)
        ensures
            w == self.spec_width(),
    {
        self.w
    }

    #[verifier::when_used_as_spec(spec_height)]
    pub fn height(&self) -> (h: u32)
        ensures
            h == self.spec_height(),
    {
        self.h
    }

    /// The largest channel value, written in the header.
    #[verifier::when_used_as_spec(spec_max_value)]
    pub fn max_value(&self) -> (m: u32)
        ensures
            m == self.spec_max_value(),
    {
        self.depth
    }

    pub closed spec fn spec_width(&self) -> u32 {
        self.w
    }

    pub closed spec fn spec_height(&self) -> u32 {
        self.h
    }

    pub closed spec fn spec_max_value(&self) -> u32 {
        self.depth
    }

    /// The pixels, row after row.
    pub closed spec fn pixels(&self) -> Seq<(u8, u8, u8)> {
        self.body@.map_values(|c: PpmColor| c@)
    }

    /// Where pixel `(x, y)` stands in `pixels()`.
    pub open spec fn index_of(&self, x: int, y: int) -> int {
        x + y * self.width()
    }

    /// A `w` by `h` image, black everywhere, whose channels run from 0 to
    /// `depth - 1`.
    pub fn new(w: u32, h: u32, depth: u32) -> (img: Ppm)
        requires
            depth >= 1,
            w * h <= u32::MAX,
        ensures
            img.well_formed(),
            img.width() == w,
            img.height() == h,
            img.max_value() == depth - 1,
            img.pixels() == Seq::new((w * h) as nat, |i: int| (0u8, 0u8, 0u8)),
    {
        let n: u32 = w * h;
        let mut body: Vec<PpmColor> = Vec::new();
        let mut i: u32 = 0;
        while i < n
            invariant
                i <= n,
                body@.len() == i,
                forall|k: int| 0 <= k < i ==> body@[k]@ == (0u8, 0u8, 0u8),
            decreases n - i,
        {
            body.push(PpmColor::new(0, 0, 0));
            i = i + 1;
        }
        assert(body@.map_values(|c: PpmColor| c@) =~= Seq::new(n as nat, |k: int| (0u8, 0u8, 0u8)));
        Ppm { w, h, depth: depth - 1, body }
    }

    /// Sets pixel `(x, y)` to `color`.
    pub fn set(&mut self, x: u32, y: u32, color: &PpmColor)
        requires
            old(self).well_formed(),
            x < old(self).width(),
            y < old(self).height(),
        ensures
            final(self).well_formed(),
            final(self).width() == old(self).width(),
            final(self).height() == old(self).height(),
            final(self).max_value() == old(self).max_value(),
            final(self).pixels() == old(self).pixels().update(
                old(self).index_of(x as int, y as int),
                color@,
            ),
    {
        proof {
            assert(y * self.w + x < self.w * self.h) by (nonlinear_arith)
                requires
                    x < self.w,
                    y < self.h,
            ;
        }
        let i: usize = (y * self.w + x) as usize;
        let mut c = self.body[i];
        c.set(color);
        self.body.set(i, c);
        assert(self.pixels() =~= old(self).pixels().update(i as int, color@));
    }

    /// Pixel `(x, y)`.
    pub fn pixel(&self, x: u32, y: u32) -> (c: PpmColor)
        requires
            self.well_formed(),
            x < self.width(),
            y < self.height(),
        ensures
            c@ == self.pixels()[self.index_of(x as int, y as int)],
    {
        proof {
            assert(y * self.w + x < self.w * self.h) by (nonlinear_arith)
                requires
                    x < self.w,
                    y < self.h,
            ;
        }
        self.body[(y * self.w + x) as usize]
    }

    /// The header of the text encoding: the `P3` tag, the size, and the
    /// largest channel value, each on a line of its own.
    pub open spec fn header(&self) -> Seq<u8> {
        seq![80u8, 51u8, 10u8] + decimal(self.width() as nat) + seq![32u8] + decimal(
            self.height() as nat,
        ) + seq![10u8] + decimal(self.max_value() as nat) + seq![10u8]
    }

    /// The whole image in the plain PPM format: the header, a line per
    /// pixel, and an empty line.
    pub open spec fn text(&self) -> Seq<u8> {
        self.header() + pixels_text(self.pixels()) + seq![10u8]
    }

    /// Encodes the image in the plain PPM format.
    pub fn to_text(&self) -> (t: Vec<u8>)
        requires
            self.well_formed(),
        ensures
            t@ == self.text(),
    {
        let mut t: Vec<u8> = Vec::new();
        t.push(80);
        t.push(51);
        t.push(10);
        push_decimal(&mut t, self.w);
        t.push(32);
        push_decimal(&mut t, self.h);
        t.push(10);
        push_decimal(&mut t, self.depth);
        t.push(10);
        assert(t@ =~= self.header());
        let mut i: usize = 0;
        while i < self.body.len()
            invariant
                i <= self.body@.len(),
                t@ == self.header() + pixels_text(self.pixels().subrange(0, i as int)),
            decreases self.body@.len() - i,
        {
            let ghost before = t@;
            self.body[i].push_text(&mut t);
            proof {
                let s = self.pixels().subrange(0, i + 1);
                assert(s.drop_last() =~= self.pixels().subrange(0, i as int));
                assert(t@ =~= self.header() + pixels_text(s));
            }
            i = i + 1;
        }
        assert(self.pixels().subrange(0, self.body@.len() as int) =~= self.pixels());
        t.push(10);
        assert(t@ =~= self.text());
        t
    }
}

} // verus!
