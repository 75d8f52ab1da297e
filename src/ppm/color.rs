//! One pixel of a PPM image.

use vstd::prelude::*;

use crate::ppm::text::{decimal, push_decimal};

verus! {

/// The text of one pixel in the plain PPM format: its three channels in
/// decimal, separated by spaces, and a line break.
pub open spec fn color_text(c: (u8, u8, u8)) -> Seq<u8> {
    decimal(c.0 as nat) + seq![32u8] + decimal(c.1 as nat) + seq![32u8] + decimal(c.2 as nat)
        + seq![10u8]
}

/// An 8-bit RGB pixel value.
#[derive(Debug, Clone, Copy, Default, PartialEq, Eq, Structural)]
pub struct PpmColor {
    r: u8,
    g: u8,
    b: u8,
}

impl View for PpmColor {
    type V = (u8, u8, u8);

    closed spec fn view(&self) -> (u8, u8, u8) {
        (self.r, self.g, self.b)
    }
}

impl PpmColor {
    pub fn new(r: u8, g: u8, b: u8) -> (c: PpmColor)
        ensures
            c@ == (r, g, b),
    {
        PpmColor { r, g, b }
    }

    /// Overwrites this pixel with `color`.
    pub fn set(&mut self, color: &PpmColor)
        ensures
            final(self)@ == color@,
    {
        self.r = color.r;
        self.g = color.g;
        self.b = color.b;
    }

    pub fn r(&self) -> (v: u8)
        ensures
            v == self@.0,
    {
        self.r
    }

    pub fn g(&self) -> (v: u8)
        ensures
            v == self@.1,
    {
        self.g
    }

    pub fn b(&self) -> (v: u8)
        ensures
            v == self@.2,
    {
        self.b
    }

    /// Appends the text of this pixel to `out`.
    pub fn push_text(&self, out: &mut Vec<u8>)
        ensures
            final(out)@ == old(out)@ + color_text(self@),
    {
        let ghost start = out@;
        push_decimal(out, self.r as u32);
        out.push(32);
        push_decimal(out, self.g as u32);
        out.push(32);
        push_decimal(out, self.b as u32);
        out.push(10);
        assert(out@ =~= start + color_text(self@));
    }

    /// The pixel as the plain PPM format writes it.
    pub fn to_text(&self) -> (t: Vec<u8>)
        ensures
            t@ == color_text(self@),
    {
        let mut t: Vec<u8> = Vec::new();
        self.push_text(&mut t);
        assert(t@ =~= color_text(self@));
        t
    }
}

} // verus!
