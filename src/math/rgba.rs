use vstd::prelude::*;

verus! {

/// A color with one byte for each of red, green, blue and alpha, in that order.
#[derive(Clone, Copy, Debug, Default)]
pub struct RGBA(pub [u8; 4]);

impl RGBA {
    pub fn new(r: u8, g: u8, b: u8, a: u8) -> (c: RGBA)
        ensures
            c.0@ == seq![r, g, b, a],
    {
        let c = RGBA([r, g, b, a]);
        assert(c.0@ =~= seq![r, g, b, a]);
        c
    }

    /// An opaque color.
    pub fn rgb(r: u8, g: u8, b: u8) -> (c: RGBA)
        ensures
            c.0@ == seq![r, g, b, 255u8],
    {
        Self::new(r, g, b, 255)
    }

    pub fn r(&self) -> (v: u8)
        ensures
            v == self.0@[0],
    {
        self.0[0]
    }

    pub fn g(&self) -> (v: u8)
        ensures
            v == self.0@[1],
    {
        self.0[1]
    }

    pub fn b(&self) -> (v: u8)
        ensures
            v == self.0@[2],
    {
        self.0[2]
    }

    pub fn a(&self) -> (v: u8)
        ensures
            v == self.0@[3],
    {
        self.0[3]
    }

    pub fn red() -> (c: RGBA)
        ensures
            c.0@ == seq![255u8, 0, 0, 255],
    {
        Self::new(255, 0, 0, 255)
    }

    pub fn green() -> (c: RGBA)
        ensures
            c.0@ == seq![0u8, 255, 0, 255],
    {
        Self::new(0, 255, 0, 255)
    }

    pub fn blue() -> (c: RGBA)
        ensures
            c.0@ == seq![0u8, 0, 255, 255],
    {
        Self::new(0, 0, 255, 255)
    }

    pub fn yellow() -> (c: RGBA)
        ensures
            c.0@ == seq![255u8, 255, 0, 255],
    {
        Self::new(255, 255, 0, 255)
    }

    pub fn magenta() -> (c: RGBA)
        ensures
            c.0@ == seq![255u8, 0, 255, 255],
    {
        Self::new(255, 0, 255, 255)
    }

    pub fn cyan() -> (c: RGBA)
        ensures
            c.0@ == seq![0u8, 255, 255, 255],
    {
        Self::new(0, 255, 255, 255)
    }

    pub fn black() -> (c: RGBA)
        ensures
            c.0@ == seq![0u8, 0, 0, 255],
    {
        Self::new(0, 0, 0, 255)
    }

    pub fn white() -> (c: RGBA)
        ensures
            c.0@ == seq![255u8, 255, 255, 255],
    {
        Self::new(255, 255, 255, 255)
    }
}

} // verus!
