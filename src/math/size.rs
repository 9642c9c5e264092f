use crate::math::fixed::{trunc_u32, Fixed};
use crate::math::point::Point;
use vstd::prelude::*;

verus! {

/// A width and a height.
#[derive(Clone, Copy, Debug, Default, PartialEq, Eq, Structural)]
pub struct Size<N> {
    pub width: N,
    pub height: N,
}

impl<N> Size<N> {
    pub fn new(width: N, height: N) -> (r: Size<N>)
        ensures
            r.width == width,
            r.height == height,
    {
        Size { width, height }
    }
}

impl<N: Copy> Size<N> {
    /// The size as the point `(width, height)`.
    pub fn to_point(self) -> (r: Point<N>)
        ensures
            r.x == self.width,
            r.y == self.height,
    {
        Point::new(self.width, self.height)
    }
}

impl Size<Fixed> {
    /// Both dimensions truncated toward zero and saturated into `u32`.
    pub fn to_u32(self) -> (r: Size<u32>)
        ensures
            r.width == trunc_u32(self.width.raw as int),
            r.height == trunc_u32(self.height.raw as int),
    {
        Size::new(self.width.to_u32(), self.height.to_u32())
    }
}

} // verus!
