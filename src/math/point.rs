use crate::math::fixed::{floor_cells, in_limit, round_raw, trunc_u32, Fixed, FIXED_SCALE};
use vstd::prelude::*;

verus! {

/// A 2D point, either a world cell (`i64`), a screen position (`u32`) or a
/// continuous world position (`Fixed`).
#[derive(Clone, Copy, Debug, Default, PartialEq, Eq, Structural)]
pub struct Point<N> {
    pub x: N,
    pub y: N,
}

impl<N> Point<N> {
    pub fn new(x: N, y: N) -> (r: Point<N>)
        ensures
            r.x == x,
            r.y == y,
    {
        Point { x, y }
    }
}

impl<N: Copy> Point<N> {
    /// Applies `f` to both coordinates.
    pub fn map<M, F: Fn(N) -> M>(self, f: F) -> (r: Point<M>)
        requires
            f.requires((self.x,)),
            f.requires((self.y,)),
        ensures
            f.ensures((self.x,), r.x),
            f.ensures((self.y,), r.y),
    {
        Point { x: f(self.x), y: f(self.y) }
    }
}

} // verus!

verus! {

impl Point<i64> {
    pub open spec fn wf(self) -> bool {
        in_limit(self.x as int) && in_limit(self.y as int)
    }

    /// The continuous position of this cell's lower corner.
    pub fn to_fixed(self) -> (r: Point<Fixed>)
        requires
            in_limit(self.x * FIXED_SCALE),
            in_limit(self.y * FIXED_SCALE),
        ensures
            r.x.raw == self.x * FIXED_SCALE,
            r.y.raw == self.y * FIXED_SCALE,
            r.wf(),
    {
        Point::new(Fixed::from_int(self.x), Fixed::from_int(self.y))
    }
}

impl Point<Fixed> {
    pub open spec fn wf(self) -> bool {
        self.x.wf() && self.y.wf()
    }

    /// The cell that holds this position.
    pub open spec fn spec_to_i64(self) -> Point<i64> {
        Point {
            x: floor_cells(self.x.raw as int) as i64,
            y: floor_cells(self.y.raw as int) as i64,
        }
    }

    /// The cell that holds this position.
    pub fn to_i64(self) -> (r: Point<i64>)
        ensures
            r == self.spec_to_i64(),
            r.x == floor_cells(self.x.raw as int),
            r.y == floor_cells(self.y.raw as int),
    {
        Point::new(self.x.floor_int(), self.y.floor_int())
    }

    /// Both coordinates truncated toward zero and saturated into `u32`.
    pub fn to_u32(self) -> (r: Point<u32>)
        ensures
            r.x == trunc_u32(self.x.raw as int),
            r.y == trunc_u32(self.y.raw as int),
    {
        Point::new(self.x.to_u32(), self.y.to_u32())
    }

    /// Both coordinates rounded to whole cells, halves away from zero.
    pub fn round(self) -> (r: Point<Fixed>)
        requires
            self.wf(),
        ensures
            r.x.raw == round_raw(self.x.raw as int),
            r.y.raw == round_raw(self.y.raw as int),
            r.wf(),
    {
        Point::new(self.x.round(), self.y.round())
    }

    /// Both coordinates rounded down to whole cells.
    pub fn floor(self) -> (r: Point<Fixed>)
        requires
            self.wf(),
        ensures
            r.x.raw == floor_cells(self.x.raw as int) * FIXED_SCALE,
            r.y.raw == floor_cells(self.y.raw as int) * FIXED_SCALE,
            r.wf(),
    {
        Point::new(self.x.floor(), self.y.floor())
    }
}

} // verus!
