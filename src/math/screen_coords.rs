use crate::math::point::Point;
use vstd::prelude::*;

verus! {

/// A pixel position, or a pixel size, on the screen.
#[derive(Clone, Copy, Debug, Default, PartialEq, Eq, Structural)]
pub struct ScreenCoords(pub Point<u32>);

impl ScreenCoords {
    pub fn new(x: u32, y: u32) -> (r: ScreenCoords)
        ensures
            r.0.x == x,
            r.0.y == y,
    {
        ScreenCoords(Point::new(x, y))
    }

    pub fn x(&self) -> (r: u32)
        ensures
            r == self.0.x,
    {
        self.0.x
    }

    pub fn y(&self) -> (r: u32)
        ensures
            r == self.0.y,
    {
        self.0.y
    }

    /// The horizontal extent, where the value is a size.
    pub fn width(&self) -> (r: u32)
        ensures
            r == self.0.x,
    {
        self.x()
    }

    /// The vertical extent, where the value is a size.
    pub fn height(&self) -> (r: u32)
        ensures
            r == self.0.y,
    {
        self.y()
    }
}

} // verus!
