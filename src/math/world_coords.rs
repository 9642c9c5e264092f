use crate::math::fixed::Fixed;
use crate::math::point::Point;
use vstd::prelude::*;

verus! {

/// A continuous position, or extent, in the world.
#[derive(Clone, Copy, Debug, Default, PartialEq, Eq, Structural)]
pub struct WorldCoords(pub Point<Fixed>);

impl WorldCoords {
    pub fn new(x: Fixed, y: Fixed) -> (r: WorldCoords)
        ensures
            r.0.x == x,
            r.0.y == y,
    {
        WorldCoords(Point::new(x, y))
    }

    pub fn x(&self) -> (r: Fixed)
        ensures
            r == self.0.x,
    {
        self.0.x
    }

    pub fn x_mut(&mut self) -> (r: &mut Fixed)
        ensures
            *r == old(self).0.x,
            final(self).0 == (Point { x: *final(r), y: old(self).0.y }),
    {
        &mut self.0.x
    }

    pub fn y(&self) -> (r: Fixed)
        ensures
            r == self.0.y,
    {
        self.0.y
    }

    pub fn y_mut(&mut self) -> (r: &mut Fixed)
        ensures
            *r == old(self).0.y,
            final(self).0 == (Point { x: old(self).0.x, y: *final(r) }),
    {
        &mut self.0.y
    }

    /// The horizontal extent, where the value is a size.
    pub fn width(&self) -> (r: Fixed)
        ensures
            r == self.0.x,
    {
        self.x()
    }

    /// The vertical extent, where the value is a size.
    pub fn height(&self) -> (r: Fixed)
        ensures
            r == self.0.y,
    {
        self.y()
    }
}

} // verus!
