use crate::math::circle::Circle;
use crate::math::fixed::Fixed;
use crate::math::point::Point;
use crate::math::rect::Rect;
use vstd::prelude::*;

verus! {

/// A region of the world: a disc or a rectangle.
#[derive(Clone, Copy, Debug, PartialEq, Eq, Structural)]
pub enum Area<N> {
    Circle(Circle<N>),
    Rect(Rect<N>),
}

impl Area<Fixed> {
    pub open spec fn wf(self) -> bool {
        match self {
            Area::Circle(c) => c.wf(),
            Area::Rect(r) => r.wf(),
        }
    }

    /// The same area in whole cells.
    pub open spec fn spec_to_i64(self) -> Area<i64> {
        match self {
            Area::Circle(c) => Area::Circle(
                Circle {
                    center: Point {
                        x: crate::math::fixed::floor_cells(c.center.x.raw as int) as i64,
                        y: crate::math::fixed::floor_cells(c.center.y.raw as int) as i64,
                    },
                    radius: crate::math::fixed::floor_cells(c.radius.raw as int) as i64,
                },
            ),
            Area::Rect(r) => Area::Rect(
                Rect {
                    min: Point {
                        x: crate::math::fixed::floor_cells(r.min.x.raw as int) as i64,
                        y: crate::math::fixed::floor_cells(r.min.y.raw as int) as i64,
                    },
                    max: Point {
                        x: crate::math::fixed::floor_cells(r.max.x.raw as int) as i64,
                        y: crate::math::fixed::floor_cells(r.max.y.raw as int) as i64,
                    },
                },
            ),
        }
    }

    /// The area in whole cells: positions and radii rounded down.
    pub fn to_i64(&self) -> (r: Area<i64>)
        requires
            self.wf(),
        ensures
            r == self.spec_to_i64(),
            r.wf(),
    {
        match self {
            Area::Circle(c) => Area::Circle(c.to_i64()),
            Area::Rect(rect) => {
                let r = rect.to_i64();
                proof {
                    crate::math::fixed::lemma_floor_bounds(rect.min.x.raw as int);
                    crate::math::fixed::lemma_floor_bounds(rect.min.y.raw as int);
                    crate::math::fixed::lemma_floor_bounds(rect.max.x.raw as int);
                    crate::math::fixed::lemma_floor_bounds(rect.max.y.raw as int);
                }
                Area::Rect(r)
            },
        }
    }
}

impl Area<i64> {
    pub open spec fn wf(self) -> bool {
        match self {
            Area::Circle(c) => c.wf(),
            Area::Rect(r) => r.wf(),
        }
    }

    /// The cells that the area covers, in the order its shape lists them.
    pub open spec fn cells(self) -> Seq<Point<i64>> {
        match self {
            Area::Circle(c) => c.cells(),
            Area::Rect(r) => r.cells(),
        }
    }

    /// Every cell that the area covers.
    pub fn iter(&self) -> (r: Vec<Point<i64>>)
        requires
            self.wf(),
        ensures
            r@ == self.cells(),
            forall|i: int| 0 <= i < r@.len() ==> (#[trigger] r@[i]).wf(),
    {
        match self {
            Area::Circle(c) => c.iter(),
            Area::Rect(rect) => rect.iter(),
        }
    }
}

} // verus!
