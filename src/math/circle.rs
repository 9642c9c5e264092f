use crate::math::fixed::{floor_cells, in_limit, Fixed, FIXED_SCALE};
use crate::math::grid::{grid, grid_cells_where, in_box};
use crate::math::point::Point;
use vstd::prelude::*;

verus! {

/// Largest radius, in cells, of a shape whose cells can be enumerated.
pub const RADIUS_LIMIT: i64 = 1073741824;

/// A circle with a center and a radius.
#[derive(Clone, Copy, Debug, Default, PartialEq, Eq, Structural)]
pub struct Circle<N> {
    pub center: Point<N>,
    pub radius: N,
}

impl<N> Circle<N> {
    pub fn new(center: Point<N>, radius: N) -> (r: Circle<N>)
        ensures
            r.center == center,
            r.radius == radius,
    {
        Circle { center, radius }
    }
}

impl Circle<Fixed> {
    pub open spec fn wf(self) -> bool {
        self.center.wf() && -RADIUS_LIMIT * FIXED_SCALE <= self.radius.raw <= RADIUS_LIMIT
            * FIXED_SCALE
    }

    /// The circle around the cell holding the center, with the radius
    /// rounded down to whole cells.
    pub fn to_i64(&self) -> (r: Circle<i64>)
        requires
            self.wf(),
        ensures
            r.center.x == floor_cells(self.center.x.raw as int),
            r.center.y == floor_cells(self.center.y.raw as int),
            r.radius == floor_cells(self.radius.raw as int),
            r.wf(),
    {
        let r = Circle::new(self.center.to_i64(), self.radius.floor_int());
        proof {
            crate::math::fixed::lemma_floor_bounds(self.center.x.raw as int);
            crate::math::fixed::lemma_floor_bounds(self.center.y.raw as int);
            crate::math::fixed::lemma_floor_bounds(self.radius.raw as int);
        }
        r
    }
}

impl Circle<i64> {
    pub open spec fn wf(self) -> bool {
        &&& -RADIUS_LIMIT <= self.radius <= RADIUS_LIMIT
        &&& in_limit(self.center.x - self.radius) && in_limit(self.center.x + self.radius)
        &&& in_limit(self.center.y - self.radius) && in_limit(self.center.y + self.radius)
    }

    /// `p` lies within `radius` of the center.
    pub open spec fn covers(self, p: Point<i64>) -> bool {
        (p.x - self.center.x) * (p.x - self.center.x) + (p.y - self.center.y) * (p.y
            - self.center.y) <= self.radius * self.radius
    }

    /// The cells of the bounding square that the circle covers, column by column.
    pub open spec fn cells(self) -> Seq<Point<i64>> {
        grid(
            self.center.x - self.radius,
            self.center.x + self.radius + 1,
            self.center.y - self.radius,
            self.center.y + self.radius,
        ).filter(|p: Point<i64>| self.covers(p))
    }

    /// Every cell within `radius` of the center, in increasing `x` and,
    /// within a column, increasing `y`.
    pub fn iter(&self) -> (r: Vec<Point<i64>>)
        requires
            self.wf(),
        ensures
            r@ == self.cells(),
            forall|i: int| 0 <= i < r@.len() ==> (#[trigger] r@[i]).wf(),
    {
        let c = *self;
        let x0 = c.center.x - c.radius;
        let x1 = c.center.x + c.radius;
        let y0 = c.center.y - c.radius;
        let y1 = c.center.y + c.radius;
        let keep = |p: Point<i64>| -> (b: bool)
            requires
                in_box(p, x0, x1, y0, y1),
                c.wf(),
                x0 == c.center.x - c.radius,
                x1 == c.center.x + c.radius,
                y0 == c.center.y - c.radius,
                y1 == c.center.y + c.radius,
            ensures
                b == c.covers(p),
            {
                let dx = p.x - c.center.x;
                let dy = p.y - c.center.y;
                proof {
                    let r = c.radius as int;
                    assert(0 <= dx * dx <= r * r) by (nonlinear_arith)
                        requires -r <= dx <= r || r <= dx <= -r;
                    assert(0 <= dy * dy <= r * r) by (nonlinear_arith)
                        requires -r <= dy <= r || r <= dy <= -r;
                    assert(r * r <= RADIUS_LIMIT * RADIUS_LIMIT) by (nonlinear_arith)
                        requires -RADIUS_LIMIT <= r <= RADIUS_LIMIT;
                }
                dx * dx + dy * dy <= c.radius * c.radius
            };
        grid_cells_where(x0, x1, y0, y1, keep, Ghost(|p: Point<i64>| c.covers(p)))
    }
}

} // verus!
