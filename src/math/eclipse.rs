use crate::math::circle::RADIUS_LIMIT;
use crate::math::fixed::{floor_cells, in_limit, Fixed, FIXED_SCALE};
use crate::math::grid::{grid, grid_cells_where, in_box};
use crate::math::point::Point;
use vstd::prelude::*;

verus! {

/// An axis-aligned ellipse with a center and two radii.
#[derive(Clone, Copy, Debug, Default, PartialEq, Eq, Structural)]
pub struct Eclipse<N> {
    pub center: Point<N>,
    pub rx: N,
    pub ry: N,
}

impl<N> Eclipse<N> {
    pub fn new(center: Point<N>, rx: N, ry: N) -> (r: Eclipse<N>)
        ensures
            r.center == center,
            r.rx == rx,
            r.ry == ry,
    {
        Eclipse { center, rx, ry }
    }
}

/// Largest radius, in fixed-point steps, of an ellipse sampled at cell centres.
pub const SAMPLE_RADIUS_LIMIT: i64 = 2147483648;

/// `|v|`.
pub open spec fn abs(v: int) -> int {
    if v >= 0 {
        v
    } else {
        -v
    }
}

impl Eclipse<Fixed> {
    /// Center within the limits and both radii at most `SAMPLE_RADIUS_LIMIT` steps.
    pub open spec fn samplable(self) -> bool {
        &&& self.center.wf()
        &&& -SAMPLE_RADIUS_LIMIT <= self.rx.raw <= SAMPLE_RADIUS_LIMIT
        &&& -SAMPLE_RADIUS_LIMIT <= self.ry.raw <= SAMPLE_RADIUS_LIMIT
    }

    /// The centre of cell `p` lies inside the ellipse, measured in
    /// fixed-point steps: `dx²/rx² + dy²/ry² <= 1` with `dx = 1000·x + 500 - cx`
    /// and `dy = 1000·y + 500 - cy`, both radii non-zero.
    pub open spec fn covers_cell_centre(self, p: Point<i64>) -> bool {
        let dx = p.x * FIXED_SCALE + FIXED_SCALE / 2 - self.center.x.raw;
        let dy = p.y * FIXED_SCALE + FIXED_SCALE / 2 - self.center.y.raw;
        let rx2 = self.rx.raw * self.rx.raw;
        let ry2 = self.ry.raw * self.ry.raw;
        self.rx.raw != 0 && self.ry.raw != 0 && dx * dx * ry2 + dy * dy * rx2 <= rx2 * ry2
    }

    /// First column of cells whose centre can lie inside.
    pub open spec fn sample_x0(self) -> int {
        floor_cells(self.center.x.raw - abs(self.rx.raw as int) - FIXED_SCALE / 2)
    }

    /// Last column of cells whose centre can lie inside.
    pub open spec fn sample_x1(self) -> int {
        floor_cells(self.center.x.raw + abs(self.rx.raw as int) - FIXED_SCALE / 2)
    }

    pub open spec fn sample_y0(self) -> int {
        floor_cells(self.center.y.raw - abs(self.ry.raw as int) - FIXED_SCALE / 2)
    }

    pub open spec fn sample_y1(self) -> int {
        floor_cells(self.center.y.raw + abs(self.ry.raw as int) - FIXED_SCALE / 2)
    }

    /// The cells whose centre lies inside the ellipse, column by column over
    /// the ellipse's bounding box.
    pub open spec fn sampled_cells(self) -> Seq<Point<i64>> {
        grid(self.sample_x0(), self.sample_x1() + 1, self.sample_y0(), self.sample_y1()).filter(
            |p: Point<i64>| self.covers_cell_centre(p),
        )
    }

    /// A cell is sampled exactly when its centre lies inside the ellipse.
    pub proof fn lemma_sampled_cells_exact(self, p: Point<i64>)
        requires
            self.samplable(),
        ensures
            self.sampled_cells().contains(p) <==> self.covers_cell_centre(p),
    {
        let pred = |q: Point<i64>| self.covers_cell_centre(q);
        let g = grid(self.sample_x0(), self.sample_x1() + 1, self.sample_y0(), self.sample_y1());
        if g.filter(pred).contains(p) {
            g.lemma_filter_contains_rev(pred, p);
            let j = choose|j: int| 0 <= j < g.filter(pred).len() && g.filter(pred)[j] == p;
            g.lemma_filter_pred(pred, j);
        }
        if self.covers_cell_centre(p) {
            let dx = p.x * FIXED_SCALE + FIXED_SCALE / 2 - self.center.x.raw;
            let dy = p.y * FIXED_SCALE + FIXED_SCALE / 2 - self.center.y.raw;
            let rx = self.rx.raw as int;
            let ry = self.ry.raw as int;
            assert(abs(dx) <= abs(rx)) by (nonlinear_arith)
                requires
                    rx != 0,
                    ry != 0,
                    dx * dx * (ry * ry) + dy * dy * (rx * rx) <= (rx * rx) * (ry * ry),
                    abs(dx) == (if dx >= 0 { dx } else { -dx }),
                    abs(rx) == (if rx >= 0 { rx } else { -rx });
            assert(abs(dy) <= abs(ry)) by (nonlinear_arith)
                requires
                    rx != 0,
                    ry != 0,
                    dx * dx * (ry * ry) + dy * dy * (rx * rx) <= (rx * rx) * (ry * ry),
                    abs(dy) == (if dy >= 0 { dy } else { -dy }),
                    abs(ry) == (if ry >= 0 { ry } else { -ry });
            crate::math::fixed::lemma_floor_bounds(self.center.x.raw - abs(rx) - FIXED_SCALE / 2);
            crate::math::fixed::lemma_floor_bounds(self.center.x.raw + abs(rx) - FIXED_SCALE / 2);
            crate::math::fixed::lemma_floor_bounds(self.center.y.raw - abs(ry) - FIXED_SCALE / 2);
            crate::math::fixed::lemma_floor_bounds(self.center.y.raw + abs(ry) - FIXED_SCALE / 2);
            crate::math::grid::lemma_grid_contains(
                self.sample_x0(),
                self.sample_x1() + 1,
                self.sample_y0(),
                self.sample_y1(),
                p,
            );
            let i = choose|i: int| 0 <= i < g.len() && g[i] == p;
            g.lemma_filter_contains(pred, i);
        }
    }

    /// Every cell whose centre lies inside the ellipse, in increasing `x`
    /// and, within a column, increasing `y`.
    pub fn sample_cells(&self) -> (r: Vec<Point<i64>>)
        requires
            self.samplable(),
        ensures
            r@ == self.sampled_cells(),
            forall|i: int| 0 <= i < r@.len() ==> (#[trigger] r@[i]).wf(),
    {
        let e = *self;
        let half = FIXED_SCALE / 2;
        let arx = if e.rx.raw >= 0 { e.rx.raw } else { -e.rx.raw };
        let ary = if e.ry.raw >= 0 { e.ry.raw } else { -e.ry.raw };
        let x0 = Fixed::from_raw(e.center.x.raw - arx - half).floor_int();
        let x1 = Fixed::from_raw(e.center.x.raw + arx - half).floor_int();
        let y0 = Fixed::from_raw(e.center.y.raw - ary - half).floor_int();
        let y1 = Fixed::from_raw(e.center.y.raw + ary - half).floor_int();
        proof {
            crate::math::fixed::lemma_floor_bounds(e.center.x.raw - arx - half);
            crate::math::fixed::lemma_floor_bounds(e.center.x.raw + arx - half);
            crate::math::fixed::lemma_floor_bounds(e.center.y.raw - ary - half);
            crate::math::fixed::lemma_floor_bounds(e.center.y.raw + ary - half);
        }
        let keep = |p: Point<i64>| -> (b: bool)
            requires
                in_box(p, x0, x1, y0, y1),
                e.samplable(),
                x0 == e.sample_x0(),
                x1 == e.sample_x1(),
                y0 == e.sample_y0(),
                y1 == e.sample_y1(),
            ensures
                b == e.covers_cell_centre(p),
            {
                if e.rx.raw == 0 || e.ry.raw == 0 {
                    false
                } else {
                    let ghost l = SAMPLE_RADIUS_LIMIT as int;
                    let ghost m = l + FIXED_SCALE;
                    proof {
                        crate::math::fixed::lemma_floor_bounds(e.center.x.raw - abs(e.rx.raw as int) - FIXED_SCALE / 2);
                        crate::math::fixed::lemma_floor_bounds(e.center.x.raw + abs(e.rx.raw as int) - FIXED_SCALE / 2);
                        crate::math::fixed::lemma_floor_bounds(e.center.y.raw - abs(e.ry.raw as int) - FIXED_SCALE / 2);
                        crate::math::fixed::lemma_floor_bounds(e.center.y.raw + abs(e.ry.raw as int) - FIXED_SCALE / 2);
                    }
                    let dx = p.x as i128 * FIXED_SCALE as i128 + (FIXED_SCALE / 2) as i128 - e.center.x.raw as i128;
                    let dy = p.y as i128 * FIXED_SCALE as i128 + (FIXED_SCALE / 2) as i128 - e.center.y.raw as i128;
                    proof {
                        assert(-m <= dx <= m);
                        assert(-m <= dy <= m);
                        assert(0 <= e.rx.raw * e.rx.raw <= l * l) by (nonlinear_arith)
                            requires -l <= e.rx.raw <= l;
                        assert(0 <= e.ry.raw * e.ry.raw <= l * l) by (nonlinear_arith)
                            requires -l <= e.ry.raw <= l;
                        assert(0 <= dx * dx <= m * m) by (nonlinear_arith) requires -m <= dx <= m;
                        assert(0 <= dy * dy <= m * m) by (nonlinear_arith) requires -m <= dy <= m;
                    }
                    let rx2 = (e.rx.raw as i128) * (e.rx.raw as i128);
                    let ry2 = (e.ry.raw as i128) * (e.ry.raw as i128);
                    let dx2 = dx * dx;
                    let dy2 = dy * dy;
                    proof {
                        assert(0 <= dx2 * ry2 <= m * m * (l * l)) by (nonlinear_arith)
                            requires 0 <= dx2 <= m * m, 0 <= ry2 <= l * l;
                        assert(0 <= dy2 * rx2 <= m * m * (l * l)) by (nonlinear_arith)
                            requires 0 <= dy2 <= m * m, 0 <= rx2 <= l * l;
                        assert(0 <= rx2 * ry2 <= l * l * (l * l)) by (nonlinear_arith)
                            requires 0 <= rx2 <= l * l, 0 <= ry2 <= l * l;
                    }
                    dx2 * ry2 + dy2 * rx2 <= rx2 * ry2
                }
            };
        grid_cells_where(x0, x1, y0, y1, keep, Ghost(|p: Point<i64>| e.covers_cell_centre(p)))
    }

    pub open spec fn wf(self) -> bool {
        &&& self.center.wf()
        &&& -RADIUS_LIMIT * FIXED_SCALE <= self.rx.raw <= RADIUS_LIMIT * FIXED_SCALE
        &&& -RADIUS_LIMIT * FIXED_SCALE <= self.ry.raw <= RADIUS_LIMIT * FIXED_SCALE
    }

    /// The same ellipse in whole cells.
    pub open spec fn spec_to_i64(self) -> Eclipse<i64> {
        Eclipse {
            center: Point {
                x: floor_cells(self.center.x.raw as int) as i64,
                y: floor_cells(self.center.y.raw as int) as i64,
            },
            rx: floor_cells(self.rx.raw as int) as i64,
            ry: floor_cells(self.ry.raw as int) as i64,
        }
    }

    /// The ellipse around the cell holding the center, with both radii
    /// rounded down to whole cells.
    pub fn to_i64(&self) -> (r: Eclipse<i64>)
        requires
            self.wf(),
        ensures
            r.center.x == floor_cells(self.center.x.raw as int),
            r.center.y == floor_cells(self.center.y.raw as int),
            r.rx == floor_cells(self.rx.raw as int),
            r.ry == floor_cells(self.ry.raw as int),
            r == self.spec_to_i64(),
            r.wf(),
    {
        let r = Eclipse::new(self.center.to_i64(), self.rx.floor_int(), self.ry.floor_int());
        proof {
            crate::math::fixed::lemma_floor_bounds(self.center.x.raw as int);
            crate::math::fixed::lemma_floor_bounds(self.center.y.raw as int);
            crate::math::fixed::lemma_floor_bounds(self.rx.raw as int);
            crate::math::fixed::lemma_floor_bounds(self.ry.raw as int);
        }
        r
    }
}

impl Eclipse<i64> {
    pub open spec fn wf(self) -> bool {
        &&& -RADIUS_LIMIT <= self.rx <= RADIUS_LIMIT
        &&& -RADIUS_LIMIT <= self.ry <= RADIUS_LIMIT
        &&& in_limit(self.center.x - self.rx) && in_limit(self.center.x + self.rx)
        &&& in_limit(self.center.y - self.ry) && in_limit(self.center.y + self.ry)
    }

    /// `p` lies inside the ellipse: `dx²/rx² + dy²/ry² <= 1`, with both
    /// radii non-zero.
    pub open spec fn covers(self, p: Point<i64>) -> bool {
        let dx = p.x - self.center.x;
        let dy = p.y - self.center.y;
        let rx2 = self.rx * self.rx;
        let ry2 = self.ry * self.ry;
        self.rx != 0 && self.ry != 0 && dx * dx * ry2 + dy * dy * rx2 <= rx2 * ry2
    }

    /// The cells of the bounding box that the ellipse covers, column by column.
    pub open spec fn cells(self) -> Seq<Point<i64>> {
        grid(
            self.center.x - self.rx,
            self.center.x + self.rx + 1,
            self.center.y - self.ry,
            self.center.y + self.ry,
        ).filter(|p: Point<i64>| self.covers(p))
    }

    /// Every cell inside the ellipse, in increasing `x` and, within a
    /// column, increasing `y`.
    pub fn iter(&self) -> (r: Vec<Point<i64>>)
        requires
            self.wf(),
        ensures
            r@ == self.cells(),
            forall|i: int| 0 <= i < r@.len() ==> (#[trigger] r@[i]).wf(),
    {
        let e = *self;
        let x0 = e.center.x - e.rx;
        let x1 = e.center.x + e.rx;
        let y0 = e.center.y - e.ry;
        let y1 = e.center.y + e.ry;
        let keep = |p: Point<i64>| -> (b: bool)
            requires
                in_box(p, x0, x1, y0, y1),
                e.wf(),
                x0 == e.center.x - e.rx,
                x1 == e.center.x + e.rx,
                y0 == e.center.y - e.ry,
                y1 == e.center.y + e.ry,
            ensures
                b == e.covers(p),
            {
                if e.rx == 0 || e.ry == 0 {
                    false
                } else {
                    proof {
                        let l = RADIUS_LIMIT as int;
                        assert(0 <= e.rx * e.rx <= l * l) by (nonlinear_arith)
                            requires -l <= e.rx <= l;
                        assert(0 <= e.ry * e.ry <= l * l) by (nonlinear_arith)
                            requires -l <= e.ry <= l;
                    }
                    let dx = (p.x - e.center.x) as i128;
                    let dy = (p.y - e.center.y) as i128;
                    let rx2 = (e.rx as i128) * (e.rx as i128);
                    let ry2 = (e.ry as i128) * (e.ry as i128);
                    proof {
                        let l = RADIUS_LIMIT as int;
                        assert(0 <= dx * dx <= rx2 <= l * l) by (nonlinear_arith)
                            requires
                                -l <= e.rx <= l,
                                -e.rx <= dx <= e.rx || e.rx <= dx <= -e.rx,
                                rx2 == e.rx * e.rx;
                        assert(0 <= dy * dy <= ry2 <= l * l) by (nonlinear_arith)
                            requires
                                -l <= e.ry <= l,
                                -e.ry <= dy <= e.ry || e.ry <= dy <= -e.ry,
                                ry2 == e.ry * e.ry;
                        assert(dx * dx * ry2 <= l * l * (l * l)) by (nonlinear_arith)
                            requires 0 <= dx * dx <= l * l, 0 <= ry2 <= l * l;
                        assert(dy * dy * rx2 <= l * l * (l * l)) by (nonlinear_arith)
                            requires 0 <= dy * dy <= l * l, 0 <= rx2 <= l * l;
                        assert(rx2 * ry2 <= l * l * (l * l)) by (nonlinear_arith)
                            requires 0 <= rx2 <= l * l, 0 <= ry2 <= l * l;
                        assert(0 <= dx * dx * ry2) by (nonlinear_arith)
                            requires 0 <= dx * dx, 0 <= ry2;
                        assert(0 <= dy * dy * rx2) by (nonlinear_arith)
                            requires 0 <= dy * dy, 0 <= rx2;
                    }
                    dx * dx * ry2 + dy * dy * rx2 <= rx2 * ry2
                }
            };
        grid_cells_where(x0, x1, y0, y1, keep, Ghost(|p: Point<i64>| e.covers(p)))
    }
}

} // verus!
