use crate::math::fixed::{floor_cells, in_limit, trunc_u32, Fixed, FIXED_SCALE};
use crate::math::grid::{grid, grid_cells_where, in_box};
use crate::math::point::Point;
use crate::math::size::Size;
use vstd::prelude::*;

verus! {

/// Half of `v`, truncated toward zero.
pub open spec fn half_toward_zero(v: int) -> int {
    if v >= 0 {
        v / 2
    } else {
        -((-v) / 2)
    }
}

fn halve(v: i64) -> (r: i64)
    requires
        v > i64::MIN,
    ensures
        r == half_toward_zero(v as int),
{
    if v >= 0 {
        v / 2
    } else {
        -((-v) / 2)
    }
}

/// An axis-aligned rectangle from `min` to `max`.
#[derive(Clone, Copy, Debug, Default, PartialEq, Eq, Structural)]
pub struct Rect<N> {
    pub min: Point<N>,
    pub max: Point<N>,
}

impl<N> Rect<N> {
    pub fn new(min: Point<N>, max: Point<N>) -> (r: Rect<N>)
        ensures
            r.min == min,
            r.max == max,
    {
        Rect { min, max }
    }
}

impl Rect<i64> {
    pub open spec fn wf(self) -> bool {
        self.min.wf() && self.max.wf()
    }

    /// The cells `min <= p <= max` (both corners included), column by column.
    pub open spec fn cells(self) -> Seq<Point<i64>> {
        grid(self.min.x as int, self.max.x + 1, self.min.y as int, self.max.y as int)
    }

    pub fn width(&self) -> (r: i64)
        requires
            self.wf(),
        ensures
            r == self.max.x - self.min.x,
    {
        self.max.x - self.min.x
    }

    pub fn height(&self) -> (r: i64)
        requires
            self.wf(),
        ensures
            r == self.max.y - self.min.y,
    {
        self.max.y - self.min.y
    }

    pub fn size(&self) -> (r: Size<i64>)
        requires
            self.wf(),
        ensures
            r.width == self.max.x - self.min.x,
            r.height == self.max.y - self.min.y,
    {
        Size::new(self.width(), self.height())
    }

    /// The midpoint of the corners, halves truncated toward zero.
    pub fn center(&self) -> (r: Point<i64>)
        requires
            self.wf(),
        ensures
            r.x == half_toward_zero(self.min.x + self.max.x),
            r.y == half_toward_zero(self.min.y + self.max.y),
    {
        Point::new(halve(self.min.x + self.max.x), halve(self.min.y + self.max.y))
    }

    /// Every cell of the rectangle, both corners included, in increasing `x`
    /// and, within a column, increasing `y`.
    pub fn iter(&self) -> (r: Vec<Point<i64>>)
        requires
            self.wf(),
        ensures
            r@ == self.cells(),
            forall|i: int| 0 <= i < r@.len() ==> (#[trigger] r@[i]).wf(),
    {
        let keep = |p: Point<i64>| -> (b: bool)
            ensures
                b,
            { true };
        let r = grid_cells_where(
            self.min.x,
            self.max.x,
            self.min.y,
            self.max.y,
            keep,
            Ghost(|p: Point<i64>| true),
        );
        proof {
            let all = |p: Point<i64>| true;
            let g = self.cells();
            assert(g.filter(all) =~= g) by {
                broadcast use vstd::seq_lib::group_filter_ensures;
                g.lemma_filter_eq_filter_alt(all);
                lemma_filter_all(g, all);
            }
        }
        r
    }
}

/// Filtering by a predicate that holds everywhere keeps the sequence.
proof fn lemma_filter_all(s: Seq<Point<i64>>, pred: spec_fn(Point<i64>) -> bool)
    requires
        forall|p: Point<i64>| #[trigger] pred(p),
    ensures
        s.filter(pred) == s,
    decreases s.len(),
{
    reveal(Seq::filter);
    if s.len() > 0 {
        lemma_filter_all(s.drop_last(), pred);
        assert(s.drop_last().push(s.last()) =~= s);
    }
}

impl Rect<Fixed> {
    pub open spec fn wf(self) -> bool {
        self.min.wf() && self.max.wf()
    }

    pub fn width(&self) -> (r: Fixed)
        requires
            self.wf(),
        ensures
            r.raw == self.max.x.raw - self.min.x.raw,
    {
        Fixed::from_raw(self.max.x.raw - self.min.x.raw)
    }

    pub fn height(&self) -> (r: Fixed)
        requires
            self.wf(),
        ensures
            r.raw == self.max.y.raw - self.min.y.raw,
    {
        Fixed::from_raw(self.max.y.raw - self.min.y.raw)
    }

    pub fn size(&self) -> (r: Size<Fixed>)
        requires
            self.wf(),
        ensures
            r.width.raw == self.max.x.raw - self.min.x.raw,
            r.height.raw == self.max.y.raw - self.min.y.raw,
    {
        Size::new(self.width(), self.height())
    }

    /// The midpoint of the corners, to the nearest step toward zero.
    pub fn center(&self) -> (r: Point<Fixed>)
        requires
            self.wf(),
        ensures
            r.x.raw == half_toward_zero(self.min.x.raw + self.max.x.raw),
            r.y.raw == half_toward_zero(self.min.y.raw + self.max.y.raw),
    {
        Point::new(
            Fixed::from_raw(halve(self.min.x.raw + self.max.x.raw)),
            Fixed::from_raw(halve(self.min.y.raw + self.max.y.raw)),
        )
    }

    /// The rectangle of the given size around `center` (half of each
    /// dimension, truncated toward zero, on either side).
    pub fn from_center_size(center: Point<Fixed>, size: Size<Fixed>) -> (r: Rect<Fixed>)
        requires
            center.wf(),
            size.width.wf(),
            size.height.wf(),
        ensures
            r.min.x.raw == center.x.raw - half_toward_zero(size.width.raw as int),
            r.min.y.raw == center.y.raw - half_toward_zero(size.height.raw as int),
            r.max.x.raw == center.x.raw + half_toward_zero(size.width.raw as int),
            r.max.y.raw == center.y.raw + half_toward_zero(size.height.raw as int),
    {
        let hw = halve(size.width.raw);
        let hh = halve(size.height.raw);
        Rect {
            min: Point::new(Fixed::from_raw(center.x.raw - hw), Fixed::from_raw(center.y.raw - hh)),
            max: Point::new(Fixed::from_raw(center.x.raw + hw), Fixed::from_raw(center.y.raw + hh)),
        }
    }

    /// The square with side `size` around `center`.
    pub fn new_square(center: Point<Fixed>, size: Fixed) -> (r: Rect<Fixed>)
        requires
            center.wf(),
            size.wf(),
        ensures
            r.min.x.raw == center.x.raw - half_toward_zero(size.raw as int),
            r.min.y.raw == center.y.raw - half_toward_zero(size.raw as int),
            r.max.x.raw == center.x.raw + half_toward_zero(size.raw as int),
            r.max.y.raw == center.y.raw + half_toward_zero(size.raw as int),
    {
        Self::from_center_size(center, Size::new(size, size))
    }

    /// `p` lies in the rectangle: `min` included, `max` excluded.
    pub open spec fn spec_contains(self, p: Point<Fixed>) -> bool {
        self.min.x.raw <= p.x.raw < self.max.x.raw && self.min.y.raw <= p.y.raw < self.max.y.raw
    }

    pub fn contains(&self, p: Point<Fixed>) -> (r: bool)
        ensures
            r == self.spec_contains(p),
    {
        p.x.raw >= self.min.x.raw && p.x.raw < self.max.x.raw && p.y.raw >= self.min.y.raw
            && p.y.raw < self.max.y.raw
    }

    /// The overlap of two rectangles, or `None` where it has no area.
    pub open spec fn spec_intersect(self, other: Rect<Fixed>) -> Option<Rect<Fixed>> {
        let min_x = if self.min.x.raw >= other.min.x.raw { self.min.x } else { other.min.x };
        let min_y = if self.min.y.raw >= other.min.y.raw { self.min.y } else { other.min.y };
        let max_x = if self.max.x.raw <= other.max.x.raw { self.max.x } else { other.max.x };
        let max_y = if self.max.y.raw <= other.max.y.raw { self.max.y } else { other.max.y };
        if min_x.raw < max_x.raw && min_y.raw < max_y.raw {
            Some(Rect { min: Point { x: min_x, y: min_y }, max: Point { x: max_x, y: max_y } })
        } else {
            None
        }
    }

    /// The cells that hold the two corners.
    pub open spec fn spec_to_i64(self) -> Rect<i64> {
        Rect {
            min: Point {
                x: floor_cells(self.min.x.raw as int) as i64,
                y: floor_cells(self.min.y.raw as int) as i64,
            },
            max: Point {
                x: floor_cells(self.max.x.raw as int) as i64,
                y: floor_cells(self.max.y.raw as int) as i64,
            },
        }
    }

    /// The overlap of two rectangles, or `None` where it has no area.
    pub fn intersect(&self, other: &Rect<Fixed>) -> (r: Option<Rect<Fixed>>)
        ensures
            r == self.spec_intersect(*other),
            ({
                let min_x = if self.min.x.raw >= other.min.x.raw { self.min.x } else { other.min.x };
                let min_y = if self.min.y.raw >= other.min.y.raw { self.min.y } else { other.min.y };
                let max_x = if self.max.x.raw <= other.max.x.raw { self.max.x } else { other.max.x };
                let max_y = if self.max.y.raw <= other.max.y.raw { self.max.y } else { other.max.y };
                if min_x.raw < max_x.raw && min_y.raw < max_y.raw {
                    r == Some(Rect { min: Point { x: min_x, y: min_y }, max: Point { x: max_x, y: max_y } })
                } else {
                    r.is_none()
                }
            }),
    {
        let min_x = if self.min.x.raw >= other.min.x.raw { self.min.x } else { other.min.x };
        let min_y = if self.min.y.raw >= other.min.y.raw { self.min.y } else { other.min.y };
        let max_x = if self.max.x.raw <= other.max.x.raw { self.max.x } else { other.max.x };
        let max_y = if self.max.y.raw <= other.max.y.raw { self.max.y } else { other.max.y };
        if min_x.raw < max_x.raw && min_y.raw < max_y.raw {
            Some(Rect { min: Point::new(min_x, min_y), max: Point::new(max_x, max_y) })
        } else {
            None
        }
    }

    /// Both corners rounded down to whole cells.
    pub fn floor(&self) -> (r: Rect<Fixed>)
        requires
            self.wf(),
        ensures
            r.min.x.raw == floor_cells(self.min.x.raw as int) * FIXED_SCALE,
            r.min.y.raw == floor_cells(self.min.y.raw as int) * FIXED_SCALE,
            r.max.x.raw == floor_cells(self.max.x.raw as int) * FIXED_SCALE,
            r.max.y.raw == floor_cells(self.max.y.raw as int) * FIXED_SCALE,
            r.wf(),
    {
        Rect { min: self.min.floor(), max: self.max.floor() }
    }

    /// Both corners truncated toward zero and saturated into `u32`.
    pub fn to_u32(&self) -> (r: Rect<u32>)
        ensures
            r.min.x == trunc_u32(self.min.x.raw as int),
            r.min.y == trunc_u32(self.min.y.raw as int),
            r.max.x == trunc_u32(self.max.x.raw as int),
            r.max.y == trunc_u32(self.max.y.raw as int),
    {
        Rect { min: self.min.to_u32(), max: self.max.to_u32() }
    }

    /// The cells that hold the two corners.
    pub fn to_i64(&self) -> (r: Rect<i64>)
        ensures
            r.min.x == floor_cells(self.min.x.raw as int),
            r.min.y == floor_cells(self.min.y.raw as int),
            r.max.x == floor_cells(self.max.x.raw as int),
            r.max.y == floor_cells(self.max.y.raw as int),
            r == self.spec_to_i64(),
    {
        Rect { min: self.min.to_i64(), max: self.max.to_i64() }
    }
}

} // verus!
