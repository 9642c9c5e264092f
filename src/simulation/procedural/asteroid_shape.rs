use crate::math::eclipse::Eclipse;
use crate::math::fixed::Fixed;
use crate::math::point::Point;
use crate::simulation::state::settings::MAX_SCALE_LIMIT;
use vstd::prelude::*;

verus! {

/// A radius between 0.7 and 1.0 times `scale`, set by the byte `b`:
/// `scale * (0.7 + b * 0.3 / 255)`, rounded down.
pub open spec fn shape_radius(scale: int, b: int) -> int {
    scale * (1785 + 3 * b) / 2550
}

/// The ellipse for shape seed `seed` and scale `scale` around `center`.
pub open spec fn shape_of(seed: u64, center: Point<Fixed>, scale: u64) -> Eclipse<Fixed> {
    Eclipse {
        center,
        rx: Fixed { raw: shape_radius(scale as int, (seed / 0x100_0000_0000_0000) as int) as i64 },
        ry: Fixed { raw: shape_radius(scale as int, (seed / 0x1_0000_0000_0000 % 256) as int) as i64 },
    }
}

/// The ellipse drawn for an asteroid of the given shape seed and scale
/// (thousandths of a cell): the top byte of the seed sets the horizontal
/// radius, the next byte the vertical one.
pub fn asteroid_shape_eclipse(seed: u64, center: Point<Fixed>, scale: u64) -> (e: Eclipse<Fixed>)
    requires
        scale <= MAX_SCALE_LIMIT,
    ensures
        e == shape_of(seed, center, scale),
        e.center == center,
        e.rx.raw == shape_radius(scale as int, (seed / 0x100_0000_0000_0000) as int),
        e.ry.raw == shape_radius(scale as int, (seed / 0x1_0000_0000_0000 % 256) as int),
        0 <= e.rx.raw <= scale,
        0 <= e.ry.raw <= scale,
{
    let bx = seed / 0x100_0000_0000_0000;
    let by = seed / 0x1_0000_0000_0000 % 256;
    proof {
        assert(scale * (1785 + 3 * bx) <= scale * 2550) by (nonlinear_arith)
            requires bx < 256, 0 <= scale;
        assert(scale * (1785 + 3 * by) <= scale * 2550) by (nonlinear_arith)
            requires by < 256, 0 <= scale;
        assert(0 <= scale * (1785 + 3 * bx)) by (nonlinear_arith) requires 0 <= bx, 0 <= scale;
        assert(0 <= scale * (1785 + 3 * by)) by (nonlinear_arith) requires 0 <= by, 0 <= scale;
        vstd::arithmetic::div_mod::lemma_div_is_ordered(scale * (1785 + 3 * bx), scale * 2550, 2550);
        vstd::arithmetic::div_mod::lemma_div_is_ordered(scale * (1785 + 3 * by), scale * 2550, 2550);
        vstd::arithmetic::div_mod::lemma_div_by_multiple(scale as int, 2550);
    }
    let rx = scale * (1785 + 3 * bx) / 2550;
    let ry = scale * (1785 + 3 * by) / 2550;
    Eclipse::new(center, Fixed::from_raw(rx as i64), Fixed::from_raw(ry as i64))
}

} // verus!
