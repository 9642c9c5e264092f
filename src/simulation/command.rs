use crate::math::area::Area;
use crate::math::circle::RADIUS_LIMIT;
use crate::math::fixed::{Fixed, FIXED_SCALE, COORD_LIMIT};
use crate::math::rect::Rect;
use crate::math::size::Size;
use crate::simulation::frame::{frame_fits, frame_height, frame_width};
use vstd::prelude::*;

verus! {

/// An instruction to the engine.
#[derive(Clone, Copy, Debug, PartialEq, Eq, Structural)]
pub enum SimCommand {
    Clear,
    Pause,
    Resume,
    TogglePause,
    Shutdown,
    SetVisibleRect(Rect<Fixed>),
    SetScreenSize(Size<u32>),
    ScoutArea(Area<Fixed>),
}

fn fixed_ok(v: Fixed) -> (r: bool)
    ensures
        r == v.wf(),
{
    -COORD_LIMIT <= v.raw && v.raw <= COORD_LIMIT
}

fn rect_ok(r: Rect<Fixed>) -> (ok: bool)
    ensures
        ok == r.wf(),
{
    fixed_ok(r.min.x) && fixed_ok(r.min.y) && fixed_ok(r.max.x) && fixed_ok(r.max.y)
}

/// One more than the whole cells spanned by `raw` steps, as in `frame_width`.
fn frame_dim(raw: i64) -> (r: u64)
    ensures
        r == crate::simulation::frame::frame_span_plus_one(raw as int),
{
    let c = Fixed::from_raw(raw).ceil_int();
    if c <= 0 {
        1
    } else if c > u32::MAX as i64 {
        u32::MAX as u64 + 1
    } else {
        c as u64 + 1
    }
}

/// A frame for `rect` can be allocated: see `frame_fits`.
pub fn rect_fits_frame(rect: Rect<Fixed>) -> (r: bool)
    ensures
        r == frame_fits(rect),
{
    if !rect_ok(rect) {
        return false;
    }
    let w = frame_dim(rect.max.x.raw - rect.min.x.raw);
    let h = frame_dim(rect.max.y.raw - rect.min.y.raw);
    proof {
        assert(w == frame_width(rect));
        assert(h == frame_height(rect));
        assert(0 <= w * h * 4 <= (u32::MAX as int + 1) * (u32::MAX as int + 1) * 4) by (nonlinear_arith)
            requires 1 <= w <= u32::MAX as int + 1, 1 <= h <= u32::MAX as int + 1;
    }
    (w as u128) * (h as u128) * 4 <= u32::MAX as u128
}

impl SimCommand {
    /// The command can be carried out: a visible rectangle whose frame fits
    /// in memory, a scouting area within the geometry's limits.
    pub open spec fn wf(self) -> bool {
        match self {
            SimCommand::SetVisibleRect(r) => frame_fits(r),
            SimCommand::ScoutArea(a) => a.wf(),
            _ => true,
        }
    }

    pub fn is_valid(&self) -> (r: bool)
        ensures
            r == self.wf(),
    {
        match self {
            SimCommand::SetVisibleRect(r) => rect_fits_frame(*r),
            SimCommand::ScoutArea(Area::Rect(r)) => rect_ok(*r),
            SimCommand::ScoutArea(Area::Circle(c)) => {
                fixed_ok(c.center.x) && fixed_ok(c.center.y) && -RADIUS_LIMIT * FIXED_SCALE <= c.radius.raw
                    && c.radius.raw <= RADIUS_LIMIT * FIXED_SCALE
            },
            _ => true,
        }
    }
}

} // verus!
