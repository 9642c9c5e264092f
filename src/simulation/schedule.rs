use vstd::prelude::*;

verus! {

/// What one pass of the engine loop does, decided from the clock.
#[derive(Clone, Copy, Debug, PartialEq, Eq, Structural)]
pub struct LoopPlan {
    /// Ticks to run now, catching up on every interval that has elapsed.
    pub ticks_due: u64,
    /// Time of the last tick once those have run.
    pub last_tick: u64,
    /// A frame is due.
    pub render: bool,
    /// Time of the last render once this pass is done.
    pub last_render: u64,
    /// When the next tick or frame falls due, whichever is first.
    pub wake_at: u64,
}

/// `min(a, b)`, saturated at `u64::MAX`.
pub open spec fn min_saturated(a: int, b: int) -> int {
    let m = if a <= b { a } else { b };
    if m > u64::MAX { u64::MAX as int } else { m }
}

/// Plans one pass of the loop at time `now` (all times in nanoseconds):
/// every tick interval that has fully elapsed since `last_tick` is run, at
/// most one frame is rendered, and the loop then sleeps until the earlier of
/// the next tick and the next frame.
pub fn plan_iteration(
    now: u64,
    last_tick: u64,
    last_render: u64,
    tick_interval: u64,
    render_interval: u64,
) -> (r: LoopPlan)
    requires
        tick_interval > 0,
        render_interval > 0,
    ensures
        r.ticks_due == (if now >= last_tick { (now - last_tick) / (tick_interval as int) } else { 0 }),
        r.last_tick == last_tick + r.ticks_due * tick_interval,
        now >= last_tick ==> r.last_tick <= now < r.last_tick + tick_interval,
        r.render == (now >= last_render && now - last_render >= render_interval),
        r.last_render == (if r.render { now } else { last_render }),
        r.wake_at == min_saturated(r.last_tick + tick_interval, r.last_render + render_interval),
{
    let ticks_due = if now >= last_tick { (now - last_tick) / tick_interval } else { 0 };
    proof {
        if now >= last_tick {
            let d = (now - last_tick) as int;
            vstd::arithmetic::div_mod::lemma_fundamental_div_mod(d, tick_interval as int);
            let q = d / (tick_interval as int);
            let m = d % (tick_interval as int);
            assert(0 <= m < tick_interval);
            assert(d == tick_interval * q + m);
            assert(ticks_due == q);
            assert(ticks_due * tick_interval <= d < ticks_due * tick_interval + tick_interval) by (nonlinear_arith)
                requires d == tick_interval * q + m, 0 <= m < tick_interval, ticks_due == q;
        } else {
            assert(ticks_due * tick_interval == 0);
        }
    }
    let new_last_tick = last_tick + ticks_due * tick_interval;
    let render = now >= last_render && now - last_render >= render_interval;
    let new_last_render = if render { now } else { last_render };
    let next_tick = new_last_tick as u128 + tick_interval as u128;
    let next_render = new_last_render as u128 + render_interval as u128;
    let next = if next_tick <= next_render { next_tick } else { next_render };
    let wake_at = if next > u64::MAX as u128 { u64::MAX } else { next as u64 };
    LoopPlan { ticks_due, last_tick: new_last_tick, render, last_render: new_last_render, wake_at }
}

} // verus!
