use crate::simulation::state::settings::SimulationSettings;
use vstd::prelude::*;

verus! {

/// Engine metrics published with each frame.
#[derive(Clone, Copy, Debug, PartialEq, Eq, Structural)]
pub struct SimSnapshot {
    /// Number of known asteroids.
    pub discovered_asteroids: usize,
    pub settings: SimulationSettings,
    /// Moving average of the time spent rendering a frame, in nanoseconds.
    pub avg_frame: u64,
    /// Moving average of the time spent on a tick, in nanoseconds.
    pub avg_tick: u64,
}

impl SimSnapshot {
    /// Rendering time spent per second at the configured frame rate, in
    /// nanoseconds, saturated at `u64::MAX`.
    pub fn frame_time_per_second(&self) -> (r: u64)
        ensures
            r == (if self.avg_frame * self.settings.fps > u64::MAX {
                u64::MAX as int
            } else {
                self.avg_frame * self.settings.fps
            }),
    {
        proof {
            assert(0 <= self.avg_frame * self.settings.fps <= 0xffff_ffff_ffff_ffff * 0xffff) by (nonlinear_arith)
                requires 0 <= self.avg_frame <= 0xffff_ffff_ffff_ffff, 0 <= self.settings.fps <= 0xffff;
        }
        let product = self.avg_frame as u128 * self.settings.fps as u128;
        if product > u64::MAX as u128 {
            u64::MAX
        } else {
            product as u64
        }
    }
}

impl Default for SimSnapshot {
    fn default() -> (r: SimSnapshot)
        ensures
            r.discovered_asteroids == 0,
            r.settings.wf(),
            r.avg_frame == 0,
            r.avg_tick == 0,
    {
        SimSnapshot {
            discovered_asteroids: 0,
            settings: SimulationSettings::default(),
            avg_frame: 0,
            avg_tick: 0,
        }
    }
}

} // verus!
