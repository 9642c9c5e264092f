use vstd::prelude::*;

verus! {

/// Nanoseconds in one second.
pub const NANOS_PER_SEC: u64 = 1000000000;

/// Denominator of the asteroid density: densities are given in parts per billion.
pub const DENSITY_SCALE: u64 = 1000000000;

/// Largest rendered asteroid scale, in thousandths of a cell.
pub const MAX_SCALE_LIMIT: u64 = 1000000000;

/// Fixed parameters of one simulation run.
#[derive(Clone, Copy, Debug, PartialEq, Eq, Structural)]
pub struct SimulationSettings {
    /// Ticks per second.
    pub tps: u16,
    /// Rendered frames per second.
    pub fps: u16,
    /// Delay between a change of the visible rectangle and the recompute of
    /// the visible asteroids, in nanoseconds.
    pub visible_update_cooldown: u64,
    /// Resource amount of the richest asteroid, in micro-units.
    pub max_asteroid_resource_amount: u64,
    /// Scale of the richest asteroid, in thousandths of a cell.
    pub max_asteroid_scale: u64,
    /// Probability that a cell holds an asteroid, in parts per billion.
    pub asteroid_density: u64,
}

impl SimulationSettings {
    pub open spec fn wf(&self) -> bool {
        &&& self.tps > 0
        &&& self.fps > 0
        &&& self.max_asteroid_resource_amount > 0
        &&& self.max_asteroid_scale <= MAX_SCALE_LIMIT
        &&& self.asteroid_density <= DENSITY_SCALE
    }

    /// Nanoseconds between two ticks.
    pub open spec fn spec_interval_tps(&self) -> int {
        NANOS_PER_SEC as int / (self.tps as int)
    }

    /// Nanoseconds between two rendered frames.
    pub open spec fn spec_interval_fps(&self) -> int {
        NANOS_PER_SEC as int / (self.fps as int)
    }

    pub fn interval_tps(&self) -> (r: u64)
        requires
            self.wf(),
        ensures
            r == self.spec_interval_tps(),
            r > 0,
    {
        proof {
            vstd::arithmetic::div_mod::lemma_div_non_zero(NANOS_PER_SEC as int, self.tps as int);
        }
        NANOS_PER_SEC / self.tps as u64
    }

    pub fn interval_fps(&self) -> (r: u64)
        requires
            self.wf(),
        ensures
            r == self.spec_interval_fps(),
            r > 0,
    {
        proof {
            vstd::arithmetic::div_mod::lemma_div_non_zero(NANOS_PER_SEC as int, self.fps as int);
        }
        NANOS_PER_SEC / self.fps as u64
    }
}

impl Default for SimulationSettings {
    /// 60 ticks and 60 frames a second, a 100 ms cooldown, 1000 units and a
    /// scale of 10 cells for the richest asteroid, and a density of 0.00025.
    fn default() -> (r: SimulationSettings)
        ensures
            r.wf(),
            r.tps == 60,
            r.fps == 60,
            r.visible_update_cooldown == 100000000,
            r.max_asteroid_resource_amount == 1000000000,
            r.max_asteroid_scale == 10000,
            r.asteroid_density == 250000,
    {
        SimulationSettings {
            tps: 60,
            fps: 60,
            visible_update_cooldown: 100000000,
            max_asteroid_resource_amount: 1000000000,
            max_asteroid_scale: 10000,
            asteroid_density: 250000,
        }
    }
}

} // verus!
