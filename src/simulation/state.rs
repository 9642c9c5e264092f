pub mod colony;
pub mod resource;
pub mod resource_bag;
pub mod settings;

use crate::math::area::Area;
use crate::math::fixed::Fixed;
use crate::math::point::Point;
use crate::simulation::procedural::hash::{cell_hash, uniform_of, ProcHash, ProcHashDomain, UNIT_53};
use crate::simulation::state::colony::Colony;
use crate::simulation::state::resource::ResourceType;
use crate::simulation::state::settings::{SimulationSettings, DENSITY_SCALE};
use rayon::iter::{IntoParallelRefIterator, ParallelIterator};
use std::collections::{HashMap, HashSet};
use vstd::prelude::*;

verus! {

broadcast use vstd::std_specs::hash::group_hash_axioms;

/// The key under which a cell is stored: `x * 2^64 + (y + 2^63)`, one key per cell.
pub open spec fn cell_key(p: Point<i64>) -> i128 {
    (p.x as int * 0x1_0000_0000_0000_0000 + (p.y as int + 0x8000_0000_0000_0000)) as i128
}

fn key_of(p: Point<i64>) -> (k: i128)
    ensures
        k == cell_key(p),
{
    (p.x as i128) * 0x1_0000_0000_0000_0000i128 + ((p.y as i128) + 0x8000_0000_0000_0000i128)
}

/// Distinct cells have distinct keys.
pub proof fn lemma_cell_key_injective(p: Point<i64>, q: Point<i64>)
    ensures
        cell_key(p) == cell_key(q) <==> p == q,
{
    let b = 0x1_0000_0000_0000_0000int;
    let ap = p.y as int + 0x8000_0000_0000_0000;
    let aq = q.y as int + 0x8000_0000_0000_0000;
    if cell_key(p) == cell_key(q) {
        assert(p.x as int * b + ap == q.x as int * b + aq);
        if p.x != q.x {
            assert((p.x as int - q.x as int) * b == aq - ap) by (nonlinear_arith)
                requires p.x as int * b + ap == q.x as int * b + aq;
            assert(false) by (nonlinear_arith)
                requires
                    (p.x as int - q.x as int) * b == aq - ap,
                    p.x != q.x,
                    0 <= ap < b,
                    0 <= aq < b,
                    b == 0x1_0000_0000_0000_0000int;
        }
    }
}

/// An asteroid exists at `p`: the cell's existence hash, read as a fraction
/// of one, is below the density.
pub open spec fn asteroid_exists_at(seed: u64, settings: SimulationSettings, p: Point<i64>) -> bool {
    (cell_hash(seed, p, ProcHashDomain::AsteroidExists) / 2048) as int * DENSITY_SCALE
        < settings.asteroid_density as int * UNIT_53
}

/// The resource of the asteroid at `p`: of a draw from `[0, 100)`, 61 values
/// give ice, 30 iron and 9 gold.
pub open spec fn resource_type_of(seed: u64, p: Point<i64>) -> ResourceType {
    let u = uniform_of(cell_hash(seed, p, ProcHashDomain::AsteroidResourceType), 100);
    if u <= 60 {
        ResourceType::Ice
    } else if u <= 90 {
        ResourceType::Iron
    } else {
        ResourceType::Gold
    }
}

/// The resource amount that the asteroid at `p` starts with: `n * n * max`
/// for the cell's amount hash `n` read as a fraction of one (rounded down to
/// a multiple of `1 / UNIT_53` after each product).
pub open spec fn initial_amount_of(seed: u64, settings: SimulationSettings, p: Point<i64>) -> int {
    let n = (cell_hash(seed, p, ProcHashDomain::AsteroidResourceAmount) / 2048) as int;
    ((n * n) / (UNIT_53 as int)) * settings.max_asteroid_resource_amount / (UNIT_53 as int)
}

/// The seed of the shape of the asteroid at `p`.
pub open spec fn shape_seed_of(seed: u64, p: Point<i64>) -> u64 {
    cell_hash(seed, p, ProcHashDomain::AsteroidShape)
}

/// Relies on rayon's `par_iter().filter(..).copied().collect()`: the `Vec` it
/// collects holds the cells for which the closure answers `true`, in the
/// order of `cells`. The closure is the verified `has_new_asteroid`.
#[verifier::external_body]
fn par_filter_new(state: &SimState, cells: &Vec<Point<i64>>) -> (r: Vec<Point<i64>>)
    ensures
        r@ == cells@.filter(|p: Point<i64>| state.spec_has_new_asteroid(p)),
{
    cells.par_iter().filter(|p| state.has_new_asteroid(**p)).copied().collect()
}

/// The mutable world: what has been discovered, mined and depleted, and
/// the colonies; everything else is generated from the seed on demand.
#[derive(Debug)]
pub struct SimState {
    seed: u64,
    settings: SimulationSettings,
    discovered_asteroids: HashMap<i128, u64>,
    discovery_order: Vec<Point<i64>>,
    depleted_asteroids: HashSet<i128>,
    colonies: HashMap<i128, Colony>,
}

impl SimState {
    pub closed spec fn spec_seed(&self) -> u64 {
        self.seed
    }

    pub closed spec fn spec_settings(&self) -> SimulationSettings {
        self.settings
    }

    /// `p` is a known asteroid.
    pub closed spec fn is_discovered(&self, p: Point<i64>) -> bool {
        self.discovered_asteroids@.contains_key(cell_key(p))
    }

    /// The amount already mined from the known asteroid at `p`, in micro-units.
    pub closed spec fn mined(&self, p: Point<i64>) -> u64 {
        self.discovered_asteroids@[cell_key(p)]
    }

    /// The known asteroids, in the order they were discovered.
    pub closed spec fn discovered_cells(&self) -> Seq<Point<i64>> {
        self.discovery_order@
    }

    /// The asteroid at `p` has been emptied for good.
    pub closed spec fn is_depleted(&self, p: Point<i64>) -> bool {
        self.depleted_asteroids@.contains(cell_key(p))
    }

    /// A colony stands at `p`.
    pub closed spec fn has_colony(&self, p: Point<i64>) -> bool {
        self.colonies@.contains_key(cell_key(p))
    }

    pub closed spec fn wf(&self) -> bool {
        &&& self.settings.wf()
        &&& self.discovery_order@.no_duplicates()
        &&& forall|p: Point<i64>| #[trigger]
            self.discovered_asteroids@.contains_key(cell_key(p)) <==> self.discovery_order@.contains(p)
        &&& forall|k: i128| #[trigger] self.colonies@.contains_key(k) ==> self.colonies@[k].wf()
    }

    pub open spec fn spec_asteroid_exists(&self, p: Point<i64>) -> bool {
        asteroid_exists_at(self.spec_seed(), self.spec_settings(), p)
    }

    /// `p` holds an asteroid that is neither known nor depleted.
    pub open spec fn spec_has_new_asteroid(&self, p: Point<i64>) -> bool {
        !self.is_discovered(p) && !self.is_depleted(p) && self.spec_asteroid_exists(p)
    }

    /// What is left in the known asteroid at `p`, in micro-units.
    pub open spec fn spec_resource_amount(&self, p: Point<i64>) -> int {
        let initial = initial_amount_of(self.spec_seed(), self.spec_settings(), p);
        if initial > self.mined(p) {
            initial - self.mined(p)
        } else {
            0
        }
    }

    /// The scale of the known asteroid at `p`, in thousandths of a cell.
    pub open spec fn spec_scale(&self, p: Point<i64>) -> u64 {
        (self.spec_resource_amount(p) * self.spec_settings().max_asteroid_scale
            / self.spec_settings().max_asteroid_resource_amount as int) as u64
    }

    /// The known asteroids, in the order they were discovered.
    pub fn discovered_list(&self) -> (r: &Vec<Point<i64>>)
        ensures
            r@ == self.discovered_cells(),
    {
        &self.discovery_order
    }

    /// Number of known asteroids.
    pub fn discovered_count(&self) -> (r: usize)
        ensures
            r == self.discovered_cells().len(),
    {
        self.discovery_order.len()
    }

    /// The settings of a well-formed world are well-formed.
    pub proof fn lemma_settings_wf(&self)
        requires
            self.wf(),
        ensures
            self.spec_settings().wf(),
    {
    }

    /// A cell listed among the known asteroids is known.
    pub proof fn lemma_listed_is_discovered(&self, p: Point<i64>)
        requires
            self.wf(),
            self.discovered_cells().contains(p),
        ensures
            self.is_discovered(p),
    {
    }

    /// States with the same discoveries know the same cells, in the same
    /// order, with the same mined amounts.
    pub proof fn lemma_same_discoveries_known(&self, other: &SimState, p: Point<i64>)
        requires
            other.same_discoveries(self),
        ensures
            other.is_discovered(p) == self.is_discovered(p),
            other.mined(p) == self.mined(p),
            other.discovered_cells() == self.discovered_cells(),
    {
    }

    /// A world generated from `seed`, with nothing discovered.
    pub fn new(settings: SimulationSettings, seed: u64) -> (r: SimState)
        requires
            settings.wf(),
        ensures
            r.wf(),
            r.spec_seed() == seed,
            r.spec_settings() == settings,
            r.discovered_cells().len() == 0,
            forall|p: Point<i64>|
                !r.is_discovered(p) && !r.is_depleted(p) && !r.has_colony(p),
    {
        let r = SimState {
            seed,
            settings,
            discovered_asteroids: HashMap::new(),
            discovery_order: Vec::new(),
            depleted_asteroids: HashSet::new(),
            colonies: HashMap::new(),
        };
        proof {
            assert forall|p: Point<i64>| #[trigger]
                r.discovered_asteroids@.contains_key(cell_key(p)) <==> r.discovery_order@.contains(p) by {}
        }
        r
    }

    /// A world generated from `seed`, with the default settings.
    pub fn new_with_seed(seed: u64) -> (r: SimState)
        ensures
            r.wf(),
            r.spec_seed() == seed,
            r.spec_settings().tps == 60 && r.spec_settings().asteroid_density == 250000,
            r.discovered_cells().len() == 0,
            forall|p: Point<i64>|
                !r.is_discovered(p) && !r.is_depleted(p) && !r.has_colony(p),
    {
        Self::new(SimulationSettings::default(), seed)
    }

    pub fn settings(&self) -> (r: &SimulationSettings)
        ensures
            *r == self.spec_settings(),
    {
        &self.settings
    }

    pub fn seed(&self) -> (r: u64)
        ensures
            r == self.spec_seed(),
    {
        self.seed
    }

    /// An asteroid is generated at `point` (whether or not it is known or depleted).
    pub fn asteroid_exists(&self, point: Point<i64>) -> (r: bool)
        ensures
            r == self.spec_asteroid_exists(point),
    {
        let n = ProcHash::from_point_i64(self.seed, point, ProcHashDomain::AsteroidExists).unit_numerator();
        proof {
            assert(n * DENSITY_SCALE <= UNIT_53 * DENSITY_SCALE) by (nonlinear_arith) requires n < UNIT_53;
            assert(self.settings.asteroid_density * UNIT_53 <= 0xffff_ffff_ffff_ffff * UNIT_53) by (nonlinear_arith)
                requires self.settings.asteroid_density <= 0xffff_ffff_ffff_ffff;
        }
        (n as u128) * (DENSITY_SCALE as u128) < (self.settings.asteroid_density as u128) * (UNIT_53 as u128)
    }

    fn asteroid_resource_type(&self, point: Point<i64>) -> (r: ResourceType)
        ensures
            r == resource_type_of(self.spec_seed(), point),
    {
        let uniform = ProcHash::from_point_i64(self.seed, point, ProcHashDomain::AsteroidResourceType).uniform_n(100);
        if uniform <= 60 {
            ResourceType::Ice
        } else if uniform <= 90 {
            ResourceType::Iron
        } else {
            ResourceType::Gold
        }
    }

    fn asteroid_initial_amount(&self, point: Point<i64>) -> (r: u64)
        ensures
            r == initial_amount_of(self.spec_seed(), self.spec_settings(), point),
            r <= self.spec_settings().max_asteroid_resource_amount,
    {
        let n = ProcHash::from_point_i64(self.seed, point, ProcHashDomain::AsteroidResourceAmount).unit_numerator();
        let max = self.settings.max_asteroid_resource_amount;
        proof {
            let u = UNIT_53 as int;
            assert(0 <= n * n <= (u - 1) * (u - 1)) by (nonlinear_arith) requires 0 <= n < u;
            assert((u - 1) * (u - 1) < u * u) by (nonlinear_arith) requires u > 1;
            vstd::arithmetic::div_mod::lemma_multiply_divide_lt(n * n, u, u);
            let t = (n * n) / u;
            assert(0 <= t);
            assert(t * max <= u * max) by (nonlinear_arith) requires 0 <= t < u, 0 <= max;
            assert(t * max <= u * 0xffff_ffff_ffff_ffff) by (nonlinear_arith) requires 0 <= t < u, 0 <= max <= 0xffff_ffff_ffff_ffff;
            assert(0 <= t * max) by (nonlinear_arith) requires 0 <= t, 0 <= max;
            vstd::arithmetic::div_mod::lemma_div_is_ordered(t * max, u * max, u);
            vstd::arithmetic::div_mod::lemma_div_by_multiple(max as int, u);
            assert(u * max == max * u) by (nonlinear_arith);
        }
        let t = ((n as u128) * (n as u128)) / (UNIT_53 as u128);
        ((t * (max as u128)) / (UNIT_53 as u128)) as u64
    }

    /// A known asteroid is at `point`.
    pub fn has_asteroid_resources(&self, point: Point<i64>) -> (r: bool)
        ensures
            r == self.is_discovered(point),
    {
        self.discovered_asteroids.contains_key(&key_of(point))
    }

    /// The asteroid at `point` is depleted.
    pub fn has_asteroid_depleted(&self, point: Point<i64>) -> (r: bool)
        ensures
            r == self.is_depleted(point),
    {
        self.depleted_asteroids.contains(&key_of(point))
    }

    /// An asteroid that is neither known nor depleted is at `point`.
    pub fn has_new_asteroid(&self, point: Point<i64>) -> (r: bool)
        ensures
            r == self.spec_has_new_asteroid(point),
    {
        if self.has_asteroid_resources(point) || self.has_asteroid_depleted(point) {
            false
        } else {
            self.asteroid_exists(point)
        }
    }

    /// The resource of the known asteroid at `point`.
    pub fn resource_type_at(&self, point: Point<i64>) -> (r: Option<ResourceType>)
        ensures
            r == (if self.is_discovered(point) {
                Some(resource_type_of(self.spec_seed(), point))
            } else {
                None
            }),
    {
        if !self.has_asteroid_resources(point) {
            return None;
        }
        Some(self.asteroid_resource_type(point))
    }

    /// What is left in the known asteroid at `point`, in micro-units: its
    /// initial amount less what was mined, and never below zero.
    pub fn resource_amount_at(&self, point: Point<i64>) -> (r: Option<u64>)
        ensures
            r == (if self.is_discovered(point) {
                Some(self.spec_resource_amount(point) as u64)
            } else {
                None
            }),
            r matches Some(a) ==> a <= self.spec_settings().max_asteroid_resource_amount,
            self.is_discovered(point) ==> 0 <= self.spec_resource_amount(point)
                <= self.spec_settings().max_asteroid_resource_amount,
    {
        match self.discovered_asteroids.get(&key_of(point)) {
            None => None,
            Some(mined) => {
                let initial = self.asteroid_initial_amount(point);
                if initial > *mined {
                    Some(initial - *mined)
                } else {
                    Some(0)
                }
            },
        }
    }

    /// The scale of the known asteroid at `point`, in thousandths of a cell:
    /// the maximum scale times the share of the maximum amount that is left.
    pub fn asteroid_scale_at(&self, point: Point<i64>) -> (r: Option<u64>)
        requires
            self.wf(),
        ensures
            r == (if self.is_discovered(point) {
                Some(self.spec_scale(point))
            } else {
                None
            }),
            r matches Some(s) ==> s <= self.spec_settings().max_asteroid_scale,
    {
        match self.resource_amount_at(point) {
            None => None,
            Some(amount) => {
                let max_amount = self.settings.max_asteroid_resource_amount;
                let max_scale = self.settings.max_asteroid_scale;
                proof {
                    assert(amount * max_scale <= max_amount * max_scale) by (nonlinear_arith)
                        requires amount <= max_amount, 0 <= max_scale;
                    assert(max_amount * max_scale <= 0xffff_ffff_ffff_ffff * 0xffff_ffff_ffff_ffff) by (nonlinear_arith)
                        requires max_amount <= 0xffff_ffff_ffff_ffff, max_scale <= 0xffff_ffff_ffff_ffff;
                    assert(0 <= amount * max_scale) by (nonlinear_arith) requires 0 <= amount, 0 <= max_scale;
                    vstd::arithmetic::div_mod::lemma_div_is_ordered(amount * max_scale, max_amount * max_scale, max_amount as int);
                    vstd::arithmetic::div_mod::lemma_div_by_multiple(max_scale as int, max_amount as int);
                    assert(max_amount * max_scale == max_scale * max_amount) by (nonlinear_arith);
                }
                Some(((amount as u128 * max_scale as u128) / max_amount as u128) as u64)
            },
        }
    }

    /// The seed of the shape of the asteroid at `point`.
    pub fn asteroid_shape_seed(&self, point: Point<i64>) -> (r: u64)
        ensures
            r == shape_seed_of(self.spec_seed(), point),
    {
        ProcHash::from_point_i64(self.seed, point, ProcHashDomain::AsteroidShape).raw()
    }

    /// The colony at `point`, if one stands there.
    pub fn colony_at(&self, point: Point<i64>) -> (r: Option<&Colony>)
        requires
            self.wf(),
        ensures
            r.is_some() == self.has_colony(point),
            r matches Some(c) ==> c.wf(),
    {
        self.colonies.get(&key_of(point))
    }
}

/// `after` is `before` once every new asteroid among the cells of `area`
/// has been discovered, with nothing mined from it.
pub open spec fn scouted(before: &SimState, after: &SimState, area: Area<Fixed>) -> bool {
    &&& after.same_world(before)
    &&& forall|q: Point<i64>|
        after.is_discovered(q) <==> (before.is_discovered(q) || (area.spec_to_i64().cells().contains(q)
            && before.spec_has_new_asteroid(q)))
    &&& forall|q: Point<i64>| before.is_discovered(q) ==> after.mined(q) == before.mined(q)
    &&& forall|q: Point<i64>| !before.is_discovered(q) && after.is_discovered(q) ==> after.mined(q) == 0
}

/// Generation depends on the seed, the cell and one setting each alone: in
/// worlds with the same seed, a cell's resource and shape are the same, its
/// existence is the same where the density is, and its initial amount is the
/// same where the maximum amount is; what is known, mined or depleted plays
/// no part.
pub proof fn lemma_generation_deterministic(a: &SimState, b: &SimState, p: Point<i64>)
    requires
        a.spec_seed() == b.spec_seed(),
    ensures
        a.spec_settings().asteroid_density == b.spec_settings().asteroid_density ==> a.spec_asteroid_exists(p)
            == b.spec_asteroid_exists(p),
        resource_type_of(a.spec_seed(), p) == resource_type_of(b.spec_seed(), p),
        a.spec_settings().max_asteroid_resource_amount == b.spec_settings().max_asteroid_resource_amount
            ==> initial_amount_of(a.spec_seed(), a.spec_settings(), p) == initial_amount_of(
            b.spec_seed(),
            b.spec_settings(),
            p,
        ),
        shape_seed_of(a.spec_seed(), p) == shape_seed_of(b.spec_seed(), p),
{
}

/// Scouting is reproducible: scouting one area in two worlds with the same
/// seed and settings, neither of which knows or has depleted any cell, discovers
/// the same cells.
pub proof fn lemma_scouting_reproducible(
    a: &SimState,
    a_after: &SimState,
    b: &SimState,
    b_after: &SimState,
    area: Area<Fixed>,
    q: Point<i64>,
)
    requires
        a.spec_seed() == b.spec_seed(),
        a.spec_settings() == b.spec_settings(),
        forall|p: Point<i64>| !a.is_discovered(p) && !a.is_depleted(p),
        forall|p: Point<i64>| !b.is_discovered(p) && !b.is_depleted(p),
        scouted(a, a_after, area),
        scouted(b, b_after, area),
    ensures
        a_after.is_discovered(q) == b_after.is_discovered(q),
{
}

/// Scouting an area a second time discovers nothing more.
pub proof fn lemma_rescout_adds_nothing(
    first: &SimState,
    second: &SimState,
    third: &SimState,
    area: Area<Fixed>,
    q: Point<i64>,
)
    requires
        scouted(first, second, area),
        scouted(second, third, area),
    ensures
        third.is_discovered(q) == second.is_discovered(q),
        third.mined(q) == second.mined(q) || !second.is_discovered(q),
{
}

/// Depletion is terminal: a depleted cell never holds a new asteroid, in
/// any later state that keeps the world's depleted cells (as every
/// operation but `deplete_asteroid` does, and that one only adds to them).
pub proof fn lemma_depleted_never_new(before: &SimState, after: &SimState, p: Point<i64>)
    requires
        before.is_depleted(p),
        forall|q: Point<i64>| before.is_depleted(q) ==> after.is_depleted(q),
    ensures
        after.is_depleted(p),
        !after.spec_has_new_asteroid(p),
{
}

/// Relies on `rand::random::<u64>()`: any `u64` may come back.
#[verifier::external_body]
fn random_seed() -> (r: u64) {
    rand::random::<u64>()
}

impl SimState {
    /// Seed, settings, depleted cells and colonies are the same in both states.
    pub closed spec fn same_world(&self, other: &SimState) -> bool {
        &&& self.seed == other.seed
        &&& self.settings == other.settings
        &&& self.depleted_asteroids@ == other.depleted_asteroids@
        &&& self.colonies@ == other.colonies@
    }

    /// States with the same world have the same seed, settings, depleted
    /// cells and colonies.
    pub proof fn lemma_same_world_depleted(&self, other: &SimState, p: Point<i64>)
        requires
            self.same_world(other),
        ensures
            self.is_depleted(p) == other.is_depleted(p),
            self.has_colony(p) == other.has_colony(p),
            self.spec_seed() == other.spec_seed(),
            self.spec_settings() == other.spec_settings(),
    {
    }

    /// The known asteroids are those of `other`, with their mined amounts.
    pub closed spec fn same_discoveries(&self, other: &SimState) -> bool {
        &&& self.discovered_asteroids@ == other.discovered_asteroids@
        &&& self.discovery_order@ == other.discovery_order@
    }

    /// A world generated from a seed drawn at random, with the default settings.
    pub fn new_with_random_seed() -> (r: SimState)
        ensures
            r.wf(),
            r.spec_settings().tps == 60 && r.spec_settings().asteroid_density == 250000,
            r.discovered_cells().len() == 0,
            forall|p: Point<i64>|
                !r.is_discovered(p) && !r.is_depleted(p) && !r.has_colony(p),
    {
        Self::new(SimulationSettings::default(), random_seed())
    }

    /// Marks the asteroid at `point` as known, with nothing mined. An
    /// asteroid that is already known keeps its mined amount.
    pub fn discover_asteroid(&mut self, point: Point<i64>)
        requires
            old(self).wf(),
        ensures
            final(self).wf(),
            final(self).same_world(old(self)),
            final(self).is_discovered(point),
            old(self).is_discovered(point) ==> final(self).same_discoveries(old(self)),
            old(self).is_discovered(point) ==> final(self).discovered_cells() == old(self).discovered_cells(),
            forall|q: Point<i64>| old(self).is_discovered(q) ==> final(self).mined(q) == old(self).mined(q),
            !old(self).is_discovered(point) ==> final(self).mined(point) == 0
                && final(self).discovered_cells() == old(self).discovered_cells().push(point),
            forall|q: Point<i64>| q != point ==> (final(self).is_discovered(q) == old(self).is_discovered(q)),
            forall|q: Point<i64>| q != point && old(self).is_discovered(q) ==> final(self).mined(q) == old(self).mined(q),
    {
        let key = key_of(point);
        if self.discovered_asteroids.contains_key(&key) {
            return;
        }
        self.discovered_asteroids.insert(key, 0);
        self.discovery_order.push(point);
        proof {
            assert forall|q: Point<i64>| q != point implies cell_key(q) != cell_key(point) by {
                lemma_cell_key_injective(q, point);
            }
            assert forall|p: Point<i64>| #[trigger]
                self.discovered_asteroids@.contains_key(cell_key(p)) <==> self.discovery_order@.contains(p) by {
                lemma_cell_key_injective(p, point);
                vstd::seq_lib::lemma_seq_contains_after_push(old(self).discovery_order@, point, p);
            }
            assert(!old(self).discovery_order@.contains(point));
            vstd::seq_lib::lemma_no_dup_in_concat(old(self).discovery_order@, seq![point]);
            assert(old(self).discovery_order@ + seq![point] =~= self.discovery_order@);
        }
    }

    /// Marks the asteroid at `point` as emptied for good.
    pub fn deplete_asteroid(&mut self, point: Point<i64>)
        requires
            old(self).wf(),
        ensures
            final(self).wf(),
            final(self).same_discoveries(old(self)),
            final(self).spec_seed() == old(self).spec_seed(),
            final(self).spec_settings() == old(self).spec_settings(),
            final(self).is_depleted(point),
            forall|q: Point<i64>| q != point ==> final(self).is_depleted(q) == old(self).is_depleted(q),
            forall|q: Point<i64>| final(self).has_colony(q) == old(self).has_colony(q),
    {
        self.depleted_asteroids.insert(key_of(point));
        proof {
            assert forall|q: Point<i64>| q != point implies cell_key(q) != cell_key(point) by {
                lemma_cell_key_injective(q, point);
            }
        }
    }

    /// Founds a colony at `point` where none stands; returns whether it did.
    pub fn add_colony(&mut self, point: Point<i64>) -> (added: bool)
        requires
            old(self).wf(),
        ensures
            final(self).wf(),
            final(self).same_discoveries(old(self)),
            final(self).spec_seed() == old(self).spec_seed(),
            final(self).spec_settings() == old(self).spec_settings(),
            added == !old(self).has_colony(point),
            final(self).has_colony(point),
            forall|q: Point<i64>| q != point ==> final(self).has_colony(q) == old(self).has_colony(q),
            forall|q: Point<i64>| final(self).is_depleted(q) == old(self).is_depleted(q),
    {
        let key = key_of(point);
        if self.colonies.contains_key(&key) {
            return false;
        }
        self.colonies.insert(key, Colony::new());
        proof {
            assert forall|q: Point<i64>| q != point implies cell_key(q) != cell_key(point) by {
                lemma_cell_key_injective(q, point);
            }
        }
        true
    }

    /// Discovers every new asteroid among the cells that `area` covers.
    /// Which cells hold one is decided on the world as it was before the call.
    pub fn scout_area(&mut self, area: Area<Fixed>)
        requires
            old(self).wf(),
            area.wf(),
        ensures
            final(self).wf(),
            scouted(old(self), final(self), area),
    {
        let cells = area.to_i64().iter();
        let fresh = par_filter_new(self, &cells);
        let ghost pred = |p: Point<i64>| old(self).spec_has_new_asteroid(p);
        let mut i: usize = 0;
        while i < fresh.len()
            invariant
                self.wf(),
                self.same_world(old(self)),
                fresh@ == cells@.filter(pred),
                0 <= i <= fresh@.len(),
                forall|q: Point<i64>|
                    self.is_discovered(q) <==> (old(self).is_discovered(q) || fresh@.subrange(0, i as int).contains(q)),
                forall|q: Point<i64>| old(self).is_discovered(q) ==> self.mined(q) == old(self).mined(q),
                forall|q: Point<i64>|
                    !old(self).is_discovered(q) && self.is_discovered(q) ==> self.mined(q) == 0,
            decreases fresh@.len() - i,
        {
            let p = fresh[i];
            proof {
                assert(fresh@.subrange(0, i + 1) =~= fresh@.subrange(0, i as int).push(p));
                assert forall|q: Point<i64>| fresh@.subrange(0, i + 1).contains(q) <==> (
                    fresh@.subrange(0, i as int).contains(q) || q == p) by {
                    vstd::seq_lib::lemma_seq_contains_after_push(fresh@.subrange(0, i as int), p, q);
                }
            }
            self.discover_asteroid(p);
            i = i + 1;
        }
        proof {
            assert(fresh@.subrange(0, fresh@.len() as int) =~= fresh@);
            assert forall|q: Point<i64>| fresh@.contains(q) <==> (cells@.contains(q) && pred(q)) by {
                if fresh@.contains(q) {
                    cells@.lemma_filter_contains_rev(pred, q);
                    let j = choose|j: int| 0 <= j < fresh@.len() && fresh@[j] == q;
                    cells@.lemma_filter_pred(pred, j);
                }
                if cells@.contains(q) && pred(q) {
                    let j = choose|j: int| 0 <= j < cells@.len() && cells@[j] == q;
                    cells@.lemma_filter_contains(pred, j);
                }
            }
        }
    }
}

} // verus!
