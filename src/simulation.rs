pub mod command;
pub mod frame;
pub mod procedural;
pub mod schedule;
pub mod snapshot;
pub mod state;

use crate::math::area::Area;
use crate::math::eclipse::Eclipse;
use crate::math::fixed::{in_limit, Fixed, FIXED_SCALE};
use crate::math::point::Point;
use crate::math::rect::Rect;
use crate::math::rgba::RGBA;
use crate::math::size::Size;
use crate::simulation::command::SimCommand;
use crate::simulation::frame::{frame_fits, frame_height, frame_width, paint_cells, SimFrame};
use crate::simulation::procedural::asteroid_shape::{asteroid_shape_eclipse, shape_of};
use crate::simulation::snapshot::SimSnapshot;
use crate::simulation::state::resource::resource_color;
use crate::simulation::state::settings::SimulationSettings;
use crate::simulation::state::{resource_type_of, scouted, shape_seed_of, SimState};
use vstd::prelude::*;

verus! {

/// The lower corner of cell `p` lies in `rect` (`min` included, `max` excluded).
pub open spec fn shows_cell(rect: Rect<Fixed>, p: Point<i64>) -> bool {
    &&& rect.min.x.raw <= p.x * FIXED_SCALE < rect.max.x.raw
    &&& rect.min.y.raw <= p.y * FIXED_SCALE < rect.max.y.raw
}

fn rect_shows_cell(rect: &Rect<Fixed>, p: Point<i64>) -> (r: bool)
    ensures
        r == shows_cell(*rect, p),
{
    let x = p.x as i128 * FIXED_SCALE as i128;
    let y = p.y as i128 * FIXED_SCALE as i128;
    rect.min.x.raw as i128 <= x && x < rect.max.x.raw as i128 && rect.min.y.raw as i128 <= y && y
        < rect.max.y.raw as i128
}

/// The continuous position of the centre of cell `p`.
pub open spec fn cell_centre(p: Point<i64>) -> Point<Fixed> {
    Point {
        x: Fixed { raw: (p.x * FIXED_SCALE + FIXED_SCALE / 2) as i64 },
        y: Fixed { raw: (p.y * FIXED_SCALE + FIXED_SCALE / 2) as i64 },
    }
}

/// The ellipse drawn for the known asteroid at `p`.
pub open spec fn asteroid_ellipse(state: &SimState, p: Point<i64>) -> Eclipse<Fixed> {
    shape_of(shape_seed_of(state.spec_seed(), p), cell_centre(p), state.spec_scale(p))
}

/// The color of the asteroid at `p`.
pub open spec fn asteroid_color(state: &SimState, p: Point<i64>) -> RGBA {
    resource_color(resource_type_of(state.spec_seed(), p))
}

/// `buf` with the asteroids at `cells` drawn in order into the `w` by `h`
/// frame whose first pixel is cell `(ox, oy)`.
pub open spec fn render_asteroids(
    w: int,
    h: int,
    ox: int,
    oy: int,
    buf: Seq<u8>,
    state: &SimState,
    cells: Seq<Point<i64>>,
) -> Seq<u8>
    decreases cells.len(),
{
    if cells.len() == 0 {
        buf
    } else {
        paint_cells(
            render_asteroids(w, h, ox, oy, buf, state, cells.drop_last()),
            w,
            h,
            ox,
            oy,
            asteroid_ellipse(state, cells.last()).sampled_cells(),
            asteroid_color(state, cells.last()),
        )
    }
}

/// The frame's pixels after the asteroids at `cells` are drawn onto `buf`.
pub open spec fn rendered(frame: &SimFrame, buf: Seq<u8>, state: &SimState, cells: Seq<Point<i64>>) -> Seq<u8> {
    render_asteroids(
        frame.spec_size().width as int,
        frame.spec_size().height as int,
        frame.origin_x(),
        frame.origin_y(),
        buf,
        state,
        cells,
    )
}

/// Everything but the pause and alive flags is the same in `a` and `b`.
pub open spec fn same_but_flags(a: &Simulation, b: &Simulation) -> bool {
    &&& a.spec_state() == b.spec_state()
    &&& a.spec_visible_rect() == b.spec_visible_rect()
    &&& a.spec_screen_size() == b.spec_screen_size()
    &&& a.spec_ticks() == b.spec_ticks()
    &&& a.spec_visible() == b.spec_visible()
    &&& a.spec_debounce() == b.spec_debounce()
    &&& a.spec_recomputes() == b.spec_recomputes()
}

/// The engine: owns the world, advances it tick by tick, applies commands
/// and renders the visible part of the world into frames.
#[derive(Debug)]
pub struct Simulation {
    state: SimState,
    visible_rect: Rect<Fixed>,
    screen_size: Size<u32>,
    ticks: u64,
    alive: bool,
    paused: bool,
    debounce_visible: Option<u64>,
    visible_asteroids: Vec<Point<i64>>,
    visible_recomputes: u64,
}

impl Simulation {
    pub closed spec fn spec_state(&self) -> SimState {
        self.state
    }

    pub closed spec fn spec_visible_rect(&self) -> Rect<Fixed> {
        self.visible_rect
    }

    pub closed spec fn spec_screen_size(&self) -> Size<u32> {
        self.screen_size
    }

    pub closed spec fn spec_ticks(&self) -> u64 {
        self.ticks
    }

    pub closed spec fn spec_alive(&self) -> bool {
        self.alive
    }

    pub closed spec fn spec_paused(&self) -> bool {
        self.paused
    }

    /// When the pending recompute of the visible asteroids falls due, if one is pending.
    pub closed spec fn spec_debounce(&self) -> Option<u64> {
        self.debounce_visible
    }

    /// The asteroids drawn in frames, as of the last recompute.
    pub closed spec fn spec_visible(&self) -> Seq<Point<i64>> {
        self.visible_asteroids@
    }

    /// How many times the visible asteroids have been recomputed (wrapping).
    pub closed spec fn spec_recomputes(&self) -> u64 {
        self.visible_recomputes
    }

    pub closed spec fn wf(&self) -> bool {
        &&& self.state.wf()
        &&& frame_fits(self.visible_rect)
        &&& forall|i: int|
            0 <= i < self.visible_asteroids@.len() ==> cell_centre_ok(#[trigger] self.visible_asteroids@[i])
                && self.state.is_discovered(self.visible_asteroids@[i])
    }

    /// The engine for `state`: running, at tick zero, showing the empty
    /// rectangle at the origin.
    pub fn new(state: SimState) -> (r: Simulation)
        requires
            state.wf(),
        ensures
            r.wf(),
            r.spec_state() == state,
            r.spec_ticks() == 0,
            r.spec_alive(),
            !r.spec_paused(),
            r.spec_debounce().is_none(),
            r.spec_visible().len() == 0,
            r.spec_recomputes() == 0,
    {
        let origin = Point::new(Fixed::from_raw(0), Fixed::from_raw(0));
        let r = Simulation {
            state,
            visible_rect: Rect::new(origin, origin),
            screen_size: Size::new(1, 1),
            ticks: 0,
            alive: true,
            paused: false,
            debounce_visible: None,
            visible_asteroids: Vec::new(),
            visible_recomputes: 0,
        };
        proof {
            assert(frame_width(r.visible_rect) == 1);
            assert(frame_height(r.visible_rect) == 1);
        }
        r
    }

    /// An engine for a new world of `seed` with `settings`.
    pub fn from_settings(settings: SimulationSettings, seed: u64) -> (r: Simulation)
        requires
            settings.wf(),
        ensures
            r.wf(),
            r.spec_state().spec_seed() == seed,
            r.spec_state().spec_settings() == settings,
            r.spec_state().discovered_cells().len() == 0,
            r.spec_ticks() == 0,
            r.spec_alive(),
            !r.spec_paused(),
    {
        Self::new(SimState::new(settings, seed))
    }

    /// Advances the tick counter by one (wrapping), unless the engine is
    /// paused and the tick is not forced.
    pub fn tick(&mut self, force: bool)
        requires
            old(self).wf(),
        ensures
            final(self).wf(),
            final(self).spec_ticks() == (if !force && old(self).spec_paused() {
                old(self).spec_ticks() as int
            } else {
                (old(self).spec_ticks() + 1) % 0x1_0000_0000_0000_0000
            }),
            final(self).spec_state() == old(self).spec_state(),
            final(self).spec_paused() == old(self).spec_paused(),
            final(self).spec_alive() == old(self).spec_alive(),
            final(self).spec_visible_rect() == old(self).spec_visible_rect(),
    {
        if !force && self.paused {
            return;
        }
        self.ticks = self.ticks.wrapping_add(1);
    }

    pub fn is_alive(&self) -> (r: bool)
        ensures
            r == self.spec_alive(),
    {
        self.alive
    }

    pub fn is_paused(&self) -> (r: bool)
        ensures
            r == self.spec_paused(),
    {
        self.paused
    }

    pub fn ticks(&self) -> (r: u64)
        ensures
            r == self.spec_ticks(),
    {
        self.ticks
    }

    pub fn settings(&self) -> (r: &SimulationSettings)
        ensures
            *r == self.spec_state().spec_settings(),
    {
        self.state.settings()
    }

    pub fn state(&self) -> (r: &SimState)
        ensures
            *r == self.spec_state(),
    {
        &self.state
    }

    pub fn visible_asteroids(&self) -> (r: &Vec<Point<i64>>)
        ensures
            r@ == self.spec_visible(),
    {
        &self.visible_asteroids
    }

    pub fn visible_recomputes(&self) -> (r: u64)
        ensures
            r == self.spec_recomputes(),
    {
        self.visible_recomputes
    }
}

/// The centre of cell `p` is a continuous position within the limits.
pub open spec fn cell_centre_ok(p: Point<i64>) -> bool {
    in_limit(p.x * FIXED_SCALE + FIXED_SCALE / 2) && in_limit(p.y * FIXED_SCALE + FIXED_SCALE / 2)
}

/// The due time of the pending recompute after a frame update at `now`:
/// a change of the visible rectangle (re)starts the cooldown.
pub open spec fn debounce_after(pending: Option<u64>, changed: bool, now: u64, cooldown: u64) -> Option<u64> {
    if changed {
        Some(if now + cooldown > u64::MAX { u64::MAX } else { (now + cooldown) as u64 })
    } else {
        pending
    }
}

/// A recompute of the visible asteroids is due at `now`.
pub open spec fn recompute_due(pending: Option<u64>, now: u64) -> bool {
    match pending {
        Some(t) => now >= t,
        None => false,
    }
}

impl Simulation {
    /// Recomputes the visible asteroids from the known ones and clears any
    /// pending recompute.
    fn recompute_visible(&mut self)
        requires
            old(self).wf(),
        ensures
            final(self).wf(),
            final(self).spec_visible() == old(self).spec_state().discovered_cells().filter(
                |p: Point<i64>| shows_cell(old(self).spec_visible_rect(), p),
            ),
            final(self).spec_debounce().is_none(),
            final(self).spec_recomputes() == (old(self).spec_recomputes() + 1) % 0x1_0000_0000_0000_0000,
            final(self).spec_state() == old(self).spec_state(),
            final(self).spec_ticks() == old(self).spec_ticks(),
            final(self).spec_paused() == old(self).spec_paused(),
            final(self).spec_alive() == old(self).spec_alive(),
            final(self).spec_visible_rect() == old(self).spec_visible_rect(),
            final(self).spec_screen_size() == old(self).spec_screen_size(),
    {
        broadcast use vstd::seq_lib::group_filter_ensures;

        let ghost pred = |p: Point<i64>| shows_cell(self.visible_rect, p);
        let list = self.state.discovered_list();
        let mut visible: Vec<Point<i64>> = Vec::new();
        let mut i: usize = 0;
        while i < list.len()
            invariant
                self.wf(),
                self == old(self),
                pred == (|p: Point<i64>| shows_cell(self.visible_rect, p)),
                list@ == self.state.discovered_cells(),
                i <= list@.len(),
                visible@ == list@.take(i as int).filter(pred),
                forall|k: int| 0 <= k < visible@.len() ==> cell_centre_ok(#[trigger] visible@[k]) && self.state.is_discovered(visible@[k]),
            decreases list@.len() - i,
        {
            let p = list[i];
            proof {
                assert(list@.take(i + 1) =~= list@.take(i as int).push(p));
                list@.take(i as int).lemma_filter_push(p, pred);
                assert(list@.contains(p));
                self.state.lemma_listed_is_discovered(p);
            }
            let shown = rect_shows_cell(&self.visible_rect, p);
            assert(shown == pred(p));
            if shown {
                visible.push(p);
            }
            i = i + 1;
        }
        proof {
            assert(list@.take(list@.len() as int) =~= list@);
        }
        self.visible_asteroids = visible;
        self.debounce_visible = None;
        self.visible_recomputes = self.visible_recomputes.wrapping_add(1);
    }

    /// Recomputes the visible asteroids where a pending recompute is due at `now`.
    fn update_visible(&mut self, now: u64)
        requires
            old(self).wf(),
        ensures
            final(self).wf(),
            recompute_due(old(self).spec_debounce(), now) ==> final(self).spec_visible()
                == old(self).spec_state().discovered_cells().filter(
                |p: Point<i64>| shows_cell(old(self).spec_visible_rect(), p),
            ) && final(self).spec_debounce().is_none() && final(self).spec_recomputes() == (
            old(self).spec_recomputes() + 1) % 0x1_0000_0000_0000_0000,
            !recompute_due(old(self).spec_debounce(), now) ==> final(self).spec_visible()
                == old(self).spec_visible() && final(self).spec_debounce() == old(self).spec_debounce()
                && final(self).spec_recomputes() == old(self).spec_recomputes(),
            final(self).spec_state() == old(self).spec_state(),
            final(self).spec_ticks() == old(self).spec_ticks(),
            final(self).spec_paused() == old(self).spec_paused(),
            final(self).spec_alive() == old(self).spec_alive(),
            final(self).spec_visible_rect() == old(self).spec_visible_rect(),
            final(self).spec_screen_size() == old(self).spec_screen_size(),
    {
        match self.debounce_visible {
            Some(due) => {
                if now >= due {
                    self.recompute_visible();
                }
            },
            None => {},
        }
    }

    /// A known asteroid is at `point`.
    pub fn has_asteroid_resources(&self, point: Point<i64>) -> (r: bool)
        ensures
            r == self.spec_state().is_discovered(point),
    {
        self.state.has_asteroid_resources(point)
    }

    /// The asteroid at `point` is depleted.
    pub fn has_asteroid_depleted(&self, point: Point<i64>) -> (r: bool)
        ensures
            r == self.spec_state().is_depleted(point),
    {
        self.state.has_asteroid_depleted(point)
    }

    /// An asteroid that is neither known nor depleted is at `point`.
    pub fn has_new_asteroid(&self, point: Point<i64>) -> (r: bool)
        ensures
            r == self.spec_state().spec_has_new_asteroid(point),
    {
        self.state.has_new_asteroid(point)
    }

    /// Marks the asteroid at `point` as known (keeping what was mined from
    /// it if it was known already) and recomputes the visible asteroids at once.
    pub fn discover_asteroid(&mut self, point: Point<i64>)
        requires
            old(self).wf(),
        ensures
            final(self).wf(),
            final(self).spec_state().same_world(&old(self).spec_state()),
            final(self).spec_state().is_discovered(point),
            old(self).spec_state().is_discovered(point) ==> final(self).spec_state().same_discoveries(
                &old(self).spec_state(),
            ),
            old(self).spec_state().is_discovered(point) ==> final(self).spec_state().discovered_cells() == old(
                self,
            ).spec_state().discovered_cells(),
            !old(self).spec_state().is_discovered(point) ==> final(self).spec_state().mined(point) == 0
                && final(self).spec_state().discovered_cells() == old(self).spec_state().discovered_cells().push(
                point,
            ),
            forall|q: Point<i64>|
                old(self).spec_state().is_discovered(q) ==> final(self).spec_state().mined(q) == old(
                    self,
                ).spec_state().mined(q),
            forall|q: Point<i64>|
                q != point ==> (final(self).spec_state().is_discovered(q) == old(self).spec_state().is_discovered(q)),
            final(self).spec_visible() == final(self).spec_state().discovered_cells().filter(
                |p: Point<i64>| shows_cell(old(self).spec_visible_rect(), p),
            ),
            final(self).spec_debounce().is_none(),
            final(self).spec_recomputes() == (old(self).spec_recomputes() + 1) % 0x1_0000_0000_0000_0000,
            final(self).spec_ticks() == old(self).spec_ticks(),
            final(self).spec_paused() == old(self).spec_paused(),
            final(self).spec_alive() == old(self).spec_alive(),
            final(self).spec_visible_rect() == old(self).spec_visible_rect(),
    {
        self.state.discover_asteroid(point);
        self.recompute_visible();
    }

    /// Discovers every new asteroid in `area` and recomputes the visible asteroids.
    pub fn scout_area(&mut self, area: Area<Fixed>)
        requires
            old(self).wf(),
            area.wf(),
        ensures
            final(self).wf(),
            scouted(&old(self).spec_state(), &final(self).spec_state(), area),
            final(self).spec_visible() == final(self).spec_state().discovered_cells().filter(
                |p: Point<i64>| shows_cell(old(self).spec_visible_rect(), p),
            ),
            final(self).spec_ticks() == old(self).spec_ticks(),
            final(self).spec_paused() == old(self).spec_paused(),
            final(self).spec_alive() == old(self).spec_alive(),
            final(self).spec_visible_rect() == old(self).spec_visible_rect(),
    {
        self.state.scout_area(area);
        self.recompute_visible();
    }

    /// Founds a colony at `point` where none stands; returns whether it did.
    pub fn add_colony(&mut self, point: Point<i64>) -> (added: bool)
        requires
            old(self).wf(),
        ensures
            final(self).wf(),
            added == !old(self).spec_state().has_colony(point),
            final(self).spec_state().has_colony(point),
            final(self).spec_state().same_discoveries(&old(self).spec_state()),
            final(self).spec_ticks() == old(self).spec_ticks(),
            final(self).spec_paused() == old(self).spec_paused(),
            final(self).spec_alive() == old(self).spec_alive(),
    {
        let added = self.state.add_colony(point);
        proof {
            assert forall|i: int| 0 <= i < self.visible_asteroids@.len() implies
                self.state.is_discovered(self.visible_asteroids@[i]) by {
                old(self).state.lemma_same_discoveries_known(&self.state, self.visible_asteroids@[i]);
            }
        }
        added
    }
}

impl Simulation {
    /// Applies one command. World commands are carried out whether or not
    /// the engine is paused.
    pub fn handle_command(&mut self, command: SimCommand)
        requires
            old(self).wf(),
            command.wf(),
        ensures
            final(self).wf(),
            (match command {
                SimCommand::Clear => same_but_flags(final(self), old(self)) && final(self).spec_paused()
                    == old(self).spec_paused() && final(self).spec_alive() == old(self).spec_alive(),
                SimCommand::Pause => same_but_flags(final(self), old(self)) && final(self).spec_paused()
                    && final(self).spec_alive() == old(self).spec_alive(),
                SimCommand::Resume => same_but_flags(final(self), old(self)) && !final(self).spec_paused()
                    && final(self).spec_alive() == old(self).spec_alive(),
                SimCommand::TogglePause => same_but_flags(final(self), old(self)) && final(self).spec_paused()
                    == !old(self).spec_paused() && final(self).spec_alive() == old(self).spec_alive(),
                SimCommand::Shutdown => same_but_flags(final(self), old(self)) && !final(self).spec_alive()
                    && final(self).spec_paused() == old(self).spec_paused(),
                SimCommand::SetVisibleRect(rect) => final(self).spec_visible_rect() == rect
                    && final(self).spec_state() == old(self).spec_state() && final(self).spec_ticks()
                    == old(self).spec_ticks() && final(self).spec_paused() == old(self).spec_paused()
                    && final(self).spec_alive() == old(self).spec_alive() && final(self).spec_visible()
                    == old(self).spec_visible() && final(self).spec_debounce() == old(self).spec_debounce(),
                SimCommand::SetScreenSize(size) => final(self).spec_screen_size() == size
                    && final(self).spec_state() == old(self).spec_state() && final(self).spec_ticks()
                    == old(self).spec_ticks() && final(self).spec_paused() == old(self).spec_paused()
                    && final(self).spec_alive() == old(self).spec_alive() && final(self).spec_visible_rect()
                    == old(self).spec_visible_rect(),
                SimCommand::ScoutArea(area) => scouted(&old(self).spec_state(), &final(self).spec_state(), area)
                    && final(self).spec_ticks()
                    == old(self).spec_ticks() && final(self).spec_paused() == old(self).spec_paused()
                    && final(self).spec_alive() == old(self).spec_alive(),
            }),
    {
        match command {
            SimCommand::Clear => {},
            SimCommand::Pause => self.paused = true,
            SimCommand::Resume => self.paused = false,
            SimCommand::TogglePause => self.paused = !self.paused,
            SimCommand::Shutdown => self.alive = false,
            SimCommand::SetVisibleRect(rect) => self.visible_rect = rect,
            SimCommand::SetScreenSize(size) => self.screen_size = size,
            SimCommand::ScoutArea(area) => self.scout_area(area),
        }
    }

    /// Draws the visible asteroids onto `frame`, in the order they are listed.
    fn draw_visible(&self, frame: &mut SimFrame)
        requires
            self.wf(),
            old(frame).wf(),
        ensures
            final(frame).wf(),
            final(frame).spec_pixels() == rendered(old(frame), old(frame).spec_pixels(), &self.spec_state(), self.spec_visible()),
            final(frame).spec_size() == old(frame).spec_size(),
            final(frame).spec_visible_rect() == old(frame).spec_visible_rect(),
            final(frame).spec_snapshot() == old(frame).spec_snapshot(),
    {
        let ghost start = *frame;
        let mut i: usize = 0;
        while i < self.visible_asteroids.len()
            invariant
                self.wf(),
                frame.wf(),
                i <= self.visible_asteroids@.len(),
                frame.spec_pixels() == rendered(&start, start.spec_pixels(), &self.state, self.visible_asteroids@.take(i as int)),
                frame.spec_size() == start.spec_size(),
                frame.spec_visible_rect() == start.spec_visible_rect(),
                frame.spec_snapshot() == start.spec_snapshot(),
            decreases self.visible_asteroids@.len() - i,
        {
            let p = self.visible_asteroids[i];
            proof {
                self.state.lemma_settings_wf();
            }
            assert(cell_centre_ok(self.visible_asteroids@[i as int]) && self.state.is_discovered(self.visible_asteroids@[i as int]));
            assert(self.visible_asteroids@.take(i + 1).drop_last() =~= self.visible_asteroids@.take(i as int));
            let scale = self.state.asteroid_scale_at(p);
            let kind = self.state.resource_type_at(p);
            match (scale, kind) {
                (Some(scale), Some(kind)) => {
                    let shape_seed = self.state.asteroid_shape_seed(p);
                    let center = Point::new(
                        Fixed::from_raw(p.x * FIXED_SCALE + FIXED_SCALE / 2),
                        Fixed::from_raw(p.y * FIXED_SCALE + FIXED_SCALE / 2),
                    );
                    let shape = asteroid_shape_eclipse(shape_seed, center, scale);
                    let color = RGBA::from(kind);
                    assert(center == cell_centre(p));
                    frame.fill_ellipse(shape, color);
                },
                _ => {},
            }
            i = i + 1;
        }
        assert(self.visible_asteroids@.take(self.visible_asteroids@.len() as int) =~= self.visible_asteroids@);
    }

    /// Attaches the current metrics to `frame`, keeping its timing averages.
    fn update_snapshot(&self, frame: &mut SimFrame)
        requires
            self.wf(),
            old(frame).wf(),
        ensures
            final(frame).wf(),
            final(frame).spec_snapshot().discovered_asteroids == self.spec_state().discovered_cells().len(),
            final(frame).spec_snapshot().settings == self.spec_state().spec_settings(),
            final(frame).spec_snapshot().avg_frame == old(frame).spec_snapshot().avg_frame,
            final(frame).spec_snapshot().avg_tick == old(frame).spec_snapshot().avg_tick,
            final(frame).spec_pixels() == old(frame).spec_pixels(),
            final(frame).spec_size() == old(frame).spec_size(),
            final(frame).spec_visible_rect() == old(frame).spec_visible_rect(),
    {
        let previous = *frame.snapshot();
        let snapshot = SimSnapshot {
            discovered_asteroids: self.state.discovered_count(),
            settings: *self.state.settings(),
            avg_frame: previous.avg_frame,
            avg_tick: previous.avg_tick,
        };
        frame.set_snapshot(snapshot);
    }

    /// Renders the world into `frame` at time `now` (nanoseconds). A frame
    /// showing another rectangle is moved to the engine's rectangle, the
    /// frame is sized to that rectangle, and the recompute of the visible asteroids is put off until
    /// the cooldown has passed since that change; a recompute that is due is
    /// done. The frame is then cleared, the visible asteroids drawn onto it
    /// and the metrics attached.
    pub fn update_frame(&mut self, frame: &mut SimFrame, now: u64)
        requires
            old(self).wf(),
            old(frame).wf(),
        ensures
            final(self).wf(),
            final(frame).wf(),
            final(frame).spec_visible_rect() == old(self).spec_visible_rect(),
            final(frame).spec_size().width == frame_width(old(self).spec_visible_rect()),
            final(frame).spec_size().height == frame_height(old(self).spec_visible_rect()),
            ({
                let step = debounce_run(
                    old(self).spec_debounce(),
                    seq![(old(frame).spec_visible_rect() != old(self).spec_visible_rect(), now)],
                    old(self).spec_state().spec_settings().visible_update_cooldown,
                );
                &&& final(self).spec_debounce() == step.0
                &&& final(self).spec_recomputes() == (old(self).spec_recomputes() + step.1) % 0x1_0000_0000_0000_0000
            }),
            ({
                let pending = debounce_after(
                    old(self).spec_debounce(),
                    old(frame).spec_visible_rect() != old(self).spec_visible_rect(),
                    now,
                    old(self).spec_state().spec_settings().visible_update_cooldown,
                );
                &&& recompute_due(pending, now) ==> final(self).spec_visible()
                    == old(self).spec_state().discovered_cells().filter(
                    |p: Point<i64>| shows_cell(old(self).spec_visible_rect(), p),
                ) && final(self).spec_debounce().is_none() && final(self).spec_recomputes() == (
                old(self).spec_recomputes() + 1) % 0x1_0000_0000_0000_0000
                &&& !recompute_due(pending, now) ==> final(self).spec_visible() == old(self).spec_visible()
                    && final(self).spec_debounce() == pending && final(self).spec_recomputes()
                    == old(self).spec_recomputes()
            }),
            final(frame).spec_pixels() == rendered(
                final(frame),
                Seq::new(final(frame).spec_pixels().len(), |k: int| 0u8),
                &final(self).spec_state(),
                final(self).spec_visible(),
            ),
            final(frame).spec_snapshot().discovered_asteroids == old(self).spec_state().discovered_cells().len(),
            final(frame).spec_snapshot().settings == old(self).spec_state().spec_settings(),
            final(frame).spec_snapshot().avg_frame == old(frame).spec_snapshot().avg_frame,
            final(frame).spec_snapshot().avg_tick == old(frame).spec_snapshot().avg_tick,
            final(self).spec_state() == old(self).spec_state(),
            final(self).spec_ticks() == old(self).spec_ticks(),
            final(self).spec_paused() == old(self).spec_paused(),
            final(self).spec_alive() == old(self).spec_alive(),
            final(self).spec_visible_rect() == old(self).spec_visible_rect(),
    {
        let ghost changed = frame.spec_visible_rect() != self.visible_rect;
        let ghost pending = self.debounce_visible;
        let ghost cooldown_spec = self.state.spec_settings().visible_update_cooldown;
        proof {
            let u = seq![(changed, now)];
            assert(u.drop_last() =~= Seq::<(bool, u64)>::empty());
            assert(u.last() == (changed, now));
            assert(debounce_run(pending, u.drop_last(), cooldown_spec) == (pending, 0nat));
        }
        if frame.visible_rect() != self.visible_rect {
            frame.set_visible_rect(self.visible_rect);
            let cooldown = self.state.settings().visible_update_cooldown;
            let due = if now as u128 + cooldown as u128 > u64::MAX as u128 { u64::MAX } else { now + cooldown };
            self.debounce_visible = Some(due);
        }
        frame.resize_to_visible_rect();
        frame.clear();
        proof {
            assert(frame.spec_pixels() =~= Seq::new(frame.spec_pixels().len(), |k: int| 0u8));
        }
        let ghost cleared = *frame;
        self.update_visible(now);
        self.draw_visible(frame);
        self.update_snapshot(frame);
        proof {
            cleared.lemma_pixels_len();
            frame.lemma_pixels_len();
        }
    }
}

/// The pending recompute and the number of recomputes after a run of frame
/// updates, each given as whether it finds the visible rectangle changed and
/// its time, one step per update as `update_frame` states it.
pub open spec fn debounce_run(pending: Option<u64>, updates: Seq<(bool, u64)>, cooldown: u64) -> (Option<u64>, nat)
    decreases updates.len(),
{
    if updates.len() == 0 {
        (pending, 0)
    } else {
        let prior = debounce_run(pending, updates.drop_last(), cooldown);
        let next = debounce_after(prior.0, updates.last().0, updates.last().1, cooldown);
        if recompute_due(next, updates.last().1) {
            (None, prior.1 + 1)
        } else {
            (next, prior.1)
        }
    }
}

/// Updates at the times in `times`, all finding the rectangle changed.
pub open spec fn changing_updates(times: Seq<u64>) -> Seq<(bool, u64)> {
    Seq::new(times.len(), |i: int| (true, times[i]))
}

/// Updates at the times in `times`, none finding the rectangle changed.
pub open spec fn steady_updates(times: Seq<u64>) -> Seq<(bool, u64)> {
    Seq::new(times.len(), |i: int| (false, times[i]))
}

proof fn lemma_changes_postpone(pending: Option<u64>, changes: Seq<u64>, cooldown: u64)
    requires
        cooldown > 0,
        changes.len() > 0,
        forall|i: int| 0 <= i < changes.len() ==> changes[i] + cooldown <= u64::MAX,
    ensures
        debounce_run(pending, changing_updates(changes), cooldown) == (
        Some((changes.last() + cooldown) as u64),
        0nat,
        ),
    decreases changes.len(),
{
    let u = changing_updates(changes);
    let t = changes.last();
    assert(u.drop_last() =~= changing_updates(changes.drop_last()));
    assert(u.last() == (true, t));
    assert(t + cooldown <= u64::MAX);
    let prior = debounce_run(pending, u.drop_last(), cooldown);
    assert(debounce_after(prior.0, true, t, cooldown) == Some((t + cooldown) as u64));
    assert(!recompute_due(Some((t + cooldown) as u64), t));
    if changes.len() > 1 {
        assert forall|i: int| 0 <= i < changes.drop_last().len() implies changes.drop_last()[i] + cooldown
            <= u64::MAX by {
            assert(changes.drop_last()[i] == changes[i]);
        }
        lemma_changes_postpone(pending, changes.drop_last(), cooldown);
    } else {
        assert(u.drop_last().len() == 0);
    }
}

proof fn lemma_steady_after_changes(
    pending: Option<u64>,
    changes: Seq<u64>,
    later: Seq<u64>,
    cooldown: u64,
)
    requires
        cooldown > 0,
        changes.len() > 0,
        forall|i: int| 0 <= i < changes.len() ==> changes[i] + cooldown <= u64::MAX,
    ensures
        ({
            let due = (changes.last() + cooldown) as u64;
            let run = debounce_run(pending, changing_updates(changes) + steady_updates(later), cooldown);
            &&& (exists|j: int| 0 <= j < later.len() && later[j] >= due) ==> run == (None::<u64>, 1nat)
            &&& !(exists|j: int| 0 <= j < later.len() && later[j] >= due) ==> run == (Some(due), 0nat)
        }),
    decreases later.len(),
{
    let due = (changes.last() + cooldown) as u64;
    let all = changing_updates(changes) + steady_updates(later);
    if later.len() == 0 {
        assert(all =~= changing_updates(changes));
        lemma_changes_postpone(pending, changes, cooldown);
    } else {
        let rest = later.drop_last();
        assert(all.drop_last() =~= changing_updates(changes) + steady_updates(rest));
        lemma_steady_after_changes(pending, changes, rest, cooldown);
        let t = later.last();
        if exists|j: int| 0 <= j < rest.len() && rest[j] >= due {
            let j = choose|j: int| 0 <= j < rest.len() && rest[j] >= due;
            assert(later[j] == rest[j]);
        } else if t >= due {
            assert(later[later.len() - 1] >= due);
        } else {
            assert forall|j: int| 0 <= j < later.len() implies later[j] < due by {
                if j < later.len() - 1 {
                    assert(later[j] == rest[j]);
                }
            }
        }
    }
}

/// Rapid changes of the visible rectangle coalesce: after any number of
/// frame updates that each find the rectangle changed, and then any number
/// that do not, the visible asteroids have been recomputed at most once, and
/// once exactly when some later update comes at or after the last change
/// plus the cooldown.
pub proof fn lemma_debounce_coalesces(pending: Option<u64>, changes: Seq<u64>, later: Seq<u64>, cooldown: u64)
    requires
        cooldown > 0,
        changes.len() > 0,
        forall|i: int| 0 <= i < changes.len() ==> changes[i] + cooldown <= u64::MAX,
    ensures
        debounce_run(pending, changing_updates(changes) + steady_updates(later), cooldown).1 <= 1,
        debounce_run(pending, changing_updates(changes) + steady_updates(later), cooldown).1 == 1 <==> (
        exists|j: int| 0 <= j < later.len() && later[j] >= changes.last() + cooldown),
{
    lemma_steady_after_changes(pending, changes, later, cooldown);
}

} // verus!
