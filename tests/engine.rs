use pss_core::math::area::Area;
use pss_core::math::circle::Circle;
use pss_core::math::fixed::Fixed;
use pss_core::math::point::Point;
use pss_core::math::rect::Rect;
use pss_core::math::rgba::RGBA;
use pss_core::math::size::Size;
use pss_core::simulation::command::SimCommand;
use pss_core::simulation::frame::SimFrame;
use pss_core::simulation::schedule::plan_iteration;
use pss_core::simulation::snapshot::SimSnapshot;
use pss_core::simulation::state::settings::SimulationSettings;
use pss_core::simulation::Simulation;

fn cell_rect(x0: i64, y0: i64, x1: i64, y1: i64) -> Rect<Fixed> {
    Rect::new(
        Point::new(Fixed::from_int(x0), Fixed::from_int(y0)),
        Point::new(Fixed::from_int(x1), Fixed::from_int(y1)),
    )
}

fn dense_settings() -> SimulationSettings {
    let mut s = SimulationSettings::default();
    s.asteroid_density = 300_000_000;
    s
}

#[test]
fn pause_stops_ticks_but_not_world_commands() {
    let mut sim = Simulation::from_settings(dense_settings(), 2);
    sim.tick(false);
    assert_eq!(sim.ticks(), 1);
    sim.handle_command(SimCommand::Pause);
    assert!(sim.is_paused());
    for _ in 0..5 {
        sim.tick(false);
    }
    assert_eq!(sim.ticks(), 1);
    let area = Area::Circle(Circle::new(Point::new(Fixed::from_int(0), Fixed::from_int(0)), Fixed::from_int(4)));
    sim.handle_command(SimCommand::ScoutArea(area));
    assert!(sim.state().discovered_count() > 0);
    sim.tick(true);
    assert_eq!(sim.ticks(), 2);
    sim.handle_command(SimCommand::Resume);
    let interval = sim.settings().interval_tps();
    let plan = plan_iteration(1_000_000_000, 0, 0, interval, sim.settings().interval_fps());
    for _ in 0..plan.ticks_due {
        sim.tick(false);
    }
    assert_eq!(plan.ticks_due, 60);
    assert_eq!(sim.ticks(), 62);
}

#[test]
fn toggle_and_shutdown() {
    let mut sim = Simulation::from_settings(SimulationSettings::default(), 1);
    assert!(sim.is_alive() && !sim.is_paused());
    sim.handle_command(SimCommand::TogglePause);
    assert!(sim.is_paused());
    sim.handle_command(SimCommand::TogglePause);
    assert!(!sim.is_paused());
    sim.handle_command(SimCommand::Clear);
    assert!(sim.is_alive());
    sim.handle_command(SimCommand::SetScreenSize(Size::new(800, 600)));
    sim.handle_command(SimCommand::Shutdown);
    assert!(!sim.is_alive());
}

#[test]
fn rapid_rect_changes_recompute_once() {
    let mut sim = Simulation::from_settings(dense_settings(), 4);
    let cooldown = sim.settings().visible_update_cooldown;
    let mut frame = SimFrame::default();
    let mut now: u64 = 1_000_000;
    for i in 0..100i64 {
        let rect = cell_rect(i, 0, i + 10, 10);
        assert!(SimCommand::SetVisibleRect(rect).is_valid());
        sim.handle_command(SimCommand::SetVisibleRect(rect));
        sim.update_frame(&mut frame, now);
        now += 100_000;
    }
    assert_eq!(sim.visible_recomputes(), 0);
    let last_change = now - 100_000;
    sim.update_frame(&mut frame, last_change + cooldown - 1);
    assert_eq!(sim.visible_recomputes(), 0);
    sim.update_frame(&mut frame, last_change + cooldown);
    assert_eq!(sim.visible_recomputes(), 1);
    sim.update_frame(&mut frame, last_change + 10 * cooldown);
    assert_eq!(sim.visible_recomputes(), 1);
}

#[test]
fn frame_follows_the_visible_rect_and_draws_asteroids() {
    let mut sim = Simulation::from_settings(dense_settings(), 8);
    let rect = cell_rect(-3, -3, 3, 3);
    sim.handle_command(SimCommand::SetVisibleRect(rect));
    let mut frame = SimFrame::default();
    sim.update_frame(&mut frame, 0);
    assert_eq!(frame.size(), Size::new(7, 7));
    assert_eq!(frame.visible_rect(), rect);
    assert_eq!(frame.pixels().len(), 7 * 7 * 4);
    assert!(frame.pixels().iter().all(|b| *b == 0));
    sim.handle_command(SimCommand::ScoutArea(Area::Rect(cell_rect(-3, -3, 2, 2))));
    let found = sim.visible_asteroids().len();
    assert!(found > 0);
    assert_eq!(found, sim.state().discovered_count());
    sim.update_frame(&mut frame, 1);
    assert!(frame.pixels().iter().any(|b| *b != 0));
    assert_eq!(frame.snapshot().discovered_asteroids, found);
    let mut dest = vec![0u8; 10];
    frame.write_rgba(&mut dest);
    assert_eq!(&dest[..], &frame.pixels()[..10]);
}

#[test]
fn frame_fill_cell_writes_one_pixel() {
    let mut frame = SimFrame::new(3, 2);
    frame.set_visible_rect(cell_rect(10, 20, 13, 22));
    frame.fill_cell(Point::new(Fixed::from_raw(11_500), Fixed::from_raw(21_900)), RGBA::rgb(1, 2, 3));
    let px = frame.pixels();
    let idx = (1 * 3 + 1) * 4;
    assert_eq!(&px[idx..idx + 4], &[1, 2, 3, 255]);
    assert_eq!(px.iter().filter(|b| **b != 0).count(), 4);
    frame.fill_cell(Point::new(Fixed::from_int(50), Fixed::from_int(20)), RGBA::white());
    assert_eq!(frame.pixels().iter().filter(|b| **b != 0).count(), 4);
    frame.clear();
    assert!(frame.pixels().iter().all(|b| *b == 0));
}

#[test]
fn frame_fill_rect_clips_to_the_visible_part() {
    let mut frame = SimFrame::new(4, 4);
    frame.set_visible_rect(cell_rect(0, 0, 4, 4));
    frame.fill_rect(cell_rect(2, 2, 10, 10), RGBA::red());
    let lit = frame.pixels().chunks(4).filter(|c| c[0] == 255).count();
    assert_eq!(lit, 4);
    let mut other = SimFrame::new(4, 4);
    other.set_visible_rect(cell_rect(0, 0, 4, 4));
    other.fill_rect(cell_rect(5, 5, 6, 6), RGBA::red());
    assert!(other.pixels().iter().all(|b| *b == 0));
}

#[test]
fn frame_resize_clamps_to_one_pixel() {
    let mut frame = SimFrame::new(5, 5);
    frame.set_visible_rect(cell_rect(3, 3, 1, 1));
    frame.resize_to_visible_rect();
    assert_eq!(frame.size(), Size::new(1, 1));
    frame.set_visible_rect(Rect::new(
        Point::new(Fixed::from_raw(0), Fixed::from_raw(0)),
        Point::new(Fixed::from_raw(2500), Fixed::from_raw(1000)),
    ));
    frame.resize_to_visible_rect();
    assert_eq!(frame.size(), Size::new(4, 2));
    assert_eq!(frame.pixels().len(), 32);
}

#[test]
fn oversized_rect_is_not_a_valid_command() {
    let huge = cell_rect(0, 0, 100_000, 100_000);
    assert!(!SimCommand::SetVisibleRect(huge).is_valid());
    assert!(SimCommand::Pause.is_valid());
}

#[test]
fn loop_plan_catches_up_and_sleeps_until_the_next_event() {
    let plan = plan_iteration(1000, 0, 0, 300, 500);
    assert_eq!(plan.ticks_due, 3);
    assert_eq!(plan.last_tick, 900);
    assert!(plan.render);
    assert_eq!(plan.last_render, 1000);
    assert_eq!(plan.wake_at, 1200);
    let idle = plan_iteration(100, 0, 50, 300, 500);
    assert_eq!(idle.ticks_due, 0);
    assert!(!idle.render);
    assert_eq!(idle.wake_at, 300);
}

#[test]
fn settings_intervals_and_snapshot_rate() {
    let s = SimulationSettings::default();
    assert_eq!(s.interval_tps(), 16_666_666);
    assert_eq!(s.interval_fps(), 16_666_666);
    let mut snap = SimSnapshot::default();
    snap.avg_frame = 1_000_000;
    assert_eq!(snap.frame_time_per_second(), 60_000_000);
    snap.avg_frame = u64::MAX;
    assert_eq!(snap.frame_time_per_second(), u64::MAX);
}

fn lit_pixels(frame: &SimFrame) -> Vec<(usize, usize)> {
    let w = frame.size().width as usize;
    frame
        .pixels()
        .chunks(4)
        .enumerate()
        .filter(|(_, c)| c.iter().any(|b| *b != 0))
        .map(|(i, _)| (i % w, i / w))
        .collect()
}

#[test]
fn ellipse_is_sampled_at_pixel_centres() {
    let mut frame = SimFrame::new(4, 4);
    frame.set_visible_rect(cell_rect(0, 0, 4, 4));
    let e = pss_core::math::eclipse::Eclipse::new(
        Point::new(Fixed::from_int(1), Fixed::from_int(1)),
        Fixed::from_int(1),
        Fixed::from_int(1),
    );
    frame.fill_ellipse(e, RGBA::white());
    assert_eq!(lit_pixels(&frame), vec![(0, 0), (1, 0), (0, 1), (1, 1)]);
}

#[test]
fn ellipse_smaller_than_a_cell_is_still_drawn() {
    let mut frame = SimFrame::new(3, 3);
    frame.set_visible_rect(cell_rect(0, 0, 3, 3));
    let e = pss_core::math::eclipse::Eclipse::new(
        Point::new(Fixed::from_raw(1500), Fixed::from_raw(1500)),
        Fixed::from_raw(400),
        Fixed::from_raw(300),
    );
    frame.fill_ellipse(e, RGBA::green());
    assert_eq!(lit_pixels(&frame), vec![(1, 1)]);
    let flat = pss_core::math::eclipse::Eclipse::new(
        Point::new(Fixed::from_raw(1500), Fixed::from_raw(1500)),
        Fixed::from_raw(0),
        Fixed::from_raw(3000),
    );
    let mut other = SimFrame::new(3, 3);
    other.set_visible_rect(cell_rect(0, 0, 3, 3));
    other.fill_ellipse(flat, RGBA::green());
    assert!(lit_pixels(&other).is_empty());
}

#[test]
fn resize_zeroes_a_reallocated_buffer() {
    let mut frame = SimFrame::new(2, 2);
    frame.set_visible_rect(cell_rect(0, 0, 2, 2));
    frame.fill_rect(cell_rect(0, 0, 2, 2), RGBA::white());
    frame.set_visible_rect(cell_rect(0, 0, 3, 3));
    frame.resize_to_visible_rect();
    assert_eq!(frame.size(), Size::new(4, 4));
    assert!(frame.pixels().iter().all(|b| *b == 0));
}

#[test]
fn update_frame_sizes_a_frame_already_showing_the_rect() {
    let mut sim = Simulation::from_settings(SimulationSettings::default(), 3);
    let mut frame = SimFrame::new(5, 5);
    sim.update_frame(&mut frame, 0);
    assert_eq!(frame.size(), Size::new(1, 1));
    assert_eq!(frame.pixels().len(), 4);
}

#[test]
fn discovery_clears_a_pending_recompute() {
    let mut sim = Simulation::from_settings(dense_settings(), 6);
    let mut frame = SimFrame::default();
    sim.handle_command(SimCommand::SetVisibleRect(cell_rect(0, 0, 5, 5)));
    sim.update_frame(&mut frame, 10);
    assert_eq!(sim.visible_recomputes(), 0);
    sim.discover_asteroid(Point::new(1, 1));
    assert_eq!(sim.visible_recomputes(), 1);
    assert_eq!(sim.visible_asteroids(), &vec![Point::new(1, 1)]);
    sim.update_frame(&mut frame, 10 + 10 * sim.settings().visible_update_cooldown);
    assert_eq!(sim.visible_recomputes(), 1);
    sim.handle_command(SimCommand::Clear);
    assert_eq!(sim.visible_recomputes(), 1);
}

#[test]
fn oversized_scout_area_is_not_valid() {
    let far = Area::Circle(Circle::new(
        Point::new(Fixed::from_int(0), Fixed::from_int(0)),
        Fixed::from_raw(i64::MAX),
    ));
    assert!(!SimCommand::ScoutArea(far).is_valid());
}
