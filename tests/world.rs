use pss_core::math::area::Area;
use pss_core::math::circle::Circle;
use pss_core::math::fixed::Fixed;
use pss_core::math::point::Point;
use pss_core::math::rect::Rect;
use pss_core::math::rgba::RGBA;
use pss_core::simulation::procedural::asteroid_shape::asteroid_shape_eclipse;
use pss_core::simulation::procedural::hash::{ProcHash, ProcHashDomain};
use pss_core::simulation::state::resource::ResourceType;
use pss_core::simulation::state::resource_bag::{ResourceBag, MICROS_PER_UNIT};
use pss_core::simulation::state::settings::SimulationSettings;
use pss_core::simulation::state::SimState;

fn settings_with_density(ppb: u64) -> SimulationSettings {
    let mut s = SimulationSettings::default();
    s.asteroid_density = ppb;
    s
}

fn circle_area(cx: i64, cy: i64, r: i64) -> Area<Fixed> {
    Area::Circle(Circle::new(
        Point::new(Fixed::from_int(cx), Fixed::from_int(cy)),
        Fixed::from_int(r),
    ))
}

fn micros(units: f64) -> u64 {
    (units * MICROS_PER_UNIT as f64).round() as u64
}

fn units(m: u128) -> f64 {
    m as f64 / MICROS_PER_UNIT as f64
}

#[test]
fn hash_is_deterministic_and_mixes_its_inputs() {
    let p = Point::new(3i64, -7i64);
    let a = ProcHash::from_point_i64(42, p, ProcHashDomain::AsteroidExists);
    let b = ProcHash::from_point_i64(42, p, ProcHashDomain::AsteroidExists);
    assert_eq!(a, b);
    assert_ne!(a.raw(), 42);
    assert_ne!(a, ProcHash::from_point_i64(43, p, ProcHashDomain::AsteroidExists));
    assert_ne!(a, ProcHash::from_point_i64(42, Point::new(3, -6), ProcHashDomain::AsteroidExists));
}

#[test]
fn hash_domains_differ_over_ten_thousand_cells() {
    let domains = [
        ProcHashDomain::AsteroidExists,
        ProcHashDomain::AsteroidResourceType,
        ProcHashDomain::AsteroidResourceAmount,
        ProcHashDomain::AsteroidShape,
    ];
    for x in 0..100i64 {
        for y in 0..100i64 {
            let p = Point::new(x - 50, y - 50);
            let hs: Vec<u64> = domains.iter().map(|d| ProcHash::from_point_i64(7, p, *d).raw()).collect();
            for i in 0..hs.len() {
                for j in (i + 1)..hs.len() {
                    assert_ne!(hs[i], hs[j], "cell {:?}", p);
                }
            }
        }
    }
}

#[test]
fn uniform_n_takes_the_high_word() {
    assert_eq!(ProcHash(u64::MAX).uniform_n(100), 99);
    assert_eq!(ProcHash(0).uniform_n(100), 0);
    assert_eq!(ProcHash(1u64 << 63).uniform_n(100), 50);
    assert_eq!(ProcHash(12345).uniform_n(0), 0);
    assert_eq!(ProcHash(4096).unit_numerator(), 2);
}

#[test]
fn generation_is_repeatable_across_worlds() {
    let a = SimState::new(settings_with_density(500_000_000), 9);
    let b = SimState::new(settings_with_density(500_000_000), 9);
    for x in -20..20i64 {
        let p = Point::new(x, 2 * x);
        assert_eq!(a.has_new_asteroid(p), b.has_new_asteroid(p));
        assert_eq!(a.has_new_asteroid(p), a.has_new_asteroid(p));
        assert_eq!(a.asteroid_shape_seed(p), b.asteroid_shape_seed(p));
    }
}

#[test]
fn scout_seed_two_circle_radius_ten_is_reproducible() {
    let area = circle_area(0, 0, 10);
    let mut first = SimState::new(settings_with_density(250_000), 2);
    let mut second = SimState::new(settings_with_density(250_000), 2);
    let cells = area.to_i64().iter();
    assert_eq!(cells.len(), 317);
    let expected: Vec<Point<i64>> = cells.iter().copied().filter(|p| first.has_new_asteroid(*p)).collect();
    first.scout_area(area);
    second.scout_area(area);
    assert_eq!(first.discovered_list(), second.discovered_list());
    assert_eq!(first.discovered_list(), &expected);
    for p in &cells {
        assert_eq!(first.has_asteroid_resources(*p), second.has_asteroid_resources(*p));
    }
}

#[test]
fn scout_discovers_exactly_the_new_asteroids() {
    let mut s = SimState::new(settings_with_density(200_000_000), 11);
    let area = Area::Rect(Rect::new(
        Point::new(Fixed::from_int(-5), Fixed::from_int(-5)),
        Point::new(Fixed::from_int(5), Fixed::from_int(5)),
    ));
    let cells = area.to_i64().iter();
    let fresh: Vec<Point<i64>> = cells.iter().copied().filter(|p| s.has_new_asteroid(*p)).collect();
    assert!(!fresh.is_empty());
    assert!(fresh.len() < cells.len());
    s.scout_area(area);
    for p in &cells {
        assert_eq!(s.has_asteroid_resources(*p), fresh.contains(p));
        assert!(!s.has_new_asteroid(*p));
    }
    let before = s.discovered_count();
    s.scout_area(area);
    assert_eq!(s.discovered_count(), before);
}

#[test]
fn depleted_cells_are_never_new() {
    let mut s = SimState::new(settings_with_density(1_000_000_000), 5);
    let p = Point::new(1i64, 1i64);
    assert!(s.has_new_asteroid(p));
    s.deplete_asteroid(p);
    assert!(s.has_asteroid_depleted(p));
    assert!(!s.has_new_asteroid(p));
    s.scout_area(circle_area(1, 1, 3));
    assert!(!s.has_asteroid_resources(p));
    assert!(!s.has_new_asteroid(p));
    let q = Point::new(2i64, 1i64);
    s.discover_asteroid(q);
    s.deplete_asteroid(q);
    assert!(!s.has_new_asteroid(q));
}

#[test]
fn discovering_twice_keeps_the_entry() {
    let mut s = SimState::new_with_seed(3);
    let p = Point::new(10i64, -4i64);
    assert_eq!(s.resource_amount_at(p), None);
    s.discover_asteroid(p);
    let amount = s.resource_amount_at(p);
    assert!(amount.is_some());
    s.discover_asteroid(p);
    assert_eq!(s.resource_amount_at(p), amount);
    assert_eq!(s.discovered_count(), 1);
}

#[test]
fn discovered_asteroid_queries() {
    let mut s = SimState::new_with_seed(77);
    let p = Point::new(0i64, 0i64);
    assert_eq!(s.resource_type_at(p), None);
    assert_eq!(s.asteroid_scale_at(p), None);
    s.discover_asteroid(p);
    let kind = s.resource_type_at(p).unwrap();
    let amount = s.resource_amount_at(p).unwrap();
    let scale = s.asteroid_scale_at(p).unwrap();
    let settings = *s.settings();
    assert!(amount <= settings.max_asteroid_resource_amount);
    assert_eq!(
        scale as u128,
        amount as u128 * settings.max_asteroid_scale as u128 / settings.max_asteroid_resource_amount as u128
    );
    let u = ProcHash::from_point_i64(77, p, ProcHashDomain::AsteroidResourceType).uniform_n(100);
    let expected = if u <= 60 {
        ResourceType::Ice
    } else if u <= 90 {
        ResourceType::Iron
    } else {
        ResourceType::Gold
    };
    assert_eq!(kind, expected);
}

#[test]
fn resource_types_follow_the_weights() {
    let s = SimState::new_with_seed(1234);
    let mut counts = [0usize; 3];
    let mut t = SimState::new_with_seed(1234);
    for x in 0..3000i64 {
        t.discover_asteroid(Point::new(x, 0));
    }
    for x in 0..3000i64 {
        let k = t.resource_type_at(Point::new(x, 0)).unwrap();
        counts[k.index()] += 1;
    }
    assert_eq!(s.seed(), 1234);
    assert!(counts[0] > 1600 && counts[0] < 2050, "{:?}", counts);
    assert!(counts[1] > 750 && counts[1] < 1050, "{:?}", counts);
    assert!(counts[2] > 150 && counts[2] < 400, "{:?}", counts);
}

#[test]
fn colonies_are_founded_once() {
    let mut s = SimState::new_with_seed(1);
    let p = Point::new(1000i64, 700i64);
    assert!(s.colony_at(p).is_none());
    assert!(s.add_colony(p));
    assert!(!s.add_colony(p));
    let c = s.colony_at(p).unwrap();
    assert_eq!(c.resources.total(ResourceType::Iron), 0);
}

#[test]
fn random_seed_world_starts_empty() {
    let s = SimState::new_with_random_seed();
    assert_eq!(s.discovered_count(), 0);
    assert_eq!(s.settings().tps, 60);
}

#[test]
fn shape_radii_lie_between_seven_tenths_and_the_scale() {
    let center = Point::new(Fixed::from_int(3), Fixed::from_int(4));
    let e = asteroid_shape_eclipse(0, center, 10_000);
    assert_eq!(e.rx.raw, 7000);
    assert_eq!(e.ry.raw, 7000);
    let e = asteroid_shape_eclipse(u64::MAX, center, 10_000);
    assert_eq!(e.rx.raw, 10_000);
    assert_eq!(e.ry.raw, 10_000);
    assert_eq!(e.center, center);
}

#[test]
fn resource_colors() {
    assert_eq!(RGBA::from(ResourceType::Ice).0, [98, 194, 207, 255]);
    assert_eq!(RGBA::from(ResourceType::Iron).0, [165, 95, 75, 255]);
    assert_eq!(RGBA::from(ResourceType::Gold).0, [207, 179, 84, 255]);
}

#[test]
fn bag_add_add_remove_scenario() {
    let mut bag = ResourceBag::new();
    bag.add(ResourceType::Iron, micros(2.7));
    bag.add(ResourceType::Iron, micros(2.6));
    assert!(bag.remove(ResourceType::Iron, micros(4.0)));
    assert!((units(bag.total(ResourceType::Iron)) - 1.3).abs() < 1e-6);
    assert!(!bag.remove(ResourceType::Iron, micros(2.0)));
    assert!((units(bag.total(ResourceType::Iron)) - 1.3).abs() < 1e-6);
    assert_eq!(bag.total(ResourceType::Ice), 0);
}

#[test]
fn bag_total_is_the_sum_of_adds_less_removes() {
    let mut bag = ResourceBag::default();
    let mut expected: u128 = 0;
    let mut x: u64 = 12345;
    for _ in 0..2000 {
        x = x.wrapping_mul(6364136223846793005).wrapping_add(1442695040888963407);
        let amount = (x >> 40) % 3_000_000;
        if x % 3 == 0 {
            let ok = bag.remove(ResourceType::Gold, amount);
            assert_eq!(ok, expected >= amount as u128);
            if ok {
                expected -= amount as u128;
            }
        } else {
            bag.add(ResourceType::Gold, amount);
            expected += amount as u128;
        }
        assert_eq!(bag.total(ResourceType::Gold), expected);
    }
    assert_eq!(bag.total(ResourceType::Ice), 0);
}

#[test]
fn bag_borrows_across_the_whole_part() {
    let mut bag = ResourceBag::new();
    bag.add(ResourceType::Ice, 1_200_000);
    assert!(bag.remove(ResourceType::Ice, 300_000));
    assert_eq!(bag.total(ResourceType::Ice), 900_000);
    assert!(bag.remove(ResourceType::Ice, 900_000));
    assert_eq!(bag.total(ResourceType::Ice), 0);
    assert!(!bag.remove(ResourceType::Ice, 1));
}

#[test]
fn second_scout_of_an_area_adds_nothing() {
    let mut s = SimState::new(settings_with_density(300_000_000), 21);
    let area = circle_area(2, -3, 6);
    s.scout_area(area);
    let first: Vec<Point<i64>> = s.discovered_list().clone();
    s.scout_area(area);
    assert_eq!(s.discovered_list(), &first);
    assert!(s.asteroid_exists(first[0]));
}

#[test]
fn existence_depends_on_seed_and_density_only() {
    let mut a = settings_with_density(400_000_000);
    a.max_asteroid_resource_amount = 5;
    let b = settings_with_density(400_000_000);
    let sa = SimState::new(a, 31);
    let mut sb = SimState::new(b, 31);
    sb.deplete_asteroid(Point::new(0, 0));
    for x in -30..30i64 {
        let p = Point::new(x, 7);
        assert_eq!(sa.asteroid_exists(p), sb.asteroid_exists(p));
    }
}
