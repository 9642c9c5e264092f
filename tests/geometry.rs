use pss_core::math::area::Area;
use pss_core::math::circle::Circle;
use pss_core::math::eclipse::Eclipse;
use pss_core::math::ema::EMA;
use pss_core::math::fixed::Fixed;
use pss_core::math::point::Point;
use pss_core::math::rect::Rect;
use pss_core::math::rgba::RGBA;
use pss_core::math::screen_coords::ScreenCoords;
use pss_core::math::size::Size;

fn fx(milli: i64) -> Fixed {
    Fixed::from_raw(milli)
}

fn fpoint(x: i64, y: i64) -> Point<Fixed> {
    Point::new(fx(x), fx(y))
}

#[test]
fn fixed_floor_and_ceil_round_toward_the_right_side() {
    assert_eq!(fx(2700).floor_int(), 2);
    assert_eq!(fx(-2700).floor_int(), -3);
    assert_eq!(fx(-3000).floor_int(), -3);
    assert_eq!(fx(2700).ceil_int(), 3);
    assert_eq!(fx(-2700).ceil_int(), -2);
    assert_eq!(fx(4000).ceil_int(), 4);
    assert_eq!(fx(-2700).floor().raw, -3000);
}

#[test]
fn fixed_round_sends_halves_away_from_zero() {
    assert_eq!(fx(2500).round().raw, 3000);
    assert_eq!(fx(2499).round().raw, 2000);
    assert_eq!(fx(-2500).round().raw, -3000);
    assert_eq!(fx(-2499).round().raw, -2000);
}

#[test]
fn fixed_to_u32_truncates_and_saturates() {
    assert_eq!(fx(2999).to_u32(), 2);
    assert_eq!(fx(-5000).to_u32(), 0);
    assert_eq!(fx(5_000_000_000_000).to_u32(), u32::MAX);
}

#[test]
fn point_conversions() {
    let p = fpoint(1500, -1500);
    assert_eq!(p.to_i64(), Point::new(1, -2));
    assert_eq!(p.to_u32(), Point::new(1u32, 0u32));
    assert_eq!(p.round(), fpoint(2000, -2000));
    assert_eq!(p.floor(), fpoint(1000, -2000));
    assert_eq!(Point::new(3i64, -4i64).to_fixed(), fpoint(3000, -4000));
    assert_eq!(Point::new(2i64, 3i64).map(|v| v * 10), Point::new(20i64, 30i64));
}

#[test]
fn size_conversions() {
    let s = Size::new(fx(1999), fx(-1));
    assert_eq!(s.to_u32(), Size::new(1u32, 0u32));
    assert_eq!(Size::new(4u32, 5u32).to_point(), Point::new(4u32, 5u32));
}

#[test]
fn rect_measures() {
    let r = Rect::new(Point::new(-3i64, 2i64), Point::new(4i64, 7i64));
    assert_eq!(r.width(), 7);
    assert_eq!(r.height(), 5);
    assert_eq!(r.size(), Size::new(7, 5));
    assert_eq!(r.center(), Point::new(0, 4));
    let f = Rect::new(fpoint(0, 0), fpoint(3000, 1000));
    assert_eq!(f.width().raw, 3000);
    assert_eq!(f.center(), fpoint(1500, 500));
}

#[test]
fn rect_iter_lists_columns_in_order() {
    let r = Rect::new(Point::new(0i64, 0i64), Point::new(1i64, 2i64));
    let cells = r.iter();
    let expected = vec![
        Point::new(0, 0),
        Point::new(0, 1),
        Point::new(0, 2),
        Point::new(1, 0),
        Point::new(1, 1),
        Point::new(1, 2),
    ];
    assert_eq!(cells, expected);
    let empty = Rect::new(Point::new(2i64, 0i64), Point::new(1i64, 5i64));
    assert!(empty.iter().is_empty());
}

#[test]
fn rect_contains_is_half_open() {
    let r = Rect::new(fpoint(0, 0), fpoint(2000, 2000));
    assert!(r.contains(fpoint(0, 0)));
    assert!(r.contains(fpoint(1999, 1999)));
    assert!(!r.contains(fpoint(2000, 1000)));
    assert!(!r.contains(fpoint(-1, 1000)));
}

#[test]
fn rect_intersect_overlap_and_disjoint() {
    let a = Rect::new(fpoint(0, 0), fpoint(4000, 4000));
    let b = Rect::new(fpoint(2000, -1000), fpoint(6000, 3000));
    assert_eq!(a.intersect(&b), Some(Rect::new(fpoint(2000, 0), fpoint(4000, 3000))));
    let c = Rect::new(fpoint(4000, 0), fpoint(5000, 1000));
    assert_eq!(a.intersect(&c), None);
}

#[test]
fn rect_from_center_and_square() {
    let r = Rect::from_center_size(fpoint(1000, 1000), Size::new(fx(4000), fx(2000)));
    assert_eq!(r, Rect::new(fpoint(-1000, 0), fpoint(3000, 2000)));
    let s = Rect::new_square(fpoint(0, 0), fx(3000));
    assert_eq!(s, Rect::new(fpoint(-1500, -1500), fpoint(1500, 1500)));
}

#[test]
fn rect_rounding_conversions() {
    let r = Rect::new(fpoint(-1500, 2500), fpoint(3999, 4001));
    assert_eq!(r.to_i64(), Rect::new(Point::new(-2, 2), Point::new(3, 4)));
    assert_eq!(r.floor(), Rect::new(fpoint(-2000, 2000), fpoint(3000, 4000)));
    assert_eq!(r.to_u32(), Rect::new(Point::new(0u32, 2u32), Point::new(3u32, 4u32)));
}

#[test]
fn circle_of_radius_ten_covers_317_cells() {
    let c = Circle::new(Point::new(0i64, 0i64), 10i64);
    let cells = c.iter();
    assert_eq!(cells.len(), 317);
    for p in &cells {
        assert!(p.x * p.x + p.y * p.y <= 100);
    }
    assert_eq!(cells[0], Point::new(-10, 0));
}

#[test]
fn circle_edge_radii() {
    assert_eq!(Circle::new(Point::new(5i64, 5i64), 0i64).iter(), vec![Point::new(5, 5)]);
    assert!(Circle::new(Point::new(5i64, 5i64), -1i64).iter().is_empty());
    assert_eq!(Circle::new(Point::new(0i64, 0i64), 1i64).iter().len(), 5);
}

#[test]
fn circle_and_area_to_i64() {
    let c = Circle::new(fpoint(-500, 1500), fx(2900));
    let ci = c.to_i64();
    assert_eq!(ci, Circle::new(Point::new(-1, 1), 2));
    let a = Area::Circle(c);
    assert_eq!(a.to_i64(), Area::Circle(ci));
    let r = Area::Rect(Rect::new(fpoint(0, 0), fpoint(1000, 1000)));
    assert_eq!(r.to_i64().iter().len(), 4);
}

#[test]
fn ellipse_cells() {
    let e = Eclipse::new(Point::new(0i64, 0i64), 2i64, 1i64);
    let cells = e.iter();
    let expected = vec![
        Point::new(-2, 0),
        Point::new(-1, 0),
        Point::new(0, -1),
        Point::new(0, 0),
        Point::new(0, 1),
        Point::new(1, 0),
        Point::new(2, 0),
    ];
    assert_eq!(cells, expected);
    assert!(Eclipse::new(Point::new(0i64, 0i64), 0i64, 3i64).iter().is_empty());
    let f = Eclipse::new(fpoint(1500, 1500), fx(2500), fx(1999));
    assert_eq!(f.to_i64(), Eclipse::new(Point::new(1, 1), 2, 1));
}

#[test]
fn rgba_channels_and_named_colors() {
    let c = RGBA::new(1, 2, 3, 4);
    assert_eq!((c.r(), c.g(), c.b(), c.a()), (1, 2, 3, 4));
    assert_eq!(RGBA::rgb(9, 8, 7).0, [9, 8, 7, 255]);
    assert_eq!(RGBA::red().0, [255, 0, 0, 255]);
    assert_eq!(RGBA::green().0, [0, 255, 0, 255]);
    assert_eq!(RGBA::blue().0, [0, 0, 255, 255]);
    assert_eq!(RGBA::yellow().0, [255, 255, 0, 255]);
    assert_eq!(RGBA::magenta().0, [255, 0, 255, 255]);
    assert_eq!(RGBA::cyan().0, [0, 255, 255, 255]);
    assert_eq!(RGBA::black().0, [0, 0, 0, 255]);
    assert_eq!(RGBA::white().0, [255, 255, 255, 255]);
}

#[test]
fn screen_coords_accessors() {
    let s = ScreenCoords::new(640, 480);
    assert_eq!((s.x(), s.y(), s.width(), s.height()), (640, 480, 640, 480));
}

#[test]
fn ema_takes_first_sample_then_weights_a_tenth() {
    let mut e = EMA::new(0);
    e.update(100);
    assert_eq!(e.get(), 100);
    e.update(200);
    assert_eq!(e.get(), 110);
    e.update(0);
    assert_eq!(e.get(), 99);
}
