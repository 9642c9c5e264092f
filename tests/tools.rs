use pss_core::math::area::Area;
use pss_core::math::circle::Circle;
use pss_core::math::fixed::Fixed;
use pss_core::math::point::Point;
use pss_core::math::rect::Rect;
use pss_core::math::world_coords::WorldCoords;
use pss_core::simulation::command::SimCommand;
use pss_core::ui::{DrawAreaType, DrawMode, DrawWindowState, MainWindowState, Ui};

fn cursor() -> Point<Fixed> {
    Point::new(Fixed::from_raw(2500), Fixed::from_raw(-1000))
}

#[test]
fn draw_tool_circle_has_twice_the_size_as_radius() {
    let mut state = DrawWindowState::default();
    state.size = 5;
    assert_eq!(state.mode, DrawMode::Scout);
    assert_eq!(state.get_circle(cursor()), Circle::new(cursor(), Fixed::from_int(10)));
    assert_eq!(state.get_area(cursor()), Area::Circle(Circle::new(cursor(), Fixed::from_int(10))));
}

#[test]
fn draw_tool_square_has_the_size_as_side() {
    let mut state = DrawWindowState::default();
    state.size = 4;
    state.area_type = DrawAreaType::Square;
    let expected = Rect::new(
        Point::new(Fixed::from_raw(500), Fixed::from_raw(-3000)),
        Point::new(Fixed::from_raw(4500), Fixed::from_raw(1000)),
    );
    assert_eq!(state.get_square(cursor()), expected);
    assert_eq!(state.on_draw(cursor()), SimCommand::ScoutArea(Area::Rect(expected)));
}

#[test]
fn ui_sends_a_command_only_while_drawing() {
    let mut ui = Ui::new();
    assert!(ui.main_window.is_open);
    assert_eq!(ui.draw_command(cursor()), None);
    ui.drawing = true;
    ui.main_window.draw.size = 1;
    let cmd = ui.draw_command(cursor()).unwrap();
    assert!(cmd.is_valid());
    assert_eq!(cmd, SimCommand::ScoutArea(Area::Circle(Circle::new(cursor(), Fixed::from_int(2)))));
    let main = MainWindowState::default();
    assert!(!main.debug.is_open && !main.draw.is_open);
}

#[test]
fn world_coords_accessors() {
    let mut w = WorldCoords::new(Fixed::from_int(3), Fixed::from_int(-2));
    assert_eq!(w.x(), Fixed::from_int(3));
    assert_eq!(w.height(), Fixed::from_int(-2));
    *w.x_mut() = Fixed::from_int(7);
    *w.y_mut() = Fixed::from_int(8);
    assert_eq!((w.width(), w.y()), (Fixed::from_int(7), Fixed::from_int(8)));
}
