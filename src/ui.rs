use crate::math::area::Area;
use crate::math::circle::Circle;
use crate::math::fixed::{Fixed, FIXED_SCALE, COORD_LIMIT};
use crate::math::point::Point;
use crate::math::rect::{half_toward_zero, Rect};
use crate::simulation::command::SimCommand;
use vstd::prelude::*;

verus! {

/// What a click in the world does.
#[derive(Clone, Copy, Debug, PartialEq, Eq, Structural)]
pub enum DrawMode {
    Scout,
}

/// The shape of the area a click scouts.
#[derive(Clone, Copy, Debug, PartialEq, Eq, Structural)]
pub enum DrawAreaType {
    Circle,
    Square,
}

/// The state of the drawing tool: its window, mode, shape and size (1 to 100).
#[derive(Clone, Copy, Debug, PartialEq, Eq, Structural)]
pub struct DrawWindowState {
    pub is_open: bool,
    pub mode: DrawMode,
    pub area_type: DrawAreaType,
    pub size: u8,
}

/// The state of the debug window.
#[derive(Clone, Copy, Debug, Default, PartialEq, Eq, Structural)]
pub struct DebugWindowState {
    pub is_open: bool,
}

/// The state of the main window and the windows it holds.
#[derive(Clone, Copy, Debug, PartialEq, Eq, Structural)]
pub struct MainWindowState {
    pub is_open: bool,
    pub draw: DrawWindowState,
    pub debug: DebugWindowState,
}

/// The interface state: its windows, and whether the pointer is drawing.
#[derive(Clone, Copy, Debug, PartialEq, Eq, Structural)]
pub struct Ui {
    pub main_window: MainWindowState,
    pub drawing: bool,
}

/// A cursor position far enough inside the world's limits for any tool area around it.
pub open spec fn cursor_ok(p: Point<Fixed>) -> bool {
    &&& -COORD_LIMIT + 1000000 <= p.x.raw <= COORD_LIMIT - 1000000
    &&& -COORD_LIMIT + 1000000 <= p.y.raw <= COORD_LIMIT - 1000000
}

impl DrawWindowState {
    /// The scouting disc around `point`: its radius is twice the size, in cells.
    pub fn get_circle(&self, point: Point<Fixed>) -> (c: Circle<Fixed>)
        ensures
            c.center == point,
            c.radius.raw == self.size * 2 * FIXED_SCALE,
    {
        Circle::new(point, Fixed::from_raw(self.size as i64 * 2 * FIXED_SCALE))
    }

    /// The scouting square around `point`, whose side is the size, in cells.
    pub fn get_square(&self, point: Point<Fixed>) -> (r: Rect<Fixed>)
        requires
            cursor_ok(point),
        ensures
            r.min.x.raw == point.x.raw - half_toward_zero(self.size * FIXED_SCALE),
            r.min.y.raw == point.y.raw - half_toward_zero(self.size * FIXED_SCALE),
            r.max.x.raw == point.x.raw + half_toward_zero(self.size * FIXED_SCALE),
            r.max.y.raw == point.y.raw + half_toward_zero(self.size * FIXED_SCALE),
    {
        Rect::new_square(point, Fixed::from_raw(self.size as i64 * FIXED_SCALE))
    }

    /// The area scouted by a click at `point`, of the chosen shape.
    pub fn get_area(&self, point: Point<Fixed>) -> (a: Area<Fixed>)
        requires
            cursor_ok(point),
        ensures
            a.wf(),
            self.area_type == DrawAreaType::Circle ==> a == Area::Circle(
                Circle { center: point, radius: Fixed { raw: (self.size * 2 * FIXED_SCALE) as i64 } },
            ),
            self.area_type == DrawAreaType::Square ==> (a matches Area::Rect(r) && r.min.x.raw
                == point.x.raw - half_toward_zero(self.size * FIXED_SCALE) && r.max.x.raw == point.x.raw
                + half_toward_zero(self.size * FIXED_SCALE) && r.min.y.raw == point.y.raw
                - half_toward_zero(self.size * FIXED_SCALE) && r.max.y.raw == point.y.raw
                + half_toward_zero(self.size * FIXED_SCALE)),
    {
        match self.area_type {
            DrawAreaType::Circle => Area::Circle(self.get_circle(point)),
            DrawAreaType::Square => Area::Rect(self.get_square(point)),
        }
    }

    /// The command a click at `point` sends to the engine.
    pub fn on_draw(&self, point: Point<Fixed>) -> (c: SimCommand)
        requires
            cursor_ok(point),
        ensures
            c.wf(),
            c matches SimCommand::ScoutArea(a) && a == self.spec_area(point),
    {
        match self.mode {
            DrawMode::Scout => SimCommand::ScoutArea(self.get_area(point)),
        }
    }

    /// The area of `get_area`.
    pub open spec fn spec_area(&self, point: Point<Fixed>) -> Area<Fixed> {
        match self.area_type {
            DrawAreaType::Circle => Area::Circle(
                Circle { center: point, radius: Fixed { raw: (self.size * 2 * FIXED_SCALE) as i64 } },
            ),
            DrawAreaType::Square => Area::Rect(
                Rect {
                    min: Point {
                        x: Fixed { raw: (point.x.raw - half_toward_zero(self.size * FIXED_SCALE)) as i64 },
                        y: Fixed { raw: (point.y.raw - half_toward_zero(self.size * FIXED_SCALE)) as i64 },
                    },
                    max: Point {
                        x: Fixed { raw: (point.x.raw + half_toward_zero(self.size * FIXED_SCALE)) as i64 },
                        y: Fixed { raw: (point.y.raw + half_toward_zero(self.size * FIXED_SCALE)) as i64 },
                    },
                },
            ),
        }
    }
}

impl Default for DrawWindowState {
    fn default() -> (r: DrawWindowState)
        ensures
            !r.is_open,
            r.mode == DrawMode::Scout,
            r.area_type == DrawAreaType::Circle,
            r.size == 0,
    {
        DrawWindowState { is_open: false, mode: DrawMode::Scout, area_type: DrawAreaType::Circle, size: 0 }
    }
}

impl Default for MainWindowState {
    fn default() -> (r: MainWindowState)
        ensures
            r.is_open,
            !r.draw.is_open,
            r.draw.mode == DrawMode::Scout,
            r.draw.area_type == DrawAreaType::Circle,
            r.draw.size == 0,
            !r.debug.is_open,
    {
        MainWindowState {
            is_open: true,
            draw: DrawWindowState::default(),
            debug: DebugWindowState { is_open: false },
        }
    }
}

impl Ui {
    pub fn new() -> (r: Ui)
        ensures
            r.main_window.is_open,
            !r.drawing,
    {
        Ui { main_window: MainWindowState::default(), drawing: false }
    }

    /// The command the drawing tool sends this frame with the cursor at
    /// `cursor`: one while the pointer is drawing, none otherwise.
    pub fn draw_command(&self, cursor: Point<Fixed>) -> (c: Option<SimCommand>)
        requires
            cursor_ok(cursor),
        ensures
            self.drawing ==> c == Some(SimCommand::ScoutArea(self.main_window.draw.spec_area(cursor))),
            !self.drawing ==> c.is_none(),
    {
        if self.drawing {
            Some(self.main_window.draw.on_draw(cursor))
        } else {
            None
        }
    }
}

} // verus!
