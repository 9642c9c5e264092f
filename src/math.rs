pub mod area;
pub mod circle;
pub mod eclipse;
pub mod ema;
pub mod fixed;
pub mod grid;
pub mod point;
pub mod rect;
pub mod rgba;
pub mod screen_coords;
pub mod size;
pub mod world_coords;
