//! Core of a procedurally generated asteroid world: integer and fixed-point
//! geometry, a seeded per-cell hash, the mutable world state, fractional
//! resource accounting, frame rendering, the engine's tick/render decisions
//! and the drawing tool that picks the areas to scout.
pub mod math;
pub mod simulation;
pub mod ui;
