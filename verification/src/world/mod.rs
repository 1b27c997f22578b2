//! The dungeon world: its own tile kinds and the layout of its level.

pub mod tilemap;
pub mod level_loader;
pub mod tile_animator;
