//! The tile map: tile kinds and their definitions, parsing a map text into
//! a grid, the entities a level spawns, and tile animation.

pub mod tilemap;
pub mod tilemap_config;
pub mod level_loader;
pub mod pyxel_helper;
pub mod tile_animator;
