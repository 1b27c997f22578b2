//! Game-rule core of a tile-based action roguelite: tile maps and level
//! layouts, combo scoring, the shop, talent trees, achievements, quests,
//! loot tables, and prestige meta-progression. Rendering, input, timing and
//! randomness live with the engine; this crate holds the decisions.

pub mod table;
pub mod text;
pub mod systems;
pub mod tilemap;
pub mod world;
pub mod animation;
pub mod entities;
pub mod basic_tilemap;
pub mod ui;
