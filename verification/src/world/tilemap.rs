//! World tile kinds and what each is like.
use vstd::prelude::*;

pub use crate::tilemap::level_loader::AnimatedTile;

verus! {

/// Tileset geometry of the world.
pub struct TilemapConfig {
    /// Edge of a tile, in pixels.
    pub tile_size: u32,
    pub tileset_columns: usize,
    pub tileset_rows: usize,
}

impl Default for TilemapConfig {
    /// 32-pixel tiles on a 16 by 16 tileset.
    fn default() -> (c: Self)
        ensures
            c.tile_size == 32,
            c.tileset_columns == 16,
            c.tileset_rows == 16,
    {
        TilemapConfig { tile_size: 32, tileset_columns: 16, tileset_rows: 16 }
    }
}

#[derive(Clone, Copy, PartialEq, Eq, Structural, Debug)]
pub enum TileType {
    Floor,
    Wall,
    Door,
    Chest,
    Spike,
    Water,
    Portal,
    Lava,
    Grass,
    Stone,
}

/// A world tile.
#[derive(Clone, Copy, PartialEq, Eq, Structural, Debug)]
pub struct Tile {
    pub tile_type: TileType,
    pub walkable: bool,
    pub tile_index: usize,
}

/// Walls, chests and lava block; every other kind (water and spikes
/// included) can be walked on.
pub open spec fn spec_walkable(t: TileType) -> bool {
    !(t == TileType::Wall || t == TileType::Chest || t == TileType::Lava)
}

/// The tileset image of each kind.
pub open spec fn spec_tile_index(t: TileType) -> usize {
    match t {
        TileType::Floor => 1,
        TileType::Grass => 2,
        TileType::Stone => 3,
        TileType::Wall => 17,
        TileType::Door => 33,
        TileType::Chest => 37,
        TileType::Spike => 41,
        TileType::Water => 45,
        TileType::Lava => 49,
        TileType::Portal => 53,
    }
}

impl Tile {
    /// The tile of a kind, with the kind's walkability and image.
    pub fn new(tile_type: TileType) -> (tile: Self)
        ensures
            tile.tile_type == tile_type,
            tile.walkable == spec_walkable(tile_type),
            tile.tile_index == spec_tile_index(tile_type),
    {
        let walkable = match tile_type {
            TileType::Floor | TileType::Door | TileType::Grass | TileType::Stone => true,
            TileType::Wall | TileType::Chest | TileType::Lava => false,
            TileType::Spike | TileType::Portal | TileType::Water => true,
        };
        let tile_index = match tile_type {
            TileType::Floor => 1,
            TileType::Grass => 2,
            TileType::Stone => 3,
            TileType::Wall => 17,
            TileType::Door => 33,
            TileType::Chest => 37,
            TileType::Spike => 41,
            TileType::Water => 45,
            TileType::Lava => 49,
            TileType::Portal => 53,
        };
        Tile { tile_type, walkable, tile_index }
    }
}

/// How a marker on an entity changes.
#[derive(Clone, Copy, PartialEq, Eq, Structural, Debug)]
pub enum MarkerChange {
    Add,
    Remove,
    Keep,
}

/// The spike marker follows whether the entity stands on spikes: it is
/// added when the entity steps on and lacks it, removed when it steps off
/// and has it.
pub fn spike_marker_change(on_spikes: bool, has_marker: bool) -> (change: MarkerChange)
    ensures
        change == (if on_spikes && !has_marker {
            MarkerChange::Add
        } else if !on_spikes && has_marker {
            MarkerChange::Remove
        } else {
            MarkerChange::Keep
        }),
{
    if on_spikes && !has_marker {
        MarkerChange::Add
    } else if !on_spikes && has_marker {
        MarkerChange::Remove
    } else {
        MarkerChange::Keep
    }
}

/// After the change, the entity has the marker exactly when it is on spikes.
pub proof fn lemma_marker_follows(on_spikes: bool, has_marker: bool)
    ensures
        ({
            let change = if on_spikes && !has_marker {
                MarkerChange::Add
            } else if !on_spikes && has_marker {
                MarkerChange::Remove
            } else {
                MarkerChange::Keep
            };
            let after = match change {
                MarkerChange::Add => true,
                MarkerChange::Remove => false,
                MarkerChange::Keep => has_marker,
            };
            after == on_spikes
        }),
{
}

} // verus!
