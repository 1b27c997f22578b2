//! Character-to-tile mappings for tilesets laid out as a sixteen-column
//! grid, indexed row by row.
use vstd::prelude::*;
use crate::table::Table;
use super::tilemap::{
    add_standard_definitions, definition_is, standard_definitions_hold, still_tile, LayerType, TileDefinition,
    TileType,
};

verus! {

/// Number of tile columns in the tileset sheet that tile indices address.
pub const TILESET_COLUMNS: usize = 16;

/// The index of the tile at `row`, `column` of a sixteen-column tileset.
pub open spec fn spec_tile_index(row: int, column: int) -> int {
    row * 16 + column
}

/// Index of the tile at `row`, `column` of the tileset (row-major, sixteen columns).
pub fn tile_index(row: usize, column: usize) -> (index: usize)
    requires
        spec_tile_index(row as int, column as int) <= usize::MAX,
    ensures
        index == spec_tile_index(row as int, column as int),
{
    row * 16 + column
}

/// The mapping for tilesets drawn in Pyxel Edit: the standard definitions
/// plus `W`, a second wall variant at row 1, column 2.
pub fn create_pyxel_edit_config() -> (definitions: Table<char, TileDefinition>)
    ensures
        definitions.as_map().dom() == set!['.', '#', 'D', 'C', '^', '~', 'L', 'g', 's', 'w', 'P', 'W'],
        standard_definitions_hold(definitions.as_map()),
        definition_is(definitions.as_map()['W'], TileType::Wall, 18, false, false, seq![], 0, LayerType::Collision),
{
    let mut definitions = Table::new();
    definitions.insert('W', still_tile(TileType::Wall, tile_index(1, 2), false, LayerType::Collision));
    assert(definitions.as_map().contains_key('W'));
    assert(!set!['.', '#', 'D', 'C', '^', '~', 'L', 'g', 's', 'w', 'P'].contains('W'));
    add_standard_definitions(&mut definitions);
    assert(definitions.as_map().dom() =~= set!['.', '#', 'D', 'C', '^', '~', 'L', 'g', 's', 'w', 'P', 'W']);
    definitions
}

/// A custom mapping with a single entry: `a` is a floor drawn with the
/// tileset's top-left tile.
pub fn create_custom_mapping() -> (definitions: Table<char, TileDefinition>)
    ensures
        definitions.as_map().dom() == set!['a'],
        definition_is(definitions.as_map()['a'], TileType::Floor, 0, true, false, seq![], 0, LayerType::Background),
{
    let mut definitions = Table::new();
    definitions.insert('a', still_tile(TileType::Floor, tile_index(0, 0), true, LayerType::Background));
    assert(definitions.as_map().dom() =~= set!['a']);
    definitions
}

} // verus!
