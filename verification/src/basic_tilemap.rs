//! A small tile map with six tile kinds, read from a map text or from a
//! grid of tileset indices.
use vstd::prelude::*;
use crate::text::{byte_len, chars_of, lines_of, seqs_view, spec_lines, spec_utf8_len, utf8_len};

verus! {

#[derive(Clone, Copy, PartialEq, Eq, Structural, Debug)]
pub enum TileType {
    Floor,
    Wall,
    Door,
    Chest,
    Spike,
    Water,
}

/// A placed tile.
#[derive(Clone, Copy, PartialEq, Eq, Structural, Debug)]
pub struct Tile {
    pub tile_type: TileType,
    pub walkable: bool,
    pub tile_index: usize,
}

/// Tileset geometry.
#[derive(Clone, Copy, PartialEq, Eq, Structural, Debug)]
pub struct TilemapConfig {
    /// Edge of a tile, in pixels.
    pub tile_size: u32,
    pub tileset_columns: usize,
    pub tileset_rows: usize,
}

impl Default for TilemapConfig {
    /// 32-pixel tiles on a 16 by 16 tileset.
    fn default() -> (c: Self)
        ensures
            c == (TilemapConfig { tile_size: 32, tileset_columns: 16, tileset_rows: 16 }),
    {
        TilemapConfig { tile_size: 32, tileset_columns: 16, tileset_rows: 16 }
    }
}

/// The tileset image of each kind.
pub open spec fn spec_tile_index(t: TileType) -> usize {
    match t {
        TileType::Floor => 1,
        TileType::Wall => 17,
        TileType::Door => 33,
        TileType::Chest => 37,
        TileType::Spike => 41,
        TileType::Water => 45,
    }
}

/// The tileset image of a kind.
pub fn get_tile_index(tile_type: TileType) -> (index: usize)
    ensures
        index == spec_tile_index(tile_type),
{
    match tile_type {
        TileType::Floor => 1,
        TileType::Wall => 17,
        TileType::Door => 33,
        TileType::Chest => 37,
        TileType::Spike => 41,
        TileType::Water => 45,
    }
}

/// Only floors and doors can be walked on.
pub fn is_walkable(tile_type: TileType) -> (walkable: bool)
    ensures
        walkable == (tile_type == TileType::Floor || tile_type == TileType::Door),
{
    match tile_type {
        TileType::Floor | TileType::Door => true,
        TileType::Wall | TileType::Chest | TileType::Spike | TileType::Water => false,
    }
}

/// The tile of a kind, as it is placed.
pub fn make_tile(tile_type: TileType) -> (tile: Tile)
    ensures
        tile == (Tile {
            tile_type,
            walkable: tile_type == TileType::Floor || tile_type == TileType::Door,
            tile_index: spec_tile_index(tile_type),
        }),
{
    Tile { tile_type, walkable: is_walkable(tile_type), tile_index: get_tile_index(tile_type) }
}

/// A grid of tile kinds; `None` where there is no tile.
pub struct Tilemap {
    pub width: usize,
    pub height: usize,
    pub tiles: Vec<Vec<Option<TileType>>>,
}

/// The kind a map character stands for.
pub open spec fn spec_char_tile(c: char) -> Option<TileType> {
    if c == '#' {
        Some(TileType::Wall)
    } else if c == '.' {
        Some(TileType::Floor)
    } else if c == 'D' {
        Some(TileType::Door)
    } else if c == 'C' {
        Some(TileType::Chest)
    } else if c == '^' {
        Some(TileType::Spike)
    } else if c == '~' {
        Some(TileType::Water)
    } else {
        None
    }
}

/// The kind a tileset index stands for: 0 is empty, and each kind owns a
/// run of indices (floors 1-16, walls 17-32, doors 33-36, chests 37-40,
/// spikes 41-44, water 45-48); higher indices are empty.
pub open spec fn spec_index_tile(index: usize) -> Option<TileType> {
    if index == 0 {
        None
    } else if index <= 16 {
        Some(TileType::Floor)
    } else if index <= 32 {
        Some(TileType::Wall)
    } else if index <= 36 {
        Some(TileType::Door)
    } else if index <= 40 {
        Some(TileType::Chest)
    } else if index <= 44 {
        Some(TileType::Spike)
    } else if index <= 48 {
        Some(TileType::Water)
    } else {
        None
    }
}

/// The width a map text gives its grid: the first line's length in bytes.
pub open spec fn spec_text_width(s: Seq<char>) -> nat {
    let lines = spec_lines(s);
    if lines.len() == 0 { 0 } else { spec_utf8_len(lines[0]) }
}

/// The width a grid of indices gives its map: its first row's length.
pub open spec fn spec_rows_width(rows: Seq<Seq<usize>>) -> nat {
    if rows.len() == 0 { 0 } else { rows[0].len() }
}

impl Tilemap {
    /// `height` rows of `width` cells each.
    pub open spec fn well_formed(&self) -> bool {
        &&& self.tiles@.len() == self.height
        &&& forall|y: int| 0 <= y < self.height ==> #[trigger] self.tiles@[y]@.len() == self.width
    }

    /// Reads a map text: one grid row per line, as wide as the first line
    /// in bytes; each character that names a kind becomes that tile, any
    /// other leaves the cell empty, and cells past a line's end stay empty.
    /// No line may hold more characters than the grid is wide.
    pub fn from_string(map_string: &str) -> (map: Self)
        requires
            forall|y: int| 0 <= y < spec_lines(map_string@).len()
                ==> (#[trigger] spec_lines(map_string@)[y]).len() <= spec_text_width(map_string@),
        ensures
            map.well_formed(),
            map.height == spec_lines(map_string@).len(),
            map.width == spec_text_width(map_string@),
            forall|y: int, x: int| 0 <= y < map.height && 0 <= x < map.width ==> #[trigger] map.tiles@[y]@[x]
                == if x < spec_lines(map_string@)[y].len() { spec_char_tile(spec_lines(map_string@)[y][x]) } else { None },
    {
        let total: usize = byte_len(map_string);
        let chars = chars_of(map_string);
        let lines = lines_of(&chars);
        let ghost all = spec_lines(map_string@);
        assert(seqs_view(lines@) == all);
        let width: usize = if lines.len() == 0 {
            0
        } else {
            assert(all[0] == lines@[0]@);
            utf8_len(&lines[0])
        };
        let height = lines.len();
        let mut tiles: Vec<Vec<Option<TileType>>> = Vec::new();
        let mut y: usize = 0;
        while y < height
            invariant
                y <= height,
                height == lines@.len(),
                seqs_view(lines@) == all,
                width == spec_text_width(map_string@),
                all == spec_lines(map_string@),
                forall|k: int| 0 <= k < all.len() ==> (#[trigger] all[k]).len() <= width,
                tiles@.len() == y,
                forall|k: int| 0 <= k < y ==> #[trigger] tiles@[k]@.len() == width,
                forall|k: int, x: int| 0 <= k < y && 0 <= x < width ==> #[trigger] tiles@[k]@[x]
                    == if x < all[k].len() { spec_char_tile(all[k][x]) } else { None },
            decreases height - y,
        {
            assert(all[y as int] == lines@[y as int]@);
            let line = &lines[y];
            let mut row: Vec<Option<TileType>> = Vec::new();
            let mut x: usize = 0;
            while x < width
                invariant
                    x <= width,
                    line@.len() <= width,
                    row@.len() == x,
                    forall|k: int| 0 <= k < x ==> #[trigger] row@[k]
                        == if k < line@.len() { spec_char_tile(line@[k]) } else { None },
                decreases width - x,
            {
                if x < line.len() {
                    row.push(char_tile(line[x]));
                } else {
                    row.push(None);
                }
                x = x + 1;
            }
            tiles.push(row);
            y = y + 1;
        }
        Tilemap { width, height, tiles }
    }

    /// Reads a grid of tileset indices: as many rows as given, as wide as
    /// the first; each index becomes the kind it stands for and cells past
    /// a row's end stay empty. No row may be longer than the first.
    pub fn from_indices(map_data: Vec<Vec<usize>>) -> (map: Self)
        requires
            forall|y: int| 0 <= y < map_data@.len() ==> (#[trigger] map_data@[y])@.len() <= spec_rows_width(
                seqs_of(map_data@),
            ),
        ensures
            map.well_formed(),
            map.height == map_data@.len(),
            map.width == spec_rows_width(seqs_of(map_data@)),
            forall|y: int, x: int| 0 <= y < map.height && 0 <= x < map.width ==> #[trigger] map.tiles@[y]@[x]
                == if x < map_data@[y]@.len() { spec_index_tile(map_data@[y]@[x]) } else { None },
    {
        let height = map_data.len();
        let width: usize = if height == 0 { 0 } else { map_data[0].len() };
        let mut tiles: Vec<Vec<Option<TileType>>> = Vec::new();
        let mut y: usize = 0;
        while y < height
            invariant
                y <= height,
                height == map_data@.len(),
                width == spec_rows_width(seqs_of(map_data@)),
                forall|k: int| 0 <= k < map_data@.len() ==> (#[trigger] map_data@[k])@.len() <= width,
                tiles@.len() == y,
                forall|k: int| 0 <= k < y ==> #[trigger] tiles@[k]@.len() == width,
                forall|k: int, x: int| 0 <= k < y && 0 <= x < width ==> #[trigger] tiles@[k]@[x]
                    == if x < map_data@[k]@.len() { spec_index_tile(map_data@[k]@[x]) } else { None },
            decreases height - y,
        {
            let row_data = &map_data[y];
            assert(row_data@.len() <= width);
            let mut row: Vec<Option<TileType>> = Vec::new();
            let mut x: usize = 0;
            while x < width
                invariant
                    x <= width,
                    row_data@.len() <= width,
                    row@.len() == x,
                    forall|k: int| 0 <= k < x ==> #[trigger] row@[k]
                        == if k < row_data@.len() { spec_index_tile(row_data@[k]) } else { None },
                decreases width - x,
            {
                if x < row_data.len() {
                    row.push(index_tile(row_data[x]));
                } else {
                    row.push(None);
                }
                x = x + 1;
            }
            tiles.push(row);
            y = y + 1;
        }
        Tilemap { width, height, tiles }
    }
}

/// The views of the rows of a grid of indices.
pub open spec fn seqs_of(rows: Seq<Vec<usize>>) -> Seq<Seq<usize>> {
    rows.map_values(|r: Vec<usize>| r@)
}

/// The kind a map character stands for.
pub fn char_tile(c: char) -> (t: Option<TileType>)
    ensures
        t == spec_char_tile(c),
{
    match c {
        '#' => Some(TileType::Wall),
        '.' => Some(TileType::Floor),
        'D' => Some(TileType::Door),
        'C' => Some(TileType::Chest),
        '^' => Some(TileType::Spike),
        '~' => Some(TileType::Water),
        _ => None,
    }
}

/// The kind a tileset index stands for.
pub fn index_tile(index: usize) -> (t: Option<TileType>)
    ensures
        t == spec_index_tile(index),
{
    if index == 0 {
        None
    } else if index <= 16 {
        Some(TileType::Floor)
    } else if index <= 32 {
        Some(TileType::Wall)
    } else if index <= 36 {
        Some(TileType::Door)
    } else if index <= 40 {
        Some(TileType::Chest)
    } else if index <= 44 {
        Some(TileType::Spike)
    } else if index <= 48 {
        Some(TileType::Water)
    } else {
        None
    }
}

/// Every kind's own image stands for that kind again.
pub proof fn lemma_index_round_trip(t: TileType)
    ensures
        spec_index_tile(spec_tile_index(t)) == Some(t),
{
}

} // verus!
