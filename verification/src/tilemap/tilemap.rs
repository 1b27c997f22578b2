//! Tile kinds, tile definitions keyed by map character, and the grid that a
//! map text parses into.
use vstd::prelude::*;
use crate::table::Table;
use crate::text::{
    byte_len, chars_of, lemma_trim_end_prefix, lemma_utf8_prefix, lines_of, seqs_view, spec_lines,
    spec_trim_end, spec_utf8_len, trim_end, utf8_len,
};

verus! {

#[derive(Clone, Copy, PartialEq, Eq, Structural, Debug)]
pub enum TileType {
    Empty,
    Floor,
    Wall,
    Door,
    Chest,
    Spike,
    Water,
    Lava,
    Grass,
    Stone,
    Wood,
    Portal,
}

#[derive(Clone, Copy, PartialEq, Eq, Structural, Debug)]
pub enum LayerType {
    Background,
    Collision,
    Decoration,
    Overlay,
}

/// A placed tile.
#[derive(Clone, Copy, PartialEq, Eq, Structural, Debug)]
pub struct Tile {
    pub tile_type: TileType,
    pub walkable: bool,
    pub tile_index: usize,
    pub layer: LayerType,
}

/// How a map character is drawn and behaves.
#[derive(Clone, Debug)]
pub struct TileDefinition {
    pub tile_type: TileType,
    pub base_index: usize,
    pub walkable: bool,
    pub animated: bool,
    pub animation_frames: Vec<usize>,
    /// Seconds per animation frame, in thousandths.
    pub animation_speed: u32,
    pub layer: LayerType,
}

/// The tileset geometry and the definition of each map character.
pub struct TilemapConfig {
    /// Edge of a tile, in pixels.
    pub tile_size: u32,
    pub tileset_columns: usize,
    pub tileset_rows: usize,
    pub tile_definitions: Table<char, TileDefinition>,
}

/// `d` has exactly these properties.
pub open spec fn definition_is(
    d: TileDefinition,
    tile_type: TileType,
    base_index: usize,
    walkable: bool,
    animated: bool,
    frames: Seq<usize>,
    speed: u32,
    layer: LayerType,
) -> bool {
    &&& d.tile_type == tile_type
    &&& d.base_index == base_index
    &&& d.walkable == walkable
    &&& d.animated == animated
    &&& d.animation_frames@ == frames
    &&& d.animation_speed == speed
    &&& d.layer == layer
}

/// A tile that is drawn with one fixed image.
pub fn still_tile(tile_type: TileType, base_index: usize, walkable: bool, layer: LayerType) -> (d: TileDefinition)
    ensures
        definition_is(d, tile_type, base_index, walkable, false, seq![], 0, layer),
{
    let d = TileDefinition {
        tile_type,
        base_index,
        walkable,
        animated: false,
        animation_frames: Vec::new(),
        animation_speed: 0,
        layer,
    };
    assert(d.animation_frames@ =~= Seq::<usize>::empty());
    d
}

/// A tile that cycles through the four tileset images starting at
/// `base_index`, `speed` thousandths of a second each.
pub fn animated_tile(tile_type: TileType, base_index: usize, walkable: bool, speed: u32, layer: LayerType) -> (d: TileDefinition)
    requires
        base_index + 3 <= usize::MAX,
    ensures
        definition_is(
            d,
            tile_type,
            base_index,
            walkable,
            true,
            seq![base_index, (base_index + 1) as usize, (base_index + 2) as usize, (base_index + 3) as usize],
            speed,
            layer,
        ),
{
    let mut frames: Vec<usize> = Vec::new();
    frames.push(base_index);
    frames.push(base_index + 1);
    frames.push(base_index + 2);
    frames.push(base_index + 3);
    let d = TileDefinition { tile_type, base_index, walkable, animated: true, animation_frames: frames, animation_speed: speed, layer };
    assert(d.animation_frames@ =~= seq![base_index, (base_index + 1) as usize, (base_index + 2) as usize, (base_index + 3) as usize]);
    d
}

/// The definitions every map knows, keyed by their map character.
pub open spec fn standard_definitions_hold(t: Map<char, TileDefinition>) -> bool {
    &&& definition_is(t['.'], TileType::Floor, 1, true, false, seq![], 0, LayerType::Background)
    &&& definition_is(t['#'], TileType::Wall, 17, false, false, seq![], 0, LayerType::Collision)
    &&& definition_is(t['D'], TileType::Door, 33, true, false, seq![], 0, LayerType::Collision)
    &&& definition_is(t['C'], TileType::Chest, 37, false, false, seq![], 0, LayerType::Decoration)
    &&& definition_is(t['^'], TileType::Spike, 41, true, false, seq![], 0, LayerType::Decoration)
    &&& definition_is(t['~'], TileType::Water, 45, false, true, seq![45usize, 46, 47, 48], 500, LayerType::Background)
    &&& definition_is(t['L'], TileType::Lava, 49, false, true, seq![49usize, 50, 51, 52], 300, LayerType::Background)
    &&& definition_is(t['g'], TileType::Grass, 2, true, false, seq![], 0, LayerType::Background)
    &&& definition_is(t['s'], TileType::Stone, 3, true, false, seq![], 0, LayerType::Background)
    &&& definition_is(t['w'], TileType::Wood, 4, true, false, seq![], 0, LayerType::Background)
    &&& definition_is(t['P'], TileType::Portal, 53, true, true, seq![53usize, 54, 55, 56], 200, LayerType::Decoration)
}

/// Adds the standard definitions to `t`.
pub fn add_standard_definitions(t: &mut Table<char, TileDefinition>)
    ensures
        final(t).as_map().dom() == old(t).as_map().dom() + set!['.', '#', 'D', 'C', '^', '~', 'L', 'g', 's', 'w', 'P'],
        standard_definitions_hold(final(t).as_map()),
        forall|c: char| #[trigger] old(t).as_map().contains_key(c)
            && !set!['.', '#', 'D', 'C', '^', '~', 'L', 'g', 's', 'w', 'P'].contains(c)
            ==> final(t).as_map()[c] == old(t).as_map()[c],
{
    t.insert('.', still_tile(TileType::Floor, 1, true, LayerType::Background));
    t.insert('#', still_tile(TileType::Wall, 17, false, LayerType::Collision));
    t.insert('D', still_tile(TileType::Door, 33, true, LayerType::Collision));
    t.insert('C', still_tile(TileType::Chest, 37, false, LayerType::Decoration));
    t.insert('^', still_tile(TileType::Spike, 41, true, LayerType::Decoration));
    t.insert('~', animated_tile(TileType::Water, 45, false, 500, LayerType::Background));
    t.insert('L', animated_tile(TileType::Lava, 49, false, 300, LayerType::Background));
    t.insert('g', still_tile(TileType::Grass, 2, true, LayerType::Background));
    t.insert('s', still_tile(TileType::Stone, 3, true, LayerType::Background));
    t.insert('w', still_tile(TileType::Wood, 4, true, LayerType::Background));
    t.insert('P', animated_tile(TileType::Portal, 53, true, 200, LayerType::Decoration));
    assert(final(t).as_map().dom() =~= old(t).as_map().dom() + set!['.', '#', 'D', 'C', '^', '~', 'L', 'g', 's', 'w', 'P']);
}

impl Default for TilemapConfig {
    /// 32-pixel tiles on a 16 by 16 tileset, with the standard definitions.
    fn default() -> (c: Self)
        ensures
            c.tile_size == 32,
            c.tileset_columns == 16,
            c.tileset_rows == 16,
            c.tile_definitions.as_map().dom() == set!['.', '#', 'D', 'C', '^', '~', 'L', 'g', 's', 'w', 'P'],
            standard_definitions_hold(c.tile_definitions.as_map()),
    {
        let mut definitions = Table::new();
        add_standard_definitions(&mut definitions);
        assert(definitions.as_map().dom() =~= set!['.', '#', 'D', 'C', '^', '~', 'L', 'g', 's', 'w', 'P']);
        TilemapConfig { tile_size: 32, tileset_columns: 16, tileset_rows: 16, tile_definitions: definitions }
    }
}

/// A grid of map characters; `None` where the map is blank.
pub struct Tilemap {
    pub width: usize,
    pub height: usize,
    pub tiles: Vec<Vec<Option<char>>>,
}

/// The rows of a map: each line with trailing white space removed, blank
/// lines dropped.
pub open spec fn spec_rows_of(lines: Seq<Seq<char>>) -> Seq<Seq<char>>
    decreases lines.len(),
{
    if lines.len() == 0 {
        Seq::empty()
    } else {
        let rest = spec_rows_of(lines.drop_last());
        let t = spec_trim_end(lines.last());
        if t.len() > 0 { rest.push(t) } else { rest }
    }
}

/// The rows of the map text `s`.
pub open spec fn spec_map_rows(s: Seq<char>) -> Seq<Seq<char>> {
    spec_rows_of(spec_lines(s))
}

/// The widest row, measured in UTF-8 bytes (0 for no rows).
pub open spec fn spec_max_width(rows: Seq<Seq<char>>) -> nat
    decreases rows.len(),
{
    if rows.len() == 0 {
        0
    } else {
        let rest = spec_max_width(rows.drop_last());
        let w = spec_utf8_len(rows.last());
        if w > rest { w } else { rest }
    }
}

/// The cell at column `x` of a row: blank past its end and where it holds a space.
pub open spec fn spec_cell(row: Seq<char>, x: int) -> Option<char> {
    if 0 <= x < row.len() && row[x] != ' ' { Some(row[x]) } else { None }
}

impl Tilemap {
    /// The grid as nested sequences.
    pub open spec fn cells(&self) -> Seq<Seq<Option<char>>> {
        self.tiles@.map_values(|r: Vec<Option<char>>| r@)
    }

    /// `height` rows of `width` cells each.
    pub open spec fn well_formed(&self) -> bool {
        &&& self.tiles@.len() == self.height
        &&& forall|y: int| 0 <= y < self.height ==> #[trigger] self.tiles@[y]@.len() == self.width
    }

    /// Parses a map text: one grid row per non-blank line (trailing white
    /// space dropped), as wide as the widest line in bytes; a space is a
    /// blank cell, any other character is kept.
    pub fn from_string(map_string: &str) -> (map: Self)
        ensures
            map.well_formed(),
            map.height == spec_map_rows(map_string@).len(),
            map.width == spec_max_width(spec_map_rows(map_string@)),
            forall|y: int, x: int| 0 <= y < map.height && 0 <= x < map.width
                ==> #[trigger] map.tiles@[y]@[x] == spec_cell(spec_map_rows(map_string@)[y], x),
    {
        let total: usize = byte_len(map_string);
        let chars = chars_of(map_string);
        let lines = lines_of(&chars);
        let ghost all = spec_lines(map_string@);
        // Collect the rows and the widest row's byte length.
        let mut rows: Vec<Vec<char>> = Vec::new();
        let mut width: usize = 0;
        let mut i: usize = 0;
        while i < lines.len()
            invariant
                i <= lines@.len(),
                seqs_view(lines@) == all,
                all == spec_lines(chars@),
                chars@ == map_string@,
                total == spec_utf8_len(chars@),
                forall|j: int| 0 <= j < lines@.len() ==> spec_utf8_len(#[trigger] lines@[j]@) <= spec_utf8_len(chars@),
                seqs_view(rows@) == spec_rows_of(all.take(i as int)),
                width == spec_max_width(spec_rows_of(all.take(i as int))),
                width <= total,
            decreases lines@.len() - i,
        {
            let ghost line = lines@[i as int]@;
            assert(all[i as int] == line);
            assert(all.take(i as int + 1).drop_last() =~= all.take(i as int));
            assert(all.take(i as int + 1).last() == line);
            let copy = copy_chars(&lines[i]);
            let trimmed = trim_end(copy);
            proof {
                lemma_trim_end_prefix(line);
                lemma_utf8_prefix(line, trimmed@.len() as int);
            }
            if trimmed.len() > 0 {
                let w = utf8_len(&trimmed);
                let ghost before = rows@;
                rows.push(trimmed);
                assert(seqs_view(rows@) =~= seqs_view(before).push(spec_trim_end(line)));
                let ghost new_rows = spec_rows_of(all.take(i as int + 1));
                assert(new_rows.drop_last() =~= spec_rows_of(all.take(i as int)));
                if w > width {
                    width = w;
                }
            }
            i = i + 1;
        }
        assert(all.take(i as int) =~= all);
        let ghost rs = spec_map_rows(map_string@);
        // Lay the rows out on the grid.
        let height = rows.len();
        let mut tiles: Vec<Vec<Option<char>>> = Vec::new();
        let mut y: usize = 0;
        while y < height
            invariant
                y <= height,
                height == rows@.len(),
                seqs_view(rows@) == rs,
                width == spec_max_width(rs),
                tiles@.len() == y,
                forall|k: int| 0 <= k < y ==> #[trigger] tiles@[k]@.len() == width,
                forall|k: int, x: int| 0 <= k < y && 0 <= x < width
                    ==> #[trigger] tiles@[k]@[x] == spec_cell(rs[k], x),
            decreases height - y,
        {
            assert(rs[y as int] == rows@[y as int]@);
            let row = grid_row(&rows[y], width);
            tiles.push(row);
            y = y + 1;
        }
        Tilemap { width, height, tiles }
    }
}

/// A copy of a character vector.
fn copy_chars(v: &Vec<char>) -> (c: Vec<char>)
    ensures
        c@ == v@,
{
    let mut c: Vec<char> = Vec::new();
    let mut i: usize = 0;
    while i < v.len()
        invariant
            i <= v@.len(),
            c@ == v@.take(i as int),
        decreases v@.len() - i,
    {
        c.push(v[i]);
        i = i + 1;
        assert(c@ =~= v@.take(i as int));
    }
    assert(v@.take(i as int) =~= v@);
    c
}

/// One grid row of `width` cells for a map row.
fn grid_row(row: &Vec<char>, width: usize) -> (cells: Vec<Option<char>>)
    ensures
        cells@.len() == width,
        forall|x: int| 0 <= x < width ==> #[trigger] cells@[x] == spec_cell(row@, x),
{
    let mut cells: Vec<Option<char>> = Vec::new();
    let mut x: usize = 0;
    while x < width
        invariant
            x <= width,
            cells@.len() == x,
            forall|k: int| 0 <= k < x ==> #[trigger] cells@[k] == spec_cell(row@, k),
        decreases width - x,
    {
        if x < row.len() && row[x] != ' ' {
            cells.push(Some(row[x]));
        } else {
            cells.push(None);
        }
        x = x + 1;
    }
    cells
}

} // verus!
