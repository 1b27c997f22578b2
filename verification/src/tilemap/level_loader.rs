//! What a level spawns: for every defined map cell, the tile with its
//! animation, collision, damage and interaction parts.
use vstd::prelude::*;
use crate::table::Table;
use crate::text::str_eq;
use super::tilemap::{LayerType, Tile, TileDefinition, TileType, Tilemap, TilemapConfig, spec_cell, spec_map_rows, spec_max_width};

verus! {

/// A tile that cycles through tileset images.
pub struct AnimatedTile {
    pub frames: Vec<usize>,
    pub current_frame: usize,
    /// Time each frame shows, in thousandths of a second.
    pub frame_time: u32,
}

/// Damage dealt to whoever stands on the tile.
#[derive(Clone, Copy, PartialEq, Eq, Structural, Debug)]
pub struct DamageZone {
    pub damage: i32,
}

#[derive(Clone, Copy, PartialEq, Eq, Structural, Debug)]
pub enum InteractionType {
    Door,
    Chest,
    Portal,
}

/// A tile the player can interact with.
#[derive(Clone, Copy, PartialEq, Eq, Structural, Debug)]
pub struct Interactive {
    pub interaction_type: InteractionType,
}

/// Everything spawned for one map cell at column `x`, row `y` (row 0 on top).
pub struct TileSpawn {
    pub x: usize,
    pub y: usize,
    pub tile: Tile,
    pub animation: Option<AnimatedTile>,
    pub collider: bool,
    pub damage: Option<DamageZone>,
    pub interactive: Option<Interactive>,
}

/// Hazards: spikes deal 10, lava 20.
pub open spec fn spec_damage(t: TileType) -> Option<DamageZone> {
    match t {
        TileType::Spike => Some(DamageZone { damage: 10 }),
        TileType::Lava => Some(DamageZone { damage: 20 }),
        _ => None,
    }
}

/// Doors, chests and portals can be interacted with.
pub open spec fn spec_interaction(t: TileType) -> Option<Interactive> {
    match t {
        TileType::Door => Some(Interactive { interaction_type: InteractionType::Door }),
        TileType::Chest => Some(Interactive { interaction_type: InteractionType::Chest }),
        TileType::Portal => Some(Interactive { interaction_type: InteractionType::Portal }),
        _ => None,
    }
}

/// `s` is what the definition `d` spawns at `x`, `y`: the tile, its
/// animation starting on the first frame when `d` is animated, a collider
/// for walls that block, and the hazard and interaction of its kind.
pub open spec fn spawn_matches(s: TileSpawn, d: TileDefinition, x: int, y: int) -> bool {
    &&& s.x == x
    &&& s.y == y
    &&& s.tile == Tile { tile_type: d.tile_type, walkable: d.walkable, tile_index: d.base_index, layer: d.layer }
    &&& match s.animation {
        Some(a) => d.animated && a.frames@ == d.animation_frames@ && a.current_frame == 0
            && a.frame_time == d.animation_speed,
        None => !d.animated,
    }
    &&& s.collider == (!d.walkable && d.tile_type == TileType::Wall)
    &&& s.damage == spec_damage(d.tile_type)
    &&& s.interactive == spec_interaction(d.tile_type)
}

/// The columns of one row whose cell holds a defined character, left to right.
pub open spec fn spec_row_positions(row: Seq<Option<char>>, defs: Map<char, TileDefinition>, y: int) -> Seq<(int, int)>
    decreases row.len(),
{
    if row.len() == 0 {
        Seq::empty()
    } else {
        let rest = spec_row_positions(row.drop_last(), defs, y);
        match row.last() {
            Some(c) => if defs.contains_key(c) { rest.push((row.len() - 1, y)) } else { rest },
            None => rest,
        }
    }
}

/// The cells holding a defined character, row by row from the top.
pub open spec fn spec_grid_positions(cells: Seq<Seq<Option<char>>>, defs: Map<char, TileDefinition>) -> Seq<(int, int)>
    decreases cells.len(),
{
    if cells.len() == 0 {
        Seq::empty()
    } else {
        spec_grid_positions(cells.drop_last(), defs) + spec_row_positions(cells.last(), defs, cells.len() - 1)
    }
}

/// The character at a position of the grid.
pub open spec fn spec_char_at(cells: Seq<Seq<Option<char>>>, pos: (int, int)) -> char {
    cells[pos.1][pos.0]->Some_0
}

/// The spawns of a grid: one per cell holding a defined character, in row
/// order, each matching its character's definition.
pub open spec fn spawns_for(spawns: Seq<TileSpawn>, cells: Seq<Seq<Option<char>>>, defs: Map<char, TileDefinition>) -> bool {
    let pos = spec_grid_positions(cells, defs);
    &&& spawns.len() == pos.len()
    &&& forall|i: int| 0 <= i < pos.len()
        ==> spawn_matches(#[trigger] spawns[i], defs[spec_char_at(cells, pos[i])], pos[i].0, pos[i].1)
}

/// Every position listed for a row lies in it and holds a defined character.
pub proof fn lemma_row_positions_valid(row: Seq<Option<char>>, defs: Map<char, TileDefinition>, y: int)
    ensures
        forall|i: int| 0 <= i < spec_row_positions(row, defs, y).len() ==> {
            let p = #[trigger] spec_row_positions(row, defs, y)[i];
            &&& p.1 == y
            &&& 0 <= p.0 < row.len()
            &&& row[p.0] is Some
            &&& defs.contains_key(row[p.0]->Some_0)
        },
    decreases row.len(),
{
    if row.len() > 0 {
        lemma_row_positions_valid(row.drop_last(), defs, y);
    }
}

/// A copy of a list of tileset indices.
fn copy_frames(v: &Vec<usize>) -> (c: Vec<usize>)
    ensures
        c@ == v@,
{
    let mut c: Vec<usize> = Vec::new();
    let mut i: usize = 0;
    while i < v.len()
        invariant
            i <= v@.len(),
            c@ == v@.take(i as int),
        decreases v@.len() - i,
    {
        c.push(v[i]);
        i = i + 1;
        assert(c@ =~= v@.take(i as int));
    }
    assert(v@.take(i as int) =~= v@);
    c
}

/// What the definition `d` spawns at `x`, `y`.
pub fn tile_spawn(d: &TileDefinition, x: usize, y: usize) -> (s: TileSpawn)
    ensures
        spawn_matches(s, *d, x as int, y as int),
{
    let animation = if d.animated {
        Some(AnimatedTile { frames: copy_frames(&d.animation_frames), current_frame: 0, frame_time: d.animation_speed })
    } else {
        None
    };
    let damage = match d.tile_type {
        TileType::Spike => Some(DamageZone { damage: 10 }),
        TileType::Lava => Some(DamageZone { damage: 20 }),
        _ => None,
    };
    let interactive = match d.tile_type {
        TileType::Door => Some(Interactive { interaction_type: InteractionType::Door }),
        TileType::Chest => Some(Interactive { interaction_type: InteractionType::Chest }),
        TileType::Portal => Some(Interactive { interaction_type: InteractionType::Portal }),
        _ => None,
    };
    TileSpawn {
        x,
        y,
        tile: Tile { tile_type: d.tile_type, walkable: d.walkable, tile_index: d.base_index, layer: d.layer },
        animation,
        collider: !d.walkable && d.tile_type == TileType::Wall,
        damage,
        interactive,
    }
}

/// The spawns of a map: for each cell, top row first and left to right,
/// that holds a character with a definition, what that definition spawns.
pub fn plan_tile_spawns(map: &Tilemap, definitions: &Table<char, TileDefinition>) -> (spawns: Vec<TileSpawn>)
    requires
        map.well_formed(),
    ensures
        spawns_for(spawns@, map.cells(), definitions.as_map()),
{
    let ghost defs = definitions.as_map();
    let ghost cells = map.cells();
    let mut spawns: Vec<TileSpawn> = Vec::new();
    let mut y: usize = 0;
    while y < map.height
        invariant
            map.well_formed(),
            defs == definitions.as_map(),
            cells == map.cells(),
            y <= map.height,
            spawns_for(spawns@, cells.take(y as int), defs),
        decreases map.height - y,
    {
        let ghost before = spawns@;
        let ghost row = cells[y as int];
        assert(row == map.tiles@[y as int]@);
        let mut x: usize = 0;
        while x < map.width
            invariant
                map.well_formed(),
                defs == definitions.as_map(),
                cells == map.cells(),
                y < map.height,
                x <= map.width,
                row == cells[y as int],
                row.len() == map.width,
                spawns_for(before, cells.take(y as int), defs),
                spawns@.len() == before.len() + spec_row_positions(row.take(x as int), defs, y as int).len(),
                forall|i: int| 0 <= i < before.len() ==> #[trigger] spawns@[i] == before[i],
                forall|i: int| 0 <= i < spec_row_positions(row.take(x as int), defs, y as int).len() ==> {
                    let p = #[trigger] spec_row_positions(row.take(x as int), defs, y as int)[i];
                    spawn_matches(spawns@[before.len() + i], defs[spec_char_at(cells, p)], p.0, p.1)
                },
            decreases map.width - x,
        {
            let ghost prev = spawns@;
            let ghost pos_before = spec_row_positions(row.take(x as int), defs, y as int);
            assert(row.take(x as int + 1).drop_last() =~= row.take(x as int));
            proof {
                lemma_row_positions_valid(row.take(x as int), defs, y as int);
            }
            match map.tiles[y][x] {
                Some(c) => {
                    match definitions.get(&c) {
                        Some(d) => {
                            let s = tile_spawn(d, x, y);
                            spawns.push(s);
                            proof {
                                let pos_after = spec_row_positions(row.take(x as int + 1), defs, y as int);
                                assert(pos_after == pos_before.push((x as int, y as int)));
                                assert forall|i: int| 0 <= i < pos_after.len() implies {
                                    let p = #[trigger] pos_after[i];
                                    spawn_matches(spawns@[before.len() + i], defs[spec_char_at(cells, p)], p.0, p.1)
                                } by {
                                    if i < pos_before.len() {
                                        assert(pos_after[i] == pos_before[i]);
                                        assert(spawns@[before.len() + i] == prev[before.len() + i]);
                                    } else {
                                        assert(spec_char_at(cells, pos_after[i]) == c);
                                    }
                                }
                            }
                        },
                        None => {
                            assert(spec_row_positions(row.take(x as int + 1), defs, y as int) == pos_before);
                        },
                    }
                },
                None => {
                    assert(spec_row_positions(row.take(x as int + 1), defs, y as int) == pos_before);
                },
            }
            x = x + 1;
        }
        proof {
            assert(row.take(x as int) =~= row);
            let grid_before = spec_grid_positions(cells.take(y as int), defs);
            let rp = spec_row_positions(row, defs, y as int);
            assert(cells.take(y as int + 1).drop_last() =~= cells.take(y as int));
            assert(cells.take(y as int + 1).last() == row);
            let grid_after = spec_grid_positions(cells.take(y as int + 1), defs);
            assert(grid_after == grid_before + rp);
            assert forall|i: int| 0 <= i < grid_after.len() implies
                spawn_matches(#[trigger] spawns@[i], defs[spec_char_at(cells.take(y as int + 1), grid_after[i])],
                    grid_after[i].0, grid_after[i].1) by {
                if i < grid_before.len() {
                    assert(grid_after[i] == grid_before[i]);
                    lemma_grid_positions_valid(cells.take(y as int), defs);
                    let p = grid_before[i];
                    assert(spec_char_at(cells.take(y as int + 1), p) == spec_char_at(cells.take(y as int), p));
                } else {
                    let k = i - grid_before.len();
                    assert(grid_after[i] == rp[k]);
                    lemma_row_positions_valid(row, defs, y as int);
                    assert(spec_char_at(cells.take(y as int + 1), rp[k]) == spec_char_at(cells, rp[k]));
                }
            }
        }
        y = y + 1;
    }
    assert(cells.take(y as int) =~= cells);
    spawns
}

/// Every position listed for a grid lies in it and holds a character.
pub proof fn lemma_grid_positions_valid(cells: Seq<Seq<Option<char>>>, defs: Map<char, TileDefinition>)
    ensures
        forall|i: int| 0 <= i < spec_grid_positions(cells, defs).len() ==> {
            let p = #[trigger] spec_grid_positions(cells, defs)[i];
            &&& 0 <= p.1 < cells.len()
            &&& 0 <= p.0 < cells[p.1].len()
            &&& cells[p.1][p.0] is Some
        },
    decreases cells.len(),
{
    if cells.len() > 0 {
        lemma_grid_positions_valid(cells.drop_last(), defs);
        lemma_row_positions_valid(cells.last(), defs, cells.len() - 1);
        let a = spec_grid_positions(cells.drop_last(), defs);
        let b = spec_row_positions(cells.last(), defs, cells.len() - 1);
        assert forall|i: int| 0 <= i < (a + b).len() implies {
            let p = #[trigger] (a + b)[i];
            &&& 0 <= p.1 < cells.len()
            &&& 0 <= p.0 < cells[p.1].len()
            &&& cells[p.1][p.0] is Some
        } by {
            if i < a.len() {
                assert((a + b)[i] == a[i]);
                assert(cells.drop_last()[a[i].1] == cells[a[i].1]);
            } else {
                assert((a + b)[i] == b[i - a.len()]);
            }
        }
    }
}

/// The built-in test level.
pub const TEST_LEVEL: &'static str = "
########################################
#......................................#
#..gggggg..###...###...###.............#
#..gggggg..#.....#.#...#.#.............#
#..gggggg..###...#.#...###.............#
#..........#.....#.#...#.#.............#
#..........#.....###...#.#.............#
#......................................#
#...wwwwww.............................#
#...wwwwww..^^^^.......................#
#...wwwwww.............................#
#..................########............#
#.....CCCC.........ssssssss............#
#..................ssssssss............#
#..................ssssssss............#
#...........P..................~~~~~~~~#
#..............................~~~~~~~~#
#..............................~~~~~~~~#
#...LLLLLLLLLLLLLLLLLL.........~~~~~~~~#
########################################
";

/// A parsed level and everything its cells spawn.
pub struct LevelPlan {
    pub map: Tilemap,
    pub spawns: Vec<TileSpawn>,
}

/// `map` is the grid that parsing `text` gives.
pub open spec fn parsed_from(map: Tilemap, text: Seq<char>) -> bool {
    &&& map.well_formed()
    &&& map.height == spec_map_rows(text).len()
    &&& map.width == spec_max_width(spec_map_rows(text))
    &&& forall|y: int, x: int| 0 <= y < map.height && 0 <= x < map.width
        ==> #[trigger] map.tiles@[y]@[x] == spec_cell(spec_map_rows(text)[y], x)
}

/// Parses `text` and plans the spawns of its cells under `config`.
pub fn plan_level(text: &str, config: &TilemapConfig) -> (plan: LevelPlan)
    ensures
        parsed_from(plan.map, text@),
        spawns_for(plan.spawns@, plan.map.cells(), config.tile_definitions.as_map()),
{
    let map = Tilemap::from_string(text);
    let spawns = plan_tile_spawns(&map, &config.tile_definitions);
    LevelPlan { map, spawns }
}

/// The built-in test level, parsed, with the spawns of its cells.
pub fn load_test_level(config: &TilemapConfig) -> (plan: LevelPlan)
    ensures
        parsed_from(plan.map, TEST_LEVEL@),
        spawns_for(plan.spawns@, plan.map.cells(), config.tile_definitions.as_map()),
{
    plan_level(TEST_LEVEL, config)
}

/// An entity placed by a level file.
pub struct SpawnPoint {
    pub entity_type: String,
    /// Position, as the IEEE-754 bit patterns of the coordinates.
    pub x: u32,
    pub y: u32,
    pub properties: Table<String, String>,
}

/// A level as stored in a level file.
pub struct LevelData {
    pub name: String,
    pub tileset: String,
    pub tile_size: u32,
    pub width: usize,
    pub height: usize,
    /// The map text.
    pub data: String,
    pub spawn_points: Vec<SpawnPoint>,
}

/// The positions, in order, of the entries that name a player spawn.
pub open spec fn spec_player_spawns(points: Seq<SpawnPoint>) -> Seq<usize>
    decreases points.len(),
{
    if points.len() == 0 {
        Seq::empty()
    } else {
        let rest = spec_player_spawns(points.drop_last());
        if points.last().entity_type@ == "player_spawn"@ {
            rest.push((points.len() - 1) as usize)
        } else {
            rest
        }
    }
}

/// What a level file sets up: its parsed map, and the spawn points at
/// which a player spawn marker is placed.
pub struct LevelSetup {
    pub map: Tilemap,
    pub player_spawns: Vec<usize>,
}

/// Sets up a level from its file data: the map text is parsed, and each
/// spawn point of type `player_spawn` gets a player spawn marker; others
/// spawn nothing.
pub fn spawn_level_from_data(level_data: &LevelData) -> (setup: LevelSetup)
    ensures
        parsed_from(setup.map, level_data.data@),
        setup.player_spawns@ == spec_player_spawns(level_data.spawn_points@),
{
    let map = Tilemap::from_string(level_data.data.as_str());
    let mut player_spawns: Vec<usize> = Vec::new();
    let mut i: usize = 0;
    while i < level_data.spawn_points.len()
        invariant
            i <= level_data.spawn_points@.len(),
            player_spawns@ == spec_player_spawns(level_data.spawn_points@.take(i as int)),
        decreases level_data.spawn_points@.len() - i,
    {
        let ghost pts = level_data.spawn_points@;
        assert(pts.take(i as int + 1).drop_last() =~= pts.take(i as int));
        assert(pts.take(i as int + 1).last() == pts[i as int]);
        if str_eq(level_data.spawn_points[i].entity_type.as_str(), "player_spawn") {
            player_spawns.push(i);
        }
        i = i + 1;
    }
    assert(level_data.spawn_points@.take(i as int) =~= level_data.spawn_points@);
    LevelSetup { map, player_spawns }
}

/// Depth order of the layers, back to front.
pub fn get_layer_z(layer: LayerType) -> (z: u32)
    ensures
        z == match layer {
            LayerType::Background => 0u32,
            LayerType::Collision => 1u32,
            LayerType::Decoration => 2u32,
            LayerType::Overlay => 3u32,
        },
{
    match layer {
        LayerType::Background => 0,
        LayerType::Collision => 1,
        LayerType::Decoration => 2,
        LayerType::Overlay => 3,
    }
}

/// What a spawned tile does follows its kind: doors, chests and portals are
/// interactive, each with its own interaction, and no other kind is;
/// spikes deal 10 damage and lava 20, and no other kind deals any; only
/// blocking walls get a collider.
pub proof fn lemma_spawn_behaviour(s: TileSpawn, d: TileDefinition, x: int, y: int)
    requires
        spawn_matches(s, d, x, y),
    ensures
        s.tile.tile_type == d.tile_type,
        s.tile.tile_type == TileType::Door ==> s.interactive == Some(Interactive { interaction_type: InteractionType::Door }),
        s.tile.tile_type == TileType::Chest ==> s.interactive == Some(Interactive { interaction_type: InteractionType::Chest }),
        s.tile.tile_type == TileType::Portal ==> s.interactive == Some(Interactive { interaction_type: InteractionType::Portal }),
        s.interactive is Some <==> (s.tile.tile_type == TileType::Door || s.tile.tile_type == TileType::Chest
            || s.tile.tile_type == TileType::Portal),
        s.tile.tile_type == TileType::Spike ==> s.damage == Some(DamageZone { damage: 10 }),
        s.tile.tile_type == TileType::Lava ==> s.damage == Some(DamageZone { damage: 20 }),
        s.damage is Some <==> (s.tile.tile_type == TileType::Spike || s.tile.tile_type == TileType::Lava),
        s.collider <==> (s.tile.tile_type == TileType::Wall && !s.tile.walkable),
{
}

} // verus!
