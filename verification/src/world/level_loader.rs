//! The layout of the world level: which tile stands on each map cell and
//! what comes with it.
use vstd::prelude::*;
use crate::text::{
    byte_len, chars_of, lines_of, seqs_view, spec_lines, spec_trim_end, spec_utf8_len, trim_end, utf8_len,
};
use super::tilemap::{AnimatedTile, Tile, TileType, spec_tile_index, spec_walkable};

verus! {

#[derive(Clone, Copy, PartialEq, Eq, Structural, Debug)]
pub enum InteractionType {
    Door,
    Chest,
    Portal,
}

/// A tile the player can interact with.
#[derive(Clone, Copy, PartialEq, Eq, Structural, Debug)]
pub struct Interactive {
    pub interaction_type: InteractionType,
}

/// The world level.
pub const WORLD_LEVEL: &'static str = "
################################################
#..............................................#
#.....###...###...###.........####.............#
#.....#.....#.#...#.#.........#..#.............#
#.....###...#.#...###.........#..#.............#
#.....#.....#.#...#.#.........####.............#
#.....#.....###...#.#..........................#
#..............................................#
#...####....####....####....####....####.......#
#...#..#....#..#....#..#....#..#....#..#.......#
#...#..######..######..######..######..#.......#
#...#..........................................#
#...####....####....####....####....####.......#
#..............................................#
#.....CCCC......................CCCC...........#
#..............................................#
#...################....################.......#
#..........................................^^^^#
#..........................................^^^^#
#..............................................#
#...~~~~~..~~~~~..~~~~~..~~~~~..~~~~~..~~~~~...#
#...~~~~~..~~~~~..~~~~~..~~~~~..~~~~~..~~~~~...#
#..............................................#
#..####....####....####....####....####....###.#
#..#..#....#..#....#..#....#..#....#..#....#...#
#..#..######..######..######..######..######...#
#..............................................#
#......^^^^....................................#
#......^^^^....................................#
################################################
";

/// The tile kind a map character stands for, if any.
pub open spec fn spec_char_tile(c: char) -> Option<TileType> {
    if c == '#' {
        Some(TileType::Wall)
    } else if c == '.' {
        Some(TileType::Floor)
    } else if c == 'D' {
        Some(TileType::Door)
    } else if c == 'C' {
        Some(TileType::Chest)
    } else if c == '^' {
        Some(TileType::Spike)
    } else if c == '~' {
        Some(TileType::Water)
    } else {
        None
    }
}

/// The tile kind a map character stands for, if any.
pub fn char_tile(c: char) -> (t: Option<TileType>)
    ensures
        t == spec_char_tile(c),
{
    match c {
        '#' => Some(TileType::Wall),
        '.' => Some(TileType::Floor),
        'D' => Some(TileType::Door),
        'C' => Some(TileType::Chest),
        '^' => Some(TileType::Spike),
        '~' => Some(TileType::Water),
        _ => None,
    }
}

/// The animation of a kind: water, lava and portals cycle through four
/// images (half a second, 0.3 s and 0.2 s each).
pub open spec fn spec_animation(t: TileType) -> Option<(Seq<usize>, u32)> {
    match t {
        TileType::Water => Some((seq![45usize, 46, 47, 48], 500u32)),
        TileType::Lava => Some((seq![49usize, 50, 51, 52], 300u32)),
        TileType::Portal => Some((seq![53usize, 54, 55, 56], 200u32)),
        _ => None,
    }
}

/// Doors, chests and portals can be interacted with.
pub open spec fn spec_interaction(t: TileType) -> Option<Interactive> {
    match t {
        TileType::Door => Some(Interactive { interaction_type: InteractionType::Door }),
        TileType::Chest => Some(Interactive { interaction_type: InteractionType::Chest }),
        TileType::Portal => Some(Interactive { interaction_type: InteractionType::Portal }),
        _ => None,
    }
}

/// Everything spawned for one cell at column `x`, row `y` (row 0 on top).
pub struct WorldTileSpawn {
    pub x: usize,
    pub y: usize,
    pub tile: Tile,
    /// A wall with a tile-sized collider: the tile blocks.
    pub wall: bool,
    pub animation: Option<AnimatedTile>,
    pub interactive: Option<Interactive>,
}

/// `s` is what a tile of kind `t` spawns at `x`, `y`.
pub open spec fn world_spawn_matches(s: WorldTileSpawn, t: TileType, x: int, y: int) -> bool {
    &&& s.x == x
    &&& s.y == y
    &&& s.tile == Tile { tile_type: t, walkable: spec_walkable(t), tile_index: spec_tile_index(t) }
    &&& s.wall == !spec_walkable(t)
    &&& match (s.animation, spec_animation(t)) {
        (Some(a), Some((frames, time))) => a.frames@ == frames && a.current_frame == 0 && a.frame_time == time,
        (None, None) => true,
        _ => false,
    }
    &&& s.interactive == spec_interaction(t)
}

/// The rows of the level text: its non-blank lines, as they stand.
pub open spec fn spec_level_rows(lines: Seq<Seq<char>>) -> Seq<Seq<char>>
    decreases lines.len(),
{
    if lines.len() == 0 {
        Seq::empty()
    } else {
        let rest = spec_level_rows(lines.drop_last());
        if spec_trim_end(lines.last()).len() > 0 { rest.push(lines.last()) } else { rest }
    }
}

/// The widest row in bytes.
pub open spec fn spec_widest(rows: Seq<Seq<char>>) -> nat
    decreases rows.len(),
{
    if rows.len() == 0 {
        0
    } else {
        let rest = spec_widest(rows.drop_last());
        let w = spec_utf8_len(rows.last());
        if w > rest { w } else { rest }
    }
}

/// The columns of a row holding a tile character, left to right.
pub open spec fn spec_tile_columns(row: Seq<char>, y: int) -> Seq<(int, int)>
    decreases row.len(),
{
    if row.len() == 0 {
        Seq::empty()
    } else {
        let rest = spec_tile_columns(row.drop_last(), y);
        if spec_char_tile(row.last()) is Some { rest.push((row.len() - 1, y)) } else { rest }
    }
}

/// The cells holding a tile character, row by row from the top.
pub open spec fn spec_tile_cells(rows: Seq<Seq<char>>) -> Seq<(int, int)>
    decreases rows.len(),
{
    if rows.len() == 0 {
        Seq::empty()
    } else {
        spec_tile_cells(rows.drop_last()) + spec_tile_columns(rows.last(), rows.len() - 1)
    }
}

/// The layout of a level: its size in cells and the spawns of its cells.
pub struct WorldLevelPlan {
    /// Rows of the level.
    pub height: usize,
    /// The widest row, in bytes.
    pub width: usize,
    pub spawns: Vec<WorldTileSpawn>,
}

/// `plan` lays out the level text `text`: one spawn per character with a
/// tile kind, row by row from the top and left to right within a row.
pub open spec fn plan_matches(plan: WorldLevelPlan, text: Seq<char>) -> bool {
    let rows = spec_level_rows(spec_lines(text));
    let cells = spec_tile_cells(rows);
    &&& plan.height == rows.len()
    &&& plan.width == spec_widest(rows)
    &&& plan.spawns@.len() == cells.len()
    &&& forall|i: int| 0 <= i < cells.len() ==> world_spawn_matches(
        #[trigger] plan.spawns@[i],
        spec_char_tile(rows[cells[i].1][cells[i].0])->Some_0,
        cells[i].0,
        cells[i].1,
    )
}

/// Every cell listed for a row lies in it and holds a tile character.
pub proof fn lemma_tile_columns_valid(row: Seq<char>, y: int)
    ensures
        forall|i: int| 0 <= i < spec_tile_columns(row, y).len() ==> {
            let p = #[trigger] spec_tile_columns(row, y)[i];
            &&& p.1 == y
            &&& 0 <= p.0 < row.len()
            &&& spec_char_tile(row[p.0]) is Some
        },
    decreases row.len(),
{
    if row.len() > 0 {
        lemma_tile_columns_valid(row.drop_last(), y);
    }
}

/// Every cell listed for a set of rows lies in them.
pub proof fn lemma_tile_cells_valid(rows: Seq<Seq<char>>)
    ensures
        forall|i: int| 0 <= i < spec_tile_cells(rows).len() ==> {
            let p = #[trigger] spec_tile_cells(rows)[i];
            &&& 0 <= p.1 < rows.len()
            &&& 0 <= p.0 < rows[p.1].len()
        },
    decreases rows.len(),
{
    if rows.len() > 0 {
        lemma_tile_cells_valid(rows.drop_last());
        lemma_tile_columns_valid(rows.last(), rows.len() - 1);
        let a = spec_tile_cells(rows.drop_last());
        let b = spec_tile_columns(rows.last(), rows.len() - 1);
        assert forall|i: int| 0 <= i < (a + b).len() implies {
            let p = #[trigger] (a + b)[i];
            &&& 0 <= p.1 < rows.len()
            &&& 0 <= p.0 < rows[p.1].len()
        } by {
            if i < a.len() {
                assert((a + b)[i] == a[i]);
                assert(rows.drop_last()[a[i].1] == rows[a[i].1]);
            } else {
                assert((a + b)[i] == b[i - a.len()]);
            }
        }
    }
}

/// What a tile of kind `t` spawns at `x`, `y`.
pub fn world_tile_spawn(t: TileType, x: usize, y: usize) -> (s: WorldTileSpawn)
    ensures
        world_spawn_matches(s, t, x as int, y as int),
{
    let tile = Tile::new(t);
    let animation = match t {
        TileType::Water => Some(four_frames(45, 500)),
        TileType::Lava => Some(four_frames(49, 300)),
        TileType::Portal => Some(four_frames(53, 200)),
        _ => None,
    };
    let interactive = match t {
        TileType::Door => Some(Interactive { interaction_type: InteractionType::Door }),
        TileType::Chest => Some(Interactive { interaction_type: InteractionType::Chest }),
        TileType::Portal => Some(Interactive { interaction_type: InteractionType::Portal }),
        _ => None,
    };
    WorldTileSpawn { x, y, tile, wall: !tile.walkable, animation, interactive }
}

/// An animation over the four images from `first`, on its first frame.
fn four_frames(first: usize, frame_time: u32) -> (a: AnimatedTile)
    requires
        first + 3 <= usize::MAX,
    ensures
        a.frames@ == seq![first, (first + 1) as usize, (first + 2) as usize, (first + 3) as usize],
        a.current_frame == 0,
        a.frame_time == frame_time,
{
    let mut frames: Vec<usize> = Vec::new();
    frames.push(first);
    frames.push(first + 1);
    frames.push(first + 2);
    frames.push(first + 3);
    assert(frames@ =~= seq![first, (first + 1) as usize, (first + 2) as usize, (first + 3) as usize]);
    AnimatedTile { frames, current_frame: 0, frame_time }
}

/// Lays out a level text: its non-blank lines are the rows, and every
/// character that stands for a tile kind spawns that tile.
pub fn plan_world_level(text: &str) -> (plan: WorldLevelPlan)
    ensures
        plan_matches(plan, text@),
{
    let total: usize = byte_len(text);
    let chars = chars_of(text);
    let lines = lines_of(&chars);
    let ghost all = spec_lines(text@);
    let ghost rows = spec_level_rows(all);
    let mut height: usize = 0;
    let mut width: usize = 0;
    let mut spawns: Vec<WorldTileSpawn> = Vec::new();
    let mut i: usize = 0;
    while i < lines.len()
        invariant
            i <= lines@.len(),
            seqs_view(lines@) == all,
            all == spec_lines(chars@),
            chars@ == text@,
            rows == spec_level_rows(all),
            total == spec_utf8_len(chars@),
            forall|j: int| 0 <= j < lines@.len() ==> spec_utf8_len(#[trigger] lines@[j]@) <= spec_utf8_len(chars@),
            height == spec_level_rows(all.take(i as int)).len(),
            height <= i,
            width == spec_widest(spec_level_rows(all.take(i as int))),
            width <= total,
            spawns@.len() == spec_tile_cells(spec_level_rows(all.take(i as int))).len(),
            forall|k: int| 0 <= k < spec_tile_cells(spec_level_rows(all.take(i as int))).len() ==> {
                let p = #[trigger] spec_tile_cells(spec_level_rows(all.take(i as int)))[k];
                world_spawn_matches(spawns@[k], spec_char_tile(spec_level_rows(all.take(i as int))[p.1][p.0])->Some_0, p.0, p.1)
            },
        decreases lines@.len() - i,
    {
        let ghost line = lines@[i as int]@;
        let ghost rs_before = spec_level_rows(all.take(i as int));
        assert(all[i as int] == line);
        assert(all.take(i as int + 1).drop_last() =~= all.take(i as int));
        assert(all.take(i as int + 1).last() == line);
        let trimmed = trim_end(copy_line(&lines[i]));
        if trimmed.len() > 0 {
            let w = utf8_len(&lines[i]);
            let ghost rs_after = rs_before.push(line);
            assert(spec_level_rows(all.take(i as int + 1)) == rs_after);
            assert(rs_after.drop_last() =~= rs_before);
            let ghost cells_before = spec_tile_cells(rs_before);
            let ghost spawns_before = spawns@;
            let mut row_spawns = plan_row(&lines[i], height);
            let ghost new_spawns = row_spawns@;
            spawns.append(&mut row_spawns);
            proof {
                let cols = spec_tile_columns(line, height as int);
                assert(spec_tile_cells(rs_after) == cells_before + cols);
                lemma_tile_cells_valid(rs_before);
                lemma_tile_columns_valid(line, height as int);
                assert forall|k: int| 0 <= k < (cells_before + cols).len() implies {
                    let p = #[trigger] (cells_before + cols)[k];
                    world_spawn_matches(spawns@[k], spec_char_tile(rs_after[p.1][p.0])->Some_0, p.0, p.1)
                } by {
                    if k < cells_before.len() {
                        assert((cells_before + cols)[k] == cells_before[k]);
                        assert(spawns@[k] == spawns_before[k]);
                        assert(rs_after[cells_before[k].1] == rs_before[cells_before[k].1]);
                    } else {
                        assert((cells_before + cols)[k] == cols[k - cells_before.len()]);
                        assert(spawns@[k] == new_spawns[k - cells_before.len()]);
                        assert(rs_after[height as int] == line);
                    }
                }
            }
            height = height + 1;
            if w > width {
                width = w;
            }
        } else {
            assert(spec_level_rows(all.take(i as int + 1)) == rs_before);
        }
        i = i + 1;
    }
    assert(all.take(i as int) =~= all);
    WorldLevelPlan { height, width, spawns }
}

/// A copy of a line.
fn copy_line(v: &Vec<char>) -> (c: Vec<char>)
    ensures
        c@ == v@,
{
    let mut c: Vec<char> = Vec::new();
    let mut i: usize = 0;
    while i < v.len()
        invariant
            i <= v@.len(),
            c@ == v@.take(i as int),
        decreases v@.len() - i,
    {
        c.push(v[i]);
        i = i + 1;
        assert(c@ =~= v@.take(i as int));
    }
    assert(v@.take(i as int) =~= v@);
    c
}

/// The spawns of row `y`, left to right.
fn plan_row(row: &Vec<char>, y: usize) -> (spawns: Vec<WorldTileSpawn>)
    ensures
        spawns@.len() == spec_tile_columns(row@, y as int).len(),
        forall|k: int| 0 <= k < spawns@.len() ==> {
            let p = #[trigger] spec_tile_columns(row@, y as int)[k];
            world_spawn_matches(spawns@[k], spec_char_tile(row@[p.0])->Some_0, p.0, p.1)
        },
{
    let mut spawns: Vec<WorldTileSpawn> = Vec::new();
    let mut x: usize = 0;
    while x < row.len()
        invariant
            x <= row@.len(),
            spawns@.len() == spec_tile_columns(row@.take(x as int), y as int).len(),
            forall|k: int| 0 <= k < spawns@.len() ==> {
                let p = #[trigger] spec_tile_columns(row@.take(x as int), y as int)[k];
                world_spawn_matches(spawns@[k], spec_char_tile(row@[p.0])->Some_0, p.0, p.1)
            },
        decreases row@.len() - x,
    {
        let ghost before = spec_tile_columns(row@.take(x as int), y as int);
        let ghost prev = spawns@;
        assert(row@.take(x as int + 1).drop_last() =~= row@.take(x as int));
        assert(row@.take(x as int + 1).last() == row@[x as int]);
        proof {
            lemma_tile_columns_valid(row@.take(x as int), y as int);
        }
        match char_tile(row[x]) {
            Some(t) => {
                spawns.push(world_tile_spawn(t, x, y));
                proof {
                    let after = spec_tile_columns(row@.take(x as int + 1), y as int);
                    assert(after == before.push((x as int, y as int)));
                    assert forall|k: int| 0 <= k < spawns@.len() implies {
                        let p = #[trigger] after[k];
                        world_spawn_matches(spawns@[k], spec_char_tile(row@[p.0])->Some_0, p.0, p.1)
                    } by {
                        if k < prev.len() {
                            assert(after[k] == before[k]);
                            assert(spawns@[k] == prev[k]);
                        }
                    }
                }
            },
            None => {
                assert(spec_tile_columns(row@.take(x as int + 1), y as int) == before);
            },
        }
        x = x + 1;
    }
    assert(row@.take(x as int) =~= row@);
    spawns
}

/// The world level's layout.
pub fn spawn_level() -> (plan: WorldLevelPlan)
    ensures
        plan_matches(plan, WORLD_LEVEL@),
{
    plan_world_level(WORLD_LEVEL)
}

/// What a world tile spawns with follows its kind: doors, chests and
/// portals are interactive, each with its own interaction, and no other
/// kind is; exactly the blocking kinds (walls, chests, lava) are walls; and
/// exactly water, lava and portals animate.
pub proof fn lemma_world_spawn_behaviour(s: WorldTileSpawn, t: TileType, x: int, y: int)
    requires
        world_spawn_matches(s, t, x, y),
    ensures
        s.tile.tile_type == t,
        t == TileType::Door ==> s.interactive == Some(Interactive { interaction_type: InteractionType::Door }),
        t == TileType::Chest ==> s.interactive == Some(Interactive { interaction_type: InteractionType::Chest }),
        t == TileType::Portal ==> s.interactive == Some(Interactive { interaction_type: InteractionType::Portal }),
        s.interactive is Some <==> (t == TileType::Door || t == TileType::Chest || t == TileType::Portal),
        s.wall <==> (t == TileType::Wall || t == TileType::Chest || t == TileType::Lava),
        s.animation is Some <==> (t == TileType::Water || t == TileType::Lava || t == TileType::Portal),
{
}

} // verus!
