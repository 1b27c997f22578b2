use roguelite_core::basic_tilemap::{self, get_tile_index, index_tile, is_walkable};
use roguelite_core::tilemap::level_loader::{
    get_layer_z, load_test_level, plan_level, spawn_level_from_data, DamageZone, InteractionType, Interactive,
    LevelData, SpawnPoint,
};
use roguelite_core::tilemap::pyxel_helper::debug_tile_indices;
use roguelite_core::tilemap::tile_animator::animate_tiles;
use roguelite_core::tilemap::tilemap::{LayerType, TileType, Tilemap, TilemapConfig};
use roguelite_core::tilemap::tilemap_config::{create_custom_mapping, create_pyxel_edit_config, tile_index};
use roguelite_core::table::Table;
use roguelite_core::world::level_loader::{plan_world_level, spawn_level};
use roguelite_core::world::tilemap::{spike_marker_change, MarkerChange, Tile as WorldTile, TileType as WorldType};

#[test]
fn tile_index_is_row_major() {
    assert_eq!(tile_index(0, 0), 0);
    assert_eq!(tile_index(2, 5), 37);
    assert_eq!(tile_index(1, 1), 17);
}

#[test]
fn default_config_defines_eleven_characters() {
    let c = TilemapConfig::default();
    assert_eq!((c.tile_size, c.tileset_columns, c.tileset_rows), (32, 16, 16));
    assert_eq!(c.tile_definitions.len(), 11);
    let water = c.tile_definitions.get(&'~').unwrap();
    assert_eq!(water.tile_type, TileType::Water);
    assert!(water.animated);
    assert_eq!(water.animation_frames, vec![45, 46, 47, 48]);
    assert_eq!(water.animation_speed, 500);
    let wall = c.tile_definitions.get(&'#').unwrap();
    assert_eq!((wall.base_index, wall.walkable, wall.layer), (17, false, LayerType::Collision));
    assert!(c.tile_definitions.get(&'W').is_none());
}

#[test]
fn pyxel_and_custom_mappings() {
    let p = create_pyxel_edit_config();
    assert_eq!(p.len(), 12);
    assert_eq!(p.get(&'W').unwrap().base_index, 18);
    assert_eq!(p.get(&'P').unwrap().animation_frames, vec![53, 54, 55, 56]);
    let c = create_custom_mapping();
    assert_eq!(c.len(), 1);
    let a = c.get(&'a').unwrap();
    assert_eq!((a.tile_type, a.base_index, a.walkable), (TileType::Floor, 0, true));
}

#[test]
fn map_text_parses_rows_and_blanks() {
    let m = Tilemap::from_string("\n#.#  \n\n  \n# D\n");
    assert_eq!((m.width, m.height), (3, 2));
    assert_eq!(m.tiles[0], vec![Some('#'), Some('.'), Some('#')]);
    assert_eq!(m.tiles[1], vec![Some('#'), None, Some('D')]);
    let wide = Tilemap::from_string("ab\r\nabcd\r\n");
    assert_eq!((wide.width, wide.height), (4, 2));
    assert_eq!(wide.tiles[0], vec![Some('a'), Some('b'), None, None]);
    let empty = Tilemap::from_string("");
    assert_eq!((empty.width, empty.height), (0, 0));
    // Width counts bytes: a two-byte character widens the grid.
    let utf = Tilemap::from_string("é");
    assert_eq!((utf.width, utf.height), (2, 1));
    assert_eq!(utf.tiles[0], vec![Some('é'), None]);
}

#[test]
fn test_level_plan() {
    let config = TilemapConfig::default();
    let plan = load_test_level(&config);
    assert_eq!((plan.map.width, plan.map.height), (40, 20));
    // Every cell of the test level holds a defined character.
    assert_eq!(plan.spawns.len(), 800);
    let first = &plan.spawns[0];
    assert_eq!((first.x, first.y), (0, 0));
    assert!(first.collider);
    assert_eq!(first.tile.tile_index, 17);
    let spikes: Vec<_> = plan.spawns.iter().filter(|s| s.damage == Some(DamageZone { damage: 10 })).collect();
    assert_eq!(spikes.len(), 4);
    let lava = plan.spawns.iter().filter(|s| s.damage == Some(DamageZone { damage: 20 })).count();
    assert_eq!(lava, 18);
    let portals: Vec<_> = plan
        .spawns
        .iter()
        .filter(|s| s.interactive == Some(Interactive { interaction_type: InteractionType::Portal }))
        .collect();
    assert_eq!(portals.len(), 1);
    assert_eq!((portals[0].x, portals[0].y), (12, 15));
    assert_eq!(portals[0].animation.as_ref().unwrap().frame_time, 200);
    let chests = plan.spawns.iter().filter(|s| s.tile.tile_type == TileType::Chest).count();
    assert_eq!(chests, 4);
    let chest = plan.spawns.iter().find(|s| s.tile.tile_type == TileType::Chest).unwrap();
    assert!(!chest.collider);
}

#[test]
fn unknown_characters_spawn_nothing() {
    let mut config = TilemapConfig::default();
    config.tile_definitions = Table::new();
    let plan = plan_level("#.#\n", &config);
    assert_eq!(plan.map.width, 3);
    assert!(plan.spawns.is_empty());
}

#[test]
fn level_file_places_player_markers() {
    let point = |t: &str| SpawnPoint { entity_type: t.to_string(), x: 0, y: 0, properties: Table::new() };
    let data = LevelData {
        name: "l".to_string(),
        tileset: "t.png".to_string(),
        tile_size: 32,
        width: 2,
        height: 1,
        data: "..".to_string(),
        spawn_points: vec![point("enemy"), point("player_spawn"), point("player_spawn")],
    };
    let setup = spawn_level_from_data(&data);
    assert_eq!(setup.player_spawns, vec![1, 2]);
    assert_eq!((setup.map.width, setup.map.height), (2, 1));
}

#[test]
fn layer_depths() {
    assert_eq!(get_layer_z(LayerType::Background), 0);
    assert_eq!(get_layer_z(LayerType::Collision), 1);
    assert_eq!(get_layer_z(LayerType::Decoration), 2);
    assert_eq!(get_layer_z(LayerType::Overlay), 3);
}

#[test]
fn animated_tiles_cycle() {
    let config = TilemapConfig::default();
    let plan = load_test_level(&config);
    let mut anim = plan.spawns.into_iter().find_map(|s| s.animation).unwrap();
    let start = anim.current_frame;
    assert_eq!(animate_tiles(&mut anim, false), None);
    let mut shown = vec![];
    for _ in 0..anim.frames.len() {
        shown.push(animate_tiles(&mut anim, true).unwrap());
    }
    assert_eq!(anim.current_frame, start);
    assert_eq!(shown.len(), 4);
    assert_eq!(shown[3], anim.frames[start]);
}

#[test]
fn tile_index_reference_lines() {
    let lines = debug_tile_indices();
    assert_eq!(lines.len(), 22);
    assert_eq!(lines[0], "Pyxel Edit Tile Index Reference (16x16 grid):");
    assert_eq!(lines[1], "=".repeat(80));
    let mut row2 = String::new();
    for col in 0..16 {
        row2.push_str(&format!("{:3} ", 2 * 16 + col));
    }
    assert_eq!(lines[4], row2);
    assert!(lines[2].starts_with("  0   1"));
    assert!(lines[17].ends_with("255 "));
    assert_eq!(lines[18], "");
    assert_eq!(lines[20], "Formula: index = row * 16 + column");
    assert_eq!(lines[21], "Example: Tile at row 2, column 5 = 2*16 + 5 = 37");
}

#[test]
fn world_tiles() {
    let w = WorldTile::new(WorldType::Water);
    assert!(w.walkable);
    assert_eq!(w.tile_index, 45);
    let l = WorldTile::new(WorldType::Lava);
    assert!(!l.walkable);
    assert_eq!(l.tile_index, 49);
    assert_eq!(WorldTile::new(WorldType::Stone).tile_index, 3);
}

#[test]
fn world_level_layout() {
    let plan = spawn_level();
    assert_eq!((plan.width, plan.height), (48, 30));
    assert_eq!(plan.spawns.len(), 48 * 30);
    let walls = plan.spawns.iter().filter(|s| s.wall).count();
    let chests = plan.spawns.iter().filter(|s| s.tile.tile_type == WorldType::Chest).count();
    let water = plan.spawns.iter().filter(|s| s.animation.is_some()).count();
    assert_eq!(chests, 8);
    assert_eq!(water, 60);
    assert!(walls > chests);
    let small = plan_world_level("  \n#x~\n");
    assert_eq!(small.height, 1);
    assert_eq!(small.spawns.len(), 2);
    assert_eq!(small.spawns[1].x, 2);
    assert_eq!(small.spawns[1].animation.as_ref().unwrap().frames, vec![45, 46, 47, 48]);
}

#[test]
fn spike_marker_follows_position() {
    assert_eq!(spike_marker_change(true, false), MarkerChange::Add);
    assert_eq!(spike_marker_change(false, true), MarkerChange::Remove);
    assert_eq!(spike_marker_change(true, true), MarkerChange::Keep);
    assert_eq!(spike_marker_change(false, false), MarkerChange::Keep);
}

#[test]
fn basic_map_from_text_and_indices() {
    assert_eq!(get_tile_index(basic_tilemap::TileType::Chest), 37);
    assert!(is_walkable(basic_tilemap::TileType::Door));
    assert!(!is_walkable(basic_tilemap::TileType::Water));
    let m = basic_tilemap::Tilemap::from_string("#.x\n~^");
    assert_eq!((m.width, m.height), (3, 2));
    assert_eq!(m.tiles[0], vec![Some(basic_tilemap::TileType::Wall), Some(basic_tilemap::TileType::Floor), None]);
    assert_eq!(m.tiles[1], vec![Some(basic_tilemap::TileType::Water), Some(basic_tilemap::TileType::Spike), None]);
    let g = basic_tilemap::Tilemap::from_indices(vec![vec![0, 1, 17, 49], vec![33, 48]]);
    assert_eq!((g.width, g.height), (4, 2));
    assert_eq!(g.tiles[0], vec![None, Some(basic_tilemap::TileType::Floor), Some(basic_tilemap::TileType::Wall), None]);
    assert_eq!(g.tiles[1], vec![Some(basic_tilemap::TileType::Door), Some(basic_tilemap::TileType::Water), None, None]);
    assert_eq!(index_tile(40), Some(basic_tilemap::TileType::Chest));
    assert_eq!(index_tile(41), Some(basic_tilemap::TileType::Spike));
}
