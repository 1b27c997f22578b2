# roguelite_core

The rules of a tile-based action roguelite, written in Verus and proved
against their contracts.

- `src/` is the verified library: tile maps (parsing map text, tile
  definitions, what each cell spawns, tile animation), the world level
  layout, sprite-sheet animation, starting stats of entities, and the
  progression systems (combo scoring, shop, talent trees, achievements,
  quests, loot tables, prestige), plus the text the menus show.
- `app/` is the game binary on the engine: rendering, input, timers, file
  loading, randomness and the floating-point rules.
- `tests/` runs the library on concrete values.

Fractional amounts of the game (multipliers, chances, durations) are held in
thousandths in the library; the binary converts them to `f32`.
