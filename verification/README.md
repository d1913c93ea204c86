# island_world

The rules of a tile-based survival game, verified with Verus.

- `src/tile.rs` — auto-tiling: a tile is drawn from its four corners
  (0 top left, 1 top right, 2 bottom left, 3 bottom right). The module states
  the corner model as spec functions (`touches`, `shared_corner`,
  `water_bits`, `blocks_of_bits`), proves the bit and block encodings against
  each other, and verifies the neighbour updates and the recomputation of a
  tile from its eight neighbours.
- `src/dimension.rs` — eras, and the era bookkeeping done when a dimension is
  spawned (which world objects are cached and restored, which world-generation
  parameters apply).
- `src/inventory_ui.rs` — which screens show the inventory, which slots a
  screen lays out and in which order, how a slot looks, and which slots are
  redrawn or refreshed.
- `src/world_object.rs` — the world objects that these rules tell apart.
- `app/` — the ECS components and systems (bevy), the floating-point parts of
  world generation and screen layout, and the serde copy of `Era`.
