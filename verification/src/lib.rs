//! Tile auto-tiling, era bookkeeping and inventory-interface rules of a
//! tile-based survival game, with their contracts.
pub mod world_object;
pub mod tile;
pub mod dimension;
pub mod inventory_ui;
