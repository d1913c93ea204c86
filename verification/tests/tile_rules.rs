use island_world::tile::{TilePlugin, TileSpriteData};
use island_world::world_object::WorldObject;

const G: WorldObject = WorldObject::GrassTile;
const W: WorldObject = WorldObject::WaterTile;
const S: WorldObject = WorldObject::StoneTile;

const EDGES: [(i8, i8); 8] = [(-1, -1), (0, -1), (1, -1), (-1, 0), (1, 0), (-1, 1), (0, 1), (1, 1)];

fn sprite(bits: u8, offset: u8, raw: [WorldObject; 4]) -> TileSpriteData {
    TileSpriteData {
        tile_bit_index: bits,
        block_type: TilePlugin::get_block_type_from_bits(bits, offset),
        texture_offset: offset,
        raw_block_type: raw,
    }
}

#[test]
fn block_type_from_bits_reads_each_corner() {
    assert_eq!(TilePlugin::get_block_type_from_bits(0b0000, 0), [G, G, G, G]);
    assert_eq!(TilePlugin::get_block_type_from_bits(0b0101, 0), [W, G, W, G]);
    assert_eq!(TilePlugin::get_block_type_from_bits(0b1010, 16), [G, W, G, W]);
    assert_eq!(TilePlugin::get_block_type_from_bits(0b1111, 0), [W, W, W, W]);
    // upper bits play no part
    assert_eq!(TilePlugin::get_block_type_from_bits(0b1111_0001, 0), [W, G, G, G]);
}

#[test]
fn bits_from_block_type_sets_water_corners() {
    assert_eq!(TilePlugin::get_bits_from_block_type([W, G, W, S]), (0b0101, 0));
    assert_eq!(TilePlugin::get_bits_from_block_type([G, G, G, G]), (0, 0));
    assert_eq!(TilePlugin::get_bits_from_block_type([W, W, W, W]), (15, 0));
    assert_eq!(TilePlugin::get_bits_from_block_type([S, WorldObject::Other(7), G, W]), (8, 0));
}

#[test]
fn bits_blocks_round_trip_law() {
    for bits in 0u8..=255 {
        let blocks = TilePlugin::get_block_type_from_bits(bits, 0);
        assert_eq!(TilePlugin::get_bits_from_block_type(blocks).0, bits & 15);
    }
    let blocks = [S, W, WorldObject::Other(3), W];
    let bits = TilePlugin::get_bits_from_block_type(blocks).0;
    assert_eq!(TilePlugin::get_block_type_from_bits(bits, 0), [G, W, G, W]);
}

#[test]
fn compute_tile_bits_edges() {
    // top neighbour: its bottom corners (2, 3) become our top corners (0, 1)
    assert_eq!(TilePlugin::compute_tile_bits(0, 0b1100, (0, 1)), 0b0011);
    assert_eq!(TilePlugin::compute_tile_bits(0, 0b0100, (0, 1)), 0b0001);
    assert_eq!(TilePlugin::compute_tile_bits(0, 0b1000, (0, 1)), 0b0010);
    assert_eq!(TilePlugin::compute_tile_bits(0b1000, 0b0011, (0, 1)), 0b1000);
    // right neighbour
    assert_eq!(TilePlugin::compute_tile_bits(0, 0b0101, (1, 0)), 0b1010);
    // bottom neighbour
    assert_eq!(TilePlugin::compute_tile_bits(0, 0b0011, (0, -1)), 0b1100);
    // left neighbour
    assert_eq!(TilePlugin::compute_tile_bits(0, 0b1010, (-1, 0)), 0b0101);
    // corners
    assert_eq!(TilePlugin::compute_tile_bits(0, 0b1000, (-1, 1)), 0b0001);
    assert_eq!(TilePlugin::compute_tile_bits(0, 0b0100, (1, 1)), 0b0010);
    assert_eq!(TilePlugin::compute_tile_bits(0, 0b0010, (-1, -1)), 0b0100);
    assert_eq!(TilePlugin::compute_tile_bits(0, 0b0001, (1, -1)), 0b1000);
    assert_eq!(TilePlugin::compute_tile_bits(0b0110, 0b0111, (1, 1)), 0b0110);
}

#[test]
fn compute_tile_bits_other_offsets_give_zero() {
    assert_eq!(TilePlugin::compute_tile_bits(0b1111, 0b1111, (0, 0)), 0);
    assert_eq!(TilePlugin::compute_tile_bits(0b0101, 0b1111, (2, 0)), 0);
}

#[test]
fn compute_tile_blocks_copies_shared_corners() {
    let t = [G, G, G, G];
    let n = [W, S, W, S];
    assert_eq!(TilePlugin::compute_tile_blocks(t, n, (0, 1)), [W, S, G, G]);
    assert_eq!(TilePlugin::compute_tile_blocks(t, n, (1, 0)), [G, W, G, W]);
    assert_eq!(TilePlugin::compute_tile_blocks(t, n, (0, -1)), [G, G, W, S]);
    assert_eq!(TilePlugin::compute_tile_blocks(t, n, (-1, 0)), [S, G, S, G]);
    assert_eq!(TilePlugin::compute_tile_blocks(t, n, (-1, 1)), [S, G, G, G]);
    assert_eq!(TilePlugin::compute_tile_blocks(t, n, (1, 1)), [G, W, G, G]);
    assert_eq!(TilePlugin::compute_tile_blocks(t, n, (-1, -1)), [G, G, S, G]);
    assert_eq!(TilePlugin::compute_tile_blocks(t, n, (1, -1)), [G, G, G, W]);
    assert_eq!(TilePlugin::compute_tile_blocks([W, W, S, S], n, (0, 0)), [W, W, S, S]);
}

#[test]
fn tile_bits_follow_tile_blocks_law() {
    for new in 0u8..16 {
        for nb in 0u8..16 {
            for &e in EDGES.iter() {
                let blocks = TilePlugin::compute_tile_blocks(
                    [G, G, G, G],
                    TilePlugin::get_block_type_from_bits(nb, 0),
                    e,
                );
                let expected = new | TilePlugin::get_bits_from_block_type(blocks).0;
                let got = TilePlugin::compute_tile_bits(new, nb, e);
                assert_eq!(got, expected);
                // the bit rule never clears a corner
                assert_eq!(got & new, new);
            }
        }
    }
}

#[test]
fn neighbour_offsets_in_visiting_order() {
    let got: Vec<(i8, i8)> = (0..8).map(TilePlugin::neighbour_offset).collect();
    assert_eq!(got, EDGES.to_vec());
}

#[test]
fn neighbour_tile_position_wraps_into_next_chunk() {
    assert_eq!(TilePlugin::neighbour_tile_position((3, 4), (0, 0), (1, -1), 16), ((0, 0), (4, 3)));
    assert_eq!(TilePlugin::neighbour_tile_position((0, 4), (2, 5), (-1, 0), 16), ((1, 5), (15, 4)));
    assert_eq!(TilePlugin::neighbour_tile_position((15, 15), (-3, 7), (1, 1), 16), ((-2, 8), (0, 0)));
    assert_eq!(TilePlugin::neighbour_tile_position((5, 0), (0, 0), (0, -1), 16), ((0, -1), (5, 15)));
    // a position past the chunk's width counts as a step into the next chunk
    assert_eq!(TilePlugin::neighbour_tile_position((20, 3), (0, 0), (0, 0), 16), ((1, 0), (0, 3)));
}

#[test]
fn neighbour_steps_are_global_steps_law() {
    let size: u32 = 16;
    for tx in 0..size {
        for k in 0..8 {
            let (dx, dy) = TilePlugin::neighbour_offset(k);
            let ((cx, cy), (nx, ny)) = TilePlugin::neighbour_tile_position((tx, 15 - tx), (-2, 3), (dx, dy), size);
            assert_eq!(cx * 16 + nx as i32, -2 * 16 + tx as i32 + dx as i32);
            assert_eq!(cy * 16 + ny as i32, 3 * 16 + (15 - tx) as i32 + dy as i32);
            assert!(nx < size && ny < size);
        }
    }
}

#[test]
fn update_tile_sprite_adds_offset() {
    assert_eq!(TilePlugin::update_tile_sprite(&sprite(0b0101, 16, [G, G, G, G])), 21);
    assert_eq!(TilePlugin::update_tile_sprite(&sprite(0, 0, [G, G, G, G])), 0);
}

#[test]
fn neighbour_update_only_when_entities_are_updated() {
    let new_blocks = [W, W, W, W];
    let neighbour = sprite(0, 0, [G, G, W, G]);
    assert_eq!(TilePlugin::update_neighbour_tile(new_blocks, &neighbour, (0, 1), false), None);
    let r = TilePlugin::update_neighbour_tile(new_blocks, &neighbour, (0, 1), true).unwrap();
    // the neighbour above shares its bottom corners with our top corners
    assert_eq!(r.tile_bit_index, 0b1100);
    assert_eq!(r.block_type, [G, G, W, W]);
    assert_eq!(r.texture_offset, 0);
    assert_eq!(r.raw_block_type, [G, G, W, G]);
}

#[test]
fn update_neighbour_tiles_skips_missing_neighbours() {
    let new_tile = sprite(0b1111, 0, [W, W, W, W]);
    let mut neighbours: Vec<Option<TileSpriteData>> = vec![None; 8];
    neighbours[6] = Some(sprite(0, 0, [G, G, G, G])); // the tile above
    neighbours[4] = Some(sprite(0, 16, [G, G, G, G])); // the tile to the right
    let r = TilePlugin::_update_neighbour_tiles(&new_tile, &neighbours, true);
    assert_eq!(r.len(), 8);
    assert_eq!(r[6].unwrap().tile_bit_index, 0b1100);
    assert_eq!(r[4].unwrap().tile_bit_index, 0b0101);
    for k in [0, 1, 2, 3, 5, 7] {
        assert_eq!(r[k], None);
    }
    let r = TilePlugin::_update_neighbour_tiles(&new_tile, &neighbours, false);
    assert!(r.iter().all(|x| x.is_none()));
}

#[test]
fn update_this_tile_water_tile_only_loses_corners() {
    let target = sprite(0b1111, 0, [W, W, W, W]);
    let mut neighbours: Vec<Option<[WorldObject; 4]>> = vec![Some([W, W, W, W]); 8];
    neighbours[6] = Some([G, G, G, G]); // grass above clears our top corners
    let r = TilePlugin::update_this_tile(&target, 0, &neighbours);
    assert_eq!(r.tile_bit_index, 0b1100);
    assert_eq!(r.block_type, [G, G, W, W]);
    assert_eq!(r.texture_offset, 0);
    assert_eq!(r.raw_block_type, [W, W, W, W]);
    assert_eq!(r.tile_bit_index & target.tile_bit_index, r.tile_bit_index);
}

#[test]
fn update_this_tile_grass_tile_gains_corners() {
    let target = sprite(0, 0, [G, G, G, G]);
    let mut neighbours: Vec<Option<[WorldObject; 4]>> = vec![None; 8];
    neighbours[0] = Some([G, W, G, G]); // bottom-left neighbour, water at its top right
    neighbours[7] = Some([G, G, W, G]); // top-right neighbour, water at its bottom left
    let r = TilePlugin::update_this_tile(&target, 16, &neighbours);
    assert_eq!(r.tile_bit_index, 0b0110);
    assert_eq!(r.texture_offset, 16);
    // without an offset a grass tile is left as it is
    let r = TilePlugin::update_this_tile(&target, 0, &neighbours);
    assert_eq!(r.tile_bit_index, 0);
    // a stone tile is left as it is
    let stone = sprite(0b0001, 16, [S, S, S, S]);
    let r = TilePlugin::update_this_tile(&stone, 16, &neighbours);
    assert_eq!(r.tile_bit_index, 0b0001);
}

#[test]
fn corner_samples_make_a_tile() {
    assert_eq!(TilePlugin::sample_corner(true, true), (0, S));
    assert_eq!(TilePlugin::sample_corner(false, true), (1, W));
    assert_eq!(TilePlugin::sample_corner(false, false), (0, G));
    let r = TilePlugin::tile_from_corner_samples([(1, W), (0, G), (0, G), (1, W)]);
    assert_eq!(r, ([1, 0, 0, 1], 0, [W, G, G, W]));
    let r = TilePlugin::tile_from_corner_samples([(0, S), (0, S), (0, S), (0, S)]);
    assert_eq!(r, ([0, 0, 0, 0], 16, [S, S, S, S]));
}

#[test]
fn tile_world_coordinate_adds_chunk_offset() {
    assert_eq!(TilePlugin::tile_world_coordinate(3, -2, 16), -29);
    assert_eq!(TilePlugin::tile_world_coordinate(15, 4, 16), 79);
    assert_eq!(TilePlugin::tile_world_coordinate(u32::MAX, 0, 16), i32::MAX);
}

#[test]
fn change_tile_blocks_keeps_the_rest() {
    let mut t = sprite(0b0011, 16, [G, W, G, W]);
    TilePlugin::change_tile_blocks(&mut t, 0b1000, 0);
    assert_eq!(t.block_type, [G, G, G, W]);
    assert_eq!(t.tile_bit_index, 0b0011);
    assert_eq!(t.texture_offset, 16);
    assert_eq!(t.raw_block_type, [G, W, G, W]);
}
