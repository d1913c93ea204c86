//! Auto-tiling of ground tiles.
//!
//! A tile is drawn from the samples taken at its four corners, numbered
//! 0 = top left, 1 = top right, 2 = bottom left, 3 = bottom right. Corner
//! `i` is water when bit `i` of the tile's bit index is set. Neighbouring
//! tiles share corners, and the rules below copy a neighbour's shared corners
//! into a tile.
use vstd::prelude::*;

use crate::world_object::WorldObject;

verus! {

// ------------------------------------------------------------------------
// The corner model
// ------------------------------------------------------------------------

/// The bit of the tile bit index that stands for corner `i`.
pub open spec fn corner_mask(i: int) -> u8 {
    if i == 0 {
        1u8
    } else if i == 1 {
        2u8
    } else if i == 2 {
        4u8
    } else {
        8u8
    }
}

/// Corner `i` of `bits` is set (is water).
pub open spec fn has_corner(bits: u8, i: int) -> bool {
    bits & corner_mask(i) == corner_mask(i)
}

/// Horizontal side of corner `i`: -1 for the left corners, +1 for the right ones.
pub open spec fn corner_dx(i: int) -> int {
    if i == 0 || i == 2 {
        -1
    } else {
        1
    }
}

/// Vertical side of corner `i`: +1 for the top corners, -1 for the bottom ones.
pub open spec fn corner_dy(i: int) -> int {
    if i < 2 {
        1
    } else {
        -1
    }
}

/// The corner that lies on horizontal side `dx` and vertical side `dy`.
pub open spec fn corner_at(dx: int, dy: int) -> int {
    (if dy > 0 {
        0int
    } else {
        2int
    }) + (if dx < 0 {
        0int
    } else {
        1int
    })
}

/// `edge` is the offset of one of the eight tiles around a tile.
pub open spec fn is_neighbour_offset(edge: (i8, i8)) -> bool {
    &&& -1 <= edge.0 <= 1
    &&& -1 <= edge.1 <= 1
    &&& !(edge.0 == 0 && edge.1 == 0)
}

/// The neighbour at offset `edge` shares corner `i` of the tile.
pub open spec fn touches(edge: (i8, i8), i: int) -> bool {
    &&& is_neighbour_offset(edge)
    &&& (edge.0 == 0 || edge.0 == corner_dx(i))
    &&& (edge.1 == 0 || edge.1 == corner_dy(i))
}

/// The corner of the neighbour at offset `edge` that coincides with corner
/// `i` of the tile (meaningful when `touches(edge, i)`).
pub open spec fn shared_corner(edge: (i8, i8), i: int) -> int {
    corner_at(
        if edge.0 == 0 {
            corner_dx(i)
        } else {
            -corner_dx(i)
        },
        if edge.1 == 0 {
            corner_dy(i)
        } else {
            -corner_dy(i)
        },
    )
}

/// 1 for water, 0 for anything else.
pub open spec fn water_flag(b: WorldObject) -> int {
    if b == WorldObject::WaterTile {
        1
    } else {
        0
    }
}

/// The bit index whose corners are the water corners of `blocks`.
pub open spec fn water_bits(blocks: Seq<WorldObject>) -> int {
    water_flag(blocks[0]) + 2 * water_flag(blocks[1]) + 4 * water_flag(blocks[2]) + 8 * water_flag(
        blocks[3],
    )
}

/// The four corner blocks that a bit index stands for: water where the
/// corner bit is set, grass elsewhere.
pub open spec fn blocks_of_bits(bits: u8) -> Seq<WorldObject> {
    Seq::new(
        4,
        |i: int|
            if has_corner(bits, i) {
                WorldObject::WaterTile
            } else {
                WorldObject::GrassTile
            },
    )
}

/// `blocks` with every corner that is not water made grass.
pub open spec fn grass_or_water(blocks: Seq<WorldObject>) -> Seq<WorldObject> {
    Seq::new(
        4,
        |i: int|
            if blocks[i] == WorldObject::WaterTile {
                WorldObject::WaterTile
            } else {
                WorldObject::GrassTile
            },
    )
}

/// The column of corner `i`: 0 for the left corners, 1 for the right ones.
pub open spec fn corner_column(i: int) -> int {
    i % 2
}

/// The row of corner `i`: 0 for the top corners, 1 for the bottom ones.
pub open spec fn corner_row(i: int) -> int {
    i / 2
}

/// Corner `i` lies on the side of the tile that faces the neighbour at
/// `edge`: on its right column for a neighbour to the right, on its top row
/// for a neighbour above, and so on (both for a diagonal neighbour).
pub open spec fn faces(edge: (i8, i8), i: int) -> bool {
    &&& (edge.0 == 0 || (edge.0 == 1) == (corner_column(i) == 1))
    &&& (edge.1 == 0 || (edge.1 == 1) == (corner_row(i) == 0))
}

/// The corner of the neighbour at `edge` that lies on the same point as
/// corner `i` of the tile: across a vertical border the column flips and the
/// row stays, across a horizontal border the row flips and the column stays.
pub open spec fn across(edge: (i8, i8), i: int) -> int {
    2 * (if edge.1 == 0 {
        corner_row(i)
    } else {
        1 - corner_row(i)
    }) + (if edge.0 == 0 {
        corner_column(i)
    } else {
        1 - corner_column(i)
    })
}

/// The corners of `new_tile` after copying in the corners that the neighbour
/// at offset `edge` shares with it.
pub open spec fn spec_compute_tile_blocks(
    new_tile: Seq<WorldObject>,
    neighbour: Seq<WorldObject>,
    edge: (i8, i8),
) -> Seq<WorldObject> {
    Seq::new(
        4,
        |i: int|
            if touches(edge, i) {
                neighbour[shared_corner(edge, i)]
            } else {
                new_tile[i]
            },
    )
}

/// Corner `i` is water in the neighbour bits `neighbour` and is shared with
/// the tile across `edge`.
pub open spec fn reached_by_neighbour(neighbour: u8, edge: (i8, i8), i: int) -> bool {
    touches(edge, i) && has_corner(neighbour, shared_corner(edge, i))
}

/// `corner_mask(i)` when `b`, else 0.
pub open spec fn corner_flag(b: bool, i: int) -> u8 {
    if b {
        corner_mask(i)
    } else {
        0u8
    }
}

/// The bit index of a tile after adding the water corners that the
/// neighbour at offset `edge` shares with it; 0 for an offset that is not
/// one of the eight neighbours.
pub open spec fn spec_compute_tile_bits(new_tile: u8, neighbour: u8, edge: (i8, i8)) -> u8 {
    if is_neighbour_offset(edge) {
        new_tile | corner_flag(reached_by_neighbour(neighbour, edge, 0), 0) | corner_flag(
            reached_by_neighbour(neighbour, edge, 1),
            1,
        ) | corner_flag(reached_by_neighbour(neighbour, edge, 2), 2) | corner_flag(
            reached_by_neighbour(neighbour, edge, 3),
            3,
        )
    } else {
        0u8
    }
}

// ------------------------------------------------------------------------
// Bit-level facts
// ------------------------------------------------------------------------

/// Or-ing single corner flags into a bit index sets exactly those corners
/// and keeps the upper half.
proof fn lemma_or_corner_flags(new_tile: u8, a: u8, b: u8, c: u8, d: u8)
    by (bit_vector)
    requires
        a == 0 || a == 1,
        b == 0 || b == 2,
        c == 0 || c == 4,
        d == 0 || d == 8,
    ensures
        ((new_tile | a | b | c | d) & 1 == 1) == (new_tile & 1 == 1 || a == 1),
        ((new_tile | a | b | c | d) & 2 == 2) == (new_tile & 2 == 2 || b == 2),
        ((new_tile | a | b | c | d) & 4 == 4) == (new_tile & 4 == 4 || c == 4),
        ((new_tile | a | b | c | d) & 8 == 8) == (new_tile & 8 == 8 || d == 8),
        (new_tile | a | b | c | d) & 0xf0 == new_tile & 0xf0,
        new_tile == 0 ==> (new_tile | a | b | c | d) == a + b + c + d,
{
}

/// The low four bits of a byte, read as a number.
proof fn lemma_low_nibble(x: u8)
    by (bit_vector)
    ensures
        x & 15 == (if x & 1 == 1 {
            1u8
        } else {
            0u8
        }) + (if x & 2 == 2 {
            2u8
        } else {
            0u8
        }) + (if x & 4 == 4 {
            4u8
        } else {
            0u8
        }) + (if x & 8 == 8 {
            8u8
        } else {
            0u8
        }),
{
}

/// No corner of the empty bit index is set.
proof fn lemma_no_corner_of_zero()
    ensures
        forall|i: int| !#[trigger] has_corner(0u8, i),
        0u8 & 1u8 != 1u8,
        0u8 & 2u8 != 2u8,
        0u8 & 4u8 != 4u8,
        0u8 & 8u8 != 8u8,
{
    assert((0u8 & 1u8) == 0u8 && (0u8 & 2u8) == 0u8 && (0u8 & 4u8) == 0u8 && (0u8 & 8u8) == 0u8)
        by (bit_vector);
}

/// Or-ing groups of flags does not depend on grouping.
proof fn lemma_or_regroup(x: u8, a: u8, b: u8, c: u8, d: u8)
    by (bit_vector)
    ensures
        x | (0u8 | a | b | c | d) == x | a | b | c | d,
{
}

// ------------------------------------------------------------------------
// Laws of the corner encoding
// ------------------------------------------------------------------------

/// Reading a bit index as corner blocks and encoding those blocks again
/// gives back the four corner bits of the index (its upper half is dropped).
pub proof fn lemma_bits_blocks_round_trip(bits: u8)
    ensures
        water_bits(blocks_of_bits(bits)) == (bits & 15) as int,
{
    lemma_low_nibble(bits);
}

/// Encoding four corner blocks as a bit index and reading it back gives the
/// blocks with every corner that is not water made grass.
pub proof fn lemma_blocks_bits_round_trip(blocks: Seq<WorldObject>)
    requires
        blocks.len() == 4,
    ensures
        0 <= water_bits(blocks) < 16,
        blocks_of_bits(water_bits(blocks) as u8) == grass_or_water(blocks),
{
    let a: u8 = if blocks[0] == WorldObject::WaterTile { 1 } else { 0 };
    let b: u8 = if blocks[1] == WorldObject::WaterTile { 2 } else { 0 };
    let c: u8 = if blocks[2] == WorldObject::WaterTile { 4 } else { 0 };
    let d: u8 = if blocks[3] == WorldObject::WaterTile { 8 } else { 0 };
    lemma_or_corner_flags(0, a, b, c, d);
    lemma_no_corner_of_zero();
    assert(water_bits(blocks) == a + b + c + d);
    let x: u8 = 0u8 | a | b | c | d;
    assert(water_bits(blocks) as u8 == x);
    assert(has_corner(x, 0) == (blocks[0] == WorldObject::WaterTile));
    assert(has_corner(x, 1) == (blocks[1] == WorldObject::WaterTile));
    assert(has_corner(x, 2) == (blocks[2] == WorldObject::WaterTile));
    assert(has_corner(x, 3) == (blocks[3] == WorldObject::WaterTile));
    assert(blocks_of_bits(water_bits(blocks) as u8) =~= grass_or_water(blocks));
}

/// The bit rule for a neighbour is the block rule applied to an all-grass
/// tile and the neighbour's corners, or-ed into the tile's bits: both rules
/// copy the same shared corners.
pub proof fn lemma_tile_bits_follow_tile_blocks(new_tile: u8, neighbour: u8, edge: (i8, i8))
    requires
        is_neighbour_offset(edge),
    ensures
        spec_compute_tile_bits(new_tile, neighbour, edge) == new_tile | (water_bits(
            spec_compute_tile_blocks(blocks_of_bits(0), blocks_of_bits(neighbour), edge),
        ) as u8),
{
    let blocks = spec_compute_tile_blocks(blocks_of_bits(0), blocks_of_bits(neighbour), edge);
    lemma_no_corner_of_zero();
    let f0 = corner_flag(reached_by_neighbour(neighbour, edge, 0), 0);
    let f1 = corner_flag(reached_by_neighbour(neighbour, edge, 1), 1);
    let f2 = corner_flag(reached_by_neighbour(neighbour, edge, 2), 2);
    let f3 = corner_flag(reached_by_neighbour(neighbour, edge, 3), 3);
    assert(water_flag(blocks[0]) * 1 == f0);
    assert(water_flag(blocks[1]) * 2 == f1);
    assert(water_flag(blocks[2]) * 4 == f2);
    assert(water_flag(blocks[3]) * 8 == f3);
    lemma_or_corner_flags(0, f0, f1, f2, f3);
    lemma_or_regroup(new_tile, f0, f1, f2, f3);
}

/// The bit rule never clears a corner of the tile: every water corner of
/// the tile is still water after a neighbour's corners are added.
pub proof fn lemma_tile_bits_keep_water(new_tile: u8, neighbour: u8, edge: (i8, i8))
    requires
        is_neighbour_offset(edge),
    ensures
        spec_compute_tile_bits(new_tile, neighbour, edge) & new_tile == new_tile,
{
    let f0 = corner_flag(reached_by_neighbour(neighbour, edge, 0), 0);
    let f1 = corner_flag(reached_by_neighbour(neighbour, edge, 1), 1);
    let f2 = corner_flag(reached_by_neighbour(neighbour, edge, 2), 2);
    let f3 = corner_flag(reached_by_neighbour(neighbour, edge, 3), 3);
    assert((new_tile | f0 | f1 | f2 | f3) & new_tile == new_tile) by (bit_vector);
}

/// The two descriptions of the corners a neighbour shares agree.
proof fn lemma_faces_is_touches(edge: (i8, i8), i: int)
    requires
        is_neighbour_offset(edge),
        0 <= i < 4,
    ensures
        faces(edge, i) == touches(edge, i),
        faces(edge, i) ==> across(edge, i) == shared_corner(edge, i),
        0 <= across(edge, i) < 4,
{
    assert(i == 0 || i == 1 || i == 2 || i == 3);
}

/// Corner `i` of `x & y` is set exactly when it is set in both.
proof fn lemma_and_corners(x: u8, y: u8)
    by (bit_vector)
    ensures
        ((x & y) & 1 == 1) == (x & 1 == 1 && y & 1 == 1),
        ((x & y) & 2 == 2) == (x & 2 == 2 && y & 2 == 2),
        ((x & y) & 4 == 4) == (x & 4 == 4 && y & 4 == 4),
        ((x & y) & 8 == 8) == (x & 8 == 8 && y & 8 == 8),
{
}

/// Corner `i` of `x & y` is set exactly when it is set in both (any corner).
proof fn lemma_has_corner_and(x: u8, y: u8, i: int)
    requires
        0 <= i < 4,
    ensures
        has_corner(x & y, i) == (has_corner(x, i) && has_corner(y, i)),
{
    lemma_and_corners(x, y);
    assert(i == 0 || i == 1 || i == 2 || i == 3);
}

/// Corner `i` of the bit index of four blocks is set exactly where block
/// `i` is water.
pub proof fn lemma_water_bits_corners(blocks: Seq<WorldObject>)
    requires
        blocks.len() == 4,
    ensures
        forall|i: int|
            0 <= i < 4 ==> #[trigger] has_corner(water_bits(blocks) as u8, i) == (blocks[i]
                == WorldObject::WaterTile),
{
    lemma_blocks_bits_round_trip(blocks);
    assert forall|i: int| 0 <= i < 4 implies #[trigger] has_corner(water_bits(blocks) as u8, i) == (
    blocks[i] == WorldObject::WaterTile) by {
        assert(blocks_of_bits(water_bits(blocks) as u8)[i] == grass_or_water(blocks)[i]);
    }
}

/// Copying a neighbour's corners into a tile keeps every corner on the far
/// side from the neighbour, and gives every corner on the near side the
/// neighbour's corner that lies on the same point: its mirror image across
/// the shared border. An offset that is not a neighbour changes nothing.
pub proof fn lemma_tile_blocks_near_and_far_corners(
    new_tile: Seq<WorldObject>,
    neighbour: Seq<WorldObject>,
    edge: (i8, i8),
)
    requires
        new_tile.len() == 4,
        neighbour.len() == 4,
    ensures
        forall|i: int|
            0 <= i < 4 && !(is_neighbour_offset(edge) && faces(edge, i)) ==> #[trigger] spec_compute_tile_blocks(
                new_tile,
                neighbour,
                edge,
            )[i] == new_tile[i],
        forall|i: int|
            0 <= i < 4 && is_neighbour_offset(edge) && faces(edge, i) ==> #[trigger] spec_compute_tile_blocks(
                new_tile,
                neighbour,
                edge,
            )[i] == neighbour[across(edge, i)],
{
    assert forall|i: int| 0 <= i < 4 && is_neighbour_offset(edge) implies faces(edge, i) == touches(
        edge,
        i,
    ) && (faces(edge, i) ==> across(edge, i) == shared_corner(edge, i)) by {
        lemma_faces_is_touches(edge, i);
    }
}

/// Adding a neighbour's water corners to a tile's bits keeps every corner
/// on the far side from the neighbour and every water corner of the tile, and
/// makes a near corner water exactly when the tile or the neighbour's corner
/// on the same point (across the shared border) is water; the upper half of
/// the bit index is kept. An offset that is not a neighbour gives 0.
pub proof fn lemma_tile_bits_near_and_far_corners(new_tile: u8, neighbour: u8, edge: (i8, i8))
    ensures
        is_neighbour_offset(edge) ==> forall|i: int|
            0 <= i < 4 ==> #[trigger] has_corner(spec_compute_tile_bits(new_tile, neighbour, edge), i) == (
            has_corner(new_tile, i) || (faces(edge, i) && has_corner(neighbour, across(edge, i)))),
        is_neighbour_offset(edge) ==> spec_compute_tile_bits(new_tile, neighbour, edge) & 0xf0 == new_tile
            & 0xf0,
        !is_neighbour_offset(edge) ==> spec_compute_tile_bits(new_tile, neighbour, edge) == 0,
{
    if is_neighbour_offset(edge) {
        let r = spec_compute_tile_bits(new_tile, neighbour, edge);
        let f0 = corner_flag(reached_by_neighbour(neighbour, edge, 0), 0);
        let f1 = corner_flag(reached_by_neighbour(neighbour, edge, 1), 1);
        let f2 = corner_flag(reached_by_neighbour(neighbour, edge, 2), 2);
        let f3 = corner_flag(reached_by_neighbour(neighbour, edge, 3), 3);
        lemma_or_corner_flags(new_tile, f0, f1, f2, f3);
        assert forall|i: int| 0 <= i < 4 implies #[trigger] has_corner(r, i) == (has_corner(new_tile, i)
            || (faces(edge, i) && has_corner(neighbour, across(edge, i)))) by {
            lemma_faces_is_touches(edge, i);
            assert(i == 0 || i == 1 || i == 2 || i == 3);
        }
    }
}

/// The tile rules of the game.
pub struct TilePlugin;

impl TilePlugin {
    /// The texture index drawn for a tile: its bit index moved by its
    /// texture offset.
    pub fn update_tile_sprite(tile_data: &TileSpriteData) -> (r: u32)
        requires
            tile_data.tile_bit_index + tile_data.texture_offset <= u8::MAX,
        ensures
            r == tile_data.tile_bit_index + tile_data.texture_offset,
    {
        (tile_data.tile_bit_index + tile_data.texture_offset) as u32
    }

    /// The four corner blocks for a bit index: water where the corner bit
    /// is set, grass elsewhere. The offset plays no part.
    pub fn get_block_type_from_bits(bits: u8, _offset: u8) -> (r: [WorldObject; 4])
        ensures
            r@ == blocks_of_bits(bits),
    {
        let used_blocks = (WorldObject::GrassTile, WorldObject::WaterTile);
        let b0 = if bits & 0b0001 != 0b0001 {
            used_blocks.0
        } else {
            used_blocks.1
        };
        let b1 = if bits & 0b0010 != 0b0010 {
            used_blocks.0
        } else {
            used_blocks.1
        };
        let b2 = if bits & 0b0100 != 0b0100 {
            used_blocks.0
        } else {
            used_blocks.1
        };
        let b3 = if bits & 0b1000 != 0b1000 {
            used_blocks.0
        } else {
            used_blocks.1
        };
        let r = [b0, b1, b2, b3];
        assert(r@ =~= blocks_of_bits(bits));
        r
    }

    /// The bit index of four corner blocks (bit `i` set where corner `i` is
    /// water) and the texture offset, which is always 0.
    pub fn get_bits_from_block_type(block_type: [WorldObject; 4]) -> (r: (u8, u8))
        ensures
            r.0 == water_bits(block_type@),
            r.1 == 0,
    {
        let offset: u8 = 0;
        let mut bits: u8 = 0b0000;
        let a: u8 = if block_type[0].is_water() {
            0b0001
        } else {
            0b0000
        };
        let b: u8 = if block_type[1].is_water() {
            0b0010
        } else {
            0b0000
        };
        let c: u8 = if block_type[2].is_water() {
            0b0100
        } else {
            0b0000
        };
        let d: u8 = if block_type[3].is_water() {
            0b1000
        } else {
            0b0000
        };
        proof {
            lemma_or_corner_flags(0, a, b, c, d);
        }
        bits = bits | a | b | c | d;
        (bits, offset)
    }

    /// The bit index of a tile after adding the water corners that the
    /// neighbour at offset `edge` shares with it. For an offset that is not
    /// one of the eight neighbours the result is 0.
    pub fn compute_tile_bits(new_tile_bits: u8, neighbour_tile_bits: u8, edge: (i8, i8)) -> (r: u8)
        ensures
            r == spec_compute_tile_bits(new_tile_bits, neighbour_tile_bits, edge),
            is_neighbour_offset(edge) ==> forall|i: int|
                0 <= i < 4 ==> #[trigger] has_corner(r, i) == (has_corner(new_tile_bits, i) || (faces(
                    edge,
                    i,
                ) && has_corner(neighbour_tile_bits, across(edge, i)))),
            is_neighbour_offset(edge) ==> r & 0xf0 == new_tile_bits & 0xf0,
            !is_neighbour_offset(edge) ==> r == 0,
    {
        proof {
            lemma_tile_bits_near_and_far_corners(new_tile_bits, neighbour_tile_bits, edge);
        }
        let nb = neighbour_tile_bits;
        let new = new_tile_bits;
        let mut bits: u8 = 0;
        if edge.0 == 0 && edge.1 == 1 {
            // Top edge: its bottom corners become our top corners.
            let m: u8 = match nb & 0b1100 {
                0b1100 => 0b0011,
                0b0100 => 0b0001,
                0b1000 => 0b0010,
                _ => 0b0000,
            };
            assert(new | m == new | (if nb & 4 == 4 { 1u8 } else { 0u8 }) | (if nb & 8 == 8 { 2u8 } else { 0u8 }) | 0u8 | 0u8) by (bit_vector)
                requires
                    m == (if nb & 12 == 12 { 3u8 } else if nb & 12 == 4 { 1u8 } else if nb & 12 == 8 { 2u8 } else { 0u8 }),
            ;
            bits = new | m;
        } else if edge.0 == 1 && edge.1 == 0 {
            // Right edge: its left corners become our right corners.
            let m: u8 = match nb & 0b0101 {
                0b0101 => 0b1010,
                0b0100 => 0b1000,
                0b0001 => 0b0010,
                _ => 0b0000,
            };
            assert(new | m == new | 0u8 | (if nb & 1 == 1 { 2u8 } else { 0u8 }) | 0u8 | (if nb & 4 == 4 { 8u8 } else { 0u8 })) by (bit_vector)
                requires
                    m == (if nb & 5 == 5 { 10u8 } else if nb & 5 == 4 { 8u8 } else if nb & 5 == 1 { 2u8 } else { 0u8 }),
            ;
            bits = new | m;
        } else if edge.0 == 0 && edge.1 == -1 {
            // Bottom edge: its top corners become our bottom corners.
            let m: u8 = match nb & 0b0011 {
                0b0011 => 0b1100,
                0b0001 => 0b0100,
                0b0010 => 0b1000,
                _ => 0b0000,
            };
            assert(new | m == new | 0u8 | 0u8 | (if nb & 1 == 1 { 4u8 } else { 0u8 }) | (if nb & 2 == 2 { 8u8 } else { 0u8 })) by (bit_vector)
                requires
                    m == (if nb & 3 == 3 { 12u8 } else if nb & 3 == 1 { 4u8 } else if nb & 3 == 2 { 8u8 } else { 0u8 }),
            ;
            bits = new | m;
        } else if edge.0 == -1 && edge.1 == 0 {
            // Left edge: its right corners become our left corners.
            let m: u8 = match nb & 0b1010 {
                0b1010 => 0b0101,
                0b1000 => 0b0100,
                0b0010 => 0b0001,
                _ => 0b0000,
            };
            assert(new | m == new | (if nb & 2 == 2 { 1u8 } else { 0u8 }) | 0u8 | (if nb & 8 == 8 { 4u8 } else { 0u8 }) | 0u8) by (bit_vector)
                requires
                    m == (if nb & 10 == 10 { 5u8 } else if nb & 10 == 8 { 4u8 } else if nb & 10 == 2 { 1u8 } else { 0u8 }),
            ;
            bits = new | m;
        } else if edge.0 == -1 && edge.1 == 1 {
            // Top-left corner.
            bits = bits | (nb & 0b1000);
            let m: u8 = if bits == 0b1000 { 0b0001 } else { 0b0000 };
            assert(new | m == new | (if nb & 8 == 8 { 1u8 } else { 0u8 }) | 0u8 | 0u8 | 0u8) by (bit_vector)
                requires
                    m == (if (0u8 | (nb & 8)) == 8 { 1u8 } else { 0u8 }),
            ;
            bits = new | m;
        } else if edge.0 == 1 && edge.1 == 1 {
            // Top-right corner.
            bits = bits | (nb & 0b0100);
            let m: u8 = if bits == 0b0100 { 0b0010 } else { 0b0000 };
            assert(new | m == new | 0u8 | (if nb & 4 == 4 { 2u8 } else { 0u8 }) | 0u8 | 0u8) by (bit_vector)
                requires
                    m == (if (0u8 | (nb & 4)) == 4 { 2u8 } else { 0u8 }),
            ;
            bits = new | m;
        } else if edge.0 == -1 && edge.1 == -1 {
            // Bottom-left corner.
            bits = bits | (nb & 0b0010);
            let m: u8 = if bits == 0b0010 { 0b0100 } else { 0b0000 };
            assert(new | m == new | 0u8 | 0u8 | (if nb & 2 == 2 { 4u8 } else { 0u8 }) | 0u8) by (bit_vector)
                requires
                    m == (if (0u8 | (nb & 2)) == 2 { 4u8 } else { 0u8 }),
            ;
            bits = new | m;
        } else if edge.0 == 1 && edge.1 == -1 {
            // Bottom-right corner.
            bits = bits | (nb & 0b0001);
            let m: u8 = if bits == 0b0001 { 0b1000 } else { 0b0000 };
            assert(new | m == new | 0u8 | 0u8 | 0u8 | (if nb & 1 == 1 { 8u8 } else { 0u8 })) by (bit_vector)
                requires
                    m == (if (0u8 | (nb & 1)) == 1 { 8u8 } else { 0u8 }),
            ;
            bits = new | m;
        }
        bits
    }

    /// The corners of `new_tile_blocks` after copying in the corners that
    /// the neighbour at offset `edge` shares with it. For an offset that is
    /// not one of the eight neighbours the tile is returned unchanged.
    pub fn compute_tile_blocks(
        new_tile_blocks: [WorldObject; 4],
        neighbour_blocks: [WorldObject; 4],
        edge: (i8, i8),
    ) -> (r: [WorldObject; 4])
        ensures
            r@ == spec_compute_tile_blocks(new_tile_blocks@, neighbour_blocks@, edge),
            forall|i: int|
                0 <= i < 4 && !(is_neighbour_offset(edge) && faces(edge, i)) ==> #[trigger] r@[i]
                    == new_tile_blocks@[i],
            forall|i: int|
                0 <= i < 4 && is_neighbour_offset(edge) && faces(edge, i) ==> #[trigger] r@[i]
                    == neighbour_blocks@[across(edge, i)],
    {
        proof {
            lemma_tile_blocks_near_and_far_corners(new_tile_blocks@, neighbour_blocks@, edge);
        }
        let n = neighbour_blocks;
        let t = new_tile_blocks;
        let r = if edge.0 == 0 && edge.1 == 1 {
            // Top edge
            [n[2], n[3], t[2], t[3]]
        } else if edge.0 == 1 && edge.1 == 0 {
            // Right edge
            [t[0], n[0], t[2], n[2]]
        } else if edge.0 == 0 && edge.1 == -1 {
            // Bottom edge
            [t[0], t[1], n[0], n[1]]
        } else if edge.0 == -1 && edge.1 == 0 {
            // Left edge
            [n[1], t[1], n[3], t[3]]
        } else if edge.0 == -1 && edge.1 == 1 {
            // Top-left corner
            [n[3], t[1], t[2], t[3]]
        } else if edge.0 == 1 && edge.1 == 1 {
            // Top-right corner
            [t[0], n[2], t[2], t[3]]
        } else if edge.0 == -1 && edge.1 == -1 {
            // Bottom-left corner
            [t[0], t[1], n[1], t[3]]
        } else if edge.0 == 1 && edge.1 == -1 {
            // Bottom-right corner
            [t[0], t[1], t[2], n[0]]
        } else {
            t
        };
        assert(r@ =~= spec_compute_tile_blocks(new_tile_blocks@, neighbour_blocks@, edge));
        r
    }
}

/// What a tile entity draws: the bit index of its corners, the blocks at
/// its corners, the texture offset and the blocks it was generated with.
#[derive(Clone, Copy, Debug, PartialEq, Eq)]
pub struct TileSpriteData {
    pub tile_bit_index: u8,
    pub block_type: [WorldObject; 4],
    pub texture_offset: u8,
    pub raw_block_type: [WorldObject; 4],
}


// ------------------------------------------------------------------------
// Updating a tile and its neighbours
// ------------------------------------------------------------------------

/// The `k`-th of the eight offsets around a tile, row by row from the bottom
/// row (`dy == -1`) to the top row, each row from left to right, skipping the
/// tile itself.
pub open spec fn neighbour_offset_at(k: int) -> (i8, i8) {
    let cell = if k < 4 {
        k
    } else {
        k + 1
    };
    ((cell % 3 - 1) as i8, (cell / 3 - 1) as i8)
}

/// What the neighbour of a changed tile draws after the update, when it is
/// updated at all.
pub open spec fn spec_neighbour_update(
    new_tile_blocks: Seq<WorldObject>,
    neighbour: TileSpriteData,
    edge: (i8, i8),
    update_entity: bool,
    r: Option<TileSpriteData>,
) -> bool {
    let updated = spec_compute_tile_blocks(new_tile_blocks, neighbour.block_type@, edge);
    if !update_entity {
        r is None
    } else {
        &&& r is Some
        &&& r->0.tile_bit_index == water_bits(updated)
        &&& r->0.block_type@ == grass_or_water(updated)
        &&& r->0.texture_offset == 0
        &&& r->0.raw_block_type == neighbour.raw_block_type
    }
}

/// A redrawn neighbour always comes out with texture offset 0, keeps the
/// blocks it was generated with, and has a water corner exactly where the
/// block copied to that corner is water: the neighbour's own block on the
/// point shared with the changed tile for the corners facing it, the changed
/// tile's block elsewhere. Its corner blocks are those of its bits.
pub proof fn lemma_redrawn_neighbour(
    new_tile_blocks: Seq<WorldObject>,
    neighbour: TileSpriteData,
    edge: (i8, i8),
    r: Option<TileSpriteData>,
)
    requires
        new_tile_blocks.len() == 4,
        spec_neighbour_update(new_tile_blocks, neighbour, edge, true, r),
    ensures
        r is Some,
        r->0.texture_offset == 0,
        r->0.raw_block_type == neighbour.raw_block_type,
        forall|i: int|
            0 <= i < 4 ==> #[trigger] has_corner(r->0.tile_bit_index, i) == ((if is_neighbour_offset(edge)
                && faces(edge, i) {
                neighbour.block_type@[across(edge, i)]
            } else {
                new_tile_blocks[i]
            }) == WorldObject::WaterTile),
{
    let updated = spec_compute_tile_blocks(new_tile_blocks, neighbour.block_type@, edge);
    lemma_water_bits_corners(updated);
    lemma_blocks_bits_round_trip(updated);
    lemma_tile_blocks_near_and_far_corners(new_tile_blocks, neighbour.block_type@, edge);
}

/// Whether `blocks` holds `b`.
fn blocks_contain(blocks: &[WorldObject; 4], b: WorldObject) -> (r: bool)
    ensures
        r == blocks@.contains(b),
{
    let r = blocks[0] == b || blocks[1] == b || blocks[2] == b || blocks[3] == b;
    proof {
        if r {
            if blocks[0] == b {
                assert(blocks@[0] == b);
            } else if blocks[1] == b {
                assert(blocks@[1] == b);
            } else if blocks[2] == b {
                assert(blocks@[2] == b);
            } else {
                assert(blocks@[3] == b);
            }
        }
    }
    r
}

/// The eight offsets visited are the eight tiles around a tile, each once.
pub proof fn lemma_neighbour_offsets_cover(edge: (i8, i8))
    ensures
        is_neighbour_offset(edge) <==> exists|k: int| 0 <= k < 8 && #[trigger] neighbour_offset_at(k) == edge,
        forall|j: int, k: int|
            0 <= j < 8 && 0 <= k < 8 && #[trigger] neighbour_offset_at(j) == #[trigger] neighbour_offset_at(k)
                ==> j == k,
{
    if is_neighbour_offset(edge) {
        let cell = (edge.1 + 1) * 3 + (edge.0 + 1);
        let k = if cell < 4 { cell } else { cell - 1 };
        assert(neighbour_offset_at(k) == edge);
    }
}

/// Where a step of `d` from tile `tile` of chunk `chunk` lands along one
/// axis, as (chunk, tile), for chunks `size` tiles wide; the tile is read as
/// a byte.
pub open spec fn axis_step(tile: u32, chunk: i32, d: i8, size: u32) -> (int, int) {
    let t = tile as i8 + d;
    if t < 0 {
        (chunk - 1, size - 1)
    } else if t >= size {
        (chunk + 1, 0)
    } else {
        (chunk as int, t)
    }
}

/// A step along one axis stays within the integer types: the step fits a
/// byte, the chunk it lands in fits an `i32`, and a step back lands on a
/// tile of a chunk that has one.
pub open spec fn axis_step_ok(tile: u32, chunk: i32, d: i8, size: u32) -> bool {
    let t = tile as i8 + d;
    &&& i8::MIN <= t <= i8::MAX
    &&& t < 0 ==> chunk > i32::MIN && size >= 1
    &&& t >= 0 && t >= size ==> chunk < i32::MAX
}

/// For a tile inside its chunk and a step of at most one tile, the
/// neighbour's chunk and tile are the global tile coordinate of the step
/// split again into chunk and tile: the step never skips or repeats a tile.
pub proof fn lemma_axis_step_is_global_step(tile: u32, chunk: i32, d: i8, size: u32)
    requires
        0 < size <= 127,
        tile < size,
        -1 <= d <= 1,
    ensures
        ({
            let (c, t) = axis_step(tile, chunk, d, size);
            &&& c * size + t == chunk * size + tile + d
            &&& 0 <= t < size
            &&& chunk - 1 <= c <= chunk + 1
        }),
{
    assert(tile as i8 == tile);
    let c0 = chunk as int;
    let s = size as int;
    assert((c0 - 1) * s == c0 * s - s) by (nonlinear_arith);
    assert((c0 + 1) * s == c0 * s + s) by (nonlinear_arith);
}

impl TilePlugin {
    /// The `k`-th of the eight offsets around a tile, in the order in which
    /// a tile's neighbours are visited.
    pub fn neighbour_offset(k: usize) -> (r: (i8, i8))
        requires
            k < 8,
        ensures
            r == neighbour_offset_at(k as int),
            is_neighbour_offset(r),
    {
        let cell: i8 = if k < 4 {
            k as i8
        } else {
            (k + 1) as i8
        };
        (cell % 3 - 1, cell / 3 - 1)
    }

    /// The chunk and tile position of the neighbour at `offset` of the tile
    /// at `tile_pos` in chunk `chunk_pos`, where a chunk is `chunk_size`
    /// tiles wide, along each axis: a step below 0 lands on the last tile of
    /// the previous chunk, a step to `chunk_size` or beyond on the first tile
    /// of the next chunk. A tile position is read as a byte (`as i8`).
    pub fn neighbour_tile_position(
        tile_pos: (u32, u32),
        chunk_pos: (i32, i32),
        offset: (i8, i8),
        chunk_size: u32,
    ) -> (r: ((i32, i32), (u32, u32)))
        requires
            chunk_size <= 127,
            axis_step_ok(tile_pos.0, chunk_pos.0, offset.0, chunk_size),
            axis_step_ok(tile_pos.1, chunk_pos.1, offset.1, chunk_size),
        ensures
            (r.0.0 as int, r.1.0 as int) == axis_step(tile_pos.0, chunk_pos.0, offset.0, chunk_size),
            (r.0.1 as int, r.1.1 as int) == axis_step(tile_pos.1, chunk_pos.1, offset.1, chunk_size),
    {
        let size = chunk_size as i8;
        let x = tile_pos.0 as i8;
        let y = tile_pos.1 as i8;
        let (dx, dy) = offset;
        let mut adjusted_chunk_pos = chunk_pos;
        let mut tile_x: u32 = 0;
        let mut tile_y: u32 = 0;
        if x + dx < 0 {
            adjusted_chunk_pos.0 = chunk_pos.0 - 1;
            tile_x = chunk_size - 1;
        } else if x + dx >= size {
            adjusted_chunk_pos.0 = chunk_pos.0 + 1;
            tile_x = 0;
        } else {
            tile_x = (x + dx) as u32;
        }
        if y + dy < 0 {
            adjusted_chunk_pos.1 = chunk_pos.1 - 1;
            tile_y = chunk_size - 1;
        } else if y + dy >= size {
            adjusted_chunk_pos.1 = chunk_pos.1 + 1;
            tile_y = 0;
        } else {
            tile_y = (y + dy) as u32;
        }
        (adjusted_chunk_pos, (tile_x, tile_y))
    }

    /// What the neighbour at offset `edge` of a changed tile draws after the
    /// change: its corners shared with the changed tile are copied from it.
    /// Only a neighbour with a texture offset, or any neighbour when
    /// `update_entity` is set, is redrawn; the copied corners always come
    /// out with offset 0.
    pub fn update_neighbour_tile(
        new_tile_blocks: [WorldObject; 4],
        neighbour: &TileSpriteData,
        edge: (i8, i8),
        update_entity: bool,
    ) -> (r: Option<TileSpriteData>)
        ensures
            spec_neighbour_update(new_tile_blocks@, *neighbour, edge, update_entity, r),
            !update_entity ==> r is None,
            update_entity ==> r is Some && r->0.texture_offset == 0 && r->0.raw_block_type
                == neighbour.raw_block_type,
            update_entity ==> forall|i: int|
                0 <= i < 4 ==> #[trigger] has_corner(r->0.tile_bit_index, i) == ((if is_neighbour_offset(
                    edge,
                ) && faces(edge, i) {
                    neighbour.block_type@[across(edge, i)]
                } else {
                    new_tile_blocks@[i]
                }) == WorldObject::WaterTile),
            update_entity ==> r->0.tile_bit_index < 16,
            update_entity ==> r->0.block_type@ == blocks_of_bits(r->0.tile_bit_index),
    {
        let updated_blocks = Self::compute_tile_blocks(new_tile_blocks, neighbour.block_type, edge);
        let (mut updated_bit_index, mut neighbour_tile_offset) = Self::get_bits_from_block_type(
            updated_blocks,
        );
        // only continue for tiles with grass
        if neighbour_tile_offset == 0 && !update_entity {
            return None;
        }
        // set to correct sand values if we are now fully sand
        if updated_bit_index == 0b1111 && neighbour_tile_offset == 16 {
            updated_bit_index = 0b0000;
            neighbour_tile_offset = 0;
        }
        let updated_block_type = Self::get_block_type_from_bits(
            updated_bit_index,
            neighbour_tile_offset,
        );
        proof {
            lemma_blocks_bits_round_trip(updated_blocks@);
            lemma_water_bits_corners(updated_blocks@);
            lemma_tile_blocks_near_and_far_corners(new_tile_blocks@, neighbour.block_type@, edge);
        }
        Some(
            TileSpriteData {
                tile_bit_index: updated_bit_index,
                block_type: updated_block_type,
                texture_offset: neighbour_tile_offset,
                raw_block_type: neighbour.raw_block_type,
            },
        )
    }

    /// The redraws of the eight neighbours of a changed tile: entry `k` is
    /// for the neighbour at `neighbour_offset(k)`, `None` where that
    /// neighbour is missing (its chunk or its tile data does not exist) or is
    /// not redrawn.
    pub fn _update_neighbour_tiles(
        new_tile: &TileSpriteData,
        neighbours: &Vec<Option<TileSpriteData>>,
        update_entity: bool,
    ) -> (r: Vec<Option<TileSpriteData>>)
        requires
            neighbours.len() == 8,
        ensures
            r.len() == 8,
            forall|k: int|
                0 <= k < 8 ==> match #[trigger] neighbours[k] {
                    None => r[k] is None,
                    Some(n) => spec_neighbour_update(
                        new_tile.block_type@,
                        n,
                        neighbour_offset_at(k),
                        update_entity,
                        r[k],
                    ),
                },
    {
        let mut r: Vec<Option<TileSpriteData>> = Vec::new();
        let mut k: usize = 0;
        while k < 8
            invariant
                neighbours.len() == 8,
                k <= 8,
                r.len() == k,
                forall|j: int|
                    0 <= j < k ==> match #[trigger] neighbours[j] {
                        None => r[j] is None,
                        Some(n) => spec_neighbour_update(
                            new_tile.block_type@,
                            n,
                            neighbour_offset_at(j),
                            update_entity,
                            r[j],
                        ),
                    },
            decreases 8 - k,
        {
            let edge = Self::neighbour_offset(k);
            let update = match &neighbours[k] {
                None => None,
                Some(n) => Self::update_neighbour_tile(new_tile.block_type, n, edge, update_entity),
            };
            r.push(update);
            k = k + 1;
        }
        r
    }
}

/// One step of recomputing a tile's own bits from the neighbour whose
/// corner blocks are `neighbour`, at offset `edge`: a tile generated with
/// water keeps only the water corners that the neighbour confirms; otherwise
/// a tile generated with grass and drawn with a texture offset gains the
/// neighbour's shared water corners; any other tile is left as it is.
pub open spec fn this_tile_step(
    bits: u8,
    raw_block_type: Seq<WorldObject>,
    tile_index_offset: u8,
    neighbour: Seq<WorldObject>,
    edge: (i8, i8),
) -> u8 {
    if raw_block_type.contains(WorldObject::WaterTile) {
        (water_bits(spec_compute_tile_blocks(blocks_of_bits(bits), neighbour, edge)) as u8) & bits
    } else if raw_block_type.contains(WorldObject::GrassTile) && tile_index_offset != 0 {
        spec_compute_tile_bits(bits, water_bits(neighbour) as u8, edge)
    } else {
        bits
    }
}

/// A tile's bits after the steps for the first `k` neighbours, skipping the
/// missing ones.
pub open spec fn this_tile_bits(
    bits: u8,
    raw_block_type: Seq<WorldObject>,
    tile_index_offset: u8,
    neighbours: Seq<Option<[WorldObject; 4]>>,
    k: nat,
) -> u8
    decreases k,
{
    if k == 0 {
        bits
    } else {
        let prev = this_tile_bits(bits, raw_block_type, tile_index_offset, neighbours, (k - 1) as nat);
        match neighbours[k - 1] {
            None => prev,
            Some(n) => this_tile_step(
                prev,
                raw_block_type,
                tile_index_offset,
                n@,
                neighbour_offset_at(k - 1),
            ),
        }
    }
}

/// Water tiles only lose corners, grass tiles with an offset only gain
/// corners, and other tiles keep their bits, over any number of steps.
pub proof fn lemma_this_tile_bits_direction(
    bits: u8,
    raw_block_type: Seq<WorldObject>,
    tile_index_offset: u8,
    neighbours: Seq<Option<[WorldObject; 4]>>,
    k: nat,
)
    requires
        k <= 8,
    ensures
        ({
            let r = this_tile_bits(bits, raw_block_type, tile_index_offset, neighbours, k);
            &&& raw_block_type.contains(WorldObject::WaterTile) ==> r & bits == r
            &&& !raw_block_type.contains(WorldObject::WaterTile) && raw_block_type.contains(
                WorldObject::GrassTile,
            ) && tile_index_offset != 0 ==> r & bits == bits
            &&& !raw_block_type.contains(WorldObject::WaterTile) && !(raw_block_type.contains(
                WorldObject::GrassTile,
            ) && tile_index_offset != 0) ==> r == bits
        }),
    decreases k,
{
    assert(bits & bits == bits) by (bit_vector);
    if k > 0 {
        lemma_this_tile_bits_direction(bits, raw_block_type, tile_index_offset, neighbours, (k - 1) as nat);
        let prev = this_tile_bits(bits, raw_block_type, tile_index_offset, neighbours, (k - 1) as nat);
        let r = this_tile_bits(bits, raw_block_type, tile_index_offset, neighbours, k);
        match neighbours[k - 1] {
            None => {},
            Some(n) => {
                let edge = neighbour_offset_at(k - 1);
                if raw_block_type.contains(WorldObject::WaterTile) {
                    let w = water_bits(spec_compute_tile_blocks(blocks_of_bits(prev), n@, edge)) as u8;
                    assert(r == w & prev);
                    assert((w & prev) & bits == w & prev) by (bit_vector)
                        requires
                            prev & bits == prev,
                    ;
                } else if raw_block_type.contains(WorldObject::GrassTile) && tile_index_offset != 0 {
                    assert(is_neighbour_offset(edge));
                    lemma_tile_bits_keep_water(prev, water_bits(n@) as u8, edge);
                    assert(r & bits == bits) by (bit_vector)
                        requires
                            r & prev == prev,
                            prev & bits == bits,
                    ;
                }
            },
        }
    }
}

/// One step of recomputing a tile from the neighbour at `edge` (whose
/// corner blocks are `neighbour`) changes only the corners that face that
/// neighbour. A tile generated with water keeps a water corner exactly when it
/// is on the far side or the neighbour's corner on the same point is water,
/// and never gains one. A tile generated with grass and drawn with an offset
/// keeps its water corners and gains the near corners where the neighbour's
/// corner on the same point is water. Any other tile is left as it is.
pub proof fn lemma_this_tile_step_corners(
    bits: u8,
    raw_block_type: Seq<WorldObject>,
    tile_index_offset: u8,
    neighbour: Seq<WorldObject>,
    edge: (i8, i8),
)
    requires
        neighbour.len() == 4,
        is_neighbour_offset(edge),
    ensures
        raw_block_type.contains(WorldObject::WaterTile) ==> forall|i: int|
            0 <= i < 4 ==> #[trigger] has_corner(
                this_tile_step(bits, raw_block_type, tile_index_offset, neighbour, edge),
                i,
            ) == (has_corner(bits, i) && (!faces(edge, i) || neighbour[across(edge, i)]
                == WorldObject::WaterTile)),
        raw_block_type.contains(WorldObject::WaterTile) ==> this_tile_step(
            bits,
            raw_block_type,
            tile_index_offset,
            neighbour,
            edge,
        ) & 0xf0 == 0,
        !raw_block_type.contains(WorldObject::WaterTile) && raw_block_type.contains(
            WorldObject::GrassTile,
        ) && tile_index_offset != 0 ==> forall|i: int|
            0 <= i < 4 ==> #[trigger] has_corner(
                this_tile_step(bits, raw_block_type, tile_index_offset, neighbour, edge),
                i,
            ) == (has_corner(bits, i) || (faces(edge, i) && neighbour[across(edge, i)]
                == WorldObject::WaterTile)),
        !raw_block_type.contains(WorldObject::WaterTile) && !(raw_block_type.contains(
            WorldObject::GrassTile,
        ) && tile_index_offset != 0) ==> this_tile_step(
            bits,
            raw_block_type,
            tile_index_offset,
            neighbour,
            edge,
        ) == bits,
{
    let r = this_tile_step(bits, raw_block_type, tile_index_offset, neighbour, edge);
    if raw_block_type.contains(WorldObject::WaterTile) {
        let blocks = spec_compute_tile_blocks(blocks_of_bits(bits), neighbour, edge);
        let w = water_bits(blocks) as u8;
        lemma_water_bits_corners(blocks);
        lemma_tile_blocks_near_and_far_corners(blocks_of_bits(bits), neighbour, edge);
        assert(w < 16);
        assert((w & bits) & 0xf0 == 0) by (bit_vector)
            requires
                w < 16,
        ;
        assert forall|i: int| 0 <= i < 4 implies #[trigger] has_corner(r, i) == (has_corner(bits, i)
            && (!faces(edge, i) || neighbour[across(edge, i)] == WorldObject::WaterTile)) by {
            lemma_has_corner_and(w, bits, i);
            assert(has_corner(w, i) == (blocks[i] == WorldObject::WaterTile));
        }
    } else if raw_block_type.contains(WorldObject::GrassTile) && tile_index_offset != 0 {
        let nb = water_bits(neighbour) as u8;
        lemma_water_bits_corners(neighbour);
        lemma_tile_bits_near_and_far_corners(bits, nb, edge);
        assert forall|i: int| 0 <= i < 4 implies #[trigger] has_corner(r, i) == (has_corner(bits, i)
            || (faces(edge, i) && neighbour[across(edge, i)] == WorldObject::WaterTile)) by {
            lemma_faces_is_touches(edge, i);
            if faces(edge, i) {
                assert(has_corner(nb, across(edge, i)) == (neighbour[across(edge, i)]
                    == WorldObject::WaterTile));
            }
        }
    }
}

/// The neighbours are visited row by row from the bottom row to the top
/// row, each row from left to right, skipping the tile itself.
pub proof fn lemma_neighbour_offsets_order()
    ensures
        neighbour_offset_at(0) == (-1i8, -1i8),
        neighbour_offset_at(1) == (0i8, -1i8),
        neighbour_offset_at(2) == (1i8, -1i8),
        neighbour_offset_at(3) == (-1i8, 0i8),
        neighbour_offset_at(4) == (1i8, 0i8),
        neighbour_offset_at(5) == (-1i8, 1i8),
        neighbour_offset_at(6) == (0i8, 1i8),
        neighbour_offset_at(7) == (1i8, 1i8),
{
}

/// Missing neighbours leave a tile's bits as they are.
proof fn lemma_this_tile_bits_skip_missing(
    bits: u8,
    raw_block_type: Seq<WorldObject>,
    tile_index_offset: u8,
    neighbours: Seq<Option<[WorldObject; 4]>>,
    a: nat,
    b: nat,
)
    requires
        a <= b,
        forall|j: int| a <= j < b ==> #[trigger] neighbours[j] is None,
    ensures
        this_tile_bits(bits, raw_block_type, tile_index_offset, neighbours, b) == this_tile_bits(
            bits,
            raw_block_type,
            tile_index_offset,
            neighbours,
            a,
        ),
    decreases b,
{
    if b > a {
        assert(neighbours[b - 1] is None);
        lemma_this_tile_bits_skip_missing(bits, raw_block_type, tile_index_offset, neighbours, a, (b - 1) as nat);
    }
}

/// A tile with no loaded neighbour keeps its bits, and a tile with a single
/// loaded neighbour `k` takes exactly the step for that neighbour, at its
/// offset: the other seven play no part.
pub proof fn lemma_this_tile_bits_single_neighbour(
    bits: u8,
    raw_block_type: Seq<WorldObject>,
    tile_index_offset: u8,
    neighbours: Seq<Option<[WorldObject; 4]>>,
    k: int,
)
    requires
        neighbours.len() == 8,
        0 <= k < 8,
        forall|j: int| 0 <= j < 8 && j != k ==> #[trigger] neighbours[j] is None,
    ensures
        neighbours[k] is None ==> this_tile_bits(bits, raw_block_type, tile_index_offset, neighbours, 8)
            == bits,
        neighbours[k] is Some ==> this_tile_bits(bits, raw_block_type, tile_index_offset, neighbours, 8)
            == this_tile_step(
            bits,
            raw_block_type,
            tile_index_offset,
            neighbours[k]->0@,
            neighbour_offset_at(k),
        ),
{
    lemma_this_tile_bits_skip_missing(bits, raw_block_type, tile_index_offset, neighbours, 0, k as nat);
    lemma_this_tile_bits_skip_missing(
        bits,
        raw_block_type,
        tile_index_offset,
        neighbours,
        (k + 1) as nat,
        8,
    );
    assert(this_tile_bits(bits, raw_block_type, tile_index_offset, neighbours, 0) == bits);
}

impl TilePlugin {
    /// Recomputes a tile's own bits from its eight neighbours (entry `k` of
    /// `neighbours` holds the corner blocks of the neighbour at
    /// `neighbour_offset(k)`, `None` where its chunk is not loaded), and
    /// returns what the tile draws afterwards with `tile_index_offset` as
    /// its texture offset.
    ///
    /// A tile generated with water only loses corners, a tile generated with
    /// grass and drawn with an offset only gains corners, and any other tile
    /// keeps its bits.
    pub fn update_this_tile(
        target: &TileSpriteData,
        tile_index_offset: u8,
        neighbours: &Vec<Option<[WorldObject; 4]>>,
    ) -> (r: TileSpriteData)
        requires
            neighbours.len() == 8,
        ensures
            r.tile_bit_index == this_tile_bits(
                target.tile_bit_index,
                target.raw_block_type@,
                tile_index_offset,
                neighbours@,
                8,
            ),
            r.block_type@ == blocks_of_bits(r.tile_bit_index),
            r.texture_offset == tile_index_offset,
            r.raw_block_type == target.raw_block_type,
            target.raw_block_type@.contains(WorldObject::WaterTile) ==> r.tile_bit_index
                & target.tile_bit_index == r.tile_bit_index,
            !target.raw_block_type@.contains(WorldObject::WaterTile)
                && target.raw_block_type@.contains(WorldObject::GrassTile) && tile_index_offset != 0
                ==> r.tile_bit_index & target.tile_bit_index == target.tile_bit_index,
            !target.raw_block_type@.contains(WorldObject::WaterTile) && !(
            target.raw_block_type@.contains(WorldObject::GrassTile) && tile_index_offset != 0)
                ==> r.tile_bit_index == target.tile_bit_index,
    {
        let mut updated_bits = target.tile_bit_index;
        let updated_index = tile_index_offset;
        let has_water = blocks_contain(&target.raw_block_type, WorldObject::WaterTile);
        let has_grass = blocks_contain(&target.raw_block_type, WorldObject::GrassTile);
        let mut k: usize = 0;
        while k < 8
            invariant
                neighbours.len() == 8,
                k <= 8,
                has_water == target.raw_block_type@.contains(WorldObject::WaterTile),
                has_grass == target.raw_block_type@.contains(WorldObject::GrassTile),
                updated_index == tile_index_offset,
                updated_bits == this_tile_bits(
                    target.tile_bit_index,
                    target.raw_block_type@,
                    tile_index_offset,
                    neighbours@,
                    k as nat,
                ),
            decreases 8 - k,
        {
            let edge = Self::neighbour_offset(k);
            match &neighbours[k] {
                None => {},
                Some(neighbour_blocks) => {
                    let neighbour_bits = Self::get_bits_from_block_type(*neighbour_blocks).0;
                    if has_water {
                        let my_blocks = Self::compute_tile_blocks(
                            Self::get_block_type_from_bits(updated_bits, 0),
                            *neighbour_blocks,
                            edge,
                        );
                        updated_bits = Self::get_bits_from_block_type(my_blocks).0 & updated_bits;
                    } else if has_grass && updated_index != 0 {
                        updated_bits = Self::compute_tile_bits(updated_bits, neighbour_bits, edge);
                    }
                },
            }
            k = k + 1;
        }
        proof {
            lemma_this_tile_bits_direction(
                target.tile_bit_index,
                target.raw_block_type@,
                tile_index_offset,
                neighbours@,
                8,
            );
        }
        let block_type = Self::get_block_type_from_bits(updated_bits, updated_index);
        TileSpriteData {
            tile_bit_index: updated_bits,
            block_type,
            texture_offset: updated_index,
            raw_block_type: target.raw_block_type,
        }
    }
}

// ------------------------------------------------------------------------
// Generating a tile from its corner samples
// ------------------------------------------------------------------------

/// A tile position read as an `i32` through a float: values beyond
/// `i32::MAX` become `i32::MAX`.
pub open spec fn saturated_tile(tile: u32) -> int {
    if tile > i32::MAX {
        i32::MAX as int
    } else {
        tile as int
    }
}

impl TilePlugin {
    /// The global tile coordinate of tile `tile` of chunk `chunk` along one
    /// axis, where a chunk is `chunk_size` tiles wide. A tile position
    /// beyond `i32::MAX` counts as `i32::MAX` (it is read through a float).
    pub fn tile_world_coordinate(tile: u32, chunk: i32, chunk_size: u32) -> (r: i32)
        requires
            chunk_size <= i32::MAX,
            i32::MIN <= chunk * chunk_size <= i32::MAX,
            i32::MIN <= saturated_tile(tile) + chunk * chunk_size <= i32::MAX,
        ensures
            r == saturated_tile(tile) + chunk * chunk_size,
    {
        let t: i32 = if tile > i32::MAX as u32 {
            i32::MAX
        } else {
            tile as i32
        };
        t + chunk * chunk_size as i32
    }

    /// The block found at one corner sample: stone everywhere when the
    /// generation asks for stone, else water where the height is at or below
    /// the water level, else grass. The first value is the corner's bit.
    pub fn sample_corner(stone: bool, below_water_level: bool) -> (r: (u8, WorldObject))
        ensures
            stone ==> r == (0u8, WorldObject::StoneTile),
            !stone && below_water_level ==> r == (1u8, WorldObject::WaterTile),
            !stone && !below_water_level ==> r == (0u8, WorldObject::GrassTile),
    {
        if stone {
            return (0, WorldObject::StoneTile);
        }
        let block = if below_water_level {
            WorldObject::WaterTile
        } else {
            WorldObject::GrassTile
        };
        let block_bits: u8 = if block == WorldObject::GrassTile {
            0
        } else {
            1
        };
        (block_bits, block)
    }

    /// Gathers the four corner samples (top left, top right, bottom left,
    /// bottom right) of a generated tile into its corner bits, its texture
    /// index shift (16 when a corner is stone, else 0) and its corner
    /// blocks.
    pub fn tile_from_corner_samples(samples: [(u8, WorldObject); 4]) -> (r: (
        [u8; 4],
        u8,
        [WorldObject; 4],
    ))
        ensures
            forall|i: int| 0 <= i < 4 ==> #[trigger] r.0@[i] == samples@[i].0,
            forall|i: int| 0 <= i < 4 ==> #[trigger] r.2@[i] == samples@[i].1,
            r.1 == (if r.2@.contains(WorldObject::StoneTile) {
                16u8
            } else {
                0u8
            }),
    {
        let tl = samples[0];
        let tr = samples[1];
        let bl = samples[2];
        let br = samples[3];
        let bits = [tl.0, tr.0, bl.0, br.0];
        let blocks = [tl.1, tr.1, bl.1, br.1];
        let mut index_shift: u8 = 0;
        if blocks_contain(&blocks, WorldObject::StoneTile) {
            index_shift = 16;
        }
        (bits, index_shift, blocks)
    }
}

impl TilePlugin {
    /// Sets the corner blocks of a tile to those of the bit index `bits`;
    /// the rest of what the tile draws is kept.
    pub fn change_tile_blocks(tile_data: &mut TileSpriteData, bits: u8, offset: u8)
        ensures
            final(tile_data).block_type@ == blocks_of_bits(bits),
            final(tile_data).tile_bit_index == old(tile_data).tile_bit_index,
            final(tile_data).texture_offset == old(tile_data).texture_offset,
            final(tile_data).raw_block_type == old(tile_data).raw_block_type,
    {
        let block_type = Self::get_block_type_from_bits(bits, offset);
        tile_data.block_type = block_type;
    }
}

} // verus!
