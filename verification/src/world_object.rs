use vstd::prelude::*;

verus! {

/// The kinds of world objects that the tile and inventory rules tell apart.
///
/// Ground tiles are named; every other object of the game is carried by an
/// integer identifier, which is all that these rules ever compare.
#[derive(Clone, Copy, Debug, PartialEq, Eq, Hash, Structural)]
pub enum WorldObject {
    GrassTile,
    WaterTile,
    StoneTile,
    Other(u32),
}

impl WorldObject {
    /// Whether this object is a water tile.
    pub fn is_water(&self) -> (r: bool)
        ensures
            r == (*self == WorldObject::WaterTile),
    {
        match self {
            WorldObject::WaterTile => true,
            _ => false,
        }
    }
}

} // verus!
