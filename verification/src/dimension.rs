//! Dimensions and eras: which world-generation parameters and which cached
//! world objects belong to the era that a new dimension is spawned in.
use vstd::prelude::*;

use std::collections::HashMap;

verus! {

broadcast use vstd::std_specs::hash::group_hash_axioms;

/// Marks the entity of a world dimension.
#[derive(Clone, Copy, Debug, Default)]
pub struct Dimension;

/// Marks a dimension that is to become the active one.
#[derive(Clone, Copy, Debug, Default)]
pub struct SpawnDimension;

/// Marks the dimension that is currently active.
#[derive(Clone, Copy, Debug, Default)]
pub struct ActiveDimension;

/// The seed that world generation starts from.
#[derive(Clone, Copy, Debug, Default)]
pub struct GenerationSeed {
    pub seed: u64,
}

/// A request to spawn a new dimension, switching to it at once when
/// `swap_to_dim_now` is set, and moving to `new_era` when one is given.
#[derive(Clone, Copy, Debug)]
pub struct DimensionSpawnEvent {
    pub swap_to_dim_now: bool,
    pub new_era: Option<Era>,
}

/// The eras of the world.
#[derive(Clone, Copy, Debug, PartialEq, Eq, Hash, Structural)]
pub enum Era {
    Main,
    Second,
}

/// The position of an era in the order of eras.
pub open spec fn era_index(era: Era) -> nat {
    match era {
        Era::Main => 0,
        Era::Second => 1,
    }
}

/// Number of textures in one era's row of the texture sheet.
pub const ERA_TEXTURE_STRIDE: usize = 32;

impl Era {
    /// The first texture of this era: each era owns a block of
    /// `ERA_TEXTURE_STRIDE` textures.
    pub fn get_texture_index(&self) -> (r: usize)
        ensures
            r == era_index(*self) * ERA_TEXTURE_STRIDE,
    {
        match self {
            Era::Main => 0,
            Era::Second => 2 * 16,
        }
    }

    /// The position of this era in the order of eras.
    pub fn index(&self) -> (r: usize)
        ensures
            r == era_index(*self),
    {
        match self {
            Era::Main => 0,
            Era::Second => 1,
        }
    }

    /// The era at position `index`; there are two eras.
    pub fn from_index(index: usize) -> (r: Era)
        requires
            index < 2,
        ensures
            era_index(r) == index,
    {
        match index {
            0 => Era::Main,
            _ => Era::Second,
        }
    }

    /// The name of the world-generation parameters of this era:
    /// `Era<n>WorldGenerationParams`, where `n` is the era's index plus one.
    pub fn world_generation_params(&self) -> (r: &'static str)
        ensures
            *self == Era::Main ==> r@ == "Era1WorldGenerationParams"@,
            *self == Era::Second ==> r@ == "Era2WorldGenerationParams"@,
    {
        match self {
            Era::Main => "Era1WorldGenerationParams",
            Era::Second => "Era2WorldGenerationParams",
        }
    }
}

impl Default for Era {
    fn default() -> (r: Era)
        ensures
            r == Era::Main,
    {
        Era::Main
    }
}

/// Every era has an index below 2 and no two eras share one: so
/// `Era::from_index(e.index())` is `e` again, and
/// `Era::from_index(i).index()` is `i` for `i < 2`.
pub proof fn lemma_era_index_bijective(a: Era, b: Era)
    ensures
        era_index(a) < 2,
        era_index(a) == era_index(b) ==> a == b,
{
}

/// The key under which the world objects cached for `era` are kept.
pub open spec fn era_key(era: Era) -> usize {
    era_index(era) as usize
}

/// Whether any dimension is active, given how many are.
pub fn dim_spawned(active_dimensions: usize) -> (r: bool)
    ensures
        r == (active_dimensions > 0),
{
    active_dimensions > 0
}

/// The era the world is in, the eras visited, and the world objects cached
/// for each era that the world has left, keyed by the era's index.
#[derive(Clone, Debug)]
pub struct EraManager<C> {
    pub current_era: Era,
    pub visited_eras: Vec<Era>,
    pub era_generation_cache: HashMap<usize, C>,
}

impl<C> Default for EraManager<C> {
    fn default() -> (r: Self)
        ensures
            r.current_era == Era::Main,
            r.visited_eras@ == Seq::<Era>::empty(),
            r.era_generation_cache@ == Map::<usize, C>::empty(),
    {
        EraManager {
            current_era: Era::Main,
            visited_eras: Vec::new(),
            era_generation_cache: HashMap::new(),
        }
    }
}

/// What to do with the world-object cache of the game when a dimension is
/// spawned.
pub enum WorldCacheAction<C> {
    /// The era changed: drop the current world objects and use the cached
    /// ones of the new era, or fresh ones when `None`.
    Swap(Option<C>),
    /// The era is kept: use the cached world objects of the era when there
    /// are some (`Some`), else keep the current ones.
    Restore(Option<C>),
}

/// What spawning a new dimension does beyond the era bookkeeping.
pub struct NewDimensionPlan<C> {
    /// Make the new dimension the active one at once.
    pub swap_to_dim_now: bool,
    /// The era whose world-generation parameters are applied.
    pub generation_era: Era,
    /// What becomes of the world-object cache.
    pub world_cache: WorldCacheAction<C>,
}

impl<C: Clone> EraManager<C> {
    /// The era bookkeeping of spawning a new dimension. With a new era, the
    /// current world objects (`world_obj_cache`) are cached under the era
    /// that is left, the new era becomes current, and the world objects
    /// cached for it, if any, come back. Without one, the current era stays
    /// and its cached world objects, if any, come back. The world-generation
    /// parameters applied are those of the era the world is in afterwards.
    pub fn new_dim_with_params(&mut self, event: &DimensionSpawnEvent, world_obj_cache: &C) -> (r:
        NewDimensionPlan<C>)
        ensures
            r.swap_to_dim_now == event.swap_to_dim_now,
            r.generation_era == final(self).current_era,
            final(self).visited_eras@ == old(self).visited_eras@,
            match event.new_era {
                Some(new_era) => {
                    let left = era_key(old(self).current_era);
                    &&& final(self).current_era == new_era
                    &&& final(self).era_generation_cache@.dom() == old(
                        self,
                    ).era_generation_cache@.dom().insert(left)
                    &&& cloned(*world_obj_cache, final(self).era_generation_cache@[left])
                    &&& forall|k: usize|
                        k != left && #[trigger] old(self).era_generation_cache@.contains_key(k)
                            ==> final(self).era_generation_cache@[k] == old(
                            self,
                        ).era_generation_cache@[k]
                    &&& match r.world_cache {
                        WorldCacheAction::Swap(c) => {
                            &&& (c is Some) == final(self).era_generation_cache@.contains_key(
                                era_key(new_era),
                            )
                            &&& c is Some ==> cloned(
                                final(self).era_generation_cache@[era_key(new_era)],
                                c->0,
                            )
                        },
                        WorldCacheAction::Restore(_) => false,
                    }
                },
                None => {
                    let kept = era_key(old(self).current_era);
                    &&& final(self).current_era == old(self).current_era
                    &&& final(self).era_generation_cache@ == old(self).era_generation_cache@
                    &&& match r.world_cache {
                        WorldCacheAction::Restore(c) => {
                            &&& (c is Some) == old(self).era_generation_cache@.contains_key(kept)
                            &&& c is Some ==> cloned(old(self).era_generation_cache@[kept], c->0)
                        },
                        WorldCacheAction::Swap(_) => false,
                    }
                },
            },
    {
        match &event.new_era {
            Some(new_era) => {
                let curr_era = self.current_era;
                let stored = world_obj_cache.clone();
                self.era_generation_cache.insert(curr_era.index(), stored);
                self.current_era = *new_era;
                let new_world_cache = self.era_generation_cache.get(&new_era.index()).cloned();
                NewDimensionPlan {
                    swap_to_dim_now: event.swap_to_dim_now,
                    generation_era: *new_era,
                    world_cache: WorldCacheAction::Swap(new_world_cache),
                }
            },
            None => {
                let era_cache = self.era_generation_cache.get(&self.current_era.index()).cloned();
                NewDimensionPlan {
                    swap_to_dim_now: event.swap_to_dim_now,
                    generation_era: self.current_era,
                    world_cache: WorldCacheAction::Restore(era_cache),
                }
            },
        }
    }
}

/// Leaving era `a` for era `b` and then coming back finds the world objects
/// that were cached when `a` was left: the cache kept on leaving `b` does
/// not touch them.
pub proof fn lemma_era_cache_round_trip<C>(
    cache: Map<usize, C>,
    a: Era,
    b: Era,
    left_a: C,
    left_b: C,
)
    requires
        a != b,
    ensures
        ({
            let after_a = cache.insert(era_key(a), left_a);
            let after_b = after_a.insert(era_key(b), left_b);
            &&& after_b.contains_key(era_key(a))
            &&& after_b[era_key(a)] == left_a
        }),
{
}

} // verus!
