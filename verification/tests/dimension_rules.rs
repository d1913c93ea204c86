use island_world::dimension::{dim_spawned, DimensionSpawnEvent, Era, EraManager, WorldCacheAction};

#[test]
fn era_indices_and_textures() {
    assert_eq!(Era::Main.index(), 0);
    assert_eq!(Era::Second.index(), 1);
    assert_eq!(Era::Main.get_texture_index(), 0);
    assert_eq!(Era::Second.get_texture_index(), 32);
    assert_eq!(Era::from_index(0), Era::Main);
    assert_eq!(Era::from_index(1), Era::Second);
    for e in [Era::Main, Era::Second] {
        assert_eq!(Era::from_index(e.index()), e);
    }
    assert_eq!(Era::default(), Era::Main);
}

#[test]
fn era_generation_params_names() {
    assert_eq!(Era::Main.world_generation_params(), "Era1WorldGenerationParams");
    assert_eq!(Era::Second.world_generation_params(), "Era2WorldGenerationParams");
    for e in [Era::Main, Era::Second] {
        assert_eq!(e.world_generation_params(), format!("Era{}WorldGenerationParams", e.index() + 1));
    }
}

#[test]
fn dim_spawned_counts_active_dimensions() {
    assert!(!dim_spawned(0));
    assert!(dim_spawned(1));
    assert!(dim_spawned(3));
}

#[test]
fn era_swaps_cache_world_objects() {
    let mut m: EraManager<u32> = EraManager::default();
    assert_eq!(m.current_era, Era::Main);

    // same era, nothing cached yet
    let plan = m.new_dim_with_params(&DimensionSpawnEvent { swap_to_dim_now: true, new_era: None }, &5);
    assert!(plan.swap_to_dim_now);
    assert_eq!(plan.generation_era, Era::Main);
    assert!(matches!(plan.world_cache, WorldCacheAction::Restore(None)));
    assert!(m.era_generation_cache.is_empty());

    // to the second era: the main era's objects are cached
    let plan = m.new_dim_with_params(
        &DimensionSpawnEvent { swap_to_dim_now: false, new_era: Some(Era::Second) },
        &7,
    );
    assert!(!plan.swap_to_dim_now);
    assert_eq!(plan.generation_era, Era::Second);
    assert!(matches!(plan.world_cache, WorldCacheAction::Swap(None)));
    assert_eq!(m.current_era, Era::Second);
    assert_eq!(m.era_generation_cache.get(&0), Some(&7));

    // back to the main era: its objects come back
    let plan = m.new_dim_with_params(
        &DimensionSpawnEvent { swap_to_dim_now: true, new_era: Some(Era::Main) },
        &9,
    );
    assert_eq!(plan.generation_era, Era::Main);
    assert!(matches!(plan.world_cache, WorldCacheAction::Swap(Some(7))));
    assert_eq!(m.era_generation_cache.get(&1), Some(&9));
    assert_eq!(m.era_generation_cache.get(&0), Some(&7));

    // staying: the cached objects of the current era are restored
    let plan = m.new_dim_with_params(&DimensionSpawnEvent { swap_to_dim_now: true, new_era: None }, &11);
    assert_eq!(plan.generation_era, Era::Main);
    assert!(matches!(plan.world_cache, WorldCacheAction::Restore(Some(7))));
    assert_eq!(m.era_generation_cache.len(), 2);
    assert!(m.visited_eras.is_empty());
}
