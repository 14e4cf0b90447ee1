use orion_core::game2048::GridSize;
use orion_core::snake::{BorderMode, SpeedTier};
use orion_core::store::{
    game2048_score_key, high_score_index, high_score_key, HighScoreStore, MemoryHighScoreStore,
    HIGH_SCORE_BUCKET_COUNT,
};

#[test]
fn keys_match_existing_nvs_contract() {
    let keys: Vec<_> = (0..HIGH_SCORE_BUCKET_COUNT).map(high_score_key).collect();
    assert_eq!(
        keys,
        vec![
            "bs_slow_b",
            "bs_slow_w",
            "bs_norm_b",
            "bs_norm_w",
            "bs_fast_b",
            "bs_fast_w",
            "bs_expr_b",
            "bs_expr_w"
        ]
    );
    assert_eq!(high_score_key(8), "");
}

#[test]
fn game2048_keys() {
    assert_eq!(game2048_score_key(0), "best_3x3");
    assert_eq!(game2048_score_key(1), "best_4x4");
    assert_eq!(game2048_score_key(2), "best_5x5");
    assert_eq!(game2048_score_key(3), "");
}

#[test]
fn update_only_keeps_better_scores() {
    let mut store = MemoryHighScoreStore::new();
    store.update_if_better(4, SpeedTier::Fast, BorderMode::Wrap);
    store.update_if_better(3, SpeedTier::Fast, BorderMode::Wrap);
    assert_eq!(store.best_score(SpeedTier::Fast, BorderMode::Wrap), 4);
    assert_eq!(store.best_score(SpeedTier::Fast, BorderMode::Borders), 0);
}

#[test]
fn game2048_best_score_per_grid_size() {
    let mut store = MemoryHighScoreStore::new();
    store.update_game2048_best_score(100, GridSize::Classic);
    store.update_game2048_best_score(50, GridSize::Small);
    assert_eq!(store.game2048_best_score(GridSize::Classic), 100);
    assert_eq!(store.game2048_best_score(GridSize::Small), 50);
    assert_eq!(store.game2048_best_score(GridSize::Large), 0);

    store.update_game2048_best_score(200, GridSize::Classic);
    assert_eq!(store.game2048_best_score(GridSize::Classic), 200);

    store.update_game2048_best_score(150, GridSize::Classic);
    assert_eq!(store.game2048_best_score(GridSize::Classic), 200);
}

#[test]
fn flags_best_keeps_maximum() {
    let mut store = MemoryHighScoreStore::new();
    store.update_flags_death_match_best_score(7);
    store.update_flags_death_match_best_score(5);
    assert_eq!(store.flags_death_match_best_score(), 7);
}

#[test]
fn high_score_index_pairs_speed_and_border() {
    assert_eq!(high_score_index(SpeedTier::Slow, BorderMode::Borders), 0);
    assert_eq!(high_score_index(SpeedTier::Normal, BorderMode::Wrap), 3);
    assert_eq!(high_score_index(SpeedTier::Expert, BorderMode::Wrap), 7);
}
