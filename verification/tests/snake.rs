use orion_core::config::{Cell, Direction, BOARD_COLS, BOARD_ROWS};
use orion_core::rng::ScriptedRng;
use orion_core::snake::{
    cycle_border_mode, cycle_speed_tier, speed_config, BorderMode, GameMode, SnakeGame, SpeedTier,
};
use orion_core::store::{HighScoreStore, MemoryHighScoreStore};

fn food_on_snake(game: &SnakeGame) -> bool {
    (0..game.length()).any(|i| game.snake_at(i) == game.food())
}

#[test]
fn reset_starts_in_middle_with_food_off_snake() {
    let scores = MemoryHighScoreStore::new();
    let mut rng = ScriptedRng::new(vec![0, 0, 12, 7]);
    let mut game = SnakeGame::default();
    game.reset(&scores, &mut rng, 10);

    assert_eq!(game.mode(), GameMode::Playing);
    assert_eq!(game.length(), 4);
    assert_eq!(game.head(), Cell::new(BOARD_COLS / 2, BOARD_ROWS / 2));
    assert!(!food_on_snake(&game));
}

#[test]
fn ignores_immediate_reverse_direction() {
    let scores = MemoryHighScoreStore::new();
    let mut rng = ScriptedRng::new(vec![0, 0, 12, 7]);
    let mut game = SnakeGame::default();
    game.reset(&scores, &mut rng, 0);
    game.request_direction(Direction::Left);
    game.tick(&mut MemoryHighScoreStore::new(), &mut rng);
    assert_eq!(game.head(), Cell::new(BOARD_COLS / 2 + 1, BOARD_ROWS / 2));
}

#[test]
fn eating_scores_by_current_speed_and_persists_best() {
    let mut scores = MemoryHighScoreStore::new();
    let mut rng = ScriptedRng::new(vec![11, 7, 0, 0]);
    let mut game = SnakeGame::default();
    game.set_options(SpeedTier::Expert, BorderMode::Borders, &scores);
    game.reset(&scores, &mut rng, 0);
    game.tick(&mut scores, &mut rng);

    assert_eq!(game.score(), 4);
    assert_eq!(scores.best_score(SpeedTier::Expert, BorderMode::Borders), 4);
}

#[test]
fn wrap_mode_crosses_board_edge() {
    let mut scores = MemoryHighScoreStore::new();
    let mut rng = ScriptedRng::new(vec![12, 6, 0, 0]);
    let mut game = SnakeGame::default();
    game.set_options(SpeedTier::Normal, BorderMode::Wrap, &scores);
    game.reset(&scores, &mut rng, 0);
    for _ in 0..11 {
        game.tick(&mut scores, &mut rng);
    }
    assert_eq!(game.mode(), GameMode::Playing);
    assert_eq!(game.head().x, 1);
}

#[test]
fn border_mode_ends_round_at_edge() {
    let mut scores = MemoryHighScoreStore::new();
    let mut rng = ScriptedRng::new(vec![0, 0]);
    let mut game = SnakeGame::default();
    game.reset(&scores, &mut rng, 0);
    for _ in 0..9 {
        game.tick(&mut scores, &mut rng);
    }
    assert_eq!(game.mode(), GameMode::Playing);
    assert_eq!(game.head().x, BOARD_COLS - 1);
    game.tick(&mut scores, &mut rng);
    assert_eq!(game.mode(), GameMode::Over);
    assert_eq!(game.head().x, BOARD_COLS - 1);
}

#[test]
fn switch_cycles_through_modes() {
    let scores = MemoryHighScoreStore::new();
    let mut rng = ScriptedRng::new(vec![0, 0]);
    let mut game = SnakeGame::default();
    assert!(game.press_switch(&scores, &mut rng, 5));
    assert_eq!(game.mode(), GameMode::Playing);
    assert!(game.press_switch(&scores, &mut rng, 6));
    assert_eq!(game.mode(), GameMode::Paused);
    assert!(game.press_switch(&scores, &mut rng, 7));
    assert_eq!(game.mode(), GameMode::Playing);
    assert!(game.due_for_tick(7 + 180_000));
    assert!(!game.due_for_tick(7 + 179_999));
}

#[test]
fn speed_and_border_cycle() {
    assert_eq!(cycle_speed_tier(SpeedTier::Slow, -1), SpeedTier::Expert);
    assert_eq!(cycle_speed_tier(SpeedTier::Expert, 1), SpeedTier::Slow);
    assert_eq!(cycle_border_mode(BorderMode::Borders, 3), BorderMode::Wrap);
    assert_eq!(cycle_border_mode(BorderMode::Wrap, 2), BorderMode::Wrap);
    assert_eq!(speed_config(SpeedTier::Fast).tick_ms, 120);
    assert_eq!(speed_config(SpeedTier::Slow).name, "SLOW");
}

#[test]
fn adjust_selected_value_changes_speed_in_setup() {
    let mut scores = MemoryHighScoreStore::new();
    scores.update_if_better(9, SpeedTier::Fast, BorderMode::Borders);
    let mut game = SnakeGame::default();
    assert!(game.adjust_selected_value(&scores, 1));
    assert_eq!(game.speed_tier(), SpeedTier::Fast);
    assert_eq!(game.best_score(), 9);
    assert!(!game.adjust_selected_value(&scores, 0));
}

#[test]
fn speed_turn_and_back_round_trip() {
    for tier in [SpeedTier::Slow, SpeedTier::Normal, SpeedTier::Fast, SpeedTier::Expert] {
        assert_eq!(cycle_speed_tier(cycle_speed_tier(tier, 7), -7), tier);
        assert_eq!(cycle_speed_tier(tier, 4), tier);
    }
}
