use orion_core::flappy::{
    scroll_speed_for_score, FlappyGame, FlappyMode, FlappyObstacle, FlappyTickOutcome, FLAPPY_FLOOR_Y,
    FLAPPY_INITIAL_LIVES, FLAPPY_INVINCIBLE_TICKS, FLAPPY_OBSTACLE_SPACING, FLAPPY_OBSTACLE_W,
    FLAPPY_PLAYER_X, FLAPPY_PLAY_TOP, FLAPPY_TICK_US, FLAP_VELOCITY, GAP_MIN_Y, GAP_STEP, START_Y,
};
use orion_core::rng::ScriptedRng;
use orion_core::store::{HighScoreStore, MemoryHighScoreStore};

fn score_one(game: &mut FlappyGame, store: &mut MemoryHighScoreStore, rng: &mut ScriptedRng) {
    game.set_motion_for_test(100, 0);
    game.set_obstacle_for_test(
        0,
        FlappyObstacle::new(FLAPPY_PLAYER_X - FLAPPY_OBSTACLE_W - 1, 80),
    );
    game.set_obstacle_for_test(1, FlappyObstacle::new(240, 80));
    game.set_obstacle_for_test(2, FlappyObstacle::new(300, 80));
    game.tick(store, rng);
}

#[test]
fn enter_loads_best_score() {
    let mut store = MemoryHighScoreStore::new();
    store.update_flappy_best_score(7);
    let mut game = FlappyGame::new();
    game.enter(&store);
    assert_eq!(game.mode(), FlappyMode::Ready);
    assert_eq!(game.best_score(), 7);
    assert_eq!(game.lives(), FLAPPY_INITIAL_LIVES);
}

#[test]
fn start_resets_lives_and_seeds_deterministic_gaps() {
    let store = MemoryHighScoreStore::new();
    let mut rng = ScriptedRng::new(vec![0, 2, 6]);
    let mut game = FlappyGame::new();
    game.set_lives_for_test(9);
    game.start(&store, &mut rng, 10);
    assert_eq!(game.mode(), FlappyMode::Playing);
    assert_eq!(game.lives(), FLAPPY_INITIAL_LIVES);
    assert_eq!(game.invincible_ticks_remaining(), 0);
    assert_eq!(game.obstacles()[0].gap_y, GAP_MIN_Y);
    assert_eq!(game.obstacles()[1].gap_y, GAP_MIN_Y + 2 * GAP_STEP);
    assert_eq!(game.obstacles()[2].gap_y, GAP_MIN_Y + 6 * GAP_STEP);
}

#[test]
fn flap_changes_velocity_only_during_play() {
    let store = MemoryHighScoreStore::new();
    let mut rng = ScriptedRng::new(vec![1]);
    let mut game = FlappyGame::new();
    assert!(!game.flap());
    game.start(&store, &mut rng, 0);
    assert!(game.flap());
    assert_eq!(game.velocity_fp(), FLAP_VELOCITY);
}

#[test]
fn gravity_tick_moves_player_down_after_start_velocity() {
    let mut store = MemoryHighScoreStore::new();
    let mut rng = ScriptedRng::new(vec![1]);
    let mut game = FlappyGame::new();
    game.start(&store, &mut rng, 0);
    let y = game.player_y();
    game.mark_ticked(FLAPPY_TICK_US);
    game.tick(&mut store, &mut rng);
    assert!(game.player_y() < y);
    for _ in 0..24 {
        game.mark_ticked(FLAPPY_TICK_US);
        game.tick(&mut store, &mut rng);
    }
    assert!(game.velocity_fp() > 0);
}

#[test]
fn obstacle_recycles_with_new_gap() {
    let mut store = MemoryHighScoreStore::new();
    let mut rng = ScriptedRng::new(vec![1, 2, 3, 4]);
    let mut game = FlappyGame::new();
    game.start(&store, &mut rng, 0);
    game.set_obstacle_for_test(0, FlappyObstacle::new(-FLAPPY_OBSTACLE_W - 1, 80));
    game.tick(&mut store, &mut rng);
    assert_eq!(
        game.obstacles()[0].x,
        564 + FLAPPY_OBSTACLE_SPACING - scroll_speed_for_score(0)
    );
    assert_eq!(game.obstacles()[0].gap_y, GAP_MIN_Y + 4 * GAP_STEP);
}

#[test]
fn scroll_speed_increases_every_ten_scores() {
    assert_eq!(scroll_speed_for_score(0), 2);
    assert_eq!(scroll_speed_for_score(9), 2);
    assert_eq!(scroll_speed_for_score(10), 3);
    assert_eq!(scroll_speed_for_score(19), 3);
    assert_eq!(scroll_speed_for_score(20), 4);
}

#[test]
fn tick_moves_obstacles_faster_after_ten_scores() {
    let mut store = MemoryHighScoreStore::new();
    let mut rng = ScriptedRng::new(vec![1]);
    let mut game = FlappyGame::new();
    game.start(&store, &mut rng, 0);
    game.set_score_for_test(10);
    game.set_obstacle_for_test(0, FlappyObstacle::new(200, 80));

    game.tick(&mut store, &mut rng);

    assert_eq!(game.obstacles()[0].x, 200 - scroll_speed_for_score(10));
}

#[test]
fn scores_once_when_obstacle_is_passed() {
    let mut store = MemoryHighScoreStore::new();
    let mut rng = ScriptedRng::new(vec![1]);
    let mut game = FlappyGame::new();
    game.start(&store, &mut rng, 0);
    game.set_obstacle_for_test(
        0,
        FlappyObstacle::new(FLAPPY_PLAYER_X - FLAPPY_OBSTACLE_W - 1, 80),
    );
    game.tick(&mut store, &mut rng);
    assert_eq!(game.score(), 1);
    game.tick(&mut store, &mut rng);
    assert_eq!(game.score(), 1);
}

#[test]
fn extra_life_awards_at_twenty_and_forty_scores() {
    let mut store = MemoryHighScoreStore::new();
    let mut rng = ScriptedRng::new(vec![1]);
    let mut game = FlappyGame::new();
    game.start(&store, &mut rng, 0);

    for _ in 0..19 {
        score_one(&mut game, &mut store, &mut rng);
    }
    assert_eq!(game.score(), 19);
    assert_eq!(game.lives(), 3);

    score_one(&mut game, &mut store, &mut rng);
    assert_eq!(game.score(), 20);
    assert_eq!(game.lives(), 4);

    for _ in 20..39 {
        score_one(&mut game, &mut store, &mut rng);
    }
    score_one(&mut game, &mut store, &mut rng);
    assert_eq!(game.score(), 40);
    assert_eq!(game.lives(), 5);
}

#[test]
fn extra_life_does_not_duplicate_at_same_milestone() {
    let mut store = MemoryHighScoreStore::new();
    let mut rng = ScriptedRng::new(vec![1]);
    let mut game = FlappyGame::new();
    game.start(&store, &mut rng, 0);

    for _ in 0..20 {
        score_one(&mut game, &mut store, &mut rng);
    }
    assert_eq!(game.lives(), 4);

    game.set_motion_for_test(100, 0);
    game.set_obstacle_for_test(0, FlappyObstacle::new(200, 80));
    game.tick(&mut store, &mut rng);
    assert_eq!(game.score(), 20);
    assert_eq!(game.lives(), 4);
}

#[test]
fn extra_lives_continue_without_low_cap() {
    let mut store = MemoryHighScoreStore::new();
    let mut rng = ScriptedRng::new(vec![1]);
    let mut game = FlappyGame::new();
    game.start(&store, &mut rng, 0);

    for _ in 0..100 {
        score_one(&mut game, &mut store, &mut rng);
    }

    assert_eq!(game.score(), 100);
    assert_eq!(game.lives(), 8);
}

#[test]
fn candle_collision_costs_one_life_and_continues() {
    let mut store = MemoryHighScoreStore::new();
    let mut rng = ScriptedRng::new(vec![1]);
    let mut game = FlappyGame::new();
    game.start(&store, &mut rng, 0);
    game.set_player_y_for_test(50);
    game.set_obstacle_for_test(0, FlappyObstacle::new(FLAPPY_PLAYER_X, 80));
    let outcome = game.tick(&mut store, &mut rng);
    assert_eq!(outcome, FlappyTickOutcome { life_lost: true });
    assert_eq!(game.mode(), FlappyMode::Playing);
    assert_eq!(game.lives(), 2);
    assert_eq!(game.player_y(), START_Y);
    assert_eq!(game.velocity_fp(), FLAP_VELOCITY / 2);
    assert_eq!(game.invincible_ticks_remaining(), FLAPPY_INVINCIBLE_TICKS);
}

#[test]
fn jelly_collision_costs_one_life_and_continues() {
    let mut store = MemoryHighScoreStore::new();
    let mut rng = ScriptedRng::new(vec![1]);
    let mut game = FlappyGame::new();
    game.start(&store, &mut rng, 0);
    game.set_player_y_for_test(160);
    game.set_obstacle_for_test(0, FlappyObstacle::new(FLAPPY_PLAYER_X, 80));
    game.tick(&mut store, &mut rng);
    assert_eq!(game.mode(), FlappyMode::Playing);
    assert_eq!(game.lives(), 2);
}

#[test]
fn floor_and_ceiling_collisions_cost_one_life() {
    let mut store = MemoryHighScoreStore::new();
    let mut rng = ScriptedRng::new(vec![1]);
    let mut floor_game = FlappyGame::new();
    floor_game.start(&store, &mut rng, 0);
    floor_game.set_player_y_for_test(FLAPPY_FLOOR_Y);
    floor_game.tick(&mut store, &mut rng);
    assert_eq!(floor_game.mode(), FlappyMode::Playing);
    assert_eq!(floor_game.lives(), 2);

    let mut ceiling_game = FlappyGame::new();
    ceiling_game.start(&store, &mut rng, 0);
    ceiling_game.set_player_y_for_test(FLAPPY_PLAY_TOP - 1);
    ceiling_game.tick(&mut store, &mut rng);
    assert_eq!(ceiling_game.mode(), FlappyMode::Playing);
    assert_eq!(ceiling_game.lives(), 2);
}

#[test]
fn non_final_collision_keeps_score_and_scrolled_obstacles() {
    let mut store = MemoryHighScoreStore::new();
    let mut rng = ScriptedRng::new(vec![1]);
    let mut game = FlappyGame::new();
    game.start(&store, &mut rng, 0);
    game.set_score_for_test(7);
    game.set_player_y_for_test(FLAPPY_FLOOR_Y);
    let before = *game.obstacles();

    game.tick(&mut store, &mut rng);

    assert_eq!(game.score(), 7);
    assert_eq!(
        game.obstacles()[0].x,
        before[0].x - scroll_speed_for_score(7)
    );
    assert_eq!(game.obstacles()[0].gap_y, before[0].gap_y);
    assert_eq!(game.mode(), FlappyMode::Playing);
}

#[test]
fn invincibility_prevents_repeated_life_loss() {
    let mut store = MemoryHighScoreStore::new();
    let mut rng = ScriptedRng::new(vec![1]);
    let mut game = FlappyGame::new();
    game.start(&store, &mut rng, 0);
    game.set_player_y_for_test(FLAPPY_FLOOR_Y);
    game.tick(&mut store, &mut rng);
    assert_eq!(game.lives(), 2);

    game.set_player_y_for_test(FLAPPY_FLOOR_Y);
    let outcome = game.tick(&mut store, &mut rng);

    assert_eq!(outcome, FlappyTickOutcome { life_lost: false });
    assert_eq!(game.lives(), 2);
    assert_eq!(
        game.invincible_ticks_remaining(),
        FLAPPY_INVINCIBLE_TICKS - 1
    );
}

#[test]
fn final_collision_enters_game_over() {
    let mut store = MemoryHighScoreStore::new();
    let mut rng = ScriptedRng::new(vec![1]);
    let mut game = FlappyGame::new();
    game.start(&store, &mut rng, 0);
    game.set_lives_for_test(1);
    game.set_player_y_for_test(FLAPPY_FLOOR_Y);

    let outcome = game.tick(&mut store, &mut rng);

    assert_eq!(outcome, FlappyTickOutcome { life_lost: true });
    assert_eq!(game.mode(), FlappyMode::GameOver);
    assert_eq!(game.lives(), 0);
}

#[test]
fn updates_persisted_best_score() {
    let mut store = MemoryHighScoreStore::new();
    let mut rng = ScriptedRng::new(vec![1]);
    let mut game = FlappyGame::new();
    game.start(&store, &mut rng, 0);
    game.set_obstacle_for_test(
        0,
        FlappyObstacle::new(FLAPPY_PLAYER_X - FLAPPY_OBSTACLE_W - 1, 80),
    );
    game.tick(&mut store, &mut rng);
    assert_eq!(game.best_score(), 1);
    assert_eq!(store.flappy_best_score(), 1);
}

#[test]
fn pause_continue_round_trip() {
    let store = MemoryHighScoreStore::new();
    let mut rng = ScriptedRng::new(vec![1]);
    let mut game = FlappyGame::new();
    game.start(&store, &mut rng, 0);
    game.pause();
    assert_eq!(game.mode(), FlappyMode::Paused);
    game.resume(10);
    assert_eq!(game.mode(), FlappyMode::Playing);
}
