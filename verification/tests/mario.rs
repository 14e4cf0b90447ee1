use orion_core::mario::{
    fp_to_px, MarioEnemy, MarioEnemyType, MarioGame, MarioMode, MarioPauseAction, FP_ONE, GAME_AREA_Y,
    PLAYER_H, PLAYER_W, START_LIVES, TICK_US, TILE_AIR, TILE_FLAGPOLE, TILE_FLAGPOLE_TOP, TILE_GROUND,
    TILE_HARD, TILE_PIPE_BL, TILE_PIPE_TL, TILE_PIPE_TR, TILE_QUESTION, TILE_SIZE, TILE_USED,
};
use orion_core::store::{HighScoreStore, MemoryHighScoreStore};

#[test]
fn new_game_is_ready() {
    let game = MarioGame::new();
    assert_eq!(game.mode(), MarioMode::Ready);
}

#[test]
fn level_has_ground() {
    let game = MarioGame::new();
    assert_eq!(game.tile_at(12, 0), TILE_GROUND);
    assert_eq!(game.tile_at(13, 0), TILE_GROUND);
}

#[test]
fn gap_is_air() {
    let game = MarioGame::new();
    assert_eq!(game.tile_at(12, 85), TILE_AIR);
    assert_eq!(game.tile_at(13, 86), TILE_AIR);
}

#[test]
fn levels_has_question_blocks() {
    let game = MarioGame::new();
    assert_eq!(game.tile_at(9, 14), TILE_QUESTION);
    assert_eq!(game.tile_at(9, 21), TILE_QUESTION);
    assert_eq!(game.tile_at(5, 61), TILE_QUESTION);
}

#[test]
fn levels_has_pipes() {
    let game = MarioGame::new();
    assert_eq!(game.tile_at(8, 30), TILE_PIPE_TL);
    assert_eq!(game.tile_at(8, 31), TILE_PIPE_TR);
    assert_eq!(game.tile_at(11, 30), TILE_PIPE_BL);
}

#[test]
fn levels_has_flagpole() {
    let game = MarioGame::new();
    assert_eq!(game.tile_at(2, 196), TILE_FLAGPOLE_TOP);
    assert_eq!(game.tile_at(5, 196), TILE_FLAGPOLE);
}

#[test]
fn jumping_applies_velocity() {
    let mut game = MarioGame::new();
    game.set_mode(MarioMode::Playing);
    let y_before = game.player().y;
    game.jump();
    game.tick(&mut MemoryHighScoreStore::new());
    assert!(game.player().y < y_before, "Player should move up after jump");
}

#[test]
fn gravity_pulls_player_down() {
    let mut game = MarioGame::new();
    game.set_mode(MarioMode::Playing);
    game.set_player_on_ground(false);
    game.set_player_vy(0);
    let y_before = game.player().y;
    game.tick(&mut MemoryHighScoreStore::new());
    assert!(game.player().vy > 0, "Velocity should increase downward");
    assert!(game.player().y > y_before, "Player should move down");
}

#[test]
fn stomp_enemy_awards_points() {
    let mut game = MarioGame::new();
    game.set_mode(MarioMode::Playing);
    game.set_enemy_count(1);
    game.set_enemy(0, MarioEnemy {
        x: 100 * FP_ONE,
        y: 200 * FP_ONE,
        vx: FP_ONE,
        spawn_x: 100 * TILE_SIZE as i32,
        alive: true,
        stomped: false,
        shell_timer: 0,
        enemy_type: MarioEnemyType::ChompNom,
    });
    game.set_player_position(100 * FP_ONE, 190 * FP_ONE);
    game.set_player_vy(10);
    game.check_player_enemy_collisions();
    assert!(game.enemies()[0].stomped, "Enemy should be stomped");
    assert!(game.score() > 0);
}

#[test]
fn player_starts_at_correct_position() {
    let game = MarioGame::new();
    let expected_y = ((GAME_AREA_Y + 11 * TILE_SIZE - PLAYER_H) as i32) * FP_ONE;
    assert_eq!(game.player().y, expected_y);
    assert_eq!(game.player().x, 3 * FP_ONE);
}

#[test]
fn stairs_are_hard_blocks() {
    let game = MarioGame::new();
    assert_eq!(game.tile_at(11, 176), TILE_HARD);
    assert_eq!(game.tile_at(10, 178), TILE_HARD);
    assert_eq!(game.tile_at(9, 180), TILE_HARD);
}

// ── State transitions ──

#[test]
fn start_sets_playing_mode() {
    let mut game = MarioGame::new();
    game.start();
    assert_eq!(game.mode(), MarioMode::Playing);
}

#[test]
fn start_resets_player_position() {
    let mut game = MarioGame::new();
    let expected_y = ((GAME_AREA_Y + 11 * TILE_SIZE - PLAYER_H) as i32) * FP_ONE;
    game.start();
    assert_eq!(game.player().x, 3 * FP_ONE);
    assert_eq!(game.player().y, expected_y);
}

#[test]
fn pause_resume_cycle() {
    let mut game = MarioGame::new();
    game.start();
    assert_eq!(game.mode(), MarioMode::Playing);
    game.pause();
    assert_eq!(game.mode(), MarioMode::Paused);
    game.resume();
    assert_eq!(game.mode(), MarioMode::Playing);
}

#[test]
fn pause_while_not_playing_is_noop() {
    let mut game = MarioGame::new();
    assert_eq!(game.mode(), MarioMode::Ready);
    game.pause();
    assert_eq!(game.mode(), MarioMode::Ready);
}

#[test]
fn resume_while_not_paused_is_noop() {
    let mut game = MarioGame::new();
    game.start();
    game.resume();
    assert_eq!(game.mode(), MarioMode::Playing);
}

#[test]
fn mario_cycle_pause_action_toggles() {
    let mut game = MarioGame::new();
    game.start();
    game.pause();
    assert_eq!(game.pause_action(), MarioPauseAction::Continue);
    game.cycle_pause_action();
    assert_eq!(game.pause_action(), MarioPauseAction::Exit);
    game.cycle_pause_action();
    assert_eq!(game.pause_action(), MarioPauseAction::Continue);
}

// ── Jump ──

#[test]
fn jump_when_on_ground_sets_negative_vy() {
    let mut game = MarioGame::new();
    game.start();
    assert!(game.player().on_ground);
    game.jump();
    assert!(game.player().vy < 0, "Jump should set upward velocity");
}

#[test]
fn jump_when_airborne_does_nothing() {
    let mut game = MarioGame::new();
    game.start();
    game.set_player_on_ground(false);
    let vy_before = game.player().vy;
    game.jump();
    assert_eq!(game.player().vy, vy_before, "Jump should be ignored in air");
}

#[test]
fn jump_moves_player_up() {
    let mut game = MarioGame::new();
    let mut store = MemoryHighScoreStore::new();
    game.start();
    game.mark_ticked(0);
    let y_before = game.player().y;
    game.jump();
    assert!(game.due_for_tick(TICK_US));
    game.tick(&mut store);
    assert!(
        game.player().y < y_before,
        "Player should rise after jump tick"
    );
}

#[test]
fn release_jump_allows_fall() {
    let mut game = MarioGame::new();
    let mut store = MemoryHighScoreStore::new();
    game.start();
    game.jump();
    game.release_jump();
    // After release, gravity increases vy each tick
    let vy_after_release = game.player().vy;
    game.mark_ticked(0);
    assert!(game.due_for_tick(TICK_US));
    game.tick(&mut store);
    assert!(
        game.player().vy > vy_after_release + 40,
        "Gravity should pull down after jump release"
    );
}

#[test]
fn jump_hold_extends_ascent() {
    let mut game = MarioGame::new();
    let mut store = MemoryHighScoreStore::new();
    game.start();
    // Set on_ground false, vy near 0 so jump sets negative vy
    game.set_player_on_ground(true);
    game.mark_ticked(0);
    game.jump();
    let vy_jump = game.player().vy;
    // Tick while holding jump: switch_held should slow gravity
    let mut tick_time: i64 = TICK_US;
    for _ in 0..3 {
        assert!(game.due_for_tick(tick_time));
        game.tick(&mut store);
        game.mark_ticked(tick_time);
        tick_time += TICK_US;
    }
    // After a few held ticks, vy should still be negative (not fully pulled down)
    assert!(
        game.player().vy < 0 || game.player().vy <= vy_jump.abs() / 2,
        "Held jump should keep vy negative or reduce gravity effect"
    );
}

// ── Direction ──

#[test]
fn set_direction_left_sets_negative_vx() {
    let mut game = MarioGame::new();
    game.start();
    game.set_direction(true, false);
    assert!(game.player().vx < 0, "Left should set negative vx");
}

#[test]
fn set_direction_right_sets_positive_vx() {
    let mut game = MarioGame::new();
    game.start();
    game.set_direction(false, true);
    assert!(game.player().vx > 0, "Right should set positive vx");
}

#[test]
fn set_direction_stops_when_neither() {
    let mut game = MarioGame::new();
    game.start();
    game.set_direction(true, false);
    assert!(game.player().vx < 0);
    game.set_direction(false, false);
    assert_eq!(game.player().vx, 0, "No direction should stop player");
}

#[test]
fn left_direction_moves_player_left() {
    let mut game = MarioGame::new();
    let mut store = MemoryHighScoreStore::new();
    game.start();
    game.set_player_on_ground(true);
    game.mark_ticked(0);
    game.set_direction(true, false);
    let x_before = game.player().x;
    assert!(game.due_for_tick(TICK_US));
    game.tick(&mut store);
    assert!(
        game.player().x < x_before,
        "Player should move left after set_direction(true, false)"
    );
}

#[test]
fn right_direction_moves_player_right() {
    let mut game = MarioGame::new();
    let mut store = MemoryHighScoreStore::new();
    game.start();
    game.set_player_on_ground(true);
    game.mark_ticked(0);
    game.set_direction(false, true);
    let x_before = game.player().x;
    assert!(game.due_for_tick(TICK_US));
    game.tick(&mut store);
    assert!(
        game.player().x > x_before,
        "Player should move right after set_direction(false, true)"
    );
}

// ── Gravity / Ground ──

#[test]
fn gravity_increases_vy_when_airborne() {
    let mut game = MarioGame::new();
    let mut store = MemoryHighScoreStore::new();
    game.start();
    game.set_player_on_ground(false);
    game.mark_ticked(0);
    let vy_before = game.player().vy;
    assert!(game.due_for_tick(TICK_US));
    game.tick(&mut store);
    assert!(
        game.player().vy > vy_before,
        "Gravity should increase vy over time"
    );
}

#[test]
fn player_falls_and_lands_on_ground() {
    let mut game = MarioGame::new();
    let mut store = MemoryHighScoreStore::new();
    game.start();
    game.mark_ticked(0);
    // After start, on_ground is true but player is above ground.
    // Tick until player lands on ground again (on_ground becomes false then true again).
    let mut tick_time: i64 = TICK_US;
    for _ in 0..50 {
        if game.due_for_tick(tick_time) {
            game.tick(&mut store);
            game.mark_ticked(tick_time);
        }
        tick_time += TICK_US;
        if game.player().on_ground && tick_time > 3 * TICK_US {
            break;
        }
    }
    assert!(
        game.player().on_ground,
        "Player should eventually land on ground"
    );
    // Player should be at ground level: bottom at GAME_AREA_Y + 12 * TILE_SIZE
    let expected_bottom = GAME_AREA_Y + 12 * TILE_SIZE;
    let player_bottom = fp_to_px(game.player().y) + PLAYER_H;
    assert_eq!(
        player_bottom, expected_bottom,
        "Player feet should rest on ground surface"
    );
}

// ── Dying and lives ──

#[test]
fn die_decrements_lives() {
    let mut game = MarioGame::new();
    game.start();
    let lives_before = game.lives();
    // Place player over gap column 85 (no ground below)
    game.set_player_position(85 * TILE_SIZE as i32 * FP_ONE, 200 * FP_ONE);
    game.set_player_on_ground(false);
    assert_eq!(game.mode(), MarioMode::Playing);
    let mut store = MemoryHighScoreStore::new();
    game.mark_ticked(0);
    // Tick multiple times to fall through gap
    let mut tick_time: i64 = TICK_US;
    for _ in 0..100 {
        if game.due_for_tick(tick_time) {
            game.tick(&mut store);
            game.mark_ticked(tick_time);
            if game.mode() == MarioMode::Dying {
                break;
            }
        }
        tick_time += TICK_US;
    }
    assert_eq!(
        game.mode(),
        MarioMode::Dying,
        "Player should die after falling through gap"
    );
    assert_eq!(game.lives(), lives_before - 1);
}

#[test]
fn respawn_restores_position_and_invincibility() {
    let mut game = MarioGame::new();
    let mut store = MemoryHighScoreStore::new();
    game.start();
    game.set_lives(1);
    // Place player over gap to trigger death
    game.set_player_position(85 * TILE_SIZE as i32 * FP_ONE, 200 * FP_ONE);
    game.set_player_on_ground(false);
    game.mark_ticked(0);
    let mut tick_time: i64 = TICK_US;
    // Tick until Dying
    for _ in 0..50 {
        if game.due_for_tick(tick_time) {
            game.tick(&mut store);
            game.mark_ticked(tick_time);
            if game.mode() == MarioMode::Dying {
                break;
            }
        }
        tick_time += TICK_US;
    }
    assert_eq!(game.mode(), MarioMode::Dying);
    assert_eq!(game.lives(), 0);

    // Tick until death_timer expires (60 ticks)
    for _ in 0..70 {
        if game.mode() != MarioMode::Dying {
            break;
        }
        if game.due_for_tick(tick_time) {
            game.tick(&mut store);
            game.mark_ticked(tick_time);
        }
        tick_time += TICK_US;
    }
    // With 0 lives, should go to GameOver
    assert_eq!(game.mode(), MarioMode::GameOver);
}

#[test]
fn three_deaths_game_over() {
    let mut game = MarioGame::new();
    let mut store = MemoryHighScoreStore::new();
    game.start();
    let mut tick_time: i64 = TICK_US;

    for death_num in 0..3 {
        // Place player over gap to trigger death
        game.set_player_position(85 * TILE_SIZE as i32 * FP_ONE, 200 * FP_ONE);
        game.set_player_on_ground(false);
        game.mark_ticked(tick_time - TICK_US);
        // Tick until death
        for _ in 0..50 {
            if game.due_for_tick(tick_time) {
                game.tick(&mut store);
                game.mark_ticked(tick_time);
                if game.mode() == MarioMode::Dying {
                    break;
                }
            }
            tick_time += TICK_US;
        }
        assert_eq!(game.mode(), MarioMode::Dying);
        assert_eq!(game.lives(), START_LIVES - death_num - 1);
        // Tick through death timer
        for _ in 0..70 {
            if game.mode() != MarioMode::Dying {
                break;
            }
            if game.due_for_tick(tick_time) {
                game.tick(&mut store);
                game.mark_ticked(tick_time);
            }
            tick_time += TICK_US;
        }
        if death_num < 2 {
            assert_eq!(
                game.mode(),
                MarioMode::Playing,
                "Should respawn after death {}",
                death_num
            );
        } else {
            assert_eq!(
                game.mode(),
                MarioMode::GameOver,
                "Should game over after 3rd death"
            );
        }
    }
}

#[test]
fn respawn_grants_invincibility() {
    let mut game = MarioGame::new();
    let mut store = MemoryHighScoreStore::new();
    game.start();
    game.set_lives(2);
    // Place over gap to trigger death
    game.set_player_position(85 * TILE_SIZE as i32 * FP_ONE, 200 * FP_ONE);
    game.set_player_on_ground(false);
    game.mark_ticked(0);
    let mut tick_time: i64 = TICK_US;
    // Tick until dying
    for _ in 0..50 {
        if game.due_for_tick(tick_time) {
            game.tick(&mut store);
            game.mark_ticked(tick_time);
            if game.mode() == MarioMode::Dying {
                break;
            }
        }
        tick_time += TICK_US;
    }
    assert_eq!(game.mode(), MarioMode::Dying);
    // Tick through death timer
    for _ in 0..70 {
        if game.mode() != MarioMode::Dying {
            break;
        }
        if game.due_for_tick(tick_time) {
            game.tick(&mut store);
            game.mark_ticked(tick_time);
        }
        tick_time += TICK_US;
    }
    assert_eq!(game.mode(), MarioMode::Playing);
    assert!(
        game.invincible_ticks() > 0,
        "Respawn should grant invincibility"
    );
}

#[test]
fn invincibility_decrements_each_tick() {
    let mut game = MarioGame::new();
    let mut store = MemoryHighScoreStore::new();
    game.start();
    game.set_invincible_ticks(10);
    game.mark_ticked(0);
    assert!(game.due_for_tick(TICK_US));
    game.tick(&mut store);
    assert_eq!(
        game.invincible_ticks(),
        9,
        "Invincibility should decrement each tick"
    );
}

// ── Enemies ──

#[test]
fn stomp_enemy_via_public_api() {
    let mut game = MarioGame::new();
    let mut store = MemoryHighScoreStore::new();
    game.start();
    // Place within camera range (cam_x=0, culling range [-320, 960])
    // Use early column where ground is at row 12 but player is far above it
    let px = 100 * FP_ONE;
    // Player falling, above enemy
    game.set_player_position(px, 100 * FP_ONE);
    game.set_player_vy(10);
    game.set_player_on_ground(false);
    // Enemy just below player's feet: overlap_top = (100+24)-118 = 6 ≤ 16 → stomp
    // vx=0 so enemy doesn't patrol away
    game.set_enemy_position(0, px, 118 * FP_ONE);
    game.set_enemy_vx(0, 0);
    game.set_enemy_alive(0, true);
    game.set_enemy_stomped(0, false);
    let score_before = game.score();
    game.mark_ticked(0);
    game.tick(&mut store);
    assert!(
        game.enemies()[0].stomped,
        "Enemy should be stomped when player falls on it"
    );
    assert!(game.score() > score_before, "Stomping should award points");
}

#[test]
fn enemy_side_collision_kills_player() {
    let mut game = MarioGame::new();
    let mut store = MemoryHighScoreStore::new();
    game.start();
    // Within camera range, early column
    let px = 100 * FP_ONE;
    game.set_player_position(px, 100 * FP_ONE);
    game.set_player_vy(0);
    game.set_player_on_ground(false);
    // Enemy at same height. overlap_top = (100+24)-100 = 24 > 16 → die
    game.set_enemy_position(0, px, 100 * FP_ONE);
    game.set_enemy_vx(0, 0);
    game.set_enemy_alive(0, true);
    game.set_enemy_stomped(0, false);
    game.set_lives(START_LIVES);
    game.mark_ticked(0);
    game.tick(&mut store);
    assert_eq!(
        game.mode(),
        MarioMode::Dying,
        "Side collision with enemy should kill player"
    );
    assert_eq!(game.lives(), START_LIVES - 1);
}

// ── Camera ──

#[test]
fn camera_follows_player_right() {
    let mut game = MarioGame::new();
    let mut store = MemoryHighScoreStore::new();
    game.start();
    game.set_player_on_ground(true);
    game.set_direction(false, true);
    let mut tick_time: i64 = 0;
    game.mark_ticked(tick_time);
    tick_time += TICK_US;
    for _ in 0..5 {
        if game.due_for_tick(tick_time) {
            game.tick(&mut store);
            game.mark_ticked(tick_time);
        }
        tick_time += TICK_US;
    }
    // Camera should never be negative
    assert!(game.camera_x() >= 0, "Camera should never be negative");
    // Camera should have moved if player moved right
    assert!(
        game.player().x > 3 * FP_ONE || game.camera_x() > 0,
        "Player or camera should have moved right"
    );
}

#[test]
fn camera_stays_at_left_boundary() {
    let mut game = MarioGame::new();
    let mut store = MemoryHighScoreStore::new();
    game.start();
    // Camera should stay at 0 when player is near left edge
    assert_eq!(game.camera_x(), 0);
    game.set_player_on_ground(true);
    game.set_direction(true, false);
    let mut tick_time: i64 = 0;
    game.mark_ticked(tick_time);
    tick_time += TICK_US;
    for _ in 0..10 {
        if game.due_for_tick(tick_time) {
            game.tick(&mut store);
            game.mark_ticked(tick_time);
        }
        tick_time += TICK_US;
    }
    assert_eq!(
        game.camera_x(),
        0,
        "Camera should stay at 0 when player is near left edge"
    );
}

// ── Flagpole ──

#[test]
fn reaching_flagpole_completes_level() {
    let mut game = MarioGame::new();
    let mut store = MemoryHighScoreStore::new();
    game.start();
    // Move player near flagpole (col 196)
    let flag_x = (196 * TILE_SIZE - 4) as i32 * FP_ONE;
    game.set_player_position(flag_x, game.player().y);
    game.mark_ticked(0);
    game.tick(&mut store);
    assert_eq!(
        game.mode(),
        MarioMode::LevelComplete,
        "Player at flagpole should trigger level complete"
    );
}

#[test]
fn level_complete_transitions_to_ready_after_timer() {
    let mut game = MarioGame::new();
    let mut store = MemoryHighScoreStore::new();
    game.start();
    let flag_x = (196 * TILE_SIZE - 4) as i32 * FP_ONE;
    game.set_player_position(flag_x, game.player().y);
    game.mark_ticked(0);
    game.tick(&mut store);
    assert_eq!(game.mode(), MarioMode::LevelComplete);
    // Tick through the completion timer
    let mut tick_time: i64 = TICK_US;
    for _ in 0..150 {
        if game.mode() != MarioMode::LevelComplete {
            break;
        }
        if game.due_for_tick(tick_time) {
            game.tick(&mut store);
            game.mark_ticked(tick_time);
        }
        tick_time += TICK_US;
    }
    assert_eq!(game.mode(), MarioMode::Ready);
}

// ── Score ──

#[test]
fn update_best_score_persists_when_higher() {
    let mut game = MarioGame::new();
    let mut store = MemoryHighScoreStore::new();
    game.set_score(500);
    assert_eq!(game.best_score(), 0);
    game.update_best_score(&mut store);
    assert_eq!(game.best_score(), 500);
    assert_eq!(store.mario_best_score(), 500);
}

#[test]
fn update_best_score_does_not_decrease() {
    let mut store = MemoryHighScoreStore::new();
    store.update_mario_best_score(1000);
    let mut game = MarioGame::new();
    game.enter(&store);
    // After enter, best_score = 1000
    game.start();
    game.set_score(500);
    game.update_best_score(&mut store);
    assert_eq!(game.best_score(), 1000, "Best score should not decrease");
}

// ── Tiles ──

#[test]
fn question_block_yields_coin_when_hit_from_below() {
    let mut game = MarioGame::new();
    let mut store = MemoryHighScoreStore::new();
    // Player directly BELOW question block at col 14, row 9
    // Block at row 9 occupies py = 160..175
    // Player starts one row below: py = 176 (top of row 10), occupies 176..199
    let player_y = (GAME_AREA_Y + 10 * TILE_SIZE) as i32 * FP_ONE;
    // vy = -2000 produces new_py ≈ 168 (inside block at row 9) after gravity
    let player_x = (14 * TILE_SIZE + TILE_SIZE / 2 - PLAYER_W / 2) as i32 * FP_ONE;
    game.set_player_position(player_x, player_y);
    game.set_player_vy(-2000);
    game.set_player_on_ground(false);
    game.set_mode(MarioMode::Playing);
    let coins_before = game.coins();
    let score_before = game.score();
    game.mark_ticked(0);
    game.tick(&mut store);
    assert!(
        game.coins() > coins_before,
        "Question block should give a coin"
    );
    assert!(
        game.score() >= score_before + 200,
        "Question block should award score"
    );
    assert_eq!(
        game.tile_at(9, 14),
        TILE_USED,
        "Question block should become used"
    );
}

#[test]
fn brick_destroys_when_hit_from_below() {
    let mut game = MarioGame::new();
    let mut store = MemoryHighScoreStore::new();
    // Player BELOW brick at col 15-16, row 9
    // Player x positioned so px_left starts at col 15 (px=240), avoiding col 14 (question block)
    let player_y = (GAME_AREA_Y + 10 * TILE_SIZE) as i32 * FP_ONE;
    let player_x = (15 * TILE_SIZE) as i32 * FP_ONE;
    game.set_player_position(player_x, player_y);
    game.set_player_vy(-2000);
    game.set_player_on_ground(false);
    game.set_mode(MarioMode::Playing);
    game.mark_ticked(0);
    game.tick(&mut store);
    assert_eq!(
        game.tile_at(9, 15),
        TILE_AIR,
        "Brick should be destroyed when hit from below"
    );
}

// ── Tick timing ──

#[test]
fn due_for_tick_prevents_rapid_ticks() {
    let mut game = MarioGame::new();
    game.mark_ticked(100_000);
    // Too early
    assert!(!game.due_for_tick(100_000));
    assert!(!game.due_for_tick(115_000));
    // Exactly at threshold
    assert!(game.due_for_tick(116_666));
    // After threshold
    assert!(game.due_for_tick(200_000));
}

// ── Gaps ──

#[test]
fn player_falls_through_gap() {
    let mut game = MarioGame::new();
    let mut store = MemoryHighScoreStore::new();
    game.start();
    // Place player at gap column 85 (no ground)
    let gap_col_px = 85 * TILE_SIZE;
    game.set_player_position(gap_col_px as i32 * FP_ONE, 200 * FP_ONE);
    game.set_player_on_ground(false);
    game.mark_ticked(0);
    let mut tick_time: i64 = TICK_US;
    // Player should keep falling through gap and eventually die
    for _ in 0..200 {
        if game.mode() == MarioMode::Dying {
            break;
        }
        if game.due_for_tick(tick_time) {
            game.tick(&mut store);
            game.mark_ticked(tick_time);
        }
        tick_time += TICK_US;
    }
    assert_eq!(
        game.mode(),
        MarioMode::Dying,
        "Player should fall to death in gap"
    );
}

// ── Enemy patrol ──

#[test]
fn enemy_patrols_and_reverses() {
    let mut game = MarioGame::new();
    let mut store = MemoryHighScoreStore::new();
    game.start();
    // First enemy is ChompNom at spawn_x=20
    let x_before = game.enemies()[0].x;
    // Tick some times and check the enemy moves
    game.mark_ticked(0);
    for i in 1..20 {
        game.mark_ticked(i * TICK_US as i64);
        if game.due_for_tick(i * TICK_US as i64) {
            game.tick(&mut store);
        }
    }
    // Enemy should have moved from spawn (vx = -FP_ONE initially)
    assert!(
        game.enemies()[0].x != x_before || game.enemies()[0].x != 0,
        "Enemy should move from its spawn position"
    );
}
