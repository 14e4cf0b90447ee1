use orion_core::config::{Cell, Direction, BOARD_COLS, BOARD_ROWS};
use orion_core::rng::ScriptedRng;
use orion_core::snake::{GameMode, SnakeGame};
use orion_core::snake_renderer::{clear_board_cell, direction_between, draw_food, render, render_hud, render_pause_menu, render_tick_delta};
use orion_core::store::MemoryHighScoreStore;
use orion_core::theme;

fn start_playing() -> (SnakeGame, MemoryHighScoreStore, ScriptedRng) {
    let scores = MemoryHighScoreStore::new();
    let mut rng = ScriptedRng::new(vec![0, 0, 12, 7]);
    let mut game = SnakeGame::default();
    game.reset(&scores, &mut rng, 0);
    (game, scores, rng)
}

#[test]
fn start_screen_records_flush_and_title_pixels() {
    let scores = MemoryHighScoreStore::new();
    let mut game = SnakeGame::default();
    game.enter_choosing(&scores);
    let mut display = orion_core::render::RecordingDisplay::new();
    render(&mut display, &game);
    assert!(matches!(
        display.commands().last(),
        Some(orion_core::render::DrawCommand::Flush)
    ));
    assert!(display.commands().len() > 10);
}

#[test]
fn playing_render_draws_bitmap_free_pixel_art() {
    let scores = MemoryHighScoreStore::new();
    let mut rng = ScriptedRng::new(vec![0, 0, 12, 7]);
    let mut game = SnakeGame::default();
    game.reset(&scores, &mut rng, 0);
    let mut display = orion_core::render::RecordingDisplay::new();
    render(&mut display, &game);
    assert!(display.commands().iter().any(|command| matches!(
        command,
        orion_core::render::DrawCommand::Fill {
            color: theme::APPLE,
            ..
        }
    )));
}

#[test]
fn render_game_over_state() {
    let scores = MemoryHighScoreStore::new();
    let mut rng = ScriptedRng::new(vec![0, 0, 12, 7]);
    let mut game = SnakeGame::default();
    game.reset(&scores, &mut rng, 0);
    game.set_mode(GameMode::Over);
    let mut display = orion_core::render::RecordingDisplay::new();
    render(&mut display, &game);
    assert!(matches!(
        display.commands().last(),
        Some(orion_core::render::DrawCommand::Flush)
    ));
}

#[test]
fn render_paused_state_classic() {
    let scores = MemoryHighScoreStore::new();
    let mut rng = ScriptedRng::new(vec![0, 0, 12, 7]);
    let mut game = SnakeGame::default();
    game.reset(&scores, &mut rng, 0);
    game.set_mode(GameMode::Paused);
    let mut display = orion_core::render::RecordingDisplay::new();
    render(&mut display, &game);
    assert!(matches!(
        display.commands().last(),
        Some(orion_core::render::DrawCommand::Flush)
    ));
}

#[test]
fn snake_renderer_render_pause_menu_draws_options() {
    let (game, _scores, _rng) = start_playing();
    let mut display = orion_core::render::RecordingDisplay::new();
    render_pause_menu(&mut display, &game, 0);
    assert!(matches!(
        display.commands().last(),
        Some(orion_core::render::DrawCommand::Flush)
    ));
}

#[test]
fn snake_renderer_render_pause_menu_with_exit_selected() {
    let (game, _scores, _rng) = start_playing();
    let mut display = orion_core::render::RecordingDisplay::new();
    render_pause_menu(&mut display, &game, 1);
    assert!(matches!(
        display.commands().last(),
        Some(orion_core::render::DrawCommand::Flush)
    ));
}

#[test]
fn render_tick_delta_draws_head_and_clears_tail() {
    let (game, _scores, _rng) = start_playing();
    let old_tail = game.tail();
    let old_score = game.score();
    let old_best_score = game.best_score();
    let mut display = orion_core::render::RecordingDisplay::new();
    render_tick_delta(
        &mut display,
        &game,
        old_tail,
        old_score,
        old_best_score,
        false,
    );
    assert!(matches!(
        display.commands().last(),
        Some(orion_core::render::DrawCommand::Flush)
    ));
}

#[test]
fn render_tick_delta_with_score_change_redraws_hud() {
    let (game, _scores, _rng) = start_playing();
    let old_tail = game.tail();
    let mut display = orion_core::render::RecordingDisplay::new();
    render_tick_delta(&mut display, &game, old_tail, 0, 0, false);
    assert!(matches!(
        display.commands().last(),
        Some(orion_core::render::DrawCommand::Flush)
    ));
}

#[test]
fn render_tick_delta_with_growth_skips_tail_clear() {
    let (game, _scores, _rng) = start_playing();
    let old_tail = game.tail();
    let old_score = game.score();
    let old_best = game.best_score();
    let mut display = orion_core::render::RecordingDisplay::new();
    render_tick_delta(&mut display, &game, old_tail, old_score, old_best, true);
    assert!(matches!(
        display.commands().last(),
        Some(orion_core::render::DrawCommand::Flush)
    ));
}

#[test]
fn render_hud_draws_score_and_best() {
    let (game, _scores, _rng) = start_playing();
    let mut display = orion_core::render::RecordingDisplay::new();
    render_hud(&mut display, &game);
    assert!(matches!(
        display.commands().last(),
        Some(orion_core::render::DrawCommand::Flush)
    ));
}

#[test]
fn direction_between_all_directions() {
    assert_eq!(
        direction_between(Cell::new(3, 5), Cell::new(4, 5)),
        Direction::Right
    );
    assert_eq!(
        direction_between(Cell::new(3, 5), Cell::new(2, 5)),
        Direction::Left
    );
    assert_eq!(
        direction_between(Cell::new(3, 5), Cell::new(3, 6)),
        Direction::Down
    );
    assert_eq!(
        direction_between(Cell::new(3, 5), Cell::new(3, 4)),
        Direction::Up
    );
}

#[test]
fn direction_between_wraps_horizontally() {
    assert_eq!(
        direction_between(Cell::new(BOARD_COLS - 1, 5), Cell::new(0, 5)),
        Direction::Right
    );
    assert_eq!(
        direction_between(Cell::new(0, 5), Cell::new(BOARD_COLS - 1, 5)),
        Direction::Left
    );
}

#[test]
fn direction_between_wraps_vertically() {
    assert_eq!(
        direction_between(Cell::new(3, BOARD_ROWS - 1), Cell::new(3, 0)),
        Direction::Down
    );
    assert_eq!(
        direction_between(Cell::new(3, 0), Cell::new(3, BOARD_ROWS - 1)),
        Direction::Up
    );
}

#[test]
fn clear_board_cell_skips_off_board() {
    let mut display = orion_core::render::RecordingDisplay::new();
    clear_board_cell(&mut display, Cell::new(-1, -1));
    assert!(display.commands().is_empty());
}

#[test]
fn draw_food_skips_off_board() {
    let mut display = orion_core::render::RecordingDisplay::new();
    draw_food(&mut display, Cell::new(-1, -1));
    assert!(display.commands().is_empty());
}
