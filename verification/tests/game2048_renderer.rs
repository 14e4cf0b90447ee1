use orion_core::game2048::{Game2048, Game2048ChoosingField, Game2048GameOverAction, Game2048Mode, GridSize, PauseAction};
use orion_core::game2048_renderer::{
    choose_aa_scale, grid_layout, render, render_choosing, render_move_delta, render_pause_menu, tile_color,
    tile_text_color, DARK_TEXT, LIGHT_TEXT, TILE_1024, TILE_128, TILE_16, TILE_2, TILE_2048, TILE_256, TILE_32,
    TILE_4, TILE_512, TILE_64, TILE_8, TILE_EMPTY, TILE_SUPER,
};
use orion_core::render::RecordingDisplay;
use orion_core::store::MemoryHighScoreStore;

fn start_game() -> (Game2048, MemoryHighScoreStore, orion_core::rng::ScriptedRng) {
    let mut game = Game2048::default();
    let mut scores = MemoryHighScoreStore::new();
    let mut rng = orion_core::rng::ScriptedRng::new(vec![0, 5, 3, 7]);
    game.press_switch(&mut scores, &mut rng);
    (game, scores, rng)
}

#[test]
fn render_choosing_draws_title() {
    let mut display = RecordingDisplay::new();
    let game = Game2048::default();
    render_choosing(&mut display, &game);
    assert!(display.commands().len() > 4);
    assert!(matches!(
        display.commands().last(),
        Some(orion_core::render::DrawCommand::Flush)
    ));
}

#[test]
fn render_playing_draws_grid() {
    let mut display = RecordingDisplay::new();
    let mut game = Game2048::default();
    let mut scores = MemoryHighScoreStore::new();
    let mut rng = orion_core::rng::ScriptedRng::new(vec![0, 5, 3, 7]);
    game.press_switch(&mut scores, &mut rng);
    render(&mut display, &game);
    assert!(display.commands().len() > 10);
}

#[test]
fn render_move_delta_only_redraws_changed_cells() {
    let mut game = Game2048::default();
    let mut scores = MemoryHighScoreStore::new();
    let mut rng = orion_core::rng::ScriptedRng::new(vec![0, 5, 3, 7]);
    game.press_switch(&mut scores, &mut rng);

    let prev_grid = *game.grid();
    let prev_score = game.score();
    let prev_best_score = game.best_score();

    let moved = game.slide(orion_core::config::Direction::Right);
    assert!(moved);
    game.place_random_tile(&mut rng);

    let mut display = RecordingDisplay::new();
    render_move_delta(&mut display, &game, &prev_grid, prev_score, prev_best_score);

    assert!(display.commands().len() > 2);
    assert!(matches!(
        display.commands().last(),
        Some(orion_core::render::DrawCommand::Flush)
    ));

    let full_display_count = {
        let mut d = RecordingDisplay::new();
        render(&mut d, &game);
        d.commands().len()
    };
    assert!(display.commands().len() < full_display_count);
}

#[test]
fn render_game_over_draws_overlay() {
    let mut game = Game2048::default();
    let mut scores = MemoryHighScoreStore::new();
    let mut rng = orion_core::rng::ScriptedRng::new(vec![0, 5, 3, 7]);
    game.press_switch(&mut scores, &mut rng);
    game.set_mode(Game2048Mode::GameOver);
    game.set_game_over_action(Game2048GameOverAction::Restart);
    let mut display = RecordingDisplay::new();
    render(&mut display, &game);
    assert!(display.commands().len() > 10);
}

#[test]
fn render_game_over_with_exit_selected() {
    let mut game = Game2048::default();
    let mut scores = MemoryHighScoreStore::new();
    let mut rng = orion_core::rng::ScriptedRng::new(vec![0, 5, 3, 7]);
    game.press_switch(&mut scores, &mut rng);
    game.set_mode(Game2048Mode::GameOver);
    game.set_game_over_action(Game2048GameOverAction::Exit);
    let mut display = RecordingDisplay::new();
    render(&mut display, &game);
    assert!(display.commands().len() > 10);
}

#[test]
fn render_pause_menu_with_continue_selected() {
    let mut display = RecordingDisplay::new();
    let mut game = Game2048::default();
    game.set_mode(Game2048Mode::Paused);
    game.set_pause_action(PauseAction::Continue);
    render_pause_menu(&mut display, &game);
    assert!(matches!(
        display.commands().last(),
        Some(orion_core::render::DrawCommand::Flush)
    ));
}

#[test]
fn game2048_renderer_render_pause_menu_with_exit_selected() {
    let mut display = RecordingDisplay::new();
    let mut game = Game2048::default();
    game.set_mode(Game2048Mode::Paused);
    game.set_pause_action(PauseAction::Exit);
    render_pause_menu(&mut display, &game);
    assert!(matches!(
        display.commands().last(),
        Some(orion_core::render::DrawCommand::Flush)
    ));
}

#[test]
fn render_choosing_with_exit_field() {
    let mut display = RecordingDisplay::new();
    let mut game = Game2048::default();
    game.set_choosing_field(Game2048ChoosingField::Exit);
    render_choosing(&mut display, &game);
    assert!(display.commands().len() > 4);
}

#[test]
fn render_move_delta_with_score_change() {
    let (mut game, _scores, mut rng) = start_game();
    let prev_grid = *game.grid();
    let prev_score = game.score();
    let prev_best = game.best_score();
    game.slide(orion_core::config::Direction::Right);
    game.place_random_tile(&mut rng);

    let mut display = RecordingDisplay::new();
    render_move_delta(&mut display, &game, &prev_grid, prev_score, prev_best);
    assert!(display.commands().len() > 2);
}

#[test]
fn render_move_delta_with_best_score_change() {
    let (mut game, mut scores, mut rng) = start_game();
    let prev_grid = *game.grid();
    let prev_score = game.score();
    game.slide(orion_core::config::Direction::Right);
    game.place_random_tile(&mut rng);
    game.update_best_score(&mut scores);

    let mut display = RecordingDisplay::new();
    render_move_delta(
        &mut display,
        &game,
        &prev_grid,
        prev_score,
        game.best_score(),
    );
    assert!(display.commands().len() > 2);
}

#[test]
fn tile_color_covers_all_values() {
    assert_eq!(tile_color(0), TILE_EMPTY);
    assert_eq!(tile_color(2), TILE_2);
    assert_eq!(tile_color(4), TILE_4);
    assert_eq!(tile_color(8), TILE_8);
    assert_eq!(tile_color(16), TILE_16);
    assert_eq!(tile_color(32), TILE_32);
    assert_eq!(tile_color(64), TILE_64);
    assert_eq!(tile_color(128), TILE_128);
    assert_eq!(tile_color(256), TILE_256);
    assert_eq!(tile_color(512), TILE_512);
    assert_eq!(tile_color(1024), TILE_1024);
    assert_eq!(tile_color(2048), TILE_2048);
    assert_eq!(tile_color(4096), TILE_SUPER);
}

#[test]
fn tile_text_color_dark_for_low_values() {
    assert_eq!(tile_text_color(2), DARK_TEXT);
    assert_eq!(tile_text_color(4), DARK_TEXT);
    assert_eq!(tile_text_color(8), LIGHT_TEXT);
    assert_eq!(tile_text_color(128), LIGHT_TEXT);
}

#[test]
fn grid_layout_varies_by_size() {
    let (_, _, cell_small, _) = grid_layout(GridSize::Small);
    let (_, _, cell_classic, _) = grid_layout(GridSize::Classic);
    let (_, _, cell_large, _) = grid_layout(GridSize::Large);
    assert!(cell_small > cell_classic);
    assert!(cell_classic > cell_large);
}

#[test]
fn choose_aa_scale_returns_appropriate_scale() {
    assert_eq!(choose_aa_scale(70, 1), 4);
    assert_eq!(choose_aa_scale(50, 2), 4);
    assert_eq!(choose_aa_scale(24, 2), 2);
    assert_eq!(choose_aa_scale(50, 3), 2);
    assert_eq!(choose_aa_scale(20, 3), 1);
    assert_eq!(choose_aa_scale(30, 0), 1);
}
