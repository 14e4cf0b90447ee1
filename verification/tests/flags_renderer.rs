use orion_core::flags::{FlagsGame, FlagsMode, FlagsState, FLAGS_QUIZ_ROUNDS};
use orion_core::flags_renderer::{answer_tile_x, answer_tile_y, render, render_answer_selection, render_feedback, FLAGS_ANSWER_BOTTOM_Y, FLAGS_ANSWER_LEFT_X, FLAGS_ANSWER_RIGHT_X, FLAGS_ANSWER_TOP_Y};
use orion_core::rng::ScriptedRng;
use orion_core::store::MemoryHighScoreStore;

fn make_game_in_state(state: FlagsState) -> FlagsGame {
    let scores = MemoryHighScoreStore::new();
    let mut rng = ScriptedRng::new(vec![0, 2, 1, 2, 3, 4]);
    let mut game = FlagsGame::new(5);
    match state {
        FlagsState::ChoosingMode => {
            game.enter_choosing(&scores);
        }
        FlagsState::Question => {
            game.start_selected_mode(&scores, &mut rng);
        }
        FlagsState::Paused => {
            game.start_selected_mode(&scores, &mut rng);
            game.enter_paused();
        }
        FlagsState::Feedback => {
            game.set_selected_mode(FlagsMode::Practice);
            game.start_selected_mode(&scores, &mut rng);
            game.confirm_answer();
        }
        FlagsState::Over => {
            let mut scores2 = MemoryHighScoreStore::new();
            game.set_selected_mode(FlagsMode::DeathMatch);
            game.start_selected_mode(&scores2, &mut rng);
            game.cycle_answer_selection(1);
            game.confirm_answer();
            game.finish_feedback(&mut scores2, &mut rng);
        }
        FlagsState::Results => {
            let mut scores2 = MemoryHighScoreStore::new();
            game.set_selected_mode(FlagsMode::Quiz20);
            game.start_selected_mode(&scores2, &mut rng);
            for _ in 0..FLAGS_QUIZ_ROUNDS {
                game.confirm_answer();
                game.finish_feedback(&mut scores2, &mut rng);
            }
        }
    }
    game
}

#[test]
fn question_screen_draws_flag_bitmap_command() {
    let scores = MemoryHighScoreStore::new();
    let mut rng = ScriptedRng::new(vec![0, 2, 1, 2, 3, 4]);
    let mut game = FlagsGame::new(5);
    game.start_selected_mode(&scores, &mut rng);
    let mut display = orion_core::render::RecordingDisplay::new();
    render(&mut display, &game);
    assert!(display
        .commands()
        .iter()
        .any(|command| matches!(command, orion_core::render::DrawCommand::Bitmap { .. })));
}

#[test]
fn render_choosing_mode_screen() {
    let game = FlagsGame::new(5);
    let mut display = orion_core::render::RecordingDisplay::new();
    render(&mut display, &game);
    assert!(matches!(
        display.commands().last(),
        Some(orion_core::render::DrawCommand::Flush)
    ));
    assert!(display.commands().len() > 5);
}

#[test]
fn render_paused_screen() {
    let game = make_game_in_state(FlagsState::Paused);
    let mut display = orion_core::render::RecordingDisplay::new();
    render(&mut display, &game);
    assert!(matches!(
        display.commands().last(),
        Some(orion_core::render::DrawCommand::Flush)
    ));
}

#[test]
fn render_feedback_screen_shows_correct_and_wrong() {
    let scores = MemoryHighScoreStore::new();
    let mut rng = ScriptedRng::new(vec![0, 0, 1, 2, 3, 4]);
    let mut game = FlagsGame::new(5);
    game.set_selected_mode(FlagsMode::Practice);
    game.start_selected_mode(&scores, &mut rng);
    game.confirm_answer();
    assert_eq!(game.state(), FlagsState::Feedback);
    let mut display = orion_core::render::RecordingDisplay::new();
    render(&mut display, &game);
    assert!(matches!(
        display.commands().last(),
        Some(orion_core::render::DrawCommand::Flush)
    ));
}

#[test]
fn render_results_screen() {
    let game = make_game_in_state(FlagsState::Results);
    let mut display = orion_core::render::RecordingDisplay::new();
    render(&mut display, &game);
    assert!(matches!(
        display.commands().last(),
        Some(orion_core::render::DrawCommand::Flush)
    ));
}

#[test]
fn render_game_over_screen() {
    let game = make_game_in_state(FlagsState::Over);
    let mut display = orion_core::render::RecordingDisplay::new();
    render(&mut display, &game);
    assert!(matches!(
        display.commands().last(),
        Some(orion_core::render::DrawCommand::Flush)
    ));
}

#[test]
fn render_answer_selection_redraws_changed_tile() {
    let scores = MemoryHighScoreStore::new();
    let mut rng = ScriptedRng::new(vec![0, 2, 1, 2, 3, 4]);
    let mut game = FlagsGame::new(5);
    game.start_selected_mode(&scores, &mut rng);
    let previous = game.selected_answer();
    game.cycle_answer_selection(1);
    let mut display = orion_core::render::RecordingDisplay::new();
    render_answer_selection(&mut display, &game, previous);
    assert!(matches!(
        display.commands().last(),
        Some(orion_core::render::DrawCommand::Flush)
    ));
}

#[test]
fn render_answer_selection_skips_when_same() {
    let scores = MemoryHighScoreStore::new();
    let mut rng = ScriptedRng::new(vec![0, 2, 1, 2, 3, 4]);
    let mut game = FlagsGame::new(5);
    game.start_selected_mode(&scores, &mut rng);
    let current = game.selected_answer();
    let mut display = orion_core::render::RecordingDisplay::new();
    render_answer_selection(&mut display, &game, current);
    assert!(matches!(
        display.commands().last(),
        Some(orion_core::render::DrawCommand::Flush)
    ));
}

#[test]
fn render_feedback_overlay_draws_correct_wrong_banner() {
    let scores = MemoryHighScoreStore::new();
    let mut rng = ScriptedRng::new(vec![0, 0, 1, 2, 3, 4]);
    let mut game = FlagsGame::new(5);
    game.set_selected_mode(FlagsMode::Practice);
    game.start_selected_mode(&scores, &mut rng);
    game.confirm_answer();
    let mut display = orion_core::render::RecordingDisplay::new();
    render_feedback(&mut display, &game);
    assert!(matches!(
        display.commands().last(),
        Some(orion_core::render::DrawCommand::Flush)
    ));
}

#[test]
fn render_question_with_practice_mode() {
    let scores = MemoryHighScoreStore::new();
    let mut rng = ScriptedRng::new(vec![0, 2, 1, 2, 3, 4]);
    let mut game = FlagsGame::new(5);
    game.set_selected_mode(FlagsMode::Practice);
    game.start_selected_mode(&scores, &mut rng);
    let mut display = orion_core::render::RecordingDisplay::new();
    render(&mut display, &game);
    assert!(matches!(
        display.commands().last(),
        Some(orion_core::render::DrawCommand::Flush)
    ));
}

#[test]
fn render_question_with_death_match_mode() {
    let scores = MemoryHighScoreStore::new();
    let mut rng = ScriptedRng::new(vec![0, 2, 1, 2, 3, 4]);
    let mut game = FlagsGame::new(5);
    game.set_selected_mode(FlagsMode::DeathMatch);
    game.start_selected_mode(&scores, &mut rng);
    let mut display = orion_core::render::RecordingDisplay::new();
    render(&mut display, &game);
    assert!(matches!(
        display.commands().last(),
        Some(orion_core::render::DrawCommand::Flush)
    ));
}

#[test]
fn answer_tile_positions() {
    assert_eq!(answer_tile_x(0), FLAGS_ANSWER_LEFT_X);
    assert_eq!(answer_tile_x(1), FLAGS_ANSWER_RIGHT_X);
    assert_eq!(answer_tile_x(2), FLAGS_ANSWER_LEFT_X);
    assert_eq!(answer_tile_x(3), FLAGS_ANSWER_RIGHT_X);
    assert_eq!(answer_tile_y(0), FLAGS_ANSWER_TOP_Y);
    assert_eq!(answer_tile_y(1), FLAGS_ANSWER_TOP_Y);
    assert_eq!(answer_tile_y(2), FLAGS_ANSWER_BOTTOM_Y);
    assert_eq!(answer_tile_y(3), FLAGS_ANSWER_BOTTOM_Y);
}

#[test]
fn answer_selection_without_move_redraws_one_tile() {
    let scores = MemoryHighScoreStore::new();
    let mut rng = ScriptedRng::new(vec![0, 2, 1, 2, 3, 4]);
    let mut game = FlagsGame::new(5);
    game.start_selected_mode(&scores, &mut rng);
    let mut display = orion_core::render::RecordingDisplay::new();
    render_answer_selection(&mut display, &game, game.selected_answer());
    let fills_at_left_top = display.commands().iter().filter(|c| matches!(c,
        orion_core::render::DrawCommand::Fill { rect, .. } if rect.x == FLAGS_ANSWER_LEFT_X && rect.y == FLAGS_ANSWER_TOP_Y)).count();
    assert_eq!(fills_at_left_top, 1);
    assert!(matches!(display.commands().last(), Some(orion_core::render::DrawCommand::Flush)));
}
