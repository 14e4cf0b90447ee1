use orion_core::config::Direction;
use orion_core::flags::{
    flags_mode_name, flags_result_action_name, flags_state_title, FlagsChoosingAction, FlagsGame,
    FlagsMode, FlagsPauseAction, FlagsResultAction, FlagsState, FLAGS_OPTION_COUNT, FLAGS_QUIZ_ROUNDS,
};
use orion_core::rng::ScriptedRng;
use orion_core::store::{HighScoreStore, MemoryHighScoreStore};

#[test]
fn question_has_four_unique_answers_and_correct_once() {
    let scores = MemoryHighScoreStore::new();
    let mut rng = ScriptedRng::new(vec![0, 2, 1, 2, 3, 4]);
    let mut game = FlagsGame::new(5);
    game.start_selected_mode(&scores, &mut rng);

    let mut answers = game.answer_indices().to_vec();
    answers.sort();
    answers.dedup();
    assert_eq!(answers.len(), FLAGS_OPTION_COUNT);
    assert_eq!(game.state(), FlagsState::Question);
    assert!(game.correct_answer() < FLAGS_OPTION_COUNT);
}

#[test]
fn answer_navigation_matches_tile_grid() {
    let scores = MemoryHighScoreStore::new();
    let mut rng = ScriptedRng::new(vec![0, 2, 1, 2, 3, 4]);
    let mut game = FlagsGame::new(5);
    game.start_selected_mode(&scores, &mut rng);

    assert!(game.move_answer_selection(Direction::Right));
    assert_eq!(game.selected_answer(), 1);
    assert!(game.move_answer_selection(Direction::Down));
    assert_eq!(game.selected_answer(), 3);
    assert!(game.move_answer_selection(Direction::Left));
    assert_eq!(game.selected_answer(), 2);
}

#[test]
fn death_match_wrong_answer_ends_and_persists_best() {
    let mut scores = MemoryHighScoreStore::new();
    let mut rng = ScriptedRng::new(vec![0, 0, 1, 2, 3, 4]);
    let mut game = FlagsGame::new(5);
    game.set_selected_mode(FlagsMode::DeathMatch);
    game.start_selected_mode(&scores, &mut rng);
    game.cycle_answer_selection(1);
    game.confirm_answer();
    game.finish_feedback(&mut scores, &mut rng);

    assert_eq!(game.state(), FlagsState::Over);
    assert_eq!(scores.flags_death_match_best_score(), 0);
}

#[test]
fn quiz20_finishes_after_twenty_rounds() {
    let mut scores = MemoryHighScoreStore::new();
    let mut rng = ScriptedRng::new(vec![0, 0, 1, 2, 3, 4]);
    let mut game = FlagsGame::new(5);
    game.set_selected_mode(FlagsMode::Quiz20);
    game.start_selected_mode(&scores, &mut rng);
    for _ in 0..FLAGS_QUIZ_ROUNDS {
        game.confirm_answer();
        game.finish_feedback(&mut scores, &mut rng);
    }
    assert_eq!(game.round(), FLAGS_QUIZ_ROUNDS);
    assert_eq!(game.state(), FlagsState::Results);
}

#[test]
fn cycle_mode_cycles_through_modes() {
    let mut game = FlagsGame::new(5);
    assert_eq!(game.selected_mode(), FlagsMode::Practice);
    assert!(game.cycle_mode(1));
    assert_eq!(game.selected_mode(), FlagsMode::Quiz20);
    assert!(game.cycle_mode(1));
    assert_eq!(game.selected_mode(), FlagsMode::DeathMatch);
    assert!(game.cycle_mode(1));
    assert_eq!(game.selected_mode(), FlagsMode::Practice);
}

#[test]
fn cycle_mode_returns_false_when_no_change() {
    let mut game = FlagsGame::new(5);
    assert!(!game.cycle_mode(0));
}

#[test]
fn cycle_mode_ignores_outside_choosing() {
    let scores = MemoryHighScoreStore::new();
    let mut rng = ScriptedRng::new(vec![0, 2, 1, 2, 3, 4]);
    let mut game = FlagsGame::new(5);
    game.start_selected_mode(&scores, &mut rng);
    assert!(!game.cycle_mode(1));
}

#[test]
fn select_previous_and_next_mode() {
    let mut game = FlagsGame::new(5);
    assert!(game.select_next_mode());
    assert_eq!(game.selected_mode(), FlagsMode::Quiz20);
    assert!(game.select_previous_mode());
    assert_eq!(game.selected_mode(), FlagsMode::Practice);
}

#[test]
fn move_answer_left_right_up_down() {
    let scores = MemoryHighScoreStore::new();
    let mut rng = ScriptedRng::new(vec![0, 2, 1, 2, 3, 4]);
    let mut game = FlagsGame::new(5);
    game.start_selected_mode(&scores, &mut rng);
    assert_eq!(game.selected_answer(), 0);

    assert!(game.move_answer_selection(Direction::Right));
    assert_eq!(game.selected_answer(), 1);
    assert!(!game.move_answer_selection(Direction::Right));
    assert_eq!(game.selected_answer(), 1);

    assert!(game.move_answer_selection(Direction::Down));
    assert_eq!(game.selected_answer(), 3);
    assert!(!game.move_answer_selection(Direction::Down));

    assert!(game.move_answer_selection(Direction::Left));
    assert_eq!(game.selected_answer(), 2);
    assert!(game.move_answer_selection(Direction::Up));
    assert_eq!(game.selected_answer(), 0);
}

#[test]
fn move_answer_ignores_when_not_question() {
    let mut game = FlagsGame::new(5);
    assert!(!game.move_answer_selection(Direction::Right));
}

#[test]
fn cycle_answer_selection() {
    let scores = MemoryHighScoreStore::new();
    let mut rng = ScriptedRng::new(vec![0, 2, 1, 2, 3, 4]);
    let mut game = FlagsGame::new(5);
    game.start_selected_mode(&scores, &mut rng);
    assert!(game.cycle_answer_selection(1));
    assert_eq!(game.selected_answer(), 1);
    assert!(game.cycle_answer_selection(1));
    assert_eq!(game.selected_answer(), 2);
    assert!(!game.cycle_answer_selection(0));
}

#[test]
fn confirm_answer_correct_increments_score() {
    let scores = MemoryHighScoreStore::new();
    let mut rng = ScriptedRng::new(vec![0, 0, 1, 2, 3, 4]);
    let mut game = FlagsGame::new(5);
    game.start_selected_mode(&scores, &mut rng);
    game.confirm_answer();
    assert_eq!(game.state(), FlagsState::Feedback);
    assert!(game.last_answer_correct());
    assert_eq!(game.score(), 1);
}

#[test]
fn confirm_answer_ignores_when_not_question() {
    let mut game = FlagsGame::new(5);
    game.confirm_answer();
    assert_eq!(game.state(), FlagsState::ChoosingMode);
}

#[test]
fn finish_feedback_practice_goes_to_next_question() {
    let mut scores = MemoryHighScoreStore::new();
    let mut rng = ScriptedRng::new(vec![0, 2, 1, 2, 3, 4, 0, 1, 2, 3]);
    let mut game = FlagsGame::new(5);
    game.set_selected_mode(FlagsMode::Practice);
    game.start_selected_mode(&scores, &mut rng);
    game.confirm_answer();
    game.finish_feedback(&mut scores, &mut rng);
    assert_eq!(game.state(), FlagsState::Question);
    assert_eq!(game.round(), 2);
}

#[test]
fn finish_feedback_quiz20_mid_round_continues() {
    let mut scores = MemoryHighScoreStore::new();
    let mut rng = ScriptedRng::new(vec![0, 0, 1, 2, 3, 4]);
    let mut game = FlagsGame::new(5);
    game.set_selected_mode(FlagsMode::Quiz20);
    game.start_selected_mode(&scores, &mut rng);
    game.confirm_answer();
    game.finish_feedback(&mut scores, &mut rng);
    assert_eq!(game.state(), FlagsState::Question);
}

#[test]
fn finish_feedback_ignores_when_not_feedback() {
    let mut game = FlagsGame::new(5);
    let mut scores = MemoryHighScoreStore::new();
    let mut rng = ScriptedRng::new(vec![0]);
    game.finish_feedback(&mut scores, &mut rng);
    assert_eq!(game.state(), FlagsState::ChoosingMode);
}

#[test]
fn cycle_choosing_action_down_and_up() {
    let mut game = FlagsGame::new(5);
    assert_eq!(game.choosing_action(), FlagsChoosingAction::Mode(FlagsMode::Practice));
    assert!(game.cycle_choosing_action_down());
    assert_eq!(game.choosing_action(), FlagsChoosingAction::Mode(FlagsMode::Quiz20));
    assert!(game.cycle_choosing_action_down());
    assert_eq!(game.choosing_action(), FlagsChoosingAction::Mode(FlagsMode::DeathMatch));
    assert!(game.cycle_choosing_action_down());
    assert_eq!(game.choosing_action(), FlagsChoosingAction::Exit);
    assert!(game.cycle_choosing_action_down());
    assert_eq!(game.choosing_action(), FlagsChoosingAction::Mode(FlagsMode::Practice));

    assert!(game.cycle_choosing_action_up());
    assert_eq!(game.choosing_action(), FlagsChoosingAction::Exit);
}

#[test]
fn cycle_choosing_action_ignores_outside_choosing_mode() {
    let scores = MemoryHighScoreStore::new();
    let mut rng = ScriptedRng::new(vec![0, 2, 1, 2, 3, 4]);
    let mut game = FlagsGame::new(5);
    game.start_selected_mode(&scores, &mut rng);
    assert!(!game.cycle_choosing_action_down());
}

#[test]
fn flags_cycle_pause_action_toggles() {
    let mut game = FlagsGame::new(5);
    assert_eq!(game.pause_action(), FlagsPauseAction::Continue);
    game.cycle_pause_action();
    assert_eq!(game.pause_action(), FlagsPauseAction::Exit);
    game.cycle_pause_action();
    assert_eq!(game.pause_action(), FlagsPauseAction::Continue);
}

#[test]
fn enter_paused_only_from_question_or_feedback() {
    let mut game = FlagsGame::new(5);
    game.enter_paused();
    assert_eq!(game.state(), FlagsState::ChoosingMode);

    let scores = MemoryHighScoreStore::new();
    let mut rng = ScriptedRng::new(vec![0, 2, 1, 2, 3, 4]);
    game.start_selected_mode(&scores, &mut rng);
    game.enter_paused();
    assert_eq!(game.state(), FlagsState::Paused);
}

#[test]
fn resume_from_pause_only_when_paused() {
    let mut game = FlagsGame::new(5);
    game.resume_from_pause();
    assert_eq!(game.state(), FlagsState::ChoosingMode);
}

#[test]
fn select_result_action_cycles() {
    let mut scores = MemoryHighScoreStore::new();
    let mut rng = ScriptedRng::new(vec![0, 0, 1, 2, 3, 4]);
    let mut game = FlagsGame::new(5);
    game.set_selected_mode(FlagsMode::DeathMatch);
    game.start_selected_mode(&scores, &mut rng);
    game.cycle_answer_selection(1);
    game.confirm_answer();
    game.finish_feedback(&mut scores, &mut rng);
    assert_eq!(game.state(), FlagsState::Over);
    assert!(game.select_next_result_action());
    assert_eq!(game.result_action(), FlagsResultAction::Exit);
    assert!(game.select_previous_result_action());
    assert_eq!(game.result_action(), FlagsResultAction::Restart);
}

#[test]
fn cycle_result_action_cycles() {
    let mut scores = MemoryHighScoreStore::new();
    let mut rng = ScriptedRng::new(vec![0, 0, 1, 2, 3, 4]);
    let mut game = FlagsGame::new(5);
    game.set_selected_mode(FlagsMode::DeathMatch);
    game.start_selected_mode(&scores, &mut rng);
    game.cycle_answer_selection(1);
    game.confirm_answer();
    game.finish_feedback(&mut scores, &mut rng);
    assert_eq!(game.state(), FlagsState::Over);
    assert!(game.cycle_result_action(1));
    assert_eq!(game.result_action(), FlagsResultAction::Exit);
}

#[test]
fn select_result_action_ignores_wrong_state() {
    let scores = MemoryHighScoreStore::new();
    let mut rng = ScriptedRng::new(vec![0, 2, 1, 2, 3, 4]);
    let mut game = FlagsGame::new(5);
    game.start_selected_mode(&scores, &mut rng);
    assert!(!game.select_next_result_action());
}

#[test]
fn flags_mode_name_covers_all() {
    assert_eq!(flags_mode_name(FlagsMode::Practice), "PRACTICE");
    assert_eq!(flags_mode_name(FlagsMode::Quiz20), "QUIZ 20");
    assert_eq!(flags_mode_name(FlagsMode::DeathMatch), "DEATH MATCH");
}

#[test]
fn flags_result_action_name_covers_all() {
    assert_eq!(flags_result_action_name(FlagsResultAction::Restart), "RESTART");
    assert_eq!(flags_result_action_name(FlagsResultAction::Exit), "EXIT");
}

#[test]
fn flags_state_title_covers_all() {
    assert_eq!(flags_state_title(FlagsState::ChoosingMode), "FLAGS");
    assert_eq!(flags_state_title(FlagsState::Question), "FLAGS");
    assert_eq!(flags_state_title(FlagsState::Feedback), "ANSWER");
    assert_eq!(flags_state_title(FlagsState::Paused), "PAUSED");
    assert_eq!(flags_state_title(FlagsState::Results), "RESULTS");
    assert_eq!(flags_state_title(FlagsState::Over), "GAME OVER");
}

#[test]
fn enter_choosing_resets_state() {
    let scores = MemoryHighScoreStore::new();
    let mut rng = ScriptedRng::new(vec![0, 2, 1, 2, 3, 4]);
    let mut game = FlagsGame::new(5);
    game.set_selected_mode(FlagsMode::Practice);
    game.start_selected_mode(&scores, &mut rng);
    assert_eq!(game.state(), FlagsState::Question);
    game.enter_choosing(&scores);
    assert_eq!(game.state(), FlagsState::ChoosingMode);
    assert_eq!(game.result_action(), FlagsResultAction::Restart);
}

#[test]
fn every_question_shows_the_asked_flag_on_the_correct_tile() {
    let mut scores = MemoryHighScoreStore::new();
    let mut rng = ScriptedRng::new(vec![3, 1, 4, 1, 5, 9, 2, 6, 5, 3, 5, 8, 9, 7]);
    let mut game = FlagsGame::new(5);
    game.start_selected_mode(&scores, &mut rng);
    for _ in 0..12 {
        let answers = game.answer_indices();
        let flag = game.current_flag();
        assert_eq!(game.answer_flag(game.correct_answer()).code, flag.code);
        for a in 0..4 {
            for b in (a + 1)..4 {
                assert_ne!(answers[a], answers[b]);
            }
        }
        game.confirm_answer();
        game.finish_feedback(&mut scores, &mut rng);
    }
}

#[test]
fn start_puts_the_drawn_flag_on_the_drawn_tile() {
    let scores = MemoryHighScoreStore::new();
    let mut rng = ScriptedRng::new(vec![3, 2, 0, 1, 4]);
    let mut game = FlagsGame::new(5);
    game.start_selected_mode(&scores, &mut rng);
    assert_eq!(game.correct_answer(), 2);
    assert_eq!(game.answer_indices(), [0, 1, 3, 4]);
}
