use orion_core::config::Direction;
use orion_core::rng::ScriptedRng;
use orion_core::tetris::{TetrisGame, TetrisMode, TetrisPauseAction, Tetromino, TETRIS_COLS, TETRIS_ROWS};

#[test]
fn switch_starts_game_with_deterministic_piece_queue() {
    let mut game = TetrisGame::default();
    let mut rng = ScriptedRng::new(vec![2, 6]);

    assert!(game.press_switch(&mut rng, 10));

    assert_eq!(game.mode(), TetrisMode::Playing);
    assert_eq!(game.active().kind, Tetromino::T);
    assert_eq!(game.next(), Tetromino::L);
}

#[test]
fn piece_moves_left_and_right_within_well() {
    let mut game = TetrisGame::default();
    let mut rng = ScriptedRng::new(vec![1, 1]);
    game.press_switch(&mut rng, 0);

    assert!(game.move_active(Direction::Left));
    assert_eq!(game.active().x, 2);
    assert!(game.move_active(Direction::Right));
    assert_eq!(game.active().x, 3);
}

#[test]
fn rotation_changes_piece_orientation() {
    let mut game = TetrisGame::default();
    let mut rng = ScriptedRng::new(vec![0, 1]);
    game.press_switch(&mut rng, 0);

    assert!(game.move_active(Direction::Up));
    assert_eq!(game.active().rotation, 1);
}

#[test]
fn tick_locks_piece_at_bottom_and_spawns_next() {
    let mut game = TetrisGame::default();
    let mut rng = ScriptedRng::new(vec![1, 2, 3]);
    game.press_switch(&mut rng, 0);

    for _ in 0..TETRIS_ROWS {
        game.tick(&mut rng);
    }

    assert_eq!(game.active().kind, Tetromino::T);
    assert!(game
        .board()
        .iter()
        .any(|&cell| cell == Tetromino::O.cell_value()));
}

#[test]
fn clearing_line_adds_score_and_lines() {
    let mut game = TetrisGame::default();
    let mut rng = ScriptedRng::new(vec![0, 0]);
    game.press_switch(&mut rng, 0);
    for col in 0..TETRIS_COLS {
        game.set_cell(TETRIS_ROWS - 1, col, 1);
    }

    let cleared = game.clear_completed_lines();
    game.add_line_score(cleared);

    assert_eq!(game.lines(), 1);
    assert_eq!(game.score(), 100);
    assert_eq!(
        game.board()[(TETRIS_ROWS - 1) * TETRIS_COLS..TETRIS_ROWS * TETRIS_COLS],
        [0; TETRIS_COLS]
    );
}

#[test]
fn spawn_collision_enters_game_over() {
    let mut game = TetrisGame::default();
    let mut rng = ScriptedRng::new(vec![1, 1, 1]);
    game.press_switch(&mut rng, 0);
    for col in 0..TETRIS_COLS {
        game.set_cell(0, col, 1);
    }

    game.spawn_next(&mut rng);

    assert_eq!(game.mode(), TetrisMode::GameOver);
}

#[test]
fn clearing_keeps_rows_above_in_order() {
    let mut game = TetrisGame::default();
    let mut rng = ScriptedRng::new(vec![0, 0]);
    game.press_switch(&mut rng, 0);
    for col in 0..TETRIS_COLS {
        game.set_cell(19, col, 1);
        game.set_cell(17, col, 2);
    }
    game.set_cell(18, 0, 5);
    game.set_cell(16, 3, 6);
    let cleared = game.clear_completed_lines();
    assert_eq!(cleared, 2);
    assert_eq!(game.lines(), 2);
    assert_eq!(game.cell(19, 0), 5);
    assert_eq!(game.cell(18, 3), 6);
    assert_eq!(game.board().iter().filter(|&&c| c != 0).count(), 2);
    game.add_line_score(cleared);
    assert_eq!(game.score(), 300);
}

#[test]
fn four_lines_at_level_one_score_double() {
    let mut game = TetrisGame::default();
    let mut rng = ScriptedRng::new(vec![0, 0]);
    game.press_switch(&mut rng, 0);
    for _ in 0..2 {
        for row in 0..TETRIS_ROWS {
            for col in 0..TETRIS_COLS {
                game.set_cell(row, col, 1);
            }
        }
        let cleared = game.clear_completed_lines();
        assert_eq!(cleared, 20);
    }
    assert_eq!(game.lines(), 40);
    assert_eq!(game.level(), 4);
    game.add_line_score(4);
    assert_eq!(game.score(), 800 * 5);
}

#[test]
fn pause_then_continue_resumes_the_round() {
    let mut game = TetrisGame::default();
    let mut rng = ScriptedRng::new(vec![2, 3]);
    game.press_switch(&mut rng, 0);
    let active = game.active();
    assert!(game.press_switch(&mut rng, 10));
    assert_eq!(game.mode(), TetrisMode::Paused);
    assert!(!game.move_active(Direction::Left));
    assert!(game.press_switch(&mut rng, 20));
    assert_eq!(game.mode(), TetrisMode::Playing);
    assert_eq!(game.active(), active);
    assert!(!game.due_for_tick(20));
    assert!(game.due_for_tick(720_000));
}

#[test]
fn pause_exit_goes_back_to_choosing() {
    let mut game = TetrisGame::default();
    let mut rng = ScriptedRng::new(vec![2, 3]);
    game.press_switch(&mut rng, 0);
    game.press_switch(&mut rng, 10);
    game.cycle_pause_action();
    assert_eq!(game.pause_action(), TetrisPauseAction::Exit);
    game.press_switch(&mut rng, 20);
    assert_eq!(game.mode(), TetrisMode::Choosing);
    assert_eq!(game.pause_action(), TetrisPauseAction::Continue);
}

#[test]
fn walls_stop_the_piece_and_rotation_kicks_off_the_wall() {
    let mut game = TetrisGame::default();
    let mut rng = ScriptedRng::new(vec![0, 0]);
    game.press_switch(&mut rng, 0);
    // The I piece lies flat in row 1 from column 3.
    let mut moves = 0;
    while game.move_active(Direction::Left) {
        moves += 1;
    }
    assert_eq!(moves, 3);
    assert_eq!(game.active().x, 0);
    assert!(game.move_active(Direction::Up));
    assert_eq!(game.active().rotation, 1);
    // Standing up in column 2, then turned flat again needs no kick.
    assert!(game.move_active(Direction::Up));
    assert_eq!(game.active().x, 0);
}

#[test]
fn soft_drop_scores_a_point_per_row() {
    let mut game = TetrisGame::default();
    let mut rng = ScriptedRng::new(vec![1, 1]);
    game.press_switch(&mut rng, 0);
    assert!(game.soft_drop());
    assert!(game.soft_drop());
    assert_eq!(game.score(), 2);
    assert_eq!(game.active().y, 2);
}

#[test]
fn occupied_cell_shows_the_active_piece_over_the_board() {
    let mut game = TetrisGame::default();
    let mut rng = ScriptedRng::new(vec![1, 1]);
    game.press_switch(&mut rng, 0);
    // The O piece covers columns 4 and 5 of rows 0 and 1.
    assert_eq!(game.occupied_cell(0, 4), Tetromino::O.cell_value());
    assert_eq!(game.occupied_cell(1, 5), Tetromino::O.cell_value());
    assert_eq!(game.occupied_cell(2, 4), 0);
    assert_eq!(game.cell(0, 4), 0);
}

#[test]
fn from_index_maps_out_of_range_to_l() {
    assert_eq!(Tetromino::from_index(0), Tetromino::I);
    assert_eq!(Tetromino::from_index(6), Tetromino::L);
    assert_eq!(Tetromino::from_index(99), Tetromino::L);
}
