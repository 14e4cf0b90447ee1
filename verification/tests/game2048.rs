use orion_core::config::Direction;
use orion_core::game2048::{Game2048, Game2048Mode, GridSize, MAX_CELLS, MAX_GRID_SIZE};
use orion_core::rng::ScriptedRng;
use orion_core::store::{HighScoreStore, MemoryHighScoreStore};

fn make_grid(size: usize, values: &[u16]) -> [u16; MAX_CELLS] {
    let mut grid = [0u16; MAX_CELLS];
    for row in 0..size {
        for col in 0..size {
            grid[row * MAX_GRID_SIZE + col] = values[row * size + col];
        }
    }
    grid
}

fn playing(size: GridSize, grid: [u16; MAX_CELLS]) -> Game2048 {
    let mut game = Game2048::default();
    game.set_grid_size(size);
    game.set_mode(Game2048Mode::Playing);
    game.set_grid(grid);
    game
}

#[test]
fn slide_left_merges_adjacent() {
    let mut game = playing(GridSize::Classic, make_grid(4, &[2, 2, 0, 0, 4, 4, 0, 0, 0, 0, 0, 0, 0, 0, 0, 0]));
    let moved = game.slide(Direction::Left);
    assert!(moved);
    assert_eq!(game.cell(0, 0), 4);
    assert_eq!(game.cell(0, 1), 0);
    assert_eq!(game.cell(1, 0), 8);
}

#[test]
fn slide_left_no_move_returns_false() {
    let mut game = playing(GridSize::Classic, make_grid(4, &[2, 4, 8, 16, 0, 0, 0, 0, 0, 0, 0, 0, 0, 0, 0, 0]));
    let moved = game.slide(Direction::Left);
    assert!(!moved);
}

#[test]
fn slide_right_shifts_tiles() {
    let mut game = playing(GridSize::Classic, make_grid(4, &[2, 0, 0, 0, 0, 0, 0, 0, 0, 0, 0, 0, 0, 0, 0, 0]));
    let moved = game.slide(Direction::Right);
    assert!(moved);
    assert_eq!(game.cell(0, 3), 2);
    assert_eq!(game.cell(0, 0), 0);
}

#[test]
fn slide_merges_only_once_per_move() {
    let mut game = playing(GridSize::Classic, make_grid(4, &[2, 2, 2, 2, 0, 0, 0, 0, 0, 0, 0, 0, 0, 0, 0, 0]));
    game.slide(Direction::Left);
    assert_eq!(game.cell(0, 0), 4);
    assert_eq!(game.cell(0, 1), 4);
    assert_eq!(game.cell(0, 2), 0);
    assert_eq!(game.cell(0, 3), 0);
}

#[test]
fn slide_adds_score_on_merge() {
    let mut game = playing(GridSize::Classic, make_grid(4, &[2, 2, 4, 4, 0, 0, 0, 0, 0, 0, 0, 0, 0, 0, 0, 0]));
    game.slide(Direction::Left);
    assert_eq!(game.score(), 12);
}

#[test]
fn slide_down_merges_column() {
    let mut game = playing(GridSize::Classic, make_grid(4, &[2, 0, 0, 0, 2, 0, 0, 0, 0, 0, 0, 0, 0, 0, 0, 0]));
    game.slide(Direction::Down);
    assert_eq!(game.cell(3, 0), 4);
    assert_eq!(game.cell(2, 0), 0);
}

#[test]
fn slide_up_merges_column() {
    let mut game = playing(GridSize::Classic, make_grid(4, &[0, 0, 0, 0, 0, 0, 0, 0, 2, 0, 0, 0, 2, 0, 0, 0]));
    game.slide(Direction::Up);
    assert_eq!(game.cell(0, 0), 4);
    assert_eq!(game.cell(1, 0), 0);
}

#[test]
fn is_game_over_detects_full_board_no_merges() {
    let mut game = Game2048::default();
    game.set_grid_size(GridSize::Classic);
    game.set_grid(make_grid(4, &[2, 4, 2, 4, 4, 2, 4, 2, 2, 4, 8, 16, 32, 64, 128, 256]));
    assert!(game.is_game_over());
}

#[test]
fn is_game_over_false_with_merge_available() {
    let mut game = Game2048::default();
    game.set_grid_size(GridSize::Classic);
    game.set_grid(make_grid(
        4,
        &[2, 4, 8, 16, 32, 64, 128, 256, 512, 1024, 2048, 2, 8192, 16384, 32768, 2],
    ));
    assert!(!game.is_game_over());
}

#[test]
fn is_game_over_false_with_empty_cell() {
    let mut game = Game2048::default();
    game.set_grid_size(GridSize::Classic);
    game.set_grid(make_grid(
        4,
        &[2, 4, 8, 16, 32, 64, 128, 256, 0, 1024, 2048, 4096, 8192, 16384, 2, 4],
    ));
    assert!(!game.is_game_over());
}

#[test]
fn place_random_tile_fills_empty_cell() {
    let mut game = Game2048::default();
    game.set_grid_size(GridSize::Classic);
    game.set_mode(Game2048Mode::Playing);
    let mut rng = ScriptedRng::new(vec![0, 0]);

    game.place_random_tile(&mut rng);

    let non_zero_count = game.grid()[..MAX_GRID_SIZE * 4].iter().filter(|&&v| v != 0).count();
    assert_eq!(non_zero_count, 1);
    let value = game.grid().iter().find(|&&v| v != 0).unwrap();
    assert!(*value == 2 || *value == 4);
}

#[test]
fn press_switch_starts_game_from_choosing() {
    let mut game = Game2048::default();
    let mut scores = MemoryHighScoreStore::new();
    let mut rng = ScriptedRng::new(vec![0, 5, 3, 7]);

    game.press_switch(&mut scores, &mut rng);
    assert_eq!(game.mode(), Game2048Mode::Playing);
}

#[test]
fn grid_size_cycling() {
    let mut game = Game2048::default();
    assert_eq!(game.grid_size(), GridSize::Classic);
    assert!(game.adjust_grid_size(1));
    assert_eq!(game.grid_size(), GridSize::Large);
    assert!(!game.adjust_grid_size(1));
    assert_eq!(game.grid_size(), GridSize::Large);
    assert!(game.adjust_grid_size(-1));
    assert_eq!(game.grid_size(), GridSize::Classic);
    assert!(game.adjust_grid_size(-1));
    assert_eq!(game.grid_size(), GridSize::Small);
    assert!(!game.adjust_grid_size(-1));
    assert_eq!(game.grid_size(), GridSize::Small);
}

#[test]
fn small_grid_slide() {
    let mut game = playing(GridSize::Small, make_grid(3, &[2, 2, 0, 0, 4, 0, 0, 0, 2]));
    let moved = game.slide(Direction::Left);
    assert!(moved);
    assert_eq!(game.cell(0, 0), 4);
    assert_eq!(game.cell(1, 0), 4);
    assert_eq!(game.cell(2, 0), 2);
}

#[test]
fn update_best_score_persists() {
    let mut game = Game2048::default();
    game.set_grid_size(GridSize::Classic);
    game.set_score(500);
    let mut scores = MemoryHighScoreStore::new();

    game.update_best_score(&mut scores);

    assert_eq!(scores.game2048_best_score(GridSize::Classic), 500);
    assert_eq!(game.best_score(), 500);
}

#[test]
fn enter_game_over_sets_mode_and_persists_score() {
    let mut game = playing(GridSize::Classic, make_grid(4, &[2, 4, 2, 4, 4, 2, 4, 2, 2, 4, 8, 16, 32, 64, 128, 256]));
    game.set_score(100);
    let mut scores = MemoryHighScoreStore::new();

    assert!(game.is_game_over());
    game.enter_game_over(&mut scores);
    assert_eq!(game.mode(), Game2048Mode::GameOver);
    assert_eq!(scores.game2048_best_score(GridSize::Classic), 100);
}

#[test]
fn slide_is_ignored_outside_play() {
    let mut game = Game2048::default();
    game.set_grid(make_grid(4, &[2, 2, 0, 0, 0, 0, 0, 0, 0, 0, 0, 0, 0, 0, 0, 0]));
    assert!(!game.slide(Direction::Left));
    assert_eq!(game.cell(0, 1), 2);
}

#[test]
fn slide_leaves_cells_outside_small_grid() {
    let mut grid = make_grid(3, &[0, 2, 2, 0, 0, 0, 0, 0, 0]);
    grid[4] = 8;
    let mut game = playing(GridSize::Small, grid);
    assert!(game.slide(Direction::Left));
    assert_eq!(game.cell(0, 0), 4);
    assert_eq!(game.cell(0, 4), 8);
    assert_eq!(game.score(), 4);
}

#[test]
fn grid_size_labels_and_indices() {
    assert_eq!(GridSize::Small.label(), "3X3");
    assert_eq!(GridSize::Large.size(), 5);
    assert_eq!(GridSize::from_index(GridSize::Classic.index()), GridSize::Classic);
    assert_eq!(GridSize::from_index(9), GridSize::Large);
}

#[test]
fn pause_menu_exit_returns_to_setup() {
    let mut game = Game2048::default();
    let mut scores = MemoryHighScoreStore::new();
    let mut rng = ScriptedRng::new(vec![0, 5, 3, 7]);
    game.press_switch(&mut scores, &mut rng);
    game.press_switch(&mut scores, &mut rng);
    assert_eq!(game.mode(), Game2048Mode::Paused);
    game.cycle_pause_action();
    game.press_switch(&mut scores, &mut rng);
    assert_eq!(game.mode(), Game2048Mode::Choosing);
}

#[test]
fn slide_keeps_total_of_tiles() {
    let mut game = playing(GridSize::Classic, make_grid(4, &[2, 2, 4, 0, 4, 4, 4, 4, 0, 8, 8, 16, 2, 0, 2, 2]));
    let before: u32 = game.grid().iter().map(|v| *v as u32).sum();
    assert!(game.slide(Direction::Left));
    let after: u32 = game.grid().iter().map(|v| *v as u32).sum();
    assert_eq!(before, after);
    assert_eq!(game.cell(0, 0), 4);
    assert_eq!(game.cell(1, 0), 8);
    assert_eq!(game.cell(1, 1), 8);
}

#[test]
fn place_tile_from_draws_picks_the_drawn_empty_cell() {
    let mut game = Game2048::default();
    game.set_grid_size(GridSize::Classic);
    game.set_mode(Game2048Mode::Playing);
    game.place_tile_from_draws(5, 0);
    assert_eq!(game.cell(1, 1), 4);
    let mut other = Game2048::default();
    other.set_grid_size(GridSize::Classic);
    other.set_mode(Game2048Mode::Playing);
    other.place_tile_from_draws(2, 7);
    assert_eq!(other.cell(0, 2), 2);
    assert_eq!(other.grid().iter().filter(|&&v| v != 0).count(), 1);
}

#[test]
fn place_random_tile_uses_its_two_draws() {
    let mut game = Game2048::default();
    game.set_grid_size(GridSize::Classic);
    game.set_mode(Game2048Mode::Playing);
    let mut rng = ScriptedRng::new(vec![17, 3]);
    game.place_random_tile(&mut rng);
    assert_eq!(game.cell(0, 1), 2);
}
