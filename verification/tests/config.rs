use orion_core::config::{on_board, wrap_index, wrapped_cell, Cell, Direction, BOARD_COLS, BOARD_ROWS};

#[test]
fn opposite_directions() {
    assert!(Direction::Up.is_opposite(Direction::Down));
    assert!(!Direction::Up.is_opposite(Direction::Left));
    assert_eq!(Direction::Left.opposite(), Direction::Right);
    assert_eq!(Direction::Down.opposite().opposite(), Direction::Down);
}

#[test]
fn board_bounds_and_wrapping() {
    assert!(on_board(Cell::new(0, 0)));
    assert!(!on_board(Cell::new(BOARD_COLS, 0)));
    assert_eq!(wrapped_cell(Cell::new(-1, BOARD_ROWS)), Cell::new(BOARD_COLS - 1, 0));
    assert_eq!(wrapped_cell(Cell::new(BOARD_COLS, -1)), Cell::new(0, BOARD_ROWS - 1));
}

#[test]
fn wrap_index_handles_negative_values() {
    assert_eq!(wrap_index(-1, 4), 3);
    assert_eq!(wrap_index(-8, 4), 0);
    assert_eq!(wrap_index(9, 4), 1);
}
