use vstd::prelude::*;

verus! {

/// One of the four joystick directions.
#[derive(Debug, Clone, Copy, PartialEq, Eq, Structural)]
pub enum Direction {
    Up,
    Down,
    Left,
    Right,
}

/// The direction pointing the other way.
pub open spec fn spec_opposite(d: Direction) -> Direction {
    match d {
        Direction::Up => Direction::Down,
        Direction::Down => Direction::Up,
        Direction::Left => Direction::Right,
        Direction::Right => Direction::Left,
    }
}

impl Direction {
    /// True when `other` points exactly against `self`.
    pub fn is_opposite(self, other: Self) -> (r: bool)
        ensures
            r == (other == spec_opposite(self)),
    {
        match (self, other) {
            (Direction::Up, Direction::Down) => true,
            (Direction::Down, Direction::Up) => true,
            (Direction::Left, Direction::Right) => true,
            (Direction::Right, Direction::Left) => true,
            _ => false,
        }
    }

    /// The direction pointing the other way.
    pub fn opposite(self) -> (r: Self)
        ensures
            r == spec_opposite(self),
    {
        match self {
            Direction::Up => Direction::Down,
            Direction::Down => Direction::Up,
            Direction::Left => Direction::Right,
            Direction::Right => Direction::Left,
        }
    }
}

/// Turning around twice gives the direction back.
pub proof fn lemma_opposite_involutive(d: Direction)
    ensures
        spec_opposite(spec_opposite(d)) == d,
        spec_opposite(d) != d,
{
}

/// A board cell, in cell units.
#[derive(Debug, Clone, Copy, PartialEq, Eq, Structural)]
pub struct Cell {
    pub x: i16,
    pub y: i16,
}

impl Cell {
    pub fn new(x: i16, y: i16) -> (r: Self)
        ensures
            r.x == x,
            r.y == y,
    {
        Cell { x, y }
    }
}

/// Division rounding toward zero, as Rust's `/` on signed integers.
pub open spec fn trunc_div(a: int, d: int) -> int {
    if a >= 0 { a / d } else { -((-a) / d) }
}

pub const TFT_H_RES: i16 = 320;
pub const TFT_V_RES: i16 = 240;
pub const HUD_HEIGHT: i16 = 16;
pub const CELL_SIZE: i16 = 16;
pub const BOARD_COLS: i16 = 20;
/// `(TFT_V_RES - HUD_HEIGHT) / CELL_SIZE`.
pub const BOARD_ROWS: i16 = 14;
/// `BOARD_COLS * BOARD_ROWS`.
pub const BOARD_CELLS: usize = 280;
pub const JOYSTICK_DEADZONE: i32 = 450;
pub const JOYSTICK_THRESHOLD: i32 = 700;
pub const MENU_COLS: usize = 2;
pub const BUTTON_DEBOUNCE_MS: u64 = 80;
pub const FLAGS_PRACTICE_EXIT_HOLD_MS: u64 = 700;
pub const ENCODER_STEPS_PER_DETENT: i8 = 4;

/// The cell lies on the snake board.
pub open spec fn spec_on_board(cell: Cell) -> bool {
    0 <= cell.x < BOARD_COLS && 0 <= cell.y < BOARD_ROWS
}

pub fn on_board(cell: Cell) -> (r: bool)
    ensures
        r == spec_on_board(cell),
{
    cell.x >= 0 && cell.y >= 0 && cell.x < BOARD_COLS && cell.y < BOARD_ROWS
}

/// One coordinate wrapped around a board side of `n` cells: stepping off
/// one edge enters at the other.
pub open spec fn spec_wrap_coord(v: i16, n: i16) -> i16 {
    if v < 0 {
        (n - 1) as i16
    } else if v >= n {
        0
    } else {
        v
    }
}

pub open spec fn spec_wrapped_cell(cell: Cell) -> Cell {
    Cell { x: spec_wrap_coord(cell.x, BOARD_COLS), y: spec_wrap_coord(cell.y, BOARD_ROWS) }
}

pub fn wrapped_cell(cell: Cell) -> (r: Cell)
    ensures
        r == spec_wrapped_cell(cell),
        (-1 <= cell.x <= BOARD_COLS && -1 <= cell.y <= BOARD_ROWS) ==> spec_on_board(r),
{
    let mut x = cell.x;
    let mut y = cell.y;
    if x < 0 {
        x = BOARD_COLS - 1;
    } else if x >= BOARD_COLS {
        x = 0;
    }
    if y < 0 {
        y = BOARD_ROWS - 1;
    } else if y >= BOARD_ROWS {
        y = 0;
    }
    Cell { x, y }
}

/// `index` reduced into `0..count`, also for negative `index`.
pub open spec fn spec_wrap_index(index: int, count: int) -> int {
    index % count
}

pub fn wrap_index(index: i32, count: i32) -> (r: i32)
    requires
        count > 0,
    ensures
        r == spec_wrap_index(index as int, count as int),
        0 <= r < count,
{
    let m = index % count;
    let r = if m < 0 { m + count } else { m };
    proof { lemma_trunc_rem_to_euclid(index as int, count as int, m as int); }
    r
}

/// Rust's `%` on `i32` truncates toward zero; shifting a negative remainder
/// by `count` gives the Euclidean remainder.
proof fn lemma_trunc_rem_to_euclid(a: int, n: int, m: int)
    requires
        n > 0,
        m == (if a >= 0 { a % n } else { -((-a) % n) }),
    ensures
        (if m < 0 { m + n } else { m }) == a % n,
{
    if a < 0 {
        let q = (-a) / n;
        let r = (-a) % n;
        vstd::arithmetic::div_mod::lemma_fundamental_div_mod(-a, n);
        vstd::arithmetic::div_mod::lemma_mod_bound(-a, n);
        if r == 0 {
            assert(a == (-q) * n) by (nonlinear_arith)
                requires -a == n * q + r, r == 0;
            vstd::arithmetic::div_mod::lemma_mod_multiples_basic(-q, n);
        } else {
            assert(a == (-q - 1) * n + (n - r)) by (nonlinear_arith)
                requires -a == n * q + r;
            vstd::arithmetic::div_mod::lemma_mod_multiples_vanish(-q - 1, n - r, n);
            vstd::arithmetic::div_mod::lemma_small_mod((n - r) as nat, n as nat);
        }
    }
}

} // verus!
