use vstd::prelude::*;
use crate::config::Direction;
use crate::rng::{drew, lemma_drew_then, Rng};

verus! {

pub const TETRIS_COLS: usize = 10;
pub const TETRIS_ROWS: usize = 20;
/// `TETRIS_COLS * TETRIS_ROWS`.
pub const TETRIS_CELLS: usize = 200;

#[derive(Debug, Clone, Copy, PartialEq, Eq, Structural)]
pub enum TetrisMode {
    Choosing,
    Playing,
    Paused,
    GameOver,
}

#[derive(Debug, Clone, Copy, PartialEq, Eq, Structural)]
pub enum TetrisPauseAction {
    Continue,
    Exit,
}

#[derive(Debug, Clone, Copy, PartialEq, Eq, Structural)]
pub enum Tetromino {
    I,
    O,
    T,
    S,
    Z,
    J,
    L,
}

pub open spec fn spec_from_index(index: int) -> Tetromino {
    if index == 0 {
        Tetromino::I
    } else if index == 1 {
        Tetromino::O
    } else if index == 2 {
        Tetromino::T
    } else if index == 3 {
        Tetromino::S
    } else if index == 4 {
        Tetromino::Z
    } else if index == 5 {
        Tetromino::J
    } else {
        Tetromino::L
    }
}

pub open spec fn spec_cell_value(kind: Tetromino) -> u8 {
    match kind {
        Tetromino::I => 1,
        Tetromino::O => 2,
        Tetromino::T => 3,
        Tetromino::S => 4,
        Tetromino::Z => 5,
        Tetromino::J => 6,
        Tetromino::L => 7,
    }
}

impl Tetromino {
    /// The pieces in order I, O, T, S, Z, J, L; any larger index is L.
    pub fn from_index(index: usize) -> (r: Self)
        ensures
            r == spec_from_index(index as int),
    {
        match index {
            0 => Tetromino::I,
            1 => Tetromino::O,
            2 => Tetromino::T,
            3 => Tetromino::S,
            4 => Tetromino::Z,
            5 => Tetromino::J,
            _ => Tetromino::L,
        }
    }

    /// The value a locked block of this piece leaves on the board, 1 to 7.
    pub fn cell_value(self) -> (r: u8)
        ensures
            r == spec_cell_value(self),
    {
        match self {
            Tetromino::I => 1,
            Tetromino::O => 2,
            Tetromino::T => 3,
            Tetromino::S => 4,
            Tetromino::Z => 5,
            Tetromino::J => 6,
            Tetromino::L => 7,
        }
    }
}

#[derive(Debug, Clone, Copy, PartialEq, Eq, Structural)]
pub struct TetrisBlock {
    pub x: i8,
    pub y: i8,
}

impl TetrisBlock {
    pub fn new(x: i8, y: i8) -> (r: Self)
        ensures
            r == (TetrisBlock { x, y }),
    {
        TetrisBlock { x, y }
    }
}

#[derive(Debug, Clone, Copy, PartialEq, Eq, Structural)]
pub struct TetrisPiece {
    pub kind: Tetromino,
    pub rotation: u8,
    pub x: i8,
    pub y: i8,
}

pub open spec fn spec_tetromino_cells(kind: Tetromino, rotation: u8) -> Seq<TetrisBlock> {
    let r = rotation % 4;
    match kind {
        Tetromino::I => if r == 0 { seq![TetrisBlock { x: 0, y: 1 }, TetrisBlock { x: 1, y: 1 }, TetrisBlock { x: 2, y: 1 }, TetrisBlock { x: 3, y: 1 }] } else if r == 1 { seq![TetrisBlock { x: 2, y: 0 }, TetrisBlock { x: 2, y: 1 }, TetrisBlock { x: 2, y: 2 }, TetrisBlock { x: 2, y: 3 }] } else if r == 2 { seq![TetrisBlock { x: 0, y: 2 }, TetrisBlock { x: 1, y: 2 }, TetrisBlock { x: 2, y: 2 }, TetrisBlock { x: 3, y: 2 }] } else { seq![TetrisBlock { x: 1, y: 0 }, TetrisBlock { x: 1, y: 1 }, TetrisBlock { x: 1, y: 2 }, TetrisBlock { x: 1, y: 3 }] },
        Tetromino::O => seq![TetrisBlock { x: 1, y: 0 }, TetrisBlock { x: 2, y: 0 }, TetrisBlock { x: 1, y: 1 }, TetrisBlock { x: 2, y: 1 }],
        Tetromino::T => if r == 0 { seq![TetrisBlock { x: 1, y: 0 }, TetrisBlock { x: 0, y: 1 }, TetrisBlock { x: 1, y: 1 }, TetrisBlock { x: 2, y: 1 }] } else if r == 1 { seq![TetrisBlock { x: 1, y: 0 }, TetrisBlock { x: 1, y: 1 }, TetrisBlock { x: 2, y: 1 }, TetrisBlock { x: 1, y: 2 }] } else if r == 2 { seq![TetrisBlock { x: 0, y: 1 }, TetrisBlock { x: 1, y: 1 }, TetrisBlock { x: 2, y: 1 }, TetrisBlock { x: 1, y: 2 }] } else { seq![TetrisBlock { x: 1, y: 0 }, TetrisBlock { x: 0, y: 1 }, TetrisBlock { x: 1, y: 1 }, TetrisBlock { x: 1, y: 2 }] },
        Tetromino::S => if r == 0 { seq![TetrisBlock { x: 1, y: 0 }, TetrisBlock { x: 2, y: 0 }, TetrisBlock { x: 0, y: 1 }, TetrisBlock { x: 1, y: 1 }] } else if r == 1 { seq![TetrisBlock { x: 1, y: 0 }, TetrisBlock { x: 1, y: 1 }, TetrisBlock { x: 2, y: 1 }, TetrisBlock { x: 2, y: 2 }] } else if r == 2 { seq![TetrisBlock { x: 1, y: 0 }, TetrisBlock { x: 2, y: 0 }, TetrisBlock { x: 0, y: 1 }, TetrisBlock { x: 1, y: 1 }] } else { seq![TetrisBlock { x: 1, y: 0 }, TetrisBlock { x: 1, y: 1 }, TetrisBlock { x: 2, y: 1 }, TetrisBlock { x: 2, y: 2 }] },
        Tetromino::Z => if r == 0 { seq![TetrisBlock { x: 0, y: 0 }, TetrisBlock { x: 1, y: 0 }, TetrisBlock { x: 1, y: 1 }, TetrisBlock { x: 2, y: 1 }] } else if r == 1 { seq![TetrisBlock { x: 2, y: 0 }, TetrisBlock { x: 1, y: 1 }, TetrisBlock { x: 2, y: 1 }, TetrisBlock { x: 1, y: 2 }] } else if r == 2 { seq![TetrisBlock { x: 0, y: 0 }, TetrisBlock { x: 1, y: 0 }, TetrisBlock { x: 1, y: 1 }, TetrisBlock { x: 2, y: 1 }] } else { seq![TetrisBlock { x: 2, y: 0 }, TetrisBlock { x: 1, y: 1 }, TetrisBlock { x: 2, y: 1 }, TetrisBlock { x: 1, y: 2 }] },
        Tetromino::J => if r == 0 { seq![TetrisBlock { x: 0, y: 0 }, TetrisBlock { x: 0, y: 1 }, TetrisBlock { x: 1, y: 1 }, TetrisBlock { x: 2, y: 1 }] } else if r == 1 { seq![TetrisBlock { x: 1, y: 0 }, TetrisBlock { x: 2, y: 0 }, TetrisBlock { x: 1, y: 1 }, TetrisBlock { x: 1, y: 2 }] } else if r == 2 { seq![TetrisBlock { x: 0, y: 1 }, TetrisBlock { x: 1, y: 1 }, TetrisBlock { x: 2, y: 1 }, TetrisBlock { x: 2, y: 2 }] } else { seq![TetrisBlock { x: 1, y: 0 }, TetrisBlock { x: 1, y: 1 }, TetrisBlock { x: 0, y: 2 }, TetrisBlock { x: 1, y: 2 }] },
        Tetromino::L => if r == 0 { seq![TetrisBlock { x: 2, y: 0 }, TetrisBlock { x: 0, y: 1 }, TetrisBlock { x: 1, y: 1 }, TetrisBlock { x: 2, y: 1 }] } else if r == 1 { seq![TetrisBlock { x: 1, y: 0 }, TetrisBlock { x: 1, y: 1 }, TetrisBlock { x: 1, y: 2 }, TetrisBlock { x: 2, y: 2 }] } else if r == 2 { seq![TetrisBlock { x: 0, y: 1 }, TetrisBlock { x: 1, y: 1 }, TetrisBlock { x: 2, y: 1 }, TetrisBlock { x: 0, y: 2 }] } else { seq![TetrisBlock { x: 0, y: 0 }, TetrisBlock { x: 1, y: 0 }, TetrisBlock { x: 1, y: 1 }, TetrisBlock { x: 1, y: 2 }] },
    }
}

pub fn tetromino_cells(kind: Tetromino, rotation: u8) -> (r: [TetrisBlock; 4])
    ensures
        r@ == spec_tetromino_cells(kind, rotation),
{
    let rot = rotation % 4;
    let r: [TetrisBlock; 4] = match kind {
        Tetromino::I => if rot == 0 { [TetrisBlock { x: 0, y: 1 }, TetrisBlock { x: 1, y: 1 }, TetrisBlock { x: 2, y: 1 }, TetrisBlock { x: 3, y: 1 }] } else if rot == 1 { [TetrisBlock { x: 2, y: 0 }, TetrisBlock { x: 2, y: 1 }, TetrisBlock { x: 2, y: 2 }, TetrisBlock { x: 2, y: 3 }] } else if rot == 2 { [TetrisBlock { x: 0, y: 2 }, TetrisBlock { x: 1, y: 2 }, TetrisBlock { x: 2, y: 2 }, TetrisBlock { x: 3, y: 2 }] } else { [TetrisBlock { x: 1, y: 0 }, TetrisBlock { x: 1, y: 1 }, TetrisBlock { x: 1, y: 2 }, TetrisBlock { x: 1, y: 3 }] },
        Tetromino::O => [TetrisBlock { x: 1, y: 0 }, TetrisBlock { x: 2, y: 0 }, TetrisBlock { x: 1, y: 1 }, TetrisBlock { x: 2, y: 1 }],
        Tetromino::T => if rot == 0 { [TetrisBlock { x: 1, y: 0 }, TetrisBlock { x: 0, y: 1 }, TetrisBlock { x: 1, y: 1 }, TetrisBlock { x: 2, y: 1 }] } else if rot == 1 { [TetrisBlock { x: 1, y: 0 }, TetrisBlock { x: 1, y: 1 }, TetrisBlock { x: 2, y: 1 }, TetrisBlock { x: 1, y: 2 }] } else if rot == 2 { [TetrisBlock { x: 0, y: 1 }, TetrisBlock { x: 1, y: 1 }, TetrisBlock { x: 2, y: 1 }, TetrisBlock { x: 1, y: 2 }] } else { [TetrisBlock { x: 1, y: 0 }, TetrisBlock { x: 0, y: 1 }, TetrisBlock { x: 1, y: 1 }, TetrisBlock { x: 1, y: 2 }] },
        Tetromino::S => if rot == 0 { [TetrisBlock { x: 1, y: 0 }, TetrisBlock { x: 2, y: 0 }, TetrisBlock { x: 0, y: 1 }, TetrisBlock { x: 1, y: 1 }] } else if rot == 1 { [TetrisBlock { x: 1, y: 0 }, TetrisBlock { x: 1, y: 1 }, TetrisBlock { x: 2, y: 1 }, TetrisBlock { x: 2, y: 2 }] } else if rot == 2 { [TetrisBlock { x: 1, y: 0 }, TetrisBlock { x: 2, y: 0 }, TetrisBlock { x: 0, y: 1 }, TetrisBlock { x: 1, y: 1 }] } else { [TetrisBlock { x: 1, y: 0 }, TetrisBlock { x: 1, y: 1 }, TetrisBlock { x: 2, y: 1 }, TetrisBlock { x: 2, y: 2 }] },
        Tetromino::Z => if rot == 0 { [TetrisBlock { x: 0, y: 0 }, TetrisBlock { x: 1, y: 0 }, TetrisBlock { x: 1, y: 1 }, TetrisBlock { x: 2, y: 1 }] } else if rot == 1 { [TetrisBlock { x: 2, y: 0 }, TetrisBlock { x: 1, y: 1 }, TetrisBlock { x: 2, y: 1 }, TetrisBlock { x: 1, y: 2 }] } else if rot == 2 { [TetrisBlock { x: 0, y: 0 }, TetrisBlock { x: 1, y: 0 }, TetrisBlock { x: 1, y: 1 }, TetrisBlock { x: 2, y: 1 }] } else { [TetrisBlock { x: 2, y: 0 }, TetrisBlock { x: 1, y: 1 }, TetrisBlock { x: 2, y: 1 }, TetrisBlock { x: 1, y: 2 }] },
        Tetromino::J => if rot == 0 { [TetrisBlock { x: 0, y: 0 }, TetrisBlock { x: 0, y: 1 }, TetrisBlock { x: 1, y: 1 }, TetrisBlock { x: 2, y: 1 }] } else if rot == 1 { [TetrisBlock { x: 1, y: 0 }, TetrisBlock { x: 2, y: 0 }, TetrisBlock { x: 1, y: 1 }, TetrisBlock { x: 1, y: 2 }] } else if rot == 2 { [TetrisBlock { x: 0, y: 1 }, TetrisBlock { x: 1, y: 1 }, TetrisBlock { x: 2, y: 1 }, TetrisBlock { x: 2, y: 2 }] } else { [TetrisBlock { x: 1, y: 0 }, TetrisBlock { x: 1, y: 1 }, TetrisBlock { x: 0, y: 2 }, TetrisBlock { x: 1, y: 2 }] },
        Tetromino::L => if rot == 0 { [TetrisBlock { x: 2, y: 0 }, TetrisBlock { x: 0, y: 1 }, TetrisBlock { x: 1, y: 1 }, TetrisBlock { x: 2, y: 1 }] } else if rot == 1 { [TetrisBlock { x: 1, y: 0 }, TetrisBlock { x: 1, y: 1 }, TetrisBlock { x: 1, y: 2 }, TetrisBlock { x: 2, y: 2 }] } else if rot == 2 { [TetrisBlock { x: 0, y: 1 }, TetrisBlock { x: 1, y: 1 }, TetrisBlock { x: 2, y: 1 }, TetrisBlock { x: 0, y: 2 }] } else { [TetrisBlock { x: 0, y: 0 }, TetrisBlock { x: 1, y: 0 }, TetrisBlock { x: 1, y: 1 }, TetrisBlock { x: 1, y: 2 }] },
    };
    assert(r@ =~= spec_tetromino_cells(kind, rotation));
    r
}

proof fn lemma_local_cells_small(kind: Tetromino, rotation: u8)
    ensures
        spec_tetromino_cells(kind, rotation).len() == 4,
        forall|i: int| 0 <= i < 4 ==> 0 <= #[trigger] spec_tetromino_cells(kind, rotation)[i].x <= 3
            && 0 <= spec_tetromino_cells(kind, rotation)[i].y <= 3,
{
}

/// The board cells a piece covers, in table order.
pub open spec fn piece_cells(p: TetrisPiece) -> Seq<(int, int)> {
    Seq::new(4, |i: int| (p.x + spec_tetromino_cells(p.kind, p.rotation)[i].x, p.y + spec_tetromino_cells(p.kind, p.rotation)[i].y))
}

impl TetrisPiece {
    /// The four board cells the piece covers.
    pub fn cells(self) -> (r: [TetrisBlock; 4])
        requires
            self.x <= 124, self.y <= 124,
        ensures
            forall|i: int| 0 <= i < 4 ==> (#[trigger] r@[i].x as int, r@[i].y as int) == piece_cells(self)[i],
    {
        let local = tetromino_cells(self.kind, self.rotation);
        proof { lemma_local_cells_small(self.kind, self.rotation); }
        let r = [
            TetrisBlock::new(self.x + local[0].x, self.y + local[0].y),
            TetrisBlock::new(self.x + local[1].x, self.y + local[1].y),
            TetrisBlock::new(self.x + local[2].x, self.y + local[2].y),
            TetrisBlock::new(self.x + local[3].x, self.y + local[3].y),
        ];
        r
    }
}

// ---------------------------------------------------------------------------
// The well.

/// A cell a block cannot take: off the sides or the floor, or filled. Rows
/// above the top are open.
pub open spec fn blocked(board: Seq<u8>, c: (int, int)) -> bool {
    c.0 < 0 || c.0 >= 10 || c.1 >= 20 || (c.1 >= 0 && board[c.1 * 10 + c.0] != 0)
}

/// Some block of the piece is on a blocked cell.
pub open spec fn collides(board: Seq<u8>, p: TetrisPiece) -> bool {
    let c = piece_cells(p);
    blocked(board, c[0]) || blocked(board, c[1]) || blocked(board, c[2]) || blocked(board, c[3])
}

pub open spec fn spawn(kind: Tetromino) -> TetrisPiece {
    TetrisPiece { kind, rotation: 0, x: 3, y: 0 }
}

/// The abstract state of a Tetris game.
pub struct TetrisState {
    pub board: Seq<u8>,
    pub active: TetrisPiece,
    pub next: Tetromino,
    pub mode: TetrisMode,
    pub pause_action: TetrisPauseAction,
    pub score: u32,
    pub lines: u32,
    pub last_tick_us: i64,
}

/// The board has its 200 cells; the active piece lies near the well, and
/// while a round is in play or paused it overlaps nothing.
pub open spec fn tetris_valid(s: TetrisState) -> bool {
    &&& s.board.len() == TETRIS_CELLS
    &&& -3 <= s.active.x <= 9
    &&& 0 <= s.active.y <= 19
    &&& s.active.rotation < 4
    &&& (s.mode == TetrisMode::Playing || s.mode == TetrisMode::Paused) ==> !collides(s.board, s.active)
}

/// A piece that overlaps nothing lies within the well's sides and above
/// its floor.
proof fn lemma_free_piece_in_well(board: Seq<u8>, p: TetrisPiece)
    requires
        !collides(board, p),
    ensures
        -3 <= p.x <= 9, p.y <= 19,
{
    lemma_local_cells_small(p.kind, p.rotation);
    let c = piece_cells(p);
    assert(!blocked(board, c[0]));
}

pub open spec fn level_of(lines: u32) -> u32 {
    (lines / 10) as u32
}

/// Points for clearing `cleared` lines at once, times the level plus one,
/// added to `score` without passing `u32::MAX`.
pub open spec fn spec_line_score(score: u32, lines: u32, cleared: u32) -> u32 {
    let base: int = if cleared == 1 { 100 } else if cleared == 2 { 300 } else if cleared == 3 { 500 } else if cleared == 4 { 800 } else { 0 };
    let total = score + base * (level_of(lines) + 1);
    if total > u32::MAX { u32::MAX } else { total as u32 }
}

/// Frame time: 700 ms less 45 per level, for at most 12 levels, never below
/// 120 ms.
pub open spec fn spec_tick_us(lines: u32) -> int {
    let level = level_of(lines) as int;
    let capped = if level < 12 { level } else { 12 };
    let ms = if 700 - capped * 45 > 120 { 700 - capped * 45 } else { 120 };
    ms * 1000
}

// ---------------------------------------------------------------------------
// Clearing full rows.

/// Row `r` of a board, left to right.
pub open spec fn row_of(board: Seq<u8>, r: int) -> Seq<u8> {
    board.subrange(r * 10, r * 10 + 10)
}

pub open spec fn row_complete_spec(row: Seq<u8>) -> bool {
    forall|c: int| 0 <= c < 10 ==> #[trigger] row[c] != 0
}

/// The rows from `r` down to the floor that are not complete, top first.
pub open spec fn kept_from(board: Seq<u8>, r: int) -> Seq<Seq<u8>>
    decreases 20 - r,
{
    if r >= 20 || r < 0 {
        Seq::empty()
    } else if row_complete_spec(row_of(board, r)) {
        kept_from(board, r + 1)
    } else {
        seq![row_of(board, r)] + kept_from(board, r + 1)
    }
}

/// The board with its complete rows removed: the other rows drop to the
/// floor in their order and empty rows fill the top.
pub open spec fn cleared_board(board: Seq<u8>) -> Seq<u8> {
    let kept = kept_from(board, 0);
    let gap = 20 - kept.len();
    Seq::new(200, |i: int| if i / 10 < gap { 0u8 } else { kept[i / 10 - gap][i % 10] })
}

/// How many rows of the board are complete.
pub open spec fn complete_rows(board: Seq<u8>) -> int {
    20 - kept_from(board, 0).len()
}

proof fn lemma_kept_len(board: Seq<u8>, r: int)
    requires
        0 <= r <= 20,
    ensures
        kept_from(board, r).len() <= 20 - r,
        forall|j: int| 0 <= j < kept_from(board, r).len() ==> (#[trigger] kept_from(board, r)[j]).len() == 10
            || board.len() != 200,
    decreases 20 - r,
{
    if r < 20 {
        lemma_kept_len(board, r + 1);
        if !row_complete_spec(row_of(board, r)) {
            let k = kept_from(board, r);
            let k1 = kept_from(board, r + 1);
            assert forall|j: int| 0 <= j < k.len() implies (#[trigger] k[j]).len() == 10 || board.len() != 200 by {
                if j > 0 {
                    assert(k[j] == k1[j - 1]);
                }
            }
        }
    }
}

fn row_complete(board: &[u8; 200], row: usize) -> (r: bool)
    requires
        row < 20,
    ensures
        r == row_complete_spec(row_of(board@, row as int)),
{
    let mut col: usize = 0;
    while col < 10
        invariant
            col <= 10, row < 20,
            forall|c: int| 0 <= c < col ==> #[trigger] row_of(board@, row as int)[c] != 0,
        decreases 10 - col,
    {
        if board[row * 10 + col] == 0 {
            assert(row_of(board@, row as int)[col as int] == 0);
            return false;
        }
        col += 1;
    }
    true
}

fn copy_row(board: &mut [u8; 200], from: usize, to: usize)
    requires
        from < 20, to < 20,
    ensures
        row_of(final(board)@, to as int) == row_of(old(board)@, from as int),
        forall|i: int| 0 <= i < 200 && !(to * 10 <= i < to * 10 + 10) ==> #[trigger] final(board)@[i] == old(board)@[i],
{
    let ghost start = board@;
    let mut col: usize = 0;
    while col < 10
        invariant
            col <= 10, from < 20, to < 20,
            forall|c: int| 0 <= c < col ==> #[trigger] board@[to * 10 + c] == start[from * 10 + c],
            forall|i: int| 0 <= i < 200 && !(to * 10 <= i < to * 10 + col) ==> #[trigger] board@[i] == start[i],
            from != to ==> forall|c: int| 0 <= c < 10 ==> #[trigger] board@[from * 10 + c] == start[from * 10 + c],
        decreases 10 - col,
    {
        board[to * 10 + col] = board[from * 10 + col];
        col += 1;
    }
    assert forall|c: int| 0 <= c < 10 implies #[trigger] row_of(board@, to as int)[c] == row_of(start, from as int)[c] by {
        assert(board@[to * 10 + c] == start[from * 10 + c]);
    }
    assert(row_of(board@, to as int) =~= row_of(start, from as int));
}

fn clear_row(board: &mut [u8; 200], row: usize)
    requires
        row < 20,
    ensures
        forall|c: int| 0 <= c < 10 ==> #[trigger] final(board)@[row * 10 + c] == 0,
        forall|i: int| 0 <= i < 200 && !(row * 10 <= i < row * 10 + 10) ==> #[trigger] final(board)@[i] == old(board)@[i],
{
    let mut col: usize = 0;
    while col < 10
        invariant
            col <= 10, row < 20,
            forall|c: int| 0 <= c < col ==> #[trigger] board@[row * 10 + c] == 0,
            forall|i: int| 0 <= i < 200 && !(row * 10 <= i < row * 10 + col) ==> #[trigger] board@[i] == old(board)@[i],
        decreases 10 - col,
    {
        board[row * 10 + col] = 0;
        col += 1;
    }
}

/// Removes the complete rows of `board` as `cleared_board` says, and tells
/// how many there were.
fn clear_rows(board: &mut [u8; 200]) -> (cleared: u32)
    ensures
        final(board)@ == cleared_board(old(board)@),
        cleared == complete_rows(old(board)@),
{
    let ghost orig = board@;
    proof { lemma_kept_len(orig, 0); }
    let mut cleared: u32 = 0;
    let mut write_row: i32 = 19;
    let mut r: usize = 20;
    while r > 0
        invariant
            0 <= r <= 20, -1 <= write_row <= 19, write_row >= r as int - 1,
            orig.len() == 200,
            kept_from(orig, r as int).len() == 19 - write_row,
            cleared == (20 - r) - kept_from(orig, r as int).len(),
            forall|i: int| 0 <= i < r * 10 ==> #[trigger] board@[i] == orig[i],
            forall|j: int, c: int| 0 <= j < 19 - write_row && 0 <= c < 10 ==>
                #[trigger] board@[(write_row + 1 + j) * 10 + c] == kept_from(orig, r as int)[j][c],
        decreases r,
    {
        r -= 1;
        proof { lemma_kept_len(orig, r as int); lemma_kept_len(orig, r + 1); }
        assert(row_of(board@, r as int) =~= row_of(orig, r as int));
        if row_complete(board, r) {
            cleared += 1;
        } else {
            let ghost before = board@;
            let ghost k1 = kept_from(orig, r + 1);
            let ghost k = kept_from(orig, r as int);
            assert(k =~= seq![row_of(orig, r as int)] + k1);
            if write_row as usize != r {
                copy_row(board, r, write_row as usize);
            }
            assert forall|i: int| 0 <= i < r * 10 implies #[trigger] board@[i] == orig[i] by {
                assert(board@[i] == before[i]);
            }
            assert forall|j: int, c: int| 0 <= j < 19 - (write_row - 1) && 0 <= c < 10 implies
                #[trigger] board@[(write_row - 1 + 1 + j) * 10 + c] == k[j][c] by {
                if j == 0 {
                    assert(row_of(board@, write_row as int)[c] == board@[write_row * 10 + c]);
                    assert(row_of(orig, r as int)[c] == orig[r * 10 + c]);
                } else {
                    assert(board@[(write_row + 1 + (j - 1)) * 10 + c] == before[(write_row + 1 + (j - 1)) * 10 + c]);
                }
            }
            write_row -= 1;
        }
    }
    let ghost kept = kept_from(orig, 0);
    let ghost settled = board@;
    let mut row: i32 = write_row;
    while row >= 0
        invariant
            -1 <= row <= write_row, write_row <= 19,
            kept.len() == 19 - write_row,
            forall|j: int, c: int| 0 <= j < 19 - write_row && 0 <= c < 10 ==>
                #[trigger] board@[(write_row + 1 + j) * 10 + c] == kept[j][c],
            forall|i: int| (row + 1) * 10 <= i < (write_row + 1) * 10 ==> #[trigger] board@[i] == 0,
        decreases row + 1,
    {
        let ghost before = board@;
        clear_row(board, row as usize);
        assert forall|j: int, c: int| 0 <= j < 19 - write_row && 0 <= c < 10 implies
            #[trigger] board@[(write_row + 1 + j) * 10 + c] == kept[j][c] by {
            assert(board@[(write_row + 1 + j) * 10 + c] == before[(write_row + 1 + j) * 10 + c]);
        }
        assert forall|i: int| row * 10 <= i < (write_row + 1) * 10 implies #[trigger] board@[i] == 0 by {
            if i < (row + 1) * 10 {
                assert(board@[row * 10 + (i - row * 10)] == 0);
            } else {
                assert(board@[i] == before[i]);
            }
        }
        row -= 1;
    }
    assert forall|i: int| 0 <= i < 200 implies #[trigger] board@[i] == cleared_board(orig)[i] by {
        let gap = 20 - kept.len();
        if i / 10 >= gap {
            let j = i / 10 - gap;
            let c = i % 10;
            assert(i == (write_row + 1 + j) * 10 + c);
        }
    }
    assert(board@ =~= cleared_board(orig));
    cleared
}

proof fn lemma_kept_incomplete(board: Seq<u8>, r: int)
    ensures
        forall|j: int| 0 <= j < kept_from(board, r).len() ==> !row_complete_spec(#[trigger] kept_from(board, r)[j]),
    decreases 20 - r,
{
    if 0 <= r < 20 {
        lemma_kept_incomplete(board, r + 1);
        if !row_complete_spec(row_of(board, r)) {
            let k = kept_from(board, r);
            let k1 = kept_from(board, r + 1);
            assert forall|j: int| 0 <= j < k.len() implies !row_complete_spec(#[trigger] k[j]) by {
                if j > 0 {
                    assert(k[j] == k1[j - 1]);
                    assert(!row_complete_spec(k1[j - 1]));
                } else {
                    assert(k[0] == row_of(board, r));
                }
            }
        } else {
            assert(kept_from(board, r) == kept_from(board, r + 1));
        }
    }
}

/// After the complete rows are removed, no row of the board is complete.
pub proof fn law_no_complete_row_after_clearing(board: Seq<u8>)
    requires
        board.len() == 200,
    ensures
        forall|r: int| 0 <= r < 20 ==> !row_complete_spec(#[trigger] row_of(cleared_board(board), r)),
{
    lemma_kept_len(board, 0);
    lemma_kept_incomplete(board, 0);
    let kept = kept_from(board, 0);
    let gap = 20 - kept.len();
    let b = cleared_board(board);
    assert forall|r: int| 0 <= r < 20 implies !row_complete_spec(#[trigger] row_of(b, r)) by {
        if r < gap {
            assert(row_of(b, r)[0] == b[r * 10]);
            assert((r * 10) / 10 == r);
        } else {
            let j = r - gap;
            assert(!row_complete_spec(kept[j]));
            let c = choose|c: int| 0 <= c < 10 && kept[j][c] == 0;
            assert(row_of(b, r)[c] == b[r * 10 + c]);
            assert((r * 10 + c) / 10 == r && (r * 10 + c) % 10 == c);
        }
    }
}

/// Clearing keeps every row that was not complete and removes exactly the
/// complete ones.
pub proof fn law_clearing_counts_complete_rows(board: Seq<u8>)
    requires
        board.len() == 200,
    ensures
        0 <= complete_rows(board) <= 20,
        complete_rows(board) == 0 ==> cleared_board(board) == board,
{
    lemma_kept_len(board, 0);
    if complete_rows(board) == 0 {
        lemma_no_complete_keeps_all(board, 0);
        let b = cleared_board(board);
        assert forall|i: int| 0 <= i < 200 implies #[trigger] b[i] == board[i] by {
            let r = i / 10;
            let c = i % 10;
            assert(kept_from(board, 0)[r] == row_of(board, r));
            assert(row_of(board, r)[c] == board[r * 10 + c]);
        }
        assert(b =~= board);
    }
}

proof fn lemma_no_complete_keeps_all(board: Seq<u8>, r: int)
    requires
        0 <= r <= 20,
        kept_from(board, r).len() == 20 - r,
    ensures
        forall|j: int| 0 <= j < 20 - r ==> #[trigger] kept_from(board, r)[j] == row_of(board, r + j),
    decreases 20 - r,
{
    if r < 20 {
        lemma_kept_len(board, r + 1);
        assert(!row_complete_spec(row_of(board, r)));
        lemma_no_complete_keeps_all(board, r + 1);
        let k = kept_from(board, r);
        let k1 = kept_from(board, r + 1);
        assert forall|j: int| 0 <= j < 20 - r implies #[trigger] k[j] == row_of(board, r + j) by {
            if j > 0 {
                assert(k[j] == k1[j - 1]);
            }
        }
    }
}

// ---------------------------------------------------------------------------
// Locking a piece into the board.

/// Writes the piece's blocks from block `i` on; a block above the top ends
/// the game and leaves the rest unwritten.
pub open spec fn lock_from(board: Seq<u8>, cells: Seq<(int, int)>, value: u8, i: int) -> (Seq<u8>, bool)
    decreases 4 - i,
{
    if i >= 4 || i < 0 {
        (board, false)
    } else if cells[i].1 < 0 {
        (board, true)
    } else {
        lock_from(board.update(cells[i].1 * 10 + cells[i].0, value), cells, value, i + 1)
    }
}

/// The piece for a draw below seven, in the order I, O, T, S, Z, J, L.
pub open spec fn drawn_kind(raw: u32) -> Tetromino {
    spec_from_index(raw as int % 7)
}

/// The pieces that can come next: one of the seven, chosen at random.
fn random_kind<R: Rng>(rng: &mut R) -> (r: Tetromino)
    ensures
        old(rng).predictable() ==> drew(*old(rng), *final(rng), 1) && r == drawn_kind(old(rng).upcoming(0)),
{
    Tetromino::from_index(rng.index(7))
}

fn spawn_piece(kind: Tetromino) -> (r: TetrisPiece)
    ensures
        r == spawn(kind),
{
    TetrisPiece { kind, rotation: 0, x: 3, y: 0 }
}

/// A fresh round: an empty board, no score, `first` in play and `next`
/// waiting.
pub open spec fn spec_start(s: TetrisState, first: Tetromino, next: Tetromino, now_us: i64) -> TetrisState {
    let board = Seq::new(200, |i: int| 0u8);
    TetrisState {
        board,
        score: 0,
        lines: 0,
        mode: if collides(board, spawn(first)) { TetrisMode::GameOver } else { TetrisMode::Playing },
        pause_action: TetrisPauseAction::Continue,
        active: spawn(first),
        next,
        last_tick_us: now_us,
    }
}

/// The waiting piece enters at the top, `next` waits; the game is over when
/// the new piece has no room.
pub open spec fn spec_spawn_next(s: TetrisState, next: Tetromino) -> TetrisState {
    let active = spawn(s.next);
    TetrisState {
        active,
        next,
        mode: if collides(s.board, active) { TetrisMode::GameOver } else { s.mode },
        ..s
    }
}

/// The active piece shifted by `dx, dy`, when that spot is free.
pub open spec fn spec_offset(s: TetrisState, dx: int, dy: int) -> (TetrisState, bool) {
    let candidate = TetrisPiece { x: (s.active.x + dx) as i8, y: (s.active.y + dy) as i8, ..s.active };
    if collides(s.board, candidate) { (s, false) } else { (TetrisState { active: candidate, ..s }, true) }
}

pub open spec fn kicked(p: TetrisPiece, k: int) -> TetrisPiece {
    TetrisPiece { x: (p.x + k) as i8, ..p }
}

/// A clockwise turn, shifted by the first of 0, -1, 1, -2, 2 columns that
/// makes room; the O piece does not turn.
pub open spec fn spec_rotate(s: TetrisState) -> (TetrisState, bool) {
    let rotated = TetrisPiece { rotation: ((s.active.rotation + 1) % 4) as u8, ..s.active };
    if s.active.kind == Tetromino::O {
        (s, false)
    } else if !collides(s.board, kicked(rotated, 0)) {
        (TetrisState { active: kicked(rotated, 0), ..s }, true)
    } else if !collides(s.board, kicked(rotated, -1)) {
        (TetrisState { active: kicked(rotated, -1), ..s }, true)
    } else if !collides(s.board, kicked(rotated, 1)) {
        (TetrisState { active: kicked(rotated, 1), ..s }, true)
    } else if !collides(s.board, kicked(rotated, -2)) {
        (TetrisState { active: kicked(rotated, -2), ..s }, true)
    } else if !collides(s.board, kicked(rotated, 2)) {
        (TetrisState { active: kicked(rotated, 2), ..s }, true)
    } else {
        (s, false)
    }
}

/// A soft drop: one row down for a point (the score stops at `u32::MAX`).
pub open spec fn spec_soft_drop(s: TetrisState) -> (TetrisState, bool) {
    let (t, moved) = spec_offset(s, 0, 1);
    if moved {
        (TetrisState { score: if t.score < u32::MAX { (t.score + 1) as u32 } else { u32::MAX }, ..t }, true)
    } else {
        (s, false)
    }
}

/// A move in play: left, right, soft drop, or a turn for up.
pub open spec fn spec_move(s: TetrisState, direction: Direction) -> (TetrisState, bool) {
    if s.mode != TetrisMode::Playing {
        (s, false)
    } else {
        match direction {
            Direction::Left => spec_offset(s, -1, 0),
            Direction::Right => spec_offset(s, 1, 0),
            Direction::Down => spec_soft_drop(s),
            Direction::Up => spec_rotate(s),
        }
    }
}

/// Locking the active piece: its blocks join the board, full rows are
/// cleared and scored, and `next` is the piece after the one that enters.
pub open spec fn spec_lock(s: TetrisState, next: Tetromino) -> TetrisState {
    let locked = spec_lock_active(s);
    let cleared = complete_rows(locked.board);
    let lines = vstd::wrapping::u32_specs::wrapping_add(s.lines, cleared as u32);
    let s1 = TetrisState {
        board: cleared_board(locked.board),
        lines,
        score: spec_line_score(s.score, lines, cleared as u32),
        ..locked
    };
    spec_spawn_next(s1, next)
}

/// The active piece's blocks written into the board.
pub open spec fn spec_lock_active(s: TetrisState) -> TetrisState {
    let r = lock_from(s.board, piece_cells(s.active), spec_cell_value(s.active.kind), 0);
    TetrisState { board: r.0, mode: if r.1 { TetrisMode::GameOver } else { s.mode }, ..s }
}

/// A frame in play: the piece falls a row, or locks when it cannot.
pub open spec fn spec_tick(s: TetrisState, next: Tetromino) -> TetrisState {
    if s.mode != TetrisMode::Playing {
        s
    } else {
        let (t, moved) = spec_offset(s, 0, 1);
        if moved { t } else { spec_lock(s, next) }
    }
}

/// The switch: starts a round from the menu or after a game over, pauses a
/// round in play, and resumes or leaves from the pause menu.
pub open spec fn spec_press_switch(s: TetrisState, first: Tetromino, next: Tetromino, now_us: i64) -> TetrisState {
    match s.mode {
        TetrisMode::Choosing | TetrisMode::GameOver => spec_start(s, first, next, now_us),
        TetrisMode::Playing => TetrisState { mode: TetrisMode::Paused, pause_action: TetrisPauseAction::Continue, ..s },
        TetrisMode::Paused => match s.pause_action {
            TetrisPauseAction::Continue => TetrisState { mode: TetrisMode::Playing, last_tick_us: now_us, ..s },
            TetrisPauseAction::Exit => TetrisState { mode: TetrisMode::Choosing, pause_action: TetrisPauseAction::Continue, ..s },
        },
    }
}

/// Whether starting from `s` on the switch draws new pieces.
pub open spec fn switch_starts(s: TetrisState) -> bool {
    s.mode == TetrisMode::Choosing || s.mode == TetrisMode::GameOver
}

#[derive(Debug, Clone)]
pub struct TetrisGame {
    board: [u8; 200],
    active: TetrisPiece,
    next: Tetromino,
    mode: TetrisMode,
    pause_action: TetrisPauseAction,
    score: u32,
    lines: u32,
    last_tick_us: i64,
}

impl View for TetrisGame {
    type V = TetrisState;

    closed spec fn view(&self) -> TetrisState {
        TetrisState {
            board: self.board@,
            active: self.active,
            next: self.next,
            mode: self.mode,
            pause_action: self.pause_action,
            score: self.score,
            lines: self.lines,
            last_tick_us: self.last_tick_us,
        }
    }
}

impl Default for TetrisGame {
    fn default() -> (r: Self)
        ensures
            r@ == (TetrisState {
                board: Seq::new(200, |i: int| 0u8),
                active: spawn(Tetromino::I),
                next: Tetromino::O,
                mode: TetrisMode::Choosing,
                pause_action: TetrisPauseAction::Continue,
                score: 0,
                lines: 0,
                last_tick_us: 0,
            }),
            tetris_valid(r@),
    {
        let r = TetrisGame {
            board: [0u8; 200],
            active: spawn_piece(Tetromino::I),
            next: Tetromino::O,
            mode: TetrisMode::Choosing,
            pause_action: TetrisPauseAction::Continue,
            score: 0,
            lines: 0,
            last_tick_us: 0,
        };
        assert(r.board@ =~= Seq::new(200, |i: int| 0u8));
        r
    }
}

impl TetrisGame {
    /// Back to the start menu, with the pause selection reset.
    pub fn enter_choosing(&mut self)
        requires
            tetris_valid(old(self)@),
        ensures
            final(self)@ == (TetrisState { mode: TetrisMode::Choosing, pause_action: TetrisPauseAction::Continue, ..old(self)@ }),
            tetris_valid(final(self)@),
    {
        self.mode = TetrisMode::Choosing;
        self.pause_action = TetrisPauseAction::Continue;
    }

    /// The switch (see `spec_press_switch`); a new round takes its first two
    /// pieces from `rng`. It always has an effect.
    pub fn press_switch<R: Rng>(&mut self, rng: &mut R, now_us: i64) -> (r: bool)
        requires
            tetris_valid(old(self)@),
        ensures
            r,
            (old(self)@.mode == TetrisMode::Choosing || old(self)@.mode == TetrisMode::GameOver)
                && old(rng).predictable() ==> {
                &&& final(self)@.active.kind == drawn_kind(old(rng).upcoming(0))
                &&& final(self)@.next == drawn_kind(old(rng).upcoming(1))
                &&& drew(*old(rng), *final(rng), 2)
            },
            final(self)@ == spec_press_switch(old(self)@, final(self)@.active.kind, final(self)@.next, now_us),
            tetris_valid(final(self)@),
    {
        match self.mode {
            TetrisMode::Choosing | TetrisMode::GameOver => {
                let ghost r0 = *rng;
                let first = random_kind(rng);
                let ghost r1 = *rng;
                let next = random_kind(rng);
                proof {
                    if r0.predictable() {
                        assert(r1.upcoming(0) == r0.upcoming(1));
                        lemma_drew_then(r0, r1, *rng, 1, 1);
                    }
                }
                self.start_with(first, next, now_us);
            },
            TetrisMode::Playing => {
                self.mode = TetrisMode::Paused;
                self.pause_action = TetrisPauseAction::Continue;
            },
            TetrisMode::Paused => {
                match self.pause_action {
                    TetrisPauseAction::Continue => {
                        self.mode = TetrisMode::Playing;
                        self.last_tick_us = now_us;
                    },
                    TetrisPauseAction::Exit => self.enter_choosing(),
                }
            },
        }
        true
    }

    /// Starts a round with `first` in play and `next` waiting.
    pub fn start_with(&mut self, first: Tetromino, next: Tetromino, now_us: i64)
        ensures
            final(self)@ == spec_start(old(self)@, first, next, now_us),
            tetris_valid(final(self)@),
    {
        self.board = [0u8; 200];
        assert(self.board@ =~= Seq::new(200, |i: int| 0u8));
        self.score = 0;
        self.lines = 0;
        self.mode = TetrisMode::Playing;
        self.pause_action = TetrisPauseAction::Continue;
        self.active = spawn_piece(first);
        self.next = next;
        self.last_tick_us = now_us;
        if self.collides(self.active) {
            self.mode = TetrisMode::GameOver;
        }
    }

    /// Moves the pause menu selection to the other entry.
    pub fn cycle_pause_action(&mut self)
        ensures
            final(self)@ == (TetrisState {
                pause_action: match old(self)@.pause_action {
                    TetrisPauseAction::Continue => TetrisPauseAction::Exit,
                    TetrisPauseAction::Exit => TetrisPauseAction::Continue,
                },
                ..old(self)@
            }),
    {
        self.pause_action = match self.pause_action {
            TetrisPauseAction::Continue => TetrisPauseAction::Exit,
            TetrisPauseAction::Exit => TetrisPauseAction::Continue,
        };
    }

    /// A move in play; says whether the piece moved.
    pub fn move_active(&mut self, direction: Direction) -> (r: bool)
        requires
            tetris_valid(old(self)@),
        ensures
            (final(self)@, r) == spec_move(old(self)@, direction),
            tetris_valid(final(self)@),
    {
        if self.mode != TetrisMode::Playing {
            return false;
        }
        match direction {
            Direction::Left => self.try_offset(-1, 0),
            Direction::Right => self.try_offset(1, 0),
            Direction::Down => self.soft_drop(),
            Direction::Up => self.rotate_clockwise(),
        }
    }

    /// One row down for a point, when there is room.
    pub fn soft_drop(&mut self) -> (r: bool)
        requires
            tetris_valid(old(self)@),
        ensures
            (final(self)@, r) == spec_soft_drop(old(self)@),
            tetris_valid(final(self)@),
    {
        if self.try_offset(0, 1) {
            self.score = self.score.saturating_add(1);
            true
        } else {
            false
        }
    }

    /// A frame: the piece falls a row or locks; after a lock the piece
    /// after next comes from `rng`.
    pub fn tick<R: Rng>(&mut self, rng: &mut R)
        requires
            tetris_valid(old(self)@),
        ensures
            final(self)@ == spec_tick(old(self)@, final(self)@.next),
            tetris_valid(final(self)@),
            old(self)@.mode == TetrisMode::Playing && !spec_offset(old(self)@, 0, 1).1 && old(rng).predictable()
                ==> final(self)@.next == drawn_kind(old(rng).upcoming(0)) && drew(*old(rng), *final(rng), 1),
    {
        if self.mode != TetrisMode::Playing {
            return;
        }
        if !self.try_offset(0, 1) {
            let next = random_kind(rng);
            self.lock_with(next);
        }
    }

    /// Locks the active piece (the round is in play and the piece cannot
    /// fall), clears and scores full rows and brings in the waiting piece,
    /// with `next` after it.
    pub fn lock_with(&mut self, next: Tetromino)
        requires
            tetris_valid(old(self)@),
            old(self)@.mode == TetrisMode::Playing,
        ensures
            final(self)@ == spec_lock(old(self)@, next),
            tetris_valid(final(self)@),
    {
        self.lock_active();
        let cleared = self.clear_completed_lines();
        self.add_line_score(cleared);
        self.spawn_next_with(next);
    }

    /// A frame is due in play once the level's frame time has passed.
    pub fn due_for_tick(&self, now_us: i64) -> (r: bool)
        ensures
            r == (self@.mode == TetrisMode::Playing && now_us - self@.last_tick_us >= spec_tick_us(self@.lines)),
    {
        self.mode == TetrisMode::Playing && (now_us as i128) - (self.last_tick_us as i128) >= self.tick_us() as i128
    }

    pub fn mark_ticked(&mut self, now_us: i64)
        ensures
            final(self)@ == (TetrisState { last_tick_us: now_us, ..old(self)@ }),
    {
        self.last_tick_us = now_us;
    }

    pub fn mode(&self) -> (r: TetrisMode)
        ensures
            r == self@.mode,
    {
        self.mode
    }

    pub fn pause_action(&self) -> (r: TetrisPauseAction)
        ensures
            r == self@.pause_action,
    {
        self.pause_action
    }

    pub fn board(&self) -> (r: &[u8; 200])
        ensures
            r@ == self@.board,
    {
        &self.board
    }

    pub fn active(&self) -> (r: TetrisPiece)
        ensures
            r == self@.active,
    {
        self.active
    }

    pub fn next(&self) -> (r: Tetromino)
        ensures
            r == self@.next,
    {
        self.next
    }

    pub fn score(&self) -> (r: u32)
        ensures
            r == self@.score,
    {
        self.score
    }

    pub fn lines(&self) -> (r: u32)
        ensures
            r == self@.lines,
    {
        self.lines
    }

    /// One level per ten lines.
    pub fn level(&self) -> (r: u32)
        ensures
            r == level_of(self@.lines),
    {
        self.lines / 10
    }

    /// The locked block at a row and column, 0 for none.
    pub fn cell(&self, row: usize, col: usize) -> (r: u8)
        requires
            row < 20, col < 10,
        ensures
            r == self@.board[row * 10 + col],
    {
        self.board[row * 10 + col]
    }

    /// What shows at a row and column: the active piece over the board.
    pub fn occupied_cell(&self, row: usize, col: usize) -> (r: u8)
        requires
            row < 20, col < 10, tetris_valid(self@),
        ensures
            r == (if exists|i: int| 0 <= i < 4 && #[trigger] piece_cells(self@.active)[i] == (col as int, row as int) {
                spec_cell_value(self@.active.kind)
            } else {
                self@.board[row * 10 + col]
            }),
    {
        let x = col as i8;
        let y = row as i8;
        let cells = self.active.cells();
        let mut i: usize = 0;
        while i < 4
            invariant
                i <= 4, x == col, y == row,
                forall|j: int| 0 <= j < 4 ==> (#[trigger] cells@[j].x as int, cells@[j].y as int) == piece_cells(self@.active)[j],
                forall|j: int| 0 <= j < i ==> piece_cells(self@.active)[j] != (col as int, row as int),
            decreases 4 - i,
        {
            let block = cells[i];
            assert((cells@[i as int].x as int, cells@[i as int].y as int) == piece_cells(self@.active)[i as int]);
            if block.x == x && block.y == y {
                assert(piece_cells(self@.active)[i as int] == (col as int, row as int));
                return self.active.kind.cell_value();
            }
            i += 1;
        }
        self.cell(row, col)
    }

    /// Sets a board cell.
    pub fn set_cell(&mut self, row: usize, col: usize, value: u8)
        requires
            row < 20, col < 10,
        ensures
            final(self)@ == (TetrisState { board: old(self)@.board.update(row * 10 + col, value), ..old(self)@ }),
    {
        self.board[row * 10 + col] = value;
    }

    /// The waiting piece enters from `rng`'s pick after it.
    pub fn spawn_next<R: Rng>(&mut self, rng: &mut R)
        ensures
            final(self)@ == spec_spawn_next(old(self)@, final(self)@.next),
            !collides(final(self)@.board, final(self)@.active) || final(self)@.mode == TetrisMode::GameOver,
            old(rng).predictable() ==> final(self)@.next == drawn_kind(old(rng).upcoming(0)) && drew(*old(rng), *final(rng), 1),
    {
        let next = random_kind(rng);
        self.spawn_next_with(next);
    }

    /// The waiting piece enters, with `next` waiting after it.
    pub fn spawn_next_with(&mut self, next: Tetromino)
        ensures
            final(self)@ == spec_spawn_next(old(self)@, next),
            !collides(final(self)@.board, final(self)@.active) || final(self)@.mode == TetrisMode::GameOver,
    {
        self.active = spawn_piece(self.next);
        self.next = next;
        if self.collides(self.active) {
            self.mode = TetrisMode::GameOver;
        }
    }

    fn try_offset(&mut self, dx: i8, dy: i8) -> (r: bool)
        requires
            tetris_valid(old(self)@),
            -1 <= dx <= 1, 0 <= dy <= 1,
        ensures
            (final(self)@, r) == spec_offset(old(self)@, dx as int, dy as int),
            tetris_valid(final(self)@),
    {
        let candidate = TetrisPiece { x: self.active.x + dx, y: self.active.y + dy, ..self.active };
        if self.collides(candidate) {
            false
        } else {
            proof { lemma_free_piece_in_well(self.board@, candidate); }
            self.active = candidate;
            true
        }
    }

    fn rotate_clockwise(&mut self) -> (r: bool)
        requires
            tetris_valid(old(self)@),
        ensures
            (final(self)@, r) == spec_rotate(old(self)@),
            tetris_valid(final(self)@),
    {
        if self.active.kind == Tetromino::O {
            return false;
        }
        let rotated = TetrisPiece { rotation: (self.active.rotation + 1) % 4, ..self.active };
        let kicks: [i8; 5] = [0, -1, 1, -2, 2];
        let mut k: usize = 0;
        while k < 5
            invariant
                k <= 5, kicks@ == seq![0i8, -1i8, 1i8, -2i8, 2i8],
                self@ == old(self)@, tetris_valid(self@), self@.active.kind != Tetromino::O,
                rotated == (TetrisPiece { rotation: ((old(self)@.active.rotation + 1) % 4) as u8, ..old(self)@.active }),
                forall|j: int| 0 <= j < k ==> collides(self@.board, #[trigger] kicked(rotated, kicks@[j] as int)),
            decreases 5 - k,
        {
            let candidate = TetrisPiece { x: rotated.x + kicks[k], ..rotated };
            assert(candidate == kicked(rotated, kicks@[k as int] as int));
            if !self.collides(candidate) {
                proof { lemma_free_piece_in_well(self.board@, candidate); }
                self.active = candidate;
                return true;
            }
            k += 1;
        }
        false
    }

    fn collides(&self, piece: TetrisPiece) -> (r: bool)
        requires
            self@.board.len() == 200, -5 <= piece.x <= 11, -1 <= piece.y <= 20,
        ensures
            r == collides(self@.board, piece),
    {
        let cells = piece.cells();
        let mut i: usize = 0;
        while i < 4
            invariant
                i <= 4, self@.board.len() == 200,
                forall|j: int| 0 <= j < 4 ==> (#[trigger] cells@[j].x as int, cells@[j].y as int) == piece_cells(piece)[j],
                forall|j: int| 0 <= j < i ==> !blocked(self@.board, #[trigger] piece_cells(piece)[j]),
            decreases 4 - i,
        {
            let block = cells[i];
            if block.x < 0 || block.x >= 10 || block.y >= 20 {
                assert(blocked(self@.board, piece_cells(piece)[i as int]));
                return true;
            }
            if block.y >= 0 && self.board[block.y as usize * 10 + block.x as usize] != 0 {
                assert(blocked(self@.board, piece_cells(piece)[i as int]));
                return true;
            }
            i += 1;
        }
        false
    }

    fn lock_active(&mut self)
        requires
            tetris_valid(old(self)@),
            old(self)@.mode == TetrisMode::Playing,
        ensures
            final(self)@ == spec_lock_active(old(self)@),
    {
        let cells = self.active.cells();
        let value = self.active.kind.cell_value();
        let ghost pc = piece_cells(old(self)@.active);
        let ghost start = self.board@;
        let mut board = self.board;
        let mut over = false;
        let mut i: usize = 0;
        while i < 4 && !over
            invariant
                i <= 4,
                board@.len() == 200, pc.len() == 4,
                value == spec_cell_value(old(self)@.active.kind),
                forall|j: int| 0 <= j < 4 ==> (#[trigger] cells@[j].x as int, cells@[j].y as int) == pc[j],
                forall|j: int| 0 <= j < 4 ==> !blocked(start, #[trigger] pc[j]),
                !over ==> lock_from(board@, pc, value, i as int) == lock_from(start, pc, value, 0),
                over ==> lock_from(start, pc, value, 0) == (board@, true),
            decreases 4 - i + (if over { 0int } else { 1int }),
        {
            let block = cells[i];
            assert((cells@[i as int].x as int, cells@[i as int].y as int) == pc[i as int]);
            if block.y < 0 {
                over = true;
            } else {
                assert(!blocked(start, pc[i as int]));
                let index = block.y as usize * 10 + block.x as usize;
                board[index] = value;
                i += 1;
            }
        }
        self.board = board;
        if over {
            self.mode = TetrisMode::GameOver;
        }
    }

    /// Removes the complete rows and counts them into the lines; returns
    /// how many there were.
    pub fn clear_completed_lines(&mut self) -> (cleared: u32)
        ensures
            cleared == complete_rows(old(self)@.board),
            final(self)@ == (TetrisState {
                board: cleared_board(old(self)@.board),
                lines: vstd::wrapping::u32_specs::wrapping_add(old(self)@.lines, cleared),
                ..old(self)@
            }),
    {
        let cleared = clear_rows(&mut self.board);
        self.lines = self.lines.wrapping_add(cleared);
        cleared
    }

    /// Adds the points for `cleared` lines at the current level.
    pub fn add_line_score(&mut self, cleared: u32)
        ensures
            final(self)@ == (TetrisState { score: spec_line_score(old(self)@.score, old(self)@.lines, cleared), ..old(self)@ }),
    {
        let base: u64 = match cleared {
            1 => 100,
            2 => 300,
            3 => 500,
            4 => 800,
            _ => 0,
        };
        let level: u64 = (self.lines / 10) as u64;
        let total: u64 = self.score as u64 + base * (level + 1);
        self.score = if total > u32::MAX as u64 { u32::MAX } else { total as u32 };
    }

    fn tick_us(&self) -> (r: i64)
        ensures
            r == spec_tick_us(self@.lines),
    {
        let level = self.lines / 10;
        let capped: u32 = if level < 12 { level } else { 12 };
        let ms: u32 = if 700 - capped * 45 > 120 { 700 - capped * 45 } else { 120 };
        ms as i64 * 1000
    }
}

/// Pausing a round in play and choosing to continue resumes the same round,
/// with the frame clock restarted (and the pause selection on continue).
pub proof fn law_tetris_pause_continue(s: TetrisState, a: Tetromino, b: Tetromino, c: Tetromino, d: Tetromino, t1: i64, t2: i64)
    requires
        s.mode == TetrisMode::Playing,
    ensures
        spec_press_switch(spec_press_switch(s, a, b, t1), c, d, t2)
            == (TetrisState { last_tick_us: t2, pause_action: TetrisPauseAction::Continue, ..s }),
{
}

/// A step left that was taken is undone by a step right.
pub proof fn law_tetris_left_then_right(s: TetrisState)
    requires
        tetris_valid(s),
        s.mode == TetrisMode::Playing,
        spec_offset(s, -1, 0).1,
    ensures
        spec_offset(spec_offset(s, -1, 0).0, 1, 0) == (s, true),
{
    let t = spec_offset(s, -1, 0).0;
    assert(TetrisPiece { x: (t.active.x + 1) as i8, y: (t.active.y + 0) as i8, ..t.active } == s.active);
}

/// Moves and frames never lower the score.
pub proof fn law_tetris_score_never_drops(s: TetrisState, next: Tetromino, d: Direction)
    ensures
        spec_tick(s, next).score >= s.score,
        spec_move(s, d).0.score >= s.score,
{
}


/// Writing a piece's blocks keeps every board value a piece colour or empty.
proof fn lemma_lock_from_cells(board: Seq<u8>, cells: Seq<(int, int)>, value: u8, i: int)
    requires
        board.len() == TETRIS_CELLS,
        forall|k: int| 0 <= k < board.len() ==> #[trigger] board[k] <= 7,
        value <= 7,
        0 <= i <= 4,
        cells.len() == 4,
        forall|j: int| i <= j < 4 && #[trigger] cells[j].1 >= 0 ==> 0 <= cells[j].0 < 10 && cells[j].1 < 20,
    ensures
        lock_from(board, cells, value, i).0.len() == TETRIS_CELLS,
        forall|k: int| 0 <= k < TETRIS_CELLS ==> #[trigger] lock_from(board, cells, value, i).0[k] <= 7,
    decreases 4 - i,
{
    if i < 4 && cells[i].1 >= 0 {
        let b = board.update(cells[i].1 * 10 + cells[i].0, value);
        assert forall|k: int| 0 <= k < b.len() implies #[trigger] b[k] <= 7 by {
            if k != cells[i].1 * 10 + cells[i].0 {
                assert(b[k] == board[k]);
            }
        }
        lemma_lock_from_cells(b, cells, value, i + 1);
    }
}

/// The rows kept when clearing hold board values only.
proof fn lemma_kept_cells(board: Seq<u8>, r: int)
    requires
        board.len() == TETRIS_CELLS,
        forall|k: int| 0 <= k < board.len() ==> #[trigger] board[k] <= 7,
        0 <= r <= 20,
    ensures
        forall|j: int, c: int| 0 <= j < kept_from(board, r).len() && 0 <= c < 10 ==> #[trigger] kept_from(board, r)[j][c] <= 7,
    decreases 20 - r,
{
    if r < 20 {
        lemma_kept_cells(board, r + 1);
        let k = kept_from(board, r);
        let k1 = kept_from(board, r + 1);
        assert forall|j: int, c: int| 0 <= j < k.len() && 0 <= c < 10 implies #[trigger] k[j][c] <= 7 by {
            if !row_complete_spec(row_of(board, r)) && j == 0 {
                assert(k[0] == row_of(board, r));
                assert(row_of(board, r)[c] == board[r * 10 + c]);
            } else if !row_complete_spec(row_of(board, r)) {
                assert(k[j] == k1[j - 1]);
            } else {
                assert(k[j] == k1[j]);
            }
        }
    }
}

/// A frame of play keeps the game sound: every board value stays a piece
/// colour (1 to 7) or empty, a piece still in play overlaps nothing, the
/// cleared lines and the score never go down, and a piece with room below
/// falls one row with the board unchanged. The line count is taken far
/// enough from its limit that adding a frame's rows does not wrap it.
pub proof fn law_tetris_tick(s: TetrisState, next: Tetromino)
    requires
        s.mode == TetrisMode::Playing,
        s.board.len() == TETRIS_CELLS,
        forall|k: int| 0 <= k < s.board.len() ==> #[trigger] s.board[k] <= 7,
        !collides(s.board, s.active),
        s.lines <= u32::MAX - 20,
    ensures
        spec_tick(s, next).board.len() == TETRIS_CELLS,
        forall|k: int| 0 <= k < TETRIS_CELLS ==> #[trigger] spec_tick(s, next).board[k] <= 7,
        spec_tick(s, next).mode == TetrisMode::Playing ==> !collides(spec_tick(s, next).board, spec_tick(s, next).active),
        spec_tick(s, next).lines >= s.lines,
        spec_tick(s, next).score >= s.score,
        spec_offset(s, 0, 1).1 ==> spec_tick(s, next) == (TetrisState {
            active: TetrisPiece { y: (s.active.y + 1) as i8, ..s.active },
            ..s
        }),
{
    let (t, moved) = spec_offset(s, 0, 1);
    if !moved {
        let cells = piece_cells(s.active);
        assert forall|j: int| 0 <= j < 4 && #[trigger] cells[j].1 >= 0 implies 0 <= cells[j].0 < 10 && cells[j].1 < 20 by {
            assert(!blocked(s.board, cells[j]));
        }
        lemma_lock_from_cells(s.board, cells, spec_cell_value(s.active.kind), 0);
        let locked = spec_lock_active(s);
        lemma_kept_len(locked.board, 0);
        lemma_kept_cells(locked.board, 0);
        let kept = kept_from(locked.board, 0);
        let gap = 20 - kept.len();
        let cb = cleared_board(locked.board);
        assert forall|k: int| 0 <= k < TETRIS_CELLS implies #[trigger] cb[k] <= 7 by {
            if k / 10 >= gap {
                assert(0 <= k / 10 - gap < kept.len());
                assert(kept[k / 10 - gap][k % 10] <= 7);
            }
        }
        assert(spec_tick(s, next).board == cb);
    }
}


/// The cells that the blocks of `s` cover once moved by `dx` columns and
/// `dy` rows.
pub open spec fn covered_cells(s: Seq<TetrisBlock>, dx: int, dy: int) -> Set<(int, int)> {
    Set::new(|p: (int, int)| exists|t: int| 0 <= t < s.len() && p == (s[t].x + dx, s[t].y + dy))
}

/// Block `b`, moved by `dx` and `dy`, lands on one of the four blocks of `s`.
pub open spec fn lands_among_four(b: TetrisBlock, dx: int, dy: int, s: Seq<TetrisBlock>) -> bool {
    (s[0].x == b.x + dx && s[0].y == b.y + dy) || (s[1].x == b.x + dx && s[1].y == b.y + dy)
        || (s[2].x == b.x + dx && s[2].y == b.y + dy) || (s[3].x == b.x + dx && s[3].y == b.y + dy)
}

/// Some block of `s1`, moved by `dx` and `dy`, misses every block of `s2`.
pub open spec fn some_block_misses(s1: Seq<TetrisBlock>, s2: Seq<TetrisBlock>, dx: int, dy: int) -> bool {
    !lands_among_four(s1[0], dx, dy, s2) || !lands_among_four(s1[1], dx, dy, s2)
        || !lands_among_four(s1[2], dx, dy, s2) || !lands_among_four(s1[3], dx, dy, s2)
}

/// For each of the four moves that bring the first block of `s1` onto a
/// block of `s2`, some block of `s1` misses `s2`.
pub open spec fn no_move_fits(s1: Seq<TetrisBlock>, s2: Seq<TetrisBlock>) -> bool {
    some_block_misses(s1, s2, s2[0].x - s1[0].x, s2[0].y - s1[0].y)
        && some_block_misses(s1, s2, s2[1].x - s1[0].x, s2[1].y - s1[0].y)
        && some_block_misses(s1, s2, s2[2].x - s1[0].x, s2[2].y - s1[0].y)
        && some_block_misses(s1, s2, s2[3].x - s1[0].x, s2[3].y - s1[0].y)
}

proof fn lemma_no_move_fits_any(s1: Seq<TetrisBlock>, s2: Seq<TetrisBlock>, dx: int, dy: int)
    requires
        no_move_fits(s1, s2),
    ensures
        some_block_misses(s1, s2, dx, dy),
{
}

#[verifier::rlimit(100)]
#[verifier::spinoff_prover]
proof fn lemma_i_never_fits(k2: Tetromino, r1: u8, r2: u8)
    requires
        k2 != Tetromino::I,
    ensures
        no_move_fits(spec_tetromino_cells(Tetromino::I, r1), spec_tetromino_cells(k2, r2)),
{
}

#[verifier::rlimit(100)]
#[verifier::spinoff_prover]
proof fn lemma_o_never_fits(k2: Tetromino, r1: u8, r2: u8)
    requires
        k2 != Tetromino::O,
    ensures
        no_move_fits(spec_tetromino_cells(Tetromino::O, r1), spec_tetromino_cells(k2, r2)),
{
}

#[verifier::rlimit(100)]
#[verifier::spinoff_prover]
proof fn lemma_t_never_fits(k2: Tetromino, r1: u8, r2: u8)
    requires
        k2 != Tetromino::T,
    ensures
        no_move_fits(spec_tetromino_cells(Tetromino::T, r1), spec_tetromino_cells(k2, r2)),
{
}

#[verifier::rlimit(100)]
#[verifier::spinoff_prover]
proof fn lemma_s_never_fits(k2: Tetromino, r1: u8, r2: u8)
    requires
        k2 != Tetromino::S,
    ensures
        no_move_fits(spec_tetromino_cells(Tetromino::S, r1), spec_tetromino_cells(k2, r2)),
{
}

#[verifier::rlimit(100)]
#[verifier::spinoff_prover]
proof fn lemma_z_never_fits(k2: Tetromino, r1: u8, r2: u8)
    requires
        k2 != Tetromino::Z,
    ensures
        no_move_fits(spec_tetromino_cells(Tetromino::Z, r1), spec_tetromino_cells(k2, r2)),
{
}

#[verifier::rlimit(100)]
#[verifier::spinoff_prover]
proof fn lemma_j_never_fits(k2: Tetromino, r1: u8, r2: u8)
    requires
        k2 != Tetromino::J,
    ensures
        no_move_fits(spec_tetromino_cells(Tetromino::J, r1), spec_tetromino_cells(k2, r2)),
{
}

#[verifier::rlimit(100)]
#[verifier::spinoff_prover]
proof fn lemma_l_never_fits(k2: Tetromino, r1: u8, r2: u8)
    requires
        k2 != Tetromino::L,
    ensures
        no_move_fits(spec_tetromino_cells(Tetromino::L, r1), spec_tetromino_cells(k2, r2)),
{
}

proof fn lemma_kinds_never_fit(k1: Tetromino, k2: Tetromino, r1: u8, r2: u8)
    requires
        k1 != k2,
    ensures
        no_move_fits(spec_tetromino_cells(k1, r1), spec_tetromino_cells(k2, r2)),
{
    match k1 {
        Tetromino::I => lemma_i_never_fits(k2, r1, r2),
        Tetromino::O => lemma_o_never_fits(k2, r1, r2),
        Tetromino::T => lemma_t_never_fits(k2, r1, r2),
        Tetromino::S => lemma_s_never_fits(k2, r1, r2),
        Tetromino::Z => lemma_z_never_fits(k2, r1, r2),
        Tetromino::J => lemma_j_never_fits(k2, r1, r2),
        Tetromino::L => lemma_l_never_fits(k2, r1, r2),
    }
}

/// The seven tetrominoes have pairwise different shapes: however a turn of
/// one kind is moved across the board, it never covers the same cells as a
/// turn of another kind (so J is the mirror of L and never the same piece,
/// and likewise S of Z).
pub proof fn law_tetromino_shapes_distinct(k1: Tetromino, k2: Tetromino, r1: u8, r2: u8, dx: int, dy: int)
    requires
        k1 != k2,
    ensures
        covered_cells(spec_tetromino_cells(k1, r1), dx, dy) != covered_cells(spec_tetromino_cells(k2, r2), 0, 0),
{
    let s1 = spec_tetromino_cells(k1, r1);
    let s2 = spec_tetromino_cells(k2, r2);
    lemma_kinds_never_fit(k1, k2, r1, r2);
    lemma_no_move_fits_any(s1, s2, dx, dy);
    if covered_cells(s1, dx, dy) == covered_cells(s2, 0, 0) {
        assert(s1.len() == 4 && s2.len() == 4);
        assert forall|t: int| 0 <= t < 4 implies lands_among_four(#[trigger] s1[t], dx, dy, s2) by {
            let p = (s1[t].x + dx, s1[t].y + dy);
            assert(covered_cells(s1, dx, dy).contains(p));
            assert(covered_cells(s2, 0, 0).contains(p));
            let u = choose|u: int| 0 <= u < s2.len() && p == (s2[u].x + 0, s2[u].y + 0);
        }
        assert(lands_among_four(s1[0], dx, dy, s2) && lands_among_four(s1[1], dx, dy, s2));
        assert(lands_among_four(s1[2], dx, dy, s2) && lands_among_four(s1[3], dx, dy, s2));
    }
}

/// The cells that the blocks of `s` cover once each is turned a quarter
/// clockwise about the origin (rows grow downwards, so `(x, y)` goes to
/// `(-y, x)`) and then moved by `dx` columns and `dy` rows.
pub open spec fn turned_cells(s: Seq<TetrisBlock>, dx: int, dy: int) -> Set<(int, int)> {
    Set::new(|p: (int, int)| exists|t: int| 0 <= t < s.len() && p == (-s[t].y + dx, s[t].x + dy))
}

/// Block `b`, turned a quarter clockwise and moved, lands on a block of `s`.
pub open spec fn turn_lands(b: TetrisBlock, dx: int, dy: int, s: Seq<TetrisBlock>) -> bool {
    lands_among_four(TetrisBlock { x: 0, y: 0 }, -b.y + dx, b.x + dy, s)
}

/// Block `c` is one of the four blocks of `s`, turned and moved.
pub open spec fn from_turned(c: TetrisBlock, dx: int, dy: int, s: Seq<TetrisBlock>) -> bool {
    (c.x == -s[0].y + dx && c.y == s[0].x + dy) || (c.x == -s[1].y + dx && c.y == s[1].x + dy)
        || (c.x == -s[2].y + dx && c.y == s[2].x + dy) || (c.x == -s[3].y + dx && c.y == s[3].x + dy)
}

/// The four blocks of `s1`, turned and moved, are exactly those of `s2`.
pub open spec fn turns_onto(s1: Seq<TetrisBlock>, s2: Seq<TetrisBlock>, dx: int, dy: int) -> bool {
    &&& turn_lands(s1[0], dx, dy, s2) && turn_lands(s1[1], dx, dy, s2)
    &&& turn_lands(s1[2], dx, dy, s2) && turn_lands(s1[3], dx, dy, s2)
    &&& from_turned(s2[0], dx, dy, s1) && from_turned(s2[1], dx, dy, s1)
    &&& from_turned(s2[2], dx, dy, s1) && from_turned(s2[3], dx, dy, s1)
}

/// The least of four integers.
pub open spec fn min_of_four(a: int, b: int, c: int, d: int) -> int {
    let ab = if a <= b { a } else { b };
    let cd = if c <= d { c } else { d };
    if ab <= cd { ab } else { cd }
}

/// The move that brings the least column and row of `s1`, turned, onto
/// those of `s2`.
pub open spec fn turn_offset(s1: Seq<TetrisBlock>, s2: Seq<TetrisBlock>) -> (int, int) {
    (min_of_four(s2[0].x as int, s2[1].x as int, s2[2].x as int, s2[3].x as int)
        - min_of_four(-s1[0].y, -s1[1].y, -s1[2].y, -s1[3].y),
     min_of_four(s2[0].y as int, s2[1].y as int, s2[2].y as int, s2[3].y as int)
        - min_of_four(s1[0].x as int, s1[1].x as int, s1[2].x as int, s1[3].x as int))
}

#[verifier::rlimit(100)]
#[verifier::spinoff_prover]
proof fn lemma_i_turns(r: u8)
    ensures
        ({
            let s1 = spec_tetromino_cells(Tetromino::I, r);
            let s2 = spec_tetromino_cells(Tetromino::I, ((r + 1) % 4) as u8);
            turns_onto(s1, s2, turn_offset(s1, s2).0, turn_offset(s1, s2).1)
        }),
{
}

#[verifier::rlimit(100)]
#[verifier::spinoff_prover]
proof fn lemma_o_turns(r: u8)
    ensures
        ({
            let s1 = spec_tetromino_cells(Tetromino::O, r);
            let s2 = spec_tetromino_cells(Tetromino::O, ((r + 1) % 4) as u8);
            turns_onto(s1, s2, turn_offset(s1, s2).0, turn_offset(s1, s2).1)
        }),
{
}

#[verifier::rlimit(100)]
#[verifier::spinoff_prover]
proof fn lemma_t_turns(r: u8)
    ensures
        ({
            let s1 = spec_tetromino_cells(Tetromino::T, r);
            let s2 = spec_tetromino_cells(Tetromino::T, ((r + 1) % 4) as u8);
            turns_onto(s1, s2, turn_offset(s1, s2).0, turn_offset(s1, s2).1)
        }),
{
}

#[verifier::rlimit(100)]
#[verifier::spinoff_prover]
proof fn lemma_s_turns(r: u8)
    ensures
        ({
            let s1 = spec_tetromino_cells(Tetromino::S, r);
            let s2 = spec_tetromino_cells(Tetromino::S, ((r + 1) % 4) as u8);
            turns_onto(s1, s2, turn_offset(s1, s2).0, turn_offset(s1, s2).1)
        }),
{
}

#[verifier::rlimit(100)]
#[verifier::spinoff_prover]
proof fn lemma_z_turns(r: u8)
    ensures
        ({
            let s1 = spec_tetromino_cells(Tetromino::Z, r);
            let s2 = spec_tetromino_cells(Tetromino::Z, ((r + 1) % 4) as u8);
            turns_onto(s1, s2, turn_offset(s1, s2).0, turn_offset(s1, s2).1)
        }),
{
}

#[verifier::rlimit(100)]
#[verifier::spinoff_prover]
proof fn lemma_j_turns(r: u8)
    ensures
        ({
            let s1 = spec_tetromino_cells(Tetromino::J, r);
            let s2 = spec_tetromino_cells(Tetromino::J, ((r + 1) % 4) as u8);
            turns_onto(s1, s2, turn_offset(s1, s2).0, turn_offset(s1, s2).1)
        }),
{
}

#[verifier::rlimit(100)]
#[verifier::spinoff_prover]
proof fn lemma_l_turns(r: u8)
    ensures
        ({
            let s1 = spec_tetromino_cells(Tetromino::L, r);
            let s2 = spec_tetromino_cells(Tetromino::L, ((r + 1) % 4) as u8);
            turns_onto(s1, s2, turn_offset(s1, s2).0, turn_offset(s1, s2).1)
        }),
{
}

proof fn lemma_turned_onto_cells(s1: Seq<TetrisBlock>, s2: Seq<TetrisBlock>, dx: int, dy: int)
    requires
        s1.len() == 4,
        s2.len() == 4,
        turns_onto(s1, s2, dx, dy),
    ensures
        turned_cells(s1, dx, dy) == covered_cells(s2, 0, 0),
{
    assert(turned_cells(s1, dx, dy) =~= covered_cells(s2, 0, 0)) by {
        assert forall|p: (int, int)| turned_cells(s1, dx, dy).contains(p) implies covered_cells(s2, 0, 0).contains(p) by {
            let t = choose|t: int| 0 <= t < s1.len() && p == (-s1[t].y + dx, s1[t].x + dy);
            assert(turn_lands(s1[t], dx, dy, s2));
            if s2[0].x == p.0 && s2[0].y == p.1 {
                assert(p == (s2[0].x + 0, s2[0].y + 0));
            } else if s2[1].x == p.0 && s2[1].y == p.1 {
                assert(p == (s2[1].x + 0, s2[1].y + 0));
            } else if s2[2].x == p.0 && s2[2].y == p.1 {
                assert(p == (s2[2].x + 0, s2[2].y + 0));
            } else {
                assert(p == (s2[3].x + 0, s2[3].y + 0));
            }
        }
        assert forall|p: (int, int)| covered_cells(s2, 0, 0).contains(p) implies turned_cells(s1, dx, dy).contains(p) by {
            let u = choose|u: int| 0 <= u < s2.len() && p == (s2[u].x + 0, s2[u].y + 0);
            assert(from_turned(s2[u], dx, dy, s1));
            if p.0 == -s1[0].y + dx && p.1 == s1[0].x + dy {
                assert(p == (-s1[0].y + dx, s1[0].x + dy));
            } else if p.0 == -s1[1].y + dx && p.1 == s1[1].x + dy {
                assert(p == (-s1[1].y + dx, s1[1].x + dy));
            } else if p.0 == -s1[2].y + dx && p.1 == s1[2].x + dy {
                assert(p == (-s1[2].y + dx, s1[2].x + dy));
            } else {
                assert(p == (-s1[3].y + dx, s1[3].x + dy));
            }
        }
    }
}

/// Each rotation of a tetromino is the one before it turned a quarter
/// clockwise: the cells of rotation `r + 1` are those of rotation `r`
/// turned about a corner and moved into place.
pub proof fn law_rotation_turns_clockwise(k: Tetromino, r: u8)
    ensures
        exists|dx: int, dy: int| #[trigger] turned_cells(spec_tetromino_cells(k, r), dx, dy)
            == covered_cells(spec_tetromino_cells(k, ((r + 1) % 4) as u8), 0, 0),
{
    let s1 = spec_tetromino_cells(k, r);
    let s2 = spec_tetromino_cells(k, ((r + 1) % 4) as u8);
    match k {
        Tetromino::I => lemma_i_turns(r),
        Tetromino::O => lemma_o_turns(r),
        Tetromino::T => lemma_t_turns(r),
        Tetromino::S => lemma_s_turns(r),
        Tetromino::Z => lemma_z_turns(r),
        Tetromino::J => lemma_j_turns(r),
        Tetromino::L => lemma_l_turns(r),
    }
    let (dx, dy) = turn_offset(s1, s2);
    lemma_local_cells_small(k, r);
    lemma_local_cells_small(k, ((r + 1) % 4) as u8);
    lemma_turned_onto_cells(s1, s2, dx, dy);
    assert(turned_cells(s1, dx, dy) == covered_cells(s2, 0, 0));
}

} // verus!
