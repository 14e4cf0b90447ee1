use vstd::prelude::*;
use crate::font::{centered_cmds, centered_x, decimal_chars, draw_centered_text, draw_text, text_cmds, TextBuffer};
use crate::render::{
    appends, clear, fill_cmds, fill_rect, flush, flushed, frame_cmds, lemma_appends_chain, lemma_flushed, lemma_frame,
    lemma_frame_cmds, lemma_sent_appends, lemma_sent_chain, lemma_sent_then, sent, sent_frame, DisplaySink, DrawCommand,
    RecordingDisplay, Rect,
};
use crate::tetris::{
    level_of, piece_cells, spec_cell_value, spec_tetromino_cells, tetris_valid, tetromino_cells, TetrisGame, TetrisMode,
    TetrisPauseAction, TetrisPiece, TetrisState, Tetromino,
};
use crate::theme;
use crate::ui_widgets::{draw_option_row, option_row_cmds};

verus! {

broadcast use lemma_sent_appends, lemma_appends_chain;

// The game is drawn on a portrait screen of 240 by 320 pixels, turned a
// quarter clockwise onto the landscape panel.

/// Height of the portrait screen.
pub const PORTRAIT_H: i16 = 320;
/// Side of a cell of the well.
pub const WELL_CELL: i16 = 13;
/// Left edge of the well.
pub const WELL_X: i16 = 43;
/// Top edge of the well.
pub const WELL_Y: i16 = 38;
/// Width of the well: ten cells.
pub const WELL_W: i16 = 130;
/// Height of the well: twenty cells.
pub const WELL_H: i16 = 260;
/// Side of a cell of the next-piece preview.
pub const MINI_CELL: i16 = 8;

/// rgb(7, 10, 14).
pub const WELL_BG: u16 = 0x4100;
/// rgb(62, 72, 86).
pub const WELL_BORDER: u16 = 0x4a3a;
/// rgb(58, 211, 230).
pub const I_COLOR: u16 = 0x9c3e;
/// rgb(248, 219, 75).
pub const O_COLOR: u16 = 0xc9fe;
/// rgb(166, 103, 230).
pub const T_COLOR: u16 = 0x3ca3;
/// rgb(65, 195, 96).
pub const S_COLOR: u16 = 0x0c46;
/// rgb(231, 76, 83).
pub const Z_COLOR: u16 = 0x6ae2;
/// rgb(76, 129, 232).
pub const J_COLOR: u16 = 0x1d4c;
/// rgb(241, 151, 61).
pub const L_COLOR: u16 = 0xa7f4;

/// A portrait rectangle turned a quarter clockwise onto the panel.
pub open spec fn rotate_rect(r: Rect) -> Rect {
    Rect { x: (320 - r.y - r.h) as i16, y: r.x, w: r.h, h: r.w }
}

/// What a portrait command becomes on the panel: fills are turned, a flush
/// stays a flush, and bitmaps are dropped.
pub open spec fn rotate_cmd(c: DrawCommand) -> Seq<DrawCommand> {
    match c {
        DrawCommand::Fill { rect, color } => seq![DrawCommand::Fill { rect: rotate_rect(rect), color }],
        DrawCommand::Flush => seq![DrawCommand::Flush],
        DrawCommand::Bitmap { .. } => Seq::empty(),
    }
}

/// Portrait commands turned onto the panel, in order.
pub open spec fn rotated(s: Seq<DrawCommand>) -> Seq<DrawCommand>
    decreases s.len(),
{
    if s.len() == 0 {
        Seq::empty()
    } else {
        rotated(s.drop_last()) + rotate_cmd(s.last())
    }
}

/// Turns a portrait rectangle a quarter clockwise onto the panel.
pub fn rotate_rect_clockwise(rect: Rect) -> (r: Rect)
    ensures
        r == rotate_rect(rect),
{
    #[verifier::truncate]
    let x = (320i32 - rect.y as i32 - rect.h as i32) as i16;
    Rect { x, y: rect.x, w: rect.h, h: rect.w }
}

/// Sends the commands drawn on a portrait screen to the panel, turned.
fn replay_rotated<D: DisplaySink>(display: &mut D, portrait: &RecordingDisplay)
    ensures
        sent(*old(display), *final(display), rotated(portrait.drawn())),
{
    let cmds = portrait.commands();
    let mut i: usize = 0;
    assert(cmds@.take(0) =~= Seq::<DrawCommand>::empty());
    assert(old(display).drawn() + rotated(Seq::<DrawCommand>::empty()) =~= old(display).drawn());
    while i < cmds.len()
        invariant
            i <= cmds@.len(),
            cmds@ == portrait.drawn(),
            sent(*old(display), *display, rotated(cmds@.take(i as int))),
        decreases cmds@.len() - i,
    {
        let ghost before = *display;
        let c = cmds[i];
        match c {
            DrawCommand::Fill { rect, color } => {
                display.push(DrawCommand::Fill { rect: rotate_rect_clockwise(rect), color });
            },
            DrawCommand::Flush => {
                display.push(DrawCommand::Flush);
            },
            DrawCommand::Bitmap { .. } => {},
        }
        proof {
            let next = cmds@.take(i + 1);
            assert(next.drop_last() =~= cmds@.take(i as int));
            assert(next.last() == c);
            if old(display).records() {
                assert(display.drawn() =~= old(display).drawn() + rotated(next));
            }
        }
        i += 1;
    }
    assert(cmds@.take(cmds@.len() as int) =~= cmds@);
}

/// The start screen, drawn on the portrait screen.
pub open spec fn choosing_portrait_cmds() -> Seq<DrawCommand> {
    centered_cmds(0, 38, 240, "TETRIS"@, theme::TEXT, 3) + centered_cmds(0, 88, 240, "10X20 PORTRAIT WELL"@, theme::ACCENT, 1)
        + centered_cmds(0, 140, 240, "LR MOVE  UP ROTATE"@, theme::MUTED, 1)
        + centered_cmds(0, 158, 240, "DOWN DROPS"@, theme::MUTED, 1)
        + centered_cmds(0, 220, 240, "PRESS SW TO START"@, theme::TEXT, 1)
}

/// The start screen, as one frame.
pub fn render_choosing<D: DisplaySink>(display: &mut D)
    ensures
        sent(*old(display), *final(display), frame_cmds(theme::BG, rotated(choosing_portrait_cmds()))),
        sent_frame(*old(display), *final(display), theme::BG),
{
    broadcast use lemma_sent_chain;
    let ghost d0 = *display;
    clear(display, theme::BG);
    let mut portrait = RecordingDisplay::new();
    draw_centered_text(&mut portrait, 0, 38, 240, "TETRIS", theme::TEXT, 3);
    draw_centered_text(&mut portrait, 0, 88, 240, "10X20 PORTRAIT WELL", theme::ACCENT, 1);
    draw_centered_text(&mut portrait, 0, 140, 240, "LR MOVE  UP ROTATE", theme::MUTED, 1);
    draw_centered_text(&mut portrait, 0, 158, 240, "DOWN DROPS", theme::MUTED, 1);
    draw_centered_text(&mut portrait, 0, 220, 240, "PRESS SW TO START", theme::TEXT, 1);
    assert(portrait.drawn() =~= choosing_portrait_cmds());
    replay_rotated(display, &portrait);
    flush(display);
    proof { lemma_frame_cmds(d0, *display, theme::BG, rotated(choosing_portrait_cmds())); }
}

/// The HUD and the well, with the game-over panel once the round ended,
/// drawn on the portrait screen.
pub open spec fn board_portrait_cmds(g: TetrisState) -> Seq<DrawCommand> {
    hud_cmds(g) + well_cmds(g) + if g.mode == TetrisMode::GameOver { game_over_overlay_cmds(g) } else { Seq::empty() }
}

/// The HUD and the well, with the game-over panel when the round has
/// ended, as one frame.
pub fn render<D: DisplaySink>(display: &mut D, game: &TetrisGame)
    requires
        tetris_valid(game@),
    ensures
        sent(*old(display), *final(display), frame_cmds(theme::BG, rotated(board_portrait_cmds(game@)))),
        sent_frame(*old(display), *final(display), theme::BG),
{
    broadcast use lemma_sent_chain;
    let ghost d0 = *display;
    clear(display, theme::BG);
    let mut portrait = RecordingDisplay::new();
    render_hud(&mut portrait, game);
    render_well(&mut portrait, game);
    if game.mode() == TetrisMode::GameOver {
        render_game_over_overlay(&mut portrait, game);
    }
    assert(portrait.drawn() =~= board_portrait_cmds(game@));
    replay_rotated(display, &portrait);
    flush(display);
    proof { lemma_frame_cmds(d0, *display, theme::BG, rotated(board_portrait_cmds(game@))); }
}

/// The well cells among the first `cols` of row `row` whose shown value
/// changed since the earlier board and piece, drawn as now shown.
pub open spec fn changed_row_cmds(g: TetrisState, board: Seq<u8>, active: TetrisPiece, row: int, cols: int) -> Seq<DrawCommand>
    decreases cols,
{
    if cols <= 0 {
        Seq::empty()
    } else {
        let c = cols - 1;
        let now = shown_value(g.board, g.active, row, c);
        changed_row_cmds(g, board, active, row, c) + if shown_value(board, active, row, c) != now {
            position_cmds(row, c, now)
        } else {
            Seq::empty()
        }
    }
}

/// The changed cells of the first `rows` rows, top to bottom.
pub open spec fn changed_rows_cmds(g: TetrisState, board: Seq<u8>, active: TetrisPiece, rows: int) -> Seq<DrawCommand>
    decreases rows,
{
    if rows <= 0 { Seq::empty() } else { changed_rows_cmds(g, board, active, rows - 1) + changed_row_cmds(g, board, active, rows - 1, 10) }
}

/// Redraws what changed since the given earlier state: each HUD part whose
/// value changed, and each cell whose shown value changed. Ends with a
/// flush.
#[verifier::spinoff_prover]
pub fn render_play_delta<D: DisplaySink>(
    display: &mut D,
    game: &TetrisGame,
    previous_board: &[u8; 200],
    previous_active: TetrisPiece,
    previous_score: u32,
    previous_lines: u32,
    previous_next: Tetromino,
)
    requires
        tetris_valid(game@),
    ensures
        sent(*old(display), *final(display), rotated(
            hud_delta_cmds(game@, previous_score, previous_lines, previous_next)
                + changed_rows_cmds(game@, previous_board@, previous_active, 20),
        ) + seq![DrawCommand::Flush]),
        flushed(*old(display), *final(display)),
{
    let ghost d0 = *display;
    let mut portrait = RecordingDisplay::new();
    render_hud_delta(&mut portrait, game, previous_score, previous_lines, previous_next);
    let ghost head = hud_delta_cmds(game@, previous_score, previous_lines, previous_next);
    assert(portrait.drawn() =~= head + changed_rows_cmds(game@, previous_board@, previous_active, 0));
    let mut row: usize = 0;
    while row < 20
        invariant
            row <= 20, tetris_valid(game@),
            portrait.records(),
            head == hud_delta_cmds(game@, previous_score, previous_lines, previous_next),
            portrait.drawn() == head + changed_rows_cmds(game@, previous_board@, previous_active, row as int),
        decreases 20 - row,
    {
        let ghost done = head + changed_rows_cmds(game@, previous_board@, previous_active, row as int);
        assert(portrait.drawn() =~= done + changed_row_cmds(game@, previous_board@, previous_active, row as int, 0));
        let mut col: usize = 0;
        while col < 10
            invariant
                col <= 10, row < 20, tetris_valid(game@),
                portrait.records(),
                done == head + changed_rows_cmds(game@, previous_board@, previous_active, row as int),
                portrait.drawn() == done + changed_row_cmds(game@, previous_board@, previous_active, row as int, col as int),
            decreases 10 - col,
        {
            let ghost part = changed_row_cmds(game@, previous_board@, previous_active, row as int, col as int);
            let before = occupied_cell(previous_board, previous_active, row, col);
            let after = game.occupied_cell(row, col);
            proof { lemma_shown_matches(game@, row as int, col as int); }
            if before != after {
                draw_board_position(&mut portrait, row, col, after);
                assert(portrait.drawn() =~= done + (part + position_cmds(row as int, col as int, after)));
            } else {
                assert(portrait.drawn() =~= done + (part + Seq::<DrawCommand>::empty()));
            }
            col += 1;
        }
        assert(portrait.drawn() =~= head + changed_rows_cmds(game@, previous_board@, previous_active, row as int + 1));
        row += 1;
    }
    replay_rotated(display, &portrait);
    let ghost dm = *display;
    flush(display);
    proof {
        lemma_sent_then(d0, dm, *display, rotated(portrait.drawn()), seq![DrawCommand::Flush]);
        lemma_flushed(d0, dm, *display);
    }
}

/// The HUD and the well under the pause panel, drawn on the portrait
/// screen.
pub open spec fn pause_portrait_cmds(g: TetrisState) -> Seq<DrawCommand> {
    hud_cmds(g) + well_cmds(g) + fill_cmds(28, 104, 184, 92, theme::OVERLAY)
        + centered_cmds(28, 114, 184, "PAUSED"@, theme::TEXT, 2)
        + option_row_cmds(50, 142, 140, "DO"@, "CONTINUE"@, g.pause_action == TetrisPauseAction::Continue)
        + option_row_cmds(50, 172, 140, "DO"@, "EXIT"@, g.pause_action == TetrisPauseAction::Exit)
}

/// The HUD and the well under the pause menu, as one frame.
pub fn render_pause_menu<D: DisplaySink>(display: &mut D, game: &TetrisGame)
    requires
        tetris_valid(game@),
    ensures
        sent(*old(display), *final(display), frame_cmds(theme::BG, rotated(pause_portrait_cmds(game@)))),
        sent_frame(*old(display), *final(display), theme::BG),
{
    broadcast use lemma_sent_chain;
    let ghost d0 = *display;
    clear(display, theme::BG);
    let mut portrait = RecordingDisplay::new();
    render_hud(&mut portrait, game);
    render_well(&mut portrait, game);
    fill_rect(&mut portrait, 28, 104, 184, 92, theme::OVERLAY);
    draw_centered_text(&mut portrait, 28, 114, 184, "PAUSED", theme::TEXT, 2);
    draw_option_row(&mut portrait, 50, 142, 140, "DO", "CONTINUE", game.pause_action() == TetrisPauseAction::Continue);
    draw_option_row(&mut portrait, 50, 172, 140, "DO", "EXIT", game.pause_action() == TetrisPauseAction::Exit);
    assert(portrait.drawn() =~= pause_portrait_cmds(game@));
    replay_rotated(display, &portrait);
    flush(display);
    proof { lemma_frame_cmds(d0, *display, theme::BG, rotated(pause_portrait_cmds(game@))); }
}

/// The top-left pixel of well cell `row, col` on the portrait screen.
pub open spec fn well_xy(row: int, col: int) -> (i16, i16) {
    ((43 + col * 13) as i16, (38 + row * 13) as i16)
}

/// What `draw_board_position` sends for a cell showing `value`: an empty
/// cell with grid lines on its left and top, or a block in its piece's
/// colour with a highlight.
pub open spec fn position_cmds(row: int, col: int, value: u8) -> Seq<DrawCommand> {
    let (x, y) = well_xy(row, col);
    if value == 0 {
        fill_cmds(x, y, WELL_CELL, WELL_CELL, WELL_BG) + fill_cmds(x, y, 1, WELL_CELL, theme::GRID)
            + fill_cmds(x, y, WELL_CELL, 1, theme::GRID)
    } else {
        fill_cmds(x, y, WELL_CELL, WELL_CELL, theme::GRID)
            + fill_cmds((x + 1) as i16, (y + 1) as i16, 11, 11, spec_piece_color(value))
            + fill_cmds((x + 2) as i16, (y + 2) as i16, 9, 1, theme::TEXT)
    }
}

/// What a cell shows: the active piece's value where one of its blocks
/// lies (block positions kept to 8 bits), else the board's.
pub open spec fn shown_value(board: Seq<u8>, active: TetrisPiece, row: int, col: int) -> u8 {
    let cells = spec_tetromino_cells(active.kind, active.rotation);
    if exists|i: int| 0 <= i < 4 && ((active.x + #[trigger] cells[i].x) as i8) as int == col
        && ((active.y + cells[i].y) as i8) as int == row {
        spec_cell_value(active.kind)
    } else {
        board[row * 10 + col]
    }
}

/// The first `cols` cells of well row `row` as `g` shows them.
pub open spec fn well_row_cmds(g: TetrisState, row: int, cols: int) -> Seq<DrawCommand>
    decreases cols,
{
    if cols <= 0 {
        Seq::empty()
    } else {
        well_row_cmds(g, row, cols - 1) + position_cmds(row, cols - 1, shown_value(g.board, g.active, row, cols - 1))
    }
}

/// The first `rows` well rows, top to bottom.
pub open spec fn well_rows_cmds(g: TetrisState, rows: int) -> Seq<DrawCommand>
    decreases rows,
{
    if rows <= 0 { Seq::empty() } else { well_rows_cmds(g, rows - 1) + well_row_cmds(g, rows - 1, 10) }
}

/// What `render_well` sends: the border, the background, and every cell.
pub open spec fn well_cmds(g: TetrisState) -> Seq<DrawCommand> {
    fill_cmds(41, 36, 134, 264, WELL_BORDER) + fill_cmds(WELL_X, WELL_Y, WELL_W, WELL_H, WELL_BG) + well_rows_cmds(g, 20)
}

/// The score line.
pub open spec fn score_cmds(score: u32) -> Seq<DrawCommand> {
    text_cmds(8, 25, "S:"@ + decimal_chars(score as nat), theme::TEXT, 1)
}

/// The cleared lines and the level.
pub open spec fn lines_cmds(lines: u32) -> Seq<DrawCommand> {
    text_cmds(86, 10, "L:"@ + decimal_chars(lines as nat), theme::ACCENT, 1)
        + text_cmds(86, 24, "LV:"@ + decimal_chars(level_of(lines) as nat), theme::MUTED, 1)
}

/// Block `i` of a next-piece preview at `x, y`.
pub open spec fn mini_block_cmds(kind: Tetromino, x: int, y: int, i: int) -> Seq<DrawCommand> {
    let b = spec_tetromino_cells(kind, 0)[i];
    fill_cmds((x + b.x * MINI_CELL) as i16, (y + b.y * MINI_CELL) as i16, 7, 7,
        spec_piece_color(spec_cell_value(kind)))
}

/// What `draw_next_piece` sends: the preview box and the piece's four
/// blocks in its first rotation.
pub open spec fn next_piece_cmds(kind: Tetromino, x: int, y: int) -> Seq<DrawCommand> {
    fill_cmds((x - 4) as i16, (y - 4) as i16, 50, 42, theme::HUD) + mini_block_cmds(kind, x, y, 0)
        + mini_block_cmds(kind, x, y, 1) + mini_block_cmds(kind, x, y, 2) + mini_block_cmds(kind, x, y, 3)
}

/// The "next" label and preview.
pub open spec fn next_cmds(kind: Tetromino) -> Seq<DrawCommand> {
    text_cmds(184, 10, "NEXT"@, theme::MUTED, 1) + next_piece_cmds(kind, 186, 42)
}

/// What `render_hud` sends: the title, score, lines and level, and the
/// next piece.
pub open spec fn hud_cmds(g: TetrisState) -> Seq<DrawCommand> {
    text_cmds(8, 8, "TETRIS"@, theme::TEXT, 2) + score_cmds(g.score) + lines_cmds(g.lines) + next_cmds(g.next)
}

fn render_hud<D: DisplaySink>(display: &mut D, game: &TetrisGame)
    ensures
        sent(*old(display), *final(display), hud_cmds(game@)),
{
    broadcast use lemma_sent_chain;
    draw_text(display, 8, 8, "TETRIS", theme::TEXT, 2);
    draw_score(display, game.score());
    draw_lines(display, game.lines());
    draw_next(display, game.next());
}

/// What `render_hud_delta` sends: each changed HUD part, redrawn on its
/// cleared place.
pub open spec fn hud_delta_cmds(g: TetrisState, previous_score: u32, previous_lines: u32, previous_next: Tetromino) -> Seq<DrawCommand> {
    (if g.score != previous_score { fill_cmds(8, 25, 68, 10, theme::BG) + score_cmds(g.score) } else { Seq::empty() })
        + (if g.lines != previous_lines { fill_cmds(86, 8, 74, 24, theme::BG) + lines_cmds(g.lines) } else { Seq::empty() })
        + (if g.next != previous_next { fill_cmds(180, 39, 56, 43, theme::BG) + next_cmds(g.next) } else { Seq::empty() })
}

fn render_hud_delta<D: DisplaySink>(
    display: &mut D,
    game: &TetrisGame,
    previous_score: u32,
    previous_lines: u32,
    previous_next: Tetromino,
)
    ensures
        sent(*old(display), *final(display), hud_delta_cmds(game@, previous_score, previous_lines, previous_next)),
{
    let ghost d0 = *display;
    if game.score() != previous_score {
        fill_rect(display, 8, 25, 68, 10, theme::BG);
        draw_score(display, game.score());
    }
    if game.lines() != previous_lines {
        fill_rect(display, 86, 8, 74, 24, theme::BG);
        draw_lines(display, game.lines());
    }
    if game.next() != previous_next {
        fill_rect(display, 180, 39, 56, 43, theme::BG);
        draw_next(display, game.next());
    }
    proof {
        if d0.records() {
            assert(display.drawn() =~= d0.drawn() + hud_delta_cmds(game@, previous_score, previous_lines, previous_next));
        }
    }
}

fn draw_score<D: DisplaySink>(display: &mut D, score: u32)
    ensures
        sent(*old(display), *final(display), score_cmds(score)),
{
    proof { reveal_strlit("S:"); }
    let buf = TextBuffer::<24>::labelled("S:", score);
    draw_text(display, 8, 25, buf.as_str(), theme::TEXT, 1);
}

fn draw_lines<D: DisplaySink>(display: &mut D, lines: u32)
    ensures
        sent(*old(display), *final(display), lines_cmds(lines)),
{
    broadcast use lemma_sent_chain;
    proof {
        reveal_strlit("L:");
        reveal_strlit("LV:");
    }
    let line_buf = TextBuffer::<24>::labelled("L:", lines);
    draw_text(display, 86, 10, line_buf.as_str(), theme::ACCENT, 1);
    let level_buf = TextBuffer::<24>::labelled("LV:", lines / 10);
    draw_text(display, 86, 24, level_buf.as_str(), theme::MUTED, 1);
}

fn draw_next<D: DisplaySink>(display: &mut D, kind: Tetromino)
    ensures
        sent(*old(display), *final(display), next_cmds(kind)),
{
    broadcast use lemma_sent_chain;
    draw_text(display, 184, 10, "NEXT", theme::MUTED, 1);
    draw_next_piece(display, kind, 186, 42);
}

#[verifier::spinoff_prover]
fn render_well<D: DisplaySink>(display: &mut D, game: &TetrisGame)
    requires
        tetris_valid(game@),
    ensures
        sent(*old(display), *final(display), well_cmds(game@)),
{
    let ghost d0 = *display;
    fill_rect(display, WELL_X - 2, WELL_Y - 2, WELL_W + 4, WELL_H + 4, WELL_BORDER);
    fill_rect(display, WELL_X, WELL_Y, WELL_W, WELL_H, WELL_BG);
    let ghost frame = fill_cmds(41, 36, 134, 264, WELL_BORDER) + fill_cmds(WELL_X, WELL_Y, WELL_W, WELL_H, WELL_BG);
    proof {
        if d0.records() {
            assert(display.drawn() =~= d0.drawn() + (frame + well_rows_cmds(game@, 0)));
        }
    }
    let mut row: usize = 0;
    while row < 20
        invariant
            row <= 20, tetris_valid(game@),
            frame == fill_cmds(41, 36, 134, 264, WELL_BORDER) + fill_cmds(WELL_X, WELL_Y, WELL_W, WELL_H, WELL_BG),
            sent(d0, *display, frame + well_rows_cmds(game@, row as int)),
        decreases 20 - row,
    {
        let ghost done = frame + well_rows_cmds(game@, row as int);
        proof {
            assert(done + well_row_cmds(game@, row as int, 0) =~= done);
        }
        let mut col: usize = 0;
        while col < 10
            invariant
                col <= 10, row < 20, tetris_valid(game@),
                done == frame + well_rows_cmds(game@, row as int),
                sent(d0, *display, done + well_row_cmds(game@, row as int, col as int)),
            decreases 10 - col,
        {
            let ghost before = *display;
            let ghost part = well_row_cmds(game@, row as int, col as int);
            let value = game.occupied_cell(row, col);
            proof { lemma_shown_matches(game@, row as int, col as int); }
            draw_board_position(display, row, col, value);
            proof {
                let cmd = position_cmds(row as int, col as int, value);
                lemma_sent_then(d0, before, *display, done + part, cmd);
                assert((done + part) + cmd =~= done + (part + cmd));
            }
            col += 1;
        }
        proof {
            assert(done + well_row_cmds(game@, row as int, 10) =~= frame + well_rows_cmds(game@, row as int + 1));
        }
        row += 1;
    }
}

/// For a piece in the well, the game's own reading of a cell is what the
/// screen shows there.
proof fn lemma_shown_matches(g: TetrisState, row: int, col: int)
    requires
        tetris_valid(g),
        0 <= row < 20, 0 <= col < 10,
    ensures
        shown_value(g.board, g.active, row, col) == (if exists|i: int| 0 <= i < 4 && #[trigger] piece_cells(g.active)[i] == (col, row) {
            spec_cell_value(g.active.kind)
        } else {
            g.board[row * 10 + col]
        }),
{
    let cells = spec_tetromino_cells(g.active.kind, g.active.rotation);
    assert forall|i: int| 0 <= i < 4 implies
        ((g.active.x + #[trigger] cells[i].x) as i8) as int == piece_cells(g.active)[i].0
        && ((g.active.y + cells[i].y) as i8) as int == piece_cells(g.active)[i].1 by {
        assert(0 <= cells[i].x <= 3 && 0 <= cells[i].y <= 3);
    }
    if exists|i: int| 0 <= i < 4 && #[trigger] piece_cells(g.active)[i] == (col, row) {
        let i = choose|i: int| 0 <= i < 4 && #[trigger] piece_cells(g.active)[i] == (col, row);
        assert(((g.active.x + cells[i].x) as i8) as int == col);
    }
}

fn draw_board_position<D: DisplaySink>(display: &mut D, row: usize, col: usize, value: u8)
    requires
        row < 20, col < 10,
    ensures
        sent(*old(display), *final(display), position_cmds(row as int, col as int, value)),
{
    let ghost d0 = *display;
    let x: i16 = WELL_X + col as i16 * WELL_CELL;
    let y: i16 = WELL_Y + row as i16 * WELL_CELL;
    if value == 0 {
        fill_rect(display, x, y, WELL_CELL, WELL_CELL, WELL_BG);
        fill_rect(display, x, y, 1, WELL_CELL, theme::GRID);
        fill_rect(display, x, y, WELL_CELL, 1, theme::GRID);
    } else {
        fill_rect(display, x, y, WELL_CELL, WELL_CELL, theme::GRID);
        fill_rect(display, x + 1, y + 1, WELL_CELL - 2, WELL_CELL - 2, piece_color(value));
        fill_rect(display, x + 2, y + 2, WELL_CELL - 4, 1, theme::TEXT);
    }
    proof {
        if d0.records() {
            assert(display.drawn() =~= d0.drawn() + position_cmds(row as int, col as int, value));
        }
    }
}

fn draw_next_piece<D: DisplaySink>(display: &mut D, kind: Tetromino, x: i16, y: i16)
    requires
        -1000 <= x <= 1000, -1000 <= y <= 1000,
    ensures
        sent(*old(display), *final(display), next_piece_cmds(kind, x as int, y as int)),
{
    let ghost d0 = *display;
    fill_rect(display, x - 4, y - 4, 50, 42, theme::HUD);
    let blocks = tetromino_cells(kind, 0);
    let color = piece_color(kind.cell_value());
    let b0 = blocks[0];
    let b1 = blocks[1];
    let b2 = blocks[2];
    let b3 = blocks[3];
    proof {
        assert(0 <= b0.x <= 3 && 0 <= b0.y <= 3 && 0 <= b1.x <= 3 && 0 <= b1.y <= 3);
        assert(0 <= b2.x <= 3 && 0 <= b2.y <= 3 && 0 <= b3.x <= 3 && 0 <= b3.y <= 3);
    }
    fill_rect(display, x + b0.x as i16 * MINI_CELL, y + b0.y as i16 * MINI_CELL, MINI_CELL - 1, MINI_CELL - 1, color);
    fill_rect(display, x + b1.x as i16 * MINI_CELL, y + b1.y as i16 * MINI_CELL, MINI_CELL - 1, MINI_CELL - 1, color);
    fill_rect(display, x + b2.x as i16 * MINI_CELL, y + b2.y as i16 * MINI_CELL, MINI_CELL - 1, MINI_CELL - 1, color);
    fill_rect(display, x + b3.x as i16 * MINI_CELL, y + b3.y as i16 * MINI_CELL, MINI_CELL - 1, MINI_CELL - 1, color);
    proof {
        if d0.records() {
            assert(display.drawn() =~= d0.drawn() + next_piece_cmds(kind, x as int, y as int));
        }
    }
}

/// What `render_game_over_overlay` sends: a panel over the well with the
/// title and the final score.
pub open spec fn game_over_overlay_cmds(g: TetrisState) -> Seq<DrawCommand> {
    fill_cmds(51, 136, 114, 70, theme::OVERLAY)
        + text_cmds(centered_x(51, 114, "GAME OVER"@.len(), 1), 150, "GAME OVER"@, theme::BAD, 1)
        + text_cmds(centered_x(51, 114, ("S:"@ + decimal_chars(g.score as nat)).len(), 1), 176,
            "S:"@ + decimal_chars(g.score as nat), theme::TEXT, 1)
}

fn render_game_over_overlay<D: DisplaySink>(display: &mut D, game: &TetrisGame)
    ensures
        sent(*old(display), *final(display), game_over_overlay_cmds(game@)),
{
    broadcast use lemma_sent_chain;
    fill_rect(display, WELL_X + 8, WELL_Y + 98, WELL_W - 16, 70, theme::OVERLAY);
    draw_centered_text(display, WELL_X + 8, WELL_Y + 112, WELL_W - 16, "GAME OVER", theme::BAD, 1);
    proof { reveal_strlit("S:"); }
    let buf = TextBuffer::<24>::labelled("S:", game.score());
    draw_centered_text(display, WELL_X + 8, WELL_Y + 138, WELL_W - 16, buf.as_str(), theme::TEXT, 1);
}

/// What showed at a cell for an earlier board and active piece: the
/// piece's value where one of its blocks lies, else the board's.
fn occupied_cell(board: &[u8; 200], active: TetrisPiece, row: usize, col: usize) -> (r: u8)
    requires
        row < 20, col < 10,
    ensures
        r == shown_value(board@, active, row as int, col as int),
{
    let blocks = tetromino_cells(active.kind, active.rotation);
    let ghost cells = spec_tetromino_cells(active.kind, active.rotation);
    let mut i: usize = 0;
    while i < 4
        invariant
            i <= 4, row < 20, col < 10,
            blocks@ == cells,
            cells == spec_tetromino_cells(active.kind, active.rotation),
            forall|j: int| 0 <= j < i ==> !(((active.x + #[trigger] cells[j].x) as i8) as int == col
                && ((active.y + cells[j].y) as i8) as int == row),
        decreases 4 - i,
    {
        let block = blocks[i];
        #[verifier::truncate]
        let bx = (active.x as i16 + block.x as i16) as i8;
        #[verifier::truncate]
        let by = (active.y as i16 + block.y as i16) as i8;
        if bx as i16 == col as i16 && by as i16 == row as i16 {
            assert(((active.x + cells[i as int].x) as i8) as int == col && ((active.y + cells[i as int].y) as i8) as int == row);
            return active.kind.cell_value();
        }
        i += 1;
    }
    board[row * 10 + col]
}

/// The color of a cell value: one per piece kind, the well's background
/// otherwise.
pub open spec fn spec_piece_color(value: u8) -> u16 {
    if value == 1 {
        I_COLOR
    } else if value == 2 {
        O_COLOR
    } else if value == 3 {
        T_COLOR
    } else if value == 4 {
        S_COLOR
    } else if value == 5 {
        Z_COLOR
    } else if value == 6 {
        J_COLOR
    } else if value == 7 {
        L_COLOR
    } else {
        WELL_BG
    }
}

pub fn piece_color(value: u8) -> (r: u16)
    ensures
        r == spec_piece_color(value),
{
    match value {
        1 => I_COLOR,
        2 => O_COLOR,
        3 => T_COLOR,
        4 => S_COLOR,
        5 => Z_COLOR,
        6 => J_COLOR,
        7 => L_COLOR,
        _ => WELL_BG,
    }
}

} // verus!
