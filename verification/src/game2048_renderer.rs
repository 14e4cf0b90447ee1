use vstd::prelude::*;
use crate::font::{aa_centered_origin, aa_text_cmds, decimal_chars, draw_centered_text_aa, text_cmds, TextBuffer};
use crate::game2048::{
    Game2048, Game2048ChoosingField, Game2048GameOverAction, Game2048Mode, Game2048State, GridSize, PauseAction,
};
use crate::render::{
    appends, centered_at_cmds, centered_text_at, clear, fill_at, fill_at_cmds, flush, frame_cmds, lemma_appends_chain,
    lemma_frame, lemma_frame_cmds, lemma_sent_appends, lemma_sent_nothing, lemma_sent_then, sent, sent_frame, text_at,
    text_at_cmds, DisplaySink,
    DrawCommand,
};
use crate::theme;
use crate::ui_widgets::{draw_option_row, option_row_cmds};

verus! {

broadcast use lemma_sent_appends, lemma_appends_chain;

/// rgb(205, 193, 180).
pub const TILE_EMPTY: u16 = 0x16ce;
/// rgb(238, 228, 218).
pub const TILE_2: u16 = 0x3bef;
/// rgb(237, 224, 200).
pub const TILE_4: u16 = 0x19ef;
/// rgb(242, 177, 121).
pub const TILE_8: u16 = 0x8ff5;
/// rgb(245, 149, 99).
pub const TILE_16: u16 = 0xacf4;
/// rgb(246, 124, 95).
pub const TILE_32: u16 = 0xebf3;
/// rgb(246, 94, 59).
pub const TILE_64: u16 = 0xe7f2;
/// rgb(237, 207, 114).
pub const TILE_128: u16 = 0x6eee;
/// rgb(237, 204, 97).
pub const TILE_256: u16 = 0x6cee;
/// rgb(237, 200, 80).
pub const TILE_512: u16 = 0x4aee;
/// rgb(237, 197, 63).
pub const TILE_1024: u16 = 0x27ee;
/// rgb(237, 194, 46).
pub const TILE_2048: u16 = 0x05ee;
/// rgb(60, 58, 50).
pub const TILE_SUPER: u16 = 0xc639;
/// rgb(187, 173, 160).
pub const GRID_BG: u16 = 0x74bd;
/// rgb(119, 110, 101).
pub const DARK_TEXT: u16 = 0x6c73;
/// rgb(249, 246, 242).
pub const LIGHT_TEXT: u16 = 0xbeff;

pub open spec fn spec_tile_color(value: u16) -> u16 {
    if value == 0 {
        TILE_EMPTY
    } else if value == 2 {
        TILE_2
    } else if value == 4 {
        TILE_4
    } else if value == 8 {
        TILE_8
    } else if value == 16 {
        TILE_16
    } else if value == 32 {
        TILE_32
    } else if value == 64 {
        TILE_64
    } else if value == 128 {
        TILE_128
    } else if value == 256 {
        TILE_256
    } else if value == 512 {
        TILE_512
    } else if value == 1024 {
        TILE_1024
    } else if value == 2048 {
        TILE_2048
    } else {
        TILE_SUPER
    }
}

/// The colour of a tile: one per value up to 2048, one for all above.
pub fn tile_color(value: u16) -> (r: u16)
    ensures
        r == spec_tile_color(value),
{
    match value {
        0 => TILE_EMPTY,
        2 => TILE_2,
        4 => TILE_4,
        8 => TILE_8,
        16 => TILE_16,
        32 => TILE_32,
        64 => TILE_64,
        128 => TILE_128,
        256 => TILE_256,
        512 => TILE_512,
        1024 => TILE_1024,
        2048 => TILE_2048,
        _ => TILE_SUPER,
    }
}

/// Dark digits on the two pale tiles, light ones on the rest.
pub fn tile_text_color(value: u16) -> (r: u16)
    ensures
        r == (if value <= 4 { DARK_TEXT } else { LIGHT_TEXT }),
{
    if value <= 4 { DARK_TEXT } else { LIGHT_TEXT }
}

/// The grid's place: left, top, cell side and width, for an `n` by `n`
/// grid below the 20 pixel score bar with 4 pixel margins.
pub open spec fn spec_grid_layout(n: int) -> (int, int, int, int) {
    let cell_w = (320 - (n + 1) * 4) / n;
    let cell_h = (220 - (n + 1) * 4) / n;
    let cell = if cell_w < cell_h { cell_w } else { cell_h };
    let grid_w = n * cell + (n + 1) * 4;
    ((320 - grid_w) / 2, 20 + (220 - grid_w) / 2, cell, grid_w)
}

pub fn grid_layout(grid_size: GridSize) -> (r: (i16, i16, i16, i16))
    ensures
        (r.0 as int, r.1 as int, r.2 as int, r.3 as int) == spec_grid_layout(grid_size.spec_size() as int),
        0 < r.2 <= 100, 0 <= r.0 <= 320, 0 <= r.1 <= 240, 0 < r.3 <= 320,
{
    let n = grid_size.size();
    let r: (i16, i16, i16, i16) = if n == 3 { (50, 20, 68, 220) } else if n == 4 { (50, 20, 50, 220) } else { (50, 20, 39, 219) };
    r
}

/// The largest of 4, 3 and 2 at which `digit_count` digits fit in a cell
/// (two pixels spare), else 1.
pub open spec fn spec_aa_scale(cell: int, digit_count: int) -> i16 {
    let w = 6 * digit_count - 1;
    if digit_count == 0 {
        1
    } else if 4 * w <= cell - 2 {
        4
    } else if 3 * w <= cell - 2 {
        3
    } else if 2 * w <= cell - 2 {
        2
    } else {
        1
    }
}

pub fn choose_aa_scale(cell: i16, digit_count: usize) -> (r: i16)
    ensures
        r == spec_aa_scale(cell as int, digit_count as int),
{
    if digit_count == 0 {
        return 1;
    }
    let len: i128 = digit_count as i128;
    let w: i128 = 6 * len - 1;
    let max_w: i128 = cell as i128 - 2;
    if 4 * w <= max_w {
        4
    } else if 3 * w <= max_w {
        3
    } else if 2 * w <= max_w {
        2
    } else {
        1
    }
}

/// The top-left corner of the cell at `row, col`.
fn cell_origin(grid_size: GridSize, row: usize, col: usize) -> (r: (i32, i32, i32))
    requires
        row < 5, col < 5,
    ensures
        0 <= r.0 <= 1000, 0 <= r.1 <= 1000, 0 < r.2 <= 100,
        (r.0 as int, r.1 as int, r.2 as int) == spec_cell_origin(grid_size.spec_size() as int, row as int, col as int),
{
    let (grid_x, grid_y, cell, _) = grid_layout(grid_size);
    proof {
        assert(col * (cell + 4) <= 4 * 104 && row * (cell + 4) <= 4 * 104) by (nonlinear_arith)
            requires col < 5, row < 5, 0 < cell <= 100;
        assert(col * (cell + 4) >= 0 && row * (cell + 4) >= 0) by (nonlinear_arith)
            requires col >= 0, row >= 0, 0 < cell <= 100;
    }
    let x: i32 = grid_x as i32 + 4 + col as i32 * (cell as i32 + 4);
    let y: i32 = grid_y as i32 + 4 + row as i32 * (cell as i32 + 4);
    (x, y, cell as i32)
}

/// The top-left corner and side of the cell at `row, col` of an `n` by
/// `n` grid.
pub open spec fn spec_cell_origin(n: int, row: int, col: int) -> (int, int, int) {
    let (gx, gy, cell, gw) = spec_grid_layout(n);
    (gx + 4 + col * (cell + 4), gy + 4 + row * (cell + 4), cell)
}

/// What `draw_single_tile` sends: the cell in its tile's colour and, on a
/// tile, its value centred, smoothed when it fits at scale 2 or more.
pub open spec fn single_tile_cmds(g: Game2048State, row: int, col: int) -> Seq<DrawCommand> {
    let (x, y, cell) = spec_cell_origin(g.grid_size.spec_size() as int, row, col);
    let value = g.grid[row * 5 + col];
    let text = decimal_chars(value as nat);
    let scale = spec_aa_scale(cell, text.len() as int);
    let origin = aa_centered_origin(x as i16, y as i16, cell as i16, cell as i16, text.len(), scale);
    fill_at_cmds(x, y, cell, cell, spec_tile_color(value))
        + if value == 0 {
            Seq::empty()
        } else if scale >= 2 {
            aa_text_cmds(origin.0, origin.1, text, if value <= 4 { DARK_TEXT } else { LIGHT_TEXT }, spec_tile_color(value), scale)
        } else {
            centered_at_cmds(x, y + 1, cell, text, if value <= 4 { DARK_TEXT } else { LIGHT_TEXT }, 1)
        }
}

fn draw_single_tile<D: DisplaySink>(display: &mut D, game: &Game2048, row: usize, col: usize)
    requires
        row < game@.grid_size.spec_size(), col < game@.grid_size.spec_size(),
    ensures
        sent(*old(display), *final(display), single_tile_cmds(game@, row as int, col as int)),
{
    let ghost d0 = *display;
    let (x, y, cell) = cell_origin(game.grid_size(), row, col);
    let value = game.cell(row, col);
    fill_at(display, x, y, cell, cell, tile_color(value));
    if value != 0 {
        let text_color = tile_text_color(value);
        let bg_color = tile_color(value);
        let buf = TextBuffer::<16>::number(value as u32);
        let text = buf.as_str();
        let scale = choose_aa_scale(cell as i16, text.unicode_len());
        if scale >= 2 {
            draw_centered_text_aa(display, x as i16, y as i16, cell as i16, cell as i16, text, text_color, bg_color, scale);
        } else {
            centered_text_at(display, x, y + 1, cell, text, text_color, 1);
        }
    }
    proof {
        if d0.records() {
            assert(display.drawn() =~= d0.drawn() + single_tile_cmds(game@, row as int, col as int));
        }
    }
}

/// The empty cells of the first `cols` columns of grid row `row`.
pub open spec fn bg_row_cmds(n: int, row: int, cols: int) -> Seq<DrawCommand>
    decreases cols,
{
    if cols <= 0 {
        Seq::empty()
    } else {
        let (x, y, c) = spec_cell_origin(n, row, cols - 1);
        bg_row_cmds(n, row, cols - 1) + fill_at_cmds(x, y, c, c, TILE_EMPTY)
    }
}

/// The empty cells of the first `rows` grid rows.
pub open spec fn bg_rows_cmds(n: int, rows: int) -> Seq<DrawCommand>
    decreases rows,
{
    if rows <= 0 { Seq::empty() } else { bg_rows_cmds(n, rows - 1) + bg_row_cmds(n, rows - 1, n) }
}

/// What `render_grid_background` sends: the grid's frame, then every cell
/// empty, row by row.
pub open spec fn grid_background_cmds(n: int) -> Seq<DrawCommand> {
    let (gx, gy, cell, gw) = spec_grid_layout(n);
    let side = n * cell + (n + 1) * 4;
    fill_at_cmds(gx, gy, side, side, GRID_BG) + bg_rows_cmds(n, n)
}

/// The tiles among the first `cols` cells of row `row`.
pub open spec fn tiles_row_cmds(g: Game2048State, row: int, cols: int) -> Seq<DrawCommand>
    decreases cols,
{
    if cols <= 0 {
        Seq::empty()
    } else {
        tiles_row_cmds(g, row, cols - 1) + if g.grid[row * 5 + cols - 1] != 0 {
            single_tile_cmds(g, row, cols - 1)
        } else {
            Seq::empty()
        }
    }
}

/// The tiles of the first `rows` rows, row by row.
pub open spec fn tiles_rows_cmds(g: Game2048State, rows: int) -> Seq<DrawCommand>
    decreases rows,
{
    if rows <= 0 {
        Seq::empty()
    } else {
        tiles_rows_cmds(g, rows - 1) + tiles_row_cmds(g, rows - 1, g.grid_size.spec_size() as int)
    }
}

/// What the playing screen shows between the clear and the flush: the
/// score bar, the grid, its tiles, and the game-over panel once over.
pub open spec fn board_cmds(g: Game2048State) -> Seq<DrawCommand> {
    let n = g.grid_size.spec_size() as int;
    score_area_cmds(g) + grid_background_cmds(n) + tiles_rows_cmds(g, n)
        + if g.mode == Game2048Mode::GameOver { game_over_overlay_cmds(g) } else { Seq::empty() }
}

/// The playing screen: score bar, grid and tiles, with the game-over panel
/// when the game is over, as one frame.
pub fn render<D: DisplaySink>(display: &mut D, game: &Game2048)
    ensures
        sent(*old(display), *final(display), frame_cmds(theme::BG, board_cmds(game@))),
        sent_frame(*old(display), *final(display), theme::BG),
{
    let ghost d0 = *display;
    clear(display, theme::BG);
    render_score_area(display, game);
    render_grid_background(display, game);
    render_all_tiles(display, game);
    if game.mode() == Game2048Mode::GameOver {
        render_game_over_overlay(display, game);
    }
    flush(display);
    proof {
        if d0.records() {
            assert(display.drawn() =~= d0.drawn() + frame_cmds(theme::BG, board_cmds(game@)));
        }
        lemma_frame_cmds(d0, *display, theme::BG, board_cmds(game@));
    }
}

/// The tiles among the first `cols` cells of row `row` that differ from
/// `prev`.
pub open spec fn changed_row_cmds(g: Game2048State, prev: Seq<u16>, row: int, cols: int) -> Seq<DrawCommand>
    decreases cols,
{
    if cols <= 0 {
        Seq::empty()
    } else {
        changed_row_cmds(g, prev, row, cols - 1) + if g.grid[row * 5 + cols - 1] != prev[row * 5 + cols - 1] {
            single_tile_cmds(g, row, cols - 1)
        } else {
            Seq::empty()
        }
    }
}

/// The cells of the first `rows` rows that differ from `prev`, row by row.
pub open spec fn changed_rows_cmds(g: Game2048State, prev: Seq<u16>, rows: int) -> Seq<DrawCommand>
    decreases rows,
{
    if rows <= 0 {
        Seq::empty()
    } else {
        changed_rows_cmds(g, prev, rows - 1) + changed_row_cmds(g, prev, rows - 1, g.grid_size.spec_size() as int)
    }
}

/// What `render_move_delta` sends: the changed score labels, the changed
/// cells, and a flush.
pub open spec fn move_delta_cmds(g: Game2048State, prev: Seq<u16>, prev_score: u32, prev_best_score: u32) -> Seq<DrawCommand> {
    score_delta_cmds(g, prev_score, prev_best_score) + changed_rows_cmds(g, prev, g.grid_size.spec_size() as int)
        + seq![DrawCommand::Flush]
}

/// After a move: the changed score labels and the cells that differ from
/// `prev_grid`, then a flush.
#[verifier::spinoff_prover]
pub fn render_move_delta<D: DisplaySink>(
    display: &mut D,
    game: &Game2048,
    prev_grid: &[u16; 25],
    prev_score: u32,
    prev_best_score: u32,
)
    ensures
        sent(*old(display), *final(display), move_delta_cmds(game@, prev_grid@, prev_score, prev_best_score)),
{
    let ghost d0 = *display;
    render_score_delta(display, game, prev_score, prev_best_score);
    let ghost head = score_delta_cmds(game@, prev_score, prev_best_score);
    let n = game.grid_size().size();
    let mut row: usize = 0;
    proof {
        assert(head + changed_rows_cmds(game@, prev_grid@, 0) =~= head);
    }
    while row < n
        invariant
            row <= n, n == game@.grid_size.spec_size(), n <= 5,
            head == score_delta_cmds(game@, prev_score, prev_best_score),
            sent(d0, *display, head + changed_rows_cmds(game@, prev_grid@, row as int)),
        decreases n - row,
    {
        let ghost done = head + changed_rows_cmds(game@, prev_grid@, row as int);
        proof {
            assert(done + changed_row_cmds(game@, prev_grid@, row as int, 0) =~= done);
        }
        let mut col: usize = 0;
        while col < n
            invariant
                col <= n, row < n, n == game@.grid_size.spec_size(), n <= 5,
                head == score_delta_cmds(game@, prev_score, prev_best_score),
                done == head + changed_rows_cmds(game@, prev_grid@, row as int),
                sent(d0, *display, done + changed_row_cmds(game@, prev_grid@, row as int, col as int)),
            decreases n - col,
        {
            let ghost before = *display;
            let ghost part = changed_row_cmds(game@, prev_grid@, row as int, col as int);
            let ghost cell = if game@.grid[row * 5 + col] != prev_grid@[row * 5 + col] {
                single_tile_cmds(game@, row as int, col as int)
            } else {
                Seq::empty()
            };
            let idx = row * 5 + col;
            if game.grid()[idx] != prev_grid[idx] {
                draw_single_tile(display, game, row, col);
            } else {
                proof { lemma_sent_nothing(before); }
            }
            proof {
                lemma_sent_then(d0, before, *display, done + part, cell);
                assert((done + part) + cell =~= done + (part + cell));
            }
            col += 1;
        }
        proof {
            assert(done + changed_row_cmds(game@, prev_grid@, row as int, n as int)
                =~= head + changed_rows_cmds(game@, prev_grid@, row as int + 1));
        }
        row += 1;
    }
    let ghost before_flush = *display;
    flush(display);
    proof {
        lemma_sent_then(d0, before_flush, *display, head + changed_rows_cmds(game@, prev_grid@, n as int), seq![DrawCommand::Flush]);
    }
}

/// What the setup screen shows between the clear and the flush: the title,
/// the size row, the best score, the exit row, and the help for the row.
pub open spec fn choosing_cmds(g: Game2048State) -> Seq<DrawCommand> {
    let on_size = g.choosing_field == Game2048ChoosingField::Size;
    centered_at_cmds(0, 20, 320, "2048"@, theme::TEXT, 3)
        + option_row_cmds(42, 70, 236, "SIZE"@, g.grid_size.spec_label(), on_size)
        + centered_at_cmds(0, 102, 320, "BEST:"@ + decimal_chars(g.best_score as nat), theme::TEXT, 1)
        + option_row_cmds(42, 128, 236, ""@, "EXIT"@, g.choosing_field == Game2048ChoosingField::Exit)
        + if on_size {
            centered_at_cmds(0, 170, 320, "LR OR KNOB SIZE"@, theme::MUTED, 1)
                + centered_at_cmds(0, 188, 320, "PRESS SW TO START"@, theme::TEXT, 1)
        } else {
            centered_at_cmds(0, 170, 320, "PRESS SW TO EXIT"@, theme::TEXT, 1)
        }
}

/// The setup screen: title, size row, best score, exit row and help, as
/// one frame.
pub fn render_choosing<D: DisplaySink>(display: &mut D, game: &Game2048)
    ensures
        sent(*old(display), *final(display), frame_cmds(theme::BG, choosing_cmds(game@))),
        sent_frame(*old(display), *final(display), theme::BG),
{
    let ghost d0 = *display;
    clear(display, theme::BG);
    centered_text_at(display, 0, 20, 320, "2048", theme::TEXT, 3);
    draw_option_row(display, 42, 70, 236, "SIZE", game.grid_size().label(), game.choosing_field() == Game2048ChoosingField::Size);
    proof { reveal_strlit("BEST:"); }
    let best = TextBuffer::<16>::labelled("BEST:", game.best_score());
    centered_text_at(display, 0, 102, 320, best.as_str(), theme::TEXT, 1);
    draw_option_row(display, 42, 128, 236, "", "EXIT", game.choosing_field() == Game2048ChoosingField::Exit);
    if game.choosing_field() == Game2048ChoosingField::Size {
        centered_text_at(display, 0, 170, 320, "LR OR KNOB SIZE", theme::MUTED, 1);
        centered_text_at(display, 0, 188, 320, "PRESS SW TO START", theme::TEXT, 1);
    } else {
        centered_text_at(display, 0, 170, 320, "PRESS SW TO EXIT", theme::TEXT, 1);
    }
    flush(display);
    proof {
        if d0.records() {
            assert(display.drawn() =~= d0.drawn() + frame_cmds(theme::BG, choosing_cmds(game@)));
        }
        lemma_frame_cmds(d0, *display, theme::BG, choosing_cmds(game@));
    }
}

/// What `render_score_area` sends: the bar, the score and the best score.
pub open spec fn score_area_cmds(g: Game2048State) -> Seq<DrawCommand> {
    fill_at_cmds(0, 0, 320, 20, theme::HUD)
        + text_cmds(4, 4, "SCORE:"@ + decimal_chars(g.score as nat), theme::TEXT, 1)
        + text_cmds(180, 4, "BEST:"@ + decimal_chars(g.best_score as nat), theme::ACCENT, 1)
}

fn render_score_area<D: DisplaySink>(display: &mut D, game: &Game2048)
    ensures
        sent(*old(display), *final(display), score_area_cmds(game@)),
{
    let ghost d0 = *display;
    fill_at(display, 0, 0, 320, 20, theme::HUD);
    proof {
        reveal_strlit("SCORE:");
        reveal_strlit("BEST:");
    }
    let score = TextBuffer::<20>::labelled("SCORE:", game.score());
    text_at(display, 4, 4, score.as_str(), theme::TEXT, 1);
    let best = TextBuffer::<20>::labelled("BEST:", game.best_score());
    text_at(display, 180, 4, best.as_str(), theme::ACCENT, 1);
    proof {
        if d0.records() {
            assert(display.drawn() =~= d0.drawn() + score_area_cmds(game@));
        }
    }
}

/// What `render_score_delta` sends: each number that changed, redrawn on
/// its part of the bar.
pub open spec fn score_delta_cmds(g: Game2048State, prev_score: u32, prev_best_score: u32) -> Seq<DrawCommand> {
    (if g.score != prev_score {
        fill_at_cmds(4, 0, 166, 20, theme::HUD) + text_cmds(4, 4, "SCORE:"@ + decimal_chars(g.score as nat), theme::TEXT, 1)
    } else {
        Seq::empty()
    }) + (if g.best_score != prev_best_score {
        fill_at_cmds(180, 0, 140, 20, theme::HUD)
            + text_cmds(180, 4, "BEST:"@ + decimal_chars(g.best_score as nat), theme::ACCENT, 1)
    } else {
        Seq::empty()
    })
}

fn render_score_delta<D: DisplaySink>(display: &mut D, game: &Game2048, prev_score: u32, prev_best_score: u32)
    ensures
        sent(*old(display), *final(display), score_delta_cmds(game@, prev_score, prev_best_score)),
{
    let ghost d0 = *display;
    let cur_score = game.score();
    let cur_best = game.best_score();
    if cur_score != prev_score {
        fill_at(display, 4, 0, 166, 20, theme::HUD);
        proof { reveal_strlit("SCORE:"); }
        let score = TextBuffer::<20>::labelled("SCORE:", cur_score);
        text_at(display, 4, 4, score.as_str(), theme::TEXT, 1);
    }
    if cur_best != prev_best_score {
        fill_at(display, 180, 0, 140, 20, theme::HUD);
        proof { reveal_strlit("BEST:"); }
        let best = TextBuffer::<20>::labelled("BEST:", cur_best);
        text_at(display, 180, 4, best.as_str(), theme::ACCENT, 1);
    }
    proof {
        if d0.records() {
            assert(display.drawn() =~= d0.drawn() + score_delta_cmds(game@, prev_score, prev_best_score));
        }
    }
}

fn render_grid_background<D: DisplaySink>(display: &mut D, game: &Game2048)
    ensures
        sent(*old(display), *final(display), grid_background_cmds(game@.grid_size.spec_size() as int)),
{
    let ghost d0 = *display;
    let grid_size = game.grid_size();
    let n = grid_size.size();
    let ghost ni = n as int;
    let (grid_x, grid_y, cell, _) = grid_layout(grid_size);
    let side: i32 = n as i32 * cell as i32 + (n as i32 + 1) * 4;
    fill_at(display, grid_x as i32, grid_y as i32, side, side, GRID_BG);
    let ghost frame = fill_at_cmds(grid_x as int, grid_y as int, side as int, side as int, GRID_BG);
    let mut row: usize = 0;
    while row < n
        invariant
            row <= n, 3 <= n <= 5, ni == n, n == game@.grid_size.spec_size(),
            grid_size == game@.grid_size,
            sent(d0, *display, frame + bg_rows_cmds(ni, row as int)),
        decreases n - row,
    {
        let ghost done = frame + bg_rows_cmds(ni, row as int);
        proof {
            assert(done + bg_row_cmds(ni, row as int, 0) =~= done);
        }
        let mut col: usize = 0;
        while col < n
            invariant
                col <= n, row < n, 3 <= n <= 5, ni == n, n == game@.grid_size.spec_size(),
                grid_size == game@.grid_size,
                done == frame + bg_rows_cmds(ni, row as int),
                sent(d0, *display, done + bg_row_cmds(ni, row as int, col as int)),
            decreases n - col,
        {
            let ghost before = *display;
            let ghost part = bg_row_cmds(ni, row as int, col as int);
            let (x, y, c) = cell_origin(grid_size, row, col);
            fill_at(display, x, y, c, c, TILE_EMPTY);
            proof {
                let cmd = fill_at_cmds(x as int, y as int, c as int, c as int, TILE_EMPTY);
                lemma_sent_then(d0, before, *display, done + part, cmd);
                assert((done + part) + cmd =~= done + (part + cmd));
            }
            col += 1;
        }
        proof {
            assert(done + bg_row_cmds(ni, row as int, ni) =~= frame + bg_rows_cmds(ni, row as int + 1));
        }
        row += 1;
    }
}

#[verifier::spinoff_prover]
fn render_all_tiles<D: DisplaySink>(display: &mut D, game: &Game2048)
    ensures
        sent(*old(display), *final(display), tiles_rows_cmds(game@, game@.grid_size.spec_size() as int)),
{
    let ghost d0 = *display;
    let n = game.grid_size().size();
    proof { lemma_sent_nothing(d0); }
    let mut row: usize = 0;
    while row < n
        invariant
            row <= n, n == game@.grid_size.spec_size(), n <= 5,
            sent(d0, *display, tiles_rows_cmds(game@, row as int)),
        decreases n - row,
    {
        let ghost done = tiles_rows_cmds(game@, row as int);
        proof {
            assert(done + tiles_row_cmds(game@, row as int, 0) =~= done);
        }
        let mut col: usize = 0;
        while col < n
            invariant
                col <= n, row < n, n == game@.grid_size.spec_size(), n <= 5,
                done == tiles_rows_cmds(game@, row as int),
                sent(d0, *display, done + tiles_row_cmds(game@, row as int, col as int)),
            decreases n - col,
        {
            let ghost before = *display;
            let ghost part = tiles_row_cmds(game@, row as int, col as int);
            let ghost cell = if game@.grid[row * 5 + col] != 0 {
                single_tile_cmds(game@, row as int, col as int)
            } else {
                Seq::empty()
            };
            if game.cell(row, col) != 0 {
                draw_single_tile(display, game, row, col);
            } else {
                proof { lemma_sent_nothing(before); }
            }
            proof {
                lemma_sent_then(d0, before, *display, done + part, cell);
                assert((done + part) + cell =~= done + (part + cell));
            }
            col += 1;
        }
        row += 1;
    }
}


/// A game-over entry at row `y` of the panel at `gx` of width `gw`.
pub open spec fn over_entry_cmds(gx: int, gw: int, y: int, label: Seq<char>, selected: bool) -> Seq<DrawCommand> {
    fill_at_cmds(gx + 4, y, gw - 8, 18, if selected { theme::OVERLAY } else { theme::HUD })
        + (if selected { fill_at_cmds(gx + 8, y + 4, 4, 10, theme::ACCENT) } else { Seq::empty() })
        + text_at_cmds(gx + 16, y + 4, label, if selected { theme::TEXT } else { theme::MUTED }, 1)
}

fn draw_over_entry<D: DisplaySink>(display: &mut D, gx: i32, gw: i32, y: i32, label: &str, selected: bool)
    requires
        0 <= gx <= 1000, 0 <= gw <= 1000, 0 <= y <= 1000,
    ensures
        sent(*old(display), *final(display), over_entry_cmds(gx as int, gw as int, y as int, label@, selected)),
{
    let ghost d0 = *display;
    fill_at(display, gx + 4, y, gw - 8, 18, if selected { theme::OVERLAY } else { theme::HUD });
    if selected {
        fill_at(display, gx + 8, y + 4, 4, 10, theme::ACCENT);
    }
    text_at(display, gx + 16, y + 4, label, if selected { theme::TEXT } else { theme::MUTED }, 1);
    proof {
        if d0.records() {
            assert(display.drawn() =~= d0.drawn() + over_entry_cmds(gx as int, gw as int, y as int, label@, selected));
        }
    }
}

/// What the game-over panel sends: a shade over the grid, the title, the
/// score, and the restart and exit entries, the selected one highlighted.
pub open spec fn game_over_overlay_cmds(g: Game2048State) -> Seq<DrawCommand> {
    let n = g.grid_size.spec_size() as int;
    let (gx, gy, cell, gw) = spec_grid_layout(n);
    let gh = n * cell + (n + 1) * 4;
    let cy = gy + gh / 2;
    let restart_selected = g.game_over_action == Game2048GameOverAction::Restart;
    fill_at_cmds(gx, gy, gw, gh, theme::OVERLAY)
        + centered_at_cmds(gx, cy - 34, gw, "GAME OVER"@, theme::BAD, 2)
        + centered_at_cmds(gx, cy - 8, gw, "SCORE:"@ + decimal_chars(g.score as nat), theme::TEXT, 1)
        + over_entry_cmds(gx, gw, cy + 10, "RESTART"@, restart_selected)
        + over_entry_cmds(gx, gw, cy + 32, "EXIT"@, !restart_selected)
}

/// The game-over panel over the grid: title, score and the restart and
/// exit rows, the selected one highlighted.
fn render_game_over_overlay<D: DisplaySink>(display: &mut D, game: &Game2048)
    ensures
        sent(*old(display), *final(display), game_over_overlay_cmds(game@)),
{
    let ghost d0 = *display;
    let grid_size = game.grid_size();
    let n: i32 = grid_size.size() as i32;
    let (gx, gy, c, gw) = grid_layout(grid_size);
    let grid_x: i32 = gx as i32;
    let grid_y: i32 = gy as i32;
    let cell: i32 = c as i32;
    let grid_w: i32 = gw as i32;
    let grid_h: i32 = n * cell + (n + 1) * 4;
    fill_at(display, grid_x, grid_y, grid_w, grid_h, theme::OVERLAY);
    let cy = grid_y + grid_h / 2;
    centered_text_at(display, grid_x, cy - 34, grid_w, "GAME OVER", theme::BAD, 2);
    proof { reveal_strlit("SCORE:"); }
    let score = TextBuffer::<24>::labelled("SCORE:", game.score());
    centered_text_at(display, grid_x, cy - 8, grid_w, score.as_str(), theme::TEXT, 1);
    let restart_selected = game.game_over_action() == Game2048GameOverAction::Restart;
    let restart_y = cy + 10;
    draw_over_entry(display, grid_x, grid_w, restart_y, "RESTART", restart_selected);
    draw_over_entry(display, grid_x, grid_w, restart_y + 22, "EXIT", !restart_selected);
    proof {
        if d0.records() {
            assert(display.drawn() =~= d0.drawn() + game_over_overlay_cmds(game@));
        }
    }
}

/// A pause-menu entry at row `y`: its bar, the accent mark when selected,
/// and its label.
pub open spec fn menu_entry_cmds(y: int, label: Seq<char>, selected: bool) -> Seq<DrawCommand> {
    fill_at_cmds(42, y, 236, 30, if selected { theme::OVERLAY } else { theme::HUD })
        + (if selected { fill_at_cmds(50, y + 7, 6, 16, theme::ACCENT) } else { Seq::empty() })
        + text_cmds(66, (y + 9) as i16, label, if selected { theme::TEXT } else { theme::MUTED }, 1)
}

fn draw_menu_entry<D: DisplaySink>(display: &mut D, y: i32, label: &str, selected: bool)
    requires
        0 <= y <= 200,
    ensures
        sent(*old(display), *final(display), menu_entry_cmds(y as int, label@, selected)),
{
    let ghost d0 = *display;
    fill_at(display, 42, y, 236, 30, if selected { theme::OVERLAY } else { theme::HUD });
    if selected {
        fill_at(display, 50, y + 7, 6, 16, theme::ACCENT);
    }
    text_at(display, 66, y + 9, label, if selected { theme::TEXT } else { theme::MUTED }, 1);
    proof {
        if d0.records() {
            assert(display.drawn() =~= d0.drawn() + menu_entry_cmds(y as int, label@, selected));
        }
    }
}

/// What the pause screen shows between the clear and the flush: the score
/// bar, then the continue and exit entries, the selected one highlighted.
pub open spec fn pause_menu_cmds(g: Game2048State) -> Seq<DrawCommand> {
    let continue_selected = g.pause_action != PauseAction::Exit;
    score_area_cmds(g) + menu_entry_cmds(80, "CONTINUE"@, continue_selected) + menu_entry_cmds(114, "EXIT"@, !continue_selected)
}

/// The pause screen: score bar and the continue and exit rows, the
/// selected one highlighted, as one frame.
pub fn render_pause_menu<D: DisplaySink>(display: &mut D, game: &Game2048)
    ensures
        sent(*old(display), *final(display), frame_cmds(theme::BG, pause_menu_cmds(game@))),
        sent_frame(*old(display), *final(display), theme::BG),
{
    let ghost d0 = *display;
    clear(display, theme::BG);
    render_score_area(display, game);
    let continue_selected = game.pause_action() != PauseAction::Exit;
    draw_menu_entry(display, 80, "CONTINUE", continue_selected);
    draw_menu_entry(display, 114, "EXIT", !continue_selected);
    flush(display);
    proof {
        if d0.records() {
            assert(display.drawn() =~= d0.drawn() + frame_cmds(theme::BG, pause_menu_cmds(game@)));
        }
        lemma_frame_cmds(d0, *display, theme::BG, pause_menu_cmds(game@));
    }
}

} // verus!
