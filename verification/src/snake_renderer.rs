use vstd::prelude::*;
use crate::config::{on_board, spec_on_board, Cell, Direction, BOARD_COLS, BOARD_ROWS, CELL_SIZE, HUD_HEIGHT, TFT_H_RES, TFT_V_RES};
use crate::font::{centered_cmds, decimal_chars, draw_centered_text, draw_text, text_cmds, TextBuffer};
use crate::render::{
    appends, clear, fill_at_cmds, fill_cmds, fill_rect, flush, flushed, frame_cmds, lemma_appends_chain, lemma_flushed, lemma_frame,
    lemma_frame_flushed, lemma_sent_appends, lemma_sent_chain, lemma_sent_nothing, lemma_sent_then, sent, sent_frame, DisplaySink,
    DrawCommand,
};
use crate::config::{spec_opposite, spec_wrapped_cell};
use crate::snake::{
    spec_step, border_mode_name, snake_valid, spec_border_mode_name, spec_speed_name, speed_config, GameMode, SelectionField,
    SnakeGame, SnakeState,
};
use crate::theme;
use crate::ui_widgets::{draw_option_row, option_row_cmds};

verus! {

broadcast use lemma_sent_appends, lemma_appends_chain;

/// The two grid lines at the top left of board cell `x, y`.
pub open spec fn grid_cell_cmds(x: int, y: int) -> Seq<DrawCommand> {
    fill_at_cmds(x * CELL_SIZE, HUD_HEIGHT + y * CELL_SIZE, 1, CELL_SIZE as int, theme::GRID)
        + fill_at_cmds(x * CELL_SIZE, HUD_HEIGHT + y * CELL_SIZE, CELL_SIZE as int, 1, theme::GRID)
}

/// The grid lines of the first `n` cells of board row `y`.
pub open spec fn grid_row_cmds(y: int, n: int) -> Seq<DrawCommand>
    decreases n,
{
    if n <= 0 { Seq::empty() } else { grid_row_cmds(y, n - 1) + grid_cell_cmds(n - 1, y) }
}

/// The grid lines of the first `n` board rows.
pub open spec fn grid_cmds(n: int) -> Seq<DrawCommand>
    decreases n,
{
    if n <= 0 { Seq::empty() } else { grid_cmds(n - 1) + grid_row_cmds(n - 1, BOARD_COLS as int) }
}

/// The snake's segments from index `hi - 1` down to `lo`.
pub open spec fn segments_down(g: SnakeState, hi: int, lo: int) -> Seq<DrawCommand>
    decreases hi - lo,
{
    if hi <= lo { Seq::empty() } else { segments_down(g, hi, lo + 1) + segment_cmds(g, lo) }
}

/// The panel over the board: paused, or game over, or none.
pub open spec fn board_panel_cmds(g: SnakeState) -> Seq<DrawCommand> {
    match g.mode {
        GameMode::Paused => fill_cmds(86, 100, 148, 40, theme::OVERLAY) + text_cmds(104, 113, "PAUSED"@, theme::TEXT, 2),
        GameMode::Over => fill_cmds(58, 92, 204, 56, theme::OVERLAY) + text_cmds(76, 102, "GAME OVER"@, theme::TEXT, 2)
            + text_cmds(64, 128, "PRESS SW TO SET"@, theme::MUTED, 1),
        _ => Seq::empty(),
    }
}

/// What `render` sends: the setup screen as a whole frame; otherwise the
/// HUD, the cleared board, its grid, the apple, the snake from tail to
/// head, the panel for the mode and a flush.
pub open spec fn screen_cmds(g: SnakeState) -> Seq<DrawCommand> {
    if g.mode == GameMode::Choosing {
        frame_cmds(theme::BG, start_screen_cmds(g))
    } else {
        hud_cmds(g) + fill_cmds(0, HUD_HEIGHT, TFT_H_RES, 224, theme::BG) + grid_cmds(BOARD_ROWS as int) + food_cmds(g.food)
            + segments_down(g, g.body.len() as int, 0) + board_panel_cmds(g) + seq![DrawCommand::Flush]
    }
}

/// The setup screen as one frame; otherwise the HUD, the board with the
/// apple and the snake, and the pause or game-over panel, ending with a
/// flush.
#[verifier::spinoff_prover]
pub fn render<D: DisplaySink>(display: &mut D, game: &SnakeGame)
    requires
        snake_valid(game@),
    ensures
        sent(*old(display), *final(display), screen_cmds(game@)),
        flushed(*old(display), *final(display)),
        game@.mode == GameMode::Choosing ==> sent_frame(*old(display), *final(display), theme::BG),
{
    let ghost d0 = *display;
    let ghost g = game@;
    if game.mode() == GameMode::Choosing {
        clear(display, theme::BG);
        let ghost d1 = *display;
        draw_start_screen(display, game);
        let ghost dm = *display;
        flush(display);
        proof {
            lemma_frame(d0, d1, dm, *display, theme::BG);
            lemma_frame_flushed(d0, *display, theme::BG);
            if d0.records() {
                assert(display.drawn() =~= d0.drawn() + frame_cmds(theme::BG, start_screen_cmds(g)));
            }
        }
        return;
    }
    draw_hud(display, game);
    let ghost d1 = *display;
    fill_rect(display, 0, HUD_HEIGHT, TFT_H_RES, TFT_V_RES - HUD_HEIGHT, theme::BG);
    let ghost d2 = *display;
    draw_grid(display);
    let ghost d3 = *display;
    draw_food(display, game.food());
    let ghost d4 = *display;
    draw_snake(display, game);
    let ghost d5 = *display;
    draw_board_panel(display, game);
    let ghost d6 = *display;
    flush(display);
    proof {
        lemma_flushed(d0, d6, *display);
        let p1 = hud_cmds(g);
        let p2 = p1 + fill_cmds(0, HUD_HEIGHT, TFT_H_RES, 224, theme::BG);
        let p3 = p2 + grid_cmds(BOARD_ROWS as int);
        let p4 = p3 + food_cmds(g.food);
        let p5 = p4 + segments_down(g, g.body.len() as int, 0);
        let p6 = p5 + board_panel_cmds(g);
        lemma_sent_then(d0, d1, d2, p1, fill_cmds(0, HUD_HEIGHT, TFT_H_RES, 224, theme::BG));
        lemma_sent_then(d0, d2, d3, p2, grid_cmds(BOARD_ROWS as int));
        lemma_sent_then(d0, d3, d4, p3, food_cmds(g.food));
        lemma_sent_then(d0, d4, d5, p4, segments_down(g, g.body.len() as int, 0));
        lemma_sent_then(d0, d5, d6, p5, board_panel_cmds(g));
        lemma_sent_then(d0, d6, *display, p6, seq![DrawCommand::Flush]);
    }
}

/// Draws the paused or game-over panel over the board.
fn draw_board_panel<D: DisplaySink>(display: &mut D, game: &SnakeGame)
    ensures
        sent(*old(display), *final(display), board_panel_cmds(game@)),
{
    let ghost d0 = *display;
    proof { lemma_sent_nothing(d0); }
    match game.mode() {
        GameMode::Paused => {
            fill_rect(display, 86, 100, 148, 40, theme::OVERLAY);
            draw_text(display, 104, 113, "PAUSED", theme::TEXT, 2);
        },
        GameMode::Over => {
            fill_rect(display, 58, 92, 204, 56, theme::OVERLAY);
            draw_text(display, 76, 102, "GAME OVER", theme::TEXT, 2);
            draw_text(display, 64, 128, "PRESS SW TO SET", theme::MUTED, 1);
        },
        _ => {},
    }
    proof {
        if d0.records() {
            assert(display.drawn() =~= d0.drawn() + board_panel_cmds(game@));
        }
    }
}

/// Draws the board's grid lines, row by row.
fn draw_grid<D: DisplaySink>(display: &mut D)
    ensures
        sent(*old(display), *final(display), grid_cmds(BOARD_ROWS as int)),
{
    let ghost d0 = *display;
    proof { lemma_sent_nothing(d0); }
    let mut y: i16 = 0;
    while y < BOARD_ROWS
        invariant
            0 <= y <= BOARD_ROWS,
            sent(d0, *display, grid_cmds(y as int)),
        decreases BOARD_ROWS - y,
    {
        let ghost row_start = *display;
        proof { lemma_sent_nothing(row_start); }
        let mut x: i16 = 0;
        while x < BOARD_COLS
            invariant
                0 <= x <= BOARD_COLS, 0 <= y < BOARD_ROWS,
                sent(row_start, *display, grid_row_cmds(y as int, x as int)),
            decreases BOARD_COLS - x,
        {
            fill_rect(display, x * CELL_SIZE, HUD_HEIGHT + y * CELL_SIZE, 1, CELL_SIZE, theme::GRID);
            fill_rect(display, x * CELL_SIZE, HUD_HEIGHT + y * CELL_SIZE, CELL_SIZE, 1, theme::GRID);
            proof {
                if row_start.records() {
                    assert(display.drawn() =~= row_start.drawn() + grid_row_cmds(y as int, x + 1));
                }
            }
            x += 1;
        }
        proof {
            lemma_sent_then(d0, row_start, *display, grid_cmds(y as int), grid_row_cmds(y as int, BOARD_COLS as int));
        }
        y += 1;
    }
}

/// Draws the snake from its tail to its head.
fn draw_snake<D: DisplaySink>(display: &mut D, game: &SnakeGame)
    requires
        snake_valid(game@),
    ensures
        sent(*old(display), *final(display), segments_down(game@, game@.body.len() as int, 0)),
{
    let ghost d0 = *display;
    let ghost g = game@;
    proof { lemma_sent_nothing(d0); }
    let mut index: usize = game.length();
    while index > 0
        invariant
            index <= game@.body.len(), snake_valid(game@), g == game@,
            sent(d0, *display, segments_down(g, g.body.len() as int, index as int)),
        decreases index,
    {
        index -= 1;
        let ghost before = *display;
        draw_snake_segment(display, game, index);
        proof {
            lemma_sent_then(d0, before, *display, segments_down(g, g.body.len() as int, index + 1), segment_cmds(g, index as int));
        }
    }
}

/// What `render_pause_menu` sends: the screen as `render` sends it, then
/// the pause panel with its continue and exit rows (`selected_index` 0
/// marks continue and 1 exit), and a flush.
pub open spec fn pause_screen_cmds(g: SnakeState, selected_index: usize) -> Seq<DrawCommand> {
    screen_cmds(g) + fill_cmds(70, 74, 180, 92, theme::OVERLAY) + centered_cmds(70, 84, 180, "PAUSED"@, theme::TEXT, 2)
        + option_row_cmds(92, 112, 236, "DO"@, "CONTINUE"@, selected_index == 0)
        + option_row_cmds(92, 142, 236, "DO"@, "EXIT"@, selected_index == 1) + seq![DrawCommand::Flush]
}

/// The screen with the pause menu over it; `selected_index` 0 marks
/// continue and 1 marks exit.
pub fn render_pause_menu<D: DisplaySink>(display: &mut D, game: &SnakeGame, selected_index: usize)
    requires
        snake_valid(game@),
    ensures
        sent(*old(display), *final(display), pause_screen_cmds(game@, selected_index)),
        flushed(*old(display), *final(display)),
{
    let ghost d0 = *display;
    render(display, game);
    fill_rect(display, 70, 74, 180, 92, theme::OVERLAY);
    draw_centered_text(display, 70, 84, 180, "PAUSED", theme::TEXT, 2);
    draw_option_row(display, 92, 112, 236, "DO", "CONTINUE", selected_index == 0);
    draw_option_row(display, 92, 142, 236, "DO", "EXIT", selected_index == 1);
    let ghost dm = *display;
    flush(display);
    proof {
        lemma_flushed(d0, dm, *display);
        if d0.records() {
            assert(display.drawn() =~= d0.drawn() + pause_screen_cmds(game@, selected_index));
        }
    }
}

/// Redraws the HUD alone.
pub fn render_hud<D: DisplaySink>(display: &mut D, game: &SnakeGame)
    ensures
        sent(*old(display), *final(display), hud_cmds(game@) + seq![DrawCommand::Flush]),
        flushed(*old(display), *final(display)),
{
    broadcast use lemma_sent_chain;
    let ghost d0 = *display;
    draw_hud(display, game);
    let ghost dm = *display;
    flush(display);
    proof { lemma_flushed(d0, dm, *display); }
}

/// What `render_tick_delta` sends: the HUD when a score changed, the old
/// tail cell cleared unless the snake grew, the segment behind the head,
/// the tail, the apple, the head, and a flush.
pub open spec fn tick_delta_cmds(g: SnakeState, old_tail: Cell, old_score: u32, old_best_score: u32, grew: bool) -> Seq<DrawCommand> {
    (if old_score != g.score || old_best_score != g.best_score { hud_cmds(g) } else { Seq::empty() })
        + (if !grew { empty_cell_cmds(old_tail) } else { Seq::empty() })
        + (if g.body.len() > 1 { body_at_cmds(g, 1) } else { Seq::empty() })
        + tail_cmds(g) + food_cmds(g.food) + head_cmds(g.body[0], g.direction) + seq![DrawCommand::Flush]
}

/// Redraws what a move changed: the HUD when a score changed, the old tail
/// cell unless the snake grew, the segment behind the head, the tail, the
/// apple and the head.
pub fn render_tick_delta<D: DisplaySink>(
    display: &mut D,
    game: &SnakeGame,
    old_tail: Cell,
    old_score: u32,
    old_best_score: u32,
    grew: bool,
)
    requires
        snake_valid(game@),
        game@.body.len() >= 1,
    ensures
        sent(*old(display), *final(display), tick_delta_cmds(game@, old_tail, old_score, old_best_score, grew)),
        flushed(*old(display), *final(display)),
{
    let ghost d0 = *display;
    let ghost g = game@;
    if old_score != game.score() || old_best_score != game.best_score() {
        draw_hud(display, game);
    } else {
        proof { lemma_sent_nothing(*display); }
    }
    let ghost d1 = *display;
    if !grew {
        clear_board_cell(display, old_tail);
    } else {
        proof { lemma_sent_nothing(*display); }
    }
    let ghost d2 = *display;
    if game.length() > 1 {
        draw_snake_body_at(display, game, 1);
    } else {
        proof { lemma_sent_nothing(*display); }
    }
    let ghost d3 = *display;
    draw_snake_tail(display, game);
    let ghost d4 = *display;
    draw_food(display, game.food());
    let ghost d5 = *display;
    proof { assert(spec_on_board(game@.body[0])); }
    draw_snake_head(display, game.head(), game.direction());
    let ghost dm = *display;
    flush(display);
    proof {
        lemma_flushed(d0, dm, *display);
        let p0 = if old_score != g.score || old_best_score != g.best_score { hud_cmds(g) } else { Seq::empty() };
        let p1 = if !grew { empty_cell_cmds(old_tail) } else { Seq::empty() };
        let p2 = if g.body.len() > 1 { body_at_cmds(g, 1) } else { Seq::empty() };
        lemma_sent_then(d0, d1, d2, p0, p1);
        lemma_sent_then(d0, d2, d3, p0 + p1, p2);
        lemma_sent_then(d0, d3, d4, p0 + p1 + p2, tail_cmds(g));
        lemma_sent_then(d0, d4, d5, p0 + p1 + p2 + tail_cmds(g), food_cmds(g.food));
        lemma_sent_then(d0, d5, dm, p0 + p1 + p2 + tail_cmds(g) + food_cmds(g.food), head_cmds(g.body[0], g.direction));
        lemma_sent_then(d0, dm, *display, p0 + p1 + p2 + tail_cmds(g) + food_cmds(g.food) + head_cmds(g.body[0], g.direction),
            seq![DrawCommand::Flush]);
    }
}

/// The direction from one cell of the snake to its neighbour, across the
/// board's edges as well.
pub open spec fn spec_direction_between(from: Cell, to: Cell) -> Direction {
    if to.x == from.x + 1 || (from.x == BOARD_COLS - 1 && to.x == 0) {
        Direction::Right
    } else if to.x == from.x - 1 || (from.x == 0 && to.x == BOARD_COLS - 1) {
        Direction::Left
    } else if to.y == from.y + 1 || (from.y == BOARD_ROWS - 1 && to.y == 0) {
        Direction::Down
    } else {
        Direction::Up
    }
}

pub fn direction_between(from: Cell, to: Cell) -> (r: Direction)
    ensures
        r == spec_direction_between(from, to),
{
    let fx = from.x as i32;
    let fy = from.y as i32;
    let tx = to.x as i32;
    let ty = to.y as i32;
    if tx == fx + 1 || (fx == BOARD_COLS as i32 - 1 && tx == 0) {
        Direction::Right
    } else if tx == fx - 1 || (fx == 0 && tx == BOARD_COLS as i32 - 1) {
        Direction::Left
    } else if ty == fy + 1 || (fy == BOARD_ROWS as i32 - 1 && ty == 0) {
        Direction::Down
    } else {
        Direction::Up
    }
}

/// The top-left pixel of a board cell.
pub open spec fn cell_px(cell: Cell) -> (i16, i16) {
    ((cell.x * CELL_SIZE) as i16, (HUD_HEIGHT + cell.y * CELL_SIZE) as i16)
}

/// What `clear_board_cell` sends: the background with the grid lines on
/// the cell's left and top edges.
pub open spec fn empty_cell_cmds(cell: Cell) -> Seq<DrawCommand> {
    let (x, y) = cell_px(cell);
    if !spec_on_board(cell) {
        Seq::empty()
    } else {
        fill_cmds(x, y, CELL_SIZE, CELL_SIZE, theme::BG) + fill_cmds(x, y, 1, CELL_SIZE, theme::GRID)
            + fill_cmds(x, y, CELL_SIZE, 1, theme::GRID)
    }
}

/// Repaints an empty board cell; a cell off the board draws nothing.
pub fn clear_board_cell<D: DisplaySink>(display: &mut D, cell: Cell)
    ensures
        sent(*old(display), *final(display), empty_cell_cmds(cell)),
        !spec_on_board(cell) ==> *final(display) == *old(display),
{
    let ghost d0 = *display;
    if !on_board(cell) {
        proof { lemma_sent_nothing(d0); }
        return;
    }
    let x: i16 = cell.x * CELL_SIZE;
    let y: i16 = HUD_HEIGHT + cell.y * CELL_SIZE;
    fill_rect(display, x, y, CELL_SIZE, CELL_SIZE, theme::BG);
    fill_rect(display, x, y, 1, CELL_SIZE, theme::GRID);
    fill_rect(display, x, y, CELL_SIZE, 1, theme::GRID);
    proof {
        if d0.records() {
            assert(display.drawn() =~= d0.drawn() + empty_cell_cmds(cell));
        }
    }
}

/// What `draw_snake_segment` sends for segment `index`: the head, the
/// tail, or a body segment.
pub open spec fn segment_cmds(g: SnakeState, index: int) -> Seq<DrawCommand> {
    if index == 0 {
        head_cmds(g.body[0], g.direction)
    } else if index == g.body.len() - 1 {
        tail_cmds(g)
    } else {
        body_at_cmds(g, index)
    }
}

fn draw_snake_segment<D: DisplaySink>(display: &mut D, game: &SnakeGame, index: usize)
    requires
        snake_valid(game@),
        index < game@.body.len(),
    ensures
        sent(*old(display), *final(display), segment_cmds(game@, index as int)),
{
    if index == 0 {
        proof { assert(spec_on_board(game@.body[0])); }
        draw_snake_head(display, game.head(), game.direction());
    } else if index == game.length() - 1 {
        draw_snake_tail(display, game);
    } else {
        draw_snake_body_at(display, game, index);
    }
}

/// What `draw_snake_body_at` sends for segment `index`: the head first,
/// the tail last, else a body segment joined to both neighbours.
pub open spec fn body_at_cmds(g: SnakeState, index: int) -> Seq<DrawCommand> {
    if index == 0 {
        head_cmds(g.body[0], g.direction)
    } else if index >= g.body.len() - 1 {
        tail_cmds(g)
    } else {
        let cell = g.body[index];
        body_cmds(cell, spec_direction_between(cell, g.body[index - 1]), spec_direction_between(cell, g.body[index + 1]))
    }
}

fn draw_snake_body_at<D: DisplaySink>(display: &mut D, game: &SnakeGame, index: usize)
    requires
        snake_valid(game@),
        index < game@.body.len(),
    ensures
        sent(*old(display), *final(display), body_at_cmds(game@, index as int)),
{
    if index == 0 {
        proof { assert(spec_on_board(game@.body[0])); }
        draw_snake_head(display, game.head(), game.direction());
        return;
    }
    if index >= game.length() - 1 {
        draw_snake_tail(display, game);
        return;
    }
    let cell = game.snake_at(index);
    proof { assert(spec_on_board(game@.body[index as int])); }
    draw_snake_body(
        display,
        cell,
        direction_between(cell, game.snake_at(index - 1)),
        direction_between(cell, game.snake_at(index + 1)),
    );
}

/// What `draw_snake_body` sends: the empty cell, the two arms toward the
/// neighbours, the middle and its marks.
pub open spec fn body_cmds(cell: Cell, first: Direction, second: Direction) -> Seq<DrawCommand> {
    let (x, y) = cell_px(cell);
    empty_cell_cmds(cell) + arm_cmds(x as int, y as int, first) + arm_cmds(x as int, y as int, second)
        + fill_cmds((x + 3) as i16, (y + 3) as i16, 10, 10, theme::SNAKE)
        + fill_cmds((x + 5) as i16, (y + 5) as i16, 2, 2, theme::SNAKE_MARK)
        + fill_cmds((x + 9) as i16, (y + 8) as i16, 2, 2, theme::SNAKE_MARK)
        + fill_cmds((x + 6) as i16, (y + 11) as i16, 3, 1, theme::SNAKE_MARK)
}

fn draw_snake_body<D: DisplaySink>(display: &mut D, cell: Cell, first: Direction, second: Direction)
    requires
        spec_on_board(cell),
    ensures
        sent(*old(display), *final(display), body_cmds(cell, first, second)),
{
    let x: i16 = cell.x * CELL_SIZE;
    let y: i16 = HUD_HEIGHT + cell.y * CELL_SIZE;
    let ghost d0 = *display;
    clear_board_cell(display, cell);
    draw_snake_body_arm(display, x, y, first);
    draw_snake_body_arm(display, x, y, second);
    fill_rect(display, x + 3, y + 3, 10, 10, theme::SNAKE);
    fill_rect(display, x + 5, y + 5, 2, 2, theme::SNAKE_MARK);
    fill_rect(display, x + 9, y + 8, 2, 2, theme::SNAKE_MARK);
    fill_rect(display, x + 6, y + 11, 3, 1, theme::SNAKE_MARK);
    proof {
        if d0.records() {
            assert(display.drawn() =~= d0.drawn() + body_cmds(cell, first, second));
        }
    }
}

/// What `draw_snake_body_arm` sends: the arm of the cell at `x, y` toward
/// `direction`.
pub open spec fn arm_cmds(x: int, y: int, direction: Direction) -> Seq<DrawCommand> {
    match direction {
        Direction::Up => fill_cmds((x + 3) as i16, (y + 1) as i16, 10, 7, theme::SNAKE),
        Direction::Down => fill_cmds((x + 3) as i16, (y + 8) as i16, 10, 7, theme::SNAKE),
        Direction::Left => fill_cmds((x + 1) as i16, (y + 3) as i16, 7, 10, theme::SNAKE),
        Direction::Right => fill_cmds((x + 8) as i16, (y + 3) as i16, 7, 10, theme::SNAKE),
    }
}

fn draw_snake_body_arm<D: DisplaySink>(display: &mut D, x: i16, y: i16, direction: Direction)
    requires
        0 <= x <= 320, 0 <= y <= 240,
    ensures
        sent(*old(display), *final(display), arm_cmds(x as int, y as int, direction)),
{
    match direction {
        Direction::Up => fill_rect(display, x + 3, y + 1, 10, 7, theme::SNAKE),
        Direction::Down => fill_rect(display, x + 3, y + 8, 10, 7, theme::SNAKE),
        Direction::Left => fill_rect(display, x + 1, y + 3, 7, 10, theme::SNAKE),
        Direction::Right => fill_rect(display, x + 8, y + 3, 7, 10, theme::SNAKE),
    }
}

/// What `draw_snake_head` sends: the empty cell, then the head facing
/// away from `direction`'s opposite, with its marks and eyes.
pub open spec fn head_cmds(cell: Cell, direction: Direction) -> Seq<DrawCommand> {
    let (x, y) = cell_px(cell);
    let d = spec_opposite(direction);
    empty_cell_cmds(cell) + match d {
        Direction::Up => fill_cmds((x + 3) as i16, (y + 5) as i16, 10, 10, theme::HEAD)
            + fill_cmds((x + 1) as i16, (y + 1) as i16, 14, 7, theme::HEAD) + head_marks_cmds(x as int, y as int, d)
            + fill_cmds((x + 5) as i16, (y + 3) as i16, 2, 2, theme::EYE) + fill_cmds((x + 10) as i16, (y + 3) as i16, 2, 2, theme::EYE),
        Direction::Down => fill_cmds((x + 3) as i16, (y + 1) as i16, 10, 10, theme::HEAD)
            + fill_cmds((x + 1) as i16, (y + 8) as i16, 14, 7, theme::HEAD) + head_marks_cmds(x as int, y as int, d)
            + fill_cmds((x + 5) as i16, (y + 11) as i16, 2, 2, theme::EYE) + fill_cmds((x + 10) as i16, (y + 11) as i16, 2, 2, theme::EYE),
        Direction::Left => fill_cmds((x + 5) as i16, (y + 3) as i16, 10, 10, theme::HEAD)
            + fill_cmds((x + 1) as i16, (y + 1) as i16, 7, 14, theme::HEAD) + head_marks_cmds(x as int, y as int, d)
            + fill_cmds((x + 3) as i16, (y + 5) as i16, 2, 2, theme::EYE) + fill_cmds((x + 3) as i16, (y + 10) as i16, 2, 2, theme::EYE),
        Direction::Right => fill_cmds((x + 1) as i16, (y + 3) as i16, 10, 10, theme::HEAD)
            + fill_cmds((x + 8) as i16, (y + 1) as i16, 7, 14, theme::HEAD) + head_marks_cmds(x as int, y as int, d)
            + fill_cmds((x + 11) as i16, (y + 5) as i16, 2, 2, theme::EYE) + fill_cmds((x + 11) as i16, (y + 10) as i16, 2, 2, theme::EYE),
    }
}

fn draw_snake_head<D: DisplaySink>(display: &mut D, cell: Cell, direction: Direction)
    requires
        spec_on_board(cell),
    ensures
        sent(*old(display), *final(display), head_cmds(cell, direction)),
{
    let x: i16 = cell.x * CELL_SIZE;
    let y: i16 = HUD_HEIGHT + cell.y * CELL_SIZE;
    let ghost d0 = *display;
    clear_board_cell(display, cell);
    let draw_direction = direction.opposite();
    match draw_direction {
        Direction::Up => {
            fill_rect(display, x + 3, y + 5, 10, 10, theme::HEAD);
            fill_rect(display, x + 1, y + 1, 14, 7, theme::HEAD);
            draw_snake_head_marks(display, x, y, draw_direction);
            fill_rect(display, x + 5, y + 3, 2, 2, theme::EYE);
            fill_rect(display, x + 10, y + 3, 2, 2, theme::EYE);
        },
        Direction::Down => {
            fill_rect(display, x + 3, y + 1, 10, 10, theme::HEAD);
            fill_rect(display, x + 1, y + 8, 14, 7, theme::HEAD);
            draw_snake_head_marks(display, x, y, draw_direction);
            fill_rect(display, x + 5, y + 11, 2, 2, theme::EYE);
            fill_rect(display, x + 10, y + 11, 2, 2, theme::EYE);
        },
        Direction::Left => {
            fill_rect(display, x + 5, y + 3, 10, 10, theme::HEAD);
            fill_rect(display, x + 1, y + 1, 7, 14, theme::HEAD);
            draw_snake_head_marks(display, x, y, draw_direction);
            fill_rect(display, x + 3, y + 5, 2, 2, theme::EYE);
            fill_rect(display, x + 3, y + 10, 2, 2, theme::EYE);
        },
        Direction::Right => {
            fill_rect(display, x + 1, y + 3, 10, 10, theme::HEAD);
            fill_rect(display, x + 8, y + 1, 7, 14, theme::HEAD);
            draw_snake_head_marks(display, x, y, draw_direction);
            fill_rect(display, x + 11, y + 5, 2, 2, theme::EYE);
            fill_rect(display, x + 11, y + 10, 2, 2, theme::EYE);
        },
    }
    proof {
        if d0.records() {
            assert(display.drawn() =~= d0.drawn() + head_cmds(cell, direction));
        }
    }
}

/// What `draw_snake_head_marks` sends: three marks on the head of the
/// cell at `x, y` drawn toward `direction`.
pub open spec fn head_marks_cmds(x: int, y: int, direction: Direction) -> Seq<DrawCommand> {
    match direction {
        Direction::Up => fill_cmds((x + 6) as i16, (y + 8) as i16, 4, 1, theme::HEAD_MARK)
            + fill_cmds((x + 4) as i16, (y + 11) as i16, 3, 1, theme::HEAD_MARK) + fill_cmds((x + 9) as i16, (y + 11) as i16, 3, 1, theme::HEAD_MARK),
        Direction::Down => fill_cmds((x + 6) as i16, (y + 7) as i16, 4, 1, theme::HEAD_MARK)
            + fill_cmds((x + 4) as i16, (y + 4) as i16, 3, 1, theme::HEAD_MARK) + fill_cmds((x + 9) as i16, (y + 4) as i16, 3, 1, theme::HEAD_MARK),
        Direction::Left => fill_cmds((x + 8) as i16, (y + 6) as i16, 1, 4, theme::HEAD_MARK)
            + fill_cmds((x + 11) as i16, (y + 4) as i16, 1, 3, theme::HEAD_MARK) + fill_cmds((x + 11) as i16, (y + 9) as i16, 1, 3, theme::HEAD_MARK),
        Direction::Right => fill_cmds((x + 7) as i16, (y + 6) as i16, 1, 4, theme::HEAD_MARK)
            + fill_cmds((x + 4) as i16, (y + 4) as i16, 1, 3, theme::HEAD_MARK) + fill_cmds((x + 4) as i16, (y + 9) as i16, 1, 3, theme::HEAD_MARK),
    }
}

fn draw_snake_head_marks<D: DisplaySink>(display: &mut D, x: i16, y: i16, direction: Direction)
    requires
        0 <= x <= 320, 0 <= y <= 240,
    ensures
        sent(*old(display), *final(display), head_marks_cmds(x as int, y as int, direction)),
{
    broadcast use lemma_sent_chain;
    match direction {
        Direction::Up => {
            fill_rect(display, x + 6, y + 8, 4, 1, theme::HEAD_MARK);
            fill_rect(display, x + 4, y + 11, 3, 1, theme::HEAD_MARK);
            fill_rect(display, x + 9, y + 11, 3, 1, theme::HEAD_MARK);
        },
        Direction::Down => {
            fill_rect(display, x + 6, y + 7, 4, 1, theme::HEAD_MARK);
            fill_rect(display, x + 4, y + 4, 3, 1, theme::HEAD_MARK);
            fill_rect(display, x + 9, y + 4, 3, 1, theme::HEAD_MARK);
        },
        Direction::Left => {
            fill_rect(display, x + 8, y + 6, 1, 4, theme::HEAD_MARK);
            fill_rect(display, x + 11, y + 4, 1, 3, theme::HEAD_MARK);
            fill_rect(display, x + 11, y + 9, 1, 3, theme::HEAD_MARK);
        },
        Direction::Right => {
            fill_rect(display, x + 7, y + 6, 1, 4, theme::HEAD_MARK);
            fill_rect(display, x + 4, y + 4, 1, 3, theme::HEAD_MARK);
            fill_rect(display, x + 4, y + 9, 1, 3, theme::HEAD_MARK);
        },
    }
}

/// What `draw_snake_tail` sends: the head of a one-cell snake, else the
/// tail cell pointing away from the segment before it.
pub open spec fn tail_cmds(g: SnakeState) -> Seq<DrawCommand> {
    if g.body.len() < 2 {
        head_cmds(g.body[0], g.direction)
    } else {
        let tail = g.body.last();
        tail_cell_cmds(tail, spec_direction_between(tail, g.body[g.body.len() - 2]))
    }
}

fn draw_snake_tail<D: DisplaySink>(display: &mut D, game: &SnakeGame)
    requires
        snake_valid(game@),
        game@.body.len() >= 1,
    ensures
        sent(*old(display), *final(display), tail_cmds(game@)),
{
    if game.length() < 2 {
        proof { assert(spec_on_board(game@.body[0])); }
        draw_snake_head(display, game.head(), game.direction());
        return;
    }
    proof { assert(spec_on_board(game@.body[game@.body.len() - 1])); }
    let tail = game.tail();
    draw_snake_tail_cell(display, tail, direction_between(tail, game.snake_at(game.length() - 2)));
}

/// What `draw_snake_tail_cell` sends: the empty cell, then the tail
/// tapering away from `body_direction`.
pub open spec fn tail_cell_cmds(cell: Cell, body_direction: Direction) -> Seq<DrawCommand> {
    let (x, y) = cell_px(cell);
    empty_cell_cmds(cell) + match spec_opposite(body_direction) {
        Direction::Up => fill_cmds((x + 4) as i16, (y + 8) as i16, 8, 7, theme::SNAKE)
            + fill_cmds((x + 5) as i16, (y + 5) as i16, 6, 3, theme::SNAKE) + fill_cmds((x + 6) as i16, (y + 3) as i16, 4, 2, theme::SNAKE),
        Direction::Down => fill_cmds((x + 4) as i16, (y + 1) as i16, 8, 7, theme::SNAKE)
            + fill_cmds((x + 5) as i16, (y + 8) as i16, 6, 3, theme::SNAKE) + fill_cmds((x + 6) as i16, (y + 11) as i16, 4, 2, theme::SNAKE),
        Direction::Left => fill_cmds((x + 8) as i16, (y + 4) as i16, 7, 8, theme::SNAKE)
            + fill_cmds((x + 5) as i16, (y + 5) as i16, 3, 6, theme::SNAKE) + fill_cmds((x + 3) as i16, (y + 6) as i16, 2, 4, theme::SNAKE),
        Direction::Right => fill_cmds((x + 1) as i16, (y + 4) as i16, 7, 8, theme::SNAKE)
            + fill_cmds((x + 8) as i16, (y + 5) as i16, 3, 6, theme::SNAKE) + fill_cmds((x + 11) as i16, (y + 6) as i16, 2, 4, theme::SNAKE),
    }
}

fn draw_snake_tail_cell<D: DisplaySink>(display: &mut D, cell: Cell, body_direction: Direction)
    requires
        spec_on_board(cell),
    ensures
        sent(*old(display), *final(display), tail_cell_cmds(cell, body_direction)),
{
    let x: i16 = cell.x * CELL_SIZE;
    let y: i16 = HUD_HEIGHT + cell.y * CELL_SIZE;
    let ghost d0 = *display;
    clear_board_cell(display, cell);
    match body_direction.opposite() {
        Direction::Up => {
            fill_rect(display, x + 4, y + 8, 8, 7, theme::SNAKE);
            fill_rect(display, x + 5, y + 5, 6, 3, theme::SNAKE);
            fill_rect(display, x + 6, y + 3, 4, 2, theme::SNAKE);
        },
        Direction::Down => {
            fill_rect(display, x + 4, y + 1, 8, 7, theme::SNAKE);
            fill_rect(display, x + 5, y + 8, 6, 3, theme::SNAKE);
            fill_rect(display, x + 6, y + 11, 4, 2, theme::SNAKE);
        },
        Direction::Left => {
            fill_rect(display, x + 8, y + 4, 7, 8, theme::SNAKE);
            fill_rect(display, x + 5, y + 5, 3, 6, theme::SNAKE);
            fill_rect(display, x + 3, y + 6, 2, 4, theme::SNAKE);
        },
        Direction::Right => {
            fill_rect(display, x + 1, y + 4, 7, 8, theme::SNAKE);
            fill_rect(display, x + 8, y + 5, 3, 6, theme::SNAKE);
            fill_rect(display, x + 11, y + 6, 2, 4, theme::SNAKE);
        },
    }
    proof {
        if d0.records() {
            assert(display.drawn() =~= d0.drawn() + tail_cell_cmds(cell, body_direction));
        }
    }
}

/// What `draw_food` sends: the empty cell, then the apple's stem, leaf,
/// body, shade and highlight.
pub open spec fn food_cmds(cell: Cell) -> Seq<DrawCommand> {
    let (x, y) = cell_px(cell);
    if !spec_on_board(cell) {
        Seq::empty()
    } else {
        empty_cell_cmds(cell) + fill_cmds((x + 5) as i16, (y + 1) as i16, 2, 4, theme::STEM)
            + fill_cmds((x + 8) as i16, (y + 2) as i16, 4, 2, theme::LEAF)
            + fill_cmds((x + 9) as i16, (y + 3) as i16, 3, 2, theme::LEAF)
            + fill_cmds((x + 4) as i16, (y + 5) as i16, 8, 1, theme::APPLE)
            + fill_cmds((x + 3) as i16, (y + 6) as i16, 10, 2, theme::APPLE)
            + fill_cmds((x + 2) as i16, (y + 8) as i16, 12, 4, theme::APPLE)
            + fill_cmds((x + 3) as i16, (y + 12) as i16, 10, 2, theme::APPLE)
            + fill_cmds((x + 5) as i16, (y + 14) as i16, 6, 1, theme::APPLE)
            + fill_cmds((x + 11) as i16, (y + 8) as i16, 2, 5, theme::APPLE_DARK)
            + fill_cmds((x + 9) as i16, (y + 13) as i16, 3, 1, theme::APPLE_DARK)
            + fill_cmds((x + 4) as i16, (y + 7) as i16, 2, 2, theme::APPLE_HIGHLIGHT)
    }
}

/// Draws the apple; a cell off the board (no apple) draws nothing.
pub fn draw_food<D: DisplaySink>(display: &mut D, cell: Cell)
    ensures
        sent(*old(display), *final(display), food_cmds(cell)),
        !spec_on_board(cell) ==> *final(display) == *old(display),
{
    let ghost d0 = *display;
    if !on_board(cell) {
        proof { lemma_sent_nothing(d0); }
        return;
    }
    let x: i16 = cell.x * CELL_SIZE;
    let y: i16 = HUD_HEIGHT + cell.y * CELL_SIZE;
    clear_board_cell(display, cell);
    fill_rect(display, x + 5, y + 1, 2, 4, theme::STEM);
    fill_rect(display, x + 8, y + 2, 4, 2, theme::LEAF);
    fill_rect(display, x + 9, y + 3, 3, 2, theme::LEAF);
    fill_rect(display, x + 4, y + 5, 8, 1, theme::APPLE);
    fill_rect(display, x + 3, y + 6, 10, 2, theme::APPLE);
    fill_rect(display, x + 2, y + 8, 12, 4, theme::APPLE);
    fill_rect(display, x + 3, y + 12, 10, 2, theme::APPLE);
    fill_rect(display, x + 5, y + 14, 6, 1, theme::APPLE);
    fill_rect(display, x + 11, y + 8, 2, 5, theme::APPLE_DARK);
    fill_rect(display, x + 9, y + 13, 3, 1, theme::APPLE_DARK);
    fill_rect(display, x + 4, y + 7, 2, 2, theme::APPLE_HIGHLIGHT);
    proof {
        if d0.records() {
            assert(display.drawn() =~= d0.drawn() + food_cmds(cell));
        }
    }
}

/// What `draw_start_screen` sends: the title, the best score, the speed,
/// border and exit rows, and the help lines.
pub open spec fn start_screen_cmds(g: SnakeState) -> Seq<DrawCommand> {
    text_cmds(116, 20, "SNAKE"@, theme::TEXT, 3) + text_cmds(124, 54, "BEST:"@ + decimal_chars(g.best_score as nat), theme::MUTED, 1)
        + option_row_cmds(42, 78, 236, "SPEED"@, spec_speed_name(g.speed_tier), g.selected_field == SelectionField::Speed)
        + option_row_cmds(42, 110, 236, "MODE"@, spec_border_mode_name(g.border_mode), g.selected_field == SelectionField::Border)
        + option_row_cmds(42, 142, 236, ""@, "EXIT"@, g.selected_field == SelectionField::Exit)
        + text_cmds(70, 176, "UD SELECT"@, theme::MUTED, 1) + text_cmds(70, 192, "LR OR KNOB CHANGES"@, theme::MUTED, 1)
        + text_cmds(70, 210, "PRESS SW TO START"@, theme::TEXT, 1) + text_cmds(70, 226, "PRESS SW EXIT MENU"@, theme::MUTED, 1)
}

/// The setup screen after the clear: title, best score, the speed, border
/// and exit rows, and the help lines.
#[verifier::spinoff_prover]
#[verifier::rlimit(40)]
fn draw_start_screen<D: DisplaySink>(display: &mut D, game: &SnakeGame)
    ensures
        sent(*old(display), *final(display), start_screen_cmds(game@)),
{
    let ghost d0 = *display;
    draw_text(display, 116, 20, "SNAKE", theme::TEXT, 3);
    proof { reveal_strlit("BEST:"); }
    let best_text = TextBuffer::<40>::labelled("BEST:", game.best_score());
    draw_text(display, 124, 54, best_text.as_str(), theme::MUTED, 1);
    draw_option_row(display, 42, 78, 236, "SPEED", speed_config(game.speed_tier()).name,
        game.selected_field() == SelectionField::Speed);
    draw_option_row(display, 42, 110, 236, "MODE", border_mode_name(game.border_mode()),
        game.selected_field() == SelectionField::Border);
    draw_option_row(display, 42, 142, 236, "", "EXIT", game.selected_field() == SelectionField::Exit);
    draw_text(display, 70, 176, "UD SELECT", theme::MUTED, 1);
    draw_text(display, 70, 192, "LR OR KNOB CHANGES", theme::MUTED, 1);
    draw_text(display, 70, 210, "PRESS SW TO START", theme::TEXT, 1);
    draw_text(display, 70, 226, "PRESS SW EXIT MENU", theme::MUTED, 1);
    proof {
        if d0.records() {
            assert(display.drawn() =~= d0.drawn() + start_screen_cmds(game@));
        }
    }
}

/// What `draw_hud` sends: the bar, the score, the best score, the speed and
/// the border mode.
pub open spec fn hud_cmds(g: SnakeState) -> Seq<DrawCommand> {
    fill_cmds(0, 0, TFT_H_RES, HUD_HEIGHT, theme::HUD) + text_cmds(4, 4, "S:"@ + decimal_chars(g.score as nat), theme::TEXT, 1)
        + text_cmds(70, 4, "B:"@ + decimal_chars(g.best_score as nat), theme::MUTED, 1)
        + text_cmds(142, 4, spec_speed_name(g.speed_tier), theme::TEXT, 1)
        + text_cmds(226, 4, spec_border_mode_name(g.border_mode), theme::MUTED, 1)
}

fn draw_hud<D: DisplaySink>(display: &mut D, game: &SnakeGame)
    ensures
        sent(*old(display), *final(display), hud_cmds(game@)),
{
    let ghost d0 = *display;
    proof {
        reveal_strlit("S:");
        reveal_strlit("B:");
    }
    let score_text = TextBuffer::<24>::labelled("S:", game.score());
    let best_text = TextBuffer::<24>::labelled("B:", game.best_score());
    fill_rect(display, 0, 0, TFT_H_RES, HUD_HEIGHT, theme::HUD);
    draw_text(display, 4, 4, score_text.as_str(), theme::TEXT, 1);
    draw_text(display, 70, 4, best_text.as_str(), theme::MUTED, 1);
    draw_text(display, 142, 4, speed_config(game.speed_tier()).name, theme::TEXT, 1);
    draw_text(display, 226, 4, border_mode_name(game.border_mode()), theme::MUTED, 1);
    proof {
        if d0.records() {
            assert(display.drawn() =~= d0.drawn() + hud_cmds(game@));
        }
    }
}


/// A step of the snake and the way the renderer reads it agree: for every
/// step that stays on the board, the direction from the old cell to the new
/// one is the direction stepped in. (Rows grow downwards, so up lowers the
/// row and down raises it.)
pub proof fn law_step_matches_direction_between(c: Cell, d: Direction)
    requires
        spec_on_board(c),
        spec_on_board(spec_step(c, d)),
    ensures
        spec_direction_between(c, spec_step(c, d)) == d,
        spec_step(c, d).x - c.x + spec_step(c, d).y - c.y == 1 || spec_step(c, d).x - c.x + spec_step(c, d).y - c.y == -1,
{
}

/// On a wrapping board the same holds across the edges: from any cell of
/// the board, the cell one step away in `d`, brought back onto the board,
/// lies in direction `d` as the renderer reads it.
pub proof fn law_wrapped_step_matches_direction_between(c: Cell, d: Direction)
    requires
        spec_on_board(c),
    ensures
        spec_direction_between(c, spec_wrapped_cell(spec_step(c, d))) == d,
{
}

} // verus!
