use vstd::prelude::*;
use crate::flappy::{spec_player_y, FlappyGame, FlappyMode, FlappyObstacle, FlappyPauseAction, FlappyState};
use crate::font::{all_ascii, ascii_chars, decimal_chars, TextBuffer};
use crate::render::{
    appends, centered_at_cmds, centered_text_at, clear, clear_cmd, fill_at, fill_at_cmds, flush, frame_cmds, lemma_appends_chain,
    lemma_frame, lemma_frame_cmds,
    lemma_sent_appends, lemma_sent_chain, lemma_sent_nothing, lemma_sent_then, sent, sent_frame, text_at,
    text_at_cmds, DisplaySink, DrawCommand,
};
use crate::sprite::{om_nom_cmds, om_nom_palette, om_nom_span, om_nom_spans, spec_om_nom_palette, OM_NOM_SPAN_COUNT};
use crate::theme;

verus! {

broadcast use lemma_sent_appends, lemma_appends_chain;

/// rgb(18, 31, 42).
pub const SKY: u16 = 0xe510;
/// rgb(246, 210, 126).
pub const CANDLE: u16 = 0x8ff6;
/// rgb(166, 114, 58).
pub const CANDLE_DARK: u16 = 0x87a3;
/// rgb(255, 92, 38).
pub const FLAME: u16 = 0xe4fa;
/// rgb(180, 58, 214).
pub const JELLY: u16 = 0xdab1;
/// rgb(107, 39, 150).
pub const JELLY_DARK: u16 = 0x3269;

/// What the last frame showed, to redraw only what changed.
#[derive(Debug, Clone, Copy, PartialEq, Eq)]
pub struct FlappyRenderState {
    pub player_y: i16,
    pub score: u32,
    pub best_score: u32,
    pub lives: u32,
    pub obstacles: [FlappyObstacle; 3],
}

/// `r` holds what `capture` takes from the game `g`.
pub open spec fn captured(r: FlappyRenderState, g: FlappyState) -> bool {
    &&& r.player_y == spec_player_y(g.player_y_fp)
    &&& r.score == g.score
    &&& r.best_score == g.best_score
    &&& r.lives == g.lives
    &&& r.obstacles@ == g.obstacles
}

/// What `capture` takes from a game with three obstacles.
pub open spec fn snapshot(g: FlappyState) -> FlappyRenderState {
    FlappyRenderState {
        player_y: spec_player_y(g.player_y_fp),
        score: g.score,
        best_score: g.best_score,
        lives: g.lives,
        obstacles: [g.obstacles[0], g.obstacles[1], g.obstacles[2]],
    }
}

/// Every game with three obstacles has a capture.
pub proof fn lemma_snapshot_captured(g: FlappyState)
    requires
        g.obstacles.len() == 3,
    ensures
        captured(snapshot(g), g),
{
    assert(snapshot(g).obstacles@ =~= g.obstacles);
}

impl FlappyRenderState {
    pub fn capture(game: &FlappyGame) -> (r: Self)
        ensures
            captured(r, game@),
            r.player_y == spec_player_y(game@.player_y_fp),
            r.score == game@.score,
            r.best_score == game@.best_score,
            r.lives == game@.lives,
            r.obstacles@ == game@.obstacles,
    {
        FlappyRenderState {
            player_y: game.player_y(),
            score: game.score(),
            best_score: game.best_score(),
            lives: game.lives(),
            obstacles: *game.obstacles(),
        }
    }
}

/// Whether a play frame has anything new to show since `previous`.
pub open spec fn flappy_changed(s: FlappyState, previous: FlappyRenderState) -> bool {
    ||| spec_player_y(s.player_y_fp) != previous.player_y
    ||| s.score != previous.score
    ||| s.best_score != previous.best_score
    ||| s.lives != previous.lives
    ||| s.obstacles != previous.obstacles@
}

/// The first `k` obstacles drawn in order.
pub open spec fn obstacles_cmds(obstacles: Seq<FlappyObstacle>, k: int) -> Seq<DrawCommand>
    decreases k,
{
    if k <= 0 { Seq::empty() } else { obstacles_cmds(obstacles, k - 1) + obstacle_cmds(obstacles[k - 1]) }
}

/// The panel for the mode: the title panel when ready, the pause menu, the
/// game-over panel, and none in play.
pub open spec fn mode_panel_cmds(g: FlappyState) -> Seq<DrawCommand> {
    match g.mode {
        FlappyMode::Ready => center_panel_cmds("OM NOM"@, "PRESS TO START"@),
        FlappyMode::Playing => Seq::empty(),
        FlappyMode::Paused => pause_menu_cmds(g),
        FlappyMode::GameOver => center_panel_cmds("GAME OVER"@, "PRESS TO RETRY"@),
    }
}

/// What `render` draws after clearing to the sky: the background, the HUD,
/// the three obstacles, the player and the mode's panel.
pub open spec fn screen_cmds(g: FlappyState) -> Seq<DrawCommand> {
    background_cmds() + hud_cmds(g.score, g.best_score, g.lives) + obstacles_cmds(g.obstacles, 3)
        + om_nom_cmds(58, spec_player_y(g.player_y_fp) as int, 26) + mode_panel_cmds(g)
}

/// The whole screen: sky, floor, HUD, obstacles, player and the panel for
/// the mode, as one frame.
pub fn render<D: DisplaySink>(display: &mut D, game: &FlappyGame)
    ensures
        sent(*old(display), *final(display), frame_cmds(SKY, screen_cmds(game@))),
        sent_frame(*old(display), *final(display), SKY),
{
    let ghost d0 = *display;
    let ghost g = game@;
    clear(display, SKY);
    draw_background(display);
    draw_hud(display, game.score(), game.best_score(), game.lives());
    let obstacles = game.obstacles();
    proof { game.lemma_three_obstacles(); }
    let ghost head = seq![clear_cmd(SKY)] + background_cmds() + hud_cmds(g.score, g.best_score, g.lives);
    proof {
        if d0.records() {
            assert(display.drawn() =~= d0.drawn() + (head + obstacles_cmds(g.obstacles, 0)));
        }
    }
    let mut i: usize = 0;
    while i < 3
        invariant
            i <= 3, obstacles@.len() == 3, obstacles@ == g.obstacles,
            sent(d0, *display, head + obstacles_cmds(g.obstacles, i as int)),
        decreases 3 - i,
    {
        let ghost before = *display;
        draw_obstacle(display, obstacles[i]);
        proof {
            lemma_sent_then(d0, before, *display, head + obstacles_cmds(g.obstacles, i as int), obstacle_cmds(obstacles@[i as int]));
            assert(head + obstacles_cmds(g.obstacles, i as int) + obstacle_cmds(obstacles@[i as int])
                =~= head + obstacles_cmds(g.obstacles, i + 1));
        }
        i += 1;
    }
    let ghost d2 = *display;
    draw_player(display, 58, game.player_y());
    match game.mode() {
        FlappyMode::Ready => draw_center_panel(display, "OM NOM", "PRESS TO START"),
        FlappyMode::Playing => {},
        FlappyMode::Paused => draw_pause_menu(display, game),
        FlappyMode::GameOver => draw_center_panel(display, "GAME OVER", "PRESS TO RETRY"),
    }
    flush(display);
    proof {
        if d0.records() {
            assert(display.drawn() =~= d0.drawn() + frame_cmds(SKY, screen_cmds(g)));
        }
        lemma_frame_cmds(d0, *display, SKY, screen_cmds(g));
    }
}

/// The pause screen is the whole screen with the pause menu.
pub fn render_pause_menu<D: DisplaySink>(display: &mut D, game: &FlappyGame)
    ensures
        sent(*old(display), *final(display), frame_cmds(SKY, screen_cmds(game@))),
        sent_frame(*old(display), *final(display), SKY),
{
    render(display, game);
}

/// The first `k` obstacles' changes from `previous` to `current`.
pub open spec fn obstacle_deltas(previous: Seq<FlappyObstacle>, current: Seq<FlappyObstacle>, k: int) -> Seq<DrawCommand>
    decreases k,
{
    if k <= 0 {
        Seq::empty()
    } else {
        obstacle_deltas(previous, current, k - 1) + obstacle_delta_cmds(previous[k - 1], current[k - 1])
    }
}

/// What `render_play_delta` sends: nothing when nothing changed; else the
/// uncovered part of the player's old place, the HUD when a count changed,
/// each obstacle's change, the player, and a flush.
pub open spec fn play_delta_cmds(s: FlappyState, previous: FlappyRenderState) -> Seq<DrawCommand> {
    let y = spec_player_y(s.player_y_fp);
    if !flappy_changed(s, previous) {
        Seq::empty()
    } else {
        erase_player_cmds(previous.player_y as int, y as int)
            + (if s.score != previous.score || s.best_score != previous.best_score || s.lives != previous.lives {
                hud_cmds(s.score, s.best_score, s.lives)
            } else {
                Seq::empty()
            })
            + obstacle_deltas(previous.obstacles@, s.obstacles, 3) + om_nom_cmds(58, y as int, 26) + seq![DrawCommand::Flush]
    }
}

/// Redraws what changed since `previous` during play: the uncovered part of
/// the player's old place, the HUD when a count changed, each obstacle that
/// moved, and the player. Nothing is sent when nothing changed.
pub fn render_play_delta<D: DisplaySink>(display: &mut D, game: &FlappyGame, previous: FlappyRenderState)
    ensures
        sent(*old(display), *final(display), play_delta_cmds(game@, previous)),
        !flappy_changed(game@, previous) ==> *final(display) == *old(display),
{
    let ghost d0 = *display;
    let obstacles = game.obstacles();
    let player_y = game.player_y();
    let hud_changed = game.score() != previous.score || game.best_score() != previous.best_score || game.lives() != previous.lives;
    let mut obstacles_changed = false;
    let mut i: usize = 0;
    while i < 3
        invariant
            i <= 3, obstacles@.len() == 3, previous.obstacles@.len() == 3,
            !obstacles_changed ==> forall|j: int| 0 <= j < i ==> obstacles@[j] == previous.obstacles@[j],
            obstacles_changed ==> obstacles@ != previous.obstacles@,
        decreases 3 - i,
    {
        if previous.obstacles[i] != obstacles[i] {
            obstacles_changed = true;
        }
        i += 1;
    }
    if !obstacles_changed {
        assert(obstacles@ =~= previous.obstacles@);
    }
    if player_y == previous.player_y && !hud_changed && !obstacles_changed {
        proof { lemma_sent_nothing(d0); }
        return;
    }
    erase_player_delta(display, previous.player_y, player_y);
    let ghost d1 = *display;
    if hud_changed {
        draw_hud(display, game.score(), game.best_score(), game.lives());
    } else {
        proof { lemma_sent_nothing(d1); }
    }
    let ghost head = erase_player_cmds(previous.player_y as int, player_y as int)
        + (if hud_changed { hud_cmds(game@.score, game@.best_score, game@.lives) } else { Seq::empty() });
    proof {
        lemma_sent_then(d0, d1, *display, erase_player_cmds(previous.player_y as int, player_y as int),
            if hud_changed { hud_cmds(game@.score, game@.best_score, game@.lives) } else { Seq::empty() });
        assert(head + obstacle_deltas(previous.obstacles@, obstacles@, 0) =~= head);
    }
    let mut k: usize = 0;
    while k < 3
        invariant
            k <= 3, obstacles@.len() == 3, previous.obstacles@.len() == 3,
            sent(d0, *display, head + obstacle_deltas(previous.obstacles@, obstacles@, k as int)),
        decreases 3 - k,
    {
        let ghost before = *display;
        let ghost part = obstacle_deltas(previous.obstacles@, obstacles@, k as int);
        draw_obstacle_delta(display, previous.obstacles[k], obstacles[k]);
        proof {
            let step = obstacle_delta_cmds(previous.obstacles@[k as int], obstacles@[k as int]);
            lemma_sent_then(d0, before, *display, head + part, step);
            assert((head + part) + step =~= head + (part + step));
        }
        k += 1;
    }
    let ghost d2 = *display;
    draw_player(display, 58, player_y);
    let ghost d3 = *display;
    flush(display);
    proof {
        let tail = obstacle_deltas(previous.obstacles@, obstacles@, 3);
        lemma_sent_then(d0, d2, d3, head + tail, om_nom_cmds(58, player_y as int, 26));
        lemma_sent_then(d0, d3, *display, head + tail + om_nom_cmds(58, player_y as int, 26), seq![DrawCommand::Flush]);
        assert(head + tail + om_nom_cmds(58, player_y as int, 26) + seq![DrawCommand::Flush]
            =~= play_delta_cmds(game@, previous));
    }
}

/// What `draw_background` sends: the HUD bar and the floor with its rim.
pub open spec fn background_cmds() -> Seq<DrawCommand> {
    fill_at_cmds(0, 0, 320, 24, theme::HUD) + fill_at_cmds(0, 224, 320, 16, JELLY_DARK) + fill_at_cmds(0, 228, 320, 12, JELLY)
}

fn draw_background<D: DisplaySink>(display: &mut D)
    ensures
        sent(*old(display), *final(display), background_cmds()),
{
    broadcast use lemma_sent_chain;
    fill_at(display, 0, 0, 320, 24, theme::HUD);
    fill_at(display, 0, 224, 320, 16, JELLY_DARK);
    fill_at(display, 0, 228, 320, 12, JELLY);
}

/// `label` followed by `value` in decimal.
fn labelled(label: &str, value: u32) -> (r: TextBuffer<16>)
    requires
        vstd::string::is_ascii(label),
        label@.len() <= 6,
    ensures
        all_ascii(r.text()),
        ascii_chars(r.text()) == label@ + decimal_chars(value as nat),
{
    TextBuffer::<16>::labelled(label, value)
}

/// What `draw_hud` sends: the bar, the title, and the score, lives and
/// best score.
pub open spec fn hud_cmds(score: u32, best_score: u32, lives: u32) -> Seq<DrawCommand> {
    fill_at_cmds(0, 0, 320, 24, theme::HUD) + text_at_cmds(8, 7, "OM NOM"@, theme::TEXT, 1)
        + text_at_cmds(78, 7, "SCORE "@ + decimal_chars(score as nat), theme::TEXT, 1)
        + text_at_cmds(170, 7, "LIVES "@ + decimal_chars(lives as nat), theme::TEXT, 1)
        + text_at_cmds(248, 7, "BEST "@ + decimal_chars(best_score as nat), theme::MUTED, 1)
}

fn draw_hud<D: DisplaySink>(display: &mut D, score: u32, best_score: u32, lives: u32)
    ensures
        sent(*old(display), *final(display), hud_cmds(score, best_score, lives)),
{
    let ghost d0 = *display;
    fill_at(display, 0, 0, 320, 24, theme::HUD);
    text_at(display, 8, 7, "OM NOM", theme::TEXT, 1);
    proof {
        reveal_strlit("SCORE ");
        reveal_strlit("LIVES ");
        reveal_strlit("BEST ");
    }
    let score_text = labelled("SCORE ", score);
    text_at(display, 78, 7, score_text.as_str(), theme::TEXT, 1);
    let lives_text = labelled("LIVES ", lives);
    text_at(display, 170, 7, lives_text.as_str(), theme::TEXT, 1);
    let best_text = labelled("BEST ", best_score);
    text_at(display, 248, 7, best_text.as_str(), theme::MUTED, 1);
    proof {
        if d0.records() {
            assert(display.drawn() =~= d0.drawn() + hud_cmds(score, best_score, lives));
        }
    }
}

/// What `draw_obstacle` sends: the candle from the bottom of the HUD (row
/// 24) down to the gap, its stripe, rim and flame; then the jelly from 78
/// rows below the gap's top down to the floor (row 224), its rim and eyes.
pub open spec fn obstacle_cmds(obstacle: FlappyObstacle) -> Seq<DrawCommand> {
    let x = obstacle.x as int;
    let gap_y = obstacle.gap_y as int;
    let jelly_y = gap_y + 78;
    fill_at_cmds(x, 24, 24, gap_y - 24, CANDLE) + fill_at_cmds(x + 10, 24, 4, gap_y - 24, CANDLE_DARK)
        + fill_at_cmds(x - 2, gap_y - 8, 28, 8, CANDLE_DARK) + fill_at_cmds(x + 8, gap_y - 13, 8, 5, FLAME)
        + fill_at_cmds(x, jelly_y, 24, 224 - jelly_y, JELLY) + fill_at_cmds(x - 2, jelly_y, 28, 9, JELLY_DARK)
        + fill_at_cmds(x + 4, jelly_y + 5, 5, 5, theme::TEXT) + fill_at_cmds(x + 15, jelly_y + 5, 5, 5, theme::TEXT)
}

/// An obstacle: a candle from the top down to the gap with its flame, and
/// a jelly from below the gap to the floor.
pub fn draw_obstacle<D: DisplaySink>(display: &mut D, obstacle: FlappyObstacle)
    ensures
        sent(*old(display), *final(display), obstacle_cmds(obstacle)),
{
    let ghost d0 = *display;
    let x: i32 = obstacle.x as i32;
    let gap_y: i32 = obstacle.gap_y as i32;
    let top_h = gap_y - 24;
    fill_at(display, x, 24, 24, top_h, CANDLE);
    fill_at(display, x + 10, 24, 4, top_h, CANDLE_DARK);
    fill_at(display, x - 2, gap_y - 8, 28, 8, CANDLE_DARK);
    fill_at(display, x + 8, gap_y - 13, 8, 5, FLAME);
    let jelly_y = gap_y + 78;
    let jelly_h = 224 - jelly_y;
    fill_at(display, x, jelly_y, 24, jelly_h, JELLY);
    fill_at(display, x - 2, jelly_y, 28, 9, JELLY_DARK);
    fill_at(display, x + 4, jelly_y + 5, 5, 5, theme::TEXT);
    fill_at(display, x + 15, jelly_y + 5, 5, 5, theme::TEXT);
    proof {
        if d0.records() {
            assert(display.drawn() =~= d0.drawn() + obstacle_cmds(obstacle));
        }
    }
}

/// What `draw_obstacle_delta` sends: nothing for an unchanged obstacle;
/// else the strip it uncovered when it only slid left, or its whole old
/// place, then the obstacle.
pub open spec fn obstacle_delta_cmds(previous: FlappyObstacle, current: FlappyObstacle) -> Seq<DrawCommand> {
    if current == previous {
        Seq::empty()
    } else if current.gap_y == previous.gap_y && current.x < previous.x {
        trailing_edge_cmds(previous, previous.x - current.x) + obstacle_cmds(current)
    } else {
        fill_at_cmds(previous.x - 3, 24, 30, 200, SKY) + obstacle_cmds(current)
    }
}

fn draw_obstacle_delta<D: DisplaySink>(display: &mut D, previous: FlappyObstacle, current: FlappyObstacle)
    ensures
        sent(*old(display), *final(display), obstacle_delta_cmds(previous, current)),
        current == previous ==> *final(display) == *old(display),
{
    broadcast use lemma_sent_chain;
    if current == previous {
        proof { lemma_sent_nothing(*display); }
        return;
    }
    if current.gap_y == previous.gap_y && current.x < previous.x {
        erase_obstacle_trailing_edge(display, previous, previous.x as i32 - current.x as i32);
    } else {
        erase_obstacle(display, previous);
    }
    draw_obstacle(display, current);
}

/// What `erase_obstacle_trailing_edge` sends: the sky over the `dx` (kept
/// to 16 bits, at least 1) columns at the right of the old place.
pub open spec fn trailing_edge_cmds(obstacle: FlappyObstacle, dx: int) -> Seq<DrawCommand> {
    let d: int = if (dx as i16) < 1 { 1 } else { (dx as i16) as int };
    fill_at_cmds(obstacle.x + 26 - d, 24, d, 200, SKY)
}

/// Clears the strip an obstacle moving left by `dx` uncovered at its right.
fn erase_obstacle_trailing_edge<D: DisplaySink>(display: &mut D, obstacle: FlappyObstacle, dx: i32)
    ensures
        sent(*old(display), *final(display), trailing_edge_cmds(obstacle, dx as int)),
{
    #[verifier::truncate]
    let dx16 = dx as i16;
    let d: i32 = if dx16 < 1 { 1 } else { dx16 as i32 };
    let old_right: i32 = obstacle.x as i32 + 26;
    fill_at(display, old_right - d, 24, d, 200, SKY);
}

fn erase_obstacle<D: DisplaySink>(display: &mut D, obstacle: FlappyObstacle)
    ensures
        sent(*old(display), *final(display), fill_at_cmds(obstacle.x - 3, 24, 30, 200, SKY)),
{
    fill_at(display, obstacle.x as i32 - 3, 24, 30, 200, SKY);
}

fn draw_player<D: DisplaySink>(display: &mut D, x: i16, y: i16)
    ensures
        sent(*old(display), *final(display), om_nom_cmds(x as int, y as int, 26)),
{
    proof { lemma_sent_nothing(*display); }
    let mut i: usize = 0;
    while i < OM_NOM_SPAN_COUNT
        invariant
            i <= OM_NOM_SPAN_COUNT,
            sent(*old(display), *display, om_nom_cmds(x as int, y as int, i as int)),
        decreases OM_NOM_SPAN_COUNT - i,
    {
        let ghost before = *display;
        let span = om_nom_span(i);
        fill_at(display, x as i32 + span.x as i32, y as i32 + span.y as i32, span.w as i32, 1, om_nom_palette(span.palette));
        proof {
            lemma_sent_then(*old(display), before, *display, om_nom_cmds(x as int, y as int, i as int),
                fill_at_cmds(x + span.x, y + span.y, span.w as int, 1, spec_om_nom_palette(span.palette)));
        }
        i += 1;
    }
}

/// The uncovered runs of screen row `screen_y` from column `x` to `end`:
/// a run under way since `run_start` (when `in_run`) ends at the next
/// pixel the player drawn at `current_y` covers, or at `end`; each run is
/// filled with sky.
pub open spec fn erase_runs(x: int, end: int, run_start: int, in_run: bool, screen_y: int, current_y: int) -> Seq<DrawCommand>
    decreases end - x,
{
    if x >= end {
        if in_run { fill_at_cmds(run_start, screen_y, end - run_start, 1, SKY) } else { Seq::empty() }
    } else if covers_pixel(x, screen_y, current_y) {
        (if in_run { fill_at_cmds(run_start, screen_y, x - run_start, 1, SKY) } else { Seq::empty() })
            + erase_runs(x + 1, end, run_start, false, screen_y, current_y)
    } else if !in_run {
        erase_runs(x + 1, end, x, true, screen_y, current_y)
    } else {
        erase_runs(x + 1, end, run_start, true, screen_y, current_y)
    }
}

/// For the first `n` spans of the player drawn at `previous_y`, the parts
/// the player at `current_y` will not cover.
pub open spec fn erase_spans(previous_y: int, current_y: int, n: int) -> Seq<DrawCommand>
    decreases n,
{
    if n <= 0 {
        Seq::empty()
    } else {
        let span = om_nom_spans()[n - 1];
        let start = 58 + span.x;
        erase_spans(previous_y, current_y, n - 1)
            + erase_runs(start, start + span.w, 0, false, previous_y + span.y, current_y)
    }
}

/// What `erase_player_delta` sends: nothing when the player did not move;
/// else the uncovered border, then the uncovered parts of each span.
pub open spec fn erase_player_cmds(previous_y: int, current_y: int) -> Seq<DrawCommand> {
    if previous_y == current_y {
        Seq::empty()
    } else {
        player_border_cmds(previous_y, current_y) + erase_spans(previous_y, current_y, 26)
    }
}

/// Clears the pixels of the player drawn at `previous_y` that the player
/// drawn at `current_y` will not cover, with the one-pixel border around.
#[verifier::spinoff_prover]
fn erase_player_delta<D: DisplaySink>(display: &mut D, previous_y: i16, current_y: i16)
    ensures
        sent(*old(display), *final(display), erase_player_cmds(previous_y as int, current_y as int)),
        previous_y == current_y ==> *final(display) == *old(display),
{
    let ghost d0 = *display;
    if previous_y == current_y {
        proof { lemma_sent_nothing(d0); }
        return;
    }
    clear_player_border(display, previous_y, current_y);
    let ghost head = player_border_cmds(previous_y as int, current_y as int);
    assert(head + erase_spans(previous_y as int, current_y as int, 0) =~= head);
    let mut i: usize = 0;
    while i < OM_NOM_SPAN_COUNT
        invariant
            i <= OM_NOM_SPAN_COUNT, om_nom_spans().len() == OM_NOM_SPAN_COUNT,
            head == player_border_cmds(previous_y as int, current_y as int),
            sent(d0, *display, head + erase_spans(previous_y as int, current_y as int, i as int)),
        decreases OM_NOM_SPAN_COUNT - i,
    {
        let ghost done = head + erase_spans(previous_y as int, current_y as int, i as int);
        let span = om_nom_span(i);
        let screen_y: i32 = previous_y as i32 + span.y as i32;
        let start_x: i32 = 58 + span.x as i32;
        let end_x: i32 = start_x + span.w as i32;
        let ghost total = erase_runs(start_x as int, end_x as int, 0, false, screen_y as int, current_y as int);
        let mut run_start: i32 = 0;
        let mut in_run = false;
        let mut x: i32 = start_x;
        let ghost mut emitted = Seq::<DrawCommand>::empty();
        proof {
            assert(done + emitted =~= done);
            assert(emitted + total =~= total);
        }
        while x < end_x
            invariant
                start_x <= x <= end_x, end_x <= 58 + 36, start_x >= 58,
                -40000 <= screen_y <= 40000,
                in_run ==> start_x <= run_start < x,
                total == erase_runs(start_x as int, end_x as int, 0, false, screen_y as int, current_y as int),
                total == emitted + erase_runs(x as int, end_x as int, run_start as int, in_run, screen_y as int, current_y as int),
                sent(d0, *display, done + emitted),
            decreases end_x - x,
        {
            let ghost before = *display;
            let ghost rest = erase_runs(x as int + 1, end_x as int, run_start as int, false, screen_y as int, current_y as int);
            if sprite_covers_screen_pixel(x, screen_y, current_y) {
                if in_run {
                    fill_at(display, run_start, screen_y, x - run_start, 1, SKY);
                    proof {
                        let f = fill_at_cmds(run_start as int, screen_y as int, x - run_start, 1, SKY);
                        lemma_sent_then(d0, before, *display, done + emitted, f);
                        assert((done + emitted) + f =~= done + (emitted + f));
                        assert(emitted + (f + rest) =~= (emitted + f) + rest);
                        emitted = emitted + f;
                    }
                    in_run = false;
                } else {
                    proof { assert(emitted + (Seq::<DrawCommand>::empty() + rest) =~= emitted + rest); }
                }
            } else if !in_run {
                run_start = x;
                in_run = true;
            }
            x += 1;
        }
        let ghost before_end = *display;
        if in_run {
            fill_at(display, run_start, screen_y, end_x - run_start, 1, SKY);
            proof {
                let f = fill_at_cmds(run_start as int, screen_y as int, end_x - run_start, 1, SKY);
                lemma_sent_then(d0, before_end, *display, done + emitted, f);
                assert((done + emitted) + f =~= done + (emitted + f));
                emitted = emitted + f;
            }
        } else {
            proof { assert(emitted + Seq::<DrawCommand>::empty() =~= emitted); }
        }
        proof {
            assert(emitted == total);
            assert(done + total =~= head + erase_spans(previous_y as int, current_y as int, i as int + 1));
        }
        i += 1;
    }
}

/// What `clear_player_border` sends: the sky over the rows just above and
/// below the old place where the new player has no span, and over the
/// columns just left and right of it.
pub open spec fn player_border_cmds(previous_y: int, current_y: int) -> Seq<DrawCommand> {
    (if !covers_row(previous_y - 1, current_y) { fill_at_cmds(57, previous_y - 1, 20, 1, SKY) } else { Seq::empty() })
        + (if !covers_row(previous_y + 18, current_y) { fill_at_cmds(57, previous_y + 18, 20, 1, SKY) } else { Seq::empty() })
        + fill_at_cmds(57, previous_y, 1, 18, SKY) + fill_at_cmds(76, previous_y, 1, 18, SKY)
}

fn clear_player_border<D: DisplaySink>(display: &mut D, previous_y: i16, current_y: i16)
    ensures
        sent(*old(display), *final(display), player_border_cmds(previous_y as int, current_y as int)),
{
    let ghost d0 = *display;
    proof {
        if d0.records() {
            assert(d0.drawn() + Seq::<DrawCommand>::empty() =~= d0.drawn());
        }
    }
    let prev: i32 = previous_y as i32;
    if !current_sprite_covers_screen_y(prev - 1, current_y) {
        fill_at(display, 57, prev - 1, 20, 1, SKY);
    }
    if !current_sprite_covers_screen_y(prev + 18, current_y) {
        fill_at(display, 57, prev + 18, 20, 1, SKY);
    }
    fill_at(display, 57, prev, 1, 18, SKY);
    fill_at(display, 76, prev, 1, 18, SKY);
    proof {
        if d0.records() {
            assert(display.drawn() =~= d0.drawn() + player_border_cmds(previous_y as int, current_y as int));
        }
    }
}

/// Some span of the player drawn at `current_y` lies in screen row `screen_y`.
pub open spec fn covers_row(screen_y: int, current_y: int) -> bool {
    exists|i: int| 0 <= i < om_nom_spans().len() && current_y + (#[trigger] om_nom_spans()[i]).y == screen_y
}

/// The player drawn at `sprite_y` covers screen pixel `x, y`.
pub open spec fn covers_pixel(x: int, y: int, sprite_y: int) -> bool {
    exists|i: int| 0 <= i < om_nom_spans().len() && {
        let span = #[trigger] om_nom_spans()[i];
        y == sprite_y + span.y && 58 + span.x <= x < 58 + span.x + span.w
    }
}

fn current_sprite_covers_screen_y(screen_y: i32, current_y: i16) -> (r: bool)
    ensures
        r == covers_row(screen_y as int, current_y as int),
{
    let mut i: usize = 0;
    while i < OM_NOM_SPAN_COUNT
        invariant
            i <= OM_NOM_SPAN_COUNT, om_nom_spans().len() == OM_NOM_SPAN_COUNT,
            forall|j: int| 0 <= j < i ==> current_y + (#[trigger] om_nom_spans()[j]).y != screen_y,
        decreases OM_NOM_SPAN_COUNT - i,
    {
        let span = om_nom_span(i);
        if current_y as i32 + span.y as i32 == screen_y {
            return true;
        }
        i += 1;
    }
    false
}

fn sprite_covers_screen_pixel(x: i32, y: i32, sprite_y: i16) -> (r: bool)
    ensures
        r == covers_pixel(x as int, y as int, sprite_y as int),
{
    let mut i: usize = 0;
    while i < OM_NOM_SPAN_COUNT
        invariant
            i <= OM_NOM_SPAN_COUNT, om_nom_spans().len() == OM_NOM_SPAN_COUNT,
            forall|j: int| 0 <= j < i ==> {
                let span = #[trigger] om_nom_spans()[j];
                !(y == sprite_y + span.y && 58 + span.x <= x < 58 + span.x + span.w)
            },
        decreases OM_NOM_SPAN_COUNT - i,
    {
        let span = om_nom_span(i);
        let span_y: i32 = sprite_y as i32 + span.y as i32;
        let span_x: i32 = 58 + span.x as i32;
        if y == span_y && x >= span_x && x < span_x + span.w as i32 {
            return true;
        }
        i += 1;
    }
    false
}

/// What `draw_center_panel` sends: the panel, the title and the subtitle.
pub open spec fn center_panel_cmds(title: Seq<char>, subtitle: Seq<char>) -> Seq<DrawCommand> {
    fill_at_cmds(76, 90, 168, 58, theme::OVERLAY) + centered_at_cmds(76, 104, 168, title, theme::TEXT, 2)
        + centered_at_cmds(76, 132, 168, subtitle, theme::MUTED, 1)
}

fn draw_center_panel<D: DisplaySink>(display: &mut D, title: &str, subtitle: &str)
    ensures
        sent(*old(display), *final(display), center_panel_cmds(title@, subtitle@)),
{
    broadcast use lemma_sent_chain;
    fill_at(display, 76, 90, 168, 58, theme::OVERLAY);
    centered_text_at(display, 76, 104, 168, title, theme::TEXT, 2);
    centered_text_at(display, 76, 132, 168, subtitle, theme::MUTED, 1);
}

/// What `draw_pause_menu` sends: the panel, its title, and the continue
/// and exit rows, the selected one marked.
pub open spec fn pause_menu_cmds(g: FlappyState) -> Seq<DrawCommand> {
    fill_at_cmds(82, 82, 156, 74, theme::OVERLAY) + centered_at_cmds(82, 96, 156, "PAUSED"@, theme::TEXT, 2)
        + pause_row_cmds(102, 124, "CONTINUE"@, g.pause_action == FlappyPauseAction::Continue)
        + pause_row_cmds(102, 140, "EXIT"@, g.pause_action == FlappyPauseAction::Exit)
}

fn draw_pause_menu<D: DisplaySink>(display: &mut D, game: &FlappyGame)
    ensures
        sent(*old(display), *final(display), pause_menu_cmds(game@)),
{
    broadcast use lemma_sent_chain;
    fill_at(display, 82, 82, 156, 74, theme::OVERLAY);
    centered_text_at(display, 82, 96, 156, "PAUSED", theme::TEXT, 2);
    draw_pause_row(display, 102, 124, "CONTINUE", game.pause_action() == FlappyPauseAction::Continue);
    draw_pause_row(display, 102, 140, "EXIT", game.pause_action() == FlappyPauseAction::Exit);
}

/// What `draw_pause_row` sends: the row's bar, in the accent colour when
/// selected, and its label.
pub open spec fn pause_row_cmds(x: int, y: int, label: Seq<char>, selected: bool) -> Seq<DrawCommand> {
    fill_at_cmds(x, y, 116, 13, if selected { theme::ACCENT } else { theme::GRID })
        + text_at_cmds(x + 8, y + 3, label, theme::TEXT, 1)
}

fn draw_pause_row<D: DisplaySink>(display: &mut D, x: i32, y: i32, label: &str, selected: bool)
    requires
        -1000 <= x <= 1000, -1000 <= y <= 1000,
    ensures
        sent(*old(display), *final(display), pause_row_cmds(x as int, y as int, label@, selected)),
{
    broadcast use lemma_sent_chain;
    let color = if selected { theme::ACCENT } else { theme::GRID };
    fill_at(display, x, y, 116, 13, color);
    text_at(display, x + 8, y + 3, label, theme::TEXT, 1);
}

} // verus!
