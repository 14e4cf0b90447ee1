use vstd::prelude::*;
use crate::font::{all_ascii, ascii_chars, capped, decimal_chars, lemma_u32_decimal, TextBuffer};
use crate::mario::{
    fp_to_px, spec_tile_at, MarioEnemy, MarioEnemyType, MarioGame, MarioMode, MarioPauseAction, MarioState, spec_fp_to_px,
    TILE_AIR, TILE_BRICK, TILE_FLAGPOLE, TILE_FLAGPOLE_TOP, TILE_GROUND, TILE_HARD, TILE_PIPE_BL,
    TILE_PIPE_BR, TILE_PIPE_TL, TILE_PIPE_TR, TILE_QUESTION, TILE_USED,
};
use crate::font::text_cmds;
use crate::render::{
    appends, centered_at_cmds, centered_text_at, clear, fill_at, fill_at_cmds, flush, frame_cmds, lemma_frame_cmds, lemma_appends_chain, lemma_frame,
    lemma_sent_appends, lemma_sent_chain, lemma_sent_nothing, lemma_sent_then, sent, sent_frame, text_at,
    text_at_cmds, DisplaySink, DrawCommand,
};
use crate::sprite::{om_nom_cmds, om_nom_palette, om_nom_span, spec_om_nom_palette, OM_NOM_H, OM_NOM_SPAN_COUNT, OM_NOM_W};
use crate::theme;

verus! {

broadcast use lemma_sent_appends, lemma_appends_chain;

/// rgb(92, 148, 252).
pub const SKY: u16 = 0xbf5c;
/// rgb(180, 100, 40).
pub const GROUND: u16 = 0x25b3;
/// rgb(140, 72, 24).
pub const GROUND_DARK: u16 = 0x438a;
/// rgb(200, 100, 40).
pub const BRICK: u16 = 0x25cb;
/// rgb(160, 72, 24).
pub const BRICK_DARK: u16 = 0x43a2;
/// rgb(220, 150, 80).
pub const BRICK_LIGHT: u16 = 0xaadc;
/// rgb(240, 200, 40).
pub const QUESTION: u16 = 0x45f6;
/// rgb(190, 150, 20).
pub const QUESTION_DARK: u16 = 0xa2bc;
/// rgb(100, 80, 60).
pub const USED: u16 = 0x8762;
/// rgb(0, 168, 0).
pub const PIPE_GREEN: u16 = 0x4005;
/// rgb(0, 120, 0).
pub const PIPE_DARK: u16 = 0xc003;
/// rgb(100, 220, 100).
pub const PIPE_LIGHT: u16 = 0xec66;
/// rgb(140, 140, 160).
pub const HARD: u16 = 0x748c;
/// rgb(100, 100, 120).
pub const HARD_DARK: u16 = 0x2f63;
/// rgb(120, 120, 120).
pub const POLE: u16 = 0xcf7b;
/// rgb(200, 200, 80).
pub const POLE_TOP: u16 = 0x4ace;
/// rgb(220, 40, 40).
pub const FLAG_RED: u16 = 0x45d9;
/// rgb(72, 170, 0).
pub const CHOMP_BODY: u16 = 0x404d;
/// rgb(40, 100, 0).
pub const CHOMP_DARK: u16 = 0x202b;
/// rgb(255, 255, 240).
pub const CHOMP_EYE_WHITE: u16 = 0xfeff;
/// rgb(200, 30, 0).
pub const CHOMP_EYE_RED: u16 = 0xe0c8;
/// rgb(255, 255, 255).
pub const CHOMP_TEETH: u16 = 0xffff;
/// rgb(50, 30, 10).
pub const CHOMP_MOUTH: u16 = 0xe130;
/// rgb(200, 60, 40).
pub const SPIKE_BODY: u16 = 0xe5c9;
/// rgb(140, 30, 20).
pub const SPIKE_DARK: u16 = 0xe288;
/// rgb(255, 255, 240).
pub const SPIKE_EYE_WHITE: u16 = 0xfeff;
/// rgb(200, 30, 0).
pub const SPIKE_EYE_RED: u16 = 0xe0c8;
/// rgb(180, 80, 50).
pub const SPIKE_SHELL: u16 = 0x86b2;

/// What the last frame showed, to redraw only what changed.
#[derive(Debug, Clone, Copy, PartialEq, Eq)]
pub struct MarioRenderState {
    pub camera_x: i32,
    pub player_x: i16,
    pub player_y: i16,
    pub score: u32,
    pub coins: u32,
    pub lives: u32,
    pub invincible_ticks: u8,
    pub enemies: [MarioEnemy; 16],
    pub enemy_count: usize,
}

/// `r` holds what `capture` takes from the game `g`.
pub open spec fn captured(r: MarioRenderState, g: MarioState) -> bool {
    &&& r.camera_x == g.camera_x
    &&& r.player_x == spec_fp_to_px(g.player.x)
    &&& r.player_y == spec_fp_to_px(g.player.y)
    &&& r.score == g.score
    &&& r.coins == g.coins
    &&& r.lives == g.lives
    &&& r.invincible_ticks == g.invincible_ticks
    &&& r.enemies@ == g.enemies
    &&& r.enemy_count == g.enemy_count
}

impl MarioRenderState {
    pub fn capture(game: &MarioGame) -> (r: Self)
        ensures
            captured(r, game@),
            r.camera_x == game@.camera_x,
            r.player_x == spec_fp_to_px(game@.player.x),
            r.player_y == spec_fp_to_px(game@.player.y),
            r.score == game@.score,
            r.coins == game@.coins,
            r.lives == game@.lives,
            r.invincible_ticks == game@.invincible_ticks,
            r.enemies@ == game@.enemies,
            r.enemy_count == game@.enemy_count,
    {
        MarioRenderState {
            camera_x: game.camera_x(),
            player_x: fp_to_px(game.player().x),
            player_y: fp_to_px(game.player().y),
            score: game.score(),
            coins: game.coins(),
            lives: game.lives(),
            invincible_ticks: game.invincible_ticks(),
            enemies: *game.enemies(),
            enemy_count: game.enemy_count(),
        }
    }
}

/// Whether a play frame has anything new to show since `previous`.
pub open spec fn play_changed(s: MarioState, previous: MarioRenderState) -> bool {
    ||| s.camera_x != previous.camera_x
    ||| spec_fp_to_px(s.player.x) != previous.player_x
    ||| spec_fp_to_px(s.player.y) != previous.player_y
    ||| s.score != previous.score
    ||| s.coins != previous.coins
    ||| s.lives != previous.lives
}

/// The panel for the mode: the title panel when ready, the pause menu, the
/// game-over or level-clear panel, and none in play or while dying.
pub open spec fn mode_panel_cmds(s: MarioState) -> Seq<DrawCommand> {
    match s.mode {
        MarioMode::Ready => center_panel_cmds("Super Om Nomario"@, "PRESS TO START"@),
        MarioMode::Paused => pause_menu_cmds(s),
        MarioMode::GameOver => center_panel_cmds("GAME OVER"@, "PRESS TO RETRY"@),
        MarioMode::LevelComplete => center_panel_cmds("LEVEL CLEAR!"@, "WELL DONE"@),
        _ => Seq::empty(),
    }
}

/// What `render` draws after clearing to the sky: the level's tiles, the
/// pole, the enemies, the player, the flag, the HUD and the mode's panel.
pub open spec fn screen_cmds(s: MarioState) -> Seq<DrawCommand> {
    tiles_cmds(s) + flagpole_cmds(s) + enemies_cmds(s, s.enemy_count as int) + player_cmds(s, false) + flag_cmds(s)
        + hud_cmds(s) + mode_panel_cmds(s)
}

/// The whole screen: sky, level, enemies, player, flag and HUD, and the
/// panel for the mode, as one frame.
#[verifier::spinoff_prover]
pub fn render<D: DisplaySink>(display: &mut D, game: &MarioGame)
    requires
        crate::mario::mario_valid(game@),
    ensures
        sent(*old(display), *final(display), frame_cmds(SKY, screen_cmds(game@))),
        sent_frame(*old(display), *final(display), SKY),
{
    let ghost d0 = *display;
    clear(display, SKY);
    draw_tiles(display, game);
    draw_flagpole_separate(display, game);
    draw_enemies(display, game);
    draw_player_at(display, game, false);
    draw_flag(display, game);
    draw_hud(display, game);
    match game.mode() {
        MarioMode::Ready => draw_center_panel(display, "Super Om Nomario", "PRESS TO START"),
        MarioMode::Paused => draw_pause_menu(display, game),
        MarioMode::GameOver => draw_center_panel(display, "GAME OVER", "PRESS TO RETRY"),
        MarioMode::LevelComplete => draw_center_panel(display, "LEVEL CLEAR!", "WELL DONE"),
        _ => {},
    }
    flush(display);
    proof {
        if d0.records() {
            assert(display.drawn() =~= d0.drawn() + frame_cmds(SKY, screen_cmds(game@)));
        }
        lemma_frame_cmds(d0, *display, SKY, screen_cmds(game@));
    }
}

/// What `render_play_delta` sends: nothing when nothing changed; else the
/// play area redrawn (sky, tiles, pole, enemies) after a camera move, or
/// the player's old place cleared after a move of the player alone; then
/// the player (blinking while invincible), the flag, the HUD when a count
/// changed, and a flush.
pub open spec fn play_delta_cmds(s: MarioState, previous: MarioRenderState) -> Seq<DrawCommand> {
    let player_moved = spec_fp_to_px(s.player.x) != previous.player_x || spec_fp_to_px(s.player.y) != previous.player_y;
    let hud_changed = s.score != previous.score || s.coins != previous.coins || s.lives != previous.lives;
    let cam_changed = s.camera_x != previous.camera_x;
    if !cam_changed && !player_moved && !hud_changed {
        Seq::empty()
    } else {
        (if cam_changed {
            fill_at_cmds(0, 16, 320, 224, SKY) + tiles_cmds(s) + flagpole_cmds(s) + enemies_cmds(s, s.enemy_count as int)
        } else if player_moved {
            fill_at_cmds(previous.player_x - (previous.camera_x as i16), previous.player_y as int, 18, 18, SKY)
        } else {
            Seq::empty()
        }) + player_cmds(s, true) + flag_cmds(s) + (if hud_changed { hud_cmds(s) } else { Seq::empty() })
            + seq![DrawCommand::Flush]
    }
}

/// Redraws what changed since `previous` during play: everything below the
/// HUD when the camera moved, else the player (erasing its old place); the
/// HUD when a count changed. Nothing is sent when nothing changed.
#[verifier::spinoff_prover]
#[verifier::rlimit(50)]
pub fn render_play_delta<D: DisplaySink>(display: &mut D, game: &MarioGame, previous: MarioRenderState)
    requires
        crate::mario::mario_valid(game@),
    ensures
        sent(*old(display), *final(display), play_delta_cmds(game@, previous)),
        !play_changed(game@, previous) ==> *final(display) == *old(display),
{
    let ghost d0 = *display;
    let cam_x = game.camera_x();
    let px = fp_to_px(game.player().x);
    let py = fp_to_px(game.player().y);
    let player_moved = px != previous.player_x || py != previous.player_y;
    let hud_changed = game.score() != previous.score || game.coins() != previous.coins || game.lives() != previous.lives;
    let cam_changed = cam_x != previous.camera_x;

    if !cam_changed && !player_moved && !hud_changed {
        proof { lemma_sent_nothing(d0); }
        return;
    }

    // After a camera move the whole play area is redrawn: patching only the
    // uncovered strip left the old sprite behind in the sky.
    if cam_changed {
        fill_at(display, 0, 16, 320, 224, SKY);
        draw_tiles(display, game);
        draw_flagpole_separate(display, game);
        draw_enemies(display, game);
    } else if player_moved {
        #[verifier::truncate]
        let prev_cam = previous.camera_x as i16;
        let prev_screen_x: i32 = previous.player_x as i32 - prev_cam as i32;
        fill_at(display, prev_screen_x, previous.player_y as i32, OM_NOM_W as i32, OM_NOM_H as i32, SKY);
    }
    draw_player_at(display, game, true);
    draw_flag(display, game);
    if hud_changed {
        draw_hud(display, game);
    }
    flush(display);
    proof {
        if d0.records() {
            assert(display.drawn() =~= d0.drawn() + play_delta_cmds(game@, previous));
        }
    }
}

/// The camera position as the renderer uses it: its low 16 bits.
pub open spec fn spec_camera(s: MarioState) -> int {
    (s.camera_x as i16) as int
}

/// The camera position as the renderer uses it: 16 bits.
fn camera(game: &MarioGame) -> (r: i32)
    ensures
        -32768 <= r <= 32767,
        r == spec_camera(game@),
{
    #[verifier::truncate]
    let cam = game.camera_x() as i16;
    cam as i32
}

/// A tile the renderer draws itself: not air, and not the flagpole, which
/// is drawn apart.
pub open spec fn drawn_tile(t: u8) -> bool {
    t != TILE_AIR && t != TILE_FLAGPOLE && t != TILE_FLAGPOLE_TOP
}

/// The first `rows` rows of level column `col`, drawn at screen column
/// `sx`.
pub open spec fn column_rows_cmds(s: MarioState, col: int, sx: i16, rows: int) -> Seq<DrawCommand>
    decreases rows,
{
    if rows <= 0 {
        Seq::empty()
    } else {
        let t = spec_tile_at(s.tiles, rows - 1, col);
        column_rows_cmds(s, col, sx, rows - 1)
            + if drawn_tile(t) { tile_cmds(sx as int, 16 + (rows - 1) * 16, t) } else { Seq::empty() }
    }
}

/// Level column `col` where the camera puts it, when any of it shows.
pub open spec fn column_cmds(s: MarioState, col: int) -> Seq<DrawCommand> {
    let sx = (col * 16 - spec_camera(s)) as i16;
    if -16 <= sx && sx <= 319 { column_rows_cmds(s, col, sx, 14) } else { Seq::empty() }
}

/// Level columns `from` up to before `to`.
pub open spec fn columns_cmds(s: MarioState, from: int, to: int) -> Seq<DrawCommand>
    decreases to - from,
{
    if to <= from { Seq::empty() } else { columns_cmds(s, from, to - 1) + column_cmds(s, to - 1) }
}

/// `v / 16` rounded toward zero.
pub open spec fn div16(v: int) -> int {
    if v >= 0 { v / 16 } else { -((-v) / 16) }
}

/// What `draw_tiles` sends: the level columns the camera can show, from
/// the first (not before column 0) to the last (not past column 199).
pub open spec fn tiles_cmds(s: MarioState) -> Seq<DrawCommand> {
    let cam = spec_camera(s);
    let first = div16(cam);
    let last = div16(cam + 319 + 15);
    let col_start = if first > 0 { first } else { 0 };
    let col_end = if last < 199 { last } else { 199 };
    columns_cmds(s, col_start, col_end + 1)
}

fn draw_tiles<D: DisplaySink>(display: &mut D, game: &MarioGame)
    ensures
        sent(*old(display), *final(display), tiles_cmds(game@)),
{
    let ghost d0 = *display;
    let cam = camera(game);
    let first: i32 = if cam >= 0 { cam / 16 } else { -((-cam) / 16) };
    let col_start: i32 = if first > 0 { first } else { 0 };
    let last_px: i32 = cam + 319 + 15;
    let last: i32 = if last_px >= 0 { last_px / 16 } else { -((-last_px) / 16) };
    let col_end: i32 = if last < 199 { last } else { 199 };
    let mut col: i32 = col_start;
    proof { lemma_sent_nothing(d0); }
    while col <= col_end
        invariant
            0 <= col_start <= col, col_end <= 199, -32768 <= cam <= 32767, cam == spec_camera(game@),
            col <= col_end + 1 || col == col_start,
            sent(d0, *display, columns_cmds(game@, col_start as int, col as int)),
        decreases col_end - col + 1,
    {
        let ghost before_col = *display;
        let ghost done = columns_cmds(game@, col_start as int, col as int);
        #[verifier::truncate]
        let screen_x = (col * 16 - cam) as i16;
        if -16 <= screen_x && screen_x <= 319 {
            let mut row: i16 = 0;
            proof {
                lemma_sent_nothing(before_col);
                assert(done + column_rows_cmds(game@, col as int, screen_x, 0) =~= done);
            }
            while row < 14
                invariant
                    0 <= row <= 14, 0 <= col <= 199,
                    sent(d0, *display, done + column_rows_cmds(game@, col as int, screen_x, row as int)),
                decreases 14 - row,
            {
                let ghost before = *display;
                let ghost part = column_rows_cmds(game@, col as int, screen_x, row as int);
                let tile = game.tile_at(row, col as i16);
                let ghost step = if drawn_tile(tile) { tile_cmds(screen_x as int, 16 + row * 16, tile) } else { Seq::empty() };
                if tile != TILE_AIR && tile != TILE_FLAGPOLE && tile != TILE_FLAGPOLE_TOP {
                    draw_tile(display, screen_x, 16 + row * 16, tile);
                } else {
                    proof { lemma_sent_nothing(before); }
                }
                proof {
                    lemma_sent_then(d0, before, *display, done + part, step);
                    assert((done + part) + step =~= done + (part + step));
                }
                row += 1;
            }
        } else {
            proof { assert(done + Seq::<DrawCommand>::empty() =~= done); }
        }
        proof {
            assert(columns_cmds(game@, col_start as int, col as int + 1) == done + column_cmds(game@, col as int));
        }
        col += 1;
    }
}

/// What `draw_tile` sends for a tile whose top-left corner is at (x, y).
pub open spec fn tile_cmds(x: int, y: int, tile: u8) -> Seq<DrawCommand> {
    if tile == TILE_GROUND {
        fill_at_cmds(x, y, 16, 16, GROUND) + fill_at_cmds(x, y, 16, 2, GROUND_DARK)
            + fill_at_cmds(x, y + 8, 16, 1, GROUND_DARK)
    } else if tile == TILE_BRICK {
        fill_at_cmds(x, y, 16, 16, BRICK) + fill_at_cmds(x, y, 16, 1, BRICK_DARK)
            + fill_at_cmds(x + 7, y, 2, 16, BRICK_DARK) + fill_at_cmds(x, y + 7, 16, 2, BRICK_DARK)
            + fill_at_cmds(x + 3, y + 3, 4, 4, BRICK_LIGHT) + fill_at_cmds(x + 10, y + 10, 4, 4, BRICK_LIGHT)
    } else if tile == TILE_QUESTION {
        fill_at_cmds(x, y, 16, 16, QUESTION) + fill_at_cmds(x, y, 16, 1, QUESTION_DARK)
            + fill_at_cmds(x, y + 15, 16, 1, QUESTION_DARK) + fill_at_cmds(x, y, 1, 16, QUESTION_DARK)
            + fill_at_cmds(x + 15, y, 1, 16, QUESTION_DARK)
            + text_cmds((x + 5) as i16, (y + 4) as i16, "?"@, QUESTION_DARK, 1)
    } else if tile == TILE_USED {
        fill_at_cmds(x, y, 16, 16, USED) + fill_at_cmds(x, y, 16, 1, theme::MUTED)
            + fill_at_cmds(x, y + 15, 16, 1, theme::MUTED)
    } else if tile == TILE_PIPE_TL {
        fill_at_cmds(x, y, 16, 16, PIPE_GREEN) + fill_at_cmds(x, y + 2, 14, 14, PIPE_LIGHT)
            + fill_at_cmds(x, y, 16, 2, PIPE_DARK) + fill_at_cmds(x + 15, y, 1, 16, PIPE_DARK)
    } else if tile == TILE_PIPE_TR {
        fill_at_cmds(x, y, 16, 16, PIPE_GREEN) + fill_at_cmds(x + 2, y + 2, 14, 14, PIPE_LIGHT)
            + fill_at_cmds(x, y, 16, 2, PIPE_DARK) + fill_at_cmds(x, y, 1, 16, PIPE_DARK)
    } else if tile == TILE_PIPE_BL {
        fill_at_cmds(x, y, 16, 16, PIPE_GREEN) + fill_at_cmds(x, y, 16, 16, PIPE_LIGHT)
            + fill_at_cmds(x + 15, y, 1, 16, PIPE_DARK)
    } else if tile == TILE_PIPE_BR {
        fill_at_cmds(x, y, 16, 16, PIPE_GREEN) + fill_at_cmds(x, y, 16, 16, PIPE_LIGHT)
            + fill_at_cmds(x, y, 1, 16, PIPE_DARK)
    } else if tile == TILE_HARD {
        fill_at_cmds(x, y, 16, 16, HARD) + fill_at_cmds(x, y, 16, 1, HARD_DARK)
            + fill_at_cmds(x, y + 15, 16, 1, HARD_DARK) + fill_at_cmds(x, y, 1, 16, HARD_DARK)
            + fill_at_cmds(x + 15, y, 1, 16, HARD_DARK)
    } else {
        Seq::empty()
    }
}

/// One level tile with its shading; air draws nothing.
pub fn draw_tile<D: DisplaySink>(display: &mut D, x: i16, y: i16, tile: u8)
    ensures
        sent(*old(display), *final(display), tile_cmds(x as int, y as int, tile)),
{
    let ghost d0 = *display;
    let x: i32 = x as i32;
    let y: i32 = y as i32;
    if tile == TILE_GROUND {
        fill_at(display, x, y, 16, 16, GROUND);
        fill_at(display, x, y, 16, 2, GROUND_DARK);
        fill_at(display, x, y + 8, 16, 1, GROUND_DARK);
    } else if tile == TILE_BRICK {
        fill_at(display, x, y, 16, 16, BRICK);
        fill_at(display, x, y, 16, 1, BRICK_DARK);
        fill_at(display, x + 7, y, 2, 16, BRICK_DARK);
        fill_at(display, x, y + 7, 16, 2, BRICK_DARK);
        fill_at(display, x + 3, y + 3, 4, 4, BRICK_LIGHT);
        fill_at(display, x + 10, y + 10, 4, 4, BRICK_LIGHT);
    } else if tile == TILE_QUESTION {
        fill_at(display, x, y, 16, 16, QUESTION);
        fill_at(display, x, y, 16, 1, QUESTION_DARK);
        fill_at(display, x, y + 15, 16, 1, QUESTION_DARK);
        fill_at(display, x, y, 1, 16, QUESTION_DARK);
        fill_at(display, x + 15, y, 1, 16, QUESTION_DARK);
        text_at(display, x + 5, y + 4, "?", QUESTION_DARK, 1);
    } else if tile == TILE_USED {
        fill_at(display, x, y, 16, 16, USED);
        fill_at(display, x, y, 16, 1, theme::MUTED);
        fill_at(display, x, y + 15, 16, 1, theme::MUTED);
    } else if tile == TILE_PIPE_TL {
        fill_at(display, x, y, 16, 16, PIPE_GREEN);
        fill_at(display, x, y + 2, 14, 14, PIPE_LIGHT);
        fill_at(display, x, y, 16, 2, PIPE_DARK);
        fill_at(display, x + 15, y, 1, 16, PIPE_DARK);
    } else if tile == TILE_PIPE_TR {
        fill_at(display, x, y, 16, 16, PIPE_GREEN);
        fill_at(display, x + 2, y + 2, 14, 14, PIPE_LIGHT);
        fill_at(display, x, y, 16, 2, PIPE_DARK);
        fill_at(display, x, y, 1, 16, PIPE_DARK);
    } else if tile == TILE_PIPE_BL {
        fill_at(display, x, y, 16, 16, PIPE_GREEN);
        fill_at(display, x, y, 16, 16, PIPE_LIGHT);
        fill_at(display, x + 15, y, 1, 16, PIPE_DARK);
    } else if tile == TILE_PIPE_BR {
        fill_at(display, x, y, 16, 16, PIPE_GREEN);
        fill_at(display, x, y, 16, 16, PIPE_LIGHT);
        fill_at(display, x, y, 1, 16, PIPE_DARK);
    } else if tile == TILE_HARD {
        fill_at(display, x, y, 16, 16, HARD);
        fill_at(display, x, y, 16, 1, HARD_DARK);
        fill_at(display, x, y + 15, 16, 1, HARD_DARK);
        fill_at(display, x, y, 1, 16, HARD_DARK);
        fill_at(display, x + 15, y, 1, 16, HARD_DARK);
    }
    proof {
        if d0.records() {
            assert(display.drawn() =~= d0.drawn() + tile_cmds(x as int, y as int, tile));
        }
    }
}

/// Where the flagpole's column shows on screen.
pub open spec fn flag_sx(s: MarioState) -> i16 {
    (3136 - spec_camera(s)) as i16
}

/// Pole segments in rows 2 up to before `rows`, at pole column `psx`.
pub open spec fn pole_cmds(psx: int, rows: int) -> Seq<DrawCommand>
    decreases rows,
{
    if rows <= 2 { Seq::empty() } else { pole_cmds(psx, rows - 1) + fill_at_cmds(psx, 16 + (rows - 1) * 16, 2, 16, POLE) }
}

/// What `draw_flagpole_separate` sends: nothing when the pole is off
/// screen; else its segments from row 2 to row 12 and its knob.
pub open spec fn flagpole_cmds(s: MarioState) -> Seq<DrawCommand> {
    let sx = flag_sx(s);
    if sx < -16 || sx > 320 {
        Seq::empty()
    } else {
        pole_cmds(sx + 7, 13) + fill_at_cmds(sx + 5, 46, 6, 4, POLE_TOP)
    }
}

fn draw_flagpole_separate<D: DisplaySink>(display: &mut D, game: &MarioGame)
    ensures
        sent(*old(display), *final(display), flagpole_cmds(game@)),
{
    let ghost d0 = *display;
    let cam = camera(game);
    #[verifier::truncate]
    let sx = (3136 - cam) as i16;
    proof { lemma_sent_nothing(d0); }
    if sx < -16 || sx > 320 {
        return;
    }
    let psx: i32 = sx as i32 + 7;
    let mut row: i32 = 2;
    while row < 13
        invariant
            2 <= row <= 13, -16 <= psx - 7 <= 320,
            sent(d0, *display, pole_cmds(psx as int, row as int)),
        decreases 13 - row,
    {
        let ghost before = *display;
        fill_at(display, psx, 16 + row * 16, 2, 16, POLE);
        proof {
            lemma_sent_then(d0, before, *display, pole_cmds(psx as int, row as int),
                fill_at_cmds(psx as int, 16 + row * 16, 2, 16, POLE));
        }
        row += 1;
    }
    let ghost before_top = *display;
    fill_at(display, psx - 2, 46, 6, 4, POLE_TOP);
    proof {
        lemma_sent_then(d0, before_top, *display, pole_cmds(psx as int, 13), fill_at_cmds(psx - 2, 46, 6, 4, POLE_TOP));
    }
}

/// Enemy `e` where the camera puts it, when it is alive, not stomped and
/// near enough to the screen.
pub open spec fn one_enemy_cmds(s: MarioState, e: MarioEnemy) -> Seq<DrawCommand> {
    let ex = (spec_fp_to_px(e.x) - spec_camera(s)) as i16;
    if e.alive && !e.stomped && -40 <= ex && ex <= 360 {
        enemy_cmds(ex as int, spec_fp_to_px(e.y) as int, e.enemy_type)
    } else {
        Seq::empty()
    }
}

/// The first `n` enemies.
pub open spec fn enemies_cmds(s: MarioState, n: int) -> Seq<DrawCommand>
    decreases n,
{
    if n <= 0 { Seq::empty() } else { enemies_cmds(s, n - 1) + one_enemy_cmds(s, s.enemies[n - 1]) }
}

fn draw_enemies<D: DisplaySink>(display: &mut D, game: &MarioGame)
    requires
        crate::mario::mario_valid(game@),
    ensures
        sent(*old(display), *final(display), enemies_cmds(game@, game@.enemy_count as int)),
{
    let ghost d0 = *display;
    let cam = camera(game);
    let count = game.enemy_count();
    let mut i: usize = 0;
    proof { lemma_sent_nothing(d0); }
    while i < count
        invariant
            i <= count, count == game@.enemy_count, count <= 16, -32768 <= cam <= 32767,
            cam == spec_camera(game@),
            game@.enemies.len() == 16,
            sent(d0, *display, enemies_cmds(game@, i as int)),
        decreases count - i,
    {
        let ghost before = *display;
        let enemy = game.enemies()[i];
        if enemy.alive && !enemy.stomped {
            #[verifier::truncate]
            let ex = (fp_to_px(enemy.x) as i32 - cam) as i16;
            if -40 <= ex && ex <= 360 {
                let ey = fp_to_px(enemy.y);
                draw_enemy_sprite(display, ex, ey, enemy.enemy_type);
            } else {
                proof { lemma_sent_nothing(before); }
            }
        } else {
            proof { lemma_sent_nothing(before); }
        }
        proof {
            lemma_sent_then(d0, before, *display, enemies_cmds(game@, i as int), one_enemy_cmds(game@, enemy));
        }
        i += 1;
    }
}

/// What `draw_enemy_sprite` sends for an enemy whose top-left corner is at
/// (x, y).
pub open spec fn enemy_cmds(x: int, y: int, etype: MarioEnemyType) -> Seq<DrawCommand> {
    match etype {
        MarioEnemyType::ChompNom => {
            fill_at_cmds(x + 2, y, 12, 2, CHOMP_DARK)
            + fill_at_cmds(x + 1, y + 2, 14, 2, CHOMP_BODY)
            + fill_at_cmds(x, y + 4, 16, 4, CHOMP_BODY)
            + fill_at_cmds(x + 1, y + 8, 14, 2, CHOMP_BODY)
            + fill_at_cmds(x + 2, y + 10, 12, 1, CHOMP_BODY)
            + fill_at_cmds(x + 7, y + 3, 2, 2, CHOMP_EYE_WHITE)
            + fill_at_cmds(x + 12, y + 3, 2, 2, CHOMP_EYE_WHITE)
            + fill_at_cmds(x + 7, y + 3, 1, 1, CHOMP_EYE_RED)
            + fill_at_cmds(x + 13, y + 3, 1, 1, CHOMP_EYE_RED)
            + fill_at_cmds(x + 3, y + 11, 2, 1, CHOMP_MOUTH)
            + fill_at_cmds(x + 11, y + 11, 2, 1, CHOMP_MOUTH)
            + fill_at_cmds(x + 5, y + 11, 2, 1, CHOMP_TEETH)
            + fill_at_cmds(x + 9, y + 11, 2, 1, CHOMP_TEETH)
            + fill_at_cmds(x + 3, y + 12, 3, 2, CHOMP_DARK)
            + fill_at_cmds(x + 10, y + 12, 3, 2, CHOMP_DARK)
        },
        MarioEnemyType::SpikeNom => {
            fill_at_cmds(x + 6, y, 8, 2, SPIKE_DARK)
            + fill_at_cmds(x + 3, y + 2, 14, 2, SPIKE_DARK)
            + fill_at_cmds(x + 2, y + 4, 16, 2, SPIKE_BODY)
            + fill_at_cmds(x + 1, y + 6, 18, 4, SPIKE_BODY)
            + fill_at_cmds(x, y + 10, 20, 6, SPIKE_BODY)
            + fill_at_cmds(x + 1, y + 16, 18, 4, SPIKE_BODY)
            + fill_at_cmds(x + 2, y + 20, 16, 2, SPIKE_BODY)
            + fill_at_cmds(x + 3, y + 22, 14, 2, SPIKE_DARK)
            + fill_at_cmds(x + 4, y + 7, 4, 3, SPIKE_EYE_WHITE)
            + fill_at_cmds(x + 12, y + 7, 4, 3, SPIKE_EYE_WHITE)
            + fill_at_cmds(x + 5, y + 7, 2, 1, SPIKE_EYE_RED)
            + fill_at_cmds(x + 13, y + 7, 2, 1, SPIKE_EYE_RED)
            + fill_at_cmds(x + 3, y + 13, 14, 2, SPIKE_SHELL)
            + fill_at_cmds(x + 5, y + 15, 10, 1, SPIKE_SHELL)
        },
    }
}

/// An enemy: the green chomper or the red spiky one.
pub fn draw_enemy_sprite<D: DisplaySink>(display: &mut D, x: i16, y: i16, etype: MarioEnemyType)
    ensures
        sent(*old(display), *final(display), enemy_cmds(x as int, y as int, etype)),
{
    let ghost d0 = *display;
    let x: i32 = x as i32;
    let y: i32 = y as i32;
    match etype {
        MarioEnemyType::ChompNom => {
            fill_at(display, x + 2, y, 12, 2, CHOMP_DARK);
            fill_at(display, x + 1, y + 2, 14, 2, CHOMP_BODY);
            fill_at(display, x, y + 4, 16, 4, CHOMP_BODY);
            fill_at(display, x + 1, y + 8, 14, 2, CHOMP_BODY);
            fill_at(display, x + 2, y + 10, 12, 1, CHOMP_BODY);
            fill_at(display, x + 7, y + 3, 2, 2, CHOMP_EYE_WHITE);
            fill_at(display, x + 12, y + 3, 2, 2, CHOMP_EYE_WHITE);
            fill_at(display, x + 7, y + 3, 1, 1, CHOMP_EYE_RED);
            fill_at(display, x + 13, y + 3, 1, 1, CHOMP_EYE_RED);
            fill_at(display, x + 3, y + 11, 2, 1, CHOMP_MOUTH);
            fill_at(display, x + 11, y + 11, 2, 1, CHOMP_MOUTH);
            fill_at(display, x + 5, y + 11, 2, 1, CHOMP_TEETH);
            fill_at(display, x + 9, y + 11, 2, 1, CHOMP_TEETH);
            fill_at(display, x + 3, y + 12, 3, 2, CHOMP_DARK);
            fill_at(display, x + 10, y + 12, 3, 2, CHOMP_DARK);
        },
        MarioEnemyType::SpikeNom => {
            fill_at(display, x + 6, y, 8, 2, SPIKE_DARK);
            fill_at(display, x + 3, y + 2, 14, 2, SPIKE_DARK);
            fill_at(display, x + 2, y + 4, 16, 2, SPIKE_BODY);
            fill_at(display, x + 1, y + 6, 18, 4, SPIKE_BODY);
            fill_at(display, x, y + 10, 20, 6, SPIKE_BODY);
            fill_at(display, x + 1, y + 16, 18, 4, SPIKE_BODY);
            fill_at(display, x + 2, y + 20, 16, 2, SPIKE_BODY);
            fill_at(display, x + 3, y + 22, 14, 2, SPIKE_DARK);
            fill_at(display, x + 4, y + 7, 4, 3, SPIKE_EYE_WHITE);
            fill_at(display, x + 12, y + 7, 4, 3, SPIKE_EYE_WHITE);
            fill_at(display, x + 5, y + 7, 2, 1, SPIKE_EYE_RED);
            fill_at(display, x + 13, y + 7, 2, 1, SPIKE_EYE_RED);
            fill_at(display, x + 3, y + 13, 14, 2, SPIKE_SHELL);
            fill_at(display, x + 5, y + 15, 10, 1, SPIKE_SHELL);
        },
    }
    proof {
        if d0.records() {
            assert(display.drawn() =~= d0.drawn() + enemy_cmds(x as int, y as int, etype));
        }
    }
}

/// What `draw_player_at` sends: the sprite where the camera puts the
/// player, except in a play frame's off phase while invincible.
pub open spec fn player_cmds(s: MarioState, delta: bool) -> Seq<DrawCommand> {
    if delta && s.invincible_ticks > 0 && s.invincible_ticks % 6 < 3 {
        Seq::empty()
    } else {
        om_nom_cmds(spec_fp_to_px(s.player.x) - spec_camera(s), spec_fp_to_px(s.player.y) as int, 26)
    }
}

/// The player sprite; during a play frame it blinks while invincible.
fn draw_player_at<D: DisplaySink>(display: &mut D, game: &MarioGame, delta: bool)
    ensures
        sent(*old(display), *final(display), player_cmds(game@, delta)),
{
    proof { lemma_sent_nothing(*display); }
    let cam = camera(game);
    let px: i32 = fp_to_px(game.player().x) as i32 - cam;
    let py: i32 = fp_to_px(game.player().y) as i32;
    if delta && game.invincible_ticks() > 0 && game.invincible_ticks() % 6 < 3 {
        return;
    }
    let mut i: usize = 0;
    while i < OM_NOM_SPAN_COUNT
        invariant
            i <= OM_NOM_SPAN_COUNT, -65536 <= px <= 65536, -32768 <= py <= 32767,
            sent(*old(display), *display, om_nom_cmds(px as int, py as int, i as int)),
        decreases OM_NOM_SPAN_COUNT - i,
    {
        let ghost before = *display;
        let span = om_nom_span(i);
        fill_at(display, px + span.x as i32, py + span.y as i32, span.w as i32, 1, om_nom_palette(span.palette));
        proof {
            lemma_sent_then(*old(display), before, *display, om_nom_cmds(px as int, py as int, i as int),
                fill_at_cmds(px + span.x, py + span.y, span.w as int, 1, spec_om_nom_palette(span.palette)));
        }
        i += 1;
    }
}

/// What `draw_flag` sends: nothing when the pole is off screen; else the
/// flag with its stripe.
pub open spec fn flag_cmds(s: MarioState) -> Seq<DrawCommand> {
    let sx = flag_sx(s);
    if sx < -16 || sx > 320 {
        Seq::empty()
    } else {
        fill_at_cmds(sx + 8, 96, 10, 8, FLAG_RED) + fill_at_cmds(sx + 8, 98, 10, 1, POLE_TOP)
    }
}

fn draw_flag<D: DisplaySink>(display: &mut D, game: &MarioGame)
    ensures
        sent(*old(display), *final(display), flag_cmds(game@)),
{
    let ghost d0 = *display;
    let cam = camera(game);
    #[verifier::truncate]
    let sx = (3136 - cam) as i16;
    if sx < -16 || sx > 320 {
        proof { lemma_sent_nothing(d0); }
        return;
    }
    let flag_y: i32 = 96;
    fill_at(display, sx as i32 + 8, flag_y, 10, 8, FLAG_RED);
    fill_at(display, sx as i32 + 8, flag_y + 2, 10, 1, POLE_TOP);
    proof {
        if d0.records() {
            assert(display.drawn() =~= d0.drawn() + flag_cmds(game@));
        }
    }
}

/// A label followed by a number, as the HUD shows them.
fn labelled<const N: usize>(label: &str, value: u32) -> (r: TextBuffer<N>)
    requires
        vstd::string::is_ascii(label),
        label@.len() <= N,
    ensures
        all_ascii(r.text()),
        ascii_chars(r.text()) == capped(label@ + decimal_chars(value as nat), N as nat),
{
    TextBuffer::<N>::labelled_capped(label, value)
}

/// What `draw_hud` sends: the bar with the score, coins, lives and best
/// score (the coins and lives texts cut off after 12 characters).
pub open spec fn hud_cmds(s: MarioState) -> Seq<DrawCommand> {
    fill_at_cmds(0, 0, 320, 16, theme::HUD) + text_at_cmds(8, 4, "SCORE "@ + decimal_chars(s.score as nat), theme::TEXT, 1)
        + text_at_cmds(108, 4, capped("COINS "@ + decimal_chars(s.coins as nat), 12), theme::TEXT, 1)
        + text_at_cmds(200, 4, capped("LIVES "@ + decimal_chars(s.lives as nat), 12), theme::TEXT, 1)
        + text_at_cmds(260, 4, "BEST "@ + decimal_chars(s.best_score as nat), theme::MUTED, 1)
}

/// The HUD bar: score, coins, lives and best score.
fn draw_hud<D: DisplaySink>(display: &mut D, game: &MarioGame)
    ensures
        sent(*old(display), *final(display), hud_cmds(game@)),
{
    broadcast use lemma_sent_chain;
    proof {
        reveal_strlit("SCORE ");
        reveal_strlit("COINS ");
        reveal_strlit("LIVES ");
        reveal_strlit("BEST ");
        lemma_u32_decimal(game@.score);
        lemma_u32_decimal(game@.best_score);
    }
    fill_at(display, 0, 0, 320, 16, theme::HUD);
    let score = labelled::<16>("SCORE ", game.score());
    text_at(display, 8, 4, score.as_str(), theme::TEXT, 1);
    let coins = labelled::<12>("COINS ", game.coins());
    text_at(display, 108, 4, coins.as_str(), theme::TEXT, 1);
    let lives = labelled::<12>("LIVES ", game.lives());
    text_at(display, 200, 4, lives.as_str(), theme::TEXT, 1);
    let best = labelled::<16>("BEST ", game.best_score());
    text_at(display, 260, 4, best.as_str(), theme::MUTED, 1);
}

/// What `draw_center_panel` sends: the panel, the title and the subtitle.
pub open spec fn center_panel_cmds(title: Seq<char>, subtitle: Seq<char>) -> Seq<DrawCommand> {
    fill_at_cmds(60, 80, 200, 70, theme::OVERLAY) + centered_at_cmds(60, 96, 200, title, theme::TEXT, 2)
        + centered_at_cmds(60, 126, 200, subtitle, theme::MUTED, 1)
}

fn draw_center_panel<D: DisplaySink>(display: &mut D, title: &str, subtitle: &str)
    ensures
        sent(*old(display), *final(display), center_panel_cmds(title@, subtitle@)),
{
    broadcast use lemma_sent_chain;
    fill_at(display, 60, 80, 200, 70, theme::OVERLAY);
    centered_text_at(display, 60, 96, 200, title, theme::TEXT, 2);
    centered_text_at(display, 60, 126, 200, subtitle, theme::MUTED, 1);
}

/// What `draw_pause_menu` sends: the panel, its title, and the continue
/// and exit rows, the selected one marked.
pub open spec fn pause_menu_cmds(s: MarioState) -> Seq<DrawCommand> {
    fill_at_cmds(82, 82, 156, 74, theme::OVERLAY) + centered_at_cmds(82, 96, 156, "PAUSED"@, theme::TEXT, 2)
        + pause_row_cmds(102, 124, "CONTINUE"@, s.pause_action == MarioPauseAction::Continue)
        + pause_row_cmds(102, 140, "EXIT"@, s.pause_action == MarioPauseAction::Exit)
}

fn draw_pause_menu<D: DisplaySink>(display: &mut D, game: &MarioGame)
    ensures
        sent(*old(display), *final(display), pause_menu_cmds(game@)),
{
    broadcast use lemma_sent_chain;
    fill_at(display, 82, 82, 156, 74, theme::OVERLAY);
    centered_text_at(display, 82, 96, 156, "PAUSED", theme::TEXT, 2);
    draw_pause_row(display, 102, 124, "CONTINUE", game.pause_action() == MarioPauseAction::Continue);
    draw_pause_row(display, 102, 140, "EXIT", game.pause_action() == MarioPauseAction::Exit);
}

/// What `draw_pause_row` sends: the row's bar, in the accent colour when
/// selected, and its label.
pub open spec fn pause_row_cmds(x: int, y: int, label: Seq<char>, selected: bool) -> Seq<DrawCommand> {
    fill_at_cmds(x, y, 116, 13, if selected { theme::ACCENT } else { theme::GRID })
        + text_at_cmds(x + 8, y + 3, label, theme::TEXT, 1)
}

fn draw_pause_row<D: DisplaySink>(display: &mut D, x: i16, y: i16, label: &str, selected: bool)
    ensures
        sent(*old(display), *final(display), pause_row_cmds(x as int, y as int, label@, selected)),
{
    broadcast use lemma_sent_chain;
    let color = if selected { theme::ACCENT } else { theme::GRID };
    let x: i32 = x as i32;
    let y: i32 = y as i32;
    fill_at(display, x, y, 116, 13, color);
    text_at(display, x + 8, y + 3, label, theme::TEXT, 1);
}

} // verus!
