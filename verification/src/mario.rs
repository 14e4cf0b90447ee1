use vstd::prelude::*;
use crate::config::trunc_div;
use crate::store::HighScoreStore;

verus! {

pub const TILE_SIZE: i16 = 16;
pub const LEVEL_COLS: i16 = 200;
pub const LEVEL_ROWS: i16 = 14;
/// `LEVEL_COLS * LEVEL_ROWS`.
pub const TILES_TOTAL: usize = 2800;
pub const GAME_AREA_Y: i16 = 16;
/// `LEVEL_COLS * TILE_SIZE - 320`.
pub const MAX_CAMERA_X: i16 = 2880;

pub const PLAYER_W: i16 = 24;
pub const PLAYER_H: i16 = 24;

pub const MAX_ENEMIES: usize = 16;

pub const FP_SHIFT: i32 = 8;
pub const FP_ONE: i32 = 256;
pub const GRAVITY: i32 = 52;
pub const JUMP_VEL: i32 = -480;
/// `2 * FP_ONE`.
pub const MOVE_SPEED: i32 = 512;
pub const MAX_FALL: i32 = 600;
pub const JUMP_HOLD_TICKS_MAX: u8 = 8;
pub const TICK_US: i64 = 16_666;
pub const START_LIVES: u32 = 3;
pub const INVINCIBLE_TICKS: u8 = 60;

pub const TILE_AIR: u8 = 0;
pub const TILE_GROUND: u8 = 1;
pub const TILE_BRICK: u8 = 2;
pub const TILE_QUESTION: u8 = 3;
pub const TILE_USED: u8 = 4;
pub const TILE_PIPE_TL: u8 = 5;
pub const TILE_PIPE_TR: u8 = 6;
pub const TILE_PIPE_BL: u8 = 7;
pub const TILE_PIPE_BR: u8 = 8;
pub const TILE_FLAGPOLE: u8 = 9;
pub const TILE_FLAGPOLE_TOP: u8 = 10;
pub const TILE_HARD: u8 = 11;

#[derive(Debug, Clone, Copy, PartialEq, Eq, Structural)]
pub enum MarioMode {
    Ready,
    Playing,
    Paused,
    Dying,
    LevelComplete,
    GameOver,
}

#[derive(Debug, Clone, Copy, PartialEq, Eq, Structural)]
pub enum MarioPauseAction {
    Continue,
    Exit,
}

#[derive(Debug, Clone, Copy, PartialEq, Eq, Structural)]
pub enum MarioEnemyType {
    ChompNom,
    SpikeNom,
}

pub open spec fn spec_enemy_w(t: MarioEnemyType) -> i16 {
    match t {
        MarioEnemyType::ChompNom => 16,
        MarioEnemyType::SpikeNom => 20,
    }
}

pub open spec fn spec_enemy_h(t: MarioEnemyType) -> i16 {
    match t {
        MarioEnemyType::ChompNom => 14,
        MarioEnemyType::SpikeNom => 24,
    }
}

impl MarioEnemyType {
    /// Width in pixels.
    pub fn w(self) -> (r: i16)
        ensures
            r == spec_enemy_w(self),
    {
        match self {
            MarioEnemyType::ChompNom => 16,
            MarioEnemyType::SpikeNom => 20,
        }
    }

    /// Height in pixels.
    pub fn h(self) -> (r: i16)
        ensures
            r == spec_enemy_h(self),
    {
        match self {
            MarioEnemyType::ChompNom => 14,
            MarioEnemyType::SpikeNom => 24,
        }
    }
}

/// The player; positions and speeds are in 1/256 pixel.
#[derive(Debug, Clone, Copy, PartialEq, Eq, Structural)]
pub struct Player {
    pub x: i32,
    pub y: i32,
    pub vx: i32,
    pub vy: i32,
    pub on_ground: bool,
    pub facing_left: bool,
}

/// An enemy; positions and speeds are in 1/256 pixel, `spawn_x` in pixels.
#[derive(Debug, Clone, Copy, PartialEq, Eq, Structural)]
pub struct MarioEnemy {
    pub x: i32,
    pub y: i32,
    pub vx: i32,
    pub spawn_x: i32,
    pub alive: bool,
    pub stomped: bool,
    pub shell_timer: i16,
    pub enemy_type: MarioEnemyType,
}

// ---------------------------------------------------------------------------
// Arithmetic helpers.

/// Fixed point to pixels: an arithmetic shift, kept to 16 bits.
pub open spec fn spec_fp_to_px(v: i32) -> i16 {
    (v as int / 256) as i16
}

/// The tile column or row of a pixel coordinate.
pub open spec fn spec_px_to_tile(px: int) -> i16 {
    trunc_div(px, 16) as i16
}

pub open spec fn clamp(v: int, lo: int, hi: int) -> int {
    if v < lo { lo } else if v > hi { hi } else { v }
}

pub open spec fn add32(a: i32, b: i32) -> i32 {
    vstd::wrapping::i32_specs::wrapping_add(a, b)
}

pub open spec fn sub32(a: i32, b: i32) -> i32 {
    vstd::wrapping::i32_specs::wrapping_sub(a, b)
}

pub open spec fn bump_u32(a: u32, b: u32) -> u32 {
    vstd::wrapping::u32_specs::wrapping_add(a, b)
}

/// Fixed point to whole pixels.
pub fn fp_to_px(v: i32) -> (r: i16)
    ensures
        r == spec_fp_to_px(v),
{
    let q: i32 = if v >= 0 { v / 256 } else { -((-(v as i64) + 255) / 256) as i32 };
    proof {
        if v < 0 {
            let a = -(v as int);
            assert(q == -((a + 255) / 256));
            assert((v as int) / 256 == -((a + 255) / 256)) by {
                vstd::arithmetic::div_mod::lemma_fundamental_div_mod(a + 255, 256);
                vstd::arithmetic::div_mod::lemma_fundamental_div_mod_converse(v as int, 256,
                    -((a + 255) / 256), (v as int) + 256 * ((a + 255) / 256));
            }
        }
    }
    #[verifier::truncate]
    (q as i16)
}

fn px_to_tile(px: i32) -> (r: i16)
    ensures
        r == spec_px_to_tile(px as int),
{
    let q: i32 = if px >= 0 { px / 16 } else { -((-(px as i64)) / 16) as i32 };
    #[verifier::truncate]
    (q as i16)
}

// ---------------------------------------------------------------------------
// The level.

pub open spec fn spec_is_solid(tile: u8) -> bool {
    1 <= tile <= 11
}

/// Tiles that block movement: everything but air.
pub fn is_solid(tile: u8) -> (r: bool)
    ensures
        r == spec_is_solid(tile),
{
    tile >= 1 && tile <= 11
}

pub open spec fn spec_is_gap(col: int) -> bool {
    col == 85 || col == 86 || col == 130 || col == 131
}

fn is_gap(col: i16) -> (r: bool)
    ensures
        r == spec_is_gap(col as int),
{
    col == 85 || col == 86 || col == 130 || col == 131
}

/// The tile at a row and column; outside the level it is air.
pub open spec fn spec_tile_at(tiles: Seq<u8>, row: int, col: int) -> u8 {
    if 0 <= row < LEVEL_ROWS && 0 <= col < LEVEL_COLS { tiles[row * 200 + col] } else { TILE_AIR }
}

/// `tiles` with the cell at `row, col` set, when that index lies inside the
/// table.
pub open spec fn put(tiles: Seq<u8>, row: int, col: int, tile: u8) -> Seq<u8> {
    let idx = row * 200 + col;
    if 0 <= idx < TILES_TOTAL { tiles.update(idx, tile) } else { tiles }
}

/// `tiles` with a `w` by `h` block set from `row, col`, row by row.
pub open spec fn fill_block(tiles: Seq<u8>, row: int, col: int, w: int, h: int, tile: u8) -> Seq<u8>
    decreases h, w,
{
    if h <= 0 || w <= 0 {
        tiles
    } else if h > 1 {
        fill_block(fill_block(tiles, row, col, w, h - 1, tile), row + h - 1, col, w, 1, tile)
    } else {
        put(fill_block(tiles, row, col, w - 1, 1, tile), row, col + w - 1, tile)
    }
}

/// A pipe of `height` rows from `top_row`: a cap row, then the body.
pub open spec fn pipe_tiles(tiles: Seq<u8>, col: int, top_row: int, height: int) -> Seq<u8>
    decreases height,
{
    if height <= 0 {
        tiles
    } else {
        let row = top_row + height - 1;
        let t = pipe_tiles(tiles, col, top_row, height - 1);
        if row == top_row {
            put(put(t, row, col, TILE_PIPE_TL), row, col + 1, TILE_PIPE_TR)
        } else {
            put(put(t, row, col, TILE_PIPE_BL), row, col + 1, TILE_PIPE_BR)
        }
    }
}

/// Ground rows 12 and 13 in columns `0..cols`, with gaps.
pub open spec fn ground_tiles(tiles: Seq<u8>, cols: int) -> Seq<u8>
    decreases cols,
{
    if cols <= 0 {
        tiles
    } else {
        let t = ground_tiles(tiles, cols - 1);
        let c = cols - 1;
        if spec_is_gap(c) { t } else { put(put(t, 12, c, TILE_GROUND), 13, c, TILE_GROUND) }
    }
}

/// A staircase of `steps` two-column steps from `start_col`, step `s`
/// rising from row 11 to row `11 - s`.
pub open spec fn stair_tiles(tiles: Seq<u8>, start_col: int, steps: int) -> Seq<u8>
    decreases steps,
{
    if steps <= 0 {
        tiles
    } else {
        let s = steps - 1;
        let col = start_col + s * 2;
        fill_block(stair_tiles(tiles, start_col, steps - 1), 11 - s, col, 2, s + 1, TILE_HARD)
    }
}

/// The flagpole column: its top at row 2, the pole down to row 12.
pub open spec fn pole_tiles(tiles: Seq<u8>, rows: int) -> Seq<u8>
    decreases rows,
{
    if rows <= 0 {
        put(tiles, 2, 196, TILE_FLAGPOLE_TOP)
    } else {
        put(pole_tiles(tiles, rows - 1), 3 + rows - 1, 196, TILE_FLAGPOLE)
    }
}

/// The whole level, built in layers: ground, question blocks, bricks,
/// pipes, the staircase and the flagpole.
pub open spec fn level_tiles() -> Seq<u8> {
    let t = ground_tiles(Seq::new(2800, |i: int| TILE_AIR), 200);
    let t = put(t, 9, 14, TILE_QUESTION);
    let t = put(t, 9, 21, TILE_QUESTION);
    let t = put(t, 5, 61, TILE_QUESTION);
    let t = put(t, 5, 62, TILE_QUESTION);
    let t = put(t, 9, 80, TILE_QUESTION);
    let t = put(t, 9, 87, TILE_QUESTION);
    let t = put(t, 9, 94, TILE_QUESTION);
    let t = fill_block(t, 9, 15, 2, 1, TILE_BRICK);
    let t = fill_block(t, 9, 53, 3, 1, TILE_BRICK);
    let t = fill_block(t, 9, 64, 3, 1, TILE_BRICK);
    let t = put(t, 11, 90, TILE_BRICK);
    let t = fill_block(t, 9, 61, 3, 1, TILE_BRICK);
    let t = pipe_tiles(t, 30, 8, 4);
    let t = pipe_tiles(t, 46, 10, 2);
    let t = stair_tiles(t, 176, 9);
    pole_tiles(t, 10)
}

/// The starting player: standing on the ground three pixels in.
pub open spec fn start_player() -> Player {
    Player { x: 768, y: 43008, vx: 0, vy: 0, on_ground: true, facing_left: false }
}

/// The six enemies of the level, then unused slots.
pub open spec fn start_enemies(old_enemies: Seq<MarioEnemy>) -> Seq<MarioEnemy> {
    Seq::new(16, |i: int|
        if i < 6 {
            let spawn: int = if i == 0 { 320 } else if i == 1 { 560 } else if i == 2 { 880 } else if i == 3 { 1120 }
                else if i == 4 { 1600 } else { 1760 };
            let t = if i == 2 || i == 5 { MarioEnemyType::SpikeNom } else { MarioEnemyType::ChompNom };
            MarioEnemy {
                x: (spawn * 256) as i32,
                y: ((192 - spec_enemy_h(t)) * 256) as i32,
                vx: -256i32,
                spawn_x: spawn as i32,
                alive: true,
                stomped: false,
                shell_timer: 0,
                enemy_type: t,
            }
        } else {
            old_enemies[i]
        })
}

// ---------------------------------------------------------------------------
// The game state and one frame of physics.

/// The abstract state of a Mario game.
pub struct MarioState {
    pub mode: MarioMode,
    pub player: Player,
    pub enemies: Seq<MarioEnemy>,
    pub enemy_count: usize,
    pub camera_x: i32,
    pub tiles: Seq<u8>,
    pub score: u32,
    pub best_score: u32,
    pub coins: u32,
    pub lives: u32,
    pub invincible_ticks: u8,
    pub death_timer: i16,
    pub pause_action: MarioPauseAction,
    pub last_tick_us: i64,
    pub jump_hold_ticks: u8,
    pub switch_held: bool,
}

/// The table sizes every game keeps.
pub open spec fn mario_valid(s: MarioState) -> bool {
    &&& s.tiles.len() == TILES_TOTAL
    &&& s.enemies.len() == MAX_ENEMIES
    &&& s.enemy_count <= MAX_ENEMIES
}

/// Some row in `r0..=r1` holds a solid tile in column `col`.
pub open spec fn solid_in_rows(tiles: Seq<u8>, r0: int, r1: int, col: int) -> bool {
    exists|row: int| r0 <= row <= r1 && #[trigger] spec_is_solid(spec_tile_at(tiles, row, col))
}

/// The first column in `c..=c1` with a solid tile in `row`.
pub open spec fn first_solid_col(tiles: Seq<u8>, row: int, c: int, c1: int) -> Option<int>
    decreases c1 - c + 1,
{
    if c > c1 {
        None
    } else if spec_is_solid(spec_tile_at(tiles, row, c)) {
        Some(c)
    } else {
        first_solid_col(tiles, row, c + 1, c1)
    }
}

/// Horizontal movement with the player's toe and head clearance: walking
/// into a solid tile snaps against it and stops.
pub open spec fn spec_move_horiz(s: MarioState) -> MarioState {
    let p = s.player;
    if p.vx == 0 {
        s
    } else {
        let new_x = add32(p.x, p.vx);
        let new_px = spec_fp_to_px(new_x) as int;
        let py_top = spec_fp_to_px(p.y) + 4;
        let py_bot = spec_fp_to_px(add32(p.y, 6143)) - 4;
        let check_px = if p.vx > 0 { new_px + 23 } else { new_px };
        let tile_col = spec_px_to_tile(check_px) as int;
        let row_start = if spec_px_to_tile(py_top - 16) < 0 { 0 } else { spec_px_to_tile(py_top - 16) as int };
        let row_end = if spec_px_to_tile(py_bot - 16) > 13 { 13 } else { spec_px_to_tile(py_bot - 16) as int };
        if 0 <= tile_col < LEVEL_COLS && solid_in_rows(s.tiles, row_start, row_end, tile_col) {
            let snap = if p.vx > 0 { (tile_col * 16 - 24) * 256 } else { (tile_col + 1) * 16 * 256 };
            MarioState { player: Player { x: snap as i32, vx: 0, ..p }, ..s }
        } else {
            MarioState { player: Player { x: new_x, ..p }, ..s }
        }
    }
}

/// Vertical movement: landing on a solid tile snaps onto it; bumping one
/// from below snaps under it, turns a question block into a used block for
/// 200 points and a coin, and breaks a brick. Falling off an edge leaves the
/// ground.
pub open spec fn spec_move_vert(s: MarioState) -> MarioState {
    let p = s.player;
    if p.vy == 0 {
        s
    } else {
        let new_y = add32(p.y, p.vy);
        let new_py = spec_fp_to_px(new_y) as int;
        let px_left = spec_fp_to_px(p.x) as int;
        let px_right = spec_fp_to_px(add32(p.x, 6143)) as int;
        let check_py = if p.vy > 0 { new_py + 23 } else { new_py };
        let tile_row = clamp(trunc_div(check_py - 16, 16), 0, 13);
        let col_start = clamp(trunc_div(px_left, 16), 0, 199);
        let col_end = clamp(trunc_div(px_right - 1, 16), 0, 199);
        match first_solid_col(s.tiles, tile_row, col_start, col_end) {
            Some(col) => {
                if p.vy > 0 {
                    MarioState {
                        player: Player { y: ((tile_row * 16 - 8) * 256) as i32, on_ground: true, vy: 0, ..p },
                        ..s
                    }
                } else {
                    let hit = spec_tile_at(s.tiles, tile_row, col);
                    let s1 = MarioState { player: Player { y: (((tile_row + 1) * 16 + 16) * 256) as i32, vy: 0, ..p }, ..s };
                    if hit == TILE_QUESTION {
                        MarioState {
                            tiles: s.tiles.update(tile_row * 200 + col, TILE_USED),
                            score: bump_u32(s.score, 200),
                            coins: bump_u32(s.coins, 1),
                            ..s1
                        }
                    } else if hit == TILE_BRICK {
                        MarioState { tiles: s.tiles.update(tile_row * 200 + col, TILE_AIR), ..s1 }
                    } else {
                        s1
                    }
                }
            },
            None => {
                let s1 = MarioState { player: Player { y: new_y, ..p }, ..s };
                if p.vy > 0 {
                    let check_py2 = spec_fp_to_px(add32(new_y, 6143)) + 1;
                    let check_row = clamp(trunc_div(check_py2 - 16, 16), 0, 13);
                    if first_solid_col(s.tiles, check_row, col_start, col_end) is None {
                        MarioState { player: Player { on_ground: false, ..s1.player }, ..s1 }
                    } else {
                        s1
                    }
                } else {
                    s1
                }
            },
        }
    }
}

/// Losing a life: the player starts dying.
pub open spec fn spec_die(s: MarioState) -> MarioState {
    MarioState {
        lives: if s.lives > 0 { (s.lives - 1) as u32 } else { 0 },
        mode: MarioMode::Dying,
        death_timer: 60,
        ..s
    }
}

/// The player's part of a frame: jump hold or gravity, the fall-speed cap,
/// movement, and death below the level.
pub open spec fn spec_tick_player(s: MarioState) -> MarioState {
    let p = s.player;
    let holding = s.switch_held && s.jump_hold_ticks < JUMP_HOLD_TICKS_MAX && p.vy < 0;
    let vy = if holding { p.vy } else { add32(p.vy, GRAVITY) };
    let vy = if vy > MAX_FALL { MAX_FALL } else { vy };
    let s1 = MarioState {
        player: Player { vy, ..p },
        jump_hold_ticks: if holding { (s.jump_hold_ticks + 1) as u8 } else { s.jump_hold_ticks },
        ..s
    };
    let s2 = spec_move_vert(spec_move_horiz(s1));
    if spec_fp_to_px(s2.player.y) > 264 { spec_die(s2) } else { s2 }
}

/// An enemy's part of a frame: a stomped shell counts down and vanishes; a
/// walker turns at the end of its patrol range or before a drop, and
/// vanishes far off camera.
pub open spec fn spec_enemy_step(e: MarioEnemy, tiles: Seq<u8>, cam_x: i32) -> MarioEnemy {
    if !e.alive {
        e
    } else if e.stomped {
        let t = vstd::wrapping::i16_specs::wrapping_sub(e.shell_timer, 1);
        MarioEnemy { shell_timer: t, alive: t > 0, ..e }
    } else {
        let dx = e.x as int - e.spawn_x as int * 256;
        let vx1 = if dx > 16384 || dx < -16384 { sub32(0, e.vx) } else { e.vx };
        let x1 = add32(e.x, vx1);
        let ex_px = spec_fp_to_px(x1) as int;
        let ahead_col = if vx1 > 0 {
            spec_px_to_tile(ex_px + spec_enemy_w(e.enemy_type) - 1) + 1
        } else {
            spec_px_to_tile(ex_px) - 1
        };
        let has_ground = 0 <= ahead_col < LEVEL_COLS && spec_is_solid(spec_tile_at(tiles, 11, ahead_col));
        let vx2 = if has_ground { vx1 } else { sub32(0, vx1) };
        let x2 = if has_ground { x1 } else { add32(e.x, vx2) };
        let lo = sub32(cam_x, 320);
        let cam_min = (if lo > 0 { lo } else { 0 }) as i16;
        let hi = add32(cam_x, 640);
        let cam_max = (if hi < 3200 { hi } else { 3200 }) as i16;
        MarioEnemy {
            vx: vx2,
            x: x2,
            alive: !(ex_px < cam_min - 320 || ex_px > cam_max + 320),
            ..e
        }
    }
}

/// The enemies after their part of a frame: the first `count` move.
pub open spec fn spec_tick_enemies(s: MarioState) -> MarioState {
    MarioState {
        enemies: Seq::new(s.enemies.len(), |i: int|
            if i < s.enemy_count { spec_enemy_step(s.enemies[i], s.tiles, s.camera_x) } else { s.enemies[i] }),
        ..s
    }
}

/// The camera pages by 128 pixels to keep the player between 64 and 240
/// pixels on screen, within the level.
pub open spec fn spec_tick_camera(s: MarioState) -> MarioState {
    let px = spec_fp_to_px(s.player.x) as i32;
    let screen_x = sub32(px, s.camera_x);
    let cam = if screen_x > 240 {
        add32(s.camera_x, 128)
    } else if screen_x < 64 && s.camera_x >= 128 {
        sub32(s.camera_x, 128)
    } else {
        s.camera_x
    };
    MarioState { camera_x: clamp(cam as int, 0, MAX_CAMERA_X as int) as i32, ..s }
}

/// The player and enemy `e` overlap.
pub open spec fn overlaps(px: int, py: int, e: MarioEnemy) -> bool {
    let ex = spec_fp_to_px(e.x) as int;
    let ey = spec_fp_to_px(e.y) as int;
    px + PLAYER_W > ex && px < ex + spec_enemy_w(e.enemy_type) && py + PLAYER_H > ey
        && py < ey + spec_enemy_h(e.enemy_type)
}

/// Checks the enemy slots from `i` on: landing on one stomps it for 100
/// points and a bounce; any other touch costs a life and ends the check.
pub open spec fn spec_collide_from(s: MarioState, px: int, py: int, i: int) -> MarioState
    decreases MAX_ENEMIES - i,
{
    if i < 0 || i >= MAX_ENEMIES {
        s
    } else {
        let e = s.enemies[i];
        if !e.alive || e.stomped || !overlaps(px, py, e) {
            spec_collide_from(s, px, py, i + 1)
        } else if py + PLAYER_H - spec_fp_to_px(e.y) <= 16 && s.player.vy >= 0 {
            let s1 = MarioState {
                enemies: s.enemies.update(i, MarioEnemy { stomped: true, shell_timer: 120, vx: 0, ..e }),
                player: Player { vy: -240i32, on_ground: false, ..s.player },
                score: bump_u32(s.score, 100),
                ..s
            };
            spec_collide_from(s1, px, py, i + 1)
        } else {
            spec_die(s)
        }
    }
}

pub open spec fn spec_collisions(s: MarioState) -> MarioState {
    if s.invincible_ticks > 0 {
        s
    } else {
        spec_collide_from(s, spec_fp_to_px(s.player.x) as int, spec_fp_to_px(s.player.y) as int, 0)
    }
}

/// Reaching the flagpole completes the level.
pub open spec fn spec_flagpole(s: MarioState) -> MarioState {
    let px = spec_fp_to_px(s.player.x);
    if 3128 <= px <= 3152 {
        MarioState { mode: MarioMode::LevelComplete, death_timer: 120, ..s }
    } else {
        s
    }
}

/// The player back at the start, invincible for a while.
pub open spec fn spec_respawn(s: MarioState) -> MarioState {
    MarioState {
        player: start_player(),
        camera_x: 0,
        invincible_ticks: INVINCIBLE_TICKS,
        mode: MarioMode::Playing,
        ..s
    }
}

/// One frame of the game (see the parts above).
pub open spec fn spec_mario_tick(s: MarioState) -> MarioState {
    match s.mode {
        MarioMode::Playing => {
            let s1 = spec_flagpole(spec_collisions(spec_tick_camera(spec_tick_enemies(spec_tick_player(s)))));
            if s1.invincible_ticks > 0 {
                MarioState { invincible_ticks: (s1.invincible_ticks - 1) as u8, ..s1 }
            } else {
                s1
            }
        },
        MarioMode::Dying => {
            let t = vstd::wrapping::i16_specs::wrapping_sub(s.death_timer, 1);
            let s1 = MarioState { death_timer: t, ..s };
            if t <= 0 {
                if s.lives > 0 { spec_respawn(s1) } else { MarioState { mode: MarioMode::GameOver, ..s1 } }
            } else {
                s1
            }
        },
        MarioMode::LevelComplete => {
            let t = vstd::wrapping::i16_specs::wrapping_sub(s.death_timer, 1);
            MarioState { death_timer: t, mode: if t <= 0 { MarioMode::Ready } else { MarioMode::LevelComplete }, ..s }
        },
        _ => s,
    }
}


pub open spec fn spec_jump(s: MarioState) -> MarioState {
    if s.player.on_ground {
        MarioState {
            player: Player { vy: JUMP_VEL, on_ground: false, ..s.player },
            jump_hold_ticks: 0,
            switch_held: true,
            ..s
        }
    } else {
        s
    }
}

pub open spec fn spec_release_jump(s: MarioState) -> MarioState {
    MarioState { switch_held: false, ..s }
}

pub open spec fn spec_set_direction(s: MarioState, left: bool, right: bool) -> MarioState {
    MarioState {
        player: if left {
            Player { vx: -512i32, facing_left: true, ..s.player }
        } else if right {
            Player { vx: MOVE_SPEED, facing_left: false, ..s.player }
        } else {
            Player { vx: 0, ..s.player }
        },
        ..s
    }
}

/// The round's score kept as the best when it beats it.
pub open spec fn spec_best_update(s: MarioState) -> MarioState {
    if s.score > s.best_score { MarioState { best_score: s.score, ..s } } else { s }
}

pub open spec fn spec_pause(s: MarioState) -> MarioState {
    if s.mode == MarioMode::Playing { MarioState { mode: MarioMode::Paused, ..s } } else { s }
}

pub open spec fn spec_resume(s: MarioState) -> MarioState {
    if s.mode == MarioMode::Paused { MarioState { mode: MarioMode::Playing, ..s } } else { s }
}

pub open spec fn spec_cycle_pause_action(s: MarioState) -> MarioState {
    MarioState {
        pause_action: match s.pause_action {
            MarioPauseAction::Continue => MarioPauseAction::Exit,
            MarioPauseAction::Exit => MarioPauseAction::Continue,
        },
        ..s
    }
}

pub proof fn lemma_store_unchanged<H: HighScoreStore>(h: &H)
    ensures
        crate::mario_application::store_after(h, h, None),
{
}

/// Pausing a round in play and resuming it gives back the same round.
pub proof fn law_mario_pause_resume(s: MarioState)
    requires
        s.mode == MarioMode::Playing,
    ensures
        spec_resume(spec_pause(s)) == s,
{
}

/// Moving the pause selection twice comes back to where it was.
pub proof fn law_mario_cycle_pause_action_twice(s: MarioState)
    ensures
        spec_cycle_pause_action(spec_cycle_pause_action(s)) == s,
{
}

/// Outside play, dying and the level-complete countdown, a frame changes
/// nothing: a paused round stays exactly as it was.
pub proof fn law_mario_idle_tick(s: MarioState)
    requires
        s.mode == MarioMode::Ready || s.mode == MarioMode::Paused || s.mode == MarioMode::GameOver,
    ensures
        spec_mario_tick(s) == s,
{
}

proof fn lemma_collide_from_keeps(s: MarioState, px: int, py: int, i: int)
    ensures
        spec_collide_from(s, px, py, i).lives <= s.lives,
        spec_collide_from(s, px, py, i).camera_x == s.camera_x,
    decreases MAX_ENEMIES - i,
{
    if 0 <= i < MAX_ENEMIES {
        let e = s.enemies[i];
        if !e.alive || e.stomped || !overlaps(px, py, e) {
            lemma_collide_from_keeps(s, px, py, i + 1);
        } else if py + PLAYER_H - spec_fp_to_px(e.y) <= 16 && s.player.vy >= 0 {
            let s1 = MarioState {
                enemies: s.enemies.update(i, MarioEnemy { stomped: true, shell_timer: 120, vx: 0, ..e }),
                player: Player { vy: -240i32, on_ground: false, ..s.player },
                score: bump_u32(s.score, 100),
                ..s
            };
            lemma_collide_from_keeps(s1, px, py, i + 1);
        }
    }
}

/// A frame never gives the player a life back.
pub proof fn law_mario_tick_lives_never_grow(s: MarioState)
    ensures
        spec_mario_tick(s).lives <= s.lives,
{
    if s.mode == MarioMode::Playing {
        let s1 = spec_tick_camera(spec_tick_enemies(spec_tick_player(s)));
        lemma_collide_from_keeps(s1, spec_fp_to_px(s1.player.x) as int, spec_fp_to_px(s1.player.y) as int, 0);
    }
}

/// After a frame of play the camera lies within the level.
pub proof fn law_mario_camera_in_level(s: MarioState)
    requires
        s.mode == MarioMode::Playing,
    ensures
        0 <= spec_mario_tick(s).camera_x <= MAX_CAMERA_X,
{
    let s1 = spec_tick_camera(spec_tick_enemies(spec_tick_player(s)));
    lemma_collide_from_keeps(s1, spec_fp_to_px(s1.player.x) as int, spec_fp_to_px(s1.player.y) as int, 0);
}

/// A fresh round at the level start, waiting to begin.
pub open spec fn spec_reset(s: MarioState) -> MarioState {
    MarioState {
        player: start_player(),
        camera_x: 0,
        score: 0,
        coins: 0,
        lives: START_LIVES,
        invincible_ticks: 0,
        death_timer: 0,
        jump_hold_ticks: 0,
        switch_held: false,
        tiles: level_tiles(),
        enemies: start_enemies(s.enemies),
        enemy_count: 6,
        mode: MarioMode::Ready,
        ..s
    }
}

#[derive(Debug, Clone)]
pub struct MarioGame {
    mode: MarioMode,
    player: Player,
    enemies: [MarioEnemy; 16],
    enemy_count: usize,
    camera_x: i32,
    tiles: [u8; 2800],
    score: u32,
    best_score: u32,
    coins: u32,
    lives: u32,
    invincible_ticks: u8,
    death_timer: i16,
    pause_action: MarioPauseAction,
    last_tick_us: i64,
    jump_hold_ticks: u8,
    switch_held: bool,
}

impl View for MarioGame {
    type V = MarioState;

    closed spec fn view(&self) -> MarioState {
        MarioState {
            mode: self.mode,
            player: self.player,
            enemies: self.enemies@,
            enemy_count: self.enemy_count,
            camera_x: self.camera_x,
            tiles: self.tiles@,
            score: self.score,
            best_score: self.best_score,
            coins: self.coins,
            lives: self.lives,
            invincible_ticks: self.invincible_ticks,
            death_timer: self.death_timer,
            pause_action: self.pause_action,
            last_tick_us: self.last_tick_us,
            jump_hold_ticks: self.jump_hold_ticks,
            switch_held: self.switch_held,
        }
    }
}


// ---------------------------------------------------------------------------
// Building the level.

fn tile_at_s(tiles: &[u8; 2800], row: i16, col: i16) -> (r: u8)
    ensures
        r == spec_tile_at(tiles@, row as int, col as int),
{
    if 0 <= row && row < LEVEL_ROWS && 0 <= col && col < LEVEL_COLS {
        let idx: usize = row as usize * 200 + col as usize;
        tiles[idx]
    } else {
        TILE_AIR
    }
}

fn set_tile_s(tiles: &mut [u8; 2800], row: i16, col: i16, tile: u8)
    ensures
        final(tiles)@ == put(old(tiles)@, row as int, col as int, tile),
{
    let idx: i32 = row as i32 * 200 + col as i32;
    if 0 <= idx && idx < 2800 {
        tiles[idx as usize] = tile;
    }
}

fn fill_tiles_s(tiles: &mut [u8; 2800], row: i16, col: i16, w: i16, h: i16, tile: u8)
    requires
        0 <= row, 0 <= col, 0 <= w <= 16, 0 <= h <= 16, row + h <= 100, col + w <= 1000,
    ensures
        final(tiles)@ == fill_block(old(tiles)@, row as int, col as int, w as int, h as int, tile),
{
    let ghost start = tiles@;
    if w == 0 {
        return;
    }
    let mut r: i16 = 0;
    while r < h
        invariant
            0 <= r <= h, 0 < w <= 16, h <= 16, 0 <= row, 0 <= col, row + h <= 100, col + w <= 1000,
            tiles@ == fill_block(start, row as int, col as int, w as int, r as int, tile),
        decreases h - r,
    {
        let ghost before = tiles@;
        let mut c: i16 = 0;
        while c < w
            invariant
                0 <= c <= w, w <= 16, 0 <= row, 0 <= col, 0 <= r, row + r < 100, col + w <= 1000,
                tiles@ == fill_block(before, (row + r) as int, col as int, c as int, 1, tile),
            decreases w - c,
        {
            set_tile_s(tiles, row + r, col + c, tile);
            c += 1;
        }
        r += 1;
    }
}

fn build_pipe(tiles: &mut [u8; 2800], col: i16, top_row: i16, height: i16)
    requires
        0 <= col < 1000, 0 <= top_row < 100, 0 <= height < 100,
    ensures
        final(tiles)@ == pipe_tiles(old(tiles)@, col as int, top_row as int, height as int),
{
    let ghost start = tiles@;
    let mut k: i16 = 0;
    while k < height
        invariant
            0 <= k <= height, height < 100, 0 <= col < 1000, 0 <= top_row < 100,
            tiles@ == pipe_tiles(start, col as int, top_row as int, k as int),
        decreases height - k,
    {
        let row = top_row + k;
        if row == top_row {
            set_tile_s(tiles, row, col, TILE_PIPE_TL);
            set_tile_s(tiles, row, col + 1, TILE_PIPE_TR);
        } else {
            set_tile_s(tiles, row, col, TILE_PIPE_BL);
            set_tile_s(tiles, row, col + 1, TILE_PIPE_BR);
        }
        k += 1;
    }
}

fn build_stairs(tiles: &mut [u8; 2800], start_col: i16, height: i16)
    requires
        0 <= start_col < 500, 0 <= height <= 11,
    ensures
        final(tiles)@ == stair_tiles(old(tiles)@, start_col as int, height as int),
{
    let ghost start = tiles@;
    let mut step: i16 = 0;
    while step < height
        invariant
            0 <= step <= height <= 11, 0 <= start_col < 500,
            tiles@ == stair_tiles(start, start_col as int, step as int),
        decreases height - step,
    {
        let col = start_col + step * 2;
        fill_tiles_s(tiles, 11 - step, col, 2, step + 1, TILE_HARD);
        step += 1;
    }
}

fn build_ground(tiles: &mut [u8; 2800])
    ensures
        final(tiles)@ == ground_tiles(old(tiles)@, 200),
{
    let ghost start = tiles@;
    let mut col: i16 = 0;
    while col < LEVEL_COLS
        invariant
            0 <= col <= 200,
            tiles@ == ground_tiles(start, col as int),
        decreases 200 - col,
    {
        if !is_gap(col) {
            set_tile_s(tiles, 12, col, TILE_GROUND);
            set_tile_s(tiles, 13, col, TILE_GROUND);
        }
        col += 1;
    }
}

fn build_flagpole(tiles: &mut [u8; 2800])
    ensures
        final(tiles)@ == pole_tiles(old(tiles)@, 10),
{
    let ghost start = tiles@;
    set_tile_s(tiles, 2, 196, TILE_FLAGPOLE_TOP);
    let mut row: i16 = 3;
    while row < 13
        invariant
            3 <= row <= 13,
            tiles@ == pole_tiles(start, row - 3),
        decreases 13 - row,
    {
        set_tile_s(tiles, row, 196, TILE_FLAGPOLE);
        row += 1;
    }
}

fn level() -> (r: [u8; 2800])
    ensures
        r@ == level_tiles(),
{
    let mut tiles: [u8; 2800] = [TILE_AIR; 2800];
    assert(tiles@ =~= Seq::new(2800, |i: int| TILE_AIR));
    build_ground(&mut tiles);
    set_tile_s(&mut tiles, 9, 14, TILE_QUESTION);
    set_tile_s(&mut tiles, 9, 21, TILE_QUESTION);
    set_tile_s(&mut tiles, 5, 61, TILE_QUESTION);
    set_tile_s(&mut tiles, 5, 62, TILE_QUESTION);
    set_tile_s(&mut tiles, 9, 80, TILE_QUESTION);
    set_tile_s(&mut tiles, 9, 87, TILE_QUESTION);
    set_tile_s(&mut tiles, 9, 94, TILE_QUESTION);
    fill_tiles_s(&mut tiles, 9, 15, 2, 1, TILE_BRICK);
    fill_tiles_s(&mut tiles, 9, 53, 3, 1, TILE_BRICK);
    fill_tiles_s(&mut tiles, 9, 64, 3, 1, TILE_BRICK);
    set_tile_s(&mut tiles, 11, 90, TILE_BRICK);
    fill_tiles_s(&mut tiles, 9, 61, 3, 1, TILE_BRICK);
    build_pipe(&mut tiles, 30, 8, 4);
    build_pipe(&mut tiles, 46, 10, 2);
    build_stairs(&mut tiles, 176, 9);
    build_flagpole(&mut tiles);
    tiles
}


/// An unused enemy slot.
pub open spec fn blank_enemy() -> MarioEnemy {
    MarioEnemy {
        x: 0,
        y: 0,
        vx: 0,
        spawn_x: 0,
        alive: false,
        stomped: false,
        shell_timer: 0,
        enemy_type: MarioEnemyType::ChompNom,
    }
}

/// A new game: the level built, its enemies placed, nothing scored yet.
pub open spec fn spec_new_game() -> MarioState {
    spec_reset(MarioState {
        mode: MarioMode::Ready,
        player: start_player(),
        enemies: Seq::new(16, |i: int| blank_enemy()),
        enemy_count: 0,
        camera_x: 0,
        tiles: Seq::new(2800, |i: int| TILE_AIR),
        score: 0,
        best_score: 0,
        coins: 0,
        lives: START_LIVES,
        invincible_ticks: 0,
        death_timer: 0,
        pause_action: MarioPauseAction::Continue,
        last_tick_us: 0,
        jump_hold_ticks: 0,
        switch_held: false,
    })
}

fn new_player() -> (r: Player)
    ensures
        r == start_player(),
{
    Player { x: 3 * FP_ONE, y: 168 * FP_ONE, vx: 0, vy: 0, on_ground: true, facing_left: false }
}

fn spawn_enemy(spawn_px: i32, etype: MarioEnemyType) -> (r: MarioEnemy)
    requires
        0 <= spawn_px <= 4000,
    ensures
        r == (MarioEnemy {
            x: (spawn_px * 256) as i32,
            y: ((192 - spec_enemy_h(etype)) * 256) as i32,
            vx: -256i32,
            spawn_x: spawn_px,
            alive: true,
            stomped: false,
            shell_timer: 0,
            enemy_type: etype,
        }),
{
    let ground_px: i32 = GAME_AREA_Y as i32 + 11 * TILE_SIZE as i32;
    MarioEnemy {
        x: spawn_px * FP_ONE,
        y: (ground_px - etype.h() as i32) * FP_ONE,
        vx: -FP_ONE,
        spawn_x: spawn_px,
        alive: true,
        stomped: false,
        shell_timer: 0,
        enemy_type: etype,
    }
}

impl MarioGame {
    /// A new game, ready to start.
    pub fn new() -> (r: Self)
        ensures
            r@ == spec_new_game(),
            mario_valid(r@),
    {
        let blank = MarioEnemy {
            x: 0,
            y: 0,
            vx: 0,
            spawn_x: 0,
            alive: false,
            stomped: false,
            shell_timer: 0,
            enemy_type: MarioEnemyType::ChompNom,
        };
        let mut game = MarioGame {
            mode: MarioMode::Ready,
            player: new_player(),
            enemies: [blank; 16],
            enemy_count: 0,
            camera_x: 0,
            tiles: [TILE_AIR; 2800],
            score: 0,
            best_score: 0,
            coins: 0,
            lives: START_LIVES,
            invincible_ticks: 0,
            death_timer: 0,
            pause_action: MarioPauseAction::Continue,
            last_tick_us: 0,
            jump_hold_ticks: 0,
            switch_held: false,
        };
        assert(game.enemies@ =~= Seq::new(16, |i: int| blank_enemy()));
        assert(game.tiles@ =~= Seq::new(2800, |i: int| TILE_AIR));
        game.reset_game();
        game
    }

    /// Loads the stored best score and resets the round.
    pub fn enter<H: HighScoreStore>(&mut self, high_scores: &H)
        ensures
            final(self)@ == spec_reset(MarioState { best_score: high_scores.mario_best(), ..old(self)@ }),
            mario_valid(final(self)@),
    {
        self.best_score = high_scores.mario_best_score();
        self.reset_game();
    }

    fn reset_game(&mut self)
        ensures
            final(self)@ == spec_reset(old(self)@),
            mario_valid(final(self)@),
    {
        self.player = new_player();
        self.camera_x = 0;
        self.score = 0;
        self.coins = 0;
        self.lives = START_LIVES;
        self.invincible_ticks = 0;
        self.death_timer = 0;
        self.jump_hold_ticks = 0;
        self.switch_held = false;
        self.tiles = level();
        self.place_enemies();
        self.mode = MarioMode::Ready;
    }

    fn place_enemies(&mut self)
        ensures
            final(self)@ == (MarioState { enemies: start_enemies(old(self)@.enemies), enemy_count: 6, ..old(self)@ }),
    {
        let ghost before = self.enemies@;
        self.enemies[0] = spawn_enemy(20 * TILE_SIZE as i32, MarioEnemyType::ChompNom);
        self.enemies[1] = spawn_enemy(35 * TILE_SIZE as i32, MarioEnemyType::ChompNom);
        self.enemies[2] = spawn_enemy(55 * TILE_SIZE as i32, MarioEnemyType::SpikeNom);
        self.enemies[3] = spawn_enemy(70 * TILE_SIZE as i32, MarioEnemyType::ChompNom);
        self.enemies[4] = spawn_enemy(100 * TILE_SIZE as i32, MarioEnemyType::ChompNom);
        self.enemies[5] = spawn_enemy(110 * TILE_SIZE as i32, MarioEnemyType::SpikeNom);
        self.enemy_count = 6;
        assert(self.enemies@ =~= start_enemies(before));
    }

    /// Starts a fresh round.
    pub fn start(&mut self)
        ensures
            final(self)@ == (MarioState { mode: MarioMode::Playing, ..spec_reset(old(self)@) }),
            mario_valid(final(self)@),
    {
        self.reset_game();
        self.mode = MarioMode::Playing;
    }

    /// Pauses a round in play; otherwise does nothing.
    pub fn pause(&mut self)
        ensures
            final(self)@ == spec_pause(old(self)@),
    {
        if self.mode == MarioMode::Playing {
            self.mode = MarioMode::Paused;
        }
    }

    /// Resumes a paused round; otherwise does nothing.
    pub fn resume(&mut self)
        ensures
            final(self)@ == spec_resume(old(self)@),
    {
        if self.mode == MarioMode::Paused {
            self.mode = MarioMode::Playing;
        }
    }

    /// Moves the pause menu selection to the other entry.
    pub fn cycle_pause_action(&mut self)
        ensures
            final(self)@ == spec_cycle_pause_action(old(self)@),
    {
        self.pause_action = match self.pause_action {
            MarioPauseAction::Continue => MarioPauseAction::Exit,
            MarioPauseAction::Exit => MarioPauseAction::Continue,
        };
    }

    /// Jumps when standing on the ground, holding the jump button.
    pub fn jump(&mut self)
        ensures
            final(self)@ == spec_jump(old(self)@),
    {
        if self.player.on_ground {
            self.player.vy = JUMP_VEL;
            self.player.on_ground = false;
            self.jump_hold_ticks = 0;
            self.switch_held = true;
        }
    }

    /// The jump button was let go.
    pub fn release_jump(&mut self)
        ensures
            final(self)@ == spec_release_jump(old(self)@),
    {
        self.switch_held = false;
    }

    /// Walks left, right (left wins when both are held) or stands still.
    pub fn set_direction(&mut self, left: bool, right: bool)
        ensures
            final(self)@ == spec_set_direction(old(self)@, left, right),
    {
        if left {
            self.player.vx = -MOVE_SPEED;
            self.player.facing_left = true;
        } else if right {
            self.player.vx = MOVE_SPEED;
            self.player.facing_left = false;
        } else {
            self.player.vx = 0;
        }
    }

    /// A frame is due once a frame time has passed since the last one.
    pub fn due_for_tick(&self, now_us: i64) -> (r: bool)
        ensures
            r == (now_us - self@.last_tick_us >= TICK_US),
    {
        (now_us as i128) - (self.last_tick_us as i128) >= 16_666
    }

    pub fn mark_ticked(&mut self, now_us: i64)
        ensures
            final(self)@ == (MarioState { last_tick_us: now_us, ..old(self)@ }),
    {
        self.last_tick_us = now_us;
    }
}


fn first_solid(tiles: &[u8; 2800], row: i16, c0: i16, c1: i16) -> (r: Option<i16>)
    requires
        0 <= c0 <= 199, 0 <= c1 <= 199,
    ensures
        match r {
            Some(c) => first_solid_col(tiles@, row as int, c0 as int, c1 as int) == Some(c as int),
            None => first_solid_col(tiles@, row as int, c0 as int, c1 as int) is None,
        },
{
    let mut c: i16 = c0;
    while c <= c1
        invariant
            0 <= c0 <= c <= 200, c1 <= 199,
            first_solid_col(tiles@, row as int, c0 as int, c1 as int)
                == first_solid_col(tiles@, row as int, c as int, c1 as int),
        decreases c1 - c + 1,
    {
        if is_solid(tile_at_s(tiles, row, c)) {
            return Some(c);
        }
        c += 1;
    }
    None
}

fn clamp_i32(v: i32, lo: i32, hi: i32) -> (r: i32)
    requires
        lo <= hi,
    ensures
        r == clamp(v as int, lo as int, hi as int),
{
    if v < lo { lo } else if v > hi { hi } else { v }
}

/// Division by 16 rounding toward zero.
fn div16(v: i32) -> (r: i32)
    ensures
        r == trunc_div(v as int, 16),
{
    if v >= 0 { v / 16 } else { -((-(v as i64)) / 16) as i32 }
}

fn enemy_step(e: MarioEnemy, tiles: &[u8; 2800], cam_x: i32) -> (r: MarioEnemy)
    ensures
        r == spec_enemy_step(e, tiles@, cam_x),
{
    if !e.alive {
        return e;
    }
    if e.stomped {
        let t = e.shell_timer.wrapping_sub(1);
        return MarioEnemy { shell_timer: t, alive: t > 0, ..e };
    }
    let patrol_range: i64 = 64 * FP_ONE as i64;
    let dx: i64 = e.x as i64 - e.spawn_x as i64 * 256;
    let vx1 = if dx > patrol_range || dx < -patrol_range { 0i32.wrapping_sub(e.vx) } else { e.vx };
    let x1 = e.x.wrapping_add(vx1);
    let ex_px = fp_to_px(x1);
    let ew = e.enemy_type.w();
    let ahead_col: i32 = if vx1 > 0 {
        px_to_tile(ex_px as i32 + ew as i32 - 1) as i32 + 1
    } else {
        px_to_tile(ex_px as i32) as i32 - 1
    };
    let ground_row: i16 = 11;
    let has_ground = 0 <= ahead_col && ahead_col < 200 && is_solid(tile_at_s(tiles, ground_row, ahead_col as i16));
    let vx2 = if has_ground { vx1 } else { 0i32.wrapping_sub(vx1) };
    let x2 = if has_ground { x1 } else { e.x.wrapping_add(vx2) };
    let lo = cam_x.wrapping_sub(320);
    let hi = cam_x.wrapping_add(640);
    #[verifier::truncate]
    let cam_min = (if lo > 0 { lo } else { 0 }) as i16;
    #[verifier::truncate]
    let cam_max = (if hi < 3200 { hi } else { 3200 }) as i16;
    let off_camera = (ex_px as i32) < cam_min as i32 - 320 || ex_px as i32 > cam_max as i32 + 320;
    MarioEnemy { vx: vx2, x: x2, alive: !off_camera, ..e }
}

impl MarioGame {
    #[verifier::loop_isolation(false)]
    fn move_player_horiz(&mut self)
        ensures
            final(self)@ == spec_move_horiz(old(self)@),
    {
        if self.player.vx == 0 {
            return;
        }
        let new_x = self.player.x.wrapping_add(self.player.vx);
        let new_px: i32 = fp_to_px(new_x) as i32;
        // The hitbox loses four pixels at the head and at the feet, so that
        // the floor does not snag a walking player.
        let py_top: i32 = fp_to_px(self.player.y) as i32 + 4;
        let py_bot: i32 = fp_to_px(self.player.y.wrapping_add(PLAYER_H as i32 * FP_ONE - 1)) as i32 - 4;
        let check_px: i32 = if self.player.vx > 0 { new_px + PLAYER_W as i32 - 1 } else { new_px };
        let tile_col = px_to_tile(check_px);
        let top_row = px_to_tile(py_top - GAME_AREA_Y as i32);
        let bot_row = px_to_tile(py_bot - GAME_AREA_Y as i32);
        let row_start: i16 = if top_row < 0 { 0 } else { top_row };
        let row_end: i16 = if bot_row > LEVEL_ROWS - 1 { LEVEL_ROWS - 1 } else { bot_row };
        if 0 <= tile_col && tile_col < LEVEL_COLS {
            let mut row: i16 = row_start;
            while row <= row_end
                invariant
                    0 <= row_start <= row, row_end <= 13,
                    0 <= tile_col < 200,
                    self@ == old(self)@,
                    forall|r: int| row_start <= r < row ==> !#[trigger] spec_is_solid(spec_tile_at(self@.tiles, r, tile_col as int)),
                decreases row_end - row + 1,
            {
                let t = tile_at_s(&self.tiles, row, tile_col);
                if is_solid(t) {
                    assert(solid_in_rows(old(self)@.tiles, row_start as int, row_end as int, tile_col as int));
                    let snap: i32 = if self.player.vx > 0 {
                        (tile_col as i32 * 16 - 24) * 256
                    } else {
                        (tile_col as i32 + 1) * 16 * 256
                    };
                    self.player.x = snap;
                    self.player.vx = 0;
                    return;
                }
                row += 1;
            }
        }
        self.player.x = new_x;
    }

    fn move_player_vert(&mut self)
        requires
            mario_valid(old(self)@),
        ensures
            final(self)@ == spec_move_vert(old(self)@),
            mario_valid(final(self)@),
    {
        if self.player.vy == 0 {
            return;
        }
        let new_y = self.player.y.wrapping_add(self.player.vy);
        let new_py: i32 = fp_to_px(new_y) as i32;
        let px_left: i32 = fp_to_px(self.player.x) as i32;
        let px_right: i32 = fp_to_px(self.player.x.wrapping_add(PLAYER_W as i32 * FP_ONE - 1)) as i32;
        let check_py: i32 = if self.player.vy > 0 { new_py + PLAYER_H as i32 - 1 } else { new_py };
        let tile_row = clamp_i32(div16(check_py - GAME_AREA_Y as i32), 0, LEVEL_ROWS as i32 - 1) as i16;
        let col_start = clamp_i32(div16(px_left), 0, LEVEL_COLS as i32 - 1) as i16;
        let col_end = clamp_i32(div16(px_right - 1), 0, LEVEL_COLS as i32 - 1) as i16;
        match first_solid(&self.tiles, tile_row, col_start, col_end) {
            Some(col) => {
                if self.player.vy > 0 {
                    self.player.y = (tile_row as i32 * 16 - 8) * 256;
                    self.player.on_ground = true;
                } else {
                    self.player.y = ((tile_row as i32 + 1) * 16 + 16) * 256;
                    // The tile that was hit is in the player's head row.
                    let hit = tile_at_s(&self.tiles, tile_row, col);
                    if hit == TILE_QUESTION {
                        self.set_tile(tile_row, col, TILE_USED);
                        self.score = self.score.wrapping_add(200);
                        self.coins = self.coins.wrapping_add(1);
                    } else if hit == TILE_BRICK {
                        self.destroy_brick(tile_row, col);
                    }
                }
                self.player.vy = 0;
            },
            None => {
                self.player.y = new_y;
                if self.player.vy > 0 {
                    // Ground one pixel below the feet keeps the player standing.
                    let below: i32 = fp_to_px(new_y.wrapping_add(PLAYER_H as i32 * FP_ONE - 1)) as i32 + 1;
                    let check_row = clamp_i32(div16(below - GAME_AREA_Y as i32), 0, LEVEL_ROWS as i32 - 1) as i16;
                    if first_solid(&self.tiles, check_row, col_start, col_end).is_none() {
                        self.player.on_ground = false;
                    }
                }
            },
        }
    }

    fn destroy_brick(&mut self, row: i16, col: i16)
        requires
            0 <= row < 14, 0 <= col < 200,
        ensures
            final(self)@ == (MarioState { tiles: old(self)@.tiles.update(row * 200 + col, TILE_AIR), ..old(self)@ }),
    {
        self.set_tile(row, col, TILE_AIR);
    }

    fn set_tile(&mut self, row: i16, col: i16, tile: u8)
        ensures
            final(self)@ == (MarioState {
                tiles: if 0 <= row < 14 && 0 <= col < 200 { old(self)@.tiles.update(row * 200 + col, tile) } else { old(self)@.tiles },
                ..old(self)@
            }),
    {
        if 0 <= row && row < LEVEL_ROWS && 0 <= col && col < LEVEL_COLS {
            let idx: usize = row as usize * 200 + col as usize;
            self.tiles[idx] = tile;
        }
    }
}


impl MarioGame {
    fn tick_player(&mut self)
        requires
            mario_valid(old(self)@),
        ensures
            final(self)@ == spec_tick_player(old(self)@),
            mario_valid(final(self)@),
    {
        if self.switch_held && self.jump_hold_ticks < JUMP_HOLD_TICKS_MAX && self.player.vy < 0 {
            self.jump_hold_ticks += 1;
        } else {
            self.player.vy = self.player.vy.wrapping_add(GRAVITY);
        }
        if self.player.vy > MAX_FALL {
            self.player.vy = MAX_FALL;
        }
        self.move_player_horiz();
        self.move_player_vert();
        let max_y: i16 = GAME_AREA_Y + LEVEL_ROWS * TILE_SIZE + PLAYER_H;
        if fp_to_px(self.player.y) > max_y {
            self.die();
        }
    }

    fn tick_enemies(&mut self)
        requires
            mario_valid(old(self)@),
        ensures
            final(self)@ == spec_tick_enemies(old(self)@),
            mario_valid(final(self)@),
    {
        let cam_x = self.camera_x;
        let count = self.enemy_count;
        let mut enemies = self.enemies;
        let mut i: usize = 0;
        while i < count
            invariant
                count <= 16, i <= count,
                forall|j: int| 0 <= j < i ==> #[trigger] enemies@[j] == spec_enemy_step(self.enemies@[j], self.tiles@, cam_x),
                forall|j: int| i <= j < 16 ==> #[trigger] enemies@[j] == self.enemies@[j],
            decreases count - i,
        {
            enemies[i] = enemy_step(enemies[i], &self.tiles, cam_x);
            i += 1;
        }
        let ghost old_state = self@;
        self.enemies = enemies;
        assert(self@.enemies =~= spec_tick_enemies(old_state).enemies);
    }

    fn tick_camera(&mut self)
        ensures
            final(self)@ == spec_tick_camera(old(self)@),
    {
        let px = fp_to_px(self.player.x) as i32;
        let screen_x = px.wrapping_sub(self.camera_x);
        // The camera moves by pages, which spares a full redraw every frame.
        if screen_x > 240 {
            self.camera_x = self.camera_x.wrapping_add(128);
        } else if screen_x < 64 && self.camera_x >= 128 {
            self.camera_x = self.camera_x.wrapping_sub(128);
        }
        self.camera_x = clamp_i32(self.camera_x, 0, MAX_CAMERA_X as i32);
    }

    /// Resolves touches between the player and the enemies: landing on one
    /// stomps it for 100 points and a bounce; any other touch costs a life.
    /// Nothing happens while the player is invincible.
    pub fn check_player_enemy_collisions(&mut self)
        requires
            mario_valid(old(self)@),
        ensures
            final(self)@ == spec_collisions(old(self)@),
            mario_valid(final(self)@),
    {
        if self.invincible_ticks > 0 {
            return;
        }
        let px: i32 = fp_to_px(self.player.x) as i32;
        let py: i32 = fp_to_px(self.player.y) as i32;
        let mut i: usize = 0;
        while i < MAX_ENEMIES
            invariant
                i <= 16,
                mario_valid(self@),
                px == spec_fp_to_px(old(self)@.player.x),
                py == spec_fp_to_px(old(self)@.player.y),
                old(self)@.invincible_ticks == 0,
                spec_collide_from(self@, px as int, py as int, i as int)
                    == spec_collide_from(old(self)@, px as int, py as int, 0),
            decreases 16 - i,
        {
            let e = self.enemies[i];
            if e.alive && !e.stomped {
                let ex: i32 = fp_to_px(e.x) as i32;
                let ey: i32 = fp_to_px(e.y) as i32;
                let ew: i32 = e.enemy_type.w() as i32;
                let eh: i32 = e.enemy_type.h() as i32;
                if px + PLAYER_W as i32 > ex && px < ex + ew && py + PLAYER_H as i32 > ey && py < ey + eh {
                    let overlap_top: i32 = py + PLAYER_H as i32 - ey;
                    if overlap_top <= 16 && self.player.vy >= 0 {
                        self.enemies[i] = MarioEnemy { stomped: true, shell_timer: 120, vx: 0, ..e };
                        self.player.vy = JUMP_VEL / 2;
                        self.player.on_ground = false;
                        self.score = self.score.wrapping_add(100);
                    } else {
                        self.die();
                        return;
                    }
                }
            }
            i += 1;
        }
    }

    fn check_flagpole(&mut self)
        ensures
            final(self)@ == spec_flagpole(old(self)@),
    {
        let px = fp_to_px(self.player.x);
        let flag_x: i16 = 196 * TILE_SIZE;
        if px >= flag_x - 8 && px <= flag_x + 16 {
            self.mode = MarioMode::LevelComplete;
            self.death_timer = 120;
        }
    }

    fn die(&mut self)
        ensures
            final(self)@ == spec_die(old(self)@),
    {
        if self.lives > 0 {
            self.lives -= 1;
        }
        self.mode = MarioMode::Dying;
        self.death_timer = 60;
    }

    fn respawn(&mut self)
        ensures
            final(self)@ == spec_respawn(old(self)@),
    {
        self.player = new_player();
        self.camera_x = 0;
        self.invincible_ticks = INVINCIBLE_TICKS;
        self.mode = MarioMode::Playing;
    }

    /// One frame: physics while playing, the death and level-complete
    /// countdowns otherwise.
    pub fn tick<H: HighScoreStore>(&mut self, high_scores: &mut H)
        requires
            mario_valid(old(self)@),
        ensures
            final(self)@ == spec_mario_tick(old(self)@),
            mario_valid(final(self)@),
            *final(high_scores) == *old(high_scores),
    {
        match self.mode {
            MarioMode::Playing => {
                self.tick_player();
                self.tick_enemies();
                self.tick_camera();
                self.check_player_enemy_collisions();
                self.check_flagpole();
                if self.invincible_ticks > 0 {
                    self.invincible_ticks -= 1;
                }
            },
            MarioMode::Dying => {
                self.death_timer = self.death_timer.wrapping_sub(1);
                if self.death_timer <= 0 {
                    if self.lives > 0 {
                        self.respawn();
                    } else {
                        self.mode = MarioMode::GameOver;
                    }
                }
            },
            MarioMode::LevelComplete => {
                self.death_timer = self.death_timer.wrapping_sub(1);
                if self.death_timer <= 0 {
                    self.mode = MarioMode::Ready;
                }
            },
            _ => {},
        }
    }

    /// Keeps the round's score as the best one when it beats it, in the
    /// game and in the store.
    pub fn update_best_score<H: HighScoreStore>(&mut self, high_scores: &mut H)
        ensures
            final(self)@ == spec_best_update(old(self)@),
            old(self)@.score > old(self)@.best_score ==> final(high_scores).mario_best() == (if old(self)@.score > old(high_scores).mario_best() {
                old(self)@.score
            } else {
                old(high_scores).mario_best()
            }),
            old(self)@.score <= old(self)@.best_score ==> final(self)@ == old(self)@
                && *final(high_scores) == *old(high_scores),
            final(high_scores).flappy_best() == old(high_scores).flappy_best(),
            final(high_scores).flags_best() == old(high_scores).flags_best(),
            forall|i: int| #[trigger] final(high_scores).snake_best(i) == old(high_scores).snake_best(i),
            forall|i: int| #[trigger] final(high_scores).game2048_best(i) == old(high_scores).game2048_best(i),
    {
        if self.score > self.best_score {
            self.best_score = self.score;
            high_scores.update_mario_best_score(self.score);
        }
    }

    /// The tile at a row and column; outside the level it is air.
    pub fn tile_at(&self, row: i16, col: i16) -> (r: u8)
        ensures
            r == spec_tile_at(self@.tiles, row as int, col as int),
    {
        tile_at_s(&self.tiles, row, col)
    }
}


impl MarioGame {
    /// Write access to the tile at a row and column, inside the level.
    pub fn mut_tile_at(&mut self, row: i16, col: i16) -> (r: Option<&mut u8>)
        ensures
            !(0 <= row < 14 && 0 <= col < 200) ==> r is None && *final(self) == *old(self),
            (0 <= row < 14 && 0 <= col < 200) ==> r is Some
                && *r->0 == old(self)@.tiles[row * 200 + col]
                && final(self)@ == (MarioState {
                    tiles: old(self)@.tiles.update(row * 200 + col, *final(r->0)),
                    ..old(self)@
                }),
    {
        if 0 <= row && row < LEVEL_ROWS && 0 <= col && col < LEVEL_COLS {
            let idx: usize = row as usize * 200 + col as usize;
            Some(&mut self.tiles[idx])
        } else {
            None
        }
    }
}


impl MarioGame {
    pub fn mode(&self) -> (r: MarioMode)
        ensures
            r == self@.mode,
    {
        self.mode
    }

    pub fn camera_x(&self) -> (r: i32)
        ensures
            r == self@.camera_x,
    {
        self.camera_x
    }

    pub fn score(&self) -> (r: u32)
        ensures
            r == self@.score,
    {
        self.score
    }

    pub fn best_score(&self) -> (r: u32)
        ensures
            r == self@.best_score,
    {
        self.best_score
    }

    pub fn coins(&self) -> (r: u32)
        ensures
            r == self@.coins,
    {
        self.coins
    }

    pub fn lives(&self) -> (r: u32)
        ensures
            r == self@.lives,
    {
        self.lives
    }

    pub fn invincible_ticks(&self) -> (r: u8)
        ensures
            r == self@.invincible_ticks,
    {
        self.invincible_ticks
    }

    pub fn enemy_count(&self) -> (r: usize)
        ensures
            r == self@.enemy_count,
    {
        self.enemy_count
    }

    pub fn pause_action(&self) -> (r: MarioPauseAction)
        ensures
            r == self@.pause_action,
    {
        self.pause_action
    }

    pub fn player(&self) -> (r: &Player)
        ensures
            *r == self@.player,
    {
        &self.player
    }

    pub fn enemies(&self) -> (r: &[MarioEnemy; 16])
        ensures
            r@ == self@.enemies,
    {
        &self.enemies
    }

    pub fn tiles(&self) -> (r: &[u8; 2800])
        ensures
            r@ == self@.tiles,
    {
        &self.tiles
    }

    pub fn set_player_vy(&mut self, vy: i32)
        ensures
            final(self)@ == (MarioState { player: Player { vy, ..old(self)@.player }, ..old(self)@ }),
    {
        self.player.vy = vy;
    }

    pub fn set_player_vx(&mut self, vx: i32)
        ensures
            final(self)@ == (MarioState { player: Player { vx, ..old(self)@.player }, ..old(self)@ }),
    {
        self.player.vx = vx;
    }

    pub fn set_player_on_ground(&mut self, on_ground: bool)
        ensures
            final(self)@ == (MarioState { player: Player { on_ground, ..old(self)@.player }, ..old(self)@ }),
    {
        self.player.on_ground = on_ground;
    }

    pub fn set_player_position(&mut self, x: i32, y: i32)
        ensures
            final(self)@ == (MarioState { player: Player { x, y, ..old(self)@.player }, ..old(self)@ }),
    {
        self.player.x = x;
        self.player.y = y;
    }

    pub fn set_camera_x(&mut self, cam_x: i32)
        ensures
            final(self)@ == (MarioState { camera_x: cam_x, ..old(self)@ }),
    {
        self.camera_x = cam_x;
    }

    pub fn set_invincible_ticks(&mut self, ticks: u8)
        ensures
            final(self)@ == (MarioState { invincible_ticks: ticks, ..old(self)@ }),
    {
        self.invincible_ticks = ticks;
    }

    pub fn set_lives(&mut self, lives: u32)
        ensures
            final(self)@ == (MarioState { lives, ..old(self)@ }),
    {
        self.lives = lives;
    }

    pub fn set_score(&mut self, score: u32)
        ensures
            final(self)@ == (MarioState { score, ..old(self)@ }),
    {
        self.score = score;
    }

    pub fn set_coins(&mut self, coins: u32)
        ensures
            final(self)@ == (MarioState { coins, ..old(self)@ }),
    {
        self.coins = coins;
    }

    pub fn set_mode(&mut self, mode: MarioMode)
        ensures
            final(self)@ == (MarioState { mode, ..old(self)@ }),
    {
        self.mode = mode;
    }

    pub fn set_enemy_position(&mut self, idx: usize, x: i32, y: i32)
        ensures
            final(self)@ == (if idx < 16 {
                MarioState { enemies: old(self)@.enemies.update(idx as int, MarioEnemy { x, y, ..old(self)@.enemies[idx as int] }), ..old(self)@ }
            } else {
                old(self)@
            }),
    {
        if idx < MAX_ENEMIES {
            let e = self.enemies[idx];
            self.enemies[idx] = MarioEnemy { x, y, ..e };
        }
    }

    pub fn set_enemy_alive(&mut self, idx: usize, alive: bool)
        ensures
            final(self)@ == (if idx < 16 {
                MarioState { enemies: old(self)@.enemies.update(idx as int, MarioEnemy { alive, ..old(self)@.enemies[idx as int] }), ..old(self)@ }
            } else {
                old(self)@
            }),
    {
        if idx < MAX_ENEMIES {
            let e = self.enemies[idx];
            self.enemies[idx] = MarioEnemy { alive, ..e };
        }
    }

    pub fn set_enemy_stomped(&mut self, idx: usize, stomped: bool)
        ensures
            final(self)@ == (if idx < 16 {
                MarioState { enemies: old(self)@.enemies.update(idx as int, MarioEnemy { stomped, ..old(self)@.enemies[idx as int] }), ..old(self)@ }
            } else {
                old(self)@
            }),
    {
        if idx < MAX_ENEMIES {
            let e = self.enemies[idx];
            self.enemies[idx] = MarioEnemy { stomped, ..e };
        }
    }

    pub fn set_enemy_vx(&mut self, idx: usize, vx: i32)
        ensures
            final(self)@ == (if idx < 16 {
                MarioState { enemies: old(self)@.enemies.update(idx as int, MarioEnemy { vx, ..old(self)@.enemies[idx as int] }), ..old(self)@ }
            } else {
                old(self)@
            }),
    {
        if idx < MAX_ENEMIES {
            let e = self.enemies[idx];
            self.enemies[idx] = MarioEnemy { vx, ..e };
        }
    }

    pub fn set_enemy(&mut self, idx: usize, enemy: MarioEnemy)
        ensures
            final(self)@ == (if idx < 16 {
                MarioState { enemies: old(self)@.enemies.update(idx as int, enemy), ..old(self)@ }
            } else {
                old(self)@
            }),
    {
        if idx < MAX_ENEMIES {
            self.enemies[idx] = enemy;
        }
    }

    /// Sets how many enemy slots are in use.
    pub fn set_enemy_count(&mut self, count: usize)
        requires
            count <= MAX_ENEMIES,
        ensures
            final(self)@ == (MarioState { enemy_count: count, ..old(self)@ }),
    {
        self.enemy_count = count;
    }
}

impl Default for MarioGame {
    fn default() -> (r: Self)
        ensures
            r@ == spec_new_game(),
    {
        Self::new()
    }
}

} // verus!
