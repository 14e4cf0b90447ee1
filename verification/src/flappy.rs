use vstd::prelude::*;
use crate::config::trunc_div;
use crate::rng::Rng;
use crate::store::HighScoreStore;

verus! {

pub const FLAPPY_OBSTACLE_COUNT: usize = 3;
pub const FLAPPY_PLAYER_X: i16 = 58;
pub const FLAPPY_PLAYER_W: i16 = 20;
pub const FLAPPY_PLAYER_H: i16 = 20;
pub const FLAPPY_PLAY_TOP: i16 = 24;
pub const FLAPPY_FLOOR_Y: i16 = 224;
pub const FLAPPY_OBSTACLE_W: i16 = 24;
pub const FLAPPY_GAP_H: i16 = 78;
pub const FLAPPY_OBSTACLE_SPACING: i16 = 112;
pub const FLAPPY_TICK_US: i64 = 33_000;
pub const FLAPPY_INITIAL_LIVES: u32 = 3;
pub const FLAPPY_INVINCIBLE_TICKS: u8 = 45;

/// Positions are kept in 1/256 pixel.
pub const FP_ONE: i32 = 256;
pub const START_Y: i16 = 112;
pub const GRAVITY: i32 = 42;
pub const FLAP_VELOCITY: i32 = -760;
pub const BASE_SCROLL_SPEED: i16 = 2;
pub const SCORE_PER_SPEED_STEP: u32 = 10;
pub const EXTRA_LIFE_SCORE_STEP: u32 = 20;
pub const GAP_MIN_Y: i16 = 44;
pub const GAP_STEP: i16 = 16;
pub const GAP_CHOICES: usize = 7;

#[derive(Debug, Clone, Copy, PartialEq, Eq, Structural)]
pub enum FlappyMode {
    Ready,
    Playing,
    Paused,
    GameOver,
}

#[derive(Debug, Clone, Copy, PartialEq, Eq, Structural)]
pub enum FlappyPauseAction {
    Continue,
    Exit,
}

/// A candle pair with a gap the player flies through.
#[derive(Debug, Clone, Copy, PartialEq, Eq, Structural)]
pub struct FlappyObstacle {
    pub x: i16,
    pub gap_y: i16,
    pub scored: bool,
}

impl FlappyObstacle {
    /// Whether passing this obstacle has been counted.
    pub open spec fn is_scored(self) -> bool {
        self.scored
    }

    pub fn new(x: i16, gap_y: i16) -> (r: Self)
        ensures
            r.x == x,
            r.gap_y == gap_y,
            !r.is_scored(),
    {
        FlappyObstacle { x, gap_y, scored: false }
    }

    pub fn scored(&self) -> (r: bool)
        ensures
            r == self.is_scored(),
    {
        self.scored
    }
}

#[derive(Debug, Clone, Copy, Default, PartialEq, Eq, Structural)]
pub struct FlappyTickOutcome {
    pub life_lost: bool,
}

/// The abstract state of a Flappy game.
pub struct FlappyState {
    pub mode: FlappyMode,
    pub player_y_fp: i32,
    pub velocity_fp: i32,
    pub score: u32,
    pub best_score: u32,
    pub lives: u32,
    pub next_extra_life_score: u32,
    pub invincible_ticks_remaining: u8,
    pub last_tick_us: i64,
    pub pause_action: FlappyPauseAction,
    pub obstacles: Seq<FlappyObstacle>,
}

#[derive(Debug, Clone)]
pub struct FlappyGame {
    mode: FlappyMode,
    player_y_fp: i32,
    velocity_fp: i32,
    score: u32,
    best_score: u32,
    lives: u32,
    next_extra_life_score: u32,
    invincible_ticks_remaining: u8,
    last_tick_us: i64,
    pause_action: FlappyPauseAction,
    obstacles: [FlappyObstacle; 3],
}

impl View for FlappyGame {
    type V = FlappyState;

    closed spec fn view(&self) -> FlappyState {
        FlappyState {
            mode: self.mode,
            player_y_fp: self.player_y_fp,
            velocity_fp: self.velocity_fp,
            score: self.score,
            best_score: self.best_score,
            lives: self.lives,
            next_extra_life_score: self.next_extra_life_score,
            invincible_ticks_remaining: self.invincible_ticks_remaining,
            last_tick_us: self.last_tick_us,
            pause_action: self.pause_action,
            obstacles: self.obstacles@,
        }
    }
}

/// `score` raised by one `n` times, in 32-bit wrapping arithmetic.
pub open spec fn bump(score: u32, n: int) -> u32
    decreases n,
{
    if n <= 0 {
        score
    } else {
        vstd::wrapping::u32_specs::wrapping_add(bump(score, n - 1), 1)
    }
}

/// A gap position the game can draw: 44, 60, ... 140.
pub open spec fn valid_gap(gap_y: i16) -> bool {
    GAP_MIN_Y <= gap_y <= GAP_MIN_Y + 6 * GAP_STEP && (gap_y - GAP_MIN_Y) % 16int == 0
}

/// The player's top edge in pixels.
pub open spec fn spec_player_y(y_fp: i32) -> i16 {
    trunc_div(y_fp as int, FP_ONE as int) as i16
}

/// Pixels the obstacles move per tick: one more every ten points.
pub open spec fn spec_scroll_speed(score: u32) -> i16 {
    let bonus = score / SCORE_PER_SPEED_STEP;
    (BASE_SCROLL_SPEED + if bonus > 32765 { 32765 } else { bonus }) as i16
}

/// The player hits the ceiling, the floor, or a candle outside its gap.
pub open spec fn spec_collides(player_y: i16, obstacles: Seq<FlappyObstacle>) -> bool {
    player_y < FLAPPY_PLAY_TOP || player_y + FLAPPY_PLAYER_H > FLAPPY_FLOOR_Y
        || exists|i: int| 0 <= i < obstacles.len() && #[trigger] hits_obstacle(player_y, obstacles[i])
}

pub open spec fn hits_obstacle(player_y: i16, o: FlappyObstacle) -> bool {
    !(FLAPPY_PLAYER_X + FLAPPY_PLAYER_W <= o.x || FLAPPY_PLAYER_X >= o.x + FLAPPY_OBSTACLE_W)
        && (player_y < o.gap_y || player_y + FLAPPY_PLAYER_H > o.gap_y + FLAPPY_GAP_H)
}

/// The starting obstacles: 112 pixels apart from x = 340, gaps at 80.
pub open spec fn ready_obstacles() -> Seq<FlappyObstacle> {
    seq![
        FlappyObstacle { x: 340, gap_y: 80, scored: false },
        FlappyObstacle { x: 452, gap_y: 80, scored: false },
        FlappyObstacle { x: 564, gap_y: 80, scored: false },
    ]
}

/// Extra lives for every 20 points reached, as `(lives, next threshold)`.
pub open spec fn spec_award(score: u32, lives: u32, next: u32) -> (u32, u32)
    decreases u32::MAX - next,
{
    if score < next {
        (lives, next)
    } else {
        let l = if lives == u32::MAX { lives } else { (lives + 1) as u32 };
        if next + EXTRA_LIFE_SCORE_STEP > u32::MAX {
            (l, next)
        } else {
            spec_award(score, l, (next + EXTRA_LIFE_SCORE_STEP) as u32)
        }
    }
}

/// Obstacles after scrolling left by `speed`.
pub open spec fn spec_scrolled(obs: Seq<FlappyObstacle>, speed: i16) -> Seq<FlappyObstacle> {
    obs.map_values(|o: FlappyObstacle| FlappyObstacle { x: vstd::wrapping::i16_specs::wrapping_sub(o.x, speed), ..o })
}

/// The largest x of the obstacles.
pub open spec fn max_x(obs: Seq<FlappyObstacle>) -> i16 {
    let a = obs[0].x;
    let b = if obs[1].x > a { obs[1].x } else { a };
    if obs[2].x > b { obs[2].x } else { b }
}

/// An obstacle that left the screen on the left.
pub open spec fn off_screen(o: FlappyObstacle) -> bool {
    o.x + FLAPPY_OBSTACLE_W < 0
}

/// The right-most x seen by the recycling pass before obstacle `i`.
pub open spec fn recycle_anchor(before: Seq<FlappyObstacle>, i: int) -> i16
    decreases i,
{
    if i <= 0 {
        max_x(before)
    } else if off_screen(before[i - 1]) {
        vstd::wrapping::i16_specs::wrapping_add(recycle_anchor(before, i - 1), FLAPPY_OBSTACLE_SPACING)
    } else {
        recycle_anchor(before, i - 1)
    }
}

/// Off-screen obstacles go 112 pixels behind the right-most one with a
/// random gap; the others stay.
pub open spec fn recycled(before: Seq<FlappyObstacle>, after: Seq<FlappyObstacle>) -> bool {
    &&& after.len() == 3
    &&& forall|i: int| 0 <= i < 3 ==> #[trigger] after[i] == if off_screen(before[i]) {
        FlappyObstacle {
            x: vstd::wrapping::i16_specs::wrapping_add(recycle_anchor(before, i), FLAPPY_OBSTACLE_SPACING),
            gap_y: after[i].gap_y,
            scored: false,
        }
    } else {
        before[i]
    }
    &&& forall|i: int| 0 <= i < 3 && off_screen(before[i]) ==> valid_gap(#[trigger] after[i].gap_y)
}

/// An obstacle the player has just passed.
pub open spec fn newly_passed(o: FlappyObstacle) -> bool {
    !o.scored && FLAPPY_PLAYER_X > o.x + FLAPPY_OBSTACLE_W
}

/// Obstacles after passed ones are marked as counted.
pub open spec fn spec_mark_passed(obs: Seq<FlappyObstacle>) -> Seq<FlappyObstacle> {
    obs.map_values(|o: FlappyObstacle| FlappyObstacle { scored: o.scored || newly_passed(o), ..o })
}

/// How many obstacles below `n` are newly passed.
pub open spec fn passed_count(obs: Seq<FlappyObstacle>, n: int) -> int
    decreases n,
{
    if n <= 0 {
        0
    } else {
        passed_count(obs, n - 1) + if newly_passed(obs[n - 1]) { 1int } else { 0int }
    }
}

/// The state after the movement, scoring and extra-life part of a tick,
/// given the obstacles after recycling.
pub open spec fn after_motion(s: FlappyState, recycled_obs: Seq<FlappyObstacle>) -> FlappyState {
    let velocity = vstd::wrapping::i32_specs::wrapping_add(s.velocity_fp, GRAVITY);
    let y = vstd::wrapping::i32_specs::wrapping_add(s.player_y_fp, velocity);
    let passed = passed_count(recycled_obs, 3);
    let score = bump(s.score, passed);
    let (lives, next) = if passed > 0 {
        spec_award(score, s.lives, s.next_extra_life_score)
    } else {
        (s.lives, s.next_extra_life_score)
    };
    FlappyState {
        velocity_fp: velocity,
        player_y_fp: y,
        obstacles: spec_mark_passed(recycled_obs),
        score,
        lives,
        next_extra_life_score: next,
        best_score: if score > s.best_score { score } else { s.best_score },
        ..s
    }
}

/// The state after a collision is handled, and whether a life was lost.
pub open spec fn after_collision(s: FlappyState) -> (FlappyState, bool) {
    if s.invincible_ticks_remaining > 0 {
        (s, false)
    } else {
        let lives = if s.lives == 0 { 0 } else { (s.lives - 1) as u32 };
        if lives == 0 {
            (FlappyState {
                lives,
                mode: FlappyMode::GameOver,
                best_score: if s.score > s.best_score { s.score } else { s.best_score },
                ..s
            }, true)
        } else {
            (FlappyState {
                lives,
                player_y_fp: 28672i32,
                velocity_fp: -380i32,
                invincible_ticks_remaining: FLAPPY_INVINCIBLE_TICKS,
                ..s
            }, true)
        }
    }
}

/// The whole tick from a playing state, given the obstacles after recycling.
pub open spec fn spec_tick(s: FlappyState, recycled_obs: Seq<FlappyObstacle>) -> (FlappyState, bool) {
    let m = after_motion(s, recycled_obs);
    let (c, lost) = if spec_collides(spec_player_y(m.player_y_fp), m.obstacles) {
        after_collision(m)
    } else {
        (m, false)
    };
    let f = if c.mode == FlappyMode::Playing && s.invincible_ticks_remaining > 0 {
        FlappyState { invincible_ticks_remaining: (c.invincible_ticks_remaining - 1) as u8, ..c }
    } else {
        c
    };
    (f, lost)
}

impl Default for FlappyGame {
    fn default() -> (r: Self)
        ensures
            r@ == spec_new_flappy(),
    {
        Self::new()
    }
}

/// A fresh game waiting to start.
/// A round just started at `now_us`: the player at the start height with
/// half a flap of lift, three lives, the stored best score, and obstacles
/// 112 pixels apart from x 340 with random valid gaps.
pub open spec fn spec_started(f: FlappyState, best: u32, now_us: i64) -> bool {
    &&& f.mode == FlappyMode::Playing
    &&& f.player_y_fp == 28672
    &&& f.velocity_fp == -380
    &&& f.score == 0
    &&& f.best_score == best
    &&& f.lives == FLAPPY_INITIAL_LIVES
    &&& f.next_extra_life_score == EXTRA_LIFE_SCORE_STEP
    &&& f.invincible_ticks_remaining == 0
    &&& f.last_tick_us == now_us
    &&& f.pause_action == FlappyPauseAction::Continue
    &&& f.obstacles.len() == 3
    &&& forall|i: int| #![trigger f.obstacles[i]] 0 <= i < 3 ==> {
        &&& f.obstacles[i].x == 340 + 112 * i
        &&& !f.obstacles[i].is_scored()
        &&& valid_gap(f.obstacles[i].gap_y)
    }
}

/// One frame of play from `s`: the obstacles scrolled and those off screen
/// recycled with new random gaps, then [`spec_tick`].
pub open spec fn spec_ticked(s: FlappyState, f: FlappyState) -> bool {
    exists|r: Seq<FlappyObstacle>| {
        &&& recycled(spec_scrolled(s.obstacles, spec_scroll_speed(s.score)), r)
        &&& #[trigger] spec_tick(s, r).0 == f
    }
}

/// The store after a frame of play from `s` to `f`: a better best score is
/// recorded; nothing else changes.
pub open spec fn spec_tick_store<H: HighScoreStore>(s: FlappyState, f: FlappyState, h0: &H, h1: &H) -> bool {
    &&& h1.flappy_best() == if f.best_score > h0.flappy_best() && f.best_score > s.best_score {
        f.best_score
    } else {
        h0.flappy_best()
    }
    &&& h1.mario_best() == h0.mario_best()
    &&& h1.flags_best() == h0.flags_best()
    &&& forall|i: int| #[trigger] h1.snake_best(i) == h0.snake_best(i)
    &&& forall|i: int| #[trigger] h1.game2048_best(i) == h0.game2048_best(i)
}

pub open spec fn spec_new_flappy() -> FlappyState {
    FlappyState {
        mode: FlappyMode::Ready,
        player_y_fp: 28672i32,
        velocity_fp: 0,
        score: 0,
        best_score: 0,
        lives: FLAPPY_INITIAL_LIVES,
        next_extra_life_score: EXTRA_LIFE_SCORE_STEP,
        invincible_ticks_remaining: 0,
        last_tick_us: 0,
        pause_action: FlappyPauseAction::Continue,
        obstacles: ready_obstacles(),
    }
}

impl FlappyGame {
    pub fn new() -> (r: Self)
        ensures
            r@ == spec_new_flappy(),
    {
        let r = FlappyGame {
            mode: FlappyMode::Ready,
            player_y_fp: 112 * 256,
            velocity_fp: 0,
            score: 0,
            best_score: 0,
            lives: FLAPPY_INITIAL_LIVES,
            next_extra_life_score: EXTRA_LIFE_SCORE_STEP,
            invincible_ticks_remaining: 0,
            last_tick_us: 0,
            pause_action: FlappyPauseAction::Continue,
            obstacles: [FlappyObstacle::new(340, 80), FlappyObstacle::new(452, 112), FlappyObstacle::new(564, 64)],
        };
        let mut r = r;
        r.reset_obstacles();
        r
    }

    /// Shows the ready screen with a fresh round and the stored best score.
    pub fn enter<H: HighScoreStore>(&mut self, high_scores: &H)
        ensures
            final(self)@ == (FlappyState { best_score: high_scores.flappy_best(), ..spec_new_flappy() }),
    {
        self.mode = FlappyMode::Ready;
        self.player_y_fp = 112 * 256;
        self.velocity_fp = 0;
        self.score = 0;
        self.best_score = high_scores.flappy_best_score();
        self.lives = FLAPPY_INITIAL_LIVES;
        self.next_extra_life_score = EXTRA_LIFE_SCORE_STEP;
        self.invincible_ticks_remaining = 0;
        self.last_tick_us = 0;
        self.pause_action = FlappyPauseAction::Continue;
        self.reset_obstacles();
    }

    /// Starts a round: the player at the start height with half a flap of
    /// lift, three lives, and obstacles 112 pixels apart with random gaps.
    pub fn start<H: HighScoreStore, R: Rng>(&mut self, high_scores: &H, rng: &mut R, now_us: i64)
        ensures
            spec_started(final(self)@, high_scores.flappy_best(), now_us),
    {
        self.mode = FlappyMode::Playing;
        self.player_y_fp = 112 * 256;
        self.velocity_fp = -380;
        self.score = 0;
        self.best_score = high_scores.flappy_best_score();
        self.lives = FLAPPY_INITIAL_LIVES;
        self.next_extra_life_score = EXTRA_LIFE_SCORE_STEP;
        self.invincible_ticks_remaining = 0;
        self.last_tick_us = now_us;
        self.pause_action = FlappyPauseAction::Continue;
        self.seed_obstacles(rng);
    }

    /// Gives the player the full flap lift, during play only.
    pub fn flap(&mut self) -> (r: bool)
        ensures
            r == (old(self)@.mode == FlappyMode::Playing),
            final(self)@ == if r {
                FlappyState { velocity_fp: FLAP_VELOCITY, ..old(self)@ }
            } else {
                old(self)@
            },
    {
        if self.mode != FlappyMode::Playing {
            return false;
        }
        self.velocity_fp = FLAP_VELOCITY;
        true
    }

    pub fn pause(&mut self)
        ensures
            final(self)@ == if old(self)@.mode == FlappyMode::Playing {
                FlappyState { mode: FlappyMode::Paused, pause_action: FlappyPauseAction::Continue, ..old(self)@ }
            } else {
                old(self)@
            },
    {
        if self.mode == FlappyMode::Playing {
            self.mode = FlappyMode::Paused;
            self.pause_action = FlappyPauseAction::Continue;
        }
    }

    pub fn resume(&mut self, now_us: i64)
        ensures
            final(self)@ == if old(self)@.mode == FlappyMode::Paused {
                FlappyState { mode: FlappyMode::Playing, last_tick_us: now_us, ..old(self)@ }
            } else {
                old(self)@
            },
    {
        if self.mode == FlappyMode::Paused {
            self.mode = FlappyMode::Playing;
            self.last_tick_us = now_us;
        }
    }

    pub fn cycle_pause_action(&mut self)
        ensures
            final(self)@ == (FlappyState {
                pause_action: if old(self)@.pause_action == FlappyPauseAction::Continue {
                    FlappyPauseAction::Exit
                } else {
                    FlappyPauseAction::Continue
                },
                ..old(self)@
            }),
    {
        self.pause_action = match self.pause_action {
            FlappyPauseAction::Continue => FlappyPauseAction::Exit,
            FlappyPauseAction::Exit => FlappyPauseAction::Continue,
        };
    }

    pub fn due_for_tick(&self, now_us: i64) -> (r: bool)
        ensures
            r == (self@.mode == FlappyMode::Playing && now_us - self@.last_tick_us >= FLAPPY_TICK_US),
    {
        self.mode == FlappyMode::Playing && (now_us as i128) - (self.last_tick_us as i128) >= 33_000
    }

    pub fn mark_ticked(&mut self, now_us: i64)
        ensures
            final(self)@ == (FlappyState { last_tick_us: now_us, ..old(self)@ }),
    {
        self.last_tick_us = now_us;
    }

    /// One frame of play: gravity, scrolling, recycling, scoring, extra
    /// lives, then collisions and the invincibility countdown (see
    /// [`spec_tick`]).
    pub fn tick<H: HighScoreStore, R: Rng>(&mut self, high_scores: &mut H, rng: &mut R) -> (outcome: FlappyTickOutcome)
        requires
            old(self)@.obstacles.len() == 3,
        ensures
            old(self)@.mode != FlappyMode::Playing ==> final(self)@ == old(self)@ && !outcome.life_lost
                && *final(high_scores) == *old(high_scores),
            old(self)@.mode == FlappyMode::Playing ==> exists|r: Seq<FlappyObstacle>| {
                &&& recycled(spec_scrolled(old(self)@.obstacles, spec_scroll_speed(old(self)@.score)), r)
                &&& (final(self)@, outcome.life_lost) == spec_tick(old(self)@, r)
            },
            old(self)@.mode == FlappyMode::Playing ==> spec_ticked(old(self)@, final(self)@),
            old(self)@.mode == FlappyMode::Playing ==> spec_tick_store(old(self)@, final(self)@, old(high_scores), final(high_scores)),
            final(self)@.obstacles.len() == 3,
    {
        if self.mode != FlappyMode::Playing {
            return FlappyTickOutcome { life_lost: false };
        }
        let ghost s0 = self@;
        let invincible_before_tick = self.invincible_ticks_remaining;
        let mut outcome = FlappyTickOutcome { life_lost: false };
        self.velocity_fp = self.velocity_fp.wrapping_add(GRAVITY);
        self.player_y_fp = self.player_y_fp.wrapping_add(self.velocity_fp);
        let scroll_speed = scroll_speed_for_score(self.score);
        self.scroll_obstacles(scroll_speed);
        let ghost scrolled = self@.obstacles;
        assert(scrolled == spec_scrolled(s0.obstacles, spec_scroll_speed(s0.score)));
        self.recycle_obstacles(rng);
        let ghost r = self@.obstacles;
        let ghost m = after_motion(s0, r);
        let ghost hs0 = *high_scores;
        self.update_score(high_scores);
        assert(self@ == m);
        if self.collides() {
            outcome.life_lost = self.handle_collision(high_scores);
        }
        if self.mode == FlappyMode::Playing && invincible_before_tick > 0 {
            self.invincible_ticks_remaining = self.invincible_ticks_remaining - 1;
        }
        assert((self@, outcome.life_lost) == spec_tick(s0, r));
        assert(spec_tick(s0, r).0 == self@);
        outcome
    }

    /// Keeps the better score and records it in the store when it improved.
    pub fn update_best_score<H: HighScoreStore>(&mut self, high_scores: &mut H)
        ensures
            old(self)@.score > old(self)@.best_score ==> final(self)@ == (FlappyState {
                best_score: old(self)@.score,
                ..old(self)@
            }) && final(high_scores).flappy_best() == (if old(self)@.score > old(high_scores).flappy_best() {
                old(self)@.score
            } else {
                old(high_scores).flappy_best()
            }),
            old(self)@.score <= old(self)@.best_score ==> final(self)@ == old(self)@
                && *final(high_scores) == *old(high_scores),
            final(high_scores).mario_best() == old(high_scores).mario_best(),
            final(high_scores).flags_best() == old(high_scores).flags_best(),
            forall|i: int| #[trigger] final(high_scores).snake_best(i) == old(high_scores).snake_best(i),
            forall|i: int| #[trigger] final(high_scores).game2048_best(i) == old(high_scores).game2048_best(i),
    {
        if self.score > self.best_score {
            self.best_score = self.score;
            high_scores.update_flappy_best_score(self.score);
        }
    }

    /// A game always has three obstacles.
    pub proof fn lemma_three_obstacles(&self)
        ensures
            self@.obstacles.len() == 3,
    {
    }

    pub fn mode(&self) -> (r: FlappyMode)
        ensures
            r == self@.mode,
    {
        self.mode
    }

    /// The player's top edge in pixels.
    pub fn player_y(&self) -> (r: i16)
        ensures
            r == spec_player_y(self@.player_y_fp),
    {
        let y = self.player_y_fp;
        let q: i32 = if y >= 0 { y / 256 } else { -((-(y as i64)) / 256) as i32 };
        #[verifier::truncate]
        (q as i16)
    }

    pub fn velocity_fp(&self) -> (r: i32)
        ensures
            r == self@.velocity_fp,
    {
        self.velocity_fp
    }

    pub fn score(&self) -> (r: u32)
        ensures
            r == self@.score,
    {
        self.score
    }

    pub fn best_score(&self) -> (r: u32)
        ensures
            r == self@.best_score,
    {
        self.best_score
    }

    pub fn lives(&self) -> (r: u32)
        ensures
            r == self@.lives,
    {
        self.lives
    }

    pub fn invincible_ticks_remaining(&self) -> (r: u8)
        ensures
            r == self@.invincible_ticks_remaining,
    {
        self.invincible_ticks_remaining
    }

    pub fn pause_action(&self) -> (r: FlappyPauseAction)
        ensures
            r == self@.pause_action,
    {
        self.pause_action
    }

    pub fn obstacles(&self) -> (r: &[FlappyObstacle; 3])
        ensures
            r@ == self@.obstacles,
    {
        &self.obstacles
    }

    /// Puts the player at height `y` pixels.
    pub fn set_player_y_for_test(&mut self, y: i16)
        ensures
            final(self)@ == (FlappyState { player_y_fp: (y * FP_ONE) as i32, ..old(self)@ }),
    {
        self.player_y_fp = y as i32 * FP_ONE;
    }

    pub fn set_obstacle_for_test(&mut self, index: usize, obstacle: FlappyObstacle)
        requires
            index < 3,
        ensures
            final(self)@ == (FlappyState { obstacles: old(self)@.obstacles.update(index as int, obstacle), ..old(self)@ }),
    {
        self.obstacles[index] = obstacle;
    }

    pub fn set_score_for_test(&mut self, score: u32)
        ensures
            final(self)@ == (FlappyState { score, ..old(self)@ }),
    {
        self.score = score;
    }

    pub fn set_motion_for_test(&mut self, y: i16, velocity_fp: i32)
        ensures
            final(self)@ == (FlappyState { player_y_fp: (y * FP_ONE) as i32, velocity_fp, ..old(self)@ }),
    {
        self.player_y_fp = y as i32 * FP_ONE;
        self.velocity_fp = velocity_fp;
    }

    pub fn set_lives_for_test(&mut self, lives: u32)
        ensures
            final(self)@ == (FlappyState { lives, ..old(self)@ }),
    {
        self.lives = lives;
    }

    /// A fresh round put straight into play, with the starting obstacles.
    pub fn force_playing_for_test<H: HighScoreStore>(&mut self, high_scores: &H)
        ensures
            final(self)@ == (FlappyState {
                mode: FlappyMode::Playing,
                best_score: high_scores.flappy_best(),
                ..spec_new_flappy()
            }),
    {
        self.enter(high_scores);
        self.mode = FlappyMode::Playing;
    }

    fn reset_obstacles(&mut self)
        ensures
            final(self)@ == (FlappyState { obstacles: ready_obstacles(), ..old(self)@ }),
    {
        self.obstacles = [FlappyObstacle::new(340, 80), FlappyObstacle::new(452, 80), FlappyObstacle::new(564, 80)];
        assert(self.obstacles@ =~= ready_obstacles());
    }

    fn seed_obstacles<R: Rng>(&mut self, rng: &mut R)
        ensures
            final(self)@ == (FlappyState { obstacles: final(self)@.obstacles, ..old(self)@ }),
            final(self)@.obstacles.len() == 3,
            forall|i: int| #![trigger final(self)@.obstacles[i]] 0 <= i < 3 ==> {
                &&& final(self)@.obstacles[i].x == 340 + 112 * i
                &&& !final(self)@.obstacles[i].is_scored()
                &&& valid_gap(final(self)@.obstacles[i].gap_y)
            },
    {
        let g0 = random_gap_y(rng);
        let g1 = random_gap_y(rng);
        let g2 = random_gap_y(rng);
        self.obstacles = [FlappyObstacle::new(340, g0), FlappyObstacle::new(452, g1), FlappyObstacle::new(564, g2)];
        assert(self@.obstacles[0].x == 340 + 112 * 0);
        assert(self@.obstacles[1].x == 340 + 112 * 1);
        assert(self@.obstacles[2].x == 340 + 112 * 2);
    }

    fn scroll_obstacles(&mut self, speed: i16)
        requires
            old(self)@.obstacles.len() == 3,
        ensures
            final(self)@ == (FlappyState { obstacles: spec_scrolled(old(self)@.obstacles, speed), ..old(self)@ }),
    {
        let mut i: usize = 0;
        while i < 3
            invariant
                i <= 3,
                self@ == (FlappyState { obstacles: self@.obstacles, ..old(self)@ }),
                self@.obstacles.len() == 3,
                forall|t: int| 0 <= t < i ==> #[trigger] self@.obstacles[t] == spec_scrolled(old(self)@.obstacles, speed)[t],
                forall|t: int| i <= t < 3 ==> #[trigger] self@.obstacles[t] == old(self)@.obstacles[t],
            decreases 3 - i,
        {
            let o = self.obstacles[i];
            let moved = FlappyObstacle { x: o.x.wrapping_sub(speed), ..o };
            self.obstacles[i] = moved;
            assert(self@.obstacles[i as int] == spec_scrolled(old(self)@.obstacles, speed)[i as int]);
            i = i + 1;
        }
        assert(self@.obstacles =~= spec_scrolled(old(self)@.obstacles, speed));
    }

    fn recycle_obstacles<R: Rng>(&mut self, rng: &mut R)
        requires
            old(self)@.obstacles.len() == 3,
        ensures
            recycled(old(self)@.obstacles, final(self)@.obstacles),
            final(self)@ == (FlappyState { obstacles: final(self)@.obstacles, ..old(self)@ }),
    {
        let ghost before = self@.obstacles;
        let mut max_x = self.obstacles[0].x;
        if self.obstacles[1].x > max_x {
            max_x = self.obstacles[1].x;
        }
        if self.obstacles[2].x > max_x {
            max_x = self.obstacles[2].x;
        }
        let mut i: usize = 0;
        while i < 3
            invariant
                i <= 3,
                before.len() == 3,
                self@ == (FlappyState { obstacles: self@.obstacles, ..old(self)@ }),
                before == old(self)@.obstacles,
                self@.obstacles.len() == 3,
                max_x == recycle_anchor(before, i as int),
                forall|t: int| i <= t < 3 ==> #[trigger] self@.obstacles[t] == before[t],
                forall|t: int| 0 <= t < i ==> #[trigger] self@.obstacles[t] == if off_screen(before[t]) {
                    FlappyObstacle {
                        x: vstd::wrapping::i16_specs::wrapping_add(recycle_anchor(before, t), FLAPPY_OBSTACLE_SPACING),
                        gap_y: self@.obstacles[t].gap_y,
                        scored: false,
                    }
                } else {
                    before[t]
                },
                forall|t: int| 0 <= t < i && off_screen(before[t]) ==> valid_gap(#[trigger] self@.obstacles[t].gap_y),
            decreases 3 - i,
        {
            let o = self.obstacles[i];
            if (o.x as i32) + 24 < 0 {
                let x = max_x.wrapping_add(FLAPPY_OBSTACLE_SPACING);
                let gap = random_gap_y(rng);
                self.obstacles[i] = FlappyObstacle { x, gap_y: gap, scored: false };
                max_x = x;
            }
            i = i + 1;
        }
    }

    fn update_score<H: HighScoreStore>(&mut self, high_scores: &mut H)
        requires
            old(self)@.obstacles.len() == 3,
        ensures
            ({
                let o = old(self)@;
                let passed = passed_count(o.obstacles, 3);
                let score = bump(o.score, passed);
                let (lives, next) = if passed > 0 {
                    spec_award(score, o.lives, o.next_extra_life_score)
                } else {
                    (o.lives, o.next_extra_life_score)
                };
                &&& final(self)@ == (FlappyState {
                    obstacles: spec_mark_passed(o.obstacles),
                    score,
                    lives,
                    next_extra_life_score: next,
                    best_score: if score > o.best_score { score } else { o.best_score },
                    ..o
                })
                &&& final(high_scores).flappy_best() == if score > o.best_score && score > old(high_scores).flappy_best() {
                    score
                } else {
                    old(high_scores).flappy_best()
                }
                &&& score <= o.best_score ==> *final(high_scores) == *old(high_scores)
            }),
            final(high_scores).mario_best() == old(high_scores).mario_best(),
            final(high_scores).flags_best() == old(high_scores).flags_best(),
            forall|i: int| #[trigger] final(high_scores).snake_best(i) == old(high_scores).snake_best(i),
            forall|i: int| #[trigger] final(high_scores).game2048_best(i) == old(high_scores).game2048_best(i),
    {
        let ghost before = self@.obstacles;
        let mut scored = false;
        let mut i: usize = 0;
        while i < 3
            invariant
                i <= 3,
                before == old(self)@.obstacles,
                before.len() == 3,
                self@.obstacles.len() == 3,
                self@ == (FlappyState { obstacles: self@.obstacles, score: self@.score, ..old(self)@ }),
                self@.score == bump(old(self)@.score, passed_count(before, i as int)),
                scored == (passed_count(before, i as int) > 0),
                0 <= passed_count(before, i as int) <= i,
                forall|t: int| 0 <= t < i ==> #[trigger] self@.obstacles[t] == spec_mark_passed(before)[t],
                forall|t: int| i <= t < 3 ==> #[trigger] self@.obstacles[t] == before[t],
            decreases 3 - i,
        {
            let o = self.obstacles[i];
            if !o.scored && 58 > (o.x as i32) + 24 {
                self.obstacles[i] = FlappyObstacle { scored: true, ..o };
                self.score = self.score.wrapping_add(1);
                scored = true;
            }
            i = i + 1;
        }
        assert(self@.obstacles =~= spec_mark_passed(before));
        if scored {
            self.award_extra_lives();
        }
        if self.score > self.best_score {
            self.best_score = self.score;
            high_scores.update_flappy_best_score(self.score);
        }
    }

    fn award_extra_lives(&mut self)
        ensures
            ({
                let (lives, next) = spec_award(old(self)@.score, old(self)@.lives, old(self)@.next_extra_life_score);
                final(self)@ == (FlappyState { lives, next_extra_life_score: next, ..old(self)@ })
            }),
    {
        while self.score >= self.next_extra_life_score
            invariant_except_break
                spec_award(old(self)@.score, old(self)@.lives, old(self)@.next_extra_life_score)
                    == spec_award(self@.score, self@.lives, self@.next_extra_life_score),
            invariant
                self@ == (FlappyState { lives: self@.lives, next_extra_life_score: self@.next_extra_life_score, ..old(self)@ }),
            ensures
                spec_award(old(self)@.score, old(self)@.lives, old(self)@.next_extra_life_score)
                    == (self@.lives, self@.next_extra_life_score),
                self@ == (FlappyState { lives: self@.lives, next_extra_life_score: self@.next_extra_life_score, ..old(self)@ }),
            decreases u32::MAX - self.next_extra_life_score,
        {
            let ghost before = self@;
            self.lives = self.lives.saturating_add(1);
            if let Some(next_score) = self.next_extra_life_score.checked_add(EXTRA_LIFE_SCORE_STEP) {
                self.next_extra_life_score = next_score;
            } else {
                break;
            }
        }
    }

    fn handle_collision<H: HighScoreStore>(&mut self, high_scores: &mut H) -> (lost: bool)
        ensures
            (final(self)@, lost) == after_collision(old(self)@),
            final(high_scores).flappy_best() == if lost && final(self)@.lives == 0
                && old(self)@.score > old(self)@.best_score
                && old(self)@.score > old(high_scores).flappy_best() {
                old(self)@.score
            } else {
                old(high_scores).flappy_best()
            },
            final(high_scores).mario_best() == old(high_scores).mario_best(),
            final(high_scores).flags_best() == old(high_scores).flags_best(),
            forall|i: int| #[trigger] final(high_scores).snake_best(i) == old(high_scores).snake_best(i),
            forall|i: int| #[trigger] final(high_scores).game2048_best(i) == old(high_scores).game2048_best(i),
    {
        if self.invincible_ticks_remaining > 0 {
            return false;
        }
        self.lives = self.lives.saturating_sub(1);
        if self.lives == 0 {
            self.mode = FlappyMode::GameOver;
            self.update_best_score(high_scores);
        } else {
            self.player_y_fp = 112 * 256;
            self.velocity_fp = -380;
            self.invincible_ticks_remaining = FLAPPY_INVINCIBLE_TICKS;
        }
        true
    }

    fn collides(&self) -> (r: bool)
        requires
            self@.obstacles.len() == 3,
        ensures
            r == spec_collides(spec_player_y(self@.player_y_fp), self@.obstacles),
    {
        let player_y = self.player_y() as i32;
        if player_y < 24 || player_y + 20 > 224 {
            return true;
        }
        let mut i: usize = 0;
        while i < 3
            invariant
                i <= 3,
                self@.obstacles.len() == 3,
                player_y == spec_player_y(self@.player_y_fp),
                forall|t: int| 0 <= t < i ==> !#[trigger] hits_obstacle(spec_player_y(self@.player_y_fp), self@.obstacles[t]),
            decreases 3 - i,
        {
            let o = self.obstacles[i];
            let left = o.x as i32;
            let right = left + 24;
            if !(58 + 20 <= left || 58 >= right) {
                let gap_top = o.gap_y as i32;
                let gap_bottom = gap_top + 78;
                if player_y < gap_top || player_y + 20 > gap_bottom {
                    assert(hits_obstacle(spec_player_y(self@.player_y_fp), self@.obstacles[i as int]));
                    return true;
                }
            }
            i = i + 1;
        }
        assert(!spec_collides(spec_player_y(self@.player_y_fp), self@.obstacles));
        false
    }
}

/// A random gap position out of the seven choices.
pub fn random_gap_y<R: Rng>(rng: &mut R) -> (r: i16)
    ensures
        valid_gap(r),
{
    let k = rng.index(GAP_CHOICES);
    let r = GAP_MIN_Y + (k as i16) * GAP_STEP;
    assert((r - GAP_MIN_Y) % 16int == 0) by {
        vstd::arithmetic::div_mod::lemma_mod_multiples_basic(k as int, 16);
    }
    r
}

pub fn scroll_speed_for_score(score: u32) -> (r: i16)
    ensures
        r == spec_scroll_speed(score),
{
    let bonus = score / SCORE_PER_SPEED_STEP;
    let capped = if bonus > 32765 { 32765 } else { bonus };
    BASE_SCROLL_SPEED + capped as i16
}

} // verus!
