use vstd::prelude::*;
use crate::app::AppAction;
use crate::config::Direction;
use crate::input::InputFrame;
use crate::mario::{
    mario_valid, spec_best_update, spec_cycle_pause_action, spec_jump, spec_mario_tick, spec_pause,
    spec_release_jump, spec_reset, spec_resume, spec_set_direction, MarioGame, MarioMode, MarioPauseAction,
    MarioState, TICK_US,
};
use crate::mario_renderer::{self, captured, play_delta_cmds, MarioRenderState};
use crate::render::{appends, frame_cmds, lemma_appends_chain, lemma_sent_appends, sent, sent_frame, DisplaySink};
use crate::rng::Rng;
use crate::speaker::Speaker;
use crate::store::HighScoreStore;

verus! {

broadcast use lemma_sent_appends, lemma_appends_chain;

/// The abstract state of the Mario application.
pub struct MarioAppState {
    pub game: MarioState,
    pub last_menu_direction_us: i64,
    pub left_held: bool,
    pub right_held: bool,
    pub flap_ready: bool,
    pub last_play_direction_us: i64,
}

/// A frame of the game when one is due, stamped with the time.
pub open spec fn tick_if_due(g: MarioState, now_us: i64) -> MarioState {
    if now_us - g.last_tick_us >= TICK_US { MarioState { last_tick_us: now_us, ..spec_mario_tick(g) } } else { g }
}

/// What one update does: the new state, the action for the host, and the
/// game state whose score is offered to the high-score store, if any.
///
/// From the start or game-over panel the switch starts a round. In play a
/// long press pauses; a direction walks (and keeps walking for 150 ms after
/// the stick is let go); a fresh switch press jumps and letting go ends the
/// jump; a frame runs when due, and a cleared level saves the score. In the
/// pause menu up, down or the knob move the selection (at most every
/// 120 ms) and the switch continues or leaves, saving the score. Dying and
/// the level-complete pause run their frames.
pub open spec fn spec_mario_app_update(s: MarioAppState, input: InputFrame, now_us: i64) -> (MarioAppState, AppAction, Option<MarioState>) {
    match s.game.mode {
        MarioMode::Ready | MarioMode::GameOver => spec_app_waiting(s, input),
        MarioMode::Playing => spec_app_playing(s, input, now_us),
        MarioMode::Paused => spec_app_paused(s, input, now_us),
        MarioMode::Dying | MarioMode::LevelComplete => {
            (MarioAppState { game: tick_if_due(s.game, now_us), ..s }, AppAction::Nothing, None)
        },
    }
}

/// On the start or game-over panel: the switch starts a round.
pub open spec fn spec_app_waiting(s: MarioAppState, input: InputFrame) -> (MarioAppState, AppAction, Option<MarioState>) {
    if input.joystick.switch_pressed {
        (MarioAppState { game: MarioState { mode: MarioMode::Playing, ..spec_reset(s.game) }, ..s }, AppAction::Nothing, None)
    } else {
        (MarioAppState { flap_ready: false, ..s }, AppAction::Nothing, None)
    }
}

/// Where the player walks: the stick's direction, kept for 150 ms after it
/// is let go.
pub open spec fn spec_walk(s: MarioAppState, input: InputFrame, now_us: i64) -> (bool, bool, i64) {
    match input.joystick.direction {
        Some(Direction::Left) => (true, false, now_us),
        Some(Direction::Right) => (false, true, now_us),
        _ => if now_us - s.last_play_direction_us > 150_000 {
            (false, false, s.last_play_direction_us)
        } else {
            (s.left_held, s.right_held, s.last_play_direction_us)
        },
    }
}

/// The player's controls before the frame: walking, and a jump on a fresh
/// switch press or its end when the switch is let go.
pub open spec fn spec_app_controls(s: MarioAppState, input: InputFrame, now_us: i64) -> MarioAppState {
    let sw = input.joystick.switch_pressed;
    let (l, r, lp) = spec_walk(s, input, now_us);
    let g1 = spec_set_direction(s.game, l, r);
    let g2 = if sw && !s.flap_ready { spec_jump(g1) } else if !sw { spec_release_jump(g1) } else { g1 };
    MarioAppState { left_held: l, right_held: r, last_play_direction_us: lp, flap_ready: sw, game: g2, ..s }
}

/// In play: a long press pauses; otherwise the controls, a frame when due,
/// and the score saved when the level is cleared.
pub open spec fn spec_app_playing(s: MarioAppState, input: InputFrame, now_us: i64) -> (MarioAppState, AppAction, Option<MarioState>) {
    if input.joystick.switch_long_pressed {
        (MarioAppState { game: spec_pause(s.game), ..s }, AppAction::Nothing, None)
    } else {
        let c = spec_app_controls(s, input, now_us);
        let g3 = tick_if_due(c.game, now_us);
        let s1 = MarioAppState { game: g3, ..c };
        if g3.mode == MarioMode::LevelComplete {
            (MarioAppState { game: spec_best_update(g3), ..s1 }, AppAction::Nothing, Some(g3))
        } else {
            (s1, AppAction::Nothing, None)
        }
    }
}

/// In the pause menu: up, down or the knob move the selection, at most
/// every 120 ms; the switch continues, or leaves saving the score.
pub open spec fn spec_app_paused(s: MarioAppState, input: InputFrame, now_us: i64) -> (MarioAppState, AppAction, Option<MarioState>) {
    let dir = input.joystick.direction;
    let g = s.game;
    if now_us - s.last_menu_direction_us >= 120_000
        && (dir == Some(Direction::Up) || dir == Some(Direction::Down) || input.encoder.detents != 0) {
        (MarioAppState { game: spec_cycle_pause_action(g), last_menu_direction_us: now_us, ..s }, AppAction::Nothing, None)
    } else if input.joystick.switch_pressed || input.encoder.switch_pressed {
        match g.pause_action {
            MarioPauseAction::Continue => (MarioAppState { game: spec_resume(g), ..s }, AppAction::Nothing, None),
            MarioPauseAction::Exit => (MarioAppState { game: spec_best_update(g), ..s }, AppAction::ExitToLauncher, Some(g)),
        }
    } else {
        (s, AppAction::Nothing, None)
    }
}

/// What the store holds after the game offered it `saved`: a better score
/// replaces the stored one; nothing else changes.
pub open spec fn store_after<H: HighScoreStore>(before: &H, after: &H, saved: Option<MarioState>) -> bool {
    &&& after.mario_best() == match saved {
        Some(g) => if g.score > g.best_score && g.score > before.mario_best() { g.score } else { before.mario_best() },
        None => before.mario_best(),
    }
    &&& after.flappy_best() == before.flappy_best()
    &&& after.flags_best() == before.flags_best()
    &&& forall|i: int| #[trigger] after.snake_best(i) == before.snake_best(i)
    &&& forall|i: int| #[trigger] after.game2048_best(i) == before.game2048_best(i)
}

/// The pause menu's selection moves on this frame.
pub open spec fn mario_menu_moves(s: MarioAppState, input: InputFrame, now_us: i64) -> bool {
    let dir = input.joystick.direction;
    now_us - s.last_menu_direction_us >= 120_000
        && (dir == Some(Direction::Up) || dir == Some(Direction::Down) || input.encoder.detents != 0)
}

/// The frames on which the whole screen is redrawn, from `s` to `f`: a
/// start or a press on the start or game-over panel (once, on the first
/// frame shown), pausing, a move or a continue in the pause menu, the end
/// of dying, and the next level.
pub open spec fn mario_full_redraw(s: MarioAppState, input: InputFrame, now_us: i64, f: MarioAppState) -> bool {
    match s.game.mode {
        MarioMode::Ready | MarioMode::GameOver => input.joystick.switch_pressed || s.flap_ready,
        MarioMode::Playing => input.joystick.switch_long_pressed,
        MarioMode::Paused => mario_menu_moves(s, input, now_us) || ((input.joystick.switch_pressed
            || input.encoder.switch_pressed) && s.game.pause_action == MarioPauseAction::Continue),
        MarioMode::Dying => f.game.mode == MarioMode::GameOver || f.game.mode == MarioMode::Playing,
        MarioMode::LevelComplete => f.game.mode == MarioMode::Ready,
    }
}

/// A frame of play whose tick is due.
pub open spec fn mario_play_tick(s: MarioAppState, input: InputFrame, now_us: i64) -> bool {
    &&& s.game.mode == MarioMode::Playing
    &&& !input.joystick.switch_long_pressed
    &&& now_us - spec_app_controls(s, input, now_us).game.last_tick_us >= TICK_US
}

/// What a due play frame sends, from `before` to `after`: the changes since
/// the frame before the tick, then the whole screen when the level was
/// completed.
pub open spec fn mario_tick_sent<D: DisplaySink>(s: MarioAppState, input: InputFrame, now_us: i64, f: MarioAppState, before: D, after: D) -> bool {
    let c = spec_app_controls(s, input, now_us);
    let g3 = tick_if_due(c.game, now_us);
    exists|prev: MarioRenderState, mid: D| #![trigger captured(prev, c.game), sent(before, mid, play_delta_cmds(g3, prev))] {
        &&& captured(prev, c.game)
        &&& sent(before, mid, play_delta_cmds(g3, prev))
        &&& if g3.mode == MarioMode::LevelComplete {
            sent(mid, after, frame_cmds(mario_renderer::SKY, mario_renderer::screen_cmds(f.game)))
        } else {
            mid == after
        }
    }
}

pub struct MarioApplication {
    game: MarioGame,
    last_menu_direction_us: i64,
    left_held: bool,
    right_held: bool,
    flap_ready: bool,
    last_play_direction_us: i64,
}

impl View for MarioApplication {
    type V = MarioAppState;

    closed spec fn view(&self) -> MarioAppState {
        MarioAppState {
            game: self.game@,
            last_menu_direction_us: self.last_menu_direction_us,
            left_held: self.left_held,
            right_held: self.right_held,
            flap_ready: self.flap_ready,
            last_play_direction_us: self.last_play_direction_us,
        }
    }
}

impl MarioApplication {
    pub fn new() -> (r: Self)
        ensures
            r@.game == crate::mario::spec_new_game(),
            r@.flap_ready,
            !r@.left_held && !r@.right_held,
            r@.last_menu_direction_us == 0 && r@.last_play_direction_us == 0,
            mario_valid(r@.game),
    {
        MarioApplication {
            game: MarioGame::new(),
            last_menu_direction_us: 0,
            left_held: false,
            right_held: false,
            flap_ready: true,
            last_play_direction_us: 0,
        }
    }

    pub fn title(&self) -> (r: &'static str)
        ensures
            r@ == "Super Om Nomario"@,
    {
        "Super Om Nomario"
    }

    /// Opens the game: the stored best score, a fresh round, nothing held.
    pub fn enter<H: HighScoreStore>(&mut self, high_scores: &H)
        ensures
            final(self)@ == (MarioAppState {
                game: spec_reset(MarioState { best_score: high_scores.mario_best(), ..old(self)@.game }),
                left_held: false,
                right_held: false,
                flap_ready: true,
                ..old(self)@
            }),
            mario_valid(final(self)@.game),
    {
        self.game.enter(high_scores);
        self.left_held = false;
        self.right_held = false;
        self.flap_ready = true;
    }

    /// Handles one input frame (see `spec_mario_app_update`) and redraws
    /// what changed.
    pub fn update<D: DisplaySink, H: HighScoreStore, R: Rng, S: Speaker>(
        &mut self,
        display: &mut D,
        high_scores: &mut H,
        rng: &mut R,
        speaker: &mut S,
        input: InputFrame,
        now_us: i64,
    ) -> (action: AppAction)
        requires
            mario_valid(old(self)@.game),
        ensures
            (final(self)@, action, spec_mario_app_update(old(self)@, input, now_us).2)
                == spec_mario_app_update(old(self)@, input, now_us),
            mario_valid(final(self)@.game),
            appends(*old(display), *final(display)),
            mario_full_redraw(old(self)@, input, now_us, final(self)@) ==> sent(*old(display), *final(display), frame_cmds(mario_renderer::SKY, mario_renderer::screen_cmds(final(self)@.game))),
            mario_play_tick(old(self)@, input, now_us) ==> mario_tick_sent(old(self)@, input, now_us, final(self)@, *old(display), *final(display)),
            !mario_full_redraw(old(self)@, input, now_us, final(self)@) && !mario_play_tick(old(self)@, input, now_us)
                ==> *final(display) == *old(display),
            store_after(old(high_scores), final(high_scores), spec_mario_app_update(old(self)@, input, now_us).2),
    {
        match self.game.mode() {
            MarioMode::Ready | MarioMode::GameOver => {
                self.update_waiting(display, input);
                AppAction::Nothing
            },
            MarioMode::Playing => {
                self.update_playing(display, high_scores, input, now_us);
                AppAction::Nothing
            },
            MarioMode::Paused => self.update_paused(display, high_scores, input, now_us),
            MarioMode::Dying => {
                if self.game.due_for_tick(now_us) {
                    self.game.tick(high_scores);
                    self.game.mark_ticked(now_us);
                }
                if self.game.mode() == MarioMode::GameOver || self.game.mode() == MarioMode::Playing {
                    self.render_full(display);
                }
                proof { crate::mario::lemma_store_unchanged(&*high_scores); }
                AppAction::Nothing
            },
            MarioMode::LevelComplete => {
                if self.game.due_for_tick(now_us) {
                    self.game.tick(high_scores);
                    self.game.mark_ticked(now_us);
                    if self.game.mode() == MarioMode::Ready {
                        self.render_full(display);
                    }
                }
                proof { crate::mario::lemma_store_unchanged(&*high_scores); }
                AppAction::Nothing
            },
        }
    }

    fn update_waiting<D: DisplaySink>(&mut self, display: &mut D, input: InputFrame)
        requires
            mario_valid(old(self)@.game),
            old(self)@.game.mode == MarioMode::Ready || old(self)@.game.mode == MarioMode::GameOver,
        ensures
            final(self)@ == spec_app_waiting(old(self)@, input).0,
            mario_valid(final(self)@.game),
            appends(*old(display), *final(display)),
            input.joystick.switch_pressed || old(self)@.flap_ready ==> sent(*old(display), *final(display), frame_cmds(mario_renderer::SKY, mario_renderer::screen_cmds(final(self)@.game))),
            !(input.joystick.switch_pressed || old(self)@.flap_ready) ==> *final(display) == *old(display),
    {
        if input.joystick.switch_pressed {
            self.game.start();
            self.render_full(display);
            return;
        }
        if self.flap_ready {
            self.render_full(display);
            self.flap_ready = false;
        }
    }

    fn update_playing<D: DisplaySink, H: HighScoreStore>(&mut self, display: &mut D, high_scores: &mut H, input: InputFrame, now_us: i64)
        requires
            mario_valid(old(self)@.game),
            old(self)@.game.mode == MarioMode::Playing,
        ensures
            final(self)@ == spec_app_playing(old(self)@, input, now_us).0,
            mario_valid(final(self)@.game),
            appends(*old(display), *final(display)),
            input.joystick.switch_long_pressed ==> sent(*old(display), *final(display), frame_cmds(mario_renderer::SKY, mario_renderer::screen_cmds(final(self)@.game))),
            mario_play_tick(old(self)@, input, now_us) ==> mario_tick_sent(old(self)@, input, now_us, final(self)@, *old(display), *final(display)),
            !input.joystick.switch_long_pressed && !mario_play_tick(old(self)@, input, now_us) ==> *final(display) == *old(display),
            store_after(old(high_scores), final(high_scores), spec_app_playing(old(self)@, input, now_us).2),
    {
        if input.joystick.switch_long_pressed {
            self.game.pause();
            self.render_full(display);
            proof { crate::mario::lemma_store_unchanged(&*high_scores); }
            return;
        }
        self.apply_controls(input, now_us);
        let ghost c = self@;
        let ghost d0 = *display;
        if self.game.due_for_tick(now_us) {
            let prev = MarioRenderState::capture(&self.game);
            self.game.tick(high_scores);
            self.game.mark_ticked(now_us);
            mario_renderer::render_play_delta(display, &self.game, prev);
            let ghost mid = *display;
            let ghost g3 = self@.game;
            if self.game.mode() == MarioMode::LevelComplete {
                self.game.update_best_score(high_scores);
                self.render_full(display);
            } else {
                proof { crate::mario::lemma_store_unchanged(&*high_scores); }
            }
            proof {
                assert(captured(prev, c.game) && sent(d0, mid, play_delta_cmds(g3, prev)));
            }
        } else {
            proof { crate::mario::lemma_store_unchanged(&*high_scores); }
        }
    }

    fn apply_controls(&mut self, input: InputFrame, now_us: i64)
        requires
            mario_valid(old(self)@.game),
        ensures
            final(self)@ == spec_app_controls(old(self)@, input, now_us),
            mario_valid(final(self)@.game),
    {
        match input.joystick.direction {
            Some(Direction::Left) => {
                self.left_held = true;
                self.right_held = false;
                self.last_play_direction_us = now_us;
            },
            Some(Direction::Right) => {
                self.left_held = false;
                self.right_held = true;
                self.last_play_direction_us = now_us;
            },
            _ => {
                // Walking goes on briefly after the stick is let go.
                if (now_us as i128) - (self.last_play_direction_us as i128) > 150_000 {
                    self.left_held = false;
                    self.right_held = false;
                }
            },
        }
        self.game.set_direction(self.left_held, self.right_held);
        let just_pressed = input.joystick.switch_pressed && !self.flap_ready;
        self.flap_ready = input.joystick.switch_pressed;
        if just_pressed {
            self.game.jump();
        } else if !input.joystick.switch_pressed {
            self.game.release_jump();
            self.flap_ready = false;
        }
    }

    fn update_paused<D: DisplaySink, H: HighScoreStore>(&mut self, display: &mut D, high_scores: &mut H, input: InputFrame, now_us: i64) -> (action: AppAction)
        requires
            mario_valid(old(self)@.game),
            old(self)@.game.mode == MarioMode::Paused,
        ensures
            (final(self)@, action) == (spec_app_paused(old(self)@, input, now_us).0, spec_app_paused(old(self)@, input, now_us).1),
            mario_valid(final(self)@.game),
            appends(*old(display), *final(display)),
            mario_full_redraw(old(self)@, input, now_us, final(self)@) ==> sent(*old(display), *final(display), frame_cmds(mario_renderer::SKY, mario_renderer::screen_cmds(final(self)@.game))),
            !mario_full_redraw(old(self)@, input, now_us, final(self)@) ==> *final(display) == *old(display),
            store_after(old(high_scores), final(high_scores), spec_app_paused(old(self)@, input, now_us).2),
    {
        let dir = input.joystick.direction;
        if (now_us as i128) - (self.last_menu_direction_us as i128) >= 120_000
            && (dir == Some(Direction::Up) || dir == Some(Direction::Down) || input.encoder.detents != 0) {
            self.game.cycle_pause_action();
            self.last_menu_direction_us = now_us;
            self.render_full(display);
            proof { crate::mario::lemma_store_unchanged(&*high_scores); }
            return AppAction::Nothing;
        }
        if input.joystick.switch_pressed || input.encoder.switch_pressed {
            match self.game.pause_action() {
                MarioPauseAction::Continue => {
                    self.game.resume();
                    self.render_full(display);
                    proof { crate::mario::lemma_store_unchanged(&*high_scores); }
                },
                MarioPauseAction::Exit => {
                    self.game.update_best_score(high_scores);
                    return AppAction::ExitToLauncher;
                },
            }
            return AppAction::Nothing;
        }
        proof { crate::mario::lemma_store_unchanged(&*high_scores); }
        AppAction::Nothing
    }

    /// Redraws the whole screen.
    pub fn render_full<D: DisplaySink>(&self, display: &mut D)
        requires
            mario_valid(self@.game),
        ensures
            sent(*old(display), *final(display), frame_cmds(mario_renderer::SKY, mario_renderer::screen_cmds(self@.game))),
            sent_frame(*old(display), *final(display), mario_renderer::SKY),
    {
        mario_renderer::render(display, &self.game);
    }

    pub fn game(&self) -> (r: &MarioGame)
        ensures
            r@ == self@.game,
    {
        &self.game
    }

    /// The game, for changing it directly.
    pub fn game_mut(&mut self) -> (r: &mut MarioGame)
        ensures
            r@ == old(self)@.game,
            final(self)@ == (MarioAppState { game: final(r)@, ..old(self)@ }),
    {
        &mut self.game
    }
}

impl Default for MarioApplication {
    fn default() -> (r: Self)
        ensures
            r@.game == crate::mario::spec_new_game(),
            mario_valid(r@.game),
    {
        Self::new()
    }
}

} // verus!
