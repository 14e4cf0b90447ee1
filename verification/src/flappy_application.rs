use vstd::prelude::*;
use crate::app::AppAction;
use crate::config::Direction;
use crate::flappy::{
    spec_started, spec_tick_store, spec_ticked, FlappyGame, FlappyMode, FlappyPauseAction, FlappyState, FLAPPY_TICK_US,
    FLAP_VELOCITY,
};
use crate::flappy_renderer::{self, captured, lemma_snapshot_captured, play_delta_cmds, snapshot, FlappyRenderState};
use crate::input::InputFrame;
use crate::render::{
    appends, frame_cmds, lemma_appends_chain, lemma_sent_appends, lemma_sent_nothing, lemma_sent_then, sent, sent_frame, DisplaySink,
    DrawCommand,
};
use crate::rng::Rng;
use crate::speaker::Speaker;
use crate::store::HighScoreStore;

verus! {

broadcast use lemma_sent_appends, lemma_appends_chain;

/// The abstract state of the Om Nom application.
pub struct FlappyAppState {
    pub game: FlappyState,
    pub last_menu_direction_us: i64,
    pub last_flap_us: i64,
    pub flap_ready: bool,
}

/// In the pause menu, the knob or a due up or down direction moves the
/// selection; otherwise the switch acts on it.
pub open spec fn pause_selection_moves(s: FlappyAppState, input: InputFrame, now_us: i64) -> bool {
    ||| input.encoder.detents != 0
    ||| input.joystick.has_direction && now_us - s.last_menu_direction_us >= 250_000
        && (input.joystick.direction == Some(Direction::Up) || input.joystick.direction == Some(Direction::Down))
}

/// The switch on the pause menu's exit entry leaves the game.
pub open spec fn leaves(s: FlappyAppState, input: InputFrame, now_us: i64) -> bool {
    &&& s.game.mode == FlappyMode::Paused
    &&& !pause_selection_moves(s, input, now_us)
    &&& (input.joystick.switch_pressed || input.encoder.switch_pressed)
    &&& s.game.pause_action == FlappyPauseAction::Exit
}

/// Whether the switch was pressed, on the stick or on the knob.
pub open spec fn switch_pressed(input: InputFrame) -> bool {
    input.joystick.switch_pressed || input.encoder.switch_pressed
}

/// Up is held on the stick.
pub open spec fn up_held(input: InputFrame) -> bool {
    input.joystick.has_direction && input.joystick.direction == Some(Direction::Up)
}

/// A frame of play is due.
pub open spec fn tick_due(g: FlappyState, now_us: i64) -> bool {
    g.mode == FlappyMode::Playing && now_us - g.last_tick_us >= FLAPPY_TICK_US
}

/// Play without the switch: letting go of up re-arms the flap; holding it
/// flaps once per push, at most every 120 ms.
pub open spec fn spec_flap_input(s: FlappyAppState, input: InputFrame, now_us: i64) -> FlappyAppState {
    let up = up_held(input);
    let ready = if !up { true } else { s.flap_ready };
    if up && ready && now_us - s.last_flap_us >= 120_000 {
        FlappyAppState {
            game: FlappyState { velocity_fp: FLAP_VELOCITY, ..s.game },
            last_flap_us: now_us,
            flap_ready: false,
            ..s
        }
    } else {
        FlappyAppState { flap_ready: ready, ..s }
    }
}

/// The pause menu's other entry selected.
pub open spec fn spec_cycled(g: FlappyState) -> FlappyState {
    FlappyState {
        pause_action: if g.pause_action == FlappyPauseAction::Continue {
            FlappyPauseAction::Exit
        } else {
            FlappyPauseAction::Continue
        },
        ..g
    }
}

/// One input frame in the pause menu: the knob, or up or down when menu
/// directions are due, moves the selection; otherwise the switch leaves or
/// resumes play (the flap then waits for up to be let go). Any due
/// direction is taken.
pub open spec fn spec_paused_input(s: FlappyAppState, input: InputFrame, now_us: i64) -> (FlappyAppState, AppAction) {
    let g = s.game;
    let take = input.joystick.has_direction && now_us - s.last_menu_direction_us >= 250_000;
    let s1 = FlappyAppState { last_menu_direction_us: if take { now_us } else { s.last_menu_direction_us }, ..s };
    if input.encoder.detents != 0 {
        (FlappyAppState { game: spec_cycled(g), ..s }, AppAction::RedrawFull)
    } else if take && (input.joystick.direction == Some(Direction::Up) || input.joystick.direction == Some(Direction::Down)) {
        (FlappyAppState { game: spec_cycled(g), ..s1 }, AppAction::RedrawFull)
    } else if switch_pressed(input) {
        if g.pause_action == FlappyPauseAction::Exit {
            (s1, AppAction::ExitToLauncher)
        } else {
            (FlappyAppState {
                game: FlappyState { mode: FlappyMode::Playing, last_tick_us: now_us, ..g },
                flap_ready: false,
                ..s1
            }, AppAction::RedrawFull)
        }
    } else {
        (s1, AppAction::Nothing)
    }
}

/// A frame of play whose input flaps.
pub open spec fn flaps(s: FlappyAppState, input: InputFrame, now_us: i64) -> bool {
    let ready = if !up_held(input) { true } else { s.flap_ready };
    &&& s.game.mode == FlappyMode::Playing
    &&& !switch_pressed(input)
    &&& up_held(input) && ready && now_us - s.last_flap_us >= 120_000
}

/// What one frame sends to the display, from `before` to `after` as the
/// app goes from `s` to `f`: in play, what the flap changed, then what a due
/// frame that kept the game going changed (each against what the screen
/// showed before it). Changes of screen are redrawn in full by the host.
pub open spec fn flappy_frame_sent<D: DisplaySink>(s: FlappyAppState, input: InputFrame, now_us: i64, f: FlappyAppState, before: D, after: D) -> bool {
    let s1 = spec_flap_input(s, input, now_us);
    if s.game.mode == FlappyMode::Playing && !switch_pressed(input) {
        exists|p1: FlappyRenderState, p2: FlappyRenderState|
            #![trigger captured(p1, s.game), captured(p2, s1.game)]
        {
            &&& captured(p1, s.game)
            &&& captured(p2, s1.game)
            &&& sent(before, after, (if flaps(s, input, now_us) { play_delta_cmds(s1.game, p1) } else { Seq::empty() })
                + (if tick_due(s1.game, now_us) && f.game.mode == FlappyMode::Playing {
                    play_delta_cmds(f.game, p2)
                } else {
                    Seq::empty()
                }))
        }
    } else {
        after == before
    }
}

#[derive(Debug, Clone)]
pub struct FlappyApplication {
    game: FlappyGame,
    last_menu_direction_us: i64,
    last_flap_us: i64,
    flap_ready: bool,
}

impl View for FlappyApplication {
    type V = FlappyAppState;

    closed spec fn view(&self) -> FlappyAppState {
        FlappyAppState {
            game: self.game@,
            last_menu_direction_us: self.last_menu_direction_us,
            last_flap_us: self.last_flap_us,
            flap_ready: self.flap_ready,
        }
    }
}

impl FlappyApplication {
    pub fn new() -> (r: Self)
        ensures
            r@.game == crate::flappy::spec_new_flappy(),
            r@.flap_ready,
            r@.last_menu_direction_us == 0 && r@.last_flap_us == 0,
    {
        FlappyApplication { game: FlappyGame::new(), last_menu_direction_us: 0, last_flap_us: 0, flap_ready: true }
    }

    pub fn title(&self) -> (r: &'static str)
        ensures
            r@ == "OM NOM"@,
    {
        "OM NOM"
    }

    /// Opens the game on its start panel with the stored best score.
    pub fn enter<H: HighScoreStore>(&mut self, high_scores: &H)
        ensures
            final(self)@ == (FlappyAppState {
                game: FlappyState { best_score: high_scores.flappy_best(), ..crate::flappy::spec_new_flappy() },
                last_menu_direction_us: 0,
                last_flap_us: 0,
                flap_ready: true,
            }),
    {
        self.game.enter(high_scores);
        self.last_menu_direction_us = 0;
        self.last_flap_us = 0;
        self.flap_ready = true;
    }

    /// Handles one input frame, then runs a frame of the game when one is
    /// due. On the start or game-over panel the switch starts a round. In
    /// play the switch pauses, and up flaps once per push, at most every
    /// 120 ms. In the pause menu the knob or up and down move the selection
    /// and the switch continues or leaves. A frame in play redraws what
    /// changed; one that ends the round asks for a full redraw.
    pub fn update<D: DisplaySink, H: HighScoreStore, R: Rng, S: Speaker>(
        &mut self,
        display: &mut D,
        high_scores: &mut H,
        rng: &mut R,
        speaker: &mut S,
        input: InputFrame,
        now_us: i64,
    ) -> (action: AppAction)
        ensures
            appends(*old(display), *final(display)),
            flappy_frame_sent(old(self)@, input, now_us, final(self)@, *old(display), *final(display)),
            (action == AppAction::ExitToLauncher) == leaves(old(self)@, input, now_us),
            old(self)@.game.mode == FlappyMode::Ready || old(self)@.game.mode == FlappyMode::GameOver ==> if switch_pressed(input) {
                &&& action == AppAction::RedrawFull
                &&& spec_started(final(self)@.game, old(high_scores).flappy_best(), now_us)
                &&& final(self)@ == (FlappyAppState { game: final(self)@.game, flap_ready: false, ..old(self)@ })
                &&& *final(high_scores) == *old(high_scores)
            } else {
                final(self)@ == old(self)@ && action == AppAction::Nothing && *final(high_scores) == *old(high_scores)
            },
            old(self)@.game.mode == FlappyMode::Playing && switch_pressed(input) ==> {
                &&& action == AppAction::RedrawFull
                &&& final(self)@ == (FlappyAppState {
                    game: FlappyState { mode: FlappyMode::Paused, pause_action: FlappyPauseAction::Continue, ..old(self)@.game },
                    ..old(self)@
                })
                &&& *final(high_scores) == *old(high_scores)
            },
            old(self)@.game.mode == FlappyMode::Playing && !switch_pressed(input) ==> {
                let s1 = spec_flap_input(old(self)@, input, now_us);
                &&& final(self)@ == (FlappyAppState { game: final(self)@.game, ..s1 })
                &&& if tick_due(s1.game, now_us) {
                    let g1 = FlappyState { last_tick_us: now_us, ..s1.game };
                    &&& spec_ticked(g1, final(self)@.game)
                    &&& spec_tick_store(g1, final(self)@.game, old(high_scores), final(high_scores))
                    &&& action == if final(self)@.game.mode == FlappyMode::Playing { AppAction::Nothing } else { AppAction::RedrawFull }
                } else {
                    final(self)@.game == s1.game && action == AppAction::Nothing && *final(high_scores) == *old(high_scores)
                }
            },
            old(self)@.game.mode == FlappyMode::Paused ==> {
                &&& (final(self)@, action) == spec_paused_input(old(self)@, input, now_us)
                &&& *final(high_scores) == *old(high_scores)
            },
    {
        let mode_before = self.game.mode();
        let mut action = self.handle_input(display, high_scores, rng, speaker, input, now_us);
        let ghost mid = *display;
        let ghost s1 = self@;
        let ghost mut p2 = snapshot(s1.game);
        let ghost mut tail: Seq<DrawCommand> = Seq::empty();
        proof {
            self.game.lemma_three_obstacles();
            lemma_snapshot_captured(s1.game);
            lemma_sent_nothing(mid);
        }
        if action == AppAction::ExitToLauncher {
            return action;
        }
        if self.game.due_for_tick(now_us) {
            let previous = FlappyRenderState::capture(&self.game);
            proof { p2 = previous; }
            self.game.mark_ticked(now_us);
            proof { self.game.lemma_three_obstacles(); }
            self.game.tick(high_scores, rng);
            if self.game.mode() == FlappyMode::Playing {
                flappy_renderer::render_play_delta(display, &self.game, previous);
                proof { tail = play_delta_cmds(self@.game, previous); }
                action = AppAction::Nothing;
            } else {
                action = AppAction::RedrawFull;
            }
        }
        if mode_before == FlappyMode::Playing && self.game.mode() == FlappyMode::GameOver {
            speaker.beep(220, 300);
        }
        proof {
            if old(self)@.game.mode == FlappyMode::Playing && !switch_pressed(input) {
                let g0 = old(self)@.game;
                let head_p1 = if flaps(old(self)@, input, now_us) {
                    choose|p1: FlappyRenderState| #[trigger] captured(p1, g0) && sent(*old(display), mid, play_delta_cmds(s1.game, p1))
                } else {
                    old(self).game.lemma_three_obstacles();
                    lemma_snapshot_captured(g0);
                    snapshot(g0)
                };
                let head = if flaps(old(self)@, input, now_us) { play_delta_cmds(s1.game, head_p1) } else { Seq::empty() };
                if !flaps(old(self)@, input, now_us) {
                    lemma_sent_nothing(*old(display));
                }
                lemma_sent_then(*old(display), mid, *display, head, tail);
                assert(captured(head_p1, g0) && captured(p2, s1.game));
            }
        }
        action
    }

    /// Redraws the whole screen.
    pub fn render_full<D: DisplaySink>(&self, display: &mut D)
        ensures
            sent(*old(display), *final(display), frame_cmds(flappy_renderer::SKY, flappy_renderer::screen_cmds(self@.game))),
            sent_frame(*old(display), *final(display), flappy_renderer::SKY),
    {
        flappy_renderer::render(display, &self.game);
    }

    pub fn game(&self) -> (r: &FlappyGame)
        ensures
            r@ == self@.game,
    {
        &self.game
    }

    /// The game, for changing it directly.
    pub fn game_mut(&mut self) -> (r: &mut FlappyGame)
        ensures
            r@ == old(self)@.game,
            final(self)@ == (FlappyAppState { game: final(r)@, ..old(self)@ }),
    {
        &mut self.game
    }

    /// Sets when the player last flapped.
    pub fn set_last_flap_us(&mut self, us: i64)
        ensures
            final(self)@ == (FlappyAppState { last_flap_us: us, ..old(self)@ }),
    {
        self.last_flap_us = us;
    }

    fn handle_input<D: DisplaySink, H: HighScoreStore, R: Rng, S: Speaker>(
        &mut self,
        display: &mut D,
        high_scores: &mut H,
        rng: &mut R,
        speaker: &mut S,
        input: InputFrame,
        now_us: i64,
    ) -> (action: AppAction)
        ensures
            appends(*old(display), *final(display)),
            flaps(old(self)@, input, now_us) ==> exists|p1: FlappyRenderState| {
                &&& #[trigger] captured(p1, old(self)@.game)
                &&& sent(*old(display), *final(display), play_delta_cmds(final(self)@.game, p1))
            },
            !flaps(old(self)@, input, now_us) ==> *final(display) == *old(display),
            *final(high_scores) == *old(high_scores),
            old(self)@.game.mode == FlappyMode::Ready || old(self)@.game.mode == FlappyMode::GameOver ==> if switch_pressed(input) {
                &&& action == AppAction::RedrawFull
                &&& spec_started(final(self)@.game, old(high_scores).flappy_best(), now_us)
                &&& final(self)@ == (FlappyAppState { game: final(self)@.game, flap_ready: false, ..old(self)@ })
            } else {
                final(self)@ == old(self)@ && action == AppAction::Nothing
            },
            old(self)@.game.mode == FlappyMode::Playing && switch_pressed(input) ==> {
                &&& action == AppAction::RedrawFull
                &&& final(self)@ == (FlappyAppState {
                    game: FlappyState { mode: FlappyMode::Paused, pause_action: FlappyPauseAction::Continue, ..old(self)@.game },
                    ..old(self)@
                })
            },
            old(self)@.game.mode == FlappyMode::Playing && !switch_pressed(input) ==> {
                &&& final(self)@ == spec_flap_input(old(self)@, input, now_us)
                &&& action == AppAction::Nothing
            },
            old(self)@.game.mode == FlappyMode::Paused ==> (final(self)@, action) == spec_paused_input(old(self)@, input, now_us),
    {
        let ghost g0 = self@.game;
        match self.game.mode() {
            FlappyMode::Ready | FlappyMode::GameOver => {
                if input.joystick.switch_pressed || input.encoder.switch_pressed {
                    self.game.start(high_scores, rng, now_us);
                    self.flap_ready = false;
                    return AppAction::RedrawFull;
                }
                AppAction::Nothing
            },
            FlappyMode::Playing => {
                if input.joystick.switch_pressed || input.encoder.switch_pressed {
                    self.game.pause();
                    return AppAction::RedrawFull;
                }
                let up_held = input.joystick.has_direction && input.joystick.direction == Some(Direction::Up);
                if !up_held {
                    self.flap_ready = true;
                }
                if up_held && self.flap_ready && (now_us as i128) - (self.last_flap_us as i128) >= 120_000 {
                    let previous = FlappyRenderState::capture(&self.game);
                    self.game.flap();
                    self.last_flap_us = now_us;
                    self.flap_ready = false;
                    speaker.beep(880, 40);
                    flappy_renderer::render_play_delta(display, &self.game, previous);
                    proof { assert(captured(previous, g0)); }
                    return AppAction::Nothing;
                }
                AppAction::Nothing
            },
            FlappyMode::Paused => self.handle_paused_input(input, now_us),
        }
    }

    fn handle_paused_input(&mut self, input: InputFrame, now_us: i64) -> (action: AppAction)
        requires
            old(self)@.game.mode == FlappyMode::Paused,
        ensures
            (final(self)@, action) == spec_paused_input(old(self)@, input, now_us),
    {
        if input.encoder.detents != 0 {
            self.game.cycle_pause_action();
            return AppAction::RedrawFull;
        }
        if input.joystick.has_direction && self.accept_menu_direction(now_us)
            && (input.joystick.direction == Some(Direction::Up) || input.joystick.direction == Some(Direction::Down)) {
            self.game.cycle_pause_action();
            return AppAction::RedrawFull;
        }
        if input.joystick.switch_pressed || input.encoder.switch_pressed {
            if self.game.pause_action() == FlappyPauseAction::Exit {
                return AppAction::ExitToLauncher;
            }
            self.game.resume(now_us);
            self.flap_ready = false;
            return AppAction::RedrawFull;
        }
        AppAction::Nothing
    }

    fn accept_menu_direction(&mut self, now_us: i64) -> (r: bool)
        ensures
            r == (now_us - old(self)@.last_menu_direction_us >= 250_000),
            final(self)@ == (FlappyAppState {
                last_menu_direction_us: if r { now_us } else { old(self)@.last_menu_direction_us },
                ..old(self)@
            }),
    {
        if (now_us as i128) - (self.last_menu_direction_us as i128) < 250_000 {
            return false;
        }
        self.last_menu_direction_us = now_us;
        true
    }
}

impl Default for FlappyApplication {
    fn default() -> (r: Self)
        ensures
            r@.game == crate::flappy::spec_new_flappy(),
    {
        Self::new()
    }
}

} // verus!
