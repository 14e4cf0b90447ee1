use vstd::prelude::*;
use crate::app::AppAction;
use crate::config::{spec_opposite, Direction};
use crate::input::InputFrame;
use crate::render::{
    appends, flushed, lemma_appends_chain, lemma_sent_appends, lemma_sent_nothing, lemma_sent_then, sent, DisplaySink,
    DrawCommand,
};
use crate::rng::Rng;
use crate::snake::{
    snake_valid, spec_cycle_border_mode, spec_cycle_speed_tier, spec_next_field, spec_previous_field, spec_tick_ms,
    spec_reset, spec_setup_knob, spec_ticked, spec_to_choosing, start_body, GameMode, SelectionField, SnakeGame,
    SnakeState,
};
use crate::store::spec_high_score_index;
use crate::snake_renderer;
use crate::snake_renderer::{hud_cmds, tick_delta_cmds};
use crate::store::HighScoreStore;

verus! {

broadcast use lemma_sent_appends, lemma_appends_chain;

/// The pause menu's entries.
#[derive(Debug, Clone, Copy, PartialEq, Eq, Structural)]
pub enum PauseAction {
    Continue,
    Exit,
}

/// The abstract state of the Snake application.
pub struct SnakeAppState {
    pub game: SnakeState,
    pub pause_action: PauseAction,
    pub last_menu_direction_us: i64,
}

pub open spec fn other_action(a: PauseAction) -> PauseAction {
    if a == PauseAction::Continue { PauseAction::Exit } else { PauseAction::Continue }
}

/// A menu direction is taken a quarter second after the last one.
pub open spec fn accepts(s: SnakeAppState, now_us: i64) -> bool {
    now_us - s.last_menu_direction_us >= 250_000
}

pub open spec fn switch_pressed(input: InputFrame) -> bool {
    input.joystick.switch_pressed || input.encoder.switch_pressed
}

pub open spec fn up_or_down(input: InputFrame) -> bool {
    input.joystick.direction == Some(Direction::Up) || input.joystick.direction == Some(Direction::Down)
}

/// In the pause menu, a taken up or down direction moves the selection.
pub open spec fn paused_direction_moves(s: SnakeAppState, input: InputFrame, now_us: i64) -> bool {
    input.joystick.has_direction && accepts(s, now_us) && up_or_down(input)
}

/// The pause selection after the knob and the joystick had their turn:
/// each of them moves it once.
pub open spec fn paused_selection(s: SnakeAppState, input: InputFrame, now_us: i64) -> PauseAction {
    let a1 = if input.encoder.detents != 0 { other_action(s.pause_action) } else { s.pause_action };
    if paused_direction_moves(s, input, now_us) { other_action(a1) } else { a1 }
}

/// The switch on the exit entry leaves the game: in the pause menu, or on
/// the setup screen (also after a game over).
pub open spec fn leaves(s: SnakeAppState, input: InputFrame, now_us: i64) -> bool {
    &&& switch_pressed(input)
    &&& match s.game.mode {
        GameMode::Paused => paused_selection(s, input, now_us) == PauseAction::Exit,
        GameMode::Playing => false,
        _ => s.game.selected_field == SelectionField::Exit,
    }
}

/// Play without the switch: a direction other than straight back queues a
/// turn; the knob changes the speed, with its move interval and its
/// bucket's best score from `store`.
pub open spec fn spec_playing_input<H: HighScoreStore>(o: SnakeState, input: InputFrame, store: &H) -> SnakeState {
    let pending = if input.joystick.has_direction && input.joystick.direction is Some
        && input.joystick.direction->0 != spec_opposite(o.direction) {
        input.joystick.direction->0
    } else {
        o.pending_direction
    };
    let speed = if input.encoder.detents != 0 { spec_cycle_speed_tier(o.speed_tier, input.encoder.detents) } else { o.speed_tier };
    SnakeState {
        pending_direction: pending,
        speed_tier: speed,
        tick_ms: spec_tick_ms(speed),
        best_score: if speed != o.speed_tier {
            store.snake_best(spec_high_score_index(speed, o.border_mode) as int)
        } else {
            o.best_score
        },
        ..o
    }
}

/// A move of the snake is due.
pub open spec fn tick_due(g: SnakeState, now_us: i64) -> bool {
    g.mode == GameMode::Playing && now_us - g.last_tick_us >= g.tick_ms * 1000
}

/// A taken direction on the setup screen: left and right turn the value as
/// the knob does, up and down move between rows. Says whether anything
/// changed.
pub open spec fn spec_setup_direction<H: HighScoreStore>(g: SnakeState, dir: Option<Direction>, store: &H) -> (SnakeState, bool) {
    match dir {
        Some(Direction::Left) => spec_setup_knob(g, -1i32, store),
        Some(Direction::Right) => spec_setup_knob(g, 1i32, store),
        Some(Direction::Up) => (SnakeState { selected_field: spec_previous_field(g.selected_field), ..g }, true),
        Some(Direction::Down) => (SnakeState { selected_field: spec_next_field(g.selected_field), ..g }, true),
        None => (g, false),
    }
}

/// The game after the switch on the setup screen or the game-over panel:
/// from setup a new round (whose apple `f` shows; later steps leave all but
/// the cursor as they are), from the panel the setup screen; without the
/// switch, the game as it was.
pub open spec fn setup_switched<H: HighScoreStore>(s: SnakeAppState, input: InputFrame, f: SnakeState, store: &H, now_us: i64) -> SnakeState {
    if !switch_pressed(input) {
        s.game
    } else if s.game.mode == GameMode::Choosing {
        SnakeState { selected_field: s.game.selected_field, ..f }
    } else {
        spec_to_choosing(s.game, store)
    }
}

/// The rest of a setup frame from the game `g1` after the switch: the knob,
/// then a taken direction. Gives the app state and whether the screen needs
/// a full redraw (the switch was pressed, a value or row changed, or the
/// mode did).
pub open spec fn spec_setup_after<H: HighScoreStore>(
    s: SnakeAppState,
    g1: SnakeState,
    pressed: bool,
    input: InputFrame,
    now_us: i64,
    store: &H,
) -> (SnakeAppState, bool) {
    let knob = if input.encoder.detents != 0 { spec_setup_knob(g1, input.encoder.detents, store) } else { (g1, false) };
    let take = input.joystick.has_direction && accepts(s, now_us);
    let dir = if take { spec_setup_direction(knob.0, input.joystick.direction, store) } else { (knob.0, false) };
    (
        SnakeAppState {
            game: dir.0,
            last_menu_direction_us: if take { now_us } else { s.last_menu_direction_us },
            ..s
        },
        pressed || knob.1 || dir.1 || dir.0.mode != s.game.mode,
    )
}

/// The knob's turn can be added to the value it turns without leaving
/// `i32`: the speed in play, or the selected setup value (on the setup
/// screen without the switch, or the speed once the switch left the
/// game-over panel for the setup screen).
pub open spec fn knob_fits(s: SnakeAppState, input: InputFrame) -> bool {
    let d = input.encoder.detents;
    let g = s.game;
    d != 0 ==> match g.mode {
        GameMode::Playing => g.speed_tier.spec_index() + d <= i32::MAX,
        GameMode::Choosing => !switch_pressed(input) ==> match g.selected_field {
            SelectionField::Speed => g.speed_tier.spec_index() + d <= i32::MAX,
            SelectionField::Border => g.border_mode.spec_index() + d <= i32::MAX,
            SelectionField::Exit => true,
        },
        GameMode::Over => switch_pressed(input) ==> g.speed_tier.spec_index() + d <= i32::MAX,
        GameMode::Paused => true,
    }
}

/// What a frame of play sends before any move: the HUD and a flush when
/// the knob changed the speed.
pub open spec fn speed_hud_cmds<H: HighScoreStore>(s: SnakeAppState, input: InputFrame, store: &H) -> Seq<DrawCommand> {
    let g1 = spec_playing_input(s.game, input, store);
    if s.game.mode == GameMode::Playing && g1.speed_tier != s.game.speed_tier {
        hud_cmds(g1) + seq![DrawCommand::Flush]
    } else {
        Seq::empty()
    }
}

/// The snake moved on this frame and is still playing.
pub open spec fn moved_in_play<H: HighScoreStore>(s: SnakeAppState, input: InputFrame, now_us: i64, store: &H, f: SnakeAppState) -> bool {
    &&& s.game.mode == GameMode::Playing
    &&& !switch_pressed(input)
    &&& tick_due(spec_playing_input(s.game, input, store), now_us)
    &&& f.game.mode == GameMode::Playing
}

/// What one frame sends to the display, from `s` to `f`: the HUD when the
/// speed changed in play, then, after a move that kept the game going, the
/// cells that the move changed. Full redraws are left to the host.
pub open spec fn snake_frame_cmds<H: HighScoreStore>(s: SnakeAppState, input: InputFrame, now_us: i64, store: &H, f: SnakeAppState) -> Seq<DrawCommand> {
    let g1 = spec_playing_input(s.game, input, store);
    speed_hud_cmds(s, input, store) + if moved_in_play(s, input, now_us, store, f) {
        tick_delta_cmds(f.game, g1.body.last(), g1.score, g1.best_score, f.game.body.len() > g1.body.len())
    } else {
        Seq::empty()
    }
}

#[derive(Debug)]
pub struct SnakeApplication {
    game: SnakeGame,
    pause_action: PauseAction,
    last_menu_direction_us: i64,
}

impl View for SnakeApplication {
    type V = SnakeAppState;

    closed spec fn view(&self) -> SnakeAppState {
        SnakeAppState {
            game: self.game@,
            pause_action: self.pause_action,
            last_menu_direction_us: self.last_menu_direction_us,
        }
    }
}

impl SnakeApplication {
    pub fn new() -> (r: Self)
        ensures
            snake_valid(r@.game),
            r@.game.mode == GameMode::Choosing,
            r@.pause_action == PauseAction::Continue,
            r@.last_menu_direction_us == 0,
    {
        SnakeApplication { game: SnakeGame::default(), pause_action: PauseAction::Continue, last_menu_direction_us: 0 }
    }

    pub fn title(&self) -> (r: &'static str)
        ensures
            r@ == "SNAKE"@,
    {
        "SNAKE"
    }

    /// Opens the game on its setup screen.
    pub fn enter<H: HighScoreStore>(&mut self, high_scores: &H)
        requires
            snake_valid(old(self)@.game),
        ensures
            snake_valid(final(self)@.game),
            final(self)@.game.mode == GameMode::Choosing,
            final(self)@.game.selected_field == SelectionField::Speed,
            final(self)@.pause_action == PauseAction::Continue,
            final(self)@.last_menu_direction_us == old(self)@.last_menu_direction_us,
    {
        self.game.enter_choosing(high_scores);
        self.pause_action = PauseAction::Continue;
    }

    /// Handles one input frame, then moves the snake when a move is due.
    /// In play the joystick queues a turn, the knob changes the speed and
    /// the switch pauses. In the pause menu the knob or up and down move the
    /// selection and the switch resumes or leaves. On the setup screen the
    /// switch starts a round (or leaves on the exit row), up and down move
    /// between rows, and the knob or left and right change the value. A move
    /// in play redraws what changed; a change of screen asks for a full
    /// redraw.
    pub fn update<D: DisplaySink, H: HighScoreStore, R: Rng>(
        &mut self,
        display: &mut D,
        high_scores: &mut H,
        rng: &mut R,
        input: InputFrame,
        now_us: i64,
    ) -> (action: AppAction)
        requires
            snake_valid(old(self)@.game),
            knob_fits(old(self)@, input),
        ensures
            snake_valid(final(self)@.game),
            appends(*old(display), *final(display)),
            sent(*old(display), *final(display), snake_frame_cmds(old(self)@, input, now_us, old(high_scores), final(self)@)),
            (action == AppAction::ExitToLauncher) == leaves(old(self)@, input, now_us),
            leaves(old(self)@, input, now_us) && old(self)@.game.mode == GameMode::Paused
                ==> final(self)@.game.mode == GameMode::Choosing,
            leaves(old(self)@, input, now_us) && old(self)@.game.mode != GameMode::Paused
                ==> final(self)@.game == old(self)@.game,
            old(self)@.game.mode == GameMode::Paused && !leaves(old(self)@, input, now_us) ==> {
                &&& final(self)@.pause_action == paused_selection(old(self)@, input, now_us)
                &&& if switch_pressed(input) {
                    &&& action == AppAction::RedrawFull
                    &&& final(self)@.game == (SnakeState { mode: GameMode::Playing, last_tick_us: now_us, ..old(self)@.game })
                } else {
                    &&& final(self)@.game == old(self)@.game
                    &&& (action == AppAction::RedrawFull) == (input.encoder.detents != 0
                        || paused_direction_moves(old(self)@, input, now_us))
                }
            },
            old(self)@.game.mode == GameMode::Playing && switch_pressed(input) ==> {
                &&& action == AppAction::RedrawFull
                &&& final(self)@.game.mode == GameMode::Paused
                &&& final(self)@.pause_action == PauseAction::Continue
            },
            old(self)@.game.mode == GameMode::Playing && !switch_pressed(input) ==> {
                let g1 = spec_playing_input(old(self)@.game, input, old(high_scores));
                &&& final(self)@ == (SnakeAppState { game: final(self)@.game, ..old(self)@ })
                &&& if tick_due(g1, now_us) {
                    &&& spec_ticked(SnakeState { last_tick_us: now_us, ..g1 }, final(self)@.game, old(high_scores), final(high_scores))
                    &&& action == if final(self)@.game.mode == GameMode::Playing { AppAction::Nothing } else { AppAction::RedrawFull }
                } else {
                    final(self)@.game == g1 && action == AppAction::Nothing && *final(high_scores) == *old(high_scores)
                }
            },
            (old(self)@.game.mode == GameMode::Choosing || old(self)@.game.mode == GameMode::Over)
                && !leaves(old(self)@, input, now_us) ==> {
                let g1 = setup_switched(old(self)@, input, final(self)@.game, old(high_scores), now_us);
                let step = spec_setup_after(old(self)@, g1, switch_pressed(input), input, now_us, old(high_scores));
                &&& old(self)@.game.mode == GameMode::Choosing && switch_pressed(input)
                    ==> spec_reset(old(self)@.game, g1, old(high_scores), now_us)
                &&& final(self)@ == step.0
                &&& action == if step.1 { AppAction::RedrawFull } else { AppAction::Nothing }
                &&& *final(high_scores) == *old(high_scores)
            },
    {
        let ghost d0 = *display;
        let ghost head = speed_hud_cmds(old(self)@, input, old(high_scores));
        let (mut needs_full_render, action) = self.handle_input(display, high_scores, rng, input, now_us);
        let ghost d1 = *display;
        let ghost g1 = self@.game;
        proof { assert(head + Seq::<DrawCommand>::empty() =~= head); }
        if action == AppAction::ExitToLauncher {
            return action;
        }
        let ghost mut rest: Seq<DrawCommand> = Seq::empty();
        proof { lemma_sent_nothing(d1); }
        if self.game.due_for_tick(now_us) {
            let old_tail = self.game.tail();
            let old_length = self.game.length();
            let old_score = self.game.score();
            let old_best_score = self.game.best_score();
            self.game.mark_ticked(now_us);
            self.game.tick(high_scores, rng);
            if self.game.mode() == GameMode::Playing {
                let grew = self.game.length() > old_length;
                snake_renderer::render_tick_delta(
                    display,
                    &self.game,
                    old_tail,
                    old_score,
                    old_best_score,
                    grew,
                );
                proof {
                    rest = tick_delta_cmds(self@.game, old_tail, old_score, old_best_score, grew);
                    assert(g1 == spec_playing_input(old(self)@.game, input, old(high_scores)));
                }
            } else {
                needs_full_render = true;
            }
        }
        proof {
            lemma_sent_then(d0, d1, *display, head, rest);
            assert(rest == (if moved_in_play(old(self)@, input, now_us, old(high_scores), self@) {
                tick_delta_cmds(self@.game, g1.body.last(), g1.score, g1.best_score, self@.game.body.len() > g1.body.len())
            } else {
                Seq::empty()
            }));
        }
        if needs_full_render {
            AppAction::RedrawFull
        } else {
            AppAction::Nothing
        }
    }

    /// Redraws the whole screen: the pause menu when paused, else the
    /// current screen.
    pub fn render_full<D: DisplaySink>(&self, display: &mut D)
        requires
            snake_valid(self@.game),
        ensures
            sent(*old(display), *final(display), if self@.game.mode == GameMode::Paused {
                snake_renderer::pause_screen_cmds(self@.game, if self@.pause_action == PauseAction::Continue { 0 } else { 1 })
            } else {
                snake_renderer::screen_cmds(self@.game)
            }),
            flushed(*old(display), *final(display)),
    {
        if self.game.mode() == GameMode::Paused {
            snake_renderer::render_pause_menu(
                display,
                &self.game,
                if self.pause_action == PauseAction::Continue { 0 } else { 1 },
            );
        } else {
            snake_renderer::render(display, &self.game);
        }
    }

    pub fn game(&self) -> (r: &SnakeGame)
        ensures
            r@ == self@.game,
    {
        &self.game
    }

    /// The game, for changing it directly.
    pub fn game_mut(&mut self) -> (r: &mut SnakeGame)
        ensures
            r@ == old(self)@.game,
            final(self)@ == (SnakeAppState { game: final(r)@, ..old(self)@ }),
    {
        &mut self.game
    }

    /// The pause menu's selection.
    pub fn pause_action(&self) -> (r: PauseAction)
        ensures
            r == self@.pause_action,
    {
        self.pause_action
    }

    /// Returns whether the game, the setup screen or a menu changed enough
    /// to need a full redraw, and whether to leave.
    fn handle_input<D: DisplaySink, H: HighScoreStore, R: Rng>(
        &mut self,
        display: &mut D,
        high_scores: &mut H,
        rng: &mut R,
        input: InputFrame,
        now_us: i64,
    ) -> (r: (bool, AppAction))
        requires
            snake_valid(old(self)@.game),
            knob_fits(old(self)@, input),
        ensures
            snake_valid(final(self)@.game),
            appends(*old(display), *final(display)),
            sent(*old(display), *final(display), speed_hud_cmds(old(self)@, input, old(high_scores))),
            r.1 == AppAction::ExitToLauncher || r.1 == AppAction::Nothing,
            (r.1 == AppAction::ExitToLauncher) == leaves(old(self)@, input, now_us),
            leaves(old(self)@, input, now_us) && old(self)@.game.mode == GameMode::Paused
                ==> final(self)@.game.mode == GameMode::Choosing,
            leaves(old(self)@, input, now_us) && old(self)@.game.mode != GameMode::Paused
                ==> final(self)@.game == old(self)@.game,
            old(self)@.game.mode == GameMode::Paused && !leaves(old(self)@, input, now_us) ==> {
                &&& final(self)@.pause_action == paused_selection(old(self)@, input, now_us)
                &&& if switch_pressed(input) {
                    &&& r.0
                    &&& final(self)@.game == (SnakeState { mode: GameMode::Playing, last_tick_us: now_us, ..old(self)@.game })
                } else {
                    &&& final(self)@.game == old(self)@.game
                    &&& r.0 == (input.encoder.detents != 0 || paused_direction_moves(old(self)@, input, now_us))
                }
            },
            old(self)@.game.mode == GameMode::Playing && switch_pressed(input) ==> {
                &&& r.0
                &&& final(self)@.game.mode == GameMode::Paused
                &&& final(self)@.pause_action == PauseAction::Continue
            },
            old(self)@.game.mode == GameMode::Playing && !switch_pressed(input) ==> {
                &&& !r.0
                &&& r.1 == AppAction::Nothing
                &&& final(self)@ == (SnakeAppState {
                    game: spec_playing_input(old(self)@.game, input, old(high_scores)),
                    ..old(self)@
                })
                &&& *final(high_scores) == *old(high_scores)
            },
            (old(self)@.game.mode == GameMode::Choosing || old(self)@.game.mode == GameMode::Over)
                && !leaves(old(self)@, input, now_us) ==> {
                let g1 = setup_switched(old(self)@, input, final(self)@.game, old(high_scores), now_us);
                let step = spec_setup_after(old(self)@, g1, switch_pressed(input), input, now_us, old(high_scores));
                &&& old(self)@.game.mode == GameMode::Choosing && switch_pressed(input)
                    ==> spec_reset(old(self)@.game, g1, old(high_scores), now_us)
                &&& final(self)@ == step.0
                &&& r.0 == step.1
                &&& *final(high_scores) == *old(high_scores)
            },
            old(self)@.game.mode != GameMode::Playing ==> final(self)@.game.mode != GameMode::Playing
                || final(self)@.game.last_tick_us == now_us,
    {
        proof { lemma_sent_nothing(*display); }
        match self.game.mode() {
            GameMode::Playing => (self.handle_playing_input(display, high_scores, rng, input, now_us), AppAction::Nothing),
            GameMode::Paused => self.handle_paused_input(high_scores, rng, input, now_us),
            GameMode::Choosing | GameMode::Over => self.handle_setup_input(high_scores, rng, input, now_us),
        }
    }

    fn handle_playing_input<D: DisplaySink, H: HighScoreStore, R: Rng>(
        &mut self,
        display: &mut D,
        high_scores: &mut H,
        rng: &mut R,
        input: InputFrame,
        now_us: i64,
    ) -> (changed: bool)
        requires
            snake_valid(old(self)@.game),
            old(self)@.game.mode == GameMode::Playing,
            knob_fits(old(self)@, input),
        ensures
            snake_valid(final(self)@.game),
            appends(*old(display), *final(display)),
            sent(*old(display), *final(display), speed_hud_cmds(old(self)@, input, old(high_scores))),
            switch_pressed(input) ==> {
                &&& changed
                &&& final(self)@.game.mode == GameMode::Paused
                &&& final(self)@.pause_action == PauseAction::Continue
            },
            *final(high_scores) == *old(high_scores),
            !switch_pressed(input) ==> {
                &&& !changed
                &&& final(self)@ == (SnakeAppState {
                    game: spec_playing_input(old(self)@.game, input, old(high_scores)),
                    ..old(self)@
                })
            },
    {
        if input.joystick.has_direction {
            if let Some(direction) = input.joystick.direction {
                self.game.request_direction(direction);
            }
        }
        if input.encoder.detents != 0 && self.game.adjust_speed(high_scores, input.encoder.detents) {
            snake_renderer::render_hud(display, &self.game);
        } else {
            proof { lemma_sent_nothing(*display); }
        }
        if input.joystick.switch_pressed || input.encoder.switch_pressed {
            self.game.press_switch(high_scores, rng, now_us);
            self.pause_action = PauseAction::Continue;
            return true;
        }
        false
    }

    fn handle_paused_input<H: HighScoreStore, R: Rng>(
        &mut self,
        high_scores: &mut H,
        rng: &mut R,
        input: InputFrame,
        now_us: i64,
    ) -> (r: (bool, AppAction))
        requires
            snake_valid(old(self)@.game),
            old(self)@.game.mode == GameMode::Paused,
        ensures
            snake_valid(final(self)@.game),
            r.1 == AppAction::ExitToLauncher || r.1 == AppAction::Nothing,
            (r.1 == AppAction::ExitToLauncher) == leaves(old(self)@, input, now_us),
            leaves(old(self)@, input, now_us) ==> final(self)@.game.mode == GameMode::Choosing,
            !leaves(old(self)@, input, now_us) ==> {
                &&& final(self)@.pause_action == paused_selection(old(self)@, input, now_us)
                &&& if switch_pressed(input) {
                    &&& r.0
                    &&& final(self)@.game == (SnakeState { mode: GameMode::Playing, last_tick_us: now_us, ..old(self)@.game })
                } else {
                    &&& final(self)@.game == old(self)@.game
                    &&& r.0 == (input.encoder.detents != 0 || paused_direction_moves(old(self)@, input, now_us))
                }
            },
            final(self)@.game.mode != GameMode::Playing || final(self)@.game.last_tick_us == now_us,
    {
        let mut changed = false;
        if input.encoder.detents != 0 {
            self.cycle_pause_action();
            changed = true;
        }
        let ghost s0 = old(self)@;
        if input.joystick.has_direction && self.accept_menu_direction(now_us)
            && (input.joystick.direction == Some(Direction::Up) || input.joystick.direction == Some(Direction::Down)) {
            self.cycle_pause_action();
            changed = true;
        }
        if input.joystick.switch_pressed || input.encoder.switch_pressed {
            if self.pause_action == PauseAction::Continue {
                self.game.press_switch(high_scores, rng, now_us);
                return (true, AppAction::Nothing);
            } else {
                self.game.enter_choosing(high_scores);
                return (changed, AppAction::ExitToLauncher);
            }
        }
        (changed, AppAction::Nothing)
    }

    fn handle_setup_input<H: HighScoreStore, R: Rng>(
        &mut self,
        high_scores: &mut H,
        rng: &mut R,
        input: InputFrame,
        now_us: i64,
    ) -> (r: (bool, AppAction))
        requires
            snake_valid(old(self)@.game),
            old(self)@.game.mode == GameMode::Choosing || old(self)@.game.mode == GameMode::Over,
            knob_fits(old(self)@, input),
        ensures
            snake_valid(final(self)@.game),
            r.1 == AppAction::ExitToLauncher || r.1 == AppAction::Nothing,
            (r.1 == AppAction::ExitToLauncher) == leaves(old(self)@, input, now_us),
            leaves(old(self)@, input, now_us) ==> final(self)@.game == old(self)@.game,
            (old(self)@.game.mode == GameMode::Choosing || old(self)@.game.mode == GameMode::Over)
                && !leaves(old(self)@, input, now_us) ==> {
                let g1 = setup_switched(old(self)@, input, final(self)@.game, old(high_scores), now_us);
                let step = spec_setup_after(old(self)@, g1, switch_pressed(input), input, now_us, old(high_scores));
                &&& old(self)@.game.mode == GameMode::Choosing && switch_pressed(input)
                    ==> spec_reset(old(self)@.game, g1, old(high_scores), now_us)
                &&& final(self)@ == step.0
                &&& r.0 == step.1
                &&& *final(high_scores) == *old(high_scores)
            },
            final(self)@.game.mode != GameMode::Playing || final(self)@.game.last_tick_us == now_us,
    {
        let mode_before = self.game.mode();
        let mut changed = false;
        if input.joystick.switch_pressed || input.encoder.switch_pressed {
            if self.game.selected_field() == SelectionField::Exit {
                return (false, AppAction::ExitToLauncher);
            }
            changed = self.game.press_switch(high_scores, rng, now_us);
        }
        let ghost g1 = self@.game;
        if input.encoder.detents != 0 {
            changed = self.game.adjust_selected_value(high_scores, input.encoder.detents) || changed;
        }
        let ghost g2 = self@.game;
        if input.joystick.has_direction && self.accept_menu_direction(now_us) {
            changed = self.setup_direction(high_scores, input.joystick.direction) || changed;
        }
        proof {
            if old(self)@.game.mode == GameMode::Choosing && switch_pressed(input) {
                assert(g2 == g1);
                assert(self@.game == (SnakeState { selected_field: self@.game.selected_field, ..g1 }));
                assert(g1 == setup_switched(old(self)@, input, self@.game, old(high_scores), now_us));
            }
        }
        (changed || self.game.mode() != mode_before, AppAction::Nothing)
    }

    /// A taken joystick direction on the setup screen: left and right change
    /// the value, up and down move between rows.
    fn setup_direction<H: HighScoreStore>(&mut self, high_scores: &H, direction: Option<Direction>) -> (changed: bool)
        requires
            snake_valid(old(self)@.game),
        ensures
            snake_valid(final(self)@.game),
            final(self)@ == (SnakeAppState { game: final(self)@.game, ..old(self)@ }),
            (final(self)@.game, changed) == spec_setup_direction(old(self)@.game, direction, high_scores),
    {
        match direction {
            Some(Direction::Left) => self.game.adjust_selected_value(high_scores, -1),
            Some(Direction::Right) => self.game.adjust_selected_value(high_scores, 1),
            Some(Direction::Up) => self.game.select_previous_field(),
            Some(Direction::Down) => self.game.select_next_field(),
            None => false,
        }
    }

    /// Takes a menu direction at most every quarter second.
    pub fn accept_menu_direction(&mut self, now_us: i64) -> (r: bool)
        ensures
            r == accepts(old(self)@, now_us),
            final(self)@ == (SnakeAppState {
                last_menu_direction_us: if r { now_us } else { old(self)@.last_menu_direction_us },
                ..old(self)@
            }),
    {
        if (now_us as i128) - (self.last_menu_direction_us as i128) < 250_000 {
            return false;
        }
        self.last_menu_direction_us = now_us;
        true
    }

    /// Moves the pause menu selection to the other entry.
    pub fn cycle_pause_action(&mut self)
        ensures
            final(self)@ == (SnakeAppState { pause_action: other_action(old(self)@.pause_action), ..old(self)@ }),
    {
        self.pause_action = if self.pause_action == PauseAction::Continue {
            PauseAction::Exit
        } else {
            PauseAction::Continue
        };
    }
}

impl Default for SnakeApplication {
    fn default() -> (r: Self)
        ensures
            snake_valid(r@.game),
            r@.game.mode == GameMode::Choosing,
    {
        Self::new()
    }
}

} // verus!
