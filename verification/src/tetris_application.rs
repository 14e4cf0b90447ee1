use vstd::prelude::*;
use crate::app::AppAction;
use crate::config::Direction;
use crate::input::InputFrame;
use crate::render::{
    appends, flushed, frame_cmds, lemma_appends_chain, lemma_sent_appends, lemma_sent_nothing, lemma_sent_then, sent, sent_frame,
    DisplaySink, DrawCommand,
};
use crate::rng::Rng;
use crate::tetris::{
    spec_move, spec_start, spec_tick, spec_tick_us, tetris_valid, TetrisGame, TetrisMode, TetrisPauseAction,
    TetrisPiece, TetrisState, Tetromino,
};
use crate::tetris_renderer;
use crate::tetris_renderer::{changed_rows_cmds, hud_delta_cmds, rotated};
use crate::theme;

verus! {

broadcast use lemma_sent_appends, lemma_appends_chain;

/// The start menu's entries: start a round, or leave the game.
#[derive(Debug, Clone, Copy, PartialEq, Eq, Structural)]
pub enum TetrisChoosingAction {
    Start,
    Exit,
}

/// The abstract state of the Tetris application.
pub struct TetrisAppState {
    pub game: TetrisState,
    pub last_direction_us: i64,
    pub choosing_action: TetrisChoosingAction,
}

/// How long a held direction waits before it repeats: a soft drop repeats
/// faster than the other moves.
pub open spec fn repeat_us(direction: Direction) -> int {
    if direction == Direction::Down { 55_000 } else { 130_000 }
}

/// A direction is taken when its repeat time has passed since the last one.
pub open spec fn accepts(s: TetrisAppState, now_us: i64, direction: Direction) -> bool {
    now_us - s.last_direction_us >= repeat_us(direction)
}

/// The state after asking whether a direction is taken: a taken one
/// restarts the repeat clock.
pub open spec fn after_accept(s: TetrisAppState, now_us: i64, direction: Direction) -> TetrisAppState {
    if accepts(s, now_us, direction) { TetrisAppState { last_direction_us: now_us, ..s } } else { s }
}

/// The direction a menu asks about: the joystick's, or down when it has
/// none.
pub open spec fn menu_direction(input: InputFrame) -> Direction {
    match input.joystick.direction {
        Some(d) => d,
        None => Direction::Down,
    }
}

/// In a menu, the knob or a taken up or down direction moves the selection.
pub open spec fn menu_moves(s: TetrisAppState, input: InputFrame, now_us: i64) -> bool {
    ||| input.encoder.detents != 0
    ||| input.joystick.has_direction && accepts(s, now_us, menu_direction(input))
        && (input.joystick.direction == Some(Direction::Up) || input.joystick.direction == Some(Direction::Down))
}

pub open spec fn switch_pressed(input: InputFrame) -> bool {
    input.joystick.switch_pressed || input.encoder.switch_pressed
}

/// The switch on an exit entry, of the start menu or the pause menu, leaves
/// the game.
pub open spec fn leaves(s: TetrisAppState, input: InputFrame, now_us: i64) -> bool {
    &&& !menu_moves(s, input, now_us)
    &&& switch_pressed(input)
    &&& (s.game.mode == TetrisMode::Choosing && s.choosing_action == TetrisChoosingAction::Exit
        || s.game.mode == TetrisMode::Paused && s.game.pause_action == TetrisPauseAction::Exit)
}

/// Input during play, other than a long press: the switch turns the piece;
/// failing that the knob moves it sideways; failing that a taken joystick
/// direction moves, drops or turns it.
pub open spec fn spec_playing_input(s: TetrisAppState, input: InputFrame, now_us: i64) -> TetrisAppState {
    let (turned, did_turn) = spec_move(s.game, Direction::Up);
    let side = if input.encoder.detents < 0 { Direction::Left } else { Direction::Right };
    let (shifted, did_shift) = spec_move(s.game, side);
    if switch_pressed(input) && did_turn {
        TetrisAppState { game: turned, ..s }
    } else if input.encoder.detents != 0 && did_shift {
        TetrisAppState { game: shifted, ..s }
    } else if input.joystick.has_direction && input.joystick.direction is Some {
        let d = input.joystick.direction->0;
        if accepts(s, now_us, d) {
            TetrisAppState { game: spec_move(s.game, d).0, ..after_accept(s, now_us, d) }
        } else {
            s
        }
    } else {
        s
    }
}

/// A frame of the game is due.
pub open spec fn due(g: TetrisState, now_us: i64) -> bool {
    g.mode == TetrisMode::Playing && now_us - g.last_tick_us >= spec_tick_us(g.lines)
}

/// What redrawing play from `prev` to `g` sends: the HUD values and the
/// well cells that changed, turned to the panel, and a flush.
pub open spec fn tetris_delta_cmds(g: TetrisState, prev: TetrisState) -> Seq<DrawCommand> {
    rotated(hud_delta_cmds(g, prev.score, prev.lines, prev.next) + changed_rows_cmds(g, prev.board, prev.active, 20))
        + seq![DrawCommand::Flush]
}

/// The player's input moved the piece in play.
pub open spec fn moved_by_input(s: TetrisAppState, input: InputFrame, now_us: i64) -> bool {
    let side = if input.encoder.detents < 0 { Direction::Left } else { Direction::Right };
    &&& s.game.mode == TetrisMode::Playing
    &&& !(input.joystick.switch_long_pressed || input.encoder.switch_long_pressed)
    &&& {
        ||| switch_pressed(input) && spec_move(s.game, Direction::Up).1
        ||| input.encoder.detents != 0 && spec_move(s.game, side).1
        ||| input.joystick.has_direction && input.joystick.direction is Some
            && accepts(s, now_us, input.joystick.direction->0) && spec_move(s.game, input.joystick.direction->0).1
    }
}

/// What one frame sends to the display, from `s` to `f`: in play, the
/// redraw after the player moved the piece, then the redraw after a due
/// frame that kept the game going. Other screens are redrawn in full by the
/// host.
pub open spec fn tetris_frame_cmds(s: TetrisAppState, input: InputFrame, now_us: i64, f: TetrisAppState) -> Seq<DrawCommand> {
    if s.game.mode == TetrisMode::Playing && !(input.joystick.switch_long_pressed || input.encoder.switch_long_pressed) {
        let s1 = spec_playing_input(s, input, now_us);
        (if moved_by_input(s, input, now_us) { tetris_delta_cmds(s1.game, s.game) } else { Seq::empty() })
            + (if due(s1.game, now_us) && f.game.mode == TetrisMode::Playing {
                tetris_delta_cmds(f.game, s1.game)
            } else {
                Seq::empty()
            })
    } else {
        Seq::empty()
    }
}

#[derive(Debug, Clone)]
pub struct TetrisApplication {
    game: TetrisGame,
    last_direction_us: i64,
    choosing_action: TetrisChoosingAction,
}

impl View for TetrisApplication {
    type V = TetrisAppState;

    closed spec fn view(&self) -> TetrisAppState {
        TetrisAppState {
            game: self.game@,
            last_direction_us: self.last_direction_us,
            choosing_action: self.choosing_action,
        }
    }
}

/// What the last frame showed, to redraw only what changed.
#[derive(Debug, Clone, Copy)]
struct TetrisRenderState {
    board: [u8; 200],
    active: TetrisPiece,
    score: u32,
    lines: u32,
    next: Tetromino,
}

impl TetrisRenderState {
    fn capture(game: &TetrisGame) -> (r: Self)
        ensures
            r.board@ == game@.board,
            r.active == game@.active,
            r.score == game@.score,
            r.lines == game@.lines,
            r.next == game@.next,
    {
        TetrisRenderState {
            board: *game.board(),
            active: game.active(),
            score: game.score(),
            lines: game.lines(),
            next: game.next(),
        }
    }
}

impl TetrisApplication {
    pub fn new() -> (r: Self)
        ensures
            tetris_valid(r@.game),
            r@.game.mode == TetrisMode::Choosing,
            r@.last_direction_us == 0,
            r@.choosing_action == TetrisChoosingAction::Start,
    {
        TetrisApplication {
            game: TetrisGame::default(),
            last_direction_us: 0,
            choosing_action: TetrisChoosingAction::Start,
        }
    }

    pub fn title(&self) -> (r: &'static str)
        ensures
            r@ == "TETRIS"@,
    {
        "TETRIS"
    }

    /// Opens the game on its start menu.
    pub fn enter(&mut self)
        requires
            tetris_valid(old(self)@.game),
        ensures
            tetris_valid(final(self)@.game),
            final(self)@ == (TetrisAppState {
                game: TetrisState {
                    mode: TetrisMode::Choosing,
                    pause_action: TetrisPauseAction::Continue,
                    ..old(self)@.game
                },
                last_direction_us: 0,
                choosing_action: TetrisChoosingAction::Start,
            }),
    {
        self.game.enter_choosing();
        self.last_direction_us = 0;
        self.choosing_action = TetrisChoosingAction::Start;
    }

    /// Handles one input frame, then runs a frame of the game when one is
    /// due. On the start menu and the pause menu the knob or up and down
    /// move the selection and the switch acts on it; after a game over the
    /// switch starts a new round. In play a long press pauses, the switch
    /// turns the piece, the knob moves it sideways and the joystick moves,
    /// drops or turns it. A frame in play redraws what changed; one that
    /// ends the round asks for a full redraw.
    pub fn update<D: DisplaySink, R: Rng>(
        &mut self,
        display: &mut D,
        rng: &mut R,
        input: InputFrame,
        now_us: i64,
    ) -> (action: AppAction)
        requires
            tetris_valid(old(self)@.game),
        ensures
            tetris_valid(final(self)@.game),
            appends(*old(display), *final(display)),
            sent(*old(display), *final(display), tetris_frame_cmds(old(self)@, input, now_us, final(self)@)),
            (action == AppAction::ExitToLauncher) == leaves(old(self)@, input, now_us),
            leaves(old(self)@, input, now_us) ==> {
                &&& final(self)@.game == (TetrisState {
                    mode: TetrisMode::Choosing,
                    pause_action: TetrisPauseAction::Continue,
                    ..old(self)@.game
                })
                &&& final(self)@.choosing_action == TetrisChoosingAction::Start
            },
            old(self)@.game.mode == TetrisMode::Choosing && input.encoder.detents != 0 ==> {
                &&& action == AppAction::RedrawFull
                &&& final(self)@.game == old(self)@.game
                &&& final(self)@.choosing_action == if old(self)@.choosing_action == TetrisChoosingAction::Start {
                    TetrisChoosingAction::Exit
                } else {
                    TetrisChoosingAction::Start
                }
            },
            old(self)@.game.mode == TetrisMode::Paused && input.encoder.detents != 0 ==> {
                &&& action == AppAction::RedrawFull
                &&& final(self)@.game == (TetrisState {
                    pause_action: if old(self)@.game.pause_action == TetrisPauseAction::Continue {
                        TetrisPauseAction::Exit
                    } else {
                        TetrisPauseAction::Continue
                    },
                    ..old(self)@.game
                })
            },
            (old(self)@.game.mode == TetrisMode::Choosing && old(self)@.choosing_action == TetrisChoosingAction::Start
                && !menu_moves(old(self)@, input, now_us) || old(self)@.game.mode == TetrisMode::GameOver)
                && switch_pressed(input) ==> {
                &&& action == AppAction::RedrawFull
                &&& final(self)@.game == spec_start(old(self)@.game, final(self)@.game.active.kind, final(self)@.game.next, now_us)
            },
            old(self)@.game.mode == TetrisMode::Paused && old(self)@.game.pause_action == TetrisPauseAction::Continue
                && !menu_moves(old(self)@, input, now_us) && switch_pressed(input) ==> {
                &&& action == AppAction::RedrawFull
                &&& final(self)@.game == (TetrisState { mode: TetrisMode::Playing, last_tick_us: now_us, ..old(self)@.game })
            },
            old(self)@.game.mode != TetrisMode::Playing && !menu_moves(old(self)@, input, now_us) && !switch_pressed(input)
                ==> action == AppAction::Nothing && final(self)@.game == old(self)@.game,
            old(self)@.game.mode == TetrisMode::Playing && (input.joystick.switch_long_pressed || input.encoder.switch_long_pressed)
                ==> {
                &&& action == AppAction::RedrawFull
                &&& final(self)@.game == (TetrisState {
                    mode: TetrisMode::Paused,
                    pause_action: TetrisPauseAction::Continue,
                    ..old(self)@.game
                })
            },
            old(self)@.game.mode == TetrisMode::Playing && !(input.joystick.switch_long_pressed || input.encoder.switch_long_pressed)
                ==> {
                let s1 = spec_playing_input(old(self)@, input, now_us);
                &&& final(self)@.last_direction_us == s1.last_direction_us
                &&& final(self)@.choosing_action == old(self)@.choosing_action
                &&& if due(s1.game, now_us) {
                    &&& final(self)@.game == spec_tick(TetrisState { last_tick_us: now_us, ..s1.game }, final(self)@.game.next)
                    &&& action == if final(self)@.game.mode == TetrisMode::Playing { AppAction::Nothing } else { AppAction::RedrawFull }
                } else {
                    final(self)@.game == s1.game && action == AppAction::Nothing
                }
            },
    {
        let ghost d0 = *display;
        let ghost head = if old(self)@.game.mode == TetrisMode::Playing && !(input.joystick.switch_long_pressed
            || input.encoder.switch_long_pressed) && moved_by_input(old(self)@, input, now_us) {
            tetris_delta_cmds(spec_playing_input(old(self)@, input, now_us).game, old(self)@.game)
        } else {
            Seq::empty()
        };
        let mut action = self.handle_input(display, rng, input, now_us);
        let ghost d1 = *display;
        let ghost g1 = self@.game;
        let ghost mut rest: Seq<DrawCommand> = Seq::empty();
        proof {
            lemma_sent_nothing(d1);
            assert(head + Seq::<DrawCommand>::empty() =~= head);
        }
        if action == AppAction::ExitToLauncher {
            return action;
        }
        if self.game.due_for_tick(now_us) {
            let previous = TetrisRenderState::capture(&self.game);
            self.game.mark_ticked(now_us);
            self.game.tick(rng);
            if self.game.mode() == TetrisMode::Playing {
                self.render_delta(display, previous);
                proof { rest = tetris_delta_cmds(self@.game, g1); }
                action = AppAction::Nothing;
            } else {
                action = AppAction::RedrawFull;
            }
        }
        proof { lemma_sent_then(d0, d1, *display, head, rest); }
        action
    }

    /// Redraws the whole screen for the current mode.
    pub fn render_full<D: DisplaySink>(&self, display: &mut D)
        requires
            tetris_valid(self@.game),
        ensures
            sent(*old(display), *final(display), frame_cmds(theme::BG, rotated(match self@.game.mode {
                TetrisMode::Choosing => tetris_renderer::choosing_portrait_cmds(),
                TetrisMode::Playing | TetrisMode::GameOver => tetris_renderer::board_portrait_cmds(self@.game),
                TetrisMode::Paused => tetris_renderer::pause_portrait_cmds(self@.game),
            }))),
            sent_frame(*old(display), *final(display), theme::BG),
    {
        match self.game.mode() {
            TetrisMode::Choosing => tetris_renderer::render_choosing(display),
            TetrisMode::Playing | TetrisMode::GameOver => tetris_renderer::render(display, &self.game),
            TetrisMode::Paused => tetris_renderer::render_pause_menu(display, &self.game),
        }
    }

    pub fn game(&self) -> (r: &TetrisGame)
        ensures
            r@ == self@.game,
    {
        &self.game
    }

    /// The start menu's selection.
    pub fn choosing_action(&self) -> (r: TetrisChoosingAction)
        ensures
            r == self@.choosing_action,
    {
        self.choosing_action
    }

    fn handle_input<D: DisplaySink, R: Rng>(
        &mut self,
        display: &mut D,
        rng: &mut R,
        input: InputFrame,
        now_us: i64,
    ) -> (action: AppAction)
        requires
            tetris_valid(old(self)@.game),
        ensures
            sent(*old(display), *final(display), if moved_by_input(old(self)@, input, now_us) {
                tetris_delta_cmds(spec_playing_input(old(self)@, input, now_us).game, old(self)@.game)
            } else {
                Seq::empty()
            }),
            tetris_valid(final(self)@.game),
            appends(*old(display), *final(display)),
            (action == AppAction::ExitToLauncher) == leaves(old(self)@, input, now_us),
            leaves(old(self)@, input, now_us) ==> {
                &&& final(self)@.game == (TetrisState {
                    mode: TetrisMode::Choosing,
                    pause_action: TetrisPauseAction::Continue,
                    ..old(self)@.game
                })
                &&& final(self)@.choosing_action == TetrisChoosingAction::Start
            },
            old(self)@.game.mode == TetrisMode::Choosing && input.encoder.detents != 0 ==> {
                &&& action == AppAction::RedrawFull
                &&& final(self)@.game == old(self)@.game
                &&& final(self)@.choosing_action == if old(self)@.choosing_action == TetrisChoosingAction::Start {
                    TetrisChoosingAction::Exit
                } else {
                    TetrisChoosingAction::Start
                }
            },
            old(self)@.game.mode == TetrisMode::Paused && input.encoder.detents != 0 ==> {
                &&& action == AppAction::RedrawFull
                &&& final(self)@.game == (TetrisState {
                    pause_action: if old(self)@.game.pause_action == TetrisPauseAction::Continue {
                        TetrisPauseAction::Exit
                    } else {
                        TetrisPauseAction::Continue
                    },
                    ..old(self)@.game
                })
            },
            (old(self)@.game.mode == TetrisMode::Choosing && old(self)@.choosing_action == TetrisChoosingAction::Start
                && !menu_moves(old(self)@, input, now_us) || old(self)@.game.mode == TetrisMode::GameOver)
                && switch_pressed(input) ==> {
                &&& action == AppAction::RedrawFull
                &&& final(self)@.game == spec_start(old(self)@.game, final(self)@.game.active.kind, final(self)@.game.next, now_us)
            },
            old(self)@.game.mode == TetrisMode::Paused && old(self)@.game.pause_action == TetrisPauseAction::Continue
                && !menu_moves(old(self)@, input, now_us) && switch_pressed(input) ==> {
                &&& action == AppAction::RedrawFull
                &&& final(self)@.game == (TetrisState { mode: TetrisMode::Playing, last_tick_us: now_us, ..old(self)@.game })
            },
            old(self)@.game.mode != TetrisMode::Playing && !menu_moves(old(self)@, input, now_us) && !switch_pressed(input)
                ==> action == AppAction::Nothing && final(self)@.game == old(self)@.game,
            old(self)@.game.mode != TetrisMode::Playing ==> final(self)@.game.mode != TetrisMode::Playing
                || final(self)@.game.last_tick_us == now_us,
            old(self)@.game.mode == TetrisMode::Playing && (input.joystick.switch_long_pressed || input.encoder.switch_long_pressed)
                ==> {
                &&& action == AppAction::RedrawFull
                &&& final(self)@.game == (TetrisState {
                    mode: TetrisMode::Paused,
                    pause_action: TetrisPauseAction::Continue,
                    ..old(self)@.game
                })
            },
            old(self)@.game.mode == TetrisMode::Playing && !(input.joystick.switch_long_pressed || input.encoder.switch_long_pressed)
                ==> final(self)@ == spec_playing_input(old(self)@, input, now_us) && action == AppAction::Nothing,
            action == AppAction::RedrawFull || action == AppAction::Nothing || action == AppAction::ExitToLauncher,
    {
        proof { lemma_sent_nothing(*display); }
        match self.game.mode() {
            TetrisMode::Choosing => self.handle_choosing_input(rng, input, now_us),
            TetrisMode::GameOver => {
                if input.joystick.switch_pressed || input.encoder.switch_pressed {
                    self.game.press_switch(rng, now_us);
                    AppAction::RedrawFull
                } else {
                    AppAction::Nothing
                }
            },
            TetrisMode::Playing => self.handle_playing_input(display, rng, input, now_us),
            TetrisMode::Paused => self.handle_paused_input(rng, input, now_us),
        }
    }

    fn handle_choosing_input<R: Rng>(&mut self, rng: &mut R, input: InputFrame, now_us: i64) -> (action: AppAction)
        requires
            tetris_valid(old(self)@.game),
            old(self)@.game.mode == TetrisMode::Choosing,
        ensures
            tetris_valid(final(self)@.game),
            (action == AppAction::ExitToLauncher) == leaves(old(self)@, input, now_us),
            leaves(old(self)@, input, now_us) ==> {
                &&& final(self)@.game == (TetrisState {
                    mode: TetrisMode::Choosing,
                    pause_action: TetrisPauseAction::Continue,
                    ..old(self)@.game
                })
                &&& final(self)@.choosing_action == TetrisChoosingAction::Start
            },
            input.encoder.detents != 0 ==> {
                &&& action == AppAction::RedrawFull
                &&& final(self)@.game == old(self)@.game
                &&& final(self)@.choosing_action == if old(self)@.choosing_action == TetrisChoosingAction::Start {
                    TetrisChoosingAction::Exit
                } else {
                    TetrisChoosingAction::Start
                }
            },
            old(self)@.choosing_action == TetrisChoosingAction::Start && !menu_moves(old(self)@, input, now_us)
                && switch_pressed(input) ==> {
                &&& action == AppAction::RedrawFull
                &&& final(self)@.game == spec_start(old(self)@.game, final(self)@.game.active.kind, final(self)@.game.next, now_us)
            },
            !menu_moves(old(self)@, input, now_us) && !switch_pressed(input)
                ==> action == AppAction::Nothing && final(self)@.game == old(self)@.game,
            final(self)@.game.mode != TetrisMode::Playing || final(self)@.game.last_tick_us == now_us,
            action == AppAction::RedrawFull || action == AppAction::Nothing || action == AppAction::ExitToLauncher,
    {
        if input.encoder.detents != 0 {
            self.cycle_choosing_action();
            return AppAction::RedrawFull;
        }
        let direction = match input.joystick.direction {
            Some(d) => d,
            None => Direction::Down,
        };
        if input.joystick.has_direction && self.accept_direction(now_us, direction)
            && (input.joystick.direction == Some(Direction::Up) || input.joystick.direction == Some(Direction::Down)) {
            self.cycle_choosing_action();
            return AppAction::RedrawFull;
        }
        if input.joystick.switch_pressed || input.encoder.switch_pressed {
            if self.choosing_action == TetrisChoosingAction::Exit {
                self.game.enter_choosing();
                self.choosing_action = TetrisChoosingAction::Start;
                return AppAction::ExitToLauncher;
            }
            self.game.press_switch(rng, now_us);
            return AppAction::RedrawFull;
        }
        AppAction::Nothing
    }

    fn cycle_choosing_action(&mut self)
        ensures
            final(self)@ == (TetrisAppState {
                choosing_action: if old(self)@.choosing_action == TetrisChoosingAction::Start {
                    TetrisChoosingAction::Exit
                } else {
                    TetrisChoosingAction::Start
                },
                ..old(self)@
            }),
    {
        self.choosing_action = match self.choosing_action {
            TetrisChoosingAction::Start => TetrisChoosingAction::Exit,
            TetrisChoosingAction::Exit => TetrisChoosingAction::Start,
        };
    }

    fn handle_playing_input<D: DisplaySink, R: Rng>(
        &mut self,
        display: &mut D,
        rng: &mut R,
        input: InputFrame,
        now_us: i64,
    ) -> (action: AppAction)
        requires
            tetris_valid(old(self)@.game),
            old(self)@.game.mode == TetrisMode::Playing,
        ensures
            tetris_valid(final(self)@.game),
            appends(*old(display), *final(display)),
            sent(*old(display), *final(display), if moved_by_input(old(self)@, input, now_us) {
                tetris_delta_cmds(spec_playing_input(old(self)@, input, now_us).game, old(self)@.game)
            } else {
                Seq::empty()
            }),
            input.joystick.switch_long_pressed || input.encoder.switch_long_pressed ==> {
                &&& action == AppAction::RedrawFull
                &&& final(self)@.game == (TetrisState {
                    mode: TetrisMode::Paused,
                    pause_action: TetrisPauseAction::Continue,
                    ..old(self)@.game
                })
            },
            !(input.joystick.switch_long_pressed || input.encoder.switch_long_pressed)
                ==> final(self)@ == spec_playing_input(old(self)@, input, now_us) && action == AppAction::Nothing,
    {
        proof { lemma_sent_nothing(*display); }
        if input.joystick.switch_long_pressed || input.encoder.switch_long_pressed {
            self.game.press_switch(rng, now_us);
            return AppAction::RedrawFull;
        }
        if input.joystick.switch_pressed || input.encoder.switch_pressed {
            let previous = TetrisRenderState::capture(&self.game);
            if self.game.move_active(Direction::Up) {
                self.render_delta(display, previous);
                return AppAction::Nothing;
            }
        }
        if input.encoder.detents != 0 {
            let direction = if input.encoder.detents < 0 { Direction::Left } else { Direction::Right };
            let previous = TetrisRenderState::capture(&self.game);
            if self.game.move_active(direction) {
                self.render_delta(display, previous);
                return AppAction::Nothing;
            }
        }
        if input.joystick.has_direction {
            if let Some(direction) = input.joystick.direction {
                if self.accept_direction(now_us, direction) {
                    let previous = TetrisRenderState::capture(&self.game);
                    if self.game.move_active(direction) {
                        self.render_delta(display, previous);
                        return AppAction::Nothing;
                    }
                }
            }
        }
        AppAction::Nothing
    }

    fn handle_paused_input<R: Rng>(&mut self, rng: &mut R, input: InputFrame, now_us: i64) -> (action: AppAction)
        requires
            tetris_valid(old(self)@.game),
            old(self)@.game.mode == TetrisMode::Paused,
        ensures
            tetris_valid(final(self)@.game),
            (action == AppAction::ExitToLauncher) == leaves(old(self)@, input, now_us),
            leaves(old(self)@, input, now_us) ==> {
                &&& final(self)@.game == (TetrisState {
                    mode: TetrisMode::Choosing,
                    pause_action: TetrisPauseAction::Continue,
                    ..old(self)@.game
                })
                &&& final(self)@.choosing_action == TetrisChoosingAction::Start
            },
            input.encoder.detents != 0 ==> {
                &&& action == AppAction::RedrawFull
                &&& final(self)@.game == (TetrisState {
                    pause_action: if old(self)@.game.pause_action == TetrisPauseAction::Continue {
                        TetrisPauseAction::Exit
                    } else {
                        TetrisPauseAction::Continue
                    },
                    ..old(self)@.game
                })
            },
            old(self)@.game.pause_action == TetrisPauseAction::Continue && !menu_moves(old(self)@, input, now_us)
                && switch_pressed(input) ==> {
                &&& action == AppAction::RedrawFull
                &&& final(self)@.game == (TetrisState { mode: TetrisMode::Playing, last_tick_us: now_us, ..old(self)@.game })
            },
            !menu_moves(old(self)@, input, now_us) && !switch_pressed(input)
                ==> action == AppAction::Nothing && final(self)@.game == old(self)@.game,
            final(self)@.game.mode != TetrisMode::Playing || final(self)@.game.last_tick_us == now_us,
            action == AppAction::RedrawFull || action == AppAction::Nothing || action == AppAction::ExitToLauncher,
    {
        if input.encoder.detents != 0 {
            self.game.cycle_pause_action();
            return AppAction::RedrawFull;
        }
        let direction = match input.joystick.direction {
            Some(d) => d,
            None => Direction::Down,
        };
        if input.joystick.has_direction && self.accept_direction(now_us, direction)
            && (input.joystick.direction == Some(Direction::Up) || input.joystick.direction == Some(Direction::Down)) {
            self.game.cycle_pause_action();
            return AppAction::RedrawFull;
        }
        if input.joystick.switch_pressed || input.encoder.switch_pressed {
            if self.game.pause_action() == TetrisPauseAction::Exit {
                self.game.enter_choosing();
                self.choosing_action = TetrisChoosingAction::Start;
                return AppAction::ExitToLauncher;
            }
            self.game.press_switch(rng, now_us);
            return AppAction::RedrawFull;
        }
        AppAction::Nothing
    }

    fn accept_direction(&mut self, now_us: i64, direction: Direction) -> (r: bool)
        ensures
            r == accepts(old(self)@, now_us, direction),
            final(self)@ == after_accept(old(self)@, now_us, direction),
    {
        let repeat_us: i128 = if direction == Direction::Down { 55_000 } else { 130_000 };
        if (now_us as i128) - (self.last_direction_us as i128) < repeat_us {
            return false;
        }
        self.last_direction_us = now_us;
        true
    }

    fn render_delta<D: DisplaySink>(&self, display: &mut D, previous: TetrisRenderState)
        requires
            tetris_valid(self@.game),
        ensures
            sent(*old(display), *final(display), rotated(
                hud_delta_cmds(self@.game, previous.score, previous.lines, previous.next)
                    + changed_rows_cmds(self@.game, previous.board@, previous.active, 20),
            ) + seq![DrawCommand::Flush]),
            flushed(*old(display), *final(display)),
    {
        tetris_renderer::render_play_delta(
            display,
            &self.game,
            &previous.board,
            previous.active,
            previous.score,
            previous.lines,
            previous.next,
        );
    }
}

impl Default for TetrisApplication {
    fn default() -> (r: Self)
        ensures
            tetris_valid(r@.game),
            r@.game.mode == TetrisMode::Choosing,
    {
        Self::new()
    }
}

} // verus!
