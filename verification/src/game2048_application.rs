use vstd::prelude::*;
use crate::app::AppAction;
use crate::config::Direction;
use crate::game2048::{
    spec_best_kept, spec_is_game_over, spec_placed, spec_slid, spec_started, spec_store_offered, Game2048,
    Game2048ChoosingField, Game2048GameOverAction, Game2048Mode, Game2048State, GridSize, PauseAction,
};
use crate::game2048_renderer;
use crate::input::InputFrame;
use crate::render::{appends, frame_cmds, lemma_appends_chain, lemma_sent_appends, sent, sent_frame, DisplaySink};
use crate::rng::Rng;
use crate::store::HighScoreStore;
use crate::theme;

verus! {

broadcast use lemma_sent_appends, lemma_appends_chain;

/// The abstract state of the 2048 application.
pub struct Game2048AppState {
    pub game: Game2048State,
    pub prev_grid: Seq<u16>,
    pub prev_score: u32,
    pub prev_best_score: u32,
    pub last_menu_direction_us: i64,
}

/// Menu directions are taken at most every 250 ms.
pub open spec fn menu_direction_due(last_us: i64, now_us: i64) -> bool {
    now_us - last_us >= 250_000
}

/// The grid size after stepping by `delta`, kept between the smallest and
/// the largest.
pub open spec fn stepped_size(size: GridSize, delta: int) -> GridSize {
    let idx = size.spec_index() + delta;
    GridSize::spec_from_index((if idx < 0 { 0 } else if idx > 2 { 2 } else { idx }) as usize)
}

/// The setup screen without the switch: the knob steps the grid size, then
/// a joystick direction (left or up smaller, right or down larger) when
/// menu directions are due; a change loads the size's best score and asks
/// for a full redraw.
pub open spec fn spec_choosing_adjust<H: HighScoreStore>(s: Game2048AppState, input: InputFrame, now_us: i64, store: &H) -> (Game2048AppState, AppAction) {
    let g = s.game;
    let size1 = if input.encoder.detents != 0 { stepped_size(g.grid_size, input.encoder.detents as int) } else { g.grid_size };
    let take_dir = input.joystick.has_direction && menu_direction_due(s.last_menu_direction_us, now_us);
    let last = if take_dir { now_us } else { s.last_menu_direction_us };
    let size2 = if take_dir {
        match input.joystick.direction {
            Some(Direction::Left) | Some(Direction::Up) => stepped_size(size1, -1),
            Some(Direction::Right) | Some(Direction::Down) => stepped_size(size1, 1),
            None => size1,
        }
    } else {
        size1
    };
    let changed = size1 != g.grid_size || size2 != size1;
    let g2 = Game2048State {
        grid_size: size2,
        best_score: if changed { store.game2048_best(size2.spec_index() as int) } else { g.best_score },
        ..g
    };
    (Game2048AppState { game: g2, last_menu_direction_us: last, ..s }, if changed { AppAction::RedrawFull } else { AppAction::Nothing })
}

/// Whether the switch was pressed, on the stick or on the knob.
pub open spec fn switch_pressed(input: InputFrame) -> bool {
    input.joystick.switch_pressed || input.encoder.switch_pressed
}

/// The setup screen for the grid size of `g`, with its stored best.
pub open spec fn spec_to_setup<H: HighScoreStore>(g: Game2048State, store: &H) -> Game2048State {
    Game2048State {
        mode: Game2048Mode::Choosing,
        best_score: store.game2048_best(g.grid_size.spec_index() as int),
        pause_action: PauseAction::Continue,
        choosing_field: Game2048ChoosingField::Size,
        game_over_action: Game2048GameOverAction::Restart,
        ..g
    }
}

/// The game paused, the menu on "continue".
pub open spec fn spec_paused(g: Game2048State) -> Game2048State {
    Game2048State { mode: Game2048Mode::Paused, pause_action: PauseAction::Continue, ..g }
}

/// The pause menu's other entry selected.
pub open spec fn spec_cycled(g: Game2048State) -> Game2048State {
    Game2048State {
        pause_action: if g.pause_action == PauseAction::Continue { PauseAction::Exit } else { PauseAction::Continue },
        ..g
    }
}

/// One input frame during play, from `s` and the store `h0` to `f`, the
/// action and the store `h1`. A direction remembers the board, slides it,
/// and after a move places a new tile; a board that can no longer move
/// keeps its best score and asks for a full redraw. A direction that
/// moves nothing ends a blocked game. Otherwise the switch pauses.
pub open spec fn spec_playing_step<H: HighScoreStore>(
    s: Game2048AppState,
    input: InputFrame,
    f: Game2048AppState,
    action: AppAction,
    h0: &H,
    h1: &H,
) -> bool {
    let g = s.game;
    if input.joystick.has_direction && input.joystick.direction is Some {
        let slid = spec_slid(g, input.joystick.direction->0);
        let placed = Game2048State { best_score: g.best_score, ..f.game };
        &&& f.prev_grid == g.grid && f.prev_score == g.score && f.prev_best_score == g.best_score
        &&& f.last_menu_direction_us == s.last_menu_direction_us
        &&& if slid.grid != g.grid {
            &&& spec_placed(slid, placed)
            &&& if spec_is_game_over(placed) {
                f.game == spec_best_kept(placed) && action == AppAction::RedrawFull
                    && spec_store_offered(placed, h0, h1)
            } else {
                f.game == placed && action == AppAction::Nothing && *h1 == *h0
            }
        } else if spec_is_game_over(g) {
            &&& f.game == Game2048State { mode: Game2048Mode::GameOver, ..spec_best_kept(g) }
            &&& action == AppAction::RedrawFull
            &&& spec_store_offered(g, h0, h1)
        } else if switch_pressed(input) {
            f.game == spec_paused(g) && action == AppAction::RedrawFull && *h1 == *h0
        } else {
            f.game == g && action == AppAction::Nothing && *h1 == *h0
        }
    } else if switch_pressed(input) {
        f == (Game2048AppState { game: spec_paused(g), ..s }) && action == AppAction::RedrawFull && *h1 == *h0
    } else {
        f == s && action == AppAction::Nothing && *h1 == *h0
    }
}

/// A frame of play that moved the tiles and left a move possible: only
/// the moved cells and changed numbers are redrawn.
pub open spec fn redraws_move(s: Game2048AppState, input: InputFrame, f: Game2048AppState) -> bool {
    &&& s.game.mode == Game2048Mode::Playing
    &&& input.joystick.has_direction && input.joystick.direction is Some
    &&& spec_slid(s.game, input.joystick.direction->0).grid != s.game.grid
    &&& !spec_is_game_over(Game2048State { best_score: s.game.best_score, ..f.game })
}

/// One input frame in the pause menu: the knob, or up or down when menu
/// directions are due, moves the selection; otherwise the switch continues
/// the game or leaves it for setup. Any due direction is taken.
pub open spec fn spec_paused_step<H: HighScoreStore>(
    s: Game2048AppState,
    input: InputFrame,
    now_us: i64,
    f: Game2048AppState,
    action: AppAction,
    h0: &H,
) -> bool {
    let g = s.game;
    let take = input.joystick.has_direction && menu_direction_due(s.last_menu_direction_us, now_us);
    let s1 = Game2048AppState { last_menu_direction_us: if take { now_us } else { s.last_menu_direction_us }, ..s };
    if input.encoder.detents != 0 {
        f == (Game2048AppState { game: spec_cycled(g), ..s }) && action == AppAction::RedrawFull
    } else if take && (input.joystick.direction == Some(Direction::Up) || input.joystick.direction == Some(Direction::Down)) {
        f == (Game2048AppState { game: spec_cycled(g), ..s1 }) && action == AppAction::RedrawFull
    } else if switch_pressed(input) {
        &&& action == AppAction::RedrawFull
        &&& f == (Game2048AppState {
            game: if g.pause_action == PauseAction::Continue {
                Game2048State { mode: Game2048Mode::Playing, ..g }
            } else {
                spec_to_setup(g, h0)
            },
            ..s1
        })
    } else {
        f == s1 && action == AppAction::Nothing
    }
}

#[derive(Debug, Clone)]
pub struct Game2048Application {
    game: Game2048,
    prev_grid: [u16; 25],
    prev_score: u32,
    prev_best_score: u32,
    last_menu_direction_us: i64,
}

impl View for Game2048Application {
    type V = Game2048AppState;

    closed spec fn view(&self) -> Game2048AppState {
        Game2048AppState {
            game: self.game@,
            prev_grid: self.prev_grid@,
            prev_score: self.prev_score,
            prev_best_score: self.prev_best_score,
            last_menu_direction_us: self.last_menu_direction_us,
        }
    }
}

impl Game2048Application {
    pub fn new() -> (r: Self)
        ensures
            r@.game.mode == Game2048Mode::Choosing,
            r@.last_menu_direction_us == 0,
    {
        Game2048Application {
            game: Game2048::default(),
            prev_grid: [0u16; 25],
            prev_score: 0,
            prev_best_score: 0,
            last_menu_direction_us: 0,
        }
    }

    pub fn title(&self) -> (r: &'static str)
        ensures
            r@ == "2048"@,
    {
        "2048"
    }

    /// Opens the setup screen with the best score of the grid size.
    pub fn enter<H: HighScoreStore>(&mut self, high_scores: &H)
        ensures
            final(self)@ == (Game2048AppState {
                game: Game2048State {
                    mode: Game2048Mode::Choosing,
                    best_score: high_scores.game2048_best(old(self)@.game.grid_size.spec_index() as int),
                    pause_action: PauseAction::Continue,
                    choosing_field: crate::game2048::Game2048ChoosingField::Size,
                    game_over_action: crate::game2048::Game2048GameOverAction::Restart,
                    ..old(self)@.game
                },
                ..old(self)@
            }),
    {
        self.game.enter_choosing(high_scores);
    }

    /// Handles one input frame. Setup: the switch starts a game, the knob
    /// and the stick change the size. Play: a direction slides the tiles and
    /// a new tile appears after a move (the moved cells are redrawn here; a
    /// finished board or a blocked one ends with a full redraw), the switch
    /// pauses. Pause: the knob or up and down move the selection, the switch
    /// acts on it. Game over: the switch goes back to setup. A full redraw
    /// is asked for as `RedrawFull`.
    pub fn update<D: DisplaySink, H: HighScoreStore, R: Rng>(
        &mut self,
        display: &mut D,
        high_scores: &mut H,
        rng: &mut R,
        input: InputFrame,
        now_us: i64,
    ) -> (action: AppAction)
        ensures
            appends(*old(display), *final(display)),
            action != AppAction::ExitToLauncher,
            redraws_move(old(self)@, input, final(self)@) ==> sent(*old(display), *final(display),
                game2048_renderer::move_delta_cmds(final(self)@.game, old(self)@.game.grid, old(self)@.game.score,
                    old(self)@.game.best_score)),
            !redraws_move(old(self)@, input, final(self)@) ==> *final(display) == *old(display),
            old(self)@.game.mode == Game2048Mode::Choosing ==> if switch_pressed(input) {
                &&& action == AppAction::RedrawFull
                &&& spec_started(old(self)@.game, final(self)@.game, old(high_scores))
                &&& final(self)@ == (Game2048AppState { game: final(self)@.game, ..old(self)@ })
                &&& *final(high_scores) == *old(high_scores)
            } else {
                &&& (final(self)@, action) == spec_choosing_adjust(old(self)@, input, now_us, old(high_scores))
                &&& *final(high_scores) == *old(high_scores)
            },
            old(self)@.game.mode == Game2048Mode::Playing
                ==> spec_playing_step(old(self)@, input, final(self)@, action, old(high_scores), final(high_scores)),
            old(self)@.game.mode == Game2048Mode::Paused ==> {
                &&& spec_paused_step(old(self)@, input, now_us, final(self)@, action, old(high_scores))
                &&& *final(high_scores) == *old(high_scores)
            },
            old(self)@.game.mode == Game2048Mode::GameOver ==> if switch_pressed(input) {
                &&& action == AppAction::RedrawFull
                &&& final(self)@ == (Game2048AppState { game: spec_to_setup(old(self)@.game, old(high_scores)), ..old(self)@ })
                &&& *final(high_scores) == *old(high_scores)
            } else {
                final(self)@ == old(self)@ && action == AppAction::Nothing && *final(high_scores) == *old(high_scores)
            },
    {
        match self.game.mode() {
            Game2048Mode::Choosing => self.handle_choosing_input(high_scores, rng, input, now_us),
            Game2048Mode::Playing => self.handle_playing_input(display, high_scores, rng, input),
            Game2048Mode::Paused => self.handle_paused_input(high_scores, rng, input, now_us),
            Game2048Mode::GameOver => {
                if input.joystick.switch_pressed || input.encoder.switch_pressed {
                    self.game.press_switch(high_scores, rng);
                    AppAction::RedrawFull
                } else {
                    AppAction::Nothing
                }
            },
        }
    }

    /// Redraws the screen for the game's mode.
    pub fn render_full<D: DisplaySink>(&self, display: &mut D)
        ensures
            sent(*old(display), *final(display), frame_cmds(theme::BG, match self@.game.mode {
                Game2048Mode::Choosing => game2048_renderer::choosing_cmds(self@.game),
                Game2048Mode::Playing | Game2048Mode::GameOver => game2048_renderer::board_cmds(self@.game),
                Game2048Mode::Paused => game2048_renderer::pause_menu_cmds(self@.game),
            })),
            sent_frame(*old(display), *final(display), theme::BG),
    {
        match self.game.mode() {
            Game2048Mode::Choosing => game2048_renderer::render_choosing(display, &self.game),
            Game2048Mode::Playing | Game2048Mode::GameOver => game2048_renderer::render(display, &self.game),
            Game2048Mode::Paused => game2048_renderer::render_pause_menu(display, &self.game),
        }
    }

    pub fn game(&self) -> (r: &Game2048)
        ensures
            r@ == self@.game,
    {
        &self.game
    }

    fn handle_choosing_input<H: HighScoreStore, R: Rng>(&mut self, high_scores: &mut H, rng: &mut R, input: InputFrame, now_us: i64) -> (action: AppAction)
        requires
            old(self)@.game.mode == Game2048Mode::Choosing,
        ensures
            *final(high_scores) == *old(high_scores),
            !switch_pressed(input) ==> (final(self)@, action) == spec_choosing_adjust(old(self)@, input, now_us, old(high_scores)),
            switch_pressed(input) ==> {
                &&& action == AppAction::RedrawFull
                &&& spec_started(old(self)@.game, final(self)@.game, old(high_scores))
                &&& final(self)@ == (Game2048AppState { game: final(self)@.game, ..old(self)@ })
            },
    {
        if input.joystick.switch_pressed || input.encoder.switch_pressed {
            self.game.press_switch(high_scores, rng);
            return AppAction::RedrawFull;
        }
        let mut changed = false;
        if input.encoder.detents != 0 {
            changed = self.game.adjust_grid_size(input.encoder.detents);
        }
        if input.joystick.has_direction && self.accept_menu_direction(now_us) {
            match input.joystick.direction {
                Some(Direction::Left) | Some(Direction::Up) => {
                    changed = self.game.adjust_grid_size(-1) || changed;
                },
                Some(Direction::Right) | Some(Direction::Down) => {
                    changed = self.game.adjust_grid_size(1) || changed;
                },
                None => {},
            }
        }
        if changed {
            self.game.refresh_best_score(high_scores);
        }
        if changed { AppAction::RedrawFull } else { AppAction::Nothing }
    }

    fn handle_playing_input<D: DisplaySink, H: HighScoreStore, R: Rng>(&mut self, display: &mut D, high_scores: &mut H, rng: &mut R, input: InputFrame) -> (action: AppAction)
        requires
            old(self)@.game.mode == Game2048Mode::Playing,
        ensures
            appends(*old(display), *final(display)),
            spec_playing_step(old(self)@, input, final(self)@, action, old(high_scores), final(high_scores)),
            redraws_move(old(self)@, input, final(self)@) ==> sent(*old(display), *final(display),
                game2048_renderer::move_delta_cmds(final(self)@.game, old(self)@.game.grid, old(self)@.game.score,
                    old(self)@.game.best_score)),
            !redraws_move(old(self)@, input, final(self)@) ==> *final(display) == *old(display),
    {
        if input.joystick.has_direction {
            if let Some(direction) = input.joystick.direction {
                self.prev_grid = *self.game.grid();
                self.prev_score = self.game.score();
                self.prev_best_score = self.game.best_score();
                if self.game.slide(direction) {
                    self.game.place_random_tile(rng);
                    if self.game.is_game_over() {
                        self.game.update_best_score(high_scores);
                        return AppAction::RedrawFull;
                    }
                    game2048_renderer::render_move_delta(display, &self.game, &self.prev_grid, self.prev_score, self.prev_best_score);
                    return AppAction::Nothing;
                } else if self.game.is_game_over() {
                    self.game.enter_game_over(high_scores);
                    return AppAction::RedrawFull;
                }
            }
        }
        if input.joystick.switch_pressed || input.encoder.switch_pressed {
            self.game.press_switch(high_scores, rng);
            return AppAction::RedrawFull;
        }
        AppAction::Nothing
    }

    fn handle_paused_input<H: HighScoreStore, R: Rng>(&mut self, high_scores: &mut H, rng: &mut R, input: InputFrame, now_us: i64) -> (action: AppAction)
        requires
            old(self)@.game.mode == Game2048Mode::Paused,
        ensures
            spec_paused_step(old(self)@, input, now_us, final(self)@, action, old(high_scores)),
            *final(high_scores) == *old(high_scores),
    {
        if input.encoder.detents != 0 {
            self.game.cycle_pause_action();
            return AppAction::RedrawFull;
        }
        if input.joystick.has_direction && self.accept_menu_direction(now_us) {
            if input.joystick.direction == Some(Direction::Up) || input.joystick.direction == Some(Direction::Down) {
                self.game.cycle_pause_action();
                return AppAction::RedrawFull;
            }
        }
        if input.joystick.switch_pressed || input.encoder.switch_pressed {
            self.game.press_switch(high_scores, rng);
            return AppAction::RedrawFull;
        }
        AppAction::Nothing
    }

    fn accept_menu_direction(&mut self, now_us: i64) -> (r: bool)
        ensures
            r == menu_direction_due(old(self)@.last_menu_direction_us, now_us),
            final(self)@ == (Game2048AppState {
                last_menu_direction_us: if r { now_us } else { old(self)@.last_menu_direction_us },
                ..old(self)@
            }),
    {
        if (now_us as i128) - (self.last_menu_direction_us as i128) < 250_000 {
            return false;
        }
        self.last_menu_direction_us = now_us;
        true
    }
}

impl Default for Game2048Application {
    fn default() -> (r: Self)
        ensures
            r@.game.mode == Game2048Mode::Choosing,
    {
        Self::new()
    }
}

} // verus!
