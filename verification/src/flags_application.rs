use vstd::prelude::*;
use crate::app::AppAction;
use crate::config::{spec_wrap_index, Direction};
use crate::flags::{
    flags_valid, question_well_formed, spec_choosing_action_down, spec_choosing_action_up, spec_feedback_finished, FlagsChoosingAction,
    FlagsGame, FlagsPauseAction, FlagsResultAction, FlagsState, FlagsView, FLAGS_OPTION_COUNT, FLAG_ASSET_COUNT,
};
use crate::flags_renderer;
use crate::flags_renderer::{answer_selection_cmds, feedback_overlay_cmds};
use crate::input::InputFrame;
use crate::render::{
    appends, frame_cmds, lemma_appends_chain, lemma_sent_appends, lemma_sent_nothing, sent, sent_frame, DisplaySink, DrawCommand,
};
use crate::rng::Rng;
use crate::store::HighScoreStore;
use crate::theme;

verus! {

broadcast use lemma_sent_appends, lemma_appends_chain;

/// How long the verdict shows before the game moves on, in microseconds.
pub const FEEDBACK_US: i64 = 900_000;

/// The abstract state of the Flags application.
pub struct FlagsAppState {
    pub game: FlagsView,
    pub last_menu_direction_us: i64,
    pub feedback_start_us: i64,
}

pub open spec fn switch_pressed(input: InputFrame) -> bool {
    input.joystick.switch_pressed || input.encoder.switch_pressed
}

pub open spec fn long_press(input: InputFrame) -> bool {
    input.joystick.switch_long_pressed || input.encoder.switch_long_pressed
}

pub open spec fn up_or_down(input: InputFrame) -> bool {
    input.joystick.direction == Some(Direction::Up) || input.joystick.direction == Some(Direction::Down)
}

/// A menu direction is taken a quarter second after the last one.
pub open spec fn accepts(s: FlagsAppState, now_us: i64) -> bool {
    now_us - s.last_menu_direction_us >= 250_000
}

/// The verdict has shown long enough.
pub open spec fn feedback_due(s: FlagsAppState, now_us: i64) -> bool {
    s.game.state == FlagsState::Feedback && now_us - s.feedback_start_us >= FEEDBACK_US
}

/// The mode-menu cursor after the knob (down for a positive turn, up for a
/// negative one) and then a taken up or down direction.
pub open spec fn choosing_after(s: FlagsAppState, input: InputFrame, now_us: i64) -> FlagsChoosingAction {
    let a0 = s.game.choosing_action;
    let a1 = if input.encoder.detents > 0 {
        spec_choosing_action_down(a0)
    } else if input.encoder.detents < 0 {
        spec_choosing_action_up(a0)
    } else {
        a0
    };
    if input.joystick.has_direction && accepts(s, now_us) {
        if input.joystick.direction == Some(Direction::Up) {
            spec_choosing_action_up(a1)
        } else if input.joystick.direction == Some(Direction::Down) {
            spec_choosing_action_down(a1)
        } else {
            a1
        }
    } else {
        a1
    }
}

pub open spec fn other_result_action(a: FlagsResultAction) -> FlagsResultAction {
    if a == FlagsResultAction::Restart { FlagsResultAction::Exit } else { FlagsResultAction::Restart }
}

/// On the results screens, the knob and a taken up or down direction each
/// toggle the action.
pub open spec fn result_after(s: FlagsAppState, input: InputFrame, now_us: i64) -> FlagsResultAction {
    let a1 = if input.encoder.detents != 0 { other_result_action(s.game.result_action) } else { s.game.result_action };
    if input.joystick.has_direction && accepts(s, now_us) && up_or_down(input) { other_result_action(a1) } else { a1 }
}

/// In the pause menu, the knob or a taken up or down direction moves the
/// selection (and nothing else happens that frame).
pub open spec fn paused_moves(s: FlagsAppState, input: InputFrame, now_us: i64) -> bool {
    input.encoder.detents != 0 || (input.joystick.has_direction && accepts(s, now_us) && up_or_down(input))
}

/// The answer cursor moved one tile on the two-by-two grid; it stops at
/// the edges.
pub open spec fn moved_answer(s: usize, direction: Direction) -> usize {
    match direction {
        Direction::Up => if s >= 2 { (s - 2) as usize } else { s },
        Direction::Down => if s < 2 { (s + 2) as usize } else { s },
        Direction::Left => if s % 2 == 1 { (s - 1) as usize } else { s },
        Direction::Right => if s % 2 == 0 { (s + 1) as usize } else { s },
    }
}

/// The answer cursor after the knob turned it and a taken direction moved
/// it.
pub open spec fn answer_after(s: FlagsAppState, input: InputFrame, now_us: i64) -> usize {
    let a0 = s.game.selected_answer;
    let a1 = if input.encoder.detents != 0 { spec_wrap_index(a0 + input.encoder.detents, 4) as usize } else { a0 };
    if input.joystick.has_direction && accepts(s, now_us) && input.joystick.direction is Some {
        moved_answer(a1, input.joystick.direction->0)
    } else {
        a1
    }
}

/// The answer tiles are redrawn: the knob turned, or a taken direction
/// moved the cursor.
pub open spec fn answer_redrawn(s: FlagsAppState, input: InputFrame, now_us: i64) -> bool {
    let a0 = s.game.selected_answer;
    let a1 = if input.encoder.detents != 0 { spec_wrap_index(a0 + input.encoder.detents, 4) as usize } else { a0 };
    ||| input.encoder.detents != 0
    ||| input.joystick.has_direction && accepts(s, now_us) && input.joystick.direction is Some
        && moved_answer(a1, input.joystick.direction->0) != a1
}

/// What one frame sends to the display, from `s` to `f`: during a question
/// the verdict after an answer, or the tiles whose cursor changed. Other
/// screens are redrawn in full by the host.
pub open spec fn flags_frame_cmds(s: FlagsAppState, input: InputFrame, now_us: i64, f: FlagsAppState) -> Seq<DrawCommand> {
    if !feedback_due(s, now_us) && s.game.state == FlagsState::Question && !long_press(input) {
        if switch_pressed(input) {
            feedback_overlay_cmds(f.game) + seq![DrawCommand::Flush]
        } else if answer_redrawn(s, input, now_us) {
            answer_selection_cmds(f.game, s.game.selected_answer)
        } else {
            Seq::empty()
        }
    } else {
        Seq::empty()
    }
}

/// The answer cursor never leaves the four tiles, whatever the knob and
/// the joystick do.
pub proof fn law_answer_cursor_stays_on_tiles(s: FlagsAppState, input: InputFrame, now_us: i64)
    requires
        s.game.selected_answer < 4,
    ensures
        answer_after(s, input, now_us) < 4,
{
}

/// The switch on an exit entry leaves the game: in the mode menu, in the
/// pause menu, or on the results screens.
pub open spec fn leaves(s: FlagsAppState, input: InputFrame, now_us: i64) -> bool {
    &&& !feedback_due(s, now_us)
    &&& switch_pressed(input)
    &&& match s.game.state {
        FlagsState::ChoosingMode => choosing_after(s, input, now_us) == FlagsChoosingAction::Exit,
        FlagsState::Paused => !paused_moves(s, input, now_us) && s.game.pause_action == FlagsPauseAction::Exit,
        FlagsState::Results | FlagsState::Over => result_after(s, input, now_us) == FlagsResultAction::Exit,
        _ => false,
    }
}

/// The mode-menu cursor on `next`; a mode under it becomes the selected
/// mode.
pub open spec fn cursor_on(g: FlagsView, next: FlagsChoosingAction) -> FlagsView {
    FlagsView {
        choosing_action: next,
        selected_mode: match next {
            FlagsChoosingAction::Mode(m) => m,
            FlagsChoosingAction::Exit => g.selected_mode,
        },
        ..g
    }
}

/// The mode menu after the knob (down for a positive turn, up for a
/// negative one) and then a taken up or down direction.
pub open spec fn spec_mode_menu(s: FlagsAppState, input: InputFrame, now_us: i64) -> FlagsAppState {
    let g = s.game;
    let g1 = if input.encoder.detents > 0 {
        cursor_on(g, spec_choosing_action_down(g.choosing_action))
    } else if input.encoder.detents < 0 {
        cursor_on(g, spec_choosing_action_up(g.choosing_action))
    } else {
        g
    };
    let take = input.joystick.has_direction && accepts(s, now_us);
    let g2 = if take && input.joystick.direction == Some(Direction::Up) {
        cursor_on(g1, spec_choosing_action_up(g1.choosing_action))
    } else if take && input.joystick.direction == Some(Direction::Down) {
        cursor_on(g1, spec_choosing_action_down(g1.choosing_action))
    } else {
        g1
    };
    FlagsAppState { game: g2, last_menu_direction_us: if take { now_us } else { s.last_menu_direction_us }, ..s }
}

/// The selected mode started from `o`: fresh score, first round, the stored
/// best, and its first question.
pub open spec fn spec_mode_started<H: HighScoreStore>(o: FlagsView, f: FlagsView, store: &H) -> bool {
    &&& flags_valid(f)
    &&& question_well_formed(f)
    &&& f.state == FlagsState::Question
    &&& f.active_mode == o.selected_mode
    &&& f.selected_mode == o.selected_mode
    &&& f.result_action == FlagsResultAction::Restart
    &&& f.score == 0
    &&& f.round == 1
    &&& f.selected_answer == 0
    &&& f.best_score == store.flags_best()
    &&& f.used_count == 1
    &&& f.flag_count == o.flag_count
    &&& f.pause_action == o.pause_action
    &&& f.choosing_action == o.choosing_action
    &&& f.last_answer_correct == o.last_answer_correct
}

/// The mode menu again, the score cleared, with the stored best.
pub open spec fn spec_to_mode_menu<H: HighScoreStore>(g: FlagsView, store: &H) -> FlagsView {
    FlagsView {
        state: FlagsState::ChoosingMode,
        result_action: FlagsResultAction::Restart,
        pause_action: FlagsPauseAction::Continue,
        choosing_action: FlagsChoosingAction::Mode(g.selected_mode),
        score: 0,
        round: 0,
        best_score: store.flags_best(),
        ..g
    }
}

/// The selected tile given as the answer: a right one scores a point.
pub open spec fn spec_confirmed(g: FlagsView) -> FlagsView {
    let correct = g.selected_answer == g.correct_answer;
    FlagsView {
        last_answer_correct: correct,
        score: if correct { g.score.wrapping_add(1) } else { g.score },
        state: FlagsState::Feedback,
        ..g
    }
}

/// A question without a long press: the cursor moves, and the switch gives
/// the answer and starts the feedback.
pub open spec fn spec_question_input(s: FlagsAppState, input: InputFrame, now_us: i64) -> FlagsAppState {
    let take = input.joystick.has_direction && accepts(s, now_us);
    let g1 = FlagsView { selected_answer: answer_after(s, input, now_us), ..s.game };
    let s1 = FlagsAppState { game: g1, last_menu_direction_us: if take { now_us } else { s.last_menu_direction_us }, ..s };
    if switch_pressed(input) {
        FlagsAppState { game: spec_confirmed(g1), feedback_start_us: now_us, ..s1 }
    } else {
        s1
    }
}

/// The pause menu's other entry selected.
pub open spec fn spec_pause_cycled(g: FlagsView) -> FlagsView {
    FlagsView {
        pause_action: if g.pause_action == FlagsPauseAction::Continue {
            FlagsPauseAction::Exit
        } else {
            FlagsPauseAction::Continue
        },
        ..g
    }
}

/// One frame in the pause menu: the knob, or a taken up or down direction,
/// moves the selection; otherwise the switch leaves for the mode menu or
/// resumes the question.
pub open spec fn spec_paused_input<H: HighScoreStore>(s: FlagsAppState, input: InputFrame, now_us: i64, store: &H) -> (FlagsAppState, AppAction) {
    let take = input.joystick.has_direction && accepts(s, now_us);
    let s1 = FlagsAppState { last_menu_direction_us: if take { now_us } else { s.last_menu_direction_us }, ..s };
    if input.encoder.detents != 0 {
        (FlagsAppState { game: spec_pause_cycled(s.game), ..s }, AppAction::RedrawFull)
    } else if take && up_or_down(input) {
        (FlagsAppState { game: spec_pause_cycled(s.game), ..s1 }, AppAction::RedrawFull)
    } else if switch_pressed(input) {
        if s.game.pause_action == FlagsPauseAction::Exit {
            (FlagsAppState { game: spec_to_mode_menu(s.game, store), ..s1 }, AppAction::ExitToLauncher)
        } else {
            (FlagsAppState { game: FlagsView { state: FlagsState::Question, ..s.game }, ..s1 }, AppAction::RedrawFull)
        }
    } else {
        (s1, AppAction::Nothing)
    }
}

/// What a handler's change flag and action ask of the caller.
pub open spec fn combined(r: (bool, AppAction)) -> AppAction {
    if r.1 == AppAction::ExitToLauncher {
        AppAction::ExitToLauncher
    } else if r.0 {
        AppAction::RedrawFull
    } else {
        AppAction::Nothing
    }
}

/// One frame of the game, from `s` to `f` with `action`, the store going
/// from `h0` to `h1`.
pub open spec fn spec_flags_step<H: HighScoreStore>(
    s: FlagsAppState,
    input: InputFrame,
    now_us: i64,
    f: FlagsAppState,
    action: AppAction,
    h0: &H,
    h1: &H,
) -> bool {
    if feedback_due(s, now_us) {
        &&& action == AppAction::RedrawFull
        &&& f == (FlagsAppState { game: f.game, ..s })
        &&& spec_feedback_finished(s.game, f.game, h0, h1)
    } else {
        &&& *h1 == *h0
        &&& match s.game.state {
            FlagsState::ChoosingMode => {
                let m = spec_mode_menu(s, input, now_us);
                if !switch_pressed(input) {
                    &&& f == m
                    &&& action == if input.encoder.detents != 0 || input.joystick.has_direction && accepts(s, now_us)
                        && up_or_down(input) {
                        AppAction::RedrawFull
                    } else {
                        AppAction::Nothing
                    }
                } else if m.game.choosing_action == FlagsChoosingAction::Exit {
                    f == m && action == AppAction::ExitToLauncher
                } else {
                    &&& action == AppAction::RedrawFull
                    &&& f == (FlagsAppState { game: f.game, ..m })
                    &&& spec_mode_started(m.game, f.game, h0)
                }
            },
            FlagsState::Question => if long_press(input) {
                &&& action == AppAction::RedrawFull
                &&& f == (FlagsAppState {
                    game: FlagsView { state: FlagsState::Paused, pause_action: FlagsPauseAction::Continue, ..s.game },
                    ..s
                })
            } else {
                f == spec_question_input(s, input, now_us) && action == AppAction::Nothing
            },
            FlagsState::Feedback => f == s && action == AppAction::Nothing,
            FlagsState::Paused => (f, action) == spec_paused_input(s, input, now_us, h0),
            FlagsState::Results | FlagsState::Over => {
                let take = input.joystick.has_direction && accepts(s, now_us);
                let chosen = result_after(s, input, now_us);
                let m = FlagsAppState {
                    game: FlagsView { result_action: chosen, ..s.game },
                    last_menu_direction_us: if take { now_us } else { s.last_menu_direction_us },
                    ..s
                };
                if !switch_pressed(input) {
                    &&& f == m
                    &&& action == if input.encoder.detents != 0 || take && up_or_down(input) {
                        AppAction::RedrawFull
                    } else {
                        AppAction::Nothing
                    }
                } else if chosen == FlagsResultAction::Exit {
                    f == (FlagsAppState { game: spec_to_mode_menu(m.game, h0), ..m }) && action == AppAction::ExitToLauncher
                } else {
                    &&& action == AppAction::RedrawFull
                    &&& f == (FlagsAppState { game: f.game, ..m })
                    &&& spec_mode_started(m.game, f.game, h0)
                }
            },
        }
    }
}

#[derive(Debug, Clone)]
pub struct FlagsApplication {
    game: FlagsGame,
    last_menu_direction_us: i64,
    feedback_start_us: i64,
}

impl View for FlagsApplication {
    type V = FlagsAppState;

    closed spec fn view(&self) -> FlagsAppState {
        FlagsAppState {
            game: self.game@,
            last_menu_direction_us: self.last_menu_direction_us,
            feedback_start_us: self.feedback_start_us,
        }
    }
}

impl FlagsApplication {
    /// An application over the first `flag_count` flags.
    pub fn new(flag_count: usize) -> (r: Self)
        requires
            FLAGS_OPTION_COUNT <= flag_count <= FLAG_ASSET_COUNT,
        ensures
            flags_valid(r@.game),
            r@.game.flag_count == flag_count,
            r@.game.state == FlagsState::ChoosingMode,
            r@.last_menu_direction_us == 0,
            r@.feedback_start_us == 0,
    {
        FlagsApplication { game: FlagsGame::new(flag_count), last_menu_direction_us: 0, feedback_start_us: 0 }
    }

    pub fn title(&self) -> (r: &'static str)
        ensures
            r@ == "FLAGS"@,
    {
        "FLAGS"
    }

    /// Opens the game on its mode menu.
    pub fn enter<H: HighScoreStore>(&mut self, high_scores: &H)
        requires
            flags_valid(old(self)@.game),
        ensures
            flags_valid(final(self)@.game),
            final(self)@.game.state == FlagsState::ChoosingMode,
            final(self)@.game.score == 0,
            final(self)@.game.best_score == high_scores.flags_best(),
            final(self)@.last_menu_direction_us == old(self)@.last_menu_direction_us,
            final(self)@.feedback_start_us == 0,
    {
        self.game.enter_choosing(high_scores);
        self.feedback_start_us = 0;
    }

    /// Handles one input frame. Once the verdict has shown long enough the
    /// game moves on. In the mode menu the knob or up and down move the
    /// cursor and the switch starts the mode or leaves. On a question the
    /// knob and the joystick move the answer cursor, the switch answers and
    /// a long press pauses. In the pause menu and on the results screens
    /// the knob or up and down move the selection and the switch acts on
    /// it.
    pub fn update<D: DisplaySink, H: HighScoreStore, R: Rng>(
        &mut self,
        display: &mut D,
        high_scores: &mut H,
        rng: &mut R,
        input: InputFrame,
        now_us: i64,
    ) -> (action: AppAction)
        requires
            flags_valid(old(self)@.game),
            old(self)@.game.state == FlagsState::Question && !long_press(input) && input.encoder.detents != 0
                ==> old(self)@.game.selected_answer + input.encoder.detents <= i32::MAX,
        ensures
            flags_valid(final(self)@.game),
            appends(*old(display), *final(display)),
            sent(*old(display), *final(display), flags_frame_cmds(old(self)@, input, now_us, final(self)@)),
            (action == AppAction::ExitToLauncher) == leaves(old(self)@, input, now_us),
            spec_flags_step(old(self)@, input, now_us, final(self)@, action, old(high_scores), final(high_scores)),
    {
        proof { lemma_sent_nothing(*display); }
        if self.game.state() == FlagsState::Feedback
            && (now_us as i128) - (self.feedback_start_us as i128) >= FEEDBACK_US as i128 {
            self.game.finish_feedback(high_scores, rng);
            return AppAction::RedrawFull;
        }
        let (changed, action) = match self.game.state() {
            FlagsState::ChoosingMode => self.handle_mode_input(high_scores, rng, input, now_us),
            FlagsState::Question => (self.handle_question_input(display, input, now_us), AppAction::Nothing),
            FlagsState::Feedback => (false, AppAction::Nothing),
            FlagsState::Paused => self.handle_paused_input(high_scores, input, now_us),
            FlagsState::Results | FlagsState::Over => self.handle_result_input(high_scores, rng, input, now_us),
        };
        if action != AppAction::Nothing {
            action
        } else if changed {
            AppAction::RedrawFull
        } else {
            AppAction::Nothing
        }
    }

    /// Redraws the whole screen.
    pub fn render_full<D: DisplaySink>(&self, display: &mut D)
        requires
            flags_valid(self@.game),
        ensures
            sent(*old(display), *final(display), frame_cmds(theme::BG, flags_renderer::screen_cmds(self@.game))),
            sent_frame(*old(display), *final(display), theme::BG),
    {
        flags_renderer::render(display, &self.game);
    }

    pub fn game(&self) -> (r: &FlagsGame)
        ensures
            r@ == self@.game,
    {
        &self.game
    }

    /// The game, for changing it directly.
    pub fn game_mut(&mut self) -> (r: &mut FlagsGame)
        ensures
            r@ == old(self)@.game,
            final(self)@ == (FlagsAppState { game: final(r)@, ..old(self)@ }),
    {
        &mut self.game
    }

    fn handle_mode_input<H: HighScoreStore, R: Rng>(
        &mut self,
        high_scores: &H,
        rng: &mut R,
        input: InputFrame,
        now_us: i64,
    ) -> (r: (bool, AppAction))
        requires
            flags_valid(old(self)@.game),
            old(self)@.game.state == FlagsState::ChoosingMode,
        ensures
            flags_valid(final(self)@.game),
            r.1 == AppAction::ExitToLauncher || r.1 == AppAction::Nothing,
            ({
                let m = spec_mode_menu(old(self)@, input, now_us);
                if !switch_pressed(input) {
                    &&& final(self)@ == m
                    &&& r == (input.encoder.detents != 0 || input.joystick.has_direction && accepts(old(self)@, now_us)
                        && up_or_down(input), AppAction::Nothing)
                } else if m.game.choosing_action == FlagsChoosingAction::Exit {
                    final(self)@ == m && r == (false, AppAction::ExitToLauncher)
                } else {
                    &&& r == (true, AppAction::Nothing)
                    &&& final(self)@ == (FlagsAppState { game: final(self)@.game, ..m })
                    &&& spec_mode_started(m.game, final(self)@.game, high_scores)
                }
            }),
    {
        let mut changed = false;
        if input.encoder.detents != 0 {
            if input.encoder.detents > 0 {
                changed = self.game.cycle_choosing_action_down() || changed;
            } else {
                changed = self.game.cycle_choosing_action_up() || changed;
            }
        }
        if input.joystick.has_direction && self.accept_menu_direction(now_us) {
            if input.joystick.direction == Some(Direction::Up) {
                changed = self.game.cycle_choosing_action_up() || changed;
            } else if input.joystick.direction == Some(Direction::Down) {
                changed = self.game.cycle_choosing_action_down() || changed;
            }
        }
        if input.joystick.switch_pressed || input.encoder.switch_pressed {
            if self.game.choosing_action() == FlagsChoosingAction::Exit {
                return (false, AppAction::ExitToLauncher);
            }
            self.game.start_selected_mode(high_scores, rng);
            changed = true;
        }
        (changed, AppAction::Nothing)
    }

    fn handle_question_input<D: DisplaySink>(&mut self, display: &mut D, input: InputFrame, now_us: i64) -> (changed: bool)
        requires
            flags_valid(old(self)@.game),
            old(self)@.game.state == FlagsState::Question,
            old(self)@.game.state == FlagsState::Question && !long_press(input) && input.encoder.detents != 0
                ==> old(self)@.game.selected_answer + input.encoder.detents <= i32::MAX,
        ensures
            flags_valid(final(self)@.game),
            appends(*old(display), *final(display)),
            sent(*old(display), *final(display), flags_frame_cmds(old(self)@, input, now_us, final(self)@)),
            long_press(input) ==> changed && final(self)@ == (FlagsAppState {
                game: FlagsView { state: FlagsState::Paused, pause_action: FlagsPauseAction::Continue, ..old(self)@.game },
                ..old(self)@
            }),
            !long_press(input) ==> !changed && final(self)@ == spec_question_input(old(self)@, input, now_us),
    {
        proof { lemma_sent_nothing(*display); }
        if input.joystick.switch_long_pressed || input.encoder.switch_long_pressed {
            self.game.enter_paused();
            return true;
        }
        let previous = self.game.selected_answer();
        let mut answer_changed = false;
        if input.encoder.detents != 0 {
            answer_changed = self.game.cycle_answer_selection(input.encoder.detents) || answer_changed;
        }
        if input.joystick.has_direction && self.accept_menu_direction(now_us) {
            if let Some(direction) = input.joystick.direction {
                answer_changed = self.game.move_answer_selection(direction) || answer_changed;
            }
        }
        if input.joystick.switch_pressed || input.encoder.switch_pressed {
            self.game.confirm_answer();
            self.feedback_start_us = now_us;
            flags_renderer::render_feedback(display, &self.game);
        } else if answer_changed {
            flags_renderer::render_answer_selection(display, &self.game, previous);
        }
        false
    }

    fn handle_paused_input<H: HighScoreStore>(&mut self, high_scores: &H, input: InputFrame, now_us: i64) -> (r: (bool, AppAction))
        requires
            flags_valid(old(self)@.game),
            old(self)@.game.state == FlagsState::Paused,
        ensures
            flags_valid(final(self)@.game),
            r.1 == AppAction::ExitToLauncher || r.1 == AppAction::Nothing,
            (final(self)@, combined(r)) == spec_paused_input(old(self)@, input, now_us, high_scores),
    {
        if input.encoder.detents != 0 {
            self.game.cycle_pause_action();
            return (true, AppAction::Nothing);
        }
        if input.joystick.has_direction && self.accept_menu_direction(now_us)
            && (input.joystick.direction == Some(Direction::Up) || input.joystick.direction == Some(Direction::Down)) {
            self.game.cycle_pause_action();
            return (true, AppAction::Nothing);
        }
        if input.joystick.switch_pressed || input.encoder.switch_pressed {
            if self.game.pause_action() == FlagsPauseAction::Exit {
                self.game.enter_choosing(high_scores);
                return (false, AppAction::ExitToLauncher);
            }
            self.game.resume_from_pause();
            return (true, AppAction::Nothing);
        }
        (false, AppAction::Nothing)
    }

    fn handle_result_input<H: HighScoreStore, R: Rng>(
        &mut self,
        high_scores: &H,
        rng: &mut R,
        input: InputFrame,
        now_us: i64,
    ) -> (r: (bool, AppAction))
        requires
            flags_valid(old(self)@.game),
            old(self)@.game.state == FlagsState::Results || old(self)@.game.state == FlagsState::Over,
        ensures
            flags_valid(final(self)@.game),
            r.1 == AppAction::ExitToLauncher || r.1 == AppAction::Nothing,
            ({
                let s = old(self)@;
                let take = input.joystick.has_direction && accepts(s, now_us);
                let chosen = result_after(s, input, now_us);
                let m = FlagsAppState {
                    game: FlagsView { result_action: chosen, ..s.game },
                    last_menu_direction_us: if take { now_us } else { s.last_menu_direction_us },
                    ..s
                };
                if !switch_pressed(input) {
                    final(self)@ == m && r == (input.encoder.detents != 0 || take && up_or_down(input), AppAction::Nothing)
                } else if chosen == FlagsResultAction::Exit {
                    &&& final(self)@ == (FlagsAppState { game: spec_to_mode_menu(m.game, high_scores), ..m })
                    &&& r.1 == AppAction::ExitToLauncher
                } else {
                    &&& r == (true, AppAction::Nothing)
                    &&& final(self)@ == (FlagsAppState { game: final(self)@.game, ..m })
                    &&& spec_mode_started(m.game, final(self)@.game, high_scores)
                }
            }),
    {
        let mut changed = false;
        if input.encoder.detents != 0 {
            changed = self.game.cycle_result_action(input.encoder.detents) || changed;
        }
        if input.joystick.has_direction && self.accept_menu_direction(now_us)
            && (input.joystick.direction == Some(Direction::Up) || input.joystick.direction == Some(Direction::Down)) {
            changed = self.game.select_next_result_action() || changed;
        }
        if input.joystick.switch_pressed || input.encoder.switch_pressed {
            if self.game.result_action() == FlagsResultAction::Restart {
                self.game.start_selected_mode(high_scores, rng);
                changed = true;
            } else {
                self.game.enter_choosing(high_scores);
                return (changed, AppAction::ExitToLauncher);
            }
        }
        (changed, AppAction::Nothing)
    }

    fn accept_menu_direction(&mut self, now_us: i64) -> (r: bool)
        ensures
            r == accepts(old(self)@, now_us),
            final(self)@ == (FlagsAppState {
                last_menu_direction_us: if r { now_us } else { old(self)@.last_menu_direction_us },
                ..old(self)@
            }),
    {
        if (now_us as i128) - (self.last_menu_direction_us as i128) < 250_000 {
            return false;
        }
        self.last_menu_direction_us = now_us;
        true
    }
}

impl Default for FlagsApplication {
    /// An application over the whole flag table.
    fn default() -> (r: Self)
        ensures
            flags_valid(r@.game),
            r@.game.flag_count == FLAG_ASSET_COUNT,
            r@.game.state == FlagsState::ChoosingMode,
    {
        Self::new(FLAG_ASSET_COUNT)
    }
}

} // verus!
