use vstd::prelude::*;
use crate::flags::{
    flags_mode_name, flags_result_action_name, flags_valid, spec_flag_name, spec_flag_offset, spec_flag_size,
    spec_flags_mode_name, spec_flags_result_action_name, FlagAsset, FlagsChoosingAction, FlagsGame, FlagsMode,
    FlagsPauseAction, FlagsResultAction, FlagsState, FlagsView, FLAGS_QUIZ_ROUNDS,
};
use crate::font::{
    ascii_chars, centered_cmds, decimal_chars, draw_centered_text, draw_text, draw_wrapped_text, text_cmds, wrapped_cmds,
    TextBuffer,
};
use crate::render::{
    appends, clear, draw_bitmap, fill_cmds, fill_rect, flush, flushed, frame_cmds, lemma_appends_chain, lemma_flushed, lemma_frame,
    lemma_sent_appends, lemma_sent_chain, lemma_sent_nothing, lemma_sent_then, sent, sent_frame, DisplaySink, DrawCommand,
};
use crate::theme;
use crate::ui_widgets::{draw_option_row, option_row_cmds};

verus! {

broadcast use lemma_sent_appends, lemma_appends_chain;

/// The answer tiles: two columns and two rows.
pub const FLAGS_ANSWER_TILE_W: i16 = 146;
pub const FLAGS_ANSWER_TILE_H: i16 = 38;
pub const FLAGS_ANSWER_LEFT_X: i16 = 10;
pub const FLAGS_ANSWER_RIGHT_X: i16 = 164;
pub const FLAGS_ANSWER_TOP_Y: i16 = 140;
pub const FLAGS_ANSWER_BOTTOM_Y: i16 = 194;
/// The flag sits no higher than this, and this far above the tiles.
pub const FLAGS_FLAG_MIN_Y: i16 = 24;
pub const FLAGS_FLAG_ANSWER_GAP: i16 = 8;

/// What `render` draws for the game's state after clearing: the mode menu,
/// the question (with the verdict over it during feedback), the pause menu,
/// or the results (game over when the death match ended).
pub open spec fn screen_cmds(g: FlagsView) -> Seq<DrawCommand> {
    match g.state {
        FlagsState::ChoosingMode => mode_screen_cmds(g),
        FlagsState::Question => question_screen_cmds(g),
        FlagsState::Feedback => question_screen_cmds(g) + feedback_overlay_cmds(g),
        FlagsState::Paused => pause_screen_cmds(g),
        FlagsState::Results => result_screen_cmds(g, false),
        FlagsState::Over => result_screen_cmds(g, true),
    }
}

/// The screen for the game's state, as one frame.
pub fn render<D: DisplaySink>(display: &mut D, game: &FlagsGame)
    requires
        flags_valid(game@),
    ensures
        sent(*old(display), *final(display), frame_cmds(theme::BG, screen_cmds(game@))),
        sent_frame(*old(display), *final(display), theme::BG),
{
    let ghost d0 = *display;
    clear(display, theme::BG);
    let ghost d1 = *display;
    match game.state() {
        FlagsState::ChoosingMode => draw_mode_screen(display, game),
        FlagsState::Question => draw_question_screen(display, game),
        FlagsState::Feedback => {
            draw_question_screen(display, game);
            draw_feedback_overlay(display, game);
        },
        FlagsState::Paused => draw_pause_screen(display, game),
        FlagsState::Results => draw_result_screen(display, game, false),
        FlagsState::Over => draw_result_screen(display, game, true),
    }
    let ghost dm = *display;
    flush(display);
    proof {
        lemma_frame(d0, d1, dm, *display, theme::BG);
        if d0.records() {
            assert(display.drawn() =~= d0.drawn() + frame_cmds(theme::BG, screen_cmds(game@)));
        }
    }
}

/// What `render_answer_selection` sends: the tile that lost the cursor
/// (when it moved), the tile that has it, and a flush.
pub open spec fn answer_selection_cmds(g: FlagsView, previous: usize) -> Seq<DrawCommand> {
    (if previous != g.selected_answer { answer_tile_cmds(g, previous) } else { Seq::empty() })
        + answer_tile_cmds(g, g.selected_answer) + seq![DrawCommand::Flush]
}

/// Redraws the tile that lost the cursor (when it moved) and the tile that
/// has it.
pub fn render_answer_selection<D: DisplaySink>(display: &mut D, game: &FlagsGame, previous_selected_answer: usize)
    requires
        flags_valid(game@),
        previous_selected_answer < 4,
    ensures
        sent(*old(display), *final(display), answer_selection_cmds(game@, previous_selected_answer)),
        flushed(*old(display), *final(display)),
{
    let ghost d0 = *display;
    let ghost g = game@;
    let selected = game.selected_answer();
    if previous_selected_answer != selected {
        draw_answer_tile(display, game, previous_selected_answer);
    } else {
        proof { lemma_sent_nothing(*display); }
    }
    let ghost d1 = *display;
    draw_answer_tile(display, game, selected);
    let ghost dm = *display;
    flush(display);
    proof {
        lemma_flushed(d0, dm, *display);
        let p0 = if previous_selected_answer != g.selected_answer { answer_tile_cmds(g, previous_selected_answer) } else { Seq::empty() };
        lemma_sent_then(d0, d1, dm, p0, answer_tile_cmds(g, selected));
        lemma_sent_then(d0, dm, *display, p0 + answer_tile_cmds(g, selected), seq![DrawCommand::Flush]);
    }
}

/// Draws the verdict over the question screen.
pub fn render_feedback<D: DisplaySink>(display: &mut D, game: &FlagsGame)
    requires
        flags_valid(game@),
    ensures
        sent(*old(display), *final(display), feedback_overlay_cmds(game@) + seq![DrawCommand::Flush]),
        flushed(*old(display), *final(display)),
{
    broadcast use lemma_sent_chain;
    let ghost d0 = *display;
    draw_feedback_overlay(display, game);
    let ghost dm = *display;
    flush(display);
    proof { lemma_flushed(d0, dm, *display); }
}

/// The left edge of answer tile `index`: even tiles on the left.
pub fn answer_tile_x(index: usize) -> (r: i16)
    ensures
        r == if index % 2 == 0 { FLAGS_ANSWER_LEFT_X } else { FLAGS_ANSWER_RIGHT_X },
{
    if index % 2 == 0 {
        FLAGS_ANSWER_LEFT_X
    } else {
        FLAGS_ANSWER_RIGHT_X
    }
}

/// The top edge of answer tile `index`: the first two on the top row.
pub fn answer_tile_y(index: usize) -> (r: i16)
    ensures
        r == if index < 2 { FLAGS_ANSWER_TOP_Y } else { FLAGS_ANSWER_BOTTOM_Y },
{
    if index < 2 {
        FLAGS_ANSWER_TOP_Y
    } else {
        FLAGS_ANSWER_BOTTOM_Y
    }
}

/// What `draw_mode_screen` sends: the title, the three mode rows and the
/// exit row, the death-match best score and the help line.
pub open spec fn mode_screen_cmds(g: FlagsView) -> Seq<DrawCommand> {
    let a = g.choosing_action;
    text_cmds(104, 26, "FLAGS"@, theme::TEXT, 3) + text_cmds(70, 62, "CHOOSE MODE"@, theme::MUTED, 1)
        + option_row_cmds(42, 88, 236, "MODE"@, spec_flags_mode_name(FlagsMode::Practice), a == FlagsChoosingAction::Mode(FlagsMode::Practice))
        + option_row_cmds(42, 120, 236, "MODE"@, spec_flags_mode_name(FlagsMode::Quiz20), a == FlagsChoosingAction::Mode(FlagsMode::Quiz20))
        + option_row_cmds(42, 152, 236, "MODE"@, spec_flags_mode_name(FlagsMode::DeathMatch),
            a == FlagsChoosingAction::Mode(FlagsMode::DeathMatch))
        + option_row_cmds(42, 184, 236, ""@, "EXIT"@, a == FlagsChoosingAction::Exit)
        + text_cmds(70, 216, "DEATH BEST:"@ + decimal_chars(g.best_score as nat), theme::MUTED, 1)
        + text_cmds(70, 230, "PRESS SW SELECT"@, theme::TEXT, 1)
}

#[verifier::spinoff_prover]
#[verifier::rlimit(40)]
fn draw_mode_screen<D: DisplaySink>(display: &mut D, game: &FlagsGame)
    ensures
        sent(*old(display), *final(display), mode_screen_cmds(game@)),
{
    let ghost d0 = *display;
    draw_text(display, 104, 26, "FLAGS", theme::TEXT, 3);
    draw_text(display, 70, 62, "CHOOSE MODE", theme::MUTED, 1);
    let action = game.choosing_action();
    draw_option_row(display, 42, 88, 236, "MODE", flags_mode_name(FlagsMode::Practice),
        action == FlagsChoosingAction::Mode(FlagsMode::Practice));
    draw_option_row(display, 42, 120, 236, "MODE", flags_mode_name(FlagsMode::Quiz20),
        action == FlagsChoosingAction::Mode(FlagsMode::Quiz20));
    draw_option_row(display, 42, 152, 236, "MODE", flags_mode_name(FlagsMode::DeathMatch),
        action == FlagsChoosingAction::Mode(FlagsMode::DeathMatch));
    draw_option_row(display, 42, 184, 236, "", "EXIT", action == FlagsChoosingAction::Exit);
    proof { reveal_strlit("DEATH BEST:"); }
    let best_text = TextBuffer::<40>::labelled("DEATH BEST:", game.best_score());
    draw_text(display, 70, 216, best_text.as_str(), theme::MUTED, 1);
    draw_text(display, 70, 230, "PRESS SW SELECT", theme::TEXT, 1);
    proof {
        if d0.records() {
            assert(display.drawn() =~= d0.drawn() + mode_screen_cmds(game@));
        }
    }
}

/// The question screen's count: the score, then the round out of 20 in a
/// quiz or the best score in a death match.
pub open spec fn question_count_chars(g: FlagsView) -> Seq<char> {
    "S:"@ + decimal_chars(g.score as nat) + match g.active_mode {
        FlagsMode::Quiz20 => " R:"@ + decimal_chars(g.round as nat) + "/"@ + decimal_chars(FLAGS_QUIZ_ROUNDS as nat),
        FlagsMode::DeathMatch => " B:"@ + decimal_chars(g.best_score as nat),
        FlagsMode::Practice => Seq::empty(),
    }
}

/// The flag's picture: centred across the screen, its bottom 8 pixels
/// above the tiles, but no higher than row 24.
pub open spec fn flag_bitmap_cmds(g: FlagsView) -> Seq<DrawCommand> {
    let i = g.correct_flag_index as int;
    let (w, h) = spec_flag_size(i);
    let below = (140 - 8 - (h as i16)) as i16;
    seq![DrawCommand::Bitmap {
        x: ((320 - (w as i16)) / 2) as i16,
        y: if 24 > below { 24 } else { below },
        w,
        h,
        offset: spec_flag_offset(i),
    }]
}

/// What `draw_question_screen` sends: the HUD with the mode and the count,
/// the flag, and the four answer tiles.
pub open spec fn question_screen_cmds(g: FlagsView) -> Seq<DrawCommand> {
    fill_cmds(0, 0, 320, 16, theme::HUD) + text_cmds(4, 4, spec_flags_mode_name(g.active_mode), theme::TEXT, 1)
        + text_cmds(166, 4, question_count_chars(g), theme::MUTED, 1) + flag_bitmap_cmds(g) + answer_tiles_cmds(g, 4)
}

/// The HUD, the flag and the four answer tiles.
fn draw_question_screen<D: DisplaySink>(display: &mut D, game: &FlagsGame)
    requires
        flags_valid(game@),
    ensures
        sent(*old(display), *final(display), question_screen_cmds(game@)),
{
    let ghost d0 = *display;
    proof {
        reveal_strlit("S:");
        reveal_strlit(" R:");
        reveal_strlit("/");
        reveal_strlit(" B:");
    }
    let mut score_text = TextBuffer::<48>::labelled("S:", game.score());
    match game.active_mode() {
        FlagsMode::Quiz20 => {
            score_text.push_ascii(" R:");
            score_text.push_number(game.round());
            score_text.push_ascii("/");
            score_text.push_number(FLAGS_QUIZ_ROUNDS);
        },
        FlagsMode::DeathMatch => {
            score_text.push_ascii(" B:");
            score_text.push_number(game.best_score());
        },
        FlagsMode::Practice => {},
    }
    assert(ascii_chars(score_text.text()) =~= question_count_chars(game@));
    fill_rect(display, 0, 0, 320, 16, theme::HUD);
    draw_text(display, 4, 4, flags_mode_name(game.active_mode()), theme::TEXT, 1);
    draw_text(display, 166, 4, score_text.as_str(), theme::MUTED, 1);
    let flag = game.current_flag();
    #[verifier::truncate]
    let flag_w = flag.width as i16;
    #[verifier::truncate]
    let flag_h = flag.height as i16;
    #[verifier::truncate]
    let flag_x = ((320 - flag_w as i32) / 2) as i16;
    #[verifier::truncate]
    let below = (FLAGS_ANSWER_TOP_Y as i32 - FLAGS_FLAG_ANSWER_GAP as i32 - flag_h as i32) as i16;
    let flag_y = if FLAGS_FLAG_MIN_Y > below { FLAGS_FLAG_MIN_Y } else { below };
    draw_flag_bitmap(display, flag, flag_x, flag_y);
    draw_answer_tiles(display, game);
    proof {
        if d0.records() {
            assert(display.drawn() =~= d0.drawn() + question_screen_cmds(game@));
        }
    }
}

/// What `draw_feedback_overlay` sends: the right tile and a wrong pick
/// recoloured, then the verdict.
pub open spec fn feedback_overlay_cmds(g: FlagsView) -> Seq<DrawCommand> {
    let right = g.last_answer_correct;
    answer_tile_cmds(g, g.correct_answer)
        + (if g.selected_answer != g.correct_answer { answer_tile_cmds(g, g.selected_answer) } else { Seq::empty() })
        + fill_cmds(84, 112, 152, 26, if right { theme::GOOD } else { theme::BAD })
        + centered_cmds(84, 119, 152, if right { "CORRECT"@ } else { "WRONG"@ }, theme::TEXT, 1)
}

/// Recolors the right tile, and a wrong pick, and shows the verdict.
fn draw_feedback_overlay<D: DisplaySink>(display: &mut D, game: &FlagsGame)
    requires
        flags_valid(game@),
    ensures
        sent(*old(display), *final(display), feedback_overlay_cmds(game@)),
{
    let ghost d0 = *display;
    let correct = game.correct_answer();
    let selected = game.selected_answer();
    draw_answer_tile(display, game, correct);
    if selected != correct {
        draw_answer_tile(display, game, selected);
    }
    let right = game.last_answer_correct();
    fill_rect(display, 84, 112, 152, 26, if right { theme::GOOD } else { theme::BAD });
    draw_centered_text(display, 84, 119, 152, if right { "CORRECT" } else { "WRONG" }, theme::TEXT, 1);
    proof {
        if d0.records() {
            assert(display.drawn() =~= d0.drawn() + feedback_overlay_cmds(game@));
        }
    }
}

/// What `draw_result_screen` sends: the title, the score (out of 20 in a
/// quiz), the best score in a death match, the restart and exit rows and
/// the help line.
pub open spec fn result_screen_cmds(g: FlagsView, game_over: bool) -> Seq<DrawCommand> {
    let quiz = g.active_mode == FlagsMode::Quiz20;
    centered_cmds(0, 26, 320, if game_over { "GAME OVER"@ } else { "RESULTS"@ }, theme::TEXT, 2)
        + centered_cmds(0, 72, 320, "SCORE:"@ + decimal_chars(g.score as nat)
            + (if quiz { "/"@ + decimal_chars(FLAGS_QUIZ_ROUNDS as nat) } else { Seq::empty() }), theme::TEXT, 1)
        + (if g.active_mode == FlagsMode::DeathMatch {
            centered_cmds(0, 92, 320, "BEST:"@ + decimal_chars(g.best_score as nat), theme::MUTED, 1)
        } else {
            Seq::empty()
        })
        + option_row_cmds(42, 128, 236, "DO"@, spec_flags_result_action_name(FlagsResultAction::Restart),
            g.result_action == FlagsResultAction::Restart)
        + option_row_cmds(42, 168, 236, "DO"@, spec_flags_result_action_name(FlagsResultAction::Exit),
            g.result_action == FlagsResultAction::Exit)
        + text_cmds(70, 222, "PRESS SW"@, theme::TEXT, 1)
}

#[verifier::spinoff_prover]
fn draw_result_screen<D: DisplaySink>(display: &mut D, game: &FlagsGame, game_over: bool)
    ensures
        sent(*old(display), *final(display), result_screen_cmds(game@, game_over)),
{
    let ghost d0 = *display;
    draw_centered_text(display, 0, 26, 320, if game_over { "GAME OVER" } else { "RESULTS" }, theme::TEXT, 2);
    proof {
        reveal_strlit("SCORE:");
        reveal_strlit("/");
        reveal_strlit("BEST:");
    }
    let mut score_text = TextBuffer::<48>::labelled("SCORE:", game.score());
    if game.active_mode() == FlagsMode::Quiz20 {
        score_text.push_ascii("/");
        score_text.push_number(FLAGS_QUIZ_ROUNDS);
    }
    assert(ascii_chars(score_text.text()) =~= "SCORE:"@ + decimal_chars(game@.score as nat)
        + (if game@.active_mode == FlagsMode::Quiz20 { "/"@ + decimal_chars(FLAGS_QUIZ_ROUNDS as nat) } else { Seq::empty() }));
    draw_centered_text(display, 0, 72, 320, score_text.as_str(), theme::TEXT, 1);
    if game.active_mode() == FlagsMode::DeathMatch {
        let best_text = TextBuffer::<40>::labelled("BEST:", game.best_score());
        draw_centered_text(display, 0, 92, 320, best_text.as_str(), theme::MUTED, 1);
    }
    draw_option_row(display, 42, 128, 236, "DO", flags_result_action_name(FlagsResultAction::Restart),
        game.result_action() == FlagsResultAction::Restart);
    draw_option_row(display, 42, 168, 236, "DO", flags_result_action_name(FlagsResultAction::Exit),
        game.result_action() == FlagsResultAction::Exit);
    draw_text(display, 70, 222, "PRESS SW", theme::TEXT, 1);
    proof {
        if d0.records() {
            assert(display.drawn() =~= d0.drawn() + result_screen_cmds(game@, game_over));
        }
    }
}

/// What `draw_pause_screen` sends: the title, "paused", the continue and
/// exit rows, and the help lines.
pub open spec fn pause_screen_cmds(g: FlagsView) -> Seq<DrawCommand> {
    text_cmds(104, 40, "FLAGS"@, theme::TEXT, 3) + text_cmds(70, 80, "PAUSED"@, theme::ACCENT, 2)
        + option_row_cmds(42, 110, 236, "DO"@, "CONTINUE"@, g.pause_action == FlagsPauseAction::Continue)
        + option_row_cmds(42, 142, 236, "DO"@, "EXIT"@, g.pause_action == FlagsPauseAction::Exit)
        + text_cmds(70, 180, "UD OR KNOB"@, theme::MUTED, 1) + text_cmds(70, 196, "PRESS SW SELECT"@, theme::TEXT, 1)
}

fn draw_pause_screen<D: DisplaySink>(display: &mut D, game: &FlagsGame)
    ensures
        sent(*old(display), *final(display), pause_screen_cmds(game@)),
{
    let ghost d0 = *display;
    draw_text(display, 104, 40, "FLAGS", theme::TEXT, 3);
    draw_text(display, 70, 80, "PAUSED", theme::ACCENT, 2);
    draw_option_row(display, 42, 110, 236, "DO", "CONTINUE", game.pause_action() == FlagsPauseAction::Continue);
    draw_option_row(display, 42, 142, 236, "DO", "EXIT", game.pause_action() == FlagsPauseAction::Exit);
    draw_text(display, 70, 180, "UD OR KNOB", theme::MUTED, 1);
    draw_text(display, 70, 196, "PRESS SW SELECT", theme::TEXT, 1);
    proof {
        if d0.records() {
            assert(display.drawn() =~= d0.drawn() + pause_screen_cmds(game@));
        }
    }
}

fn draw_flag_bitmap<D: DisplaySink>(display: &mut D, flag: FlagAsset, x: i16, y: i16)
    ensures
        sent(*old(display), *final(display), seq![DrawCommand::Bitmap { x, y, w: flag.width, h: flag.height, offset: flag.offset }]),
{
    draw_bitmap(display, x, y, flag.width, flag.height, flag.offset);
}

/// The first `n` answer tiles.
pub open spec fn answer_tiles_cmds(g: FlagsView, n: int) -> Seq<DrawCommand>
    decreases n,
{
    if n <= 0 { Seq::empty() } else { answer_tiles_cmds(g, n - 1) + answer_tile_cmds(g, (n - 1) as usize) }
}

fn draw_answer_tiles<D: DisplaySink>(display: &mut D, game: &FlagsGame)
    requires
        flags_valid(game@),
    ensures
        sent(*old(display), *final(display), answer_tiles_cmds(game@, 4)),
{
    proof { lemma_sent_nothing(*display); }
    let mut index: usize = 0;
    while index < 4
        invariant
            index <= 4, flags_valid(game@),
            sent(*old(display), *display, answer_tiles_cmds(game@, index as int)),
        decreases 4 - index,
    {
        let ghost before = *display;
        draw_answer_tile(display, game, index);
        proof {
            lemma_sent_then(*old(display), before, *display, answer_tiles_cmds(game@, index as int), answer_tile_cmds(game@, index));
        }
        index += 1;
    }
}

/// The color of answer tile `index`: the cursor's tile stands out; during
/// feedback the right answer is green and a wrong pick red.
pub open spec fn tile_color(state: FlagsState, index: usize, selected: usize, correct: usize, right: bool) -> u16 {
    if state == FlagsState::Feedback && index == correct {
        theme::GOOD
    } else if state == FlagsState::Feedback && index == selected && !right {
        theme::BAD
    } else if index == selected {
        theme::OVERLAY
    } else {
        theme::HUD
    }
}

fn answer_tile_color(game: &FlagsGame, index: usize) -> (r: u16)
    ensures
        r == tile_color(game@.state, index, game@.selected_answer, game@.correct_answer, game@.last_answer_correct),
{
    let mut color = if index == game.selected_answer() { theme::OVERLAY } else { theme::HUD };
    if game.state() == FlagsState::Feedback {
        if index == game.correct_answer() {
            color = theme::GOOD;
        } else if index == game.selected_answer() && !game.last_answer_correct() {
            color = theme::BAD;
        }
    }
    color
}

/// What `draw_answer_tile` sends: the tile in its colour, the accent mark
/// on the cursor's tile while a question waits, and the country's name
/// wrapped on up to two lines of 20 characters.
pub open spec fn answer_tile_cmds(g: FlagsView, index: usize) -> Seq<DrawCommand> {
    let x: i16 = if index % 2 == 0 { FLAGS_ANSWER_LEFT_X } else { FLAGS_ANSWER_RIGHT_X };
    let y: i16 = if index < 2 { FLAGS_ANSWER_TOP_Y } else { FLAGS_ANSWER_BOTTOM_Y };
    fill_cmds(x, y, FLAGS_ANSWER_TILE_W, FLAGS_ANSWER_TILE_H,
        tile_color(g.state, index, g.selected_answer, g.correct_answer, g.last_answer_correct))
        + (if index == g.selected_answer && g.state == FlagsState::Question {
            fill_cmds((x + 5) as i16, (y + 6) as i16, 5, 26, theme::ACCENT)
        } else {
            Seq::empty()
        })
        + wrapped_cmds((x + 14) as i16, (y + 8) as i16, spec_flag_name(g.answer_indices[index as int] as int), theme::TEXT, 1, 20, 2)
}

/// Answer tile `index` with the country's name wrapped on up to two lines.
fn draw_answer_tile<D: DisplaySink>(display: &mut D, game: &FlagsGame, index: usize)
    requires
        flags_valid(game@),
        index < 4,
    ensures
        sent(*old(display), *final(display), answer_tile_cmds(game@, index)),
{
    let ghost d0 = *display;
    let x = answer_tile_x(index);
    let y = answer_tile_y(index);
    let w = FLAGS_ANSWER_TILE_W;
    let h = FLAGS_ANSWER_TILE_H;
    fill_rect(display, x, y, w, h, answer_tile_color(game, index));
    if index == game.selected_answer() && game.state() == FlagsState::Question {
        fill_rect(display, x + 5, y + 6, 5, h - 12, theme::ACCENT);
    }
    draw_wrapped_text(display, x + 14, y + 8, game.answer_flag(index).name, theme::TEXT, 1, 20, 2);
    proof {
        if d0.records() {
            assert(display.drawn() =~= d0.drawn() + answer_tile_cmds(game@, index));
        }
    }
}

} // verus!
