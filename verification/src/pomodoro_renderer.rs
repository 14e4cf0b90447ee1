use vstd::prelude::*;
use crate::config::TFT_H_RES;
use crate::font::{centered_cmds, clock_chars, clock_text, draw_centered_text, TextBuffer};
use crate::pomodoro::{pomodoro_valid, spec_duration, PomodoroField, PomodoroMode, PomodoroPauseAction, PomodoroState, PomodoroTimer};
use crate::render::{
    appends, clear, fill_at, fill_at_cmds, fill_cmds, fill_rect, flush, flushed, frame_cmds, lemma_appends_chain,
    lemma_flushed, lemma_frame, lemma_sent_appends, lemma_sent_chain, lemma_sent_nothing, lemma_sent_then, sent, sent_frame, DisplaySink, DrawCommand,
};
use crate::theme;
use crate::ui_widgets::{draw_option_row, option_row_cmds};

verus! {

broadcast use lemma_sent_appends, lemma_appends_chain;

/// The box that holds the large countdown.
pub const RUNNING_TIME_X: i16 = 12;
pub const RUNNING_TIME_Y: i16 = 60;
pub const RUNNING_TIME_W: i16 = 296;
pub const RUNNING_TIME_H: i16 = 96;
/// A seven-segment digit's size and stroke.
pub const SEGMENT_DIGIT_W: i16 = 50;
pub const SEGMENT_DIGIT_H: i16 = 78;
pub const SEGMENT_THICKNESS: i16 = 8;
pub const SEGMENT_GAP: i16 = 5;
pub const COLON_W: i16 = 16;

/// What the setup screen draws after clearing: the title, the tomato, the
/// time editor, the start button (lit when a countdown can start) and the
/// hint.
pub open spec fn setup_screen_cmds(t: PomodoroState) -> Seq<DrawCommand> {
    centered_cmds(0, 14, TFT_H_RES, "POMODORO"@, theme::TEXT, 2) + tomato_cmds(116, 44, 4, 16)
        + time_editor_cmds(t.active_field, t.minutes, t.seconds, 116)
        + option_row_cmds(108, 168, 104, ""@, "START"@, spec_duration(t) > 0)
        + centered_cmds(0, 218, TFT_H_RES, "HOLD TO APPS"@, theme::MUTED, 1)
}

/// What the running screen draws after clearing: the title, the countdown
/// box with the time left in seven-segment digits, and the hints.
pub open spec fn running_screen_cmds(t: PomodoroState) -> Seq<DrawCommand> {
    centered_cmds(0, 22, TFT_H_RES, "POMODORO"@, theme::MUTED, 1)
        + fill_cmds(RUNNING_TIME_X, RUNNING_TIME_Y, RUNNING_TIME_W, RUNNING_TIME_H, theme::HUD)
        + large_remaining_cmds(t.remaining_seconds)
        + centered_cmds(0, 174, TFT_H_RES, "RUNNING"@, theme::GOOD, 1)
        + centered_cmds(0, 218, TFT_H_RES, "PRESS PAUSE  HOLD APPS"@, theme::MUTED, 1)
}

/// What the pause screen draws after clearing: the title, the time left,
/// the continue and exit rows (the selected one lit) and the hint.
pub open spec fn paused_screen_cmds(t: PomodoroState) -> Seq<DrawCommand> {
    centered_cmds(0, 20, TFT_H_RES, "PAUSED"@, theme::TEXT, 2)
        + remaining_cmds(0, 72, TFT_H_RES, t.remaining_seconds, theme::MUTED, 2)
        + option_row_cmds(92, 134, 136, ""@, "CONTINUE"@, t.pause_action == PomodoroPauseAction::Continue)
        + option_row_cmds(92, 172, 136, ""@, "EXIT"@, t.pause_action == PomodoroPauseAction::Exit)
        + centered_cmds(0, 218, TFT_H_RES, "HOLD TO APPS"@, theme::MUTED, 1)
}

/// What the finished screen draws after clearing: the tomato, the verdict
/// and the hint.
pub open spec fn finished_screen_cmds() -> Seq<DrawCommand> {
    tomato_cmds(116, 36, 4, 16) + centered_cmds(0, 130, TFT_H_RES, "DONE"@, theme::GOOD, 2)
        + centered_cmds(0, 166, TFT_H_RES, "TIME IS UP"@, theme::TEXT, 1)
        + centered_cmds(0, 218, TFT_H_RES, "PRESS TO RESET"@, theme::MUTED, 1)
}

/// What `render` draws for the timer's mode after clearing.
pub open spec fn screen_cmds(t: PomodoroState) -> Seq<DrawCommand> {
    match t.mode {
        PomodoroMode::Setup => setup_screen_cmds(t),
        PomodoroMode::Running => running_screen_cmds(t),
        PomodoroMode::Paused => paused_screen_cmds(t),
        PomodoroMode::Finished => finished_screen_cmds(),
    }
}

/// The screen for the timer's mode, as one frame.
pub fn render<D: DisplaySink>(display: &mut D, timer: &PomodoroTimer)
    requires
        pomodoro_valid(timer@),
    ensures
        sent(*old(display), *final(display), frame_cmds(theme::BG, screen_cmds(timer@))),
        sent_frame(*old(display), *final(display), theme::BG),
{
    match timer.mode() {
        PomodoroMode::Setup => render_setup(display, timer),
        PomodoroMode::Running => render_running(display, timer),
        PomodoroMode::Paused => render_paused(display, timer),
        PomodoroMode::Finished => render_finished(display, timer),
    }
}

/// Setup: title, tomato, the time editor and the start button (lit when a
/// countdown can start).
#[verifier::spinoff_prover]
pub fn render_setup<D: DisplaySink>(display: &mut D, timer: &PomodoroTimer)
    requires
        pomodoro_valid(timer@),
    ensures
        sent(*old(display), *final(display), frame_cmds(theme::BG, setup_screen_cmds(timer@))),
        sent_frame(*old(display), *final(display), theme::BG),
{
    let ghost d0 = *display;
    clear(display, theme::BG);
    let ghost d1 = *display;
    draw_centered_text(display, 0, 14, TFT_H_RES, "POMODORO", theme::TEXT, 2);
    draw_tomato_logo(display, 116, 44, 4);
    draw_time_editor(display, timer, 116);
    draw_option_row(display, 108, 168, 104, "", "START", timer.can_start());
    draw_centered_text(display, 0, 218, TFT_H_RES, "HOLD TO APPS", theme::MUTED, 1);
    let ghost dm = *display;
    flush(display);
    proof {
        lemma_frame(d0, d1, dm, *display, theme::BG);
        if d0.records() {
            assert(display.drawn() =~= d0.drawn() + frame_cmds(theme::BG, setup_screen_cmds(timer@)));
        }
    }
}

/// What `render_setup_editor_delta` sends: the time editor, the start
/// button (lit when a countdown can start) when that changed, and a flush.
pub open spec fn editor_delta_cmds(t: PomodoroState, start_changed: bool) -> Seq<DrawCommand> {
    time_editor_cmds(t.active_field, t.minutes, t.seconds, 116)
        + (if start_changed { option_row_cmds(108, 168, 104, ""@, "START"@, spec_duration(t) > 0) } else { Seq::empty() })
        + seq![DrawCommand::Flush]
}

/// Redraws the time editor, and the start button when whether a countdown
/// can start changed.
pub fn render_setup_editor_delta<D: DisplaySink>(display: &mut D, timer: &PomodoroTimer, start_changed: bool)
    requires
        pomodoro_valid(timer@),
    ensures
        sent(*old(display), *final(display), editor_delta_cmds(timer@, start_changed)),
        flushed(*old(display), *final(display)),
{
    let ghost d0 = *display;
    draw_time_editor(display, timer, 116);
    let ghost d1 = *display;
    if start_changed {
        draw_option_row(display, 108, 168, 104, "", "START", timer.can_start());
    } else {
        proof { lemma_sent_nothing(*display); }
    }
    let ghost dm = *display;
    flush(display);
    proof {
        lemma_flushed(d0, dm, *display);
        let t = timer@;
        let e = time_editor_cmds(t.active_field, t.minutes, t.seconds, 116);
        let o = if start_changed { option_row_cmds(108, 168, 104, ""@, "START"@, spec_duration(t) > 0) } else { Seq::empty() };
        lemma_sent_then(d0, d1, dm, e, o);
        lemma_sent_then(d0, dm, *display, e + o, seq![DrawCommand::Flush]);
    }
}

/// The running countdown in large seven-segment digits.
#[verifier::spinoff_prover]
pub fn render_running<D: DisplaySink>(display: &mut D, timer: &PomodoroTimer)
    ensures
        sent(*old(display), *final(display), frame_cmds(theme::BG, running_screen_cmds(timer@))),
        sent_frame(*old(display), *final(display), theme::BG),
{
    let ghost d0 = *display;
    clear(display, theme::BG);
    let ghost d1 = *display;
    draw_centered_text(display, 0, 22, TFT_H_RES, "POMODORO", theme::MUTED, 1);
    fill_rect(display, RUNNING_TIME_X, RUNNING_TIME_Y, RUNNING_TIME_W, RUNNING_TIME_H, theme::HUD);
    draw_large_remaining(display, timer.remaining_seconds());
    draw_centered_text(display, 0, 174, TFT_H_RES, "RUNNING", theme::GOOD, 1);
    draw_centered_text(display, 0, 218, TFT_H_RES, "PRESS PAUSE  HOLD APPS", theme::MUTED, 1);
    let ghost dm = *display;
    flush(display);
    proof {
        lemma_frame(d0, d1, dm, *display, theme::BG);
        if d0.records() {
            assert(display.drawn() =~= d0.drawn() + frame_cmds(theme::BG, running_screen_cmds(timer@)));
        }
    }
}

/// What `render_running_time_delta` sends: the countdown box, the time
/// left in it, and a flush.
pub open spec fn running_delta_cmds(t: PomodoroState) -> Seq<DrawCommand> {
    fill_cmds(RUNNING_TIME_X, RUNNING_TIME_Y, RUNNING_TIME_W, RUNNING_TIME_H, theme::HUD)
        + large_remaining_cmds(t.remaining_seconds) + seq![DrawCommand::Flush]
}

/// Redraws the large countdown alone.
pub fn render_running_time_delta<D: DisplaySink>(display: &mut D, timer: &PomodoroTimer)
    ensures
        sent(*old(display), *final(display), running_delta_cmds(timer@)),
        flushed(*old(display), *final(display)),
{
    broadcast use lemma_sent_chain;
    let ghost d0 = *display;
    fill_rect(display, RUNNING_TIME_X, RUNNING_TIME_Y, RUNNING_TIME_W, RUNNING_TIME_H, theme::HUD);
    draw_large_remaining(display, timer.remaining_seconds());
    let ghost dm = *display;
    flush(display);
    proof { lemma_flushed(d0, dm, *display); }
}

/// The pause menu with the time left.
#[verifier::spinoff_prover]
pub fn render_paused<D: DisplaySink>(display: &mut D, timer: &PomodoroTimer)
    ensures
        sent(*old(display), *final(display), frame_cmds(theme::BG, paused_screen_cmds(timer@))),
        sent_frame(*old(display), *final(display), theme::BG),
{
    let ghost d0 = *display;
    clear(display, theme::BG);
    let ghost d1 = *display;
    draw_centered_text(display, 0, 20, TFT_H_RES, "PAUSED", theme::TEXT, 2);
    draw_remaining(display, 0, 72, TFT_H_RES, timer.remaining_seconds(), theme::MUTED, 2);
    draw_option_row(display, 92, 134, 136, "", "CONTINUE", timer.pause_action() == PomodoroPauseAction::Continue);
    draw_option_row(display, 92, 172, 136, "", "EXIT", timer.pause_action() == PomodoroPauseAction::Exit);
    draw_centered_text(display, 0, 218, TFT_H_RES, "HOLD TO APPS", theme::MUTED, 1);
    let ghost dm = *display;
    flush(display);
    proof {
        lemma_frame(d0, d1, dm, *display, theme::BG);
        if d0.records() {
            assert(display.drawn() =~= d0.drawn() + frame_cmds(theme::BG, paused_screen_cmds(timer@)));
        }
    }
}

/// The end of a countdown.
#[verifier::spinoff_prover]
pub fn render_finished<D: DisplaySink>(display: &mut D, timer: &PomodoroTimer)
    ensures
        sent(*old(display), *final(display), frame_cmds(theme::BG, finished_screen_cmds())),
        sent_frame(*old(display), *final(display), theme::BG),
{
    let ghost d0 = *display;
    clear(display, theme::BG);
    let ghost d1 = *display;
    draw_tomato_logo(display, 116, 36, 4);
    draw_centered_text(display, 0, 130, TFT_H_RES, "DONE", theme::GOOD, 2);
    draw_centered_text(display, 0, 166, TFT_H_RES, "TIME IS UP", theme::TEXT, 1);
    draw_centered_text(display, 0, 218, TFT_H_RES, "PRESS TO RESET", theme::MUTED, 1);
    let ghost dm = *display;
    flush(display);
    proof {
        lemma_frame(d0, d1, dm, *display, theme::BG);
        if d0.records() {
            assert(display.drawn() =~= d0.drawn() + frame_cmds(theme::BG, finished_screen_cmds()));
        }
    }
}

/// One row of the tomato picture, as ASCII color codes: R red, W
/// highlight, K dark, L leaf, G green, S stem, `.` empty.
pub open spec fn spec_tomato_row(row: int) -> Seq<u8> {
    if row == 0 {
        seq![46, 46, 46, 46, 46, 46, 76, 76, 83, 83, 46, 46, 46, 46, 46, 46]
    } else if row == 1 {
        seq![46, 46, 46, 46, 46, 76, 76, 76, 76, 83, 83, 46, 46, 46, 46, 46]
    } else if row == 2 {
        seq![46, 46, 46, 46, 76, 76, 71, 76, 76, 83, 83, 46, 46, 46, 46, 46]
    } else if row == 3 {
        seq![46, 46, 46, 46, 46, 71, 71, 71, 71, 71, 46, 46, 46, 46, 46, 46]
    } else if row == 4 {
        seq![46, 46, 46, 82, 82, 82, 82, 82, 82, 82, 82, 82, 82, 46, 46, 46]
    } else if row == 5 {
        seq![46, 46, 82, 82, 82, 82, 82, 82, 82, 82, 82, 82, 82, 82, 46, 46]
    } else if row == 6 {
        seq![46, 82, 82, 82, 82, 82, 82, 82, 82, 82, 82, 82, 82, 82, 82, 46]
    } else if row == 7 {
        seq![46, 82, 82, 87, 87, 82, 82, 82, 82, 82, 82, 87, 87, 82, 82, 46]
    } else if row == 8 {
        seq![82, 82, 82, 87, 87, 82, 82, 82, 82, 82, 82, 87, 87, 82, 82, 82]
    } else if row == 9 {
        seq![82, 82, 82, 82, 82, 82, 82, 82, 82, 82, 82, 82, 82, 82, 82, 82]
    } else if row == 10 {
        seq![82, 82, 82, 82, 75, 75, 82, 82, 82, 82, 75, 75, 82, 82, 82, 82]
    } else if row == 11 {
        seq![82, 82, 82, 82, 75, 75, 82, 82, 82, 82, 75, 75, 82, 82, 82, 82]
    } else if row == 12 {
        seq![82, 82, 82, 82, 82, 82, 82, 82, 82, 82, 82, 82, 82, 82, 82, 82]
    } else if row == 13 {
        seq![46, 82, 82, 82, 75, 75, 75, 75, 75, 75, 75, 75, 82, 82, 82, 46]
    } else if row == 14 {
        seq![46, 46, 82, 82, 82, 75, 75, 75, 75, 75, 75, 82, 82, 82, 46, 46]
    } else {
        seq![46, 46, 46, 82, 82, 82, 82, 82, 82, 82, 82, 82, 82, 46, 46, 46]
    }
}

pub fn tomato_row(row: usize) -> (r: [u8; 16])
    requires
        row < 16,
    ensures
        r@ == spec_tomato_row(row as int),
{
    let r = match row {
        0 => [46, 46, 46, 46, 46, 46, 76, 76, 83, 83, 46, 46, 46, 46, 46, 46],
        1 => [46, 46, 46, 46, 46, 76, 76, 76, 76, 83, 83, 46, 46, 46, 46, 46],
        2 => [46, 46, 46, 46, 76, 76, 71, 76, 76, 83, 83, 46, 46, 46, 46, 46],
        3 => [46, 46, 46, 46, 46, 71, 71, 71, 71, 71, 46, 46, 46, 46, 46, 46],
        4 => [46, 46, 46, 82, 82, 82, 82, 82, 82, 82, 82, 82, 82, 46, 46, 46],
        5 => [46, 46, 82, 82, 82, 82, 82, 82, 82, 82, 82, 82, 82, 82, 46, 46],
        6 => [46, 82, 82, 82, 82, 82, 82, 82, 82, 82, 82, 82, 82, 82, 82, 46],
        7 => [46, 82, 82, 87, 87, 82, 82, 82, 82, 82, 82, 87, 87, 82, 82, 46],
        8 => [82, 82, 82, 87, 87, 82, 82, 82, 82, 82, 82, 87, 87, 82, 82, 82],
        9 => [82, 82, 82, 82, 82, 82, 82, 82, 82, 82, 82, 82, 82, 82, 82, 82],
        10 => [82, 82, 82, 82, 75, 75, 82, 82, 82, 82, 75, 75, 82, 82, 82, 82],
        11 => [82, 82, 82, 82, 75, 75, 82, 82, 82, 82, 75, 75, 82, 82, 82, 82],
        12 => [82, 82, 82, 82, 82, 82, 82, 82, 82, 82, 82, 82, 82, 82, 82, 82],
        13 => [46, 82, 82, 82, 75, 75, 75, 75, 75, 75, 75, 75, 82, 82, 82, 46],
        14 => [46, 46, 82, 82, 82, 75, 75, 75, 75, 75, 75, 82, 82, 82, 46, 46],
        _ => [46, 46, 46, 82, 82, 82, 82, 82, 82, 82, 82, 82, 82, 46, 46, 46],
    };
    assert(r@ =~= spec_tomato_row(row as int));
    r
}

/// The color of a picture code; empty for `.` and anything else unknown.
pub open spec fn spec_tomato_color(code: u8) -> Option<u16> {
    if code == 82 {
        Some(theme::APPLE)
    } else if code == 87 {
        Some(theme::APPLE_HIGHLIGHT)
    } else if code == 75 {
        Some(theme::EYE)
    } else if code == 76 {
        Some(theme::LEAF)
    } else if code == 71 {
        Some(theme::GOOD)
    } else if code == 83 {
        Some(theme::STEM)
    } else {
        None
    }
}

pub fn tomato_color(code: u8) -> (r: Option<u16>)
    ensures
        r == spec_tomato_color(code),
{
    match code {
        82 => Some(theme::APPLE),
        87 => Some(theme::APPLE_HIGHLIGHT),
        75 => Some(theme::EYE),
        76 => Some(theme::LEAF),
        71 => Some(theme::GOOD),
        83 => Some(theme::STEM),
        _ => None,
    }
}

/// What `draw_tomato_logo` sends for pixel `col` of picture row `row`: a
/// `scale`-sided square in its color, or nothing for an empty pixel.
pub open spec fn tomato_pixel_cmds(x: int, y: int, scale: int, row: int, col: int) -> Seq<DrawCommand> {
    match spec_tomato_color(spec_tomato_row(row)[col]) {
        Some(color) => fill_at_cmds(x + col * scale, y + row * scale, scale, scale, color),
        None => Seq::empty(),
    }
}

/// The first `cols` pixels of picture row `row`, left to right.
pub open spec fn tomato_row_cmds(x: int, y: int, scale: int, row: int, cols: int) -> Seq<DrawCommand>
    decreases cols,
{
    if cols <= 0 {
        Seq::empty()
    } else {
        tomato_row_cmds(x, y, scale, row, cols - 1) + tomato_pixel_cmds(x, y, scale, row, cols - 1)
    }
}

/// The first `rows` rows of the picture, top to bottom.
pub open spec fn tomato_cmds(x: int, y: int, scale: int, rows: int) -> Seq<DrawCommand>
    decreases rows,
{
    if rows <= 0 {
        Seq::empty()
    } else {
        tomato_cmds(x, y, scale, rows - 1) + tomato_row_cmds(x, y, scale, rows - 1, 16)
    }
}

/// The 16 by 16 tomato picture, each pixel a `scale`-sided square.
pub fn draw_tomato_logo<D: DisplaySink>(display: &mut D, x: i16, y: i16, scale: i16)
    ensures
        sent(*old(display), *final(display), tomato_cmds(x as int, y as int, scale as int, 16)),
{
    let ghost d0 = *display;
    let ghost (xi, yi, si) = (x as int, y as int, scale as int);
    proof {
        lemma_sent_nothing(d0);
    }
    let mut row: usize = 0;
    while row < 16
        invariant
            row <= 16,
            xi == x, yi == y, si == scale,
            sent(d0, *display, tomato_cmds(xi, yi, si, row as int)),
        decreases 16 - row,
    {
        let line = tomato_row(row);
        let ghost done = tomato_cmds(xi, yi, si, row as int);
        proof {
            assert(done + tomato_row_cmds(xi, yi, si, row as int, 0) =~= done);
        }
        let mut col: usize = 0;
        while col < 16
            invariant
                col <= 16, row < 16,
                xi == x, yi == y, si == scale,
                line@ == spec_tomato_row(row as int),
                done == tomato_cmds(xi, yi, si, row as int),
                sent(d0, *display, done + tomato_row_cmds(xi, yi, si, row as int, col as int)),
            decreases 16 - col,
        {
            let ghost before = *display;
            let ghost part = tomato_row_cmds(xi, yi, si, row as int, col as int);
            let ghost pixel = tomato_pixel_cmds(xi, yi, si, row as int, col as int);
            if let Some(color) = tomato_color(line[col]) {
                assert(-600_000 <= col * scale <= 600_000) by (nonlinear_arith)
                    requires col < 16, -32768 <= scale <= 32767;
                assert(-600_000 <= row * scale <= 600_000) by (nonlinear_arith)
                    requires row < 16, -32768 <= scale <= 32767;
                let px: i32 = x as i32 + col as i32 * scale as i32;
                let py: i32 = y as i32 + row as i32 * scale as i32;
                fill_at(display, px, py, scale as i32, scale as i32, color);
            } else {
                proof { lemma_sent_nothing(before); }
            }
            proof {
                lemma_sent_then(d0, before, *display, done + part, pixel);
                assert((done + part) + pixel =~= done + (part + pixel));
            }
            col += 1;
        }
        row += 1;
    }
}


/// What `draw_time_editor` sends: the box, the mark under the field being
/// edited, and the set time centred at `y`.
pub open spec fn time_editor_cmds(field: PomodoroField, minutes: u8, seconds: u8, y: int) -> Seq<DrawCommand> {
    fill_at_cmds(56, y - 14, 208, 44, theme::HUD)
        + fill_at_cmds(if field == PomodoroField::Minutes { 82 } else { 176 }, y + 22, 62, 4, theme::ACCENT)
        + centered_cmds(0, y as i16, TFT_H_RES, clock_chars(minutes as nat, seconds as nat), theme::TEXT, 2)
}

fn draw_time_editor<D: DisplaySink>(display: &mut D, timer: &PomodoroTimer, y: i16)
    requires
        -1000 <= y <= 1000,
    ensures
        sent(*old(display), *final(display), time_editor_cmds(timer@.active_field, timer@.minutes, timer@.seconds, y as int)),
{
    broadcast use lemma_sent_chain;
    fill_rect(display, 56, y - 14, 208, 44, theme::HUD);
    if timer.active_field() == PomodoroField::Minutes {
        fill_rect(display, 82, y + 22, 62, 4, theme::ACCENT);
    } else {
        fill_rect(display, 176, y + 22, 62, 4, theme::ACCENT);
    }
    let text = clock_text(timer.minutes() as u32, timer.seconds() as u32);
    draw_centered_text(display, 0, y, TFT_H_RES, text.as_str(), theme::TEXT, 2);
}

/// What `draw_remaining` sends: the time left as minutes and seconds,
/// centred in the box at `x, y` of width `w`.
pub open spec fn remaining_cmds(x: i16, y: i16, w: i16, remaining_seconds: u16, color: u16, scale: i16) -> Seq<DrawCommand> {
    centered_cmds(x, y, w, clock_chars(remaining_seconds as nat / 60, remaining_seconds as nat % 60), color, scale)
}

fn draw_remaining<D: DisplaySink>(display: &mut D, x: i16, y: i16, w: i16, remaining_seconds: u16, color: u16, scale: i16)
    ensures
        sent(*old(display), *final(display), remaining_cmds(x, y, w, remaining_seconds, color, scale)),
{
    let text = clock_text((remaining_seconds / 60) as u32, (remaining_seconds % 60) as u32);
    draw_centered_text(display, x, y, w, text.as_str(), color, scale);
}

/// What `draw_large_remaining` sends: the time left as four seven-segment
/// digits with the colon between minutes and seconds, centred in the
/// countdown box (digits at 42, 97, the colon at 152, digits at 173 and 228,
/// all 69 down).
pub open spec fn large_remaining_cmds(remaining_seconds: u16) -> Seq<DrawCommand> {
    let minutes = remaining_seconds / 60;
    let seconds = remaining_seconds % 60;
    segment_digit_cmds(42, 69, (minutes / 10) as u8, theme::TEXT)
        + segment_digit_cmds(97, 69, (minutes % 10) as u8, theme::TEXT)
        + large_colon_cmds(152, 69, theme::ACCENT)
        + segment_digit_cmds(173, 69, (seconds / 10) as u8, theme::TEXT)
        + segment_digit_cmds(228, 69, (seconds % 10) as u8, theme::TEXT)
}

fn draw_large_remaining<D: DisplaySink>(display: &mut D, remaining_seconds: u16)
    ensures
        sent(*old(display), *final(display), large_remaining_cmds(remaining_seconds)),
{
    broadcast use lemma_sent_chain;
    let minutes = remaining_seconds / 60;
    let seconds = remaining_seconds % 60;
    let total_w: i16 = SEGMENT_DIGIT_W * 4 + SEGMENT_GAP * 4 + COLON_W;
    let mut x: i16 = RUNNING_TIME_X + (RUNNING_TIME_W - total_w) / 2;
    let y: i16 = RUNNING_TIME_Y + (RUNNING_TIME_H - SEGMENT_DIGIT_H) / 2;
    assert(x == 42 && y == 69);
    draw_segment_digit(display, x, y, (minutes / 10) as u8, theme::TEXT);
    x += SEGMENT_DIGIT_W + SEGMENT_GAP;
    draw_segment_digit(display, x, y, (minutes % 10) as u8, theme::TEXT);
    x += SEGMENT_DIGIT_W + SEGMENT_GAP;
    draw_large_colon(display, x, y, theme::ACCENT);
    x += COLON_W + SEGMENT_GAP;
    draw_segment_digit(display, x, y, (seconds / 10) as u8, theme::TEXT);
    x += SEGMENT_DIGIT_W + SEGMENT_GAP;
    draw_segment_digit(display, x, y, (seconds % 10) as u8, theme::TEXT);
}

/// The lit segments of a digit, one bit each: top, upper right, lower
/// right, bottom, lower left, upper left, middle. Anything but 0 to 9 has
/// none.
pub open spec fn spec_segment_mask(digit: u8) -> u8 {
    if digit == 0 {
        0x3f
    } else if digit == 1 {
        0x06
    } else if digit == 2 {
        0x5b
    } else if digit == 3 {
        0x4f
    } else if digit == 4 {
        0x66
    } else if digit == 5 {
        0x6d
    } else if digit == 6 {
        0x7d
    } else if digit == 7 {
        0x07
    } else if digit == 8 {
        0x7f
    } else if digit == 9 {
        0x6f
    } else {
        0
    }
}

pub fn segment_mask(digit: u8) -> (r: u8)
    ensures
        r == spec_segment_mask(digit),
{
    match digit {
        0 => 0x3f,
        1 => 0x06,
        2 => 0x5b,
        3 => 0x4f,
        4 => 0x66,
        5 => 0x6d,
        6 => 0x7d,
        7 => 0x07,
        8 => 0x7f,
        9 => 0x6f,
        _ => 0,
    }
}

/// A horizontal segment at `x, y`: the bar and its two rounded ends.
pub open spec fn horizontal_segment_cmds(x: int, y: int, color: u16) -> Seq<DrawCommand> {
    let t = SEGMENT_THICKNESS as int;
    let w = SEGMENT_DIGIT_W as int;
    fill_at_cmds(x + t / 2, y, w - t, t, color) + fill_at_cmds(x, y + 2, t / 2, t - 4, color)
        + fill_at_cmds(x + w - t / 2, y + 2, t / 2, t - 4, color)
}

/// A vertical segment at `x, y`: the bar and its two rounded ends.
pub open spec fn vertical_segment_cmds(x: int, y: int, color: u16) -> Seq<DrawCommand> {
    let t = SEGMENT_THICKNESS as int;
    let half = SEGMENT_DIGIT_H as int / 2;
    fill_at_cmds(x, y + t / 2, t, half - t, color) + fill_at_cmds(x + 2, y, t - 4, t / 2, color)
        + fill_at_cmds(x + 2, y + half - t / 2, t - 4, t / 2, color)
}

/// `cmds` when bit `bit` of the digit's mask is set, else nothing.
pub open spec fn lit(digit: u8, bit: u8, cmds: Seq<DrawCommand>) -> Seq<DrawCommand> {
    if spec_segment_mask(digit) & bit != 0 { cmds } else { Seq::empty() }
}

/// What `draw_segment_digit` sends: each lit segment in mask order.
pub open spec fn segment_digit_cmds(x: int, y: int, digit: u8, color: u16) -> Seq<DrawCommand> {
    let right = x + SEGMENT_DIGIT_W - SEGMENT_THICKNESS;
    let lower = y + SEGMENT_DIGIT_H / 2;
    lit(digit, 0x01, horizontal_segment_cmds(x, y, color))
        + lit(digit, 0x02, vertical_segment_cmds(right, y, color))
        + lit(digit, 0x04, vertical_segment_cmds(right, lower, color))
        + lit(digit, 0x08, horizontal_segment_cmds(x, y + SEGMENT_DIGIT_H - SEGMENT_THICKNESS, color))
        + lit(digit, 0x10, vertical_segment_cmds(x, lower, color))
        + lit(digit, 0x20, vertical_segment_cmds(x, y, color))
        + lit(digit, 0x40, horizontal_segment_cmds(x, y + (SEGMENT_DIGIT_H - SEGMENT_THICKNESS) / 2, color))
}

/// A seven-segment digit with its top left corner at `x, y`.
pub fn draw_segment_digit<D: DisplaySink>(display: &mut D, x: i16, y: i16, digit: u8, color: u16)
    requires
        -1000 <= x <= 1000, -1000 <= y <= 1000,
    ensures
        sent(*old(display), *final(display), segment_digit_cmds(x as int, y as int, digit, color)),
{
    broadcast use lemma_sent_chain;
    let segments = segment_mask(digit);
    let right = x + SEGMENT_DIGIT_W - SEGMENT_THICKNESS;
    let lower = y + SEGMENT_DIGIT_H / 2;
    draw_segment_if(display, segments & 0x01 != 0, true, x, y, color);
    draw_segment_if(display, segments & 0x02 != 0, false, right, y, color);
    draw_segment_if(display, segments & 0x04 != 0, false, right, lower, color);
    draw_segment_if(display, segments & 0x08 != 0, true, x, y + SEGMENT_DIGIT_H - SEGMENT_THICKNESS, color);
    draw_segment_if(display, segments & 0x10 != 0, false, x, lower, color);
    draw_segment_if(display, segments & 0x20 != 0, false, x, y, color);
    draw_segment_if(display, segments & 0x40 != 0, true, x, y + (SEGMENT_DIGIT_H - SEGMENT_THICKNESS) / 2, color);
}

/// One segment, horizontal or vertical, when `on`; else nothing.
fn draw_segment_if<D: DisplaySink>(display: &mut D, on: bool, horizontal: bool, x: i16, y: i16, color: u16)
    requires
        -2000 <= x <= 2000, -2000 <= y <= 2000,
    ensures
        sent(*old(display), *final(display), if !on {
            Seq::empty()
        } else if horizontal {
            horizontal_segment_cmds(x as int, y as int, color)
        } else {
            vertical_segment_cmds(x as int, y as int, color)
        }),
{
    if !on {
        proof { lemma_sent_nothing(*display); }
    } else if horizontal {
        draw_horizontal_segment(display, x, y, color);
    } else {
        draw_vertical_segment(display, x, y, color);
    }
}

fn draw_horizontal_segment<D: DisplaySink>(display: &mut D, x: i16, y: i16, color: u16)
    requires
        -2000 <= x <= 2000, -2000 <= y <= 2000,
    ensures
        sent(*old(display), *final(display), horizontal_segment_cmds(x as int, y as int, color)),
{
    let ghost d0 = *display;
    fill_rect(display, x + SEGMENT_THICKNESS / 2, y, SEGMENT_DIGIT_W - SEGMENT_THICKNESS, SEGMENT_THICKNESS, color);
    fill_rect(display, x, y + 2, SEGMENT_THICKNESS / 2, SEGMENT_THICKNESS - 4, color);
    fill_rect(display, x + SEGMENT_DIGIT_W - SEGMENT_THICKNESS / 2, y + 2, SEGMENT_THICKNESS / 2, SEGMENT_THICKNESS - 4, color);
    proof {
        if d0.records() {
            assert(display.drawn() =~= d0.drawn() + horizontal_segment_cmds(x as int, y as int, color));
        }
    }
}

fn draw_vertical_segment<D: DisplaySink>(display: &mut D, x: i16, y: i16, color: u16)
    requires
        -2000 <= x <= 2000, -2000 <= y <= 2000,
    ensures
        sent(*old(display), *final(display), vertical_segment_cmds(x as int, y as int, color)),
{
    let ghost d0 = *display;
    fill_rect(display, x, y + SEGMENT_THICKNESS / 2, SEGMENT_THICKNESS, SEGMENT_DIGIT_H / 2 - SEGMENT_THICKNESS, color);
    fill_rect(display, x + 2, y, SEGMENT_THICKNESS - 4, SEGMENT_THICKNESS / 2, color);
    fill_rect(display, x + 2, y + SEGMENT_DIGIT_H / 2 - SEGMENT_THICKNESS / 2, SEGMENT_THICKNESS - 4, SEGMENT_THICKNESS / 2, color);
    proof {
        if d0.records() {
            assert(display.drawn() =~= d0.drawn() + vertical_segment_cmds(x as int, y as int, color));
        }
    }
}

/// What `draw_large_colon` sends: the colon's two dots.
pub open spec fn large_colon_cmds(x: int, y: int, color: u16) -> Seq<DrawCommand> {
    fill_at_cmds(x + 4, y + 21, 8, 8, color) + fill_at_cmds(x + 4, y + 49, 8, 8, color)
}

fn draw_large_colon<D: DisplaySink>(display: &mut D, x: i16, y: i16, color: u16)
    requires
        -1000 <= x <= 1000, -1000 <= y <= 1000,
    ensures
        sent(*old(display), *final(display), large_colon_cmds(x as int, y as int, color)),
{
    broadcast use lemma_sent_chain;
    fill_rect(display, x + 4, y + 21, 8, 8, color);
    fill_rect(display, x + 4, y + 49, 8, 8, color);
}

} // verus!
