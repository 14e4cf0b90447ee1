use vstd::prelude::*;
use crate::config::{TFT_H_RES, TFT_V_RES};
use crate::font::{
    all_ascii, ascii_chars, centered_cmds, centered_x, clock_chars, clock_text, date_chars, date_text, decimal, decimal_chars,
    draw_centered_text, draw_text, lemma_decimal_digits, norm_scale, pow10, text_cmds, zero_padded, TextBuffer,
};
use crate::launcher::{spec_status_label, CalendarDate, ClockTime, HomeSnapshot, HomeStatus, LauncherView};
use crate::theme;
use crate::ui_widgets::{draw_menu_button, draw_option_row, menu_button_cmds, option_row_cmds};

verus! {

#[derive(Debug, Clone, Copy, PartialEq, Eq, Structural)]
pub struct Rect {
    pub x: i16,
    pub y: i16,
    pub w: i16,
    pub h: i16,
}

/// One drawing request sent to the display.
#[derive(Debug, Clone, Copy, PartialEq, Eq, Structural)]
pub enum DrawCommand {
    Fill { rect: Rect, color: u16 },
    Bitmap { x: i16, y: i16, w: u16, h: u16, offset: u32 },
    Flush,
}

/// Where drawing commands go.
pub trait DisplaySink {
    /// Whether this sink keeps a record of what it is sent; one that does
    /// not (a real panel) states nothing about it.
    open spec fn records(&self) -> bool {
        false
    }

    /// The commands received so far, oldest first, for a sink that records.
    open spec fn drawn(&self) -> Seq<DrawCommand> {
        Seq::empty()
    }

    fn push(&mut self, command: DrawCommand)
        ensures
            old(self).records() ==> final(self).records() && final(self).drawn() == old(self).drawn().push(command),
    ;
}

/// Between `before` and `after`, a recording sink was sent `cmds`.
pub open spec fn sent<D: DisplaySink>(before: D, after: D, cmds: Seq<DrawCommand>) -> bool {
    before.records() ==> after.records() && after.drawn() == before.drawn() + cmds
}

pub proof fn lemma_sent_nothing<D: DisplaySink>(d: D)
    ensures
        sent(d, d, Seq::empty()),
{
    assert(d.drawn() + Seq::<DrawCommand>::empty() =~= d.drawn());
}

pub broadcast proof fn lemma_sent_chain<D: DisplaySink>(a: D, b: D, c: D, x: Seq<DrawCommand>, y: Seq<DrawCommand>)
    requires
        #[trigger] sent(a, b, x),
        #[trigger] sent(b, c, y),
    ensures
        sent(a, c, x + y),
{
    if a.records() {
        assert(c.drawn() =~= a.drawn() + (x + y));
    }
}

/// `after` holds everything `before` held, and possibly more after it.
pub open spec fn appends<D: DisplaySink>(before: D, after: D) -> bool {
    before.records() ==> {
        &&& after.records()
        &&& before.drawn().len() <= after.drawn().len()
        &&& forall|i: int| 0 <= i < before.drawn().len() ==> #[trigger] after.drawn()[i] == before.drawn()[i]
    }
}

pub broadcast proof fn lemma_sent_appends<D: DisplaySink>(a: D, b: D, x: Seq<DrawCommand>)
    requires
        #[trigger] sent(a, b, x),
    ensures
        appends(a, b),
{
}

pub broadcast proof fn lemma_appends_chain<D: DisplaySink>(a: D, b: D, c: D)
    requires
        #[trigger] appends(a, b),
        #[trigger] appends(b, c),
    ensures
        appends(a, c),
{
    if a.records() {
        assert forall|i: int| 0 <= i < a.drawn().len() implies #[trigger] c.drawn()[i] == a.drawn()[i] by {
            assert(c.drawn()[i] == b.drawn()[i]);
        }
    }
}

/// A whole frame was sent: the screen cleared to `bg` first, then drawing,
/// then a flush.
pub open spec fn sent_frame<D: DisplaySink>(before: D, after: D, bg: u16) -> bool {
    &&& appends(before, after)
    &&& before.records() ==> {
        &&& after.drawn().len() >= before.drawn().len() + 2
        &&& after.drawn()[before.drawn().len() as int] == clear_cmd(bg)
        &&& after.drawn().last() == DrawCommand::Flush
    }
}

pub proof fn lemma_frame<D: DisplaySink>(d0: D, d1: D, dm: D, d2: D, bg: u16)
    requires
        sent(d0, d1, seq![clear_cmd(bg)]),
        appends(d1, dm),
        sent(dm, d2, seq![DrawCommand::Flush]),
    ensures
        sent_frame(d0, d2, bg),
{
    if d0.records() {
        assert(d1.drawn()[d0.drawn().len() as int] == clear_cmd(bg));
        assert(dm.drawn()[d0.drawn().len() as int] == d1.drawn()[d0.drawn().len() as int]);
        assert forall|i: int| 0 <= i < d0.drawn().len() implies #[trigger] d2.drawn()[i] == d0.drawn()[i] by {
            assert(d1.drawn()[i] == d0.drawn()[i]);
            assert(dm.drawn()[i] == d1.drawn()[i]);
        }
    }
}

/// A whole frame: the screen cleared to `bg`, `body`, then a flush.
pub open spec fn frame_cmds(bg: u16, body: Seq<DrawCommand>) -> Seq<DrawCommand> {
    seq![clear_cmd(bg)] + body + seq![DrawCommand::Flush]
}

/// Sending a whole frame's commands sends a frame.
pub proof fn lemma_frame_cmds<D: DisplaySink>(d0: D, d1: D, bg: u16, body: Seq<DrawCommand>)
    requires
        sent(d0, d1, frame_cmds(bg, body)),
    ensures
        sent_frame(d0, d1, bg),
{
    if d0.records() {
        let all = frame_cmds(bg, body);
        assert(d1.drawn() == d0.drawn() + all);
        assert(all[0] == clear_cmd(bg));
        assert(all.last() == DrawCommand::Flush);
        assert(d1.drawn()[d0.drawn().len() as int] == all[0]);
    }
}

/// Drawing was sent, ending with a flush.
pub open spec fn flushed<D: DisplaySink>(before: D, after: D) -> bool {
    &&& appends(before, after)
    &&& before.records() ==> {
        &&& after.drawn().len() > before.drawn().len()
        &&& after.drawn().last() == DrawCommand::Flush
    }
}

pub proof fn lemma_flushed<D: DisplaySink>(d0: D, dm: D, d2: D)
    requires
        appends(d0, dm),
        sent(dm, d2, seq![DrawCommand::Flush]),
    ensures
        flushed(d0, d2),
{
    if d0.records() {
        assert forall|i: int| 0 <= i < d0.drawn().len() implies #[trigger] d2.drawn()[i] == d0.drawn()[i] by {
            assert(dm.drawn()[i] == d0.drawn()[i]);
        }
    }
}

/// A whole frame ends with a flush.
pub proof fn lemma_frame_flushed<D: DisplaySink>(d0: D, d2: D, bg: u16)
    requires
        sent_frame(d0, d2, bg),
    ensures
        flushed(d0, d2),
{
}

pub proof fn lemma_sent_then<D: DisplaySink>(a: D, b: D, c: D, x: Seq<DrawCommand>, y: Seq<DrawCommand>)
    requires
        sent(a, b, x),
        sent(b, c, y),
    ensures
        sent(a, c, x + y),
{
    if a.records() {
        assert(c.drawn() =~= a.drawn() + (x + y));
    }
}

pub open spec fn fill_cmd(x: i16, y: i16, w: i16, h: i16, color: u16) -> DrawCommand {
    DrawCommand::Fill { rect: Rect { x, y, w, h }, color }
}

/// What `fill_rect` sends: one fill, or nothing for an empty rectangle.
pub open spec fn fill_cmds(x: i16, y: i16, w: i16, h: i16, color: u16) -> Seq<DrawCommand> {
    if w <= 0 || h <= 0 { Seq::empty() } else { seq![fill_cmd(x, y, w, h, color)] }
}

/// A full-screen fill.
pub open spec fn clear_cmd(color: u16) -> DrawCommand {
    fill_cmd(0, 0, 320, 240, color)
}

/// What `fill_at` sends for a rectangle worked out in 32 bits: each
/// coordinate kept to its low 16 bits.
pub open spec fn fill_at_cmds(x: int, y: int, w: int, h: int, color: u16) -> Seq<DrawCommand> {
    fill_cmds(x as i16, y as i16, w as i16, h as i16, color)
}

/// Fills a rectangle; an empty one is skipped.
pub fn fill_rect<D: DisplaySink>(display: &mut D, x: i16, y: i16, w: i16, h: i16, color: u16)
    ensures
        sent(*old(display), *final(display), fill_cmds(x, y, w, h, color)),
{
    if w <= 0 || h <= 0 {
        proof { lemma_sent_nothing(*display); }
        assert(fill_cmds(x, y, w, h, color) =~= Seq::<DrawCommand>::empty());
        return;
    }
    display.push(DrawCommand::Fill { rect: Rect { x, y, w, h }, color });
    assert(old(display).drawn() + fill_cmds(x, y, w, h, color) =~= old(display).drawn().push(fill_cmd(x, y, w, h, color)));
}

/// Fills the whole screen.
pub fn clear<D: DisplaySink>(display: &mut D, color: u16)
    ensures
        sent(*old(display), *final(display), seq![clear_cmd(color)]),
{
    fill_rect(display, 0, 0, TFT_H_RES, TFT_V_RES, color);
    assert(fill_cmds(0, 0, 320, 240, color) =~= seq![clear_cmd(color)]);
}

/// Copies a bitmap from the asset store at `offset`.
pub fn draw_bitmap<D: DisplaySink>(display: &mut D, x: i16, y: i16, w: u16, h: u16, offset: u32)
    ensures
        sent(*old(display), *final(display), seq![DrawCommand::Bitmap { x, y, w, h, offset }]),
{
    display.push(DrawCommand::Bitmap { x, y, w, h, offset });
    assert(old(display).drawn().push(DrawCommand::Bitmap { x, y, w, h, offset })
        =~= old(display).drawn() + seq![DrawCommand::Bitmap { x, y, w, h, offset }]);
}

/// Ends a frame.
pub fn flush<D: DisplaySink>(display: &mut D)
    ensures
        sent(*old(display), *final(display), seq![DrawCommand::Flush]),
{
    display.push(DrawCommand::Flush);
    assert(old(display).drawn().push(DrawCommand::Flush) =~= old(display).drawn() + seq![DrawCommand::Flush]);
}

/// A display that records every command.
#[derive(Debug, Clone)]
pub struct RecordingDisplay {
    commands: Vec<DrawCommand>,
}

impl RecordingDisplay {
    pub fn new() -> (r: Self)
        ensures
            r.records(),
            r.drawn() == Seq::<DrawCommand>::empty(),
    {
        RecordingDisplay { commands: Vec::new() }
    }

    pub fn commands(&self) -> (r: &[DrawCommand])
        ensures
            r@ == self.drawn(),
    {
        self.commands.as_slice()
    }

    /// Forgets the recorded commands.
    pub fn clear(&mut self)
        ensures
            final(self).records(),
            final(self).drawn() == Seq::<DrawCommand>::empty(),
    {
        self.commands.clear();
    }
}

impl Default for RecordingDisplay {
    fn default() -> (r: Self)
        ensures
            r.records(),
            r.drawn() == Seq::<DrawCommand>::empty(),
    {
        Self::new()
    }
}

impl DisplaySink for RecordingDisplay {
    open spec fn records(&self) -> bool {
        true
    }

    closed spec fn drawn(&self) -> Seq<DrawCommand> {
        self.commands@
    }

    fn push(&mut self, command: DrawCommand) {
        self.commands.push(command);
    }
}


/// `draw_text` at a position worked out in 32 bits, kept to 16 bits.
pub fn text_at<D: DisplaySink>(display: &mut D, x: i32, y: i32, text: &str, color: u16, scale: i16)
    ensures
        sent(*old(display), *final(display), text_at_cmds(x as int, y as int, text@, color, scale)),
{
    #[verifier::truncate]
    let x16 = x as i16;
    #[verifier::truncate]
    let y16 = y as i16;
    draw_text(display, x16, y16, text, color, scale);
}

/// What `centered_text_at` sends: `text` centred in the box of width `w`
/// at `x`, each coordinate kept to its low 16 bits.
pub open spec fn centered_at_cmds(x: int, y: int, w: int, text: Seq<char>, color: u16, scale: i16) -> Seq<DrawCommand> {
    text_cmds(centered_x(x as i16, w as i16, text.len(), scale), y as i16, text, color, norm_scale(scale))
}

/// What `text_at` sends: `text` at a position worked out in 32 bits, each
/// coordinate kept to its low 16 bits.
pub open spec fn text_at_cmds(x: int, y: int, text: Seq<char>, color: u16, scale: i16) -> Seq<DrawCommand> {
    text_cmds(x as i16, y as i16, text, color, scale)
}

/// `draw_centered_text` on a box worked out in 32 bits, kept to 16 bits.
pub fn centered_text_at<D: DisplaySink>(display: &mut D, x: i32, y: i32, w: i32, text: &str, color: u16, scale: i16)
    ensures
        sent(*old(display), *final(display), centered_at_cmds(x as int, y as int, w as int, text@, color, scale)),
{
    #[verifier::truncate]
    let x16 = x as i16;
    #[verifier::truncate]
    let y16 = y as i16;
    #[verifier::truncate]
    let w16 = w as i16;
    draw_centered_text(display, x16, y16, w16, text, color, scale);
}

// ---------------------------------------------------------------------------
// The launcher screens.

/// Draws the launcher's current screen; a menu lists `titles`.
pub fn render_launcher<D: DisplaySink, const N: usize>(
    display: &mut D,
    titles: [&'static str; N],
    view: LauncherView,
    selected: usize,
    home: HomeSnapshot,
)
    ensures
        sent(*old(display), *final(display), frame_cmds(theme::BG, match view {
            LauncherView::Home => home_screen_cmds(home),
            LauncherView::GameMenu | LauncherView::AppMenu => menu_screen_cmds(titles@, selected),
        })),
        sent_frame(*old(display), *final(display), theme::BG),
{
    match view {
        LauncherView::Home => render_home(display, home),
        LauncherView::GameMenu | LauncherView::AppMenu => render_game_menu(display, titles, selected),
    }
}

/// The time as the home screen shows it, or `--:--` before it is known.
pub open spec fn home_time_chars(time: Option<ClockTime>) -> Seq<char> {
    match time {
        Some(t) => clock_chars(t.hour as nat, t.minute as nat),
        None => "--:--"@,
    }
}

/// The date as the home screen shows it, or `---- -- --` before it is known.
pub open spec fn home_date_chars(date: Option<CalendarDate>) -> Seq<char> {
    match date {
        Some(d) => date_chars(d.year as nat, d.month as nat, d.day as nat),
        None => "---- -- --"@,
    }
}

fn draw_home_time<D: DisplaySink>(display: &mut D, time: Option<ClockTime>)
    ensures
        sent(*old(display), *final(display), centered_cmds(24, 94, 272, home_time_chars(time), theme::TEXT, 3)),
{
    match time {
        Some(value) => {
            let text = clock_text(value.hour as u32, value.minute as u32);
            draw_centered_text(display, 24, 94, 272, text.as_str(), theme::TEXT, 3);
        },
        None => {
            draw_centered_text(display, 24, 94, 272, "--:--", theme::TEXT, 3);
        },
    }
}

fn draw_home_date<D: DisplaySink>(display: &mut D, date: Option<CalendarDate>)
    ensures
        sent(*old(display), *final(display), centered_cmds(24, 132, 272, home_date_chars(date), theme::MUTED, 1)),
{
    match date {
        Some(value) => {
            let text = date_text(value.year as u32, value.month as u32, value.day as u32);
            draw_centered_text(display, 24, 132, 272, text.as_str(), theme::MUTED, 1);
        },
        None => {
            draw_centered_text(display, 24, 132, 272, "---- -- --", theme::MUTED, 1);
        },
    }
}

/// What the home screen draws after clearing: the title and the city, the
/// clock panel with the time (`--:--` before it is known) and the date
/// (`---- -- --`), the temperature, the connection status and the menu
/// button.
pub open spec fn home_screen_cmds(home: HomeSnapshot) -> Seq<DrawCommand> {
    centered_cmds(0, 20, TFT_H_RES, "Glebchinskiy Games"@, theme::TEXT, 3)
        + centered_cmds(0, 54, TFT_H_RES, "SAINT PETERSBURG"@, theme::MUTED, 1)
        + fill_cmds(24, 78, 272, 84, theme::HUD)
        + centered_cmds(24, 94, 272, home_time_chars(home.time), theme::TEXT, 3)
        + centered_cmds(24, 132, 272, home_date_chars(home.date), theme::MUTED, 1)
        + temperature_cmds(40, 176, home.temperature_tenths_c)
        + status_cmds(198, 184, home.status)
        + menu_button_cmds(108, 204, true)
}

/// The home screen: title, clock, date, temperature, status and the menu
/// button, as one full frame.
#[verifier::spinoff_prover]
pub fn render_home<D: DisplaySink>(display: &mut D, home: HomeSnapshot)
    ensures
        sent(*old(display), *final(display), frame_cmds(theme::BG, home_screen_cmds(home))),
        sent_frame(*old(display), *final(display), theme::BG),
{
    let ghost d0 = *display;
    clear(display, theme::BG);
    let ghost d1 = *display;
    draw_centered_text(display, 0, 20, TFT_H_RES, "Glebchinskiy Games", theme::TEXT, 3);
    let ghost d2 = *display;
    draw_centered_text(display, 0, 54, TFT_H_RES, "SAINT PETERSBURG", theme::MUTED, 1);
    let ghost d3 = *display;
    fill_rect(display, 24, 78, 272, 84, theme::HUD);
    let ghost d4 = *display;
    draw_home_time(display, home.time);
    let ghost d5 = *display;
    draw_home_date(display, home.date);
    let ghost d6 = *display;
    draw_temperature(display, 40, 176, home);
    let ghost d7 = *display;
    draw_status(display, 198, 184, home.status);
    let ghost d8 = *display;
    draw_menu_button(display, 108, 204, true);
    let ghost d9 = *display;
    flush(display);
    proof {
        let p1 = seq![clear_cmd(theme::BG)];
        let q1 = centered_cmds(0, 20, TFT_H_RES, "Glebchinskiy Games"@, theme::TEXT, 3);
        let q2 = centered_cmds(0, 54, TFT_H_RES, "SAINT PETERSBURG"@, theme::MUTED, 1);
        let q3 = fill_cmds(24, 78, 272, 84, theme::HUD);
        let q4 = centered_cmds(24, 94, 272, home_time_chars(home.time), theme::TEXT, 3);
        let q5 = centered_cmds(24, 132, 272, home_date_chars(home.date), theme::MUTED, 1);
        let q6 = temperature_cmds(40, 176, home.temperature_tenths_c);
        let q7 = status_cmds(198, 184, home.status);
        let q8 = menu_button_cmds(108, 204, true);
        lemma_sent_then(d0, d1, d2, p1, q1);
        lemma_sent_then(d0, d2, d3, p1 + q1, q2);
        lemma_sent_then(d0, d3, d4, p1 + q1 + q2, q3);
        lemma_sent_then(d0, d4, d5, p1 + q1 + q2 + q3, q4);
        lemma_sent_then(d0, d5, d6, p1 + q1 + q2 + q3 + q4, q5);
        lemma_sent_then(d0, d6, d7, p1 + q1 + q2 + q3 + q4 + q5, q6);
        lemma_sent_then(d0, d7, d8, p1 + q1 + q2 + q3 + q4 + q5 + q6, q7);
        lemma_sent_then(d0, d8, d9, p1 + q1 + q2 + q3 + q4 + q5 + q6 + q7, q8);
        lemma_sent_then(d0, d9, *display, p1 + q1 + q2 + q3 + q4 + q5 + q6 + q7 + q8, seq![DrawCommand::Flush]);
        assert(p1 + q1 + q2 + q3 + q4 + q5 + q6 + q7 + q8 + seq![DrawCommand::Flush]
            =~= frame_cmds(theme::BG, home_screen_cmds(home)));
        lemma_frame_cmds(d0, *display, theme::BG, home_screen_cmds(home));
    }
}

/// The top of the first row of a menu of `n` entries: two columns of rows
/// 30 pixels high with 6 pixels between them, centred in the 168 pixels
/// below the title (each step kept to 16 bits as the drawing code does).
pub open spec fn menu_start_y(n: int) -> i16 {
    let rows16 = (n / 2 + n % 2) as i16;
    let content_h = (rows16 as int * 30 + (rows16 as int - 1) * 6) as i16;
    let spare = (168 - content_h as int) as i16;
    let half: int = if spare >= 0 { spare as int / 2 } else { -((-(spare as int)) / 2) };
    (58 + half) as i16
}

/// Entry `i` of the menu: its option row, in the left column for even
/// entries and the right for odd ones, with the game's icon on it.
pub open spec fn menu_entry_cmds(titles: Seq<&'static str>, selected: usize, start_y: i16, i: int) -> Seq<DrawCommand> {
    let x = (63 + (i % 2) * 100) as i16;
    let y = (start_y as int + (i / 2) * 36) as i16;
    option_row_cmds(x, y, 94, ""@, titles[i]@, selected == i)
        + game_icon_cmds((x + 8) as i16, (y + 7) as i16, 16, i as usize, selected == i)
}

/// The first `k` entries of the menu.
pub open spec fn menu_entries_cmds(titles: Seq<&'static str>, selected: usize, start_y: i16, k: int) -> Seq<DrawCommand>
    decreases k,
{
    if k <= 0 {
        Seq::empty()
    } else {
        menu_entries_cmds(titles, selected, start_y, k - 1) + menu_entry_cmds(titles, selected, start_y, k - 1)
    }
}

/// What the game menu draws after clearing: the title, every entry and
/// the two help lines.
pub open spec fn menu_screen_cmds(titles: Seq<&'static str>, selected: usize) -> Seq<DrawCommand> {
    centered_cmds(0, 18, TFT_H_RES, "GAMES"@, theme::TEXT, 2)
        + menu_entries_cmds(titles, selected, menu_start_y(titles.len() as int), titles.len() as int)
        + text_cmds(70, 218, "UDLR OR KNOB SELECT"@, theme::MUTED, 1)
        + text_cmds(70, 230, "PRESS TO OPEN  HOLD TO HOME"@, theme::TEXT, 1)
}

/// The game menu: titles in two columns of option rows, each with its icon,
/// centred vertically, and the help lines, as one full frame.
#[verifier::spinoff_prover]
pub fn render_game_menu<D: DisplaySink, const N: usize>(display: &mut D, titles: [&'static str; N], selected: usize)
    ensures
        sent(*old(display), *final(display), frame_cmds(theme::BG, menu_screen_cmds(titles@, selected))),
        sent_frame(*old(display), *final(display), theme::BG),
{
    // Two columns of 94 pixel rows with a 6 pixel gap, centred on the
    // screen (63 pixels in); rows of 30 pixels with a 6 pixel gap.
    let ghost d0 = *display;
    clear(display, theme::BG);
    draw_centered_text(display, 0, 18, TFT_H_RES, "GAMES", theme::TEXT, 2);
    let ghost d2 = *display;
    let ghost head = seq![clear_cmd(theme::BG)] + centered_cmds(0, 18, TFT_H_RES, "GAMES"@, theme::TEXT, 2);
    proof {
        if d0.records() {
            assert(d2.drawn() =~= d0.drawn() + head);
        }
    }
    let rows: usize = N / 2 + N % 2;
    #[verifier::truncate]
    let rows16 = rows as i16;
    #[verifier::truncate]
    let content_h = (rows16 as i32 * 30 + (rows16 as i32 - 1) * 6) as i16;
    #[verifier::truncate]
    let spare = (168 - content_h as i32) as i16;
    let half: i32 = if spare >= 0 { spare as i32 / 2 } else { -((-(spare as i32)) / 2) };
    #[verifier::truncate]
    let start_y = (58 + half) as i16;
    assert(start_y == menu_start_y(N as int));
    proof { lemma_sent_nothing(d2); }
    let mut index: usize = 0;
    while index < N
        invariant
            index <= N,
            titles@.len() == N,
            start_y == menu_start_y(N as int),
            sent(d2, *display, menu_entries_cmds(titles@, selected, start_y, index as int)),
        decreases N - index,
    {
        let ghost before = *display;
        let col = index % 2;
        let row = index / 2;
        #[verifier::truncate]
        let x = (63 + col as i32 * 100) as i16;
        #[verifier::truncate]
        let y = (start_y as i128 + row as i128 * 36) as i16;
        draw_option_row(display, x, y, 94, "", titles[index], selected == index);
        #[verifier::truncate]
        let ix = (x as i32 + 8) as i16;
        #[verifier::truncate]
        let iy = (y as i32 + 7) as i16;
        draw_game_icon(display, ix, iy, 16, index, selected == index);
        proof {
            if before.records() {
                assert(display.drawn() =~= before.drawn() + menu_entry_cmds(titles@, selected, start_y, index as int));
            }
            lemma_sent_then(d2, before, *display, menu_entries_cmds(titles@, selected, start_y, index as int),
                menu_entry_cmds(titles@, selected, start_y, index as int));
        }
        index += 1;
    }
    let ghost d3 = *display;
    draw_text(display, 70, 218, "UDLR OR KNOB SELECT", theme::MUTED, 1);
    draw_text(display, 70, 230, "PRESS TO OPEN  HOLD TO HOME", theme::TEXT, 1);
    flush(display);
    proof {
        if d0.records() {
            assert(display.drawn() =~= d0.drawn() + frame_cmds(theme::BG, menu_screen_cmds(titles@, selected)));
        }
        lemma_frame_cmds(d0, *display, theme::BG, menu_screen_cmds(titles@, selected));
    }
}

/// A temperature in tenths of a degree as `-12.3C`: a minus sign when below
/// zero, the whole degrees, a point, the tenth and `C`.
pub open spec fn temperature_chars(tenths: i16) -> Seq<char> {
    let v: nat = if tenths < 0 { (-tenths) as nat } else { tenths as nat };
    (if tenths < 0 { seq!['-'] } else { Seq::empty() }) + decimal_chars(v / 10) + seq!['.'] + decimal_chars(v % 10)
        + seq!['C']
}

/// What `draw_temperature` sends: the box, then the temperature or `--.-C`.
pub open spec fn temperature_cmds(x: i16, y: i16, temperature: Option<i16>) -> Seq<DrawCommand> {
    fill_cmds(x, y, 128, 20, theme::HUD) + text_at_cmds(
        x + 12,
        y + 6,
        match temperature {
            Some(tenths) => temperature_chars(tenths),
            None => "--.-C"@,
        },
        theme::TEXT,
        1,
    )
}

/// The characters of ASCII bytes put together are those of each part.
proof fn lemma_ascii_chars_add(a: Seq<u8>, b: Seq<u8>)
    ensures
        ascii_chars(a + b) == ascii_chars(a) + ascii_chars(b),
{
    assert(ascii_chars(a + b) =~= ascii_chars(a) + ascii_chars(b));
}

/// The temperature text, as `temperature_chars` spells it.
fn temperature_text(tenths: i16) -> (r: TextBuffer<12>)
    ensures
        all_ascii(r.text()),
        ascii_chars(r.text()) == temperature_chars(tenths),
{
    let mut text = TextBuffer::<12>::new();
    if tenths < 0 {
        text.push_byte(45);
    }
    let value: u32 = if tenths < 0 { (-(tenths as i32)) as u32 } else { tenths as u32 };
    let ghost sign: Seq<u8> = if tenths < 0 { seq![45u8] } else { Seq::empty() };
    let ghost whole = decimal(value as nat / 10);
    let ghost tenth = decimal(value as nat % 10);
    proof {
        assert(value <= 32768);
        assert(pow10(4) == 10000) by { reveal_with_fuel(pow10, 5); }
        lemma_decimal_digits(value as nat / 10, 4);
        assert(tenth == seq![(48 + value % 10) as u8]);
        assert(zero_padded(value as nat / 10, 0) == whole);
        assert(zero_padded(value as nat % 10, 1) == tenth);
        assert(text.text() =~= sign) by {
            if tenths < 0 {
                assert(seq![45u8].take(1) =~= seq![45u8]);
            }
        }
    }
    text.write_u32(value / 10, 0);
    assert(text.text() =~= sign + whole) by {
        assert(whole.take(whole.len() as int) =~= whole);
    }
    text.push_byte(46);
    assert(text.text() =~= sign + whole + seq![46u8]) by {
        assert(seq![46u8].take(1) =~= seq![46u8]);
    }
    text.write_u32(value % 10, 1);
    assert(text.text() =~= sign + whole + seq![46u8] + tenth) by {
        assert(tenth.take(1) =~= tenth);
    }
    text.push_byte(67);
    proof {
        let t = text.text();
        assert(t =~= sign + whole + seq![46u8] + tenth + seq![67u8]) by {
            assert(seq![67u8].take(1) =~= seq![67u8]);
        }
        assert forall|i: int| 0 <= i < t.len() implies #[trigger] t[i] < 128 by {
            let k = i - sign.len();
            if 0 <= k < whole.len() {
                assert(t[i] == whole[k]);
            }
        }
        lemma_ascii_chars_add(sign, whole);
        lemma_ascii_chars_add(sign + whole, seq![46u8]);
        lemma_ascii_chars_add(sign + whole + seq![46u8], tenth);
        lemma_ascii_chars_add(sign + whole + seq![46u8] + tenth, seq![67u8]);
        assert(ascii_chars(sign) =~= (if tenths < 0 { seq!['-'] } else { Seq::<char>::empty() }));
        assert(ascii_chars(seq![46u8]) =~= seq!['.']);
        assert(ascii_chars(seq![67u8]) =~= seq!['C']);
        let v: nat = if tenths < 0 { (-tenths) as nat } else { tenths as nat };
        assert(v == value);
    }
    text
}

/// The temperature box: tenths of a degree as `-12.3C`, or `--.-C`.
fn draw_temperature<D: DisplaySink>(display: &mut D, x: i16, y: i16, home: HomeSnapshot)
    ensures
        sent(*old(display), *final(display), temperature_cmds(x, y, home.temperature_tenths_c)),
{
    broadcast use lemma_sent_chain;
    fill_rect(display, x, y, 128, 20, theme::HUD);
    match home.temperature_tenths_c {
        Some(tenths) => {
            let text = temperature_text(tenths);
            text_at(display, x as i32 + 12, y as i32 + 6, text.as_str(), theme::TEXT, 1);
        },
        None => {
            text_at(display, x as i32 + 12, y as i32 + 6, "--.-C", theme::TEXT, 1);
        },
    }
}

/// What `draw_status` sends: a green square when online, else an accent
/// one, and the status label beside it.
pub open spec fn status_cmds(x: i16, y: i16, status: HomeStatus) -> Seq<DrawCommand> {
    fill_at_cmds(x as int, y + 3, 8, 8, if status == HomeStatus::Ready { theme::GOOD } else { theme::ACCENT })
        + text_at_cmds(x + 16, y + 4, spec_status_label(status), theme::MUTED, 1)
}

/// The connection status: a green square when online, else an accent one,
/// and its label.
fn draw_status<D: DisplaySink>(display: &mut D, x: i16, y: i16, status: HomeStatus)
    ensures
        sent(*old(display), *final(display), status_cmds(x, y, status)),
{
    broadcast use lemma_sent_chain;
    let color = if status == HomeStatus::Ready { theme::GOOD } else { theme::ACCENT };
    fill_at(display, x as i32, y as i32 + 3, 8, 8, color);
    text_at(display, x as i32 + 16, y as i32 + 4, status.label(), theme::MUTED, 1);
}

/// What `draw_game_icon` sends: the `size` square on the grid colour, then
/// the picture of game `index` (a flag, a snake, a 2048 tile, a falling
/// piece, or a pipe for any other), in the text colour when selected.
pub open spec fn game_icon_cmds(x: i16, y: i16, size: i16, index: usize, selected: bool) -> Seq<DrawCommand> {
    fill_at_cmds(x as int, y as int, size as int, size as int, theme::GRID) + icon_picture_cmds(x, y, size, index, selected)
}

/// The picture part of `game_icon_cmds`, drawn over the square.
pub open spec fn icon_picture_cmds(x: i16, y: i16, size: i16, index: usize, selected: bool) -> Seq<DrawCommand> {
    let fg = if selected { theme::TEXT } else { theme::MUTED };
    let s = size as int;
    let x = x as int;
    let y = y as int;
    if index == 0 {
        fill_at_cmds(x + s / 5, y + s / 5, s / 10, 3 * s / 5, fg)
            + fill_at_cmds(x + 3 * s / 10, y + s / 5, s / 2, s / 5, theme::ACCENT)
            + fill_at_cmds(x + 3 * s / 10, y + 2 * s / 5, s / 2, s / 5, theme::TEXT)
            + fill_at_cmds(x + 3 * s / 10, y + 3 * s / 5, s / 2, s / 5, theme::BAD)
    } else if index == 1 {
        fill_at_cmds(x + s / 5, y + s / 2, s / 5, s / 5, theme::SNAKE)
            + fill_at_cmds(x + 2 * s / 5, y + s / 2, s / 5, s / 5, theme::SNAKE)
            + fill_at_cmds(x + 3 * s / 5, y + 3 * s / 10, s / 4, 2 * s / 5, theme::HEAD)
            + fill_at_cmds(x + s / 4, y + s / 4, s / 6, s / 6, theme::APPLE)
    } else if index == 2 {
        fill_at_cmds(x + s / 5, y + s / 5, 3 * s / 5, 3 * s / 5, theme::ACCENT)
            + text_at_cmds(x + s / 4, y + 7 * s / 20, "2"@, theme::BG, 1)
    } else if index == 3 {
        fill_at_cmds(x + 3 * s / 10, y + s / 5, s / 5, s / 5, theme::GOOD)
            + fill_at_cmds(x + 3 * s / 10, y + 2 * s / 5, s / 5, s / 5, theme::GOOD)
            + fill_at_cmds(x + 3 * s / 10, y + 3 * s / 5, s / 5, s / 5, theme::GOOD)
            + fill_at_cmds(x + s / 2, y + 3 * s / 5, s / 5, s / 5, theme::GOOD)
    } else {
        fill_at_cmds(x + 3 * s / 20, y + 7 * s / 20, 7 * s / 10, 2 * s / 5, fg)
            + fill_at_cmds(x + s / 4, y + 11 * s / 20, s / 5, s / 5, theme::BG)
            + fill_at_cmds(x + 3 * s / 20, y + s / 4, 7 * s / 20, 3 * s / 20, fg)
            + fill_at_cmds(x + s / 2, y + s / 4, 7 * s / 20, 3 * s / 20, fg)
            + fill_at_cmds(x + s / 2, y + 3 * s / 10, s / 5, s / 10, fg)
    }
}

/// A small picture for each game of the menu, drawn in a `size` square.
#[verifier::spinoff_prover]
pub fn draw_game_icon<D: DisplaySink>(display: &mut D, x: i16, y: i16, size: i16, index: usize, selected: bool)
    requires
        0 <= size <= 1000,
    ensures
        sent(*old(display), *final(display), game_icon_cmds(x, y, size, index, selected)),
{
    let ghost d0 = *display;
    let fg = if selected { theme::TEXT } else { theme::MUTED };
    let s: i32 = size as i32;
    let x: i32 = x as i32;
    let y: i32 = y as i32;
    fill_at(display, x, y, s, s, theme::GRID);
    let ghost d1 = *display;
    let ghost xi = x as i16;
    let ghost yi = y as i16;
    if index == 0 {
        fill_at(display, x + s / 5, y + s / 5, s / 10, 3 * s / 5, fg);
        fill_at(display, x + 3 * s / 10, y + s / 5, s / 2, s / 5, theme::ACCENT);
        fill_at(display, x + 3 * s / 10, y + 2 * s / 5, s / 2, s / 5, theme::TEXT);
        fill_at(display, x + 3 * s / 10, y + 3 * s / 5, s / 2, s / 5, theme::BAD);
        proof {
            if d1.records() {
                assert(display.drawn() =~= d1.drawn() + icon_picture_cmds(xi, yi, size, index, selected));
            }
        }
    } else if index == 1 {
        fill_at(display, x + s / 5, y + s / 2, s / 5, s / 5, theme::SNAKE);
        fill_at(display, x + 2 * s / 5, y + s / 2, s / 5, s / 5, theme::SNAKE);
        fill_at(display, x + 3 * s / 5, y + 3 * s / 10, s / 4, 2 * s / 5, theme::HEAD);
        fill_at(display, x + s / 4, y + s / 4, s / 6, s / 6, theme::APPLE);
        proof {
            if d1.records() {
                assert(display.drawn() =~= d1.drawn() + icon_picture_cmds(xi, yi, size, index, selected));
            }
        }
    } else if index == 2 {
        fill_at(display, x + s / 5, y + s / 5, 3 * s / 5, 3 * s / 5, theme::ACCENT);
        text_at(display, x + s / 4, y + 7 * s / 20, "2", theme::BG, 1);
        proof {
            if d1.records() {
                assert(display.drawn() =~= d1.drawn() + icon_picture_cmds(xi, yi, size, index, selected));
            }
        }
    } else if index == 3 {
        fill_at(display, x + 3 * s / 10, y + s / 5, s / 5, s / 5, theme::GOOD);
        fill_at(display, x + 3 * s / 10, y + 2 * s / 5, s / 5, s / 5, theme::GOOD);
        fill_at(display, x + 3 * s / 10, y + 3 * s / 5, s / 5, s / 5, theme::GOOD);
        fill_at(display, x + s / 2, y + 3 * s / 5, s / 5, s / 5, theme::GOOD);
        proof {
            if d1.records() {
                assert(display.drawn() =~= d1.drawn() + icon_picture_cmds(xi, yi, size, index, selected));
            }
        }
    } else {
        fill_at(display, x + 3 * s / 20, y + 7 * s / 20, 7 * s / 10, 2 * s / 5, fg);
        fill_at(display, x + s / 4, y + 11 * s / 20, s / 5, s / 5, theme::BG);
        fill_at(display, x + 3 * s / 20, y + s / 4, 7 * s / 20, 3 * s / 20, fg);
        fill_at(display, x + s / 2, y + s / 4, 7 * s / 20, 3 * s / 20, fg);
        fill_at(display, x + s / 2, y + 3 * s / 10, s / 5, s / 10, fg);
        proof {
            if d1.records() {
                assert(display.drawn() =~= d1.drawn() + icon_picture_cmds(xi, yi, size, index, selected));
            }
        }
    }
    proof {
        lemma_sent_then(d0, d1, *display, fill_at_cmds(x as int, y as int, s as int, s as int, theme::GRID),
            icon_picture_cmds(xi, yi, size, index, selected));
    }
}

/// `fill_rect` on coordinates worked out in 32 bits, kept to 16 bits.
pub fn fill_at<D: DisplaySink>(display: &mut D, x: i32, y: i32, w: i32, h: i32, color: u16)
    ensures
        sent(*old(display), *final(display), fill_at_cmds(x as int, y as int, w as int, h as int, color)),
{
    #[verifier::truncate]
    let x16 = x as i16;
    #[verifier::truncate]
    let y16 = y as i16;
    #[verifier::truncate]
    let w16 = w as i16;
    #[verifier::truncate]
    let h16 = h as i16;
    fill_rect(display, x16, y16, w16, h16, color);
}

} // verus!
