use vstd::prelude::*;
use crate::config::{spec_wrap_index, wrap_index, Direction, MENU_COLS};
use crate::input::InputFrame;

verus! {

#[derive(Debug, Clone, Copy, PartialEq, Eq, Structural)]
pub enum LauncherView {
    Home,
    GameMenu,
    AppMenu,
}

#[derive(Debug, Clone, Copy, PartialEq, Eq, Structural)]
pub enum HomeSelection {
    Games,
    Apps,
}

#[derive(Debug, Clone, Copy, PartialEq, Eq, Structural)]
pub enum LauncherAction {
    Nothing,
    Redraw,
    EnterGame(usize),
    EnterApp(usize),
    GoHome,
}

#[derive(Debug, Clone, Copy, PartialEq, Eq, Structural)]
pub struct ClockTime {
    pub hour: u8,
    pub minute: u8,
}

impl ClockTime {
    pub fn new(hour: u8, minute: u8) -> (r: Self)
        ensures
            r.hour == hour,
            r.minute == minute,
    {
        ClockTime { hour, minute }
    }
}

#[derive(Debug, Clone, Copy, PartialEq, Eq, Structural)]
pub struct CalendarDate {
    pub year: u16,
    pub month: u8,
    pub day: u8,
}

impl CalendarDate {
    pub fn new(year: u16, month: u8, day: u8) -> (r: Self)
        ensures
            r.year == year,
            r.month == month,
            r.day == day,
    {
        CalendarDate { year, month, day }
    }
}

#[derive(Debug, Clone, Copy, PartialEq, Eq, Structural)]
pub enum HomeStatus {
    Ready,
    Wifi,
    Time,
    Weather,
}

pub open spec fn spec_status_label(status: HomeStatus) -> Seq<char> {
    match status {
        HomeStatus::Ready => "ONLINE"@,
        HomeStatus::Wifi => "WIFI"@,
        HomeStatus::Time => "TIME"@,
        HomeStatus::Weather => "WEATHER"@,
    }
}

impl HomeStatus {
    pub fn label(self) -> (r: &'static str)
        ensures
            r@ == spec_status_label(self),
    {
        match self {
            HomeStatus::Ready => "ONLINE",
            HomeStatus::Wifi => "WIFI",
            HomeStatus::Time => "TIME",
            HomeStatus::Weather => "WEATHER",
        }
    }
}

/// What the home screen shows.
#[derive(Debug, Clone, Copy, PartialEq, Eq, Structural)]
pub struct HomeSnapshot {
    pub time: Option<ClockTime>,
    pub date: Option<CalendarDate>,
    pub temperature_tenths_c: Option<i16>,
    pub status: HomeStatus,
}

impl HomeSnapshot {
    /// Nothing known yet, waiting for Wi-Fi.
    pub fn placeholders() -> (r: Self)
        ensures
            r == (HomeSnapshot { time: None, date: None, temperature_tenths_c: None, status: HomeStatus::Wifi }),
    {
        HomeSnapshot { time: None, date: None, temperature_tenths_c: None, status: HomeStatus::Wifi }
    }
}

impl Default for HomeSnapshot {
    fn default() -> (r: Self)
        ensures
            r == (HomeSnapshot { time: None, date: None, temperature_tenths_c: None, status: HomeStatus::Wifi }),
    {
        Self::placeholders()
    }
}

/// The abstract state of the launcher.
pub struct LauncherState {
    pub home_selection: HomeSelection,
    pub game_selected: usize,
    pub app_selected: usize,
    pub view: LauncherView,
    pub last_direction_us: i64,
    pub direction_repeat_us: i64,
}

/// Entries in the menu of a view.
pub open spec fn count_for(view: LauncherView, games: nat, apps: nat) -> nat {
    if view == LauncherView::AppMenu { apps } else { games }
}

pub open spec fn selected_for(s: LauncherState) -> usize {
    if s.view == LauncherView::AppMenu { s.app_selected } else { s.game_selected }
}

/// The state with the current menu's cursor at `v`.
pub open spec fn with_selected(s: LauncherState, v: usize) -> LauncherState {
    if s.view == LauncherView::AppMenu {
        LauncherState { app_selected: v, ..s }
    } else {
        LauncherState { game_selected: v, ..s }
    }
}

/// The last entry of column `col` in a two-column menu of `count` entries.
pub open spec fn spec_column_bottom(col: int, count: int) -> int {
    let rows = (count + 1) / 2;
    let idx = (rows - 1) * 2 + col;
    if idx < count { idx } else { idx - 2 }
}

pub open spec fn spec_move_up(sel: int, count: int) -> int {
    if sel >= 2 { sel - 2 } else { spec_column_bottom(sel % 2, count) }
}

pub open spec fn spec_move_down(sel: int, count: int) -> int {
    if sel < spec_column_bottom(sel % 2, count) { sel + 2 } else { sel % 2 }
}

pub open spec fn spec_move_left(sel: int, count: int) -> int {
    if sel % 2 == 0 {
        if sel + 1 < count { sel + 1 } else { sel }
    } else {
        sel - 1
    }
}

pub open spec fn spec_move_right(sel: int, count: int) -> int {
    if sel % 2 == 1 {
        sel - 1
    } else if sel + 1 < count {
        sel + 1
    } else {
        sel
    }
}

/// The launcher after one frame of input on the home screen.
pub open spec fn spec_home_update(s: LauncherState, input: InputFrame, now: i64) -> (LauncherState, LauncherAction) {
    let toggled = if input.encoder.detents != 0 { toggle(s.home_selection) } else { s.home_selection };
    let repeat_ok = input.joystick.has_direction && now - s.last_direction_us >= s.direction_repeat_us;
    let (sel, last, moved) = if repeat_ok {
        match input.joystick.direction {
            Some(Direction::Left) => (HomeSelection::Games, now, toggled != HomeSelection::Games),
            Some(Direction::Right) => (HomeSelection::Apps, now, toggled != HomeSelection::Apps),
            Some(_) => (toggle(toggled), now, true),
            None => (toggled, s.last_direction_us, false),
        }
    } else {
        (toggled, s.last_direction_us, false)
    };
    let changed = input.encoder.detents != 0 || moved;
    let s1 = LauncherState { home_selection: sel, last_direction_us: last, ..s };
    if input.joystick.switch_pressed || input.encoder.switch_pressed {
        (LauncherState {
            view: if sel == HomeSelection::Games { LauncherView::GameMenu } else { LauncherView::AppMenu },
            ..s1
        }, LauncherAction::Redraw)
    } else {
        (s1, if changed { LauncherAction::Redraw } else { LauncherAction::Nothing })
    }
}

pub open spec fn toggle(h: HomeSelection) -> HomeSelection {
    if h == HomeSelection::Games { HomeSelection::Apps } else { HomeSelection::Games }
}

/// The launcher after one frame of input in a menu with `count` entries.
pub open spec fn spec_menu_update(s: LauncherState, input: InputFrame, now: i64, count: int) -> (LauncherState, LauncherAction) {
    if input.joystick.switch_long_pressed || input.encoder.switch_long_pressed {
        (LauncherState { view: LauncherView::Home, ..s }, LauncherAction::GoHome)
    } else if input.joystick.switch_pressed || input.encoder.switch_pressed {
        if selected_for(s) == count - 1 {
            (LauncherState { view: LauncherView::Home, ..s }, LauncherAction::GoHome)
        } else if s.view == LauncherView::GameMenu {
            (s, LauncherAction::EnterGame(s.game_selected))
        } else {
            (s, LauncherAction::EnterApp(s.app_selected))
        }
    } else {
        let s1 = if input.encoder.detents != 0 {
            with_selected(s, spec_wrap_index(selected_for(s) + input.encoder.detents, count) as usize)
        } else {
            s
        };
        let repeat_ok = input.joystick.has_direction && now - s1.last_direction_us >= s1.direction_repeat_us;
        let sel = selected_for(s1) as int;
        let (s2, moved) = if repeat_ok && input.joystick.direction is Some {
            let next = match input.joystick.direction.unwrap() {
                Direction::Up => spec_move_up(sel, count),
                Direction::Down => spec_move_down(sel, count),
                Direction::Left => spec_move_left(sel, count),
                Direction::Right => spec_move_right(sel, count),
            };
            (LauncherState { last_direction_us: now, ..with_selected(s1, next as usize) }, true)
        } else {
            (s1, false)
        };
        (s2, if input.encoder.detents != 0 || moved { LauncherAction::Redraw } else { LauncherAction::Nothing })
    }
}

/// The most entries a menu may hold: an index must fit in `i32` for the
/// knob's wrapping arithmetic.
pub const MAX_MENU_ENTRIES: usize = 0x7FFF_FFFF;

/// Cursors stay inside their menus.
pub open spec fn launcher_valid(s: LauncherState, games: nat, apps: nat) -> bool {
    &&& 1 <= games <= MAX_MENU_ENTRIES
    &&& 1 <= apps <= MAX_MENU_ENTRIES
    &&& s.game_selected < games
    &&& s.app_selected < apps
}

/// The home screen and the two menus of games and apps.
#[derive(Debug, Clone)]
pub struct Launcher<const G: usize, const A: usize> {
    game_titles: [&'static str; G],
    app_titles: [&'static str; A],
    home_selection: HomeSelection,
    game_selected: usize,
    app_selected: usize,
    view: LauncherView,
    last_direction_us: i64,
    direction_repeat_us: i64,
}

impl<const G: usize, const A: usize> Launcher<G, A> {
    /// The abstract state (the titles aside).
    pub closed spec fn state(&self) -> LauncherState {
        LauncherState {
            home_selection: self.home_selection,
            game_selected: self.game_selected,
            app_selected: self.app_selected,
            view: self.view,
            last_direction_us: self.last_direction_us,
            direction_repeat_us: self.direction_repeat_us,
        }
    }
}

impl<const G: usize, const A: usize> Launcher<G, A> {
    pub closed spec fn game_count(&self) -> nat {
        self.game_titles@.len()
    }

    pub closed spec fn app_count(&self) -> nat {
        self.app_titles@.len()
    }

    pub closed spec fn game_title(&self, i: int) -> Seq<char> {
        self.game_titles@[i]@
    }

    pub closed spec fn app_title(&self, i: int) -> Seq<char> {
        self.app_titles@[i]@
    }

    /// The home screen with the first game and app under the cursors.
    pub fn new(game_titles: [&'static str; G], app_titles: [&'static str; A]) -> (r: Self)
        requires
            1 <= G <= MAX_MENU_ENTRIES,
            1 <= A <= MAX_MENU_ENTRIES,
        ensures
            r.state() == (LauncherState {
                home_selection: HomeSelection::Games,
                game_selected: 0,
                app_selected: 0,
                view: LauncherView::Home,
                last_direction_us: 0,
                direction_repeat_us: 250_000,
            }),
            r.game_count() == G,
            r.app_count() == A,
            forall|i: int| 0 <= i < G ==> #[trigger] r.game_title(i) == game_titles@[i]@,
            forall|i: int| 0 <= i < A ==> #[trigger] r.app_title(i) == app_titles@[i]@,
            launcher_valid(r.state(), r.game_count(), r.app_count()),
    {
        Launcher {
            game_titles,
            app_titles,
            home_selection: HomeSelection::Games,
            game_selected: 0,
            app_selected: 0,
            view: LauncherView::Home,
            last_direction_us: 0,
            direction_repeat_us: 250_000,
        }
    }

    /// One frame of input: on the home screen the knob and stick choose
    /// games or apps and a press opens the menu; in a menu they move the
    /// cursor, a press enters the entry (the last entry goes home) and a long
    /// press goes home.
    pub fn update(&mut self, input: InputFrame, now_us: i64) -> (action: LauncherAction)
        requires
            launcher_valid(old(self).state(), old(self).game_count(), old(self).app_count()),
            old(self).state().view != LauncherView::Home && input.encoder.detents != 0
                && !(input.joystick.switch_long_pressed || input.encoder.switch_long_pressed)
                && !(input.joystick.switch_pressed || input.encoder.switch_pressed)
                ==> selected_for(old(self).state()) + input.encoder.detents <= i32::MAX,
        ensures
            launcher_valid(final(self).state(), final(self).game_count(), final(self).app_count()),
            final(self).game_count() == old(self).game_count(),
            final(self).app_count() == old(self).app_count(),
            (final(self).state(), action) == if old(self).state().view == LauncherView::Home {
                spec_home_update(old(self).state(), input, now_us)
            } else {
                spec_menu_update(old(self).state(), input, now_us,
                    count_for(old(self).state().view, old(self).game_count(), old(self).app_count()) as int)
            },
    {
        if self.view == LauncherView::Home {
            let mut changed = false;
            if input.encoder.detents != 0 {
                self.toggle_home_selection();
                changed = true;
            }
            if input.joystick.has_direction
                && (now_us as i128) - (self.last_direction_us as i128) >= self.direction_repeat_us as i128 {
                match input.joystick.direction {
                    Some(Direction::Left) => {
                        changed = self.select_home(HomeSelection::Games) || changed;
                        self.last_direction_us = now_us;
                    },
                    Some(Direction::Right) => {
                        changed = self.select_home(HomeSelection::Apps) || changed;
                        self.last_direction_us = now_us;
                    },
                    Some(_) => {
                        self.toggle_home_selection();
                        changed = true;
                        self.last_direction_us = now_us;
                    },
                    None => {},
                }
            }
            if input.joystick.switch_pressed || input.encoder.switch_pressed {
                self.view = match self.home_selection {
                    HomeSelection::Games => LauncherView::GameMenu,
                    HomeSelection::Apps => LauncherView::AppMenu,
                };
                return LauncherAction::Redraw;
            }
            return if changed { LauncherAction::Redraw } else { LauncherAction::Nothing };
        }
        if input.joystick.switch_long_pressed || input.encoder.switch_long_pressed {
            self.view = LauncherView::Home;
            return LauncherAction::GoHome;
        }
        if input.joystick.switch_pressed || input.encoder.switch_pressed {
            if self.selected_index() == self.current_count() - 1 {
                self.view = LauncherView::Home;
                return LauncherAction::GoHome;
            }
            return match self.view {
                LauncherView::GameMenu => LauncherAction::EnterGame(self.game_selected),
                LauncherView::AppMenu => LauncherAction::EnterApp(self.app_selected),
                LauncherView::Home => LauncherAction::Nothing,
            };
        }
        let mut changed = false;
        if input.encoder.detents != 0 {
            self.cycle(input.encoder.detents);
            changed = true;
        }
        if input.joystick.has_direction
            && (now_us as i128) - (self.last_direction_us as i128) >= self.direction_repeat_us as i128 {
            match input.joystick.direction {
                Some(Direction::Up) => {
                    self.move_up();
                    self.last_direction_us = now_us;
                    changed = true;
                },
                Some(Direction::Down) => {
                    self.move_down();
                    self.last_direction_us = now_us;
                    changed = true;
                },
                Some(Direction::Left) => {
                    self.move_left();
                    self.last_direction_us = now_us;
                    changed = true;
                },
                Some(Direction::Right) => {
                    self.move_right();
                    self.last_direction_us = now_us;
                    changed = true;
                },
                None => {},
            }
        }
        if changed { LauncherAction::Redraw } else { LauncherAction::Nothing }
    }

    /// Moves the cursor one row up, from the top to the bottom of the column.
    pub fn move_up(&mut self)
        requires
            launcher_valid(old(self).state(), old(self).game_count(), old(self).app_count()),
        ensures
            launcher_valid(final(self).state(), final(self).game_count(), final(self).app_count()),
            final(self).game_count() == old(self).game_count(),
            final(self).app_count() == old(self).app_count(),
            final(self).state() == with_selected(old(self).state(), spec_move_up(selected_for(old(self).state()) as int,
                count_for(old(self).state().view, old(self).game_count(), old(self).app_count()) as int) as usize),
    {
        let count = self.current_count();
        let selected = self.selected_index();
        let next = if selected >= MENU_COLS { selected - MENU_COLS } else { column_bottom(selected % MENU_COLS, count) };
        self.set_selected(next);
    }

    /// Moves the cursor one row down, from the bottom to the top of the
    /// column.
    pub fn move_down(&mut self)
        requires
            launcher_valid(old(self).state(), old(self).game_count(), old(self).app_count()),
        ensures
            launcher_valid(final(self).state(), final(self).game_count(), final(self).app_count()),
            final(self).game_count() == old(self).game_count(),
            final(self).app_count() == old(self).app_count(),
            final(self).state() == with_selected(old(self).state(), spec_move_down(selected_for(old(self).state()) as int,
                count_for(old(self).state().view, old(self).game_count(), old(self).app_count()) as int) as usize),
    {
        let count = self.current_count();
        let selected = self.selected_index();
        let col = selected % MENU_COLS;
        let bottom = column_bottom(col, count);
        let next = if selected < bottom { selected + MENU_COLS } else { col };
        self.set_selected(next);
    }

    /// Moves the cursor to the other column of its row, if that entry exists.
    pub fn move_left(&mut self)
        requires
            launcher_valid(old(self).state(), old(self).game_count(), old(self).app_count()),
        ensures
            launcher_valid(final(self).state(), final(self).game_count(), final(self).app_count()),
            final(self).game_count() == old(self).game_count(),
            final(self).app_count() == old(self).app_count(),
            final(self).state() == with_selected(old(self).state(), spec_move_left(selected_for(old(self).state()) as int,
                count_for(old(self).state().view, old(self).game_count(), old(self).app_count()) as int) as usize),
    {
        let count = self.current_count();
        let selected = self.selected_index();
        let next = if selected % MENU_COLS == 0 {
            let target = selected + MENU_COLS - 1;
            if target < count { target } else { selected }
        } else {
            selected - 1
        };
        self.set_selected(next);
    }

    /// Moves the cursor to the other column of its row, if that entry exists.
    pub fn move_right(&mut self)
        requires
            launcher_valid(old(self).state(), old(self).game_count(), old(self).app_count()),
        ensures
            launcher_valid(final(self).state(), final(self).game_count(), final(self).app_count()),
            final(self).game_count() == old(self).game_count(),
            final(self).app_count() == old(self).app_count(),
            final(self).state() == with_selected(old(self).state(), spec_move_right(selected_for(old(self).state()) as int,
                count_for(old(self).state().view, old(self).game_count(), old(self).app_count()) as int) as usize),
    {
        let count = self.current_count();
        let selected = self.selected_index();
        let next = if selected % MENU_COLS == MENU_COLS - 1 {
            let target = selected + 1 - MENU_COLS;
            if target < count { target } else { selected }
        } else {
            let target = selected + 1;
            if target < count { target } else { selected }
        };
        self.set_selected(next);
    }

    /// Turns the cursor by `detents` entries, wrapping around the menu.
    pub fn cycle(&mut self, detents: i32)
        requires
            launcher_valid(old(self).state(), old(self).game_count(), old(self).app_count()),
            selected_for(old(self).state()) + detents <= i32::MAX,
        ensures
            launcher_valid(final(self).state(), final(self).game_count(), final(self).app_count()),
            final(self).game_count() == old(self).game_count(),
            final(self).app_count() == old(self).app_count(),
            final(self).state() == with_selected(old(self).state(), spec_wrap_index(selected_for(old(self).state()) + detents,
                count_for(old(self).state().view, old(self).game_count(), old(self).app_count()) as int) as usize),
    {
        let count = self.current_count();
        let selected = self.selected_index();
        let next = wrap_index(selected as i32 + detents, count as i32) as usize;
        self.set_selected(next);
    }

    /// The cursor of the current menu (the game menu's on the home screen).
    pub fn selected_index(&self) -> (r: usize)
        ensures
            r == selected_for(self.state()),
    {
        match self.view {
            LauncherView::AppMenu => self.app_selected,
            _ => self.game_selected,
        }
    }

    /// The title under the cursor of the current menu.
    pub fn selected_title(&self) -> (r: &'static str)
        requires
            launcher_valid(self.state(), self.game_count(), self.app_count()),
        ensures
            self.state().view == LauncherView::AppMenu ==> r@ == self.app_title(self.state().app_selected as int),
            self.state().view != LauncherView::AppMenu ==> r@ == self.game_title(self.state().game_selected as int),
    {
        match self.view {
            LauncherView::AppMenu => self.app_titles[self.app_selected],
            _ => self.game_titles[self.game_selected],
        }
    }

    pub fn home_selection(&self) -> (r: HomeSelection)
        ensures
            r == self.state().home_selection,
    {
        self.home_selection
    }

    pub fn view(&self) -> (r: LauncherView)
        ensures
            r == self.state().view,
    {
        self.view
    }

    pub fn show_home(&mut self)
        ensures
            final(self).state() == (LauncherState { view: LauncherView::Home, ..old(self).state() }),
            final(self).game_count() == old(self).game_count(),
            final(self).app_count() == old(self).app_count(),
    {
        self.view = LauncherView::Home;
    }

    pub fn show_game_menu(&mut self)
        ensures
            final(self).state() == (LauncherState { view: LauncherView::GameMenu, ..old(self).state() }),
            final(self).game_count() == old(self).game_count(),
            final(self).app_count() == old(self).app_count(),
    {
        self.view = LauncherView::GameMenu;
    }

    pub fn show_app_menu(&mut self)
        ensures
            final(self).state() == (LauncherState { view: LauncherView::AppMenu, ..old(self).state() }),
            final(self).game_count() == old(self).game_count(),
            final(self).app_count() == old(self).app_count(),
    {
        self.view = LauncherView::AppMenu;
    }

    /// Puts the game-menu cursor on entry `index`.
    pub fn set_game_selected(&mut self, index: usize)
        requires
            index < old(self).game_count(),
        ensures
            final(self).state() == (LauncherState { game_selected: index, ..old(self).state() }),
            final(self).game_count() == old(self).game_count(),
            final(self).app_count() == old(self).app_count(),
    {
        self.game_selected = index;
    }

    /// Puts the app-menu cursor on entry `index`.
    pub fn set_app_selected(&mut self, index: usize)
        requires
            index < old(self).app_count(),
        ensures
            final(self).state() == (LauncherState { app_selected: index, ..old(self).state() }),
            final(self).game_count() == old(self).game_count(),
            final(self).app_count() == old(self).app_count(),
    {
        self.app_selected = index;
    }

    fn toggle_home_selection(&mut self)
        ensures
            final(self).state() == (LauncherState { home_selection: toggle(old(self).state().home_selection), ..old(self).state() }),
            final(self).game_count() == old(self).game_count(),
            final(self).app_count() == old(self).app_count(),
    {
        self.home_selection = match self.home_selection {
            HomeSelection::Games => HomeSelection::Apps,
            HomeSelection::Apps => HomeSelection::Games,
        };
    }

    fn select_home(&mut self, selection: HomeSelection) -> (r: bool)
        ensures
            r == (old(self).state().home_selection != selection),
            final(self).state() == (LauncherState { home_selection: selection, ..old(self).state() }),
            final(self).game_count() == old(self).game_count(),
            final(self).app_count() == old(self).app_count(),
    {
        let changed = self.home_selection != selection;
        self.home_selection = selection;
        changed
    }

    fn current_count(&self) -> (r: usize)
        ensures
            r == count_for(self.state().view, self.game_count(), self.app_count()),
    {
        match self.view {
            LauncherView::AppMenu => A,
            _ => G,
        }
    }

    fn set_selected(&mut self, v: usize)
        requires
            v < count_for(old(self).state().view, old(self).game_count(), old(self).app_count()),
            launcher_valid(old(self).state(), old(self).game_count(), old(self).app_count()),
        ensures
            final(self).state() == with_selected(old(self).state(), v),
            final(self).game_count() == old(self).game_count(),
            final(self).app_count() == old(self).app_count(),
            launcher_valid(final(self).state(), final(self).game_count(), final(self).app_count()),
    {
        match self.view {
            LauncherView::AppMenu => self.app_selected = v,
            _ => self.game_selected = v,
        }
    }
}

/// The last entry of column `col` in a two-column menu of `count` entries.
pub fn column_bottom(col: usize, count: usize) -> (r: usize)
    requires
        col < MENU_COLS,
        1 <= count,
        col < count,
        count <= MAX_MENU_ENTRIES,
    ensures
        r == spec_column_bottom(col as int, count as int),
        r < count,
        r % 2 == col,
{
    let rows = (count + MENU_COLS - 1) / MENU_COLS;
    let row = rows - 1;
    let idx = row * MENU_COLS + col;
    proof {
        assert(rows * 2 <= count + 1) by {
            vstd::arithmetic::div_mod::lemma_fundamental_div_mod((count + 1) as int, 2);
        }
        assert(rows * 2 >= count) by {
            vstd::arithmetic::div_mod::lemma_fundamental_div_mod((count + 1) as int, 2);
        }
    }
    if idx < count {
        idx
    } else {
        idx - MENU_COLS
    }
}

} // verus!
