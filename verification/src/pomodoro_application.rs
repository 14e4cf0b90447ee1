use vstd::prelude::*;
use crate::app::AppAction;
use crate::config::Direction;
use crate::input::InputFrame;
use crate::melody::{melody_valid, spec_melody_stop, spec_melody_update, MelodyPlayer, MelodyState, Note};
use crate::pomodoro::{
    clamp, law_pause_resume_keeps_remaining, pomodoro_valid, spec_duration, spec_new_timer, spec_visible_remaining, PomodoroField,
    PomodoroMode, PomodoroPauseAction, PomodoroState, PomodoroTimer,
};
use crate::pomodoro_renderer;
use crate::pomodoro_renderer::{editor_delta_cmds, running_delta_cmds};
use crate::pomodoro_store::PomodoroSettingsStore;
use crate::render::{
    appends, frame_cmds, lemma_appends_chain, lemma_sent_appends, lemma_sent_nothing, lemma_sent_then, sent, sent_frame, DisplaySink,
    DrawCommand,
};
use crate::speaker::{heard, lemma_heard_nothing, lemma_heard_then, Speaker, SpeakerEvent};
use crate::theme;

verus! {

broadcast use lemma_sent_appends, lemma_appends_chain;

/// How long the alert plays before it stops by itself.
pub const ALERT_TOTAL_US: i64 = 10_000_000;

/// The alert melody.
pub open spec fn spec_alert_tune() -> Seq<Note> {
    seq![
        Note { freq_hz: 1319, duration_us: 167_000 },
        Note { freq_hz: 1175, duration_us: 167_000 },
        Note { freq_hz: 740, duration_us: 83_000 },
        Note { freq_hz: 831, duration_us: 83_000 },
        Note { freq_hz: 1109, duration_us: 167_000 },
        Note { freq_hz: 988, duration_us: 167_000 },
        Note { freq_hz: 587, duration_us: 83_000 },
        Note { freq_hz: 659, duration_us: 83_000 },
        Note { freq_hz: 988, duration_us: 167_000 },
        Note { freq_hz: 880, duration_us: 167_000 },
        Note { freq_hz: 554, duration_us: 83_000 },
        Note { freq_hz: 659, duration_us: 83_000 },
        Note { freq_hz: 880, duration_us: 667_000 },
        Note { freq_hz: 0, duration_us: 333_000 },
    ]
}

pub fn alert_tune() -> (r: &'static [Note])
    ensures
        r@ == spec_alert_tune(),
{
    let r: &'static [Note] = &[
        Note { freq_hz: 1319, duration_us: 167_000 },
        Note { freq_hz: 1175, duration_us: 167_000 },
        Note { freq_hz: 740, duration_us: 83_000 },
        Note { freq_hz: 831, duration_us: 83_000 },
        Note { freq_hz: 1109, duration_us: 167_000 },
        Note { freq_hz: 988, duration_us: 167_000 },
        Note { freq_hz: 587, duration_us: 83_000 },
        Note { freq_hz: 659, duration_us: 83_000 },
        Note { freq_hz: 988, duration_us: 167_000 },
        Note { freq_hz: 880, duration_us: 167_000 },
        Note { freq_hz: 554, duration_us: 83_000 },
        Note { freq_hz: 659, duration_us: 83_000 },
        Note { freq_hz: 880, duration_us: 667_000 },
        Note { freq_hz: 0, duration_us: 333_000 },
    ];
    assert(r@ =~= spec_alert_tune());
    r
}

/// The abstract state of the Pomodoro application.
pub struct PomodoroAppState {
    pub timer: PomodoroState,
    pub last_menu_direction_us: i64,
    pub alert_started_us: i64,
    pub alert_active: bool,
    pub melody: MelodyState,
}

/// The alert after a frame at `now_us`, and what the speaker was asked:
/// nothing without an alert; once it has lasted its time the tune stops;
/// otherwise the tune plays on.
pub open spec fn spec_alert_update(s: PomodoroAppState, now_us: i64) -> (PomodoroAppState, Seq<SpeakerEvent>) {
    if !s.alert_active {
        (s, Seq::empty())
    } else if now_us - s.alert_started_us >= ALERT_TOTAL_US {
        (PomodoroAppState { alert_active: false, melody: spec_melody_stop(s.melody).0, ..s }, spec_melody_stop(s.melody).1)
    } else {
        (PomodoroAppState { melody: spec_melody_update(s.melody, now_us).0, ..s }, spec_melody_update(s.melody, now_us).1)
    }
}

/// The alert stopped, and what the speaker was asked: a playing tune is
/// silenced.
pub open spec fn spec_alert_stopped(s: PomodoroAppState) -> (PomodoroAppState, Seq<SpeakerEvent>) {
    (
        PomodoroAppState { alert_active: false, melody: MelodyState { active: false, ..s.melody }, ..s },
        if s.melody.active { seq![SpeakerEvent::Stop] } else { Seq::empty() },
    )
}

pub open spec fn app_valid(s: PomodoroAppState) -> bool {
    pomodoro_valid(s.timer) && melody_valid(s.melody)
}

pub open spec fn long_press(input: InputFrame) -> bool {
    input.joystick.switch_long_pressed || input.encoder.switch_long_pressed
}

pub open spec fn switch_pressed(input: InputFrame) -> bool {
    input.joystick.switch_pressed || input.encoder.switch_pressed
}

/// A menu direction is taken a quarter second after the last one.
pub open spec fn accepts(s: PomodoroAppState, now_us: i64) -> bool {
    now_us - s.last_menu_direction_us >= 250_000
}

/// In the pause menu, the knob or a taken up or down direction moves the
/// selection.
pub open spec fn paused_menu_moves(s: PomodoroAppState, input: InputFrame, now_us: i64) -> bool {
    ||| input.encoder.detents != 0
    ||| input.joystick.has_direction && accepts(s, now_us)
        && (input.joystick.direction == Some(Direction::Up) || input.joystick.direction == Some(Direction::Down))
}

/// A long press leaves from setup, the countdown and the pause menu; so
/// does the switch on the pause menu's exit entry. The end screen is left
/// to setup first.
pub open spec fn leaves(s: PomodoroAppState, input: InputFrame, now_us: i64) -> bool {
    match s.timer.mode {
        PomodoroMode::Setup | PomodoroMode::Running => long_press(input),
        PomodoroMode::Paused => long_press(input) || (!paused_menu_moves(s, input, now_us) && switch_pressed(input)
            && s.timer.pause_action == PomodoroPauseAction::Exit),
        PomodoroMode::Finished => false,
    }
}

/// The active setup field moved by `delta`, kept within 0..=99 minutes or
/// 0..=59 seconds.
pub open spec fn adjusted(t: PomodoroState, delta: int) -> PomodoroState {
    if t.active_field == PomodoroField::Minutes {
        PomodoroState { minutes: clamp(t.minutes + delta, 0, 99) as u8, ..t }
    } else {
        PomodoroState { seconds: clamp(t.seconds + delta, 0, 59) as u8, ..t }
    }
}

/// The countdown started at `now_us` from the set duration.
pub open spec fn started(t: PomodoroState, now_us: i64) -> PomodoroState {
    PomodoroState {
        remaining_seconds: spec_duration(t),
        end_us: (now_us + spec_duration(t) * 1_000_000) as i64,
        mode: PomodoroMode::Running,
        ..t
    }
}

/// The countdown brought up to `now_us`, finished when nothing is left.
pub open spec fn counted(t: PomodoroState, now_us: i64) -> PomodoroState {
    let rem = spec_visible_remaining(t.end_us, now_us);
    PomodoroState {
        remaining_seconds: rem,
        mode: if rem == 0 { PomodoroMode::Finished } else { PomodoroMode::Running },
        ..t
    }
}

/// Back to setup with the full duration showing.
pub open spec fn reset(t: PomodoroState) -> PomodoroState {
    PomodoroState {
        mode: PomodoroMode::Setup,
        active_field: PomodoroField::Minutes,
        pause_action: PomodoroPauseAction::Continue,
        remaining_seconds: spec_duration(t),
        end_us: 0,
        ..t
    }
}

/// A stored duration taken into the timer (kept within 99:59), back in
/// setup.
pub open spec fn loaded(t: PomodoroState, minutes: u8, seconds: u8) -> PomodoroState {
    reset(PomodoroState {
        minutes: if minutes > 99 { 99 } else { minutes },
        seconds: if seconds > 59 { 59 } else { seconds },
        ..t
    })
}

/// What leaving saves, entering loads back: the set duration is kept
/// across sessions.
pub proof fn law_saved_duration_reloads(saved: PomodoroState, t: PomodoroState)
    requires
        pomodoro_valid(saved),
    ensures
        loaded(t, saved.minutes, saved.seconds).minutes == saved.minutes,
        loaded(t, saved.minutes, saved.seconds).seconds == saved.seconds,
        loaded(t, saved.minutes, saved.seconds).mode == PomodoroMode::Setup,
        loaded(t, saved.minutes, saved.seconds).remaining_seconds == spec_duration(saved),
{
}

pub open spec fn other_pause_action(a: PomodoroPauseAction) -> PomodoroPauseAction {
    if a == PomodoroPauseAction::Continue { PomodoroPauseAction::Exit } else { PomodoroPauseAction::Continue }
}

/// A running countdown whose end lies its remaining seconds ahead of
/// `now_us`: bringing it up to date changes nothing.
pub open spec fn fresh(t: PomodoroState, now_us: i64) -> bool {
    t.mode == PomodoroMode::Running ==> t.remaining_seconds > 0 && t.end_us == now_us + t.remaining_seconds * 1_000_000
}

/// The other setup field made active.
pub open spec fn field_toggled(t: PomodoroState) -> PomodoroState {
    PomodoroState {
        active_field: if t.active_field == PomodoroField::Minutes { PomodoroField::Seconds } else { PomodoroField::Minutes },
        ..t
    }
}

/// One setup frame without a long press: the knob's switch changes the
/// field; else the knob, or else a taken up or down direction, steps it;
/// else the stick's switch starts a countdown of a set duration.
pub open spec fn spec_setup_input(s: PomodoroAppState, input: InputFrame, now_us: i64) -> (PomodoroAppState, AppAction) {
    let t = s.timer;
    let take = input.joystick.has_direction && accepts(s, now_us);
    let s1 = PomodoroAppState { last_menu_direction_us: if take { now_us } else { s.last_menu_direction_us }, ..s };
    let delta: int = if take && input.joystick.direction == Some(Direction::Up) {
        1
    } else if take && input.joystick.direction == Some(Direction::Down) {
        -1
    } else {
        0
    };
    if input.encoder.switch_pressed {
        (PomodoroAppState { timer: field_toggled(t), ..s }, AppAction::Nothing)
    } else if input.encoder.detents != 0 && adjusted(t, input.encoder.detents as int) != t {
        (PomodoroAppState { timer: adjusted(t, input.encoder.detents as int), ..s }, AppAction::Nothing)
    } else if delta != 0 && adjusted(t, delta) != t {
        (PomodoroAppState { timer: adjusted(t, delta), ..s1 }, AppAction::Nothing)
    } else if input.joystick.switch_pressed && spec_duration(t) > 0 {
        (PomodoroAppState { timer: started(t, now_us), ..s1 }, AppAction::RedrawFull)
    } else {
        (s1, AppAction::Nothing)
    }
}

/// The value of the field being set.
pub open spec fn field_value(t: PomodoroState) -> u8 {
    if t.active_field == PomodoroField::Minutes { t.minutes } else { t.seconds }
}

/// The knob's turn can be added to the field it sets without leaving `i32`.
pub open spec fn knob_fits(s: PomodoroAppState, input: InputFrame) -> bool {
    s.timer.mode == PomodoroMode::Setup && !long_press(input) && !input.encoder.switch_pressed
        && input.encoder.detents != 0 ==> field_value(s.timer) + input.encoder.detents <= i32::MAX
}

/// What a setup frame without a long press sends: after a field toggle,
/// or a knob or joystick change of the set time, the time editor (and the
/// start button when whether a countdown can start changed).
pub open spec fn setup_display_cmds(s: PomodoroAppState, input: InputFrame, now_us: i64) -> Seq<DrawCommand> {
    let t = s.timer;
    let take = input.joystick.has_direction && accepts(s, now_us);
    let delta: int = if take && input.joystick.direction == Some(Direction::Up) {
        1
    } else if take && input.joystick.direction == Some(Direction::Down) {
        -1
    } else {
        0
    };
    if input.encoder.switch_pressed {
        editor_delta_cmds(field_toggled(t), false)
    } else if input.encoder.detents != 0 && adjusted(t, input.encoder.detents as int) != t {
        let a = adjusted(t, input.encoder.detents as int);
        editor_delta_cmds(a, (spec_duration(t) > 0) != (spec_duration(a) > 0))
    } else if delta != 0 && adjusted(t, delta) != t {
        let a = adjusted(t, delta);
        editor_delta_cmds(a, (spec_duration(t) > 0) != (spec_duration(a) > 0))
    } else {
        Seq::empty()
    }
}

/// What one frame sends to the display, from `s` to `f`: the setup
/// editor's changes, or the countdown when its shown second changed.
/// Changes of screen are redrawn in full by the host.
pub open spec fn pomodoro_frame_cmds(s: PomodoroAppState, input: InputFrame, now_us: i64, f: PomodoroAppState) -> Seq<DrawCommand> {
    let rem = spec_visible_remaining(s.timer.end_us, now_us);
    if s.timer.mode == PomodoroMode::Setup && !long_press(input) {
        setup_display_cmds(s, input, now_us)
    } else if s.timer.mode == PomodoroMode::Running && !long_press(input) && !switch_pressed(input)
        && rem != s.timer.remaining_seconds && rem != 0 {
        running_delta_cmds(f.timer)
    } else {
        Seq::empty()
    }
}

/// One pause-menu frame without a long press: the knob, or a taken up or
/// down direction, moves the selection; else the switch leaves (back to
/// setup) or resumes a countdown with time left.
pub open spec fn spec_paused_input(s: PomodoroAppState, input: InputFrame, now_us: i64) -> (PomodoroAppState, AppAction) {
    let t = s.timer;
    let take = input.joystick.has_direction && accepts(s, now_us);
    let s1 = PomodoroAppState { last_menu_direction_us: if take { now_us } else { s.last_menu_direction_us }, ..s };
    let toggled = PomodoroState { pause_action: other_pause_action(t.pause_action), ..t };
    if input.encoder.detents != 0 {
        (PomodoroAppState { timer: toggled, ..s }, AppAction::RedrawFull)
    } else if take && (input.joystick.direction == Some(Direction::Up) || input.joystick.direction == Some(Direction::Down)) {
        (PomodoroAppState { timer: toggled, ..s1 }, AppAction::RedrawFull)
    } else if switch_pressed(input) && t.pause_action == PomodoroPauseAction::Exit {
        (PomodoroAppState { timer: reset(t), ..s1 }, AppAction::ExitToLauncher)
    } else if switch_pressed(input) && t.remaining_seconds != 0 {
        (PomodoroAppState {
            timer: PomodoroState {
                end_us: (now_us + t.remaining_seconds * 1_000_000) as i64,
                mode: PomodoroMode::Running,
                ..t
            },
            ..s1
        }, AppAction::RedrawFull)
    } else {
        (s1, AppAction::Nothing)
    }
}

#[derive(Debug, Clone)]
pub struct PomodoroApplication {
    timer: PomodoroTimer,
    last_menu_direction_us: i64,
    alert_started_us: i64,
    alert_active: bool,
    melody: MelodyPlayer,
}

impl View for PomodoroApplication {
    type V = PomodoroAppState;

    closed spec fn view(&self) -> PomodoroAppState {
        PomodoroAppState {
            timer: self.timer@,
            last_menu_direction_us: self.last_menu_direction_us,
            alert_started_us: self.alert_started_us,
            alert_active: self.alert_active,
            melody: self.melody@,
        }
    }
}

impl PomodoroApplication {
    pub fn new() -> (r: Self)
        ensures
            app_valid(r@),
            r@.timer == spec_new_timer(),
            r@.last_menu_direction_us == 0,
            r@.alert_started_us == 0,
            !r@.alert_active,
            r@.melody == (MelodyState { notes: Seq::empty(), index: 0, note_started_us: 0, active: false }),
    {
        PomodoroApplication {
            timer: PomodoroTimer::new(),
            last_menu_direction_us: 0,
            alert_started_us: 0,
            alert_active: false,
            melody: MelodyPlayer::new(),
        }
    }

    pub fn title(&self) -> (r: &'static str)
        ensures
            r@ == "POMODORO"@,
    {
        "POMODORO"
    }

    /// Opens the timer in setup with the stored duration (kept within
    /// 99:59).
    pub fn enter<P: PomodoroSettingsStore>(&mut self, store: &P)
        requires
            app_valid(old(self)@),
        ensures
            app_valid(final(self)@),
            final(self)@.timer == loaded(old(self)@.timer, store.stored_minutes(), store.stored_seconds()),
            final(self)@.last_menu_direction_us == 0,
            final(self)@.alert_started_us == 0,
            !final(self)@.alert_active,
            !final(self)@.melody.active,
    {
        self.timer.load_settings(store.pomodoro_minutes(), store.pomodoro_seconds());
        self.timer.reset_to_setup();
        self.last_menu_direction_us = 0;
        self.alert_started_us = 0;
        self.alert_active = false;
        self.melody = MelodyPlayer::new();
    }

    /// Handles one input frame, then brings a running countdown up to date.
    /// In setup the knob press switches between minutes and seconds, the
    /// knob or up and down change the value and the joystick switch starts.
    /// While running the switch pauses. In the pause menu the knob or up and
    /// down move the selection and the switch resumes or leaves. A long
    /// press leaves, saving the set duration. When the countdown ends the
    /// alert melody plays at full volume for ten seconds or until a press
    /// goes back to setup.
    pub fn update<D: DisplaySink, S: Speaker, P: PomodoroSettingsStore>(
        &mut self,
        display: &mut D,
        speaker: &mut S,
        store: &mut P,
        input: InputFrame,
        now_us: i64,
    ) -> (action: AppAction)
        requires
            app_valid(old(self)@),
            knob_fits(old(self)@, input),
            now_us <= i64::MAX - 70_000_000_000,
        ensures
            app_valid(final(self)@),
            appends(*old(display), *final(display)),
            sent(*old(display), *final(display), pomodoro_frame_cmds(old(self)@, input, now_us, final(self)@)),
            (action == AppAction::ExitToLauncher) == leaves(old(self)@, input, now_us),
            leaves(old(self)@, input, now_us) ==> {
                &&& final(store).stored_minutes() == old(self)@.timer.minutes
                &&& final(store).stored_seconds() == old(self)@.timer.seconds
                &&& !final(self)@.alert_active
            },
            !leaves(old(self)@, input, now_us) ==> *final(store) == *old(store),
            old(self)@.timer.mode == PomodoroMode::Setup && !long_press(input) ==> {
                &&& (final(self)@, action) == spec_setup_input(old(self)@, input, now_us)
                &&& heard(old(speaker), final(speaker), Seq::empty())
            },
            old(self)@.timer.mode == PomodoroMode::Paused && !leaves(old(self)@, input, now_us) ==> {
                &&& (final(self)@, action) == spec_paused_input(old(self)@, input, now_us)
                &&& heard(old(speaker), final(speaker), Seq::empty())
            },
            old(self)@.timer.mode == PomodoroMode::Setup && !long_press(input) && input.encoder.switch_pressed ==> {
                &&& action == AppAction::Nothing
                &&& final(self)@.timer == (PomodoroState {
                    active_field: if old(self)@.timer.active_field == PomodoroField::Minutes {
                        PomodoroField::Seconds
                    } else {
                        PomodoroField::Minutes
                    },
                    ..old(self)@.timer
                })
            },
            old(self)@.timer.mode == PomodoroMode::Setup && !long_press(input) && !input.encoder.switch_pressed
                && input.encoder.detents != 0 && adjusted(old(self)@.timer, input.encoder.detents as int) != old(self)@.timer
                ==> action == AppAction::Nothing && final(self)@.timer == adjusted(old(self)@.timer, input.encoder.detents as int),
            old(self)@.timer.mode == PomodoroMode::Setup && !long_press(input) && !input.encoder.switch_pressed
                && input.encoder.detents == 0 && !input.joystick.has_direction && input.joystick.switch_pressed ==> {
                if spec_duration(old(self)@.timer) > 0 {
                    action == AppAction::RedrawFull && final(self)@.timer == started(old(self)@.timer, now_us)
                } else {
                    action == AppAction::Nothing && final(self)@.timer == old(self)@.timer
                }
            },
            old(self)@.timer.mode == PomodoroMode::Running && !long_press(input) && switch_pressed(input) ==> {
                let rem = spec_visible_remaining(old(self)@.timer.end_us, now_us);
                if rem != 0 {
                    &&& action == AppAction::RedrawFull
                    &&& final(self)@.timer == (PomodoroState {
                        remaining_seconds: rem,
                        mode: PomodoroMode::Paused,
                        pause_action: PomodoroPauseAction::Continue,
                        ..old(self)@.timer
                    })
                } else {
                    action == AppAction::Nothing && final(self)@.timer == counted(old(self)@.timer, now_us)
                }
            },
            old(self)@.timer.mode == PomodoroMode::Running && !long_press(input) && !switch_pressed(input) ==> {
                &&& final(self)@.timer == counted(old(self)@.timer, now_us)
                &&& if final(self)@.timer.mode == PomodoroMode::Finished {
                    &&& action == AppAction::RedrawFull
                    &&& final(self)@.alert_active
                    &&& final(self)@.alert_started_us == now_us
                    &&& heard(old(speaker), final(speaker), seq![SpeakerEvent::Volume(100), SpeakerEvent::Tone(1319)])
                } else {
                    action == AppAction::Nothing
                }
            },
            old(self)@.timer.mode == PomodoroMode::Paused && !long_press(input) && input.encoder.detents != 0 ==> {
                &&& action == AppAction::RedrawFull
                &&& final(self)@.timer == (PomodoroState {
                    pause_action: other_pause_action(old(self)@.timer.pause_action),
                    ..old(self)@.timer
                })
            },
            old(self)@.timer.mode == PomodoroMode::Paused && !long_press(input) && !paused_menu_moves(old(self)@, input, now_us)
                && switch_pressed(input) && old(self)@.timer.pause_action == PomodoroPauseAction::Continue ==> {
                if old(self)@.timer.remaining_seconds != 0 {
                    &&& action == AppAction::RedrawFull
                    &&& final(self)@.timer == (PomodoroState {
                        end_us: (now_us + old(self)@.timer.remaining_seconds * 1_000_000) as i64,
                        mode: PomodoroMode::Running,
                        ..old(self)@.timer
                    })
                } else {
                    action == AppAction::Nothing && final(self)@.timer == old(self)@.timer
                }
            },
            old(self)@.timer.mode == PomodoroMode::Finished && (switch_pressed(input) || long_press(input)) ==> {
                &&& action == AppAction::RedrawFull
                &&& final(self)@ == (PomodoroAppState { timer: reset(old(self)@.timer), ..spec_alert_stopped(old(self)@).0 })
                &&& heard(old(speaker), final(speaker), spec_alert_stopped(old(self)@).1)
            },
            old(self)@.timer.mode == PomodoroMode::Finished && !(switch_pressed(input) || long_press(input)) ==> {
                &&& action == AppAction::Nothing
                &&& final(self)@ == spec_alert_update(old(self)@, now_us).0
                &&& heard(old(speaker), final(speaker), spec_alert_update(old(self)@, now_us).1)
            },
    {
        let ghost d0 = *display;
        let mut action = match self.timer.mode() {
            PomodoroMode::Setup => self.handle_setup_input(display, input, now_us),
            PomodoroMode::Running => self.handle_running_input(input, now_us),
            PomodoroMode::Paused => self.handle_paused_input(input, now_us),
            PomodoroMode::Finished => self.handle_finished_input(speaker, input),
        };
        if action == AppAction::ExitToLauncher {
            store.save_pomodoro_settings(self.timer.minutes(), self.timer.seconds());
            self.stop_alert(speaker);
            return action;
        }
        let ghost s1 = self@;
        let ghost sp1 = *speaker;
        proof {
            lemma_heard_nothing(&*speaker);
            if s1.timer.mode == PomodoroMode::Running && old(self)@.timer.mode != PomodoroMode::Running {
                law_pause_resume_keeps_remaining(s1.timer.remaining_seconds, now_us);
            }
        }
        if self.timer.mode() == PomodoroMode::Running && self.timer.update_running(now_us) {
            if self.timer.mode() == PomodoroMode::Finished {
                self.start_alert(speaker, now_us);
                action = AppAction::RedrawFull;
            } else if action == AppAction::Nothing {
                pomodoro_renderer::render_running_time_delta(display, &self.timer);
            } else {
                action = AppAction::RedrawFull;
            }
        }
        let ghost sp2 = *speaker;
        if self.timer.mode() == PomodoroMode::Finished {
            self.update_alert(speaker, now_us);
        }
        proof {
            if old(self)@.timer.mode == PomodoroMode::Running && !long_press(input) && !switch_pressed(input)
                && self@.timer.mode == PomodoroMode::Finished {
                lemma_heard_then(&sp1, &sp2, &*speaker, seq![SpeakerEvent::Volume(100), SpeakerEvent::Tone(1319)], Seq::empty());
                assert(seq![SpeakerEvent::Volume(100), SpeakerEvent::Tone(1319)] + Seq::<SpeakerEvent>::empty()
                    =~= seq![SpeakerEvent::Volume(100), SpeakerEvent::Tone(1319)]);
            }
        }
        action
    }

    /// Redraws the whole screen for the timer's mode.
    pub fn render_full<D: DisplaySink>(&self, display: &mut D)
        requires
            app_valid(self@),
        ensures
            sent(*old(display), *final(display), frame_cmds(theme::BG, pomodoro_renderer::screen_cmds(self@.timer))),
            sent_frame(*old(display), *final(display), theme::BG),
    {
        pomodoro_renderer::render(display, &self.timer);
    }

    pub fn timer(&self) -> (r: &PomodoroTimer)
        ensures
            r@ == self@.timer,
    {
        &self.timer
    }

    /// The timer, for changing it directly.
    pub fn timer_mut(&mut self) -> (r: &mut PomodoroTimer)
        ensures
            r@ == old(self)@.timer,
            final(self)@ == (PomodoroAppState { timer: final(r)@, ..old(self)@ }),
    {
        &mut self.timer
    }

    fn handle_setup_input<D: DisplaySink>(&mut self, display: &mut D, input: InputFrame, now_us: i64) -> (action: AppAction)
        requires
            app_valid(old(self)@),
            old(self)@.timer.mode == PomodoroMode::Setup,
            knob_fits(old(self)@, input),
            now_us <= i64::MAX - 70_000_000_000,
        ensures
            app_valid(final(self)@),
            appends(*old(display), *final(display)),
            !long_press(input) ==> sent(*old(display), *final(display), setup_display_cmds(old(self)@, input, now_us)),
            long_press(input) ==> *final(display) == *old(display),
            final(self)@.alert_active == old(self)@.alert_active,
            final(self)@.alert_started_us == old(self)@.alert_started_us,
            final(self)@.melody == old(self)@.melody,
            long_press(input) ==> action == AppAction::ExitToLauncher && final(self)@ == old(self)@,
            !long_press(input) ==> action != AppAction::ExitToLauncher,
            !long_press(input) ==> (final(self)@, action) == spec_setup_input(old(self)@, input, now_us),
            !long_press(input) && input.encoder.switch_pressed ==> {
                &&& action == AppAction::Nothing
                &&& final(self)@.timer == (PomodoroState {
                    active_field: if old(self)@.timer.active_field == PomodoroField::Minutes {
                        PomodoroField::Seconds
                    } else {
                        PomodoroField::Minutes
                    },
                    ..old(self)@.timer
                })
            },
            !long_press(input) && !input.encoder.switch_pressed && input.encoder.detents != 0
                && adjusted(old(self)@.timer, input.encoder.detents as int) != old(self)@.timer
                ==> action == AppAction::Nothing && final(self)@.timer == adjusted(old(self)@.timer, input.encoder.detents as int),
            !long_press(input) && !input.encoder.switch_pressed && input.encoder.detents == 0
                && !input.joystick.has_direction && input.joystick.switch_pressed ==> {
                if spec_duration(old(self)@.timer) > 0 {
                    action == AppAction::RedrawFull && final(self)@.timer == started(old(self)@.timer, now_us)
                } else {
                    action == AppAction::Nothing && final(self)@.timer == old(self)@.timer
                }
            },
            final(self)@.timer.mode == PomodoroMode::Setup || final(self)@.timer.mode == PomodoroMode::Running,
            fresh(final(self)@.timer, now_us),
    {
        if input.joystick.switch_long_pressed || input.encoder.switch_long_pressed {
            return AppAction::ExitToLauncher;
        }
        if input.encoder.switch_pressed {
            self.timer.toggle_active_field();
            pomodoro_renderer::render_setup_editor_delta(display, &self.timer, false);
            return AppAction::Nothing;
        }
        if input.encoder.detents != 0 && self.adjust_setup_duration(display, input.encoder.detents) {
            return AppAction::Nothing;
        }
        if input.joystick.has_direction && self.accept_menu_direction(now_us) {
            match input.joystick.direction {
                Some(Direction::Up) => {
                    if self.adjust_setup_duration(display, 1) {
                        return AppAction::Nothing;
                    }
                },
                Some(Direction::Down) => {
                    if self.adjust_setup_duration(display, -1) {
                        return AppAction::Nothing;
                    }
                },
                _ => {},
            }
        }
        if input.joystick.switch_pressed && self.timer.start(now_us) {
            return AppAction::RedrawFull;
        }
        AppAction::Nothing
    }

    fn adjust_setup_duration<D: DisplaySink>(&mut self, display: &mut D, delta: i32) -> (changed: bool)
        requires
            app_valid(old(self)@),
            old(self)@.timer.mode == PomodoroMode::Setup,
            field_value(old(self)@.timer) + delta <= i32::MAX,
        ensures
            app_valid(final(self)@),
            appends(*old(display), *final(display)),
            changed ==> sent(*old(display), *final(display), editor_delta_cmds(adjusted(old(self)@.timer, delta as int),
                (spec_duration(old(self)@.timer) > 0) != (spec_duration(adjusted(old(self)@.timer, delta as int)) > 0))),
            !changed ==> *final(display) == *old(display),
            final(self)@ == (PomodoroAppState { timer: adjusted(old(self)@.timer, delta as int), ..old(self)@ }),
            changed == (adjusted(old(self)@.timer, delta as int) != old(self)@.timer),
    {
        let was_startable = self.timer.can_start();
        if !self.timer.adjust_active_field(delta) {
            return false;
        }
        let now_startable = self.timer.can_start();
        pomodoro_renderer::render_setup_editor_delta(display, &self.timer, was_startable != now_startable);
        true
    }

    fn handle_running_input(&mut self, input: InputFrame, now_us: i64) -> (action: AppAction)
        requires
            app_valid(old(self)@),
            old(self)@.timer.mode == PomodoroMode::Running,
        ensures
            app_valid(final(self)@),
            final(self)@ == (PomodoroAppState { timer: final(self)@.timer, ..old(self)@ }),
            long_press(input) ==> action == AppAction::ExitToLauncher && final(self)@ == old(self)@,
            !long_press(input) && switch_pressed(input) ==> {
                let rem = spec_visible_remaining(old(self)@.timer.end_us, now_us);
                if rem != 0 {
                    &&& action == AppAction::RedrawFull
                    &&& final(self)@.timer == (PomodoroState {
                        remaining_seconds: rem,
                        mode: PomodoroMode::Paused,
                        pause_action: PomodoroPauseAction::Continue,
                        ..old(self)@.timer
                    })
                } else {
                    action == AppAction::Nothing && final(self)@.timer == counted(old(self)@.timer, now_us)
                }
            },
            !long_press(input) && !switch_pressed(input) ==> action == AppAction::Nothing && final(self)@ == old(self)@,
    {
        if input.joystick.switch_long_pressed || input.encoder.switch_long_pressed {
            return AppAction::ExitToLauncher;
        }
        if input.joystick.switch_pressed || input.encoder.switch_pressed {
            if self.timer.pause(now_us) {
                return AppAction::RedrawFull;
            }
        }
        AppAction::Nothing
    }

    fn handle_paused_input(&mut self, input: InputFrame, now_us: i64) -> (action: AppAction)
        requires
            app_valid(old(self)@),
            old(self)@.timer.mode == PomodoroMode::Paused,
            now_us <= i64::MAX - 70_000_000_000,
        ensures
            app_valid(final(self)@),
            final(self)@.alert_active == old(self)@.alert_active,
            final(self)@.alert_started_us == old(self)@.alert_started_us,
            final(self)@.melody == old(self)@.melody,
            (action == AppAction::ExitToLauncher) == leaves(old(self)@, input, now_us),
            long_press(input) ==> final(self)@ == old(self)@,
            !long_press(input) ==> (final(self)@, action) == spec_paused_input(old(self)@, input, now_us),
            !long_press(input) && input.encoder.detents != 0 ==> {
                &&& action == AppAction::RedrawFull
                &&& final(self)@.timer == (PomodoroState {
                    pause_action: other_pause_action(old(self)@.timer.pause_action),
                    ..old(self)@.timer
                })
            },
            !long_press(input) && !paused_menu_moves(old(self)@, input, now_us) && switch_pressed(input)
                && old(self)@.timer.pause_action == PomodoroPauseAction::Continue ==> {
                if old(self)@.timer.remaining_seconds != 0 {
                    &&& action == AppAction::RedrawFull
                    &&& final(self)@.timer == (PomodoroState {
                        end_us: (now_us + old(self)@.timer.remaining_seconds * 1_000_000) as i64,
                        mode: PomodoroMode::Running,
                        ..old(self)@.timer
                    })
                } else {
                    action == AppAction::Nothing && final(self)@.timer == old(self)@.timer
                }
            },
            final(self)@.timer.mode != PomodoroMode::Finished,
            final(self)@.timer.minutes == old(self)@.timer.minutes,
            final(self)@.timer.seconds == old(self)@.timer.seconds,
            fresh(final(self)@.timer, now_us),
    {
        if input.joystick.switch_long_pressed || input.encoder.switch_long_pressed {
            return AppAction::ExitToLauncher;
        }
        if input.encoder.detents != 0 {
            self.timer.toggle_pause_action();
            return AppAction::RedrawFull;
        }
        if input.joystick.has_direction && self.accept_menu_direction(now_us)
            && (input.joystick.direction == Some(Direction::Up) || input.joystick.direction == Some(Direction::Down)) {
            self.timer.toggle_pause_action();
            return AppAction::RedrawFull;
        }
        if input.joystick.switch_pressed || input.encoder.switch_pressed {
            if self.timer.pause_action() == PomodoroPauseAction::Exit {
                self.timer.reset_to_setup();
                return AppAction::ExitToLauncher;
            }
            if self.timer.resume(now_us) {
                return AppAction::RedrawFull;
            }
        }
        AppAction::Nothing
    }

    fn handle_finished_input<S: Speaker>(&mut self, speaker: &mut S, input: InputFrame) -> (action: AppAction)
        requires
            app_valid(old(self)@),
            old(self)@.timer.mode == PomodoroMode::Finished,
        ensures
            app_valid(final(self)@),
            switch_pressed(input) || long_press(input) ==> {
                &&& action == AppAction::RedrawFull
                &&& final(self)@ == (PomodoroAppState { timer: reset(old(self)@.timer), ..spec_alert_stopped(old(self)@).0 })
                &&& heard(old(speaker), final(speaker), spec_alert_stopped(old(self)@).1)
            },
            !(switch_pressed(input) || long_press(input)) ==> action == AppAction::Nothing && final(self)@ == old(self)@
                && heard(old(speaker), final(speaker), Seq::empty()),
    {
        proof { lemma_heard_nothing(&*speaker); }
        if input.joystick.switch_pressed || input.encoder.switch_pressed || input.joystick.switch_long_pressed
            || input.encoder.switch_long_pressed {
            self.stop_alert(speaker);
            self.timer.reset_to_setup();
            return AppAction::RedrawFull;
        }
        AppAction::Nothing
    }

    fn accept_menu_direction(&mut self, now_us: i64) -> (r: bool)
        ensures
            r == accepts(old(self)@, now_us),
            final(self)@ == (PomodoroAppState {
                last_menu_direction_us: if r { now_us } else { old(self)@.last_menu_direction_us },
                ..old(self)@
            }),
    {
        if (now_us as i128) - (self.last_menu_direction_us as i128) < 250_000 {
            return false;
        }
        self.last_menu_direction_us = now_us;
        true
    }

    /// Starts the alert melody at full volume.
    fn start_alert<S: Speaker>(&mut self, speaker: &mut S, now_us: i64)
        requires
            app_valid(old(self)@),
        ensures
            app_valid(final(self)@),
            final(self)@ == (PomodoroAppState {
                alert_started_us: now_us,
                alert_active: true,
                melody: MelodyState { notes: spec_alert_tune(), index: 0, note_started_us: now_us, active: true },
                ..old(self)@
            }),
            heard(old(speaker), final(speaker), seq![SpeakerEvent::Volume(100), SpeakerEvent::Tone(1319)]),
    {
        self.alert_started_us = now_us;
        self.alert_active = true;
        let ghost sp0 = *speaker;
        speaker.set_volume(100);
        let ghost sp1 = *speaker;
        self.melody.start(alert_tune(), speaker, now_us);
        proof {
            lemma_heard_then(&sp0, &sp1, &*speaker, seq![SpeakerEvent::Volume(100)], seq![SpeakerEvent::Tone(1319)]);
            assert(seq![SpeakerEvent::Volume(100)] + seq![SpeakerEvent::Tone(1319)]
                =~= seq![SpeakerEvent::Volume(100), SpeakerEvent::Tone(1319)]);
        }
    }

    /// Plays on, or stops once the alert has lasted its time.
    fn update_alert<S: Speaker>(&mut self, speaker: &mut S, now_us: i64)
        requires
            app_valid(old(self)@),
        ensures
            app_valid(final(self)@),
            final(self)@ == spec_alert_update(old(self)@, now_us).0,
            heard(old(speaker), final(speaker), spec_alert_update(old(self)@, now_us).1),
    {
        proof { lemma_heard_nothing(&*speaker); }
        if !self.alert_active {
            return;
        }
        if (now_us as i128) - (self.alert_started_us as i128) >= ALERT_TOTAL_US as i128 {
            self.melody.stop(speaker);
            self.alert_active = false;
            return;
        }
        self.melody.update(speaker, now_us);
    }

    fn stop_alert<S: Speaker>(&mut self, speaker: &mut S)
        requires
            app_valid(old(self)@),
        ensures
            app_valid(final(self)@),
            final(self)@ == spec_alert_stopped(old(self)@).0,
            heard(old(speaker), final(speaker), spec_alert_stopped(old(self)@).1),
    {
        if self.alert_active || self.melody.is_active() {
            self.melody.stop(speaker);
        } else {
            proof { lemma_heard_nothing(&*speaker); }
        }
        self.alert_active = false;
    }
}

impl Default for PomodoroApplication {
    fn default() -> (r: Self)
        ensures
            app_valid(r@),
            r@.timer == spec_new_timer(),
    {
        Self::new()
    }
}

} // verus!
