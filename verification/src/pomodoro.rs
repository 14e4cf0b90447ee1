use vstd::prelude::*;

verus! {

#[derive(Debug, Clone, Copy, PartialEq, Eq, Structural)]
pub enum PomodoroMode {
    Setup,
    Running,
    Paused,
    Finished,
}

#[derive(Debug, Clone, Copy, PartialEq, Eq, Structural)]
pub enum PomodoroField {
    Minutes,
    Seconds,
}

#[derive(Debug, Clone, Copy, PartialEq, Eq, Structural)]
pub enum PomodoroPauseAction {
    Continue,
    Exit,
}

/// The abstract state of the timer.
pub struct PomodoroState {
    pub minutes: u8,
    pub seconds: u8,
    pub mode: PomodoroMode,
    pub active_field: PomodoroField,
    pub pause_action: PomodoroPauseAction,
    pub remaining_seconds: u16,
    /// When the countdown reaches zero, in microseconds.
    pub end_us: i64,
}

/// The set duration stays within 99:59.
pub open spec fn pomodoro_valid(s: PomodoroState) -> bool {
    s.minutes <= 99 && s.seconds <= 59
}

/// The set duration in seconds.
pub open spec fn spec_duration(s: PomodoroState) -> u16 {
    (s.minutes * 60 + s.seconds) as u16
}

/// Whole seconds left, rounded up, between `now_us` and `end_us`, as a
/// 16-bit count.
pub open spec fn spec_visible_remaining(end_us: i64, now_us: i64) -> u16 {
    if now_us >= end_us {
        0
    } else {
        ((end_us - now_us + 999_999) / 1_000_000) as u16
    }
}

pub open spec fn clamp(v: int, lo: int, hi: int) -> int {
    if v < lo { lo } else if v > hi { hi } else { v }
}

/// A fresh timer: 25 minutes, in setup, editing the minutes.
pub open spec fn spec_new_timer() -> PomodoroState {
    PomodoroState {
        minutes: 25,
        seconds: 0,
        mode: PomodoroMode::Setup,
        active_field: PomodoroField::Minutes,
        pause_action: PomodoroPauseAction::Continue,
        remaining_seconds: 1500,
        end_us: 0,
    }
}

#[derive(Debug, Clone)]
pub struct PomodoroTimer {
    minutes: u8,
    seconds: u8,
    mode: PomodoroMode,
    active_field: PomodoroField,
    pause_action: PomodoroPauseAction,
    remaining_seconds: u16,
    end_us: i64,
}

impl View for PomodoroTimer {
    type V = PomodoroState;

    closed spec fn view(&self) -> PomodoroState {
        PomodoroState {
            minutes: self.minutes,
            seconds: self.seconds,
            mode: self.mode,
            active_field: self.active_field,
            pause_action: self.pause_action,
            remaining_seconds: self.remaining_seconds,
            end_us: self.end_us,
        }
    }
}

impl PomodoroTimer {
    /// A 25 minute timer in setup.
    pub fn new() -> (r: Self)
        ensures
            r@ == (PomodoroState {
                minutes: 25,
                seconds: 0,
                mode: PomodoroMode::Setup,
                active_field: PomodoroField::Minutes,
                pause_action: PomodoroPauseAction::Continue,
                remaining_seconds: 1500,
                end_us: 0,
            }),
            pomodoro_valid(r@),
    {
        PomodoroTimer {
            minutes: 25,
            seconds: 0,
            mode: PomodoroMode::Setup,
            active_field: PomodoroField::Minutes,
            pause_action: PomodoroPauseAction::Continue,
            remaining_seconds: 1500,
            end_us: 0,
        }
    }

    pub fn mode(&self) -> (r: PomodoroMode)
        ensures
            r == self@.mode,
    {
        self.mode
    }

    pub fn active_field(&self) -> (r: PomodoroField)
        ensures
            r == self@.active_field,
    {
        self.active_field
    }

    pub fn pause_action(&self) -> (r: PomodoroPauseAction)
        ensures
            r == self@.pause_action,
    {
        self.pause_action
    }

    pub fn minutes(&self) -> (r: u8)
        ensures
            r == self@.minutes,
    {
        self.minutes
    }

    pub fn seconds(&self) -> (r: u8)
        ensures
            r == self@.seconds,
    {
        self.seconds
    }

    pub fn duration_seconds(&self) -> (r: u16)
        requires
            pomodoro_valid(self@),
        ensures
            r == spec_duration(self@),
            r == self@.minutes * 60 + self@.seconds,
    {
        self.minutes as u16 * 60 + self.seconds as u16
    }

    pub fn remaining_seconds(&self) -> (r: u16)
        ensures
            r == self@.remaining_seconds,
    {
        self.remaining_seconds
    }

    /// A countdown needs a duration above zero.
    pub fn can_start(&self) -> (r: bool)
        requires
            pomodoro_valid(self@),
        ensures
            r == (spec_duration(self@) > 0),
    {
        self.duration_seconds() > 0
    }

    pub fn toggle_active_field(&mut self)
        ensures
            final(self)@ == (PomodoroState {
                active_field: if old(self)@.active_field == PomodoroField::Minutes {
                    PomodoroField::Seconds
                } else {
                    PomodoroField::Minutes
                },
                ..old(self)@
            }),
    {
        self.active_field = match self.active_field {
            PomodoroField::Minutes => PomodoroField::Seconds,
            PomodoroField::Seconds => PomodoroField::Minutes,
        };
    }

    /// Adds `delta` to the active field, clamped to 0..=99 minutes or
    /// 0..=59 seconds; reports whether the value changed.
    pub fn adjust_active_field(&mut self, delta: i32) -> (r: bool)
        requires
            pomodoro_valid(old(self)@),
            old(self)@.active_field == PomodoroField::Minutes ==> old(self)@.minutes + delta <= i32::MAX,
            old(self)@.active_field == PomodoroField::Seconds ==> old(self)@.seconds + delta <= i32::MAX,
        ensures
            pomodoro_valid(final(self)@),
            old(self)@.active_field == PomodoroField::Minutes ==> final(self)@ == (PomodoroState {
                minutes: clamp(old(self)@.minutes + delta, 0, 99) as u8,
                ..old(self)@
            }),
            old(self)@.active_field == PomodoroField::Seconds ==> final(self)@ == (PomodoroState {
                seconds: clamp(old(self)@.seconds + delta, 0, 59) as u8,
                ..old(self)@
            }),
            r == (final(self)@ != old(self)@),
    {
        match self.active_field {
            PomodoroField::Minutes => {
                let next = clamp_i32(self.minutes as i32 + delta, 0, 99) as u8;
                let changed = next != self.minutes;
                self.minutes = next;
                changed
            },
            PomodoroField::Seconds => {
                let next = clamp_i32(self.seconds as i32 + delta, 0, 59) as u8;
                let changed = next != self.seconds;
                self.seconds = next;
                changed
            },
        }
    }

    /// Starts the countdown from the set duration; a zero duration does not
    /// start.
    pub fn start(&mut self, now_us: i64) -> (r: bool)
        requires
            pomodoro_valid(old(self)@),
            now_us <= i64::MAX - 6_000_000_000,
        ensures
            r == (spec_duration(old(self)@) > 0),
            final(self)@ == if r {
                PomodoroState {
                    remaining_seconds: spec_duration(old(self)@),
                    end_us: (now_us + spec_duration(old(self)@) * 1_000_000) as i64,
                    mode: PomodoroMode::Running,
                    ..old(self)@
                }
            } else {
                old(self)@
            },
    {
        if !self.can_start() {
            return false;
        }
        self.remaining_seconds = self.duration_seconds();
        self.end_us = now_us + self.remaining_seconds as i64 * 1_000_000;
        self.mode = PomodoroMode::Running;
        true
    }

    /// Refreshes the visible seconds of a running countdown, finishing it at
    /// zero; reports whether anything visible changed.
    pub fn update_running(&mut self, now_us: i64) -> (r: bool)
        ensures
            old(self)@.mode != PomodoroMode::Running ==> !r && final(self)@ == old(self)@,
            old(self)@.mode == PomodoroMode::Running ==> {
                let rem = spec_visible_remaining(old(self)@.end_us, now_us);
                &&& final(self)@ == (PomodoroState {
                    remaining_seconds: rem,
                    mode: if rem == 0 { PomodoroMode::Finished } else { PomodoroMode::Running },
                    ..old(self)@
                })
                &&& r == (rem != old(self)@.remaining_seconds || rem == 0)
            },
    {
        if self.mode != PomodoroMode::Running {
            return false;
        }
        let previous_remaining = self.remaining_seconds;
        let previous_mode = self.mode;
        self.remaining_seconds = visible_remaining(self.end_us, now_us);
        if self.remaining_seconds == 0 {
            self.mode = PomodoroMode::Finished;
        }
        previous_remaining != self.remaining_seconds || previous_mode != self.mode
    }

    /// Pauses a running countdown after bringing it up to date; a countdown
    /// that just finished does not pause.
    pub fn pause(&mut self, now_us: i64) -> (r: bool)
        ensures
            old(self)@.mode != PomodoroMode::Running ==> !r && final(self)@ == old(self)@,
            old(self)@.mode == PomodoroMode::Running ==> {
                let rem = spec_visible_remaining(old(self)@.end_us, now_us);
                &&& r == (rem != 0)
                &&& final(self)@ == (PomodoroState {
                    remaining_seconds: rem,
                    mode: if rem == 0 { PomodoroMode::Finished } else { PomodoroMode::Paused },
                    pause_action: if rem == 0 { old(self)@.pause_action } else { PomodoroPauseAction::Continue },
                    ..old(self)@
                })
            },
    {
        if self.mode != PomodoroMode::Running {
            return false;
        }
        self.update_running(now_us);
        if self.mode != PomodoroMode::Running {
            return false;
        }
        self.mode = PomodoroMode::Paused;
        self.pause_action = PomodoroPauseAction::Continue;
        true
    }

    /// Continues a paused countdown with the seconds it had left.
    pub fn resume(&mut self, now_us: i64) -> (r: bool)
        requires
            now_us <= i64::MAX - 70_000_000_000,
        ensures
            r == (old(self)@.mode == PomodoroMode::Paused && old(self)@.remaining_seconds != 0),
            final(self)@ == if r {
                PomodoroState {
                    end_us: (now_us + old(self)@.remaining_seconds * 1_000_000) as i64,
                    mode: PomodoroMode::Running,
                    ..old(self)@
                }
            } else {
                old(self)@
            },
    {
        if self.mode != PomodoroMode::Paused || self.remaining_seconds == 0 {
            return false;
        }
        self.end_us = now_us + self.remaining_seconds as i64 * 1_000_000;
        self.mode = PomodoroMode::Running;
        true
    }

    pub fn toggle_pause_action(&mut self)
        ensures
            final(self)@ == (PomodoroState {
                pause_action: if old(self)@.pause_action == PomodoroPauseAction::Continue {
                    PomodoroPauseAction::Exit
                } else {
                    PomodoroPauseAction::Continue
                },
                ..old(self)@
            }),
    {
        self.pause_action = match self.pause_action {
            PomodoroPauseAction::Continue => PomodoroPauseAction::Exit,
            PomodoroPauseAction::Exit => PomodoroPauseAction::Continue,
        };
    }

    /// Takes a stored duration, kept within 99:59.
    pub fn load_settings(&mut self, minutes: u8, seconds: u8)
        ensures
            final(self)@ == (PomodoroState {
                minutes: if minutes > 99 { 99 } else { minutes },
                seconds: if seconds > 59 { 59 } else { seconds },
                ..old(self)@
            }),
            pomodoro_valid(final(self)@),
    {
        self.minutes = if minutes > 99 { 99 } else { minutes };
        self.seconds = if seconds > 59 { 59 } else { seconds };
    }

    /// Back to setup with the full duration showing.
    pub fn reset_to_setup(&mut self)
        requires
            pomodoro_valid(old(self)@),
        ensures
            final(self)@ == (PomodoroState {
                mode: PomodoroMode::Setup,
                active_field: PomodoroField::Minutes,
                pause_action: PomodoroPauseAction::Continue,
                remaining_seconds: spec_duration(old(self)@),
                end_us: 0,
                ..old(self)@
            }),
    {
        self.mode = PomodoroMode::Setup;
        self.active_field = PomodoroField::Minutes;
        self.pause_action = PomodoroPauseAction::Continue;
        self.remaining_seconds = self.duration_seconds();
        self.end_us = 0;
    }
}

impl Default for PomodoroTimer {
    fn default() -> (r: Self)
        ensures
            r@ == (PomodoroState {
                minutes: 25,
                seconds: 0,
                mode: PomodoroMode::Setup,
                active_field: PomodoroField::Minutes,
                pause_action: PomodoroPauseAction::Continue,
                remaining_seconds: 1500,
                end_us: 0,
            }),
    {
        Self::new()
    }
}

/// Pausing and resuming later keeps the seconds left: resuming at `later`
/// sets the end `remaining` seconds after `later`.
pub proof fn law_pause_resume_keeps_remaining(remaining: u16, later: i64)
    requires
        later <= i64::MAX - 70_000_000_000,
    ensures
        remaining > 0 ==> spec_visible_remaining((later + remaining * 1_000_000) as i64, later) == remaining,
{
    if remaining > 0 {
        let d = remaining * 1_000_000;
        assert((d + 999_999) / 1_000_000 == remaining as int) by {
            vstd::arithmetic::div_mod::lemma_fundamental_div_mod_converse(d + 999_999, 1_000_000, remaining as int, 999_999);
        }
    }
}

fn visible_remaining(end_us: i64, now_us: i64) -> (r: u16)
    ensures
        r == spec_visible_remaining(end_us, now_us),
{
    if now_us >= end_us {
        return 0;
    }
    let diff = (end_us as i128) - (now_us as i128) + 999_999;
    #[verifier::truncate]
    ((diff / 1_000_000) as u16)
}

fn clamp_i32(value: i32, min: i32, max: i32) -> (r: i32)
    requires
        min <= max,
    ensures
        r == clamp(value as int, min as int, max as int),
{
    if value < min {
        min
    } else if value > max {
        max
    } else {
        value
    }
}

} // verus!
