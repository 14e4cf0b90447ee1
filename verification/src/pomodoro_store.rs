use vstd::prelude::*;

verus! {

/// Where the Pomodoro duration is kept between sessions.
pub trait PomodoroSettingsStore {
    spec fn stored_minutes(&self) -> u8;

    spec fn stored_seconds(&self) -> u8;

    fn pomodoro_minutes(&self) -> (r: u8)
        ensures
            r == self.stored_minutes(),
    ;

    fn pomodoro_seconds(&self) -> (r: u8)
        ensures
            r == self.stored_seconds(),
    ;

    /// Keeps the duration; reading it back gives what was saved.
    fn save_pomodoro_settings(&mut self, minutes: u8, seconds: u8)
        ensures
            final(self).stored_minutes() == minutes,
            final(self).stored_seconds() == seconds,
    ;
}

/// Pomodoro settings held in memory only.
#[derive(Debug, Clone)]
pub struct MemoryPomodoroSettingsStore {
    minutes: u8,
    seconds: u8,
}

impl MemoryPomodoroSettingsStore {
    /// Starts at 25:00.
    pub fn new() -> (r: Self)
        ensures
            r.stored_minutes() == 25,
            r.stored_seconds() == 0,
    {
        MemoryPomodoroSettingsStore { minutes: 25, seconds: 0 }
    }
}

impl Default for MemoryPomodoroSettingsStore {
    fn default() -> (r: Self)
        ensures
            r.stored_minutes() == 25,
            r.stored_seconds() == 0,
    {
        Self::new()
    }
}

impl PomodoroSettingsStore for MemoryPomodoroSettingsStore {
    closed spec fn stored_minutes(&self) -> u8 {
        self.minutes
    }

    closed spec fn stored_seconds(&self) -> u8 {
        self.seconds
    }

    fn pomodoro_minutes(&self) -> (r: u8) {
        self.minutes
    }

    fn pomodoro_seconds(&self) -> (r: u8) {
        self.seconds
    }

    fn save_pomodoro_settings(&mut self, minutes: u8, seconds: u8) {
        self.minutes = minutes;
        self.seconds = seconds;
    }
}

} // verus!
