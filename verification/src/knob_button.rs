use vstd::prelude::*;
use crate::config::FLAGS_PRACTICE_EXIT_HOLD_MS;
use crate::input::{sat_sub, ButtonEvent};

verus! {

/// A change of the knob's key must hold this long to count.
pub const KEY_DEBOUNCE_MS: u64 = 120;
/// The key is ignored this long after the knob turned, so that pushing
/// while turning does not press it.
pub const KEY_LOCKOUT_AFTER_ROTATION_MS: u64 = 250;

/// The abstract state of the knob's push key.
pub struct KnobKeyState {
    pub last_key_reading: bool,
    pub stable_key_pressed: bool,
    pub ignore_key_until_release: bool,
    pub last_key_change_ms: u64,
    pub last_encoder_change_ms: u64,
    pub press_start_ms: u64,
    pub long_reported: bool,
}

/// The push key of a rotary knob: debounced, locked out while the knob
/// turns, ignored until released when it was held during a turn, and
/// reporting one long press per press.
#[derive(Debug, Clone)]
pub struct KnobButton {
    last_key_reading: bool,
    stable_key_pressed: bool,
    ignore_key_until_release: bool,
    last_key_change_ms: u64,
    last_encoder_change_ms: u64,
    press_start_ms: u64,
    long_reported: bool,
}

impl View for KnobButton {
    type V = KnobKeyState;

    closed spec fn view(&self) -> KnobKeyState {
        KnobKeyState {
            last_key_reading: self.last_key_reading,
            stable_key_pressed: self.stable_key_pressed,
            ignore_key_until_release: self.ignore_key_until_release,
            last_key_change_ms: self.last_key_change_ms,
            last_encoder_change_ms: self.last_encoder_change_ms,
            press_start_ms: self.press_start_ms,
            long_reported: self.long_reported,
        }
    }
}

pub open spec fn released_state() -> KnobKeyState {
    KnobKeyState {
        last_key_reading: false,
        stable_key_pressed: false,
        ignore_key_until_release: false,
        last_key_change_ms: 0,
        last_encoder_change_ms: 0,
        press_start_ms: 0,
        long_reported: false,
    }
}

/// The knob turned at `now_ms`: the key is locked out from then on, and a
/// key held during the turn is ignored until it is released.
pub open spec fn spec_note_rotation(s: KnobKeyState, key_pressed: bool, now_ms: u64) -> KnobKeyState {
    KnobKeyState {
        last_encoder_change_ms: now_ms,
        ignore_key_until_release: if key_pressed { true } else { s.ignore_key_until_release },
        ..s
    }
}

/// The key after one poll at `now_ms`, and the presses it reports.
pub open spec fn spec_knob_poll(s: KnobKeyState, key_pressed: bool, now_ms: u64) -> (KnobKeyState, ButtonEvent) {
    let s1 = if key_pressed != s.last_key_reading {
        KnobKeyState {
            last_key_reading: key_pressed,
            last_key_change_ms: now_ms,
            ignore_key_until_release: if key_pressed && sat_sub(now_ms, s.last_encoder_change_ms) < KEY_LOCKOUT_AFTER_ROTATION_MS {
                true
            } else {
                s.ignore_key_until_release
            },
            ..s
        }
    } else {
        s
    };
    let s2 = if !key_pressed { KnobKeyState { ignore_key_until_release: false, ..s1 } } else { s1 };
    let none = ButtonEvent { pressed: false, long_pressed: false };
    if sat_sub(now_ms, s2.last_encoder_change_ms) < KEY_LOCKOUT_AFTER_ROTATION_MS {
        (KnobKeyState { last_key_change_ms: now_ms, ..s2 }, none)
    } else if s2.ignore_key_until_release {
        (s2, none)
    } else {
        let settles = key_pressed != s2.stable_key_pressed && sat_sub(now_ms, s2.last_key_change_ms) >= KEY_DEBOUNCE_MS;
        let s3 = if settles {
            if key_pressed {
                KnobKeyState { stable_key_pressed: true, press_start_ms: now_ms, long_reported: false, ..s2 }
            } else {
                KnobKeyState { stable_key_pressed: false, ..s2 }
            }
        } else {
            s2
        };
        let long = s3.stable_key_pressed && !s3.long_reported
            && sat_sub(now_ms, s3.press_start_ms) >= FLAGS_PRACTICE_EXIT_HOLD_MS;
        let s4 = if long { KnobKeyState { long_reported: true, ..s3 } } else { s3 };
        (s4, ButtonEvent { pressed: settles && key_pressed, long_pressed: long })
    }
}

impl KnobButton {
    /// A released key with no turn seen.
    pub fn new() -> (r: Self)
        ensures
            r@ == released_state(),
    {
        KnobButton {
            last_key_reading: false,
            stable_key_pressed: false,
            ignore_key_until_release: false,
            last_key_change_ms: 0,
            last_encoder_change_ms: 0,
            press_start_ms: 0,
            long_reported: false,
        }
    }

    /// Starts from the key's current level, as if it had always been so.
    pub fn start(&mut self, key_pressed: bool)
        ensures
            final(self)@ == (KnobKeyState {
                last_key_reading: key_pressed,
                stable_key_pressed: key_pressed,
                ..released_state()
            }),
    {
        self.last_key_reading = key_pressed;
        self.stable_key_pressed = key_pressed;
        self.ignore_key_until_release = false;
        self.last_key_change_ms = 0;
        self.last_encoder_change_ms = 0;
        self.press_start_ms = 0;
        self.long_reported = false;
    }

    /// Forgets the key's history, keeping when the knob last turned.
    pub fn reset(&mut self)
        ensures
            final(self)@ == (KnobKeyState { last_encoder_change_ms: old(self)@.last_encoder_change_ms, ..released_state() }),
    {
        self.last_key_reading = false;
        self.stable_key_pressed = false;
        self.ignore_key_until_release = false;
        self.last_key_change_ms = 0;
        self.press_start_ms = 0;
        self.long_reported = false;
    }

    /// Records that the knob turned at `now_ms`.
    pub fn note_rotation(&mut self, key_pressed: bool, now_ms: u64)
        ensures
            final(self)@ == spec_note_rotation(old(self)@, key_pressed, now_ms),
    {
        self.last_encoder_change_ms = now_ms;
        if key_pressed {
            self.ignore_key_until_release = true;
        }
    }

    /// Feeds the key's level at `now_ms`; reports a press once a pushed
    /// level settles outside the lockout, and one long press after holding.
    pub fn poll(&mut self, key_pressed: bool, now_ms: u64) -> (event: ButtonEvent)
        ensures
            (final(self)@, event) == spec_knob_poll(old(self)@, key_pressed, now_ms),
    {
        if key_pressed != self.last_key_reading {
            self.last_key_reading = key_pressed;
            self.last_key_change_ms = now_ms;
            if key_pressed && now_ms.saturating_sub(self.last_encoder_change_ms) < KEY_LOCKOUT_AFTER_ROTATION_MS {
                self.ignore_key_until_release = true;
            }
        }
        if !key_pressed {
            self.ignore_key_until_release = false;
        }
        if now_ms.saturating_sub(self.last_encoder_change_ms) < KEY_LOCKOUT_AFTER_ROTATION_MS {
            self.last_key_change_ms = now_ms;
            return ButtonEvent { pressed: false, long_pressed: false };
        }
        if self.ignore_key_until_release {
            return ButtonEvent { pressed: false, long_pressed: false };
        }
        let mut pressed = false;
        let mut long_pressed = false;
        if key_pressed != self.stable_key_pressed && now_ms.saturating_sub(self.last_key_change_ms) >= KEY_DEBOUNCE_MS {
            self.stable_key_pressed = key_pressed;
            if key_pressed {
                self.press_start_ms = now_ms;
                self.long_reported = false;
                pressed = true;
            }
        }
        if self.stable_key_pressed && !self.long_reported
            && now_ms.saturating_sub(self.press_start_ms) >= FLAGS_PRACTICE_EXIT_HOLD_MS {
            self.long_reported = true;
            long_pressed = true;
        }
        ButtonEvent { pressed, long_pressed }
    }
}

impl Default for KnobButton {
    fn default() -> (r: Self)
        ensures
            r@ == released_state(),
    {
        Self::new()
    }
}

/// Within the lockout after a turn the key reports nothing.
pub proof fn law_no_press_while_turning(s: KnobKeyState, key_pressed: bool, now_ms: u64)
    requires
        now_ms >= s.last_encoder_change_ms,
        now_ms - s.last_encoder_change_ms < KEY_LOCKOUT_AFTER_ROTATION_MS,
    ensures
        !spec_knob_poll(s, key_pressed, now_ms).1.pressed,
        !spec_knob_poll(s, key_pressed, now_ms).1.long_pressed,
{
}

/// A key held down while the knob turned reports nothing until it has
/// been released.
pub proof fn law_held_key_ignored_until_release(s: KnobKeyState, now_ms: u64)
    requires
        s.ignore_key_until_release,
    ensures
        !spec_knob_poll(s, true, now_ms).1.pressed,
        !spec_knob_poll(s, true, now_ms).1.long_pressed,
        spec_knob_poll(s, true, now_ms).0.ignore_key_until_release,
{
}

/// One long press per press: once reported, holding on reports no more.
pub proof fn law_knob_long_press_once(s: KnobKeyState, now_ms: u64)
    requires
        s.stable_key_pressed,
        s.last_key_reading,
        s.long_reported,
    ensures
        !spec_knob_poll(s, true, now_ms).1.long_pressed,
        !spec_knob_poll(s, true, now_ms).1.pressed,
{
}

} // verus!
