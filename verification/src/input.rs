use vstd::prelude::*;
use crate::config::{Direction, BUTTON_DEBOUNCE_MS, ENCODER_STEPS_PER_DETENT, JOYSTICK_DEADZONE, JOYSTICK_THRESHOLD};

verus! {

#[derive(Debug, Clone, Copy, PartialEq, Eq, Structural)]
pub struct ButtonEvent {
    pub pressed: bool,
    pub long_pressed: bool,
}

impl Default for ButtonEvent {
    fn default() -> (r: Self)
        ensures
            !r.pressed && !r.long_pressed,
    {
        ButtonEvent { pressed: false, long_pressed: false }
    }
}

#[derive(Debug, Clone, Copy, PartialEq, Eq, Structural)]
pub struct JoystickEvent {
    pub has_direction: bool,
    pub direction: Option<Direction>,
    pub switch_pressed: bool,
    pub switch_long_pressed: bool,
}

impl Default for JoystickEvent {
    fn default() -> (r: Self)
        ensures
            r == (JoystickEvent { has_direction: false, direction: None, switch_pressed: false, switch_long_pressed: false }),
    {
        JoystickEvent { has_direction: false, direction: None, switch_pressed: false, switch_long_pressed: false }
    }
}

#[derive(Debug, Clone, Copy, PartialEq, Eq, Structural)]
pub struct EncoderEvent {
    pub detents: i32,
    pub switch_pressed: bool,
    pub switch_long_pressed: bool,
}

impl Default for EncoderEvent {
    fn default() -> (r: Self)
        ensures
            r == (EncoderEvent { detents: 0, switch_pressed: false, switch_long_pressed: false }),
    {
        EncoderEvent { detents: 0, switch_pressed: false, switch_long_pressed: false }
    }
}

/// Everything the controls reported since the last frame.
#[derive(Debug, Clone, Copy, PartialEq, Eq, Structural)]
pub struct InputFrame {
    pub joystick: JoystickEvent,
    pub encoder: EncoderEvent,
}

impl Default for InputFrame {
    fn default() -> (r: Self)
        ensures
            r == (InputFrame {
                joystick: JoystickEvent { has_direction: false, direction: None, switch_pressed: false, switch_long_pressed: false },
                encoder: EncoderEvent { detents: 0, switch_pressed: false, switch_long_pressed: false },
            }),
    {
        InputFrame { joystick: JoystickEvent::default(), encoder: EncoderEvent::default() }
    }
}

/// The abstract state of a debounced push button.
pub struct ButtonState {
    pub stable_pressed: bool,
    pub last_raw_pressed: bool,
    pub last_change_ms: u64,
    pub press_start_ms: u64,
    pub long_reported: bool,
}

/// A push button whose raw level must hold for the debounce time before it
/// counts; a press held long enough also reports one long press.
#[derive(Debug, Clone)]
pub struct DebouncedButton {
    stable_pressed: bool,
    last_raw_pressed: bool,
    last_change_ms: u64,
    press_start_ms: u64,
    long_reported: bool,
}

impl View for DebouncedButton {
    type V = ButtonState;

    closed spec fn view(&self) -> ButtonState {
        ButtonState {
            stable_pressed: self.stable_pressed,
            last_raw_pressed: self.last_raw_pressed,
            last_change_ms: self.last_change_ms,
            press_start_ms: self.press_start_ms,
            long_reported: self.long_reported,
        }
    }
}

pub open spec fn sat_sub(a: u64, b: u64) -> u64 {
    if a >= b { (a - b) as u64 } else { 0 }
}

/// The button after one poll, and the event it reports.
pub open spec fn spec_poll(s: ButtonState, raw: bool, now: u64, long_ms: u64) -> (ButtonState, ButtonEvent) {
    let s1 = if raw != s.last_raw_pressed {
        ButtonState { last_raw_pressed: raw, last_change_ms: now, ..s }
    } else {
        s
    };
    let settles = sat_sub(now, s1.last_change_ms) >= BUTTON_DEBOUNCE_MS && s1.stable_pressed != raw;
    let s2 = if settles {
        if raw {
            ButtonState { stable_pressed: raw, press_start_ms: now, long_reported: false, ..s1 }
        } else {
            ButtonState { stable_pressed: raw, ..s1 }
        }
    } else {
        s1
    };
    let pressed = settles && raw;
    let long = s2.stable_pressed && !s2.long_reported && sat_sub(now, s2.press_start_ms) >= long_ms;
    let s3 = if long { ButtonState { long_reported: true, ..s2 } } else { s2 };
    (s3, ButtonEvent { pressed, long_pressed: long })
}

impl DebouncedButton {
    /// A released button.
    pub fn new() -> (r: Self)
        ensures
            r@ == (ButtonState { stable_pressed: false, last_raw_pressed: false, last_change_ms: 0, press_start_ms: 0, long_reported: false }),
    {
        DebouncedButton { stable_pressed: false, last_raw_pressed: false, last_change_ms: 0, press_start_ms: 0, long_reported: false }
    }

    /// Feeds the raw level at `now_ms`; reports a press when a pressed level
    /// settles and one long press after `long_press_ms` of holding.
    pub fn poll(&mut self, raw_pressed: bool, now_ms: u64, long_press_ms: u64) -> (event: ButtonEvent)
        ensures
            (final(self)@, event) == spec_poll(old(self)@, raw_pressed, now_ms, long_press_ms),
    {
        if raw_pressed != self.last_raw_pressed {
            self.last_raw_pressed = raw_pressed;
            self.last_change_ms = now_ms;
        }
        let mut event = ButtonEvent { pressed: false, long_pressed: false };
        if now_ms.saturating_sub(self.last_change_ms) >= BUTTON_DEBOUNCE_MS && self.stable_pressed != raw_pressed {
            self.stable_pressed = raw_pressed;
            if raw_pressed {
                self.press_start_ms = now_ms;
                self.long_reported = false;
                event.pressed = true;
            }
        }
        if self.stable_pressed && !self.long_reported && now_ms.saturating_sub(self.press_start_ms) >= long_press_ms {
            self.long_reported = true;
            event.long_pressed = true;
        }
        event
    }
}

impl Default for DebouncedButton {
    fn default() -> (r: Self)
        ensures
            r@ == (ButtonState { stable_pressed: false, last_raw_pressed: false, last_change_ms: 0, press_start_ms: 0, long_reported: false }),
    {
        Self::new()
    }
}

/// One long press is reported per press: once reported, holding on reports
/// no more.
pub proof fn law_long_press_reported_once(s: ButtonState, now: u64, long_ms: u64)
    requires
        s.stable_pressed,
        s.last_raw_pressed,
        s.long_reported,
    ensures
        !spec_poll(s, true, now, long_ms).1.long_pressed,
        !spec_poll(s, true, now, long_ms).1.pressed,
{
}

pub open spec fn abs(v: int) -> int {
    if v < 0 { -v } else { v }
}

/// The direction the stick points to: none inside the dead zone, else the
/// dominant axis once it passes the threshold (x wins ties).
pub open spec fn spec_joystick_direction(
    raw_x: i32,
    raw_y: i32,
    center_x: i32,
    center_y: i32,
    invert_x: bool,
    invert_y: bool,
) -> Option<Direction> {
    let dx = if invert_x { -(raw_x - center_x) } else { raw_x - center_x };
    let dy = if invert_y { -(raw_y - center_y) } else { raw_y - center_y };
    if abs(dx) < JOYSTICK_DEADZONE && abs(dy) < JOYSTICK_DEADZONE {
        None
    } else if abs(dx) >= abs(dy) && abs(dx) >= JOYSTICK_THRESHOLD {
        Some(if dx > 0 { Direction::Right } else { Direction::Left })
    } else if abs(dy) > abs(dx) && abs(dy) >= JOYSTICK_THRESHOLD {
        Some(if dy > 0 { Direction::Down } else { Direction::Up })
    } else {
        None
    }
}

pub fn joystick_direction(
    raw_x: i32,
    raw_y: i32,
    center_x: i32,
    center_y: i32,
    invert_x: bool,
    invert_y: bool,
) -> (r: Option<Direction>)
    ensures
        r == spec_joystick_direction(raw_x, raw_y, center_x, center_y, invert_x, invert_y),
{
    let mut dx: i64 = raw_x as i64 - center_x as i64;
    let mut dy: i64 = raw_y as i64 - center_y as i64;
    if invert_x {
        dx = -dx;
    }
    if invert_y {
        dy = -dy;
    }
    let abs_x: i64 = if dx < 0 { -dx } else { dx };
    let abs_y: i64 = if dy < 0 { -dy } else { dy };
    if abs_x < 450 && abs_y < 450 {
        return None;
    }
    if abs_x >= abs_y && abs_x >= 700 {
        Some(if dx > 0 { Direction::Right } else { Direction::Left })
    } else if abs_y > abs_x && abs_y >= 700 {
        Some(if dy > 0 { Direction::Down } else { Direction::Up })
    } else {
        None
    }
}

/// Quadrature step for a transition `(previous state << 2) | new state`.
pub open spec fn spec_movement(index: int) -> i8 {
    if index == 1 || index == 7 || index == 8 || index == 14 {
        -1i8
    } else if index == 2 || index == 4 || index == 11 || index == 13 {
        1
    } else {
        0
    }
}

fn movement(index: u8) -> (r: i8)
    requires
        index < 16,
    ensures
        r == spec_movement(index as int),
{
    match index {
        1 | 7 | 8 | 14 => -1,
        2 | 4 | 11 | 13 => 1,
        _ => 0,
    }
}

/// The abstract state of a quadrature decoder.
pub struct EncoderState {
    /// `(clk << 1) | dt` at the last change.
    pub last_encoded: u8,
    /// Quarter steps since the last detent.
    pub steps: i8,
}

pub open spec fn encoder_valid(s: EncoderState) -> bool {
    s.last_encoded < 4 && -ENCODER_STEPS_PER_DETENT < s.steps < ENCODER_STEPS_PER_DETENT
}

pub open spec fn encode(clk: bool, dt: bool) -> u8 {
    ((if clk { 2int } else { 0int }) + (if dt { 1int } else { 0int })) as u8
}

/// The decoder after one poll, and the detents it reports.
pub open spec fn spec_encoder_poll(s: EncoderState, clk: bool, dt: bool) -> (EncoderState, i32) {
    let encoded = encode(clk, dt);
    if encoded == s.last_encoded {
        (s, 0)
    } else {
        let m = spec_movement(s.last_encoded * 4 + encoded);
        if m == 0 {
            (EncoderState { last_encoded: encoded, steps: 0 }, 0)
        } else {
            let steps = s.steps + m;
            if steps >= ENCODER_STEPS_PER_DETENT {
                (EncoderState { last_encoded: encoded, steps: 0 }, 1)
            } else if steps <= -ENCODER_STEPS_PER_DETENT {
                (EncoderState { last_encoded: encoded, steps: 0 }, -1i32)
            } else {
                (EncoderState { last_encoded: encoded, steps: steps as i8 }, 0)
            }
        }
    }
}

/// Turns the two quadrature lines of a rotary encoder into detents.
#[derive(Debug, Clone)]
pub struct EncoderDecoder {
    last_encoded: u8,
    steps: i8,
}

impl View for EncoderDecoder {
    type V = EncoderState;

    closed spec fn view(&self) -> EncoderState {
        EncoderState { last_encoded: self.last_encoded, steps: self.steps }
    }
}

impl EncoderDecoder {
    pub fn new(initial_clk: bool, initial_dt: bool) -> (r: Self)
        ensures
            r@ == (EncoderState { last_encoded: encode(initial_clk, initial_dt), steps: 0 }),
            encoder_valid(r@),
    {
        let clk: u8 = if initial_clk { 2 } else { 0 };
        let dt: u8 = if initial_dt { 1 } else { 0 };
        EncoderDecoder { last_encoded: clk + dt, steps: 0 }
    }

    /// Feeds the current line levels; returns +1 or -1 on a full detent,
    /// else 0. An invalid transition drops the partial steps.
    pub fn poll(&mut self, clk: bool, dt: bool) -> (detents: i32)
        requires
            encoder_valid(old(self)@),
        ensures
            encoder_valid(final(self)@),
            (final(self)@, detents) == spec_encoder_poll(old(self)@, clk, dt),
    {
        let c: u8 = if clk { 2 } else { 0 };
        let d: u8 = if dt { 1 } else { 0 };
        let encoded = c + d;
        if encoded == self.last_encoded {
            return 0;
        }
        let m = movement(self.last_encoded * 4 + encoded);
        let mut detents: i32 = 0;
        if m != 0 {
            self.steps = self.steps + m;
            if self.steps >= ENCODER_STEPS_PER_DETENT {
                detents = 1;
                self.steps = 0;
            } else if self.steps <= -ENCODER_STEPS_PER_DETENT {
                detents = -1;
                self.steps = 0;
            }
        } else {
            self.steps = 0;
        }
        self.last_encoded = encoded;
        detents
    }
}

/// Reversing a transition between two different line states reverses its
/// quarter step: a move from `a` to `b` counts as much as the move from
/// `b` to `a`, with the opposite sign.
pub proof fn law_reverse_transition_negates(a: int, b: int)
    requires
        0 <= a < 4,
        0 <= b < 4,
        a != b,
    ensures
        spec_movement(a * 4 + b) == -spec_movement(b * 4 + a),
{
}

/// One full quadrature cycle from rest reports exactly one detent, on its
/// last poll, and leaves the decoder as it started: +1 for the clockwise
/// order, in which the next levels are `(!dt, clk)`, and -1 for the
/// counter-clockwise order, in which they are `(dt, !clk)`.
pub proof fn law_full_cycle_one_detent(clk: bool, dt: bool)
    ensures
        ({
            let s0 = EncoderState { last_encoded: encode(clk, dt), steps: 0 };
            let p1 = spec_encoder_poll(s0, !dt, clk);
            let p2 = spec_encoder_poll(p1.0, !clk, !dt);
            let p3 = spec_encoder_poll(p2.0, dt, !clk);
            let p4 = spec_encoder_poll(p3.0, clk, dt);
            p1.1 == 0 && p2.1 == 0 && p3.1 == 0 && p4.1 == 1 && p4.0 == s0
        }),
        ({
            let s0 = EncoderState { last_encoded: encode(clk, dt), steps: 0 };
            let p1 = spec_encoder_poll(s0, dt, !clk);
            let p2 = spec_encoder_poll(p1.0, !clk, !dt);
            let p3 = spec_encoder_poll(p2.0, !dt, clk);
            let p4 = spec_encoder_poll(p3.0, clk, dt);
            p1.1 == 0 && p2.1 == 0 && p3.1 == 0 && p4.1 == -1 && p4.0 == s0
        }),
{
}

/// A quarter step (one line changes) that reports no detent, followed by
/// the step back to the old levels, leaves the decoder exactly as it was
/// and reports nothing either.
pub proof fn law_quarter_step_back_undoes(s: EncoderState, clk0: bool, dt0: bool, clk: bool, dt: bool)
    requires
        encoder_valid(s),
        s.last_encoded == encode(clk0, dt0),
        (clk != clk0) != (dt != dt0),
        spec_encoder_poll(s, clk, dt).1 == 0,
    ensures
        spec_encoder_poll(spec_encoder_poll(s, clk, dt).0, clk0, dt0) == (s, 0i32),
{
}

/// A poll in which both lines changed at once is no valid quarter step:
/// it reports nothing and drops the partial steps.
pub proof fn law_double_change_resets(s: EncoderState, clk0: bool, dt0: bool, clk: bool, dt: bool)
    requires
        encoder_valid(s),
        s.last_encoded == encode(clk0, dt0),
        clk != clk0,
        dt != dt0,
    ensures
        spec_encoder_poll(s, clk, dt) == (EncoderState { last_encoded: encode(clk, dt), steps: 0 }, 0i32),
{
}

} // verus!
