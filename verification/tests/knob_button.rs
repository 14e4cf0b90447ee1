use orion_core::knob_button::KnobButton;

#[test]
fn knob_press_settles_after_debounce() {
    let mut key = KnobButton::new();
    let first = key.poll(true, 1_000);
    assert!(!first.pressed);
    let settled = key.poll(true, 1_120);
    assert!(settled.pressed);
    assert!(!settled.long_pressed);
}

#[test]
fn knob_long_press_reported_once() {
    let mut key = KnobButton::new();
    key.poll(true, 1_000);
    assert!(key.poll(true, 1_200).pressed);
    let long = key.poll(true, 1_900);
    assert!(long.long_pressed);
    let later = key.poll(true, 3_000);
    assert!(!later.long_pressed);
    assert!(!later.pressed);
}

#[test]
fn knob_key_locked_out_after_turn() {
    let mut key = KnobButton::new();
    key.note_rotation(false, 1_000);
    key.poll(true, 1_010);
    let during = key.poll(true, 1_200);
    assert!(!during.pressed);
    let after = key.poll(true, 1_400);
    assert!(!after.pressed);
    key.poll(false, 1_500);
    key.poll(false, 1_700);
    key.poll(true, 2_000);
    assert!(key.poll(true, 2_200).pressed);
}

#[test]
fn knob_key_held_while_turning_waits_for_release() {
    let mut key = KnobButton::new();
    key.start(true);
    key.note_rotation(true, 1_000);
    assert!(!key.poll(true, 2_000).pressed);
    assert!(!key.poll(true, 3_000).long_pressed);
}
