use orion_core::config::Direction;
use orion_core::input::{joystick_direction, ButtonEvent, DebouncedButton, EncoderDecoder};

#[test]
fn joystick_uses_dominant_axis_and_threshold() {
    assert_eq!(
        joystick_direction(2048, 2048, 2048, 2048, false, false),
        None
    );
    assert_eq!(
        joystick_direction(3000, 2200, 2048, 2048, false, false),
        Some(Direction::Right)
    );
    assert_eq!(
        joystick_direction(1800, 3100, 2048, 2048, false, false),
        Some(Direction::Down)
    );
    assert_eq!(
        joystick_direction(3000, 2200, 2048, 2048, true, false),
        Some(Direction::Left)
    );
}

#[test]
fn button_debounces_press_and_reports_long_press_once() {
    let mut button = DebouncedButton::new();
    assert_eq!(button.poll(true, 10, 500), ButtonEvent::default());
    assert_eq!(
        button.poll(true, 90, 500),
        ButtonEvent {
            pressed: true,
            long_pressed: false
        }
    );
    assert_eq!(
        button.poll(true, 590, 500),
        ButtonEvent {
            pressed: false,
            long_pressed: true
        }
    );
    assert_eq!(button.poll(true, 700, 500), ButtonEvent::default());
}

#[test]
fn encoder_counts_quadrature_detent() {
    let mut encoder = EncoderDecoder::new(false, false);
    let sequence = [(false, true), (true, true), (true, false), (false, false)];
    let detents: i32 = sequence
        .into_iter()
        .map(|(clk, dt)| encoder.poll(clk, dt))
        .sum();
    assert_eq!(detents, -1);
}
