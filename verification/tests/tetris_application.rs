use orion_core::app::AppAction;
use orion_core::config::Direction;
use orion_core::input::{EncoderEvent, InputFrame, JoystickEvent};
use orion_core::render::{DrawCommand, RecordingDisplay, Rect};
use orion_core::rng::ScriptedRng;
use orion_core::tetris::TetrisMode;
use orion_core::tetris_application::TetrisApplication;

#[test]
fn tetris_application_switch_starts_game_from_choosing() {
    let mut app = TetrisApplication::new();
    let mut display = RecordingDisplay::new();
    let mut rng = ScriptedRng::new(vec![0, 1]);
    app.enter();

    let action = app.update(
        &mut display,
        &mut rng,
        InputFrame {
            joystick: JoystickEvent {
                switch_pressed: true,
                ..JoystickEvent::default()
            },
            ..InputFrame::default()
        },
        1,
    );

    assert_eq!(action, AppAction::RedrawFull);
    assert_eq!(app.game().mode(), TetrisMode::Playing);
}

#[test]
fn joystick_moves_active_piece() {
    let mut app = TetrisApplication::new();
    let mut display = RecordingDisplay::new();
    let mut rng = ScriptedRng::new(vec![1, 1]);
    app.enter();
    let _ = app.update(
        &mut display,
        &mut rng,
        InputFrame {
            joystick: JoystickEvent {
                switch_pressed: true,
                ..JoystickEvent::default()
            },
            ..InputFrame::default()
        },
        1,
    );
    display.clear();

    let action = app.update(
        &mut display,
        &mut rng,
        InputFrame {
            joystick: JoystickEvent {
                has_direction: true,
                direction: Some(Direction::Left),
                ..JoystickEvent::default()
            },
            ..InputFrame::default()
        },
        200_000,
    );

    assert_eq!(action, AppAction::Nothing);
    assert_eq!(app.game().active().x, 2);
    assert_delta_rendered_without_full_clear(&display);
}

#[test]
fn encoder_moves_piece_horizontally() {
    let mut app = TetrisApplication::new();
    let mut display = RecordingDisplay::new();
    let mut rng = ScriptedRng::new(vec![1, 1]);
    app.enter();
    let _ = app.update(
        &mut display,
        &mut rng,
        InputFrame {
            joystick: JoystickEvent {
                switch_pressed: true,
                ..JoystickEvent::default()
            },
            ..InputFrame::default()
        },
        1,
    );
    display.clear();

    let action = app.update(
        &mut display,
        &mut rng,
        InputFrame {
            encoder: EncoderEvent {
                detents: 1,
                ..EncoderEvent::default()
            },
            ..InputFrame::default()
        },
        2,
    );

    assert_eq!(action, AppAction::Nothing);
    assert_eq!(app.game().active().x, 4);
    assert_delta_rendered_without_full_clear(&display);
}

#[test]
fn gravity_tick_renders_delta() {
    let mut app = TetrisApplication::new();
    let mut display = RecordingDisplay::new();
    let mut rng = ScriptedRng::new(vec![1, 1]);
    app.enter();
    let _ = app.update(
        &mut display,
        &mut rng,
        InputFrame {
            joystick: JoystickEvent {
                switch_pressed: true,
                ..JoystickEvent::default()
            },
            ..InputFrame::default()
        },
        1,
    );
    display.clear();

    let action = app.update(&mut display, &mut rng, InputFrame::default(), 800_001);

    assert_eq!(action, AppAction::Nothing);
    assert_eq!(app.game().active().y, 1);
    assert_delta_rendered_without_full_clear(&display);
}

#[test]
fn tetris_application_pause_exit_returns_to_launcher() {
    let mut app = TetrisApplication::new();
    let mut display = RecordingDisplay::new();
    let mut rng = ScriptedRng::new(vec![1, 1]);
    app.enter();
    let _ = app.update(
        &mut display,
        &mut rng,
        InputFrame {
            joystick: JoystickEvent {
                switch_pressed: true,
                ..JoystickEvent::default()
            },
            ..InputFrame::default()
        },
        1,
    );
    let _ = app.update(
        &mut display,
        &mut rng,
        InputFrame {
            joystick: JoystickEvent {
                switch_long_pressed: true,
                ..JoystickEvent::default()
            },
            ..InputFrame::default()
        },
        2,
    );
    let _ = app.update(
        &mut display,
        &mut rng,
        InputFrame {
            encoder: EncoderEvent {
                detents: 1,
                ..EncoderEvent::default()
            },
            ..InputFrame::default()
        },
        3,
    );

    let action = app.update(
        &mut display,
        &mut rng,
        InputFrame {
            joystick: JoystickEvent {
                switch_pressed: true,
                ..JoystickEvent::default()
            },
            ..InputFrame::default()
        },
        4,
    );

    assert_eq!(action, AppAction::ExitToLauncher);
}

#[test]
fn short_switch_rotates_piece_during_play() {
    let mut app = TetrisApplication::new();
    let mut display = RecordingDisplay::new();
    let mut rng = ScriptedRng::new(vec![0, 1]);
    app.enter();
    let _ = app.update(
        &mut display,
        &mut rng,
        InputFrame {
            joystick: JoystickEvent {
                switch_pressed: true,
                ..JoystickEvent::default()
            },
            ..InputFrame::default()
        },
        1,
    );
    display.clear();

    let action = app.update(
        &mut display,
        &mut rng,
        InputFrame {
            joystick: JoystickEvent {
                switch_pressed: true,
                ..JoystickEvent::default()
            },
            ..InputFrame::default()
        },
        2,
    );

    assert_eq!(action, AppAction::Nothing);
    assert_eq!(app.game().mode(), TetrisMode::Playing);
    assert_eq!(app.game().active().rotation, 1);
    assert_delta_rendered_without_full_clear(&display);
}

#[test]
fn long_switch_pauses_during_play() {
    let mut app = TetrisApplication::new();
    let mut display = RecordingDisplay::new();
    let mut rng = ScriptedRng::new(vec![0, 1]);
    app.enter();
    let _ = app.update(
        &mut display,
        &mut rng,
        InputFrame {
            joystick: JoystickEvent {
                switch_pressed: true,
                ..JoystickEvent::default()
            },
            ..InputFrame::default()
        },
        1,
    );

    let action = app.update(
        &mut display,
        &mut rng,
        InputFrame {
            joystick: JoystickEvent {
                switch_long_pressed: true,
                ..JoystickEvent::default()
            },
            ..InputFrame::default()
        },
        2,
    );

    assert_eq!(action, AppAction::RedrawFull);
    assert_eq!(app.game().mode(), TetrisMode::Paused);
}

fn assert_delta_rendered_without_full_clear(display: &RecordingDisplay) {
    assert!(display.commands().len() > 1);
    assert!(!display.commands().iter().any(|command| matches!(
        command,
        DrawCommand::Fill {
            rect: Rect {
                x: 0,
                y: 0,
                w: 320,
                h: 240
            },
            ..
        }
    )));
    assert!(matches!(
        display.commands().last(),
        Some(DrawCommand::Flush)
    ));
}

#[test]
fn start_menu_exit_entry_leaves_and_resets_menu() {
    let mut app = TetrisApplication::new();
    let mut display = RecordingDisplay::new();
    let mut rng = ScriptedRng::new(vec![0, 1]);
    app.enter();
    let action = app.update(
        &mut display,
        &mut rng,
        InputFrame { encoder: EncoderEvent { detents: 1, ..EncoderEvent::default() }, ..InputFrame::default() },
        1,
    );
    assert_eq!(action, AppAction::RedrawFull);
    assert_eq!(app.choosing_action(), orion_core::tetris_application::TetrisChoosingAction::Exit);
    let action = app.update(
        &mut display,
        &mut rng,
        InputFrame { joystick: JoystickEvent { switch_pressed: true, ..JoystickEvent::default() }, ..InputFrame::default() },
        2,
    );
    assert_eq!(action, AppAction::ExitToLauncher);
    assert_eq!(app.choosing_action(), orion_core::tetris_application::TetrisChoosingAction::Start);
    assert_eq!(app.game().mode(), TetrisMode::Choosing);
}

#[test]
fn knob_left_moves_piece_left() {
    let mut app = TetrisApplication::new();
    let mut display = RecordingDisplay::new();
    let mut rng = ScriptedRng::new(vec![1, 1]);
    app.enter();
    let _ = app.update(
        &mut display,
        &mut rng,
        InputFrame { joystick: JoystickEvent { switch_pressed: true, ..JoystickEvent::default() }, ..InputFrame::default() },
        1,
    );
    let action = app.update(
        &mut display,
        &mut rng,
        InputFrame { encoder: EncoderEvent { detents: -1, ..EncoderEvent::default() }, ..InputFrame::default() },
        2,
    );
    assert_eq!(action, AppAction::Nothing);
    assert_eq!(app.game().active().x, 2);
}
