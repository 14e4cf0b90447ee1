use orion_core::app::AppAction;
use orion_core::config::Direction;
use orion_core::game2048::Game2048Mode;
use orion_core::game2048_application::Game2048Application;
use orion_core::input::{EncoderEvent, InputFrame, JoystickEvent};
use orion_core::render::RecordingDisplay;
use orion_core::rng::ScriptedRng;
use orion_core::store::MemoryHighScoreStore;

#[test]
fn game2048_application_switch_starts_game_from_choosing() {
    let mut app = Game2048Application::new();
    let mut display = RecordingDisplay::new();
    let mut scores = MemoryHighScoreStore::new();
    let mut rng = ScriptedRng::new(vec![0, 5, 3, 7]);
    app.enter(&scores);

    let action = app.update(
        &mut display,
        &mut scores,
        &mut rng,
        InputFrame {
            joystick: JoystickEvent {
                switch_pressed: true,
                ..JoystickEvent::default()
            },
            ..InputFrame::default()
        },
        1,
    );

    assert_eq!(action, AppAction::RedrawFull);
    assert_eq!(app.game().mode(), Game2048Mode::Playing);
}

#[test]
fn direction_slides_tiles_during_play() {
    let mut app = Game2048Application::new();
    let mut display = RecordingDisplay::new();
    let mut scores = MemoryHighScoreStore::new();
    let mut rng = ScriptedRng::new(vec![0, 5, 3, 7, 2, 8]);
    app.enter(&scores);

    let _ = app.update(
        &mut display,
        &mut scores,
        &mut rng,
        InputFrame {
            joystick: JoystickEvent {
                switch_pressed: true,
                ..JoystickEvent::default()
            },
            ..InputFrame::default()
        },
        1,
    );
    assert_eq!(app.game().mode(), Game2048Mode::Playing);
    display.clear();

    let action = app.update(
        &mut display,
        &mut scores,
        &mut rng,
        InputFrame {
            joystick: JoystickEvent {
                has_direction: true,
                direction: Some(Direction::Right),
                ..JoystickEvent::default()
            },
            ..InputFrame::default()
        },
        2,
    );

    assert_eq!(action, AppAction::Nothing);
    assert!(display.commands().len() > 1);
}

#[test]
fn grid_size_adjustment_in_choosing() {
    let mut app = Game2048Application::new();
    let mut display = RecordingDisplay::new();
    let mut scores = MemoryHighScoreStore::new();
    let mut rng = ScriptedRng::new(vec![0]);
    app.enter(&scores);

    let action = app.update(
        &mut display,
        &mut scores,
        &mut rng,
        InputFrame {
            encoder: EncoderEvent {
                detents: 1,
                ..EncoderEvent::default()
            },
            ..InputFrame::default()
        },
        1,
    );

    assert_eq!(action, AppAction::RedrawFull);
}

#[test]
fn pause_switch_resumes_playing() {
    let mut app = Game2048Application::new();
    let mut display = RecordingDisplay::new();
    let mut scores = MemoryHighScoreStore::new();
    let mut rng = ScriptedRng::new(vec![0, 5, 3, 7]);
    app.enter(&scores);

    let _ = app.update(
        &mut display,
        &mut scores,
        &mut rng,
        InputFrame {
            joystick: JoystickEvent {
                switch_pressed: true,
                ..JoystickEvent::default()
            },
            ..InputFrame::default()
        },
        1,
    );
    assert_eq!(app.game().mode(), Game2048Mode::Playing);

    let _ = app.update(
        &mut display,
        &mut scores,
        &mut rng,
        InputFrame {
            joystick: JoystickEvent {
                switch_pressed: true,
                ..JoystickEvent::default()
            },
            ..InputFrame::default()
        },
        2,
    );
    assert_eq!(app.game().mode(), Game2048Mode::Paused);

    let _ = app.update(
        &mut display,
        &mut scores,
        &mut rng,
        InputFrame {
            joystick: JoystickEvent {
                switch_pressed: true,
                ..JoystickEvent::default()
            },
            ..InputFrame::default()
        },
        3,
    );
    assert_eq!(app.game().mode(), Game2048Mode::Playing);
}

#[test]
fn delta_render_produces_draw_commands() {
    let mut app = Game2048Application::new();
    let mut display = RecordingDisplay::new();
    let mut scores = MemoryHighScoreStore::new();
    let mut rng = ScriptedRng::new(vec![0, 5, 3, 7]);
    app.enter(&scores);

    let _ = app.update(
        &mut display,
        &mut scores,
        &mut rng,
        InputFrame {
            joystick: JoystickEvent {
                switch_pressed: true,
                ..JoystickEvent::default()
            },
            ..InputFrame::default()
        },
        1,
    );

    let _ = app.update(
        &mut display,
        &mut scores,
        &mut rng,
        InputFrame {
            joystick: JoystickEvent {
                has_direction: true,
                direction: Some(Direction::Right),
                ..JoystickEvent::default()
            },
            ..InputFrame::default()
        },
        2,
    );

    display.clear();
    let _ = app.update(
        &mut display,
        &mut scores,
        &mut rng,
        InputFrame {
            joystick: JoystickEvent {
                has_direction: true,
                direction: Some(Direction::Left),
                ..JoystickEvent::default()
            },
            ..InputFrame::default()
        },
        3,
    );

    assert!(display.commands().len() > 1);
    assert!(matches!(display.commands().last(), Some(orion_core::render::DrawCommand::Flush)));
}
