use orion_core::app::AppAction;
use orion_core::config::Direction;
use orion_core::flappy::{FlappyMode, FlappyPauseAction};
use orion_core::flappy_application::FlappyApplication;
use orion_core::input::{EncoderEvent, InputFrame, JoystickEvent};
use orion_core::render::{DrawCommand, RecordingDisplay};
use orion_core::rng::ScriptedRng;
use orion_core::speaker::SilentSpeaker;
use orion_core::store::MemoryHighScoreStore;

#[test]
fn switch_starts_game() {
    let mut app = FlappyApplication::new();
    let mut store = MemoryHighScoreStore::new();
    let mut rng = ScriptedRng::new(vec![1]);
    let mut display = RecordingDisplay::new();
    app.enter(&store);

    let action = app.update(
        &mut display,
        &mut store,
        &mut rng,
        &mut SilentSpeaker,
        InputFrame {
            joystick: JoystickEvent {
                switch_pressed: true,
                ..JoystickEvent::default()
            },
            ..InputFrame::default()
        },
        100,
    );
    assert_eq!(action, AppAction::RedrawFull);
    assert_eq!(app.game().mode(), FlappyMode::Playing);
}

#[test]
fn joystick_up_flaps_and_held_input_is_guarded() {
    let mut app = FlappyApplication::new();
    let mut store = MemoryHighScoreStore::new();
    let mut rng = ScriptedRng::new(vec![1]);
    let mut display = RecordingDisplay::new();
    app.enter(&store);
    app.game_mut().start(&store, &mut rng, 0);

    let input = InputFrame {
        joystick: JoystickEvent {
            has_direction: true,
            direction: Some(Direction::Up),
            ..JoystickEvent::default()
        },
        ..InputFrame::default()
    };
    app.set_last_flap_us(-200_000);
    app.update(&mut display, &mut store, &mut rng, &mut SilentSpeaker, input, 200_000);
    let first_velocity = app.game().velocity_fp();
    app.game_mut().mark_ticked(400_000);
    app.update(&mut display, &mut store, &mut rng, &mut SilentSpeaker, input, 400_000);
    assert_eq!(app.game().velocity_fp(), first_velocity);
}

#[test]
fn switch_pauses_and_continue_resumes() {
    let mut app = FlappyApplication::new();
    let mut store = MemoryHighScoreStore::new();
    let mut rng = ScriptedRng::new(vec![1]);
    let mut display = RecordingDisplay::new();
    app.enter(&store);
    app.game_mut().start(&store, &mut rng, 0);

    app.update(
        &mut display,
        &mut store,
        &mut rng,
        &mut SilentSpeaker,
        InputFrame {
            encoder: EncoderEvent {
                switch_pressed: true,
                ..EncoderEvent::default()
            },
            ..InputFrame::default()
        },
        100,
    );
    assert_eq!(app.game().mode(), FlappyMode::Paused);

    let action = app.update(
        &mut display,
        &mut store,
        &mut rng,
        &mut SilentSpeaker,
        InputFrame {
            joystick: JoystickEvent {
                switch_pressed: true,
                ..JoystickEvent::default()
            },
            ..InputFrame::default()
        },
        200,
    );
    assert_eq!(action, AppAction::RedrawFull);
    assert_eq!(app.game().mode(), FlappyMode::Playing);
}

#[test]
fn flappy_application_pause_exit_returns_to_launcher() {
    let mut app = FlappyApplication::new();
    let mut store = MemoryHighScoreStore::new();
    let mut rng = ScriptedRng::new(vec![1]);
    let mut display = RecordingDisplay::new();
    app.enter(&store);
    app.game_mut().start(&store, &mut rng, 0);
    app.game_mut().pause();
    app.game_mut().cycle_pause_action();

    let action = app.update(
        &mut display,
        &mut store,
        &mut rng,
        &mut SilentSpeaker,
        InputFrame {
            joystick: JoystickEvent {
                switch_pressed: true,
                ..JoystickEvent::default()
            },
            ..InputFrame::default()
        },
        100,
    );
    assert_eq!(action, AppAction::ExitToLauncher);
}

#[test]
fn flappy_application_normal_tick_uses_delta_render() {
    let mut app = FlappyApplication::new();
    let mut store = MemoryHighScoreStore::new();
    let mut rng = ScriptedRng::new(vec![1]);
    let mut display = RecordingDisplay::new();
    app.enter(&store);
    app.game_mut().start(&store, &mut rng, 0);

    let action = app.update(
        &mut display,
        &mut store,
        &mut rng,
        &mut SilentSpeaker,
        InputFrame::default(),
        orion_core::flappy::FLAPPY_TICK_US + 1,
    );
    assert_eq!(action, AppAction::Nothing);
    assert!(!display.commands().iter().any(|command| {
        matches!(
            command,
            DrawCommand::Fill {
                rect: orion_core::render::Rect {
                    x: 0,
                    y: 0,
                    w: 320,
                    h: 240
                },
                ..
            }
        )
    }));
}
