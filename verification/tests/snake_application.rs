use orion_core::app::AppAction;
use orion_core::config::Direction;
use orion_core::input::{EncoderEvent, InputFrame, JoystickEvent};
use orion_core::render::{DrawCommand, RecordingDisplay};
use orion_core::rng::ScriptedRng;
use orion_core::snake::{GameMode, SelectionField};
use orion_core::snake_application::SnakeApplication;
use orion_core::store::MemoryHighScoreStore;

fn start_playing() -> (SnakeApplication, RecordingDisplay, MemoryHighScoreStore, ScriptedRng) {
        let mut app = SnakeApplication::new();
        let mut display = RecordingDisplay::new();
        let mut scores = MemoryHighScoreStore::new();
        let mut rng = ScriptedRng::new(vec![0, 0, 12, 7]);
        app.enter(&scores);
        let _ = app.update(
            &mut display,
            &mut scores,
            &mut rng,
            InputFrame {
                joystick: JoystickEvent {
                    switch_pressed: true,
                    ..JoystickEvent::default()
                },
                ..InputFrame::default()
            },
            1,
        );
        assert_eq!(app.game().mode(), GameMode::Playing);
        (app, display, scores, rng)
    }

    #[test]
    fn switch_starts_game_and_requests_full_redraw() {
        let mut app = SnakeApplication::new();
        let mut display = RecordingDisplay::new();
        let mut scores = MemoryHighScoreStore::new();
        let mut rng = ScriptedRng::new(vec![0, 0, 12, 7]);
        app.enter(&scores);

        let action = app.update(
            &mut display,
            &mut scores,
            &mut rng,
            InputFrame {
                joystick: JoystickEvent {
                    switch_pressed: true,
                    ..JoystickEvent::default()
                },
                ..InputFrame::default()
            },
            1,
        );

        assert_eq!(action, AppAction::RedrawFull);
        assert_eq!(app.game().mode(), GameMode::Playing);
    }

    #[test]
    fn encoder_speed_change_renders_hud_while_playing() {
        let (mut app, mut display, mut scores, mut rng) = start_playing();
        display.clear();

        let action = app.update(
            &mut display,
            &mut scores,
            &mut rng,
            InputFrame {
                encoder: EncoderEvent {
                    detents: 1,
                    ..EncoderEvent::default()
                },
                ..InputFrame::default()
            },
            2,
        );

        assert_eq!(action, AppAction::Nothing);
        assert!(matches!(
            display.commands().last(),
            Some(DrawCommand::Flush)
        ));
    }

    #[test]
    fn joystick_direction_requests_direction_while_playing() {
        let (mut app, mut display, mut scores, mut rng) = start_playing();
        let _ = app.update(
            &mut display,
            &mut scores,
            &mut rng,
            InputFrame {
                joystick: JoystickEvent {
                    has_direction: true,
                    direction: Some(Direction::Up),
                    ..JoystickEvent::default()
                },
                ..InputFrame::default()
            },
            2,
        );
        assert_eq!(app.game().direction(), Direction::Right);
    }

    #[test]
    fn switch_pauses_while_playing() {
        let (mut app, mut display, mut scores, mut rng) = start_playing();
        let action = app.update(
            &mut display,
            &mut scores,
            &mut rng,
            InputFrame {
                joystick: JoystickEvent {
                    switch_pressed: true,
                    ..JoystickEvent::default()
                },
                ..InputFrame::default()
            },
            2,
        );
        assert_eq!(action, AppAction::RedrawFull);
        assert_eq!(app.game().mode(), GameMode::Paused);
    }

    #[test]
    fn pause_encoder_cycles_action() {
        let (mut app, mut display, mut scores, mut rng) = start_playing();
        let _ = app.update(
            &mut display,
            &mut scores,
            &mut rng,
            InputFrame {
                joystick: JoystickEvent {
                    switch_pressed: true,
                    ..JoystickEvent::default()
                },
                ..InputFrame::default()
            },
            2,
        );
        assert_eq!(app.game().mode(), GameMode::Paused);

        let action = app.update(
            &mut display,
            &mut scores,
            &mut rng,
            InputFrame {
                encoder: EncoderEvent {
                    detents: 1,
                    ..EncoderEvent::default()
                },
                ..InputFrame::default()
            },
            3,
        );
        assert_eq!(action, AppAction::RedrawFull);
    }

    #[test]
    fn pause_resume_continues_playing() {
        let (mut app, mut display, mut scores, mut rng) = start_playing();
        let _ = app.update(
            &mut display,
            &mut scores,
            &mut rng,
            InputFrame {
                joystick: JoystickEvent {
                    switch_pressed: true,
                    ..JoystickEvent::default()
                },
                ..InputFrame::default()
            },
            2,
        );
        let action = app.update(
            &mut display,
            &mut scores,
            &mut rng,
            InputFrame {
                joystick: JoystickEvent {
                    switch_pressed: true,
                    ..JoystickEvent::default()
                },
                ..InputFrame::default()
            },
            3,
        );
        assert_eq!(action, AppAction::RedrawFull);
        assert_eq!(app.game().mode(), GameMode::Playing);
    }

    #[test]
    fn snake_application_pause_exit_returns_to_launcher() {
        let (mut app, mut display, mut scores, mut rng) = start_playing();
        let _ = app.update(
            &mut display,
            &mut scores,
            &mut rng,
            InputFrame {
                joystick: JoystickEvent {
                    switch_pressed: true,
                    ..JoystickEvent::default()
                },
                ..InputFrame::default()
            },
            2,
        );
        app.cycle_pause_action();
        let action = app.update(
            &mut display,
            &mut scores,
            &mut rng,
            InputFrame {
                joystick: JoystickEvent {
                    switch_pressed: true,
                    ..JoystickEvent::default()
                },
                ..InputFrame::default()
            },
            3,
        );
        assert_eq!(action, AppAction::ExitToLauncher);
    }

#[test]
    fn choosing_joystick_up_down_changes_field() {
        let mut app = SnakeApplication::new();
        let mut display = RecordingDisplay::new();
        let mut scores = MemoryHighScoreStore::new();
        let mut rng = ScriptedRng::new(vec![0]);
        app.enter(&scores);

        let action = app.update(
            &mut display,
            &mut scores,
            &mut rng,
            InputFrame {
                joystick: JoystickEvent {
                    has_direction: true,
                    direction: Some(Direction::Down),
                    ..JoystickEvent::default()
                },
                ..InputFrame::default()
            },
            500_000,
        );
        assert_eq!(action, AppAction::RedrawFull);
        assert_eq!(app.game().selected_field(), SelectionField::Border);
    }

    #[test]
    fn choosing_joystick_left_right_changes_speed() {
        let mut app = SnakeApplication::new();
        let mut display = RecordingDisplay::new();
        let mut scores = MemoryHighScoreStore::new();
        let mut rng = ScriptedRng::new(vec![0]);
        app.enter(&scores);

        let action = app.update(
            &mut display,
            &mut scores,
            &mut rng,
            InputFrame {
                joystick: JoystickEvent {
                    has_direction: true,
                    direction: Some(Direction::Right),
                    ..JoystickEvent::default()
                },
                ..InputFrame::default()
            },
            500_000,
        );
        assert_eq!(action, AppAction::RedrawFull);
    }

    #[test]
    fn choosing_encoder_changes_value() {
        let mut app = SnakeApplication::new();
        let mut display = RecordingDisplay::new();
        let mut scores = MemoryHighScoreStore::new();
        let mut rng = ScriptedRng::new(vec![0]);
        app.enter(&scores);

        let action = app.update(
            &mut display,
            &mut scores,
            &mut rng,
            InputFrame {
                encoder: EncoderEvent {
                    detents: 1,
                    ..EncoderEvent::default()
                },
                ..InputFrame::default()
            },
            1,
        );
        assert_eq!(action, AppAction::RedrawFull);
    }

    #[test]
    fn choosing_switch_on_exit_returns_to_launcher() {
        let mut app = SnakeApplication::new();
        let mut display = RecordingDisplay::new();
        let mut scores = MemoryHighScoreStore::new();
        let mut rng = ScriptedRng::new(vec![0]);
        app.enter(&scores);
        app.game_mut().select_next_field();
        app.game_mut().select_next_field();
        assert_eq!(app.game().selected_field(), SelectionField::Exit);

        let action = app.update(
            &mut display,
            &mut scores,
            &mut rng,
            InputFrame {
                joystick: JoystickEvent {
                    switch_pressed: true,
                    ..JoystickEvent::default()
                },
                ..InputFrame::default()
            },
            1,
        );
        assert_eq!(action, AppAction::ExitToLauncher);
    }

    #[test]
    fn pause_joystick_direction_cycles_action() {
        let (mut app, mut display, mut scores, mut rng) = start_playing();
        let _ = app.update(
            &mut display,
            &mut scores,
            &mut rng,
            InputFrame {
                joystick: JoystickEvent {
                    switch_pressed: true,
                    ..JoystickEvent::default()
                },
                ..InputFrame::default()
            },
            2,
        );
        let action = app.update(
            &mut display,
            &mut scores,
            &mut rng,
            InputFrame {
                joystick: JoystickEvent {
                    has_direction: true,
                    direction: Some(Direction::Down),
                    ..JoystickEvent::default()
                },
                ..InputFrame::default()
            },
            500_000,
        );
        assert_eq!(action, AppAction::RedrawFull);
    }

    #[test]
    fn accept_menu_direction_throttles() {
        let mut app = SnakeApplication::new();
        assert!(app.accept_menu_direction(1_000_000));
        assert!(!app.accept_menu_direction(1_000_100));
        assert!(app.accept_menu_direction(1_500_000));
    }

    #[test]
    fn render_full_when_paused() {
        let (mut app, _display, _scores, _rng) = start_playing();
        let _ = app.game_mut().press_switch(&_scores, &mut ScriptedRng::new(vec![0]), 2);
        assert_eq!(app.game().mode(), GameMode::Paused);
        let mut display = RecordingDisplay::new();
        app.render_full(&mut display);
        assert!(display.commands().len() > 5);
    }

    #[test]
    fn title_returns_snake() {
        let app = SnakeApplication::new();
        assert_eq!(app.title(), "SNAKE");
    }

    #[test]
    fn game_over_switch_returns_to_choosing() {
        let (mut app, mut display, mut scores, mut rng) = start_playing();
        app.game_mut().set_mode(GameMode::Over);
        let action = app.update(
            &mut display,
            &mut scores,
            &mut rng,
            InputFrame {
                joystick: JoystickEvent {
                    switch_pressed: true,
                    ..JoystickEvent::default()
                },
                ..InputFrame::default()
            },
            2,
        );
        assert_eq!(action, AppAction::RedrawFull);
    }

#[test]
fn setup_cursor_up_from_speed_wraps_to_exit_and_back() {
    let mut app = SnakeApplication::new();
    let mut display = RecordingDisplay::new();
    let mut scores = MemoryHighScoreStore::new();
    let mut rng = ScriptedRng::new(vec![0]);
    app.enter(&scores);
    let up = InputFrame {
        joystick: JoystickEvent { has_direction: true, direction: Some(Direction::Up), ..JoystickEvent::default() },
        ..InputFrame::default()
    };
    let down = InputFrame {
        joystick: JoystickEvent { has_direction: true, direction: Some(Direction::Down), ..JoystickEvent::default() },
        ..InputFrame::default()
    };
    assert_eq!(app.update(&mut display, &mut scores, &mut rng, up, 500_000), AppAction::RedrawFull);
    assert_eq!(app.game().selected_field(), SelectionField::Exit);
    assert_eq!(app.update(&mut display, &mut scores, &mut rng, down, 1_000_000), AppAction::RedrawFull);
    assert_eq!(app.game().selected_field(), SelectionField::Speed);
}

#[test]
fn paused_knob_and_direction_in_one_frame_cancel_out() {
    let (mut app, mut display, mut scores, mut rng) = start_playing();
    let _ = app.update(
        &mut display,
        &mut scores,
        &mut rng,
        InputFrame { joystick: JoystickEvent { switch_pressed: true, ..JoystickEvent::default() }, ..InputFrame::default() },
        2,
    );
    let action = app.update(
        &mut display,
        &mut scores,
        &mut rng,
        InputFrame {
            joystick: JoystickEvent { has_direction: true, direction: Some(Direction::Down), ..JoystickEvent::default() },
            encoder: EncoderEvent { detents: 1, ..EncoderEvent::default() },
        },
        600_000,
    );
    assert_eq!(action, AppAction::RedrawFull);
    assert_eq!(app.pause_action(), orion_core::snake_application::PauseAction::Continue);
}
