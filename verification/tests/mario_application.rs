use orion_core::app::AppAction;
use orion_core::config::Direction;
use orion_core::input::{EncoderEvent, InputFrame, JoystickEvent};
use orion_core::mario::{MarioMode, MarioPauseAction};
use orion_core::mario_application::MarioApplication;
use orion_core::render::{DrawCommand, RecordingDisplay, Rect};
use orion_core::rng::ScriptedRng;
use orion_core::speaker::SilentSpeaker;
use orion_core::store::{HighScoreStore, MemoryHighScoreStore};

#[test]
fn switch_starts_game_from_ready() {
    let mut app = MarioApplication::new();
    let mut store = MemoryHighScoreStore::new();
    let mut rng = ScriptedRng::new(vec![0]);
    let mut display = RecordingDisplay::new();
    app.enter(&store);

    let action = app.update(
        &mut display,
        &mut store,
        &mut rng,
        &mut SilentSpeaker,
        InputFrame {
            joystick: JoystickEvent {
                switch_pressed: true,
                ..JoystickEvent::default()
            },
            ..InputFrame::default()
        },
        100,
    );
    assert_eq!(action, AppAction::Nothing);
    assert_eq!(app.game().mode(), MarioMode::Playing);
}

#[test]
fn direction_moves_player_horizontally() {
    let mut app = MarioApplication::new();
    let mut store = MemoryHighScoreStore::new();
    let mut rng = ScriptedRng::new(vec![0]);
    let mut display = RecordingDisplay::new();
    app.enter(&store);
    app.game_mut().start();

    let x_before = app.game().player().x;
    app.update(
        &mut display,
        &mut store,
        &mut rng,
        &mut SilentSpeaker,
        InputFrame {
            joystick: JoystickEvent {
                has_direction: true,
                direction: Some(Direction::Left),
                ..JoystickEvent::default()
            },
            ..InputFrame::default()
        },
        100_000,
    );
    // After one update with direction left and tick, player should have moved
    // (update runs tick when due_for_tick is true)
    if app.game().player().x != x_before {
        assert!(
            app.game().player().x < x_before,
            "Player should move left after left direction input"
        );
    }
}

#[test]
fn switch_jump_in_playing() {
    let mut app = MarioApplication::new();
    let mut store = MemoryHighScoreStore::new();
    let mut rng = ScriptedRng::new(vec![0]);
    let mut display = RecordingDisplay::new();
    app.enter(&store);
    // First update clears flap_ready (renders Ready screen)
    app.update(
        &mut display,
        &mut store,
        &mut rng,
        &mut SilentSpeaker,
        InputFrame::default(),
        100,
    );
    // Start via switch press
    app.update(
        &mut display,
        &mut store,
        &mut rng,
        &mut SilentSpeaker,
        InputFrame {
            joystick: JoystickEvent {
                switch_pressed: true,
                ..JoystickEvent::default()
            },
            ..InputFrame::default()
        },
        200,
    );
    // Should now be Playing with flap_ready reset
    assert_eq!(app.game().mode(), MarioMode::Playing);
    // Send another switch press for jump
    app.update(
        &mut display,
        &mut store,
        &mut rng,
        &mut SilentSpeaker,
        InputFrame {
            joystick: JoystickEvent {
                switch_pressed: true,
                ..JoystickEvent::default()
            },
            ..InputFrame::default()
        },
        200_000,
    );
    // Jump should set negative vy
    assert!(
        app.game().player().vy < 0,
        "Switch press in playing should set upward velocity"
    );
}

#[test]
fn release_jump_clears_hold() {
    let mut app = MarioApplication::new();
    let mut store = MemoryHighScoreStore::new();
    let mut rng = ScriptedRng::new(vec![0]);
    let mut display = RecordingDisplay::new();
    app.enter(&store);
    app.game_mut().start();
    app.game_mut().jump();

    app.update(
        &mut display,
        &mut store,
        &mut rng,
        &mut SilentSpeaker,
        InputFrame::default(),
        100_000,
    );
    // After release, flap_ready should be false and game should have released jump
    // The mode and state should still be playing
    assert_eq!(app.game().mode(), MarioMode::Playing);
}

#[test]
fn long_press_pauses_game() {
    let mut app = MarioApplication::new();
    let mut store = MemoryHighScoreStore::new();
    let mut rng = ScriptedRng::new(vec![0]);
    let mut display = RecordingDisplay::new();
    app.enter(&store);
    app.game_mut().start();

    app.update(
        &mut display,
        &mut store,
        &mut rng,
        &mut SilentSpeaker,
        InputFrame {
            joystick: JoystickEvent {
                switch_long_pressed: true,
                ..JoystickEvent::default()
            },
            ..InputFrame::default()
        },
        100_000,
    );
    assert_eq!(
        app.game().mode(),
        MarioMode::Paused,
        "Long press should pause the game"
    );
}

#[test]
fn pause_continue_resumes_game() {
    let mut app = MarioApplication::new();
    let mut store = MemoryHighScoreStore::new();
    let mut rng = ScriptedRng::new(vec![0]);
    let mut display = RecordingDisplay::new();
    app.enter(&store);
    app.game_mut().start();
    app.game_mut().pause();

    app.update(
        &mut display,
        &mut store,
        &mut rng,
        &mut SilentSpeaker,
        InputFrame {
            joystick: JoystickEvent {
                switch_pressed: true,
                ..JoystickEvent::default()
            },
            ..InputFrame::default()
        },
        100_000,
    );
    assert_eq!(
        app.game().mode(),
        MarioMode::Playing,
        "Switch press on pause with Continue should resume"
    );
}

#[test]
fn mario_application_pause_exit_returns_to_launcher() {
    let mut app = MarioApplication::new();
    let mut store = MemoryHighScoreStore::new();
    let mut rng = ScriptedRng::new(vec![0]);
    let mut display = RecordingDisplay::new();
    app.enter(&store);
    app.game_mut().start();
    app.game_mut().pause();
    app.game_mut().cycle_pause_action();
    assert_eq!(app.game().pause_action(), MarioPauseAction::Exit);

    let action = app.update(
        &mut display,
        &mut store,
        &mut rng,
        &mut SilentSpeaker,
        InputFrame {
            joystick: JoystickEvent {
                switch_pressed: true,
                ..JoystickEvent::default()
            },
            ..InputFrame::default()
        },
        100_000,
    );
    assert_eq!(
        action,
        AppAction::ExitToLauncher,
        "Exit pause action should return to launcher"
    );
}

#[test]
fn mario_application_normal_tick_uses_delta_render() {
    let mut app = MarioApplication::new();
    let mut store = MemoryHighScoreStore::new();
    let mut rng = ScriptedRng::new(vec![0]);
    let mut display = RecordingDisplay::new();
    app.enter(&store);
    app.game_mut().start();

    // Call update with a time that will trigger due_for_tick
    // (last_tick_us is 0 from new(), so any time > TICK_US triggers)
    let action = app.update(
        &mut display,
        &mut store,
        &mut rng,
        &mut SilentSpeaker,
        InputFrame::default(),
        20_000,
    );
    assert_eq!(action, AppAction::Nothing);
    // On initial tick with no input, gravity pulls player down but camera hasn't changed
    // enough (player still at left edge). We should NOT see a full-screen clear.
    let full_clear = display.commands().iter().any(|cmd| {
        matches!(
            cmd,
            DrawCommand::Fill {
                rect: Rect {
                    x: 0,
                    y: 0,
                    w: 320,
                    h: 240
                },
                ..
            }
        )
    });
    assert!(
        !full_clear,
        "Normal tick in playing should use delta render, not full clear"
    );
}

#[test]
fn game_over_switch_restarts_game() {
    let mut app = MarioApplication::new();
    let mut store = MemoryHighScoreStore::new();
    let mut rng = ScriptedRng::new(vec![0]);
    let mut display = RecordingDisplay::new();
    app.enter(&store);
    // Set game to GameOver
    app.game_mut().set_mode(MarioMode::GameOver);

    let action = app.update(
        &mut display,
        &mut store,
        &mut rng,
        &mut SilentSpeaker,
        InputFrame {
            joystick: JoystickEvent {
                switch_pressed: true,
                ..JoystickEvent::default()
            },
            ..InputFrame::default()
        },
        100,
    );
    assert_eq!(action, AppAction::Nothing);
    assert_eq!(
        app.game().mode(),
        MarioMode::Playing,
        "Switch press on GameOver should restart the game"
    );
}

#[test]
fn ready_mode_initial_render_shows_panel() {
    let mut app = MarioApplication::new();
    let mut store = MemoryHighScoreStore::new();
    let mut rng = ScriptedRng::new(vec![0]);
    let mut display = RecordingDisplay::new();
    app.enter(&store);

    // First update without switch press: should render the full ready screen
    app.update(
        &mut display,
        &mut store,
        &mut rng,
        &mut SilentSpeaker,
        InputFrame::default(),
        100,
    );
    // Should have commands from full render
    assert!(!display.commands().is_empty());
    let has_full_clear = display.commands().iter().any(|cmd| {
        matches!(
            cmd,
            DrawCommand::Fill {
                rect: Rect {
                    x: 0,
                    y: 0,
                    w: 320,
                    h: 240
                },
                ..
            }
        )
    });
    assert!(
        has_full_clear,
        "Ready mode should full-render including clear"
    );
}
