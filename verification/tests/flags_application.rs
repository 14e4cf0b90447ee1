use orion_core::app::AppAction;
use orion_core::config::Direction;
use orion_core::flags::{FlagsMode, FlagsPauseAction, FlagsResultAction, FlagsState, FLAGS_FEEDBACK_MS};
use orion_core::flags_application::FlagsApplication;
use orion_core::input::{EncoderEvent, InputFrame, JoystickEvent};
use orion_core::render::{DrawCommand, RecordingDisplay};
use orion_core::rng::ScriptedRng;
use orion_core::store::MemoryHighScoreStore;

#[test]
fn switch_starts_selected_mode() {
    let mut app = FlagsApplication::new(5);
    let mut display = RecordingDisplay::new();
    let mut scores = MemoryHighScoreStore::new();
    let mut rng = ScriptedRng::new(vec![0, 2, 1, 2, 3, 4]);
    app.enter(&scores);

    let action = app.update(
        &mut display,
        &mut scores,
        &mut rng,
        InputFrame {
            joystick: JoystickEvent {
                switch_pressed: true,
                ..JoystickEvent::default()
            },
            ..InputFrame::default()
        },
        1,
    );

    assert_eq!(action, AppAction::RedrawFull);
    assert_eq!(app.game().state(), FlagsState::Question);
}

#[test]
fn answer_confirm_renders_feedback_without_full_redraw_action() {
    let mut app = FlagsApplication::new(5);
    let mut display = RecordingDisplay::new();
    let mut scores = MemoryHighScoreStore::new();
    let mut rng = ScriptedRng::new(vec![0, 2, 1, 2, 3, 4]);
    app.enter(&scores);
    let _ = app.update(
        &mut display,
        &mut scores,
        &mut rng,
        InputFrame {
            joystick: JoystickEvent {
                switch_pressed: true,
                ..JoystickEvent::default()
            },
            ..InputFrame::default()
        },
        1,
    );
    display.clear();

    let action = app.update(
        &mut display,
        &mut scores,
        &mut rng,
        InputFrame {
            joystick: JoystickEvent {
                switch_pressed: true,
                ..JoystickEvent::default()
            },
            ..InputFrame::default()
        },
        2,
    );

    assert_eq!(action, AppAction::Nothing);
    assert_eq!(app.game().state(), FlagsState::Feedback);
    assert!(matches!(
        display.commands().last(),
        Some(DrawCommand::Flush)
    ));
}

#[test]
fn choosing_exit_returns_to_launcher() {
    let mut app = FlagsApplication::new(5);
    let mut display = RecordingDisplay::new();
    let mut scores = MemoryHighScoreStore::new();
    let mut rng = ScriptedRng::new(vec![0]);
    app.enter(&scores);

    app.game_mut().cycle_choosing_action_down();
    app.game_mut().cycle_choosing_action_down();
    app.game_mut().cycle_choosing_action_down();

    let action = app.update(
        &mut display,
        &mut scores,
        &mut rng,
        InputFrame {
            joystick: JoystickEvent {
                switch_pressed: true,
                ..JoystickEvent::default()
            },
            ..InputFrame::default()
        },
        1,
    );

    assert_eq!(action, AppAction::ExitToLauncher);
}

#[test]
fn long_press_during_question_enters_pause() {
    let mut app = FlagsApplication::new(5);
    let mut display = RecordingDisplay::new();
    let mut scores = MemoryHighScoreStore::new();
    let mut rng = ScriptedRng::new(vec![0, 2, 1, 2, 3, 4]);
    app.enter(&scores);
    let _ = app.update(
        &mut display,
        &mut scores,
        &mut rng,
        InputFrame {
            joystick: JoystickEvent {
                switch_pressed: true,
                ..JoystickEvent::default()
            },
            ..InputFrame::default()
        },
        1,
    );
    assert_eq!(app.game().state(), FlagsState::Question);

    let action = app.update(
        &mut display,
        &mut scores,
        &mut rng,
        InputFrame {
            joystick: JoystickEvent {
                switch_long_pressed: true,
                ..JoystickEvent::default()
            },
            ..InputFrame::default()
        },
        2,
    );
    assert_eq!(action, AppAction::RedrawFull);
    assert_eq!(app.game().state(), FlagsState::Paused);
}

#[test]
fn flags_application_pause_exit_returns_to_launcher() {
    let mut app = FlagsApplication::new(5);
    let mut display = RecordingDisplay::new();
    let mut scores = MemoryHighScoreStore::new();
    let mut rng = ScriptedRng::new(vec![0, 2, 1, 2, 3, 4]);
    app.enter(&scores);
    let _ = app.update(
        &mut display,
        &mut scores,
        &mut rng,
        InputFrame {
            joystick: JoystickEvent {
                switch_pressed: true,
                ..JoystickEvent::default()
            },
            ..InputFrame::default()
        },
        1,
    );

    app.game_mut().enter_paused();
    app.game_mut().cycle_pause_action();

    let action = app.update(
        &mut display,
        &mut scores,
        &mut rng,
        InputFrame {
            joystick: JoystickEvent {
                switch_pressed: true,
                ..JoystickEvent::default()
            },
            ..InputFrame::default()
        },
        2,
    );
    assert_eq!(action, AppAction::ExitToLauncher);
}

#[test]
fn choosing_encoder_down_cycles_action() {
    let mut app = FlagsApplication::new(5);
    let mut display = RecordingDisplay::new();
    let mut scores = MemoryHighScoreStore::new();
    let mut rng = ScriptedRng::new(vec![0]);
    app.enter(&scores);

    let action = app.update(
        &mut display,
        &mut scores,
        &mut rng,
        InputFrame {
            encoder: orion_core::input::EncoderEvent {
                detents: 1,
                ..orion_core::input::EncoderEvent::default()
            },
            ..InputFrame::default()
        },
        1_000_000,
    );
    assert_eq!(action, AppAction::RedrawFull);
}

#[test]
fn choosing_encoder_up_cycles_action() {
    let mut app = FlagsApplication::new(5);
    let mut display = RecordingDisplay::new();
    let mut scores = MemoryHighScoreStore::new();
    let mut rng = ScriptedRng::new(vec![0]);
    app.enter(&scores);

    let action = app.update(
        &mut display,
        &mut scores,
        &mut rng,
        InputFrame {
            encoder: orion_core::input::EncoderEvent {
                detents: -1,
                ..orion_core::input::EncoderEvent::default()
            },
            ..InputFrame::default()
        },
        1_000_000,
    );
    assert_eq!(action, AppAction::RedrawFull);
}

#[test]
fn choosing_joystick_up_cycles_action() {
    let mut app = FlagsApplication::new(5);
    let mut display = RecordingDisplay::new();
    let mut scores = MemoryHighScoreStore::new();
    let mut rng = ScriptedRng::new(vec![0]);
    app.enter(&scores);

    let action = app.update(
        &mut display,
        &mut scores,
        &mut rng,
        InputFrame {
            joystick: JoystickEvent {
                has_direction: true,
                direction: Some(Direction::Up),
                ..JoystickEvent::default()
            },
            ..InputFrame::default()
        },
        1_000_000,
    );
    assert_eq!(action, AppAction::RedrawFull);
}

#[test]
fn choosing_joystick_down_cycles_action() {
    let mut app = FlagsApplication::new(5);
    let mut display = RecordingDisplay::new();
    let mut scores = MemoryHighScoreStore::new();
    let mut rng = ScriptedRng::new(vec![0]);
    app.enter(&scores);

    let action = app.update(
        &mut display,
        &mut scores,
        &mut rng,
        InputFrame {
            joystick: JoystickEvent {
                has_direction: true,
                direction: Some(Direction::Down),
                ..JoystickEvent::default()
            },
            ..InputFrame::default()
        },
        1_000_000,
    );
    assert_eq!(action, AppAction::RedrawFull);
}

#[test]
fn question_encoder_moves_answer() {
    let mut app = FlagsApplication::new(5);
    let mut display = RecordingDisplay::new();
    let mut scores = MemoryHighScoreStore::new();
    let mut rng = ScriptedRng::new(vec![0, 2, 1, 2, 3, 4]);
    app.enter(&scores);
    let _ = app.update(
        &mut display,
        &mut scores,
        &mut rng,
        InputFrame {
            joystick: JoystickEvent {
                switch_pressed: true,
                ..JoystickEvent::default()
            },
            ..InputFrame::default()
        },
        1,
    );

    let action = app.update(
        &mut display,
        &mut scores,
        &mut rng,
        InputFrame {
            encoder: orion_core::input::EncoderEvent {
                detents: 1,
                ..orion_core::input::EncoderEvent::default()
            },
            ..InputFrame::default()
        },
        2,
    );
    assert_eq!(action, AppAction::Nothing);
}

#[test]
fn question_joystick_direction_moves_answer() {
    let mut app = FlagsApplication::new(5);
    let mut display = RecordingDisplay::new();
    let mut scores = MemoryHighScoreStore::new();
    let mut rng = ScriptedRng::new(vec![0, 2, 1, 2, 3, 4]);
    app.enter(&scores);
    let _ = app.update(
        &mut display,
        &mut scores,
        &mut rng,
        InputFrame {
            joystick: JoystickEvent {
                switch_pressed: true,
                ..JoystickEvent::default()
            },
            ..InputFrame::default()
        },
        1,
    );

    let action = app.update(
        &mut display,
        &mut scores,
        &mut rng,
        InputFrame {
            joystick: JoystickEvent {
                has_direction: true,
                direction: Some(Direction::Right),
                ..JoystickEvent::default()
            },
            ..InputFrame::default()
        },
        2,
    );
    assert_eq!(action, AppAction::Nothing);
}

#[test]
fn question_encoder_switch_confirms_answer() {
    let mut app = FlagsApplication::new(5);
    let mut display = RecordingDisplay::new();
    let mut scores = MemoryHighScoreStore::new();
    let mut rng = ScriptedRng::new(vec![0, 2, 1, 2, 3, 4]);
    app.enter(&scores);
    let _ = app.update(
        &mut display,
        &mut scores,
        &mut rng,
        InputFrame {
            joystick: JoystickEvent {
                switch_pressed: true,
                ..JoystickEvent::default()
            },
            ..InputFrame::default()
        },
        1,
    );

    let action = app.update(
        &mut display,
        &mut scores,
        &mut rng,
        InputFrame {
            encoder: orion_core::input::EncoderEvent {
                switch_pressed: true,
                ..orion_core::input::EncoderEvent::default()
            },
            ..InputFrame::default()
        },
        2,
    );
    assert_eq!(action, AppAction::Nothing);
    assert_eq!(app.game().state(), FlagsState::Feedback);
}

#[test]
fn question_encoder_long_press_enters_pause() {
    let mut app = FlagsApplication::new(5);
    let mut display = RecordingDisplay::new();
    let mut scores = MemoryHighScoreStore::new();
    let mut rng = ScriptedRng::new(vec![0, 2, 1, 2, 3, 4]);
    app.enter(&scores);
    let _ = app.update(
        &mut display,
        &mut scores,
        &mut rng,
        InputFrame {
            joystick: JoystickEvent {
                switch_pressed: true,
                ..JoystickEvent::default()
            },
            ..InputFrame::default()
        },
        1,
    );

    let action = app.update(
        &mut display,
        &mut scores,
        &mut rng,
        InputFrame {
            encoder: orion_core::input::EncoderEvent {
                switch_long_pressed: true,
                ..orion_core::input::EncoderEvent::default()
            },
            ..InputFrame::default()
        },
        2,
    );
    assert_eq!(action, AppAction::RedrawFull);
    assert_eq!(app.game().state(), FlagsState::Paused);
}

#[test]
fn paused_encoder_cycles_action() {
    let mut app = FlagsApplication::new(5);
    let mut display = RecordingDisplay::new();
    let mut scores = MemoryHighScoreStore::new();
    let mut rng = ScriptedRng::new(vec![0, 2, 1, 2, 3, 4]);
    app.enter(&scores);
    let _ = app.update(
        &mut display,
        &mut scores,
        &mut rng,
        InputFrame {
            joystick: JoystickEvent {
                switch_pressed: true,
                ..JoystickEvent::default()
            },
            ..InputFrame::default()
        },
        1,
    );
    app.game_mut().enter_paused();

    let action = app.update(
        &mut display,
        &mut scores,
        &mut rng,
        InputFrame {
            encoder: orion_core::input::EncoderEvent {
                detents: 1,
                ..orion_core::input::EncoderEvent::default()
            },
            ..InputFrame::default()
        },
        2,
    );
    assert_eq!(action, AppAction::RedrawFull);
}

#[test]
fn paused_joystick_direction_cycles_action() {
    let mut app = FlagsApplication::new(5);
    let mut display = RecordingDisplay::new();
    let mut scores = MemoryHighScoreStore::new();
    let mut rng = ScriptedRng::new(vec![0, 2, 1, 2, 3, 4]);
    app.enter(&scores);
    let _ = app.update(
        &mut display,
        &mut scores,
        &mut rng,
        InputFrame {
            joystick: JoystickEvent {
                switch_pressed: true,
                ..JoystickEvent::default()
            },
            ..InputFrame::default()
        },
        1,
    );
    app.game_mut().enter_paused();

    let action = app.update(
        &mut display,
        &mut scores,
        &mut rng,
        InputFrame {
            joystick: JoystickEvent {
                has_direction: true,
                direction: Some(Direction::Down),
                ..JoystickEvent::default()
            },
            ..InputFrame::default()
        },
        2_000_000,
    );
    assert_eq!(action, AppAction::RedrawFull);
}

#[test]
fn paused_switch_resumes() {
    let mut app = FlagsApplication::new(5);
    let mut display = RecordingDisplay::new();
    let mut scores = MemoryHighScoreStore::new();
    let mut rng = ScriptedRng::new(vec![0, 2, 1, 2, 3, 4]);
    app.enter(&scores);
    let _ = app.update(
        &mut display,
        &mut scores,
        &mut rng,
        InputFrame {
            joystick: JoystickEvent {
                switch_pressed: true,
                ..JoystickEvent::default()
            },
            ..InputFrame::default()
        },
        1,
    );
    app.game_mut().enter_paused();

    let action = app.update(
        &mut display,
        &mut scores,
        &mut rng,
        InputFrame {
            joystick: JoystickEvent {
                switch_pressed: true,
                ..JoystickEvent::default()
            },
            ..InputFrame::default()
        },
        2,
    );
    assert_eq!(action, AppAction::RedrawFull);
    assert_eq!(app.game().state(), FlagsState::Question);
}

#[test]
fn result_encoder_cycles_action() {
    let mut app = FlagsApplication::new(5);
    let mut display = RecordingDisplay::new();
    let mut scores = MemoryHighScoreStore::new();
    let mut rng = ScriptedRng::new(vec![0, 2, 1, 2, 3, 4]);
    app.enter(&scores);
    app.game_mut().set_selected_mode(FlagsMode::DeathMatch);
    app.game_mut().start_selected_mode(&scores, &mut rng);
    assert_eq!(app.game().state(), FlagsState::Question);

    app.game_mut().move_answer_selection(Direction::Right);
    app.game_mut().confirm_answer();
    assert_eq!(app.game().state(), FlagsState::Feedback);

    app.game_mut().finish_feedback(&mut scores, &mut rng);
    assert_eq!(app.game().state(), FlagsState::Over);

    let action = app.update(
        &mut display,
        &mut scores,
        &mut rng,
        InputFrame {
            encoder: orion_core::input::EncoderEvent {
                detents: 1,
                ..orion_core::input::EncoderEvent::default()
            },
            ..InputFrame::default()
        },
        1_000_000,
    );
    assert_eq!(action, AppAction::RedrawFull);
}

#[test]
fn result_joystick_cycles_action() {
    let mut app = FlagsApplication::new(5);
    let mut display = RecordingDisplay::new();
    let mut scores = MemoryHighScoreStore::new();
    let mut rng = ScriptedRng::new(vec![0, 2, 1, 2, 3, 4]);
    app.enter(&scores);
    app.game_mut().set_selected_mode(FlagsMode::DeathMatch);
    app.game_mut().start_selected_mode(&scores, &mut rng);
    assert_eq!(app.game().state(), FlagsState::Question);

    app.game_mut().move_answer_selection(Direction::Right);
    app.game_mut().confirm_answer();
    assert_eq!(app.game().state(), FlagsState::Feedback);

    app.game_mut().finish_feedback(&mut scores, &mut rng);
    assert_eq!(app.game().state(), FlagsState::Over);

    let action = app.update(
        &mut display,
        &mut scores,
        &mut rng,
        InputFrame {
            joystick: JoystickEvent {
                has_direction: true,
                direction: Some(Direction::Down),
                ..JoystickEvent::default()
            },
            ..InputFrame::default()
        },
        1_000_000,
    );
    assert_eq!(action, AppAction::RedrawFull);
}

#[test]
fn result_switch_restarts() {
    let mut app = FlagsApplication::new(5);
    let mut display = RecordingDisplay::new();
    let mut scores = MemoryHighScoreStore::new();
    let mut rng = ScriptedRng::new(vec![0, 2, 1, 2, 3, 4]);
    app.enter(&scores);
    app.game_mut().set_selected_mode(FlagsMode::DeathMatch);
    app.game_mut().start_selected_mode(&scores, &mut rng);
    assert_eq!(app.game().state(), FlagsState::Question);

    app.game_mut().move_answer_selection(Direction::Right);
    app.game_mut().confirm_answer();
    assert_eq!(app.game().state(), FlagsState::Feedback);

    app.game_mut().finish_feedback(&mut scores, &mut rng);
    assert_eq!(app.game().state(), FlagsState::Over);

    let action = app.update(
        &mut display,
        &mut scores,
        &mut rng,
        InputFrame {
            joystick: JoystickEvent {
                switch_pressed: true,
                ..JoystickEvent::default()
            },
            ..InputFrame::default()
        },
        1,
    );
    assert_eq!(action, AppAction::RedrawFull);
    assert_eq!(app.game().state(), FlagsState::Question);
}

#[test]
fn result_switch_exit_enters_choosing() {
    let mut app = FlagsApplication::new(5);
    let mut display = RecordingDisplay::new();
    let mut scores = MemoryHighScoreStore::new();
    let mut rng = ScriptedRng::new(vec![0, 2, 1, 2, 3, 4]);
    app.enter(&scores);
    app.game_mut().set_selected_mode(FlagsMode::DeathMatch);
    app.game_mut().start_selected_mode(&scores, &mut rng);
    assert_eq!(app.game().state(), FlagsState::Question);

    app.game_mut().move_answer_selection(Direction::Right);
    app.game_mut().confirm_answer();
    assert_eq!(app.game().state(), FlagsState::Feedback);

    app.game_mut().finish_feedback(&mut scores, &mut rng);
    assert_eq!(app.game().state(), FlagsState::Over);

    app.game_mut().cycle_result_action(1);

    let action = app.update(
        &mut display,
        &mut scores,
        &mut rng,
        InputFrame {
            joystick: JoystickEvent {
                switch_pressed: true,
                ..JoystickEvent::default()
            },
            ..InputFrame::default()
        },
        1,
    );
    assert_eq!(action, AppAction::ExitToLauncher);
}

#[test]
fn feedback_auto_advances_after_timeout() {
    let mut app = FlagsApplication::new(5);
    let mut display = RecordingDisplay::new();
    let mut scores = MemoryHighScoreStore::new();
    let mut rng = ScriptedRng::new(vec![0, 2, 1, 2, 3, 4]);
    app.enter(&scores);
    let _ = app.update(
        &mut display,
        &mut scores,
        &mut rng,
        InputFrame {
            joystick: JoystickEvent {
                switch_pressed: true,
                ..JoystickEvent::default()
            },
            ..InputFrame::default()
        },
        1,
    );
    let _ = app.update(
        &mut display,
        &mut scores,
        &mut rng,
        InputFrame {
            joystick: JoystickEvent {
                switch_pressed: true,
                ..JoystickEvent::default()
            },
            ..InputFrame::default()
        },
        2,
    );
    assert_eq!(app.game().state(), FlagsState::Feedback);

    let action = app.update(
        &mut display,
        &mut scores,
        &mut rng,
        InputFrame::default(),
        2 + FLAGS_FEEDBACK_MS as i64 * 1000 + 1,
    );
    assert_eq!(action, AppAction::RedrawFull);
}

#[test]
fn render_full_calls_renderer() {
    let mut app = FlagsApplication::new(5);
    let scores = MemoryHighScoreStore::new();
    app.enter(&scores);
    let mut display = RecordingDisplay::new();
    app.render_full(&mut display);
    assert!(!display.commands().is_empty());
}

#[test]
fn title_returns_flags() {
    let app = FlagsApplication::new(5);
    assert_eq!(app.title(), "FLAGS");
}

#[test]
fn default_creates_with_flag_asset_count() {
    let app = FlagsApplication::default();
    assert!(matches!(app.game().state(), FlagsState::ChoosingMode));
}

#[test]
fn menu_direction_throttle_rejects_rapid_input() {
    let mut app = FlagsApplication::new(5);
    let mut display = RecordingDisplay::new();
    let mut scores = MemoryHighScoreStore::new();
    let mut rng = ScriptedRng::new(vec![0]);
    app.enter(&scores);

    let _ = app.update(
        &mut display,
        &mut scores,
        &mut rng,
        InputFrame {
            joystick: JoystickEvent {
                has_direction: true,
                direction: Some(Direction::Down),
                ..JoystickEvent::default()
            },
            ..InputFrame::default()
        },
        1_000_000,
    );

    let action = app.update(
        &mut display,
        &mut scores,
        &mut rng,
        InputFrame {
            joystick: JoystickEvent {
                has_direction: true,
                direction: Some(Direction::Down),
                ..JoystickEvent::default()
            },
            ..InputFrame::default()
        },
        1_000_100,
    );
    assert_eq!(action, AppAction::Nothing);
}

#[test]
fn no_input_returns_none() {
    let mut app = FlagsApplication::new(5);
    let mut display = RecordingDisplay::new();
    let mut scores = MemoryHighScoreStore::new();
    let mut rng = ScriptedRng::new(vec![0]);
    app.enter(&scores);

    let action = app.update(
        &mut display,
        &mut scores,
        &mut rng,
        InputFrame::default(),
        1,
    );
    assert_eq!(action, AppAction::Nothing);
}

#[test]
fn knob_back_from_first_tile_wraps_to_last() {
    let mut app = FlagsApplication::new(5);
    let mut display = RecordingDisplay::new();
    let mut scores = MemoryHighScoreStore::new();
    let mut rng = ScriptedRng::new(vec![0, 2, 1, 2, 3, 4]);
    app.enter(&scores);
    let _ = app.update(
        &mut display,
        &mut scores,
        &mut rng,
        InputFrame { joystick: JoystickEvent { switch_pressed: true, ..JoystickEvent::default() }, ..InputFrame::default() },
        1,
    );
    let action = app.update(
        &mut display,
        &mut scores,
        &mut rng,
        InputFrame { encoder: EncoderEvent { detents: -1, ..EncoderEvent::default() }, ..InputFrame::default() },
        2,
    );
    assert_eq!(action, AppAction::Nothing);
    assert_eq!(app.game().selected_answer(), 3);
}

#[test]
fn joystick_left_on_left_column_stays() {
    let mut app = FlagsApplication::new(5);
    let mut display = RecordingDisplay::new();
    let mut scores = MemoryHighScoreStore::new();
    let mut rng = ScriptedRng::new(vec![0, 2, 1, 2, 3, 4]);
    app.enter(&scores);
    let _ = app.update(
        &mut display,
        &mut scores,
        &mut rng,
        InputFrame { joystick: JoystickEvent { switch_pressed: true, ..JoystickEvent::default() }, ..InputFrame::default() },
        1,
    );
    let _ = app.update(
        &mut display,
        &mut scores,
        &mut rng,
        InputFrame {
            joystick: JoystickEvent { has_direction: true, direction: Some(Direction::Left), ..JoystickEvent::default() },
            ..InputFrame::default()
        },
        1_000_000,
    );
    assert_eq!(app.game().selected_answer(), 0);
}
