use orion_core::app::AppAction;
use orion_core::config::Direction;
use orion_core::input::{EncoderEvent, InputFrame, JoystickEvent};
use orion_core::pomodoro::{PomodoroMode, PomodoroPauseAction};
use orion_core::pomodoro_application::PomodoroApplication;
use orion_core::pomodoro_store::{MemoryPomodoroSettingsStore, PomodoroSettingsStore};
use orion_core::render::RecordingDisplay;
use orion_core::speaker::Speaker;

#[derive(Default)]
struct RecordingSpeaker {
    tones: [u32; 16],
    tone_count: usize,
    stops: usize,
    volume: u8,
}

impl Speaker for RecordingSpeaker {
    fn play_tone(&mut self, freq_hz: u32) {
        self.tones[self.tone_count] = freq_hz;
        self.tone_count += 1;
    }

    fn stop(&mut self) {
        self.stops += 1;
    }

    fn set_volume(&mut self, volume: u8) {
        self.volume = volume;
    }
}

#[test]
fn encoder_press_switches_setup_field() {
    let mut app = PomodoroApplication::new();
    let mut display = RecordingDisplay::new();
    let mut speaker = RecordingSpeaker::default();
    let mut store = MemoryPomodoroSettingsStore::new();
    let action = app.update(
        &mut display,
        &mut speaker,
        &mut store,
        InputFrame {
            encoder: EncoderEvent {
                switch_pressed: true,
                ..EncoderEvent::default()
            },
            ..InputFrame::default()
        },
        0,
    );
    assert_eq!(action, AppAction::Nothing);
    assert_eq!(
        app.timer().active_field(),
        orion_core::pomodoro::PomodoroField::Seconds
    );
    assert!(display.commands().iter().all(|command| !matches!(
        command,
        orion_core::render::DrawCommand::Fill {
            rect: orion_core::render::Rect {
                x: 0,
                y: 0,
                w: orion_core::config::TFT_H_RES,
                h: orion_core::config::TFT_V_RES
            },
            ..
        }
    )));
}

#[test]
fn encoder_and_joystick_adjust_duration() {
    let mut app = PomodoroApplication::new();
    let mut display = RecordingDisplay::new();
    let mut speaker = RecordingSpeaker::default();
    let mut store = MemoryPomodoroSettingsStore::new();
    app.update(
        &mut display,
        &mut speaker,
        &mut store,
        InputFrame {
            encoder: EncoderEvent {
                detents: 2,
                ..EncoderEvent::default()
            },
            ..InputFrame::default()
        },
        0,
    );
    assert_eq!(app.timer().minutes(), 27);
    app.update(
        &mut display,
        &mut speaker,
        &mut store,
        InputFrame {
            joystick: JoystickEvent {
                has_direction: true,
                direction: Some(Direction::Down),
                ..JoystickEvent::default()
            },
            ..InputFrame::default()
        },
        300_000,
    );
    assert_eq!(app.timer().minutes(), 26);
}

#[test]
fn encoder_rotation_adjusts_selected_seconds_field() {
    let mut app = PomodoroApplication::new();
    let mut display = RecordingDisplay::new();
    let mut speaker = RecordingSpeaker::default();
    let mut store = MemoryPomodoroSettingsStore::new();
    app.update(
        &mut display,
        &mut speaker,
        &mut store,
        InputFrame {
            encoder: EncoderEvent {
                switch_pressed: true,
                ..EncoderEvent::default()
            },
            ..InputFrame::default()
        },
        0,
    );
    app.update(
        &mut display,
        &mut speaker,
        &mut store,
        InputFrame {
            encoder: EncoderEvent {
                detents: 15,
                ..EncoderEvent::default()
            },
            ..InputFrame::default()
        },
        100_000,
    );
    assert_eq!(app.timer().minutes(), 25);
    assert_eq!(app.timer().seconds(), 15);
}

#[test]
fn zero_zero_start_is_disabled() {
    let mut app = PomodoroApplication::new();
    let mut display = RecordingDisplay::new();
    let mut speaker = RecordingSpeaker::default();
    let mut store = MemoryPomodoroSettingsStore::new();
    app.timer_mut().adjust_active_field(-25);
    let action = app.update(
        &mut display,
        &mut speaker,
        &mut store,
        InputFrame {
            joystick: JoystickEvent {
                switch_pressed: true,
                ..JoystickEvent::default()
            },
            ..InputFrame::default()
        },
        0,
    );
    assert_eq!(action, AppAction::Nothing);
    assert_eq!(app.timer().mode(), PomodoroMode::Setup);
}

#[test]
fn start_pause_resume_and_exit_flow() {
    let mut app = PomodoroApplication::new();
    let mut display = RecordingDisplay::new();
    let mut speaker = RecordingSpeaker::default();
    let mut store = MemoryPomodoroSettingsStore::new();
    app.update(
        &mut display,
        &mut speaker,
        &mut store,
        InputFrame {
            joystick: JoystickEvent {
                switch_pressed: true,
                ..JoystickEvent::default()
            },
            ..InputFrame::default()
        },
        0,
    );
    assert_eq!(app.timer().mode(), PomodoroMode::Running);
    app.update(
        &mut display,
        &mut speaker,
        &mut store,
        InputFrame {
            joystick: JoystickEvent {
                switch_pressed: true,
                ..JoystickEvent::default()
            },
            ..InputFrame::default()
        },
        1_000_000,
    );
    assert_eq!(app.timer().mode(), PomodoroMode::Paused);
    app.update(
        &mut display,
        &mut speaker,
        &mut store,
        InputFrame {
            encoder: EncoderEvent {
                detents: 1,
                ..EncoderEvent::default()
            },
            ..InputFrame::default()
        },
        1_100_000,
    );
    assert_eq!(app.timer().pause_action(), PomodoroPauseAction::Exit);
    let action = app.update(
        &mut display,
        &mut speaker,
        &mut store,
        InputFrame {
            joystick: JoystickEvent {
                switch_pressed: true,
                ..JoystickEvent::default()
            },
            ..InputFrame::default()
        },
        1_200_000,
    );
    assert_eq!(action, AppAction::ExitToLauncher);
}

#[test]
fn countdown_redraws_on_visible_second_change() {
    let mut app = PomodoroApplication::new();
    let mut display = RecordingDisplay::new();
    let mut speaker = RecordingSpeaker::default();
    let mut store = MemoryPomodoroSettingsStore::new();
    app.timer_mut().adjust_active_field(-24);
    app.timer_mut().start(0);
    assert_eq!(
        app.update(&mut display, &mut speaker, &mut store, InputFrame::default(), 500_000),
        AppAction::Nothing
    );
    display.clear();
    assert_eq!(
        app.update(&mut display, &mut speaker, &mut store, InputFrame::default(), 1_000_000),
        AppAction::Nothing
    );
    assert_eq!(app.timer().remaining_seconds(), 59);
    assert!(display.commands().iter().all(|command| !matches!(
        command,
        orion_core::render::DrawCommand::Fill {
            rect: orion_core::render::Rect {
                x: 0,
                y: 0,
                w: orion_core::config::TFT_H_RES,
                h: orion_core::config::TFT_V_RES
            },
            ..
        }
    )));
}

#[test]
fn alert_plays_melody_dismisses_and_times_out() {
    let mut app = PomodoroApplication::new();
    let mut display = RecordingDisplay::new();
    let mut speaker = RecordingSpeaker::default();
    let mut store = MemoryPomodoroSettingsStore::new();
    app.timer_mut().adjust_active_field(-25);
    app.timer_mut().toggle_active_field();
    app.timer_mut().adjust_active_field(1);
    app.timer_mut().start(0);
    app.update(&mut display, &mut speaker, &mut store, InputFrame::default(), 1_000_000);
    assert_eq!(app.timer().mode(), PomodoroMode::Finished);
    assert_eq!(speaker.volume, 100);
    assert_eq!(speaker.tones[0], 1319);

    app.update(&mut display, &mut speaker, &mut store, InputFrame::default(), 1_200_000);
    assert!(speaker.tone_count > 1);

    app.update(&mut display, &mut speaker, &mut store, InputFrame::default(), 2_000_000);
    assert!(speaker.tone_count > 2);

    let action = app.update(
        &mut display,
        &mut speaker,
        &mut store,
        InputFrame {
            encoder: EncoderEvent {
                switch_pressed: true,
                ..EncoderEvent::default()
            },
            ..InputFrame::default()
        },
        2_100_000,
    );
    assert_eq!(action, AppAction::RedrawFull);
    assert_eq!(app.timer().mode(), PomodoroMode::Setup);

    app.timer_mut().start(3_000_000);
    app.update(
        &mut display,
        &mut speaker,
        &mut store,
        InputFrame::default(),
        3_001_000_000,
    );
    app.update(
        &mut display,
        &mut speaker,
        &mut store,
        InputFrame::default(),
        3_011_000_000,
    );
    assert_eq!(app.timer().mode(), PomodoroMode::Finished);
    let stops_after_timeout = speaker.stops;
    app.update(
        &mut display,
        &mut speaker,
        &mut store,
        InputFrame::default(),
        3_012_000_000,
    );
    assert_eq!(speaker.stops, stops_after_timeout);
}

#[test]
fn long_press_exits_and_stops_alert() {
    let mut app = PomodoroApplication::new();
    let mut display = RecordingDisplay::new();
    let mut speaker = RecordingSpeaker::default();
    let mut store = MemoryPomodoroSettingsStore::new();
    app.timer_mut().start(0);
    let action = app.update(
        &mut display,
        &mut speaker,
        &mut store,
        InputFrame {
            joystick: JoystickEvent {
                switch_long_pressed: true,
                ..JoystickEvent::default()
            },
            ..InputFrame::default()
        },
        100,
    );
    assert_eq!(action, AppAction::ExitToLauncher);
}

#[test]
fn enter_loads_persisted_settings() {
    let mut store = MemoryPomodoroSettingsStore::new();
    store.save_pomodoro_settings(30, 45);
    let mut app = PomodoroApplication::new();
    app.enter(&store);
    assert_eq!(app.timer().minutes(), 30);
    assert_eq!(app.timer().seconds(), 45);
}

#[test]
fn exit_saves_persisted_settings() {
    let mut app = PomodoroApplication::new();
    let mut store = MemoryPomodoroSettingsStore::new();
    app.timer_mut().adjust_active_field(5);
    let action = app.update(
        &mut RecordingDisplay::new(),
        &mut RecordingSpeaker::default(),
        &mut store,
        InputFrame {
            joystick: JoystickEvent {
                switch_long_pressed: true,
                ..JoystickEvent::default()
            },
            ..InputFrame::default()
        },
        0,
    );
    assert_eq!(action, AppAction::ExitToLauncher);
    assert_eq!(store.pomodoro_minutes(), 30);
    assert_eq!(store.pomodoro_seconds(), 0);
}

#[test]
fn enter_keeps_stored_duration_within_limits() {
    let mut store = MemoryPomodoroSettingsStore::new();
    store.save_pomodoro_settings(120, 75);
    let mut app = PomodoroApplication::new();
    app.enter(&store);
    assert_eq!(app.timer().minutes(), 99);
    assert_eq!(app.timer().seconds(), 59);
}

#[test]
fn alert_tune_opens_with_high_e() {
    let tune = orion_core::pomodoro_application::alert_tune();
    assert_eq!(tune.len(), 14);
    assert_eq!(tune[0].freq_hz, 1319);
    assert_eq!(tune[13].freq_hz, 0);
}
