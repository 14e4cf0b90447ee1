use orion_core::pomodoro::{PomodoroField, PomodoroMode, PomodoroTimer};

#[test]
fn pomodoro_defaults_to_twenty_five_minutes() {
    let timer = PomodoroTimer::new();
    assert_eq!(timer.mode(), PomodoroMode::Setup);
    assert_eq!(timer.minutes(), 25);
    assert_eq!(timer.seconds(), 0);
    assert_eq!(timer.duration_seconds(), 1500);
}

#[test]
fn active_field_switches_and_adjusts_with_clamps() {
    let mut timer = PomodoroTimer::new();
    timer.adjust_active_field(100);
    assert_eq!(timer.minutes(), 99);
    timer.adjust_active_field(-120);
    assert_eq!(timer.minutes(), 0);
    timer.toggle_active_field();
    timer.adjust_active_field(80);
    assert_eq!(timer.seconds(), 59);
    timer.adjust_active_field(-80);
    assert_eq!(timer.seconds(), 0);
}

#[test]
fn zero_duration_does_not_start() {
    let mut timer = PomodoroTimer::new();
    timer.adjust_active_field(-25);
    assert!(!timer.start(0));
    assert_eq!(timer.mode(), PomodoroMode::Setup);
}

#[test]
fn running_countdown_uses_visible_seconds() {
    let mut timer = PomodoroTimer::new();
    timer.adjust_active_field(-24);
    assert!(timer.start(1_000));
    assert_eq!(timer.remaining_seconds(), 60);
    assert!(!timer.update_running(500_000));
    assert_eq!(timer.remaining_seconds(), 60);
    assert!(timer.update_running(1_001_000));
    assert_eq!(timer.remaining_seconds(), 59);
}

#[test]
fn countdown_finishes_at_zero() {
    let mut timer = PomodoroTimer::new();
    timer.adjust_active_field(-25);
    timer.toggle_active_field();
    timer.adjust_active_field(1);
    assert!(timer.start(0));
    assert!(timer.update_running(1_000_000));
    assert_eq!(timer.remaining_seconds(), 0);
    assert_eq!(timer.mode(), PomodoroMode::Finished);
}

#[test]
fn pause_and_resume_preserve_remaining_time() {
    let mut timer = PomodoroTimer::new();
    timer.adjust_active_field(-24);
    timer.start(0);
    assert!(timer.pause(1_000_000));
    assert_eq!(timer.remaining_seconds(), 59);
    assert_eq!(timer.mode(), PomodoroMode::Paused);
    assert!(timer.resume(10_000_000));
    assert_eq!(timer.mode(), PomodoroMode::Running);
    timer.update_running(11_000_000);
    assert_eq!(timer.remaining_seconds(), 58);
}

#[test]
fn reset_to_setup_selects_minutes_field() {
    let mut timer = PomodoroTimer::new();
    timer.toggle_active_field();
    timer.start(0);
    timer.reset_to_setup();
    assert_eq!(timer.mode(), PomodoroMode::Setup);
    assert_eq!(timer.active_field(), PomodoroField::Minutes);
}
