use orion_core::pomodoro::PomodoroTimer;
use orion_core::pomodoro_renderer::{segment_mask, tomato_color, tomato_row, draw_tomato_logo, render_finished, render_paused, render_running, render_running_time_delta, render_setup, SEGMENT_DIGIT_W, SEGMENT_THICKNESS};
use orion_core::render::{DrawCommand, RecordingDisplay};
use orion_core::theme;

#[test]
fn setup_renderer_draws_tomato_and_flushes() {
    let mut display = RecordingDisplay::new();
    render_setup(&mut display, &PomodoroTimer::new());
    assert!(display.commands().iter().any(|command| matches!(
        command,
        DrawCommand::Fill {
            color: theme::APPLE,
            ..
        }
    )));
    assert!(matches!(
        display.commands().last(),
        Some(DrawCommand::Flush)
    ));
}

#[test]
fn running_paused_and_finished_render() {
    let mut timer = PomodoroTimer::new();
    let mut display = RecordingDisplay::new();
    timer.start(0);
    render_running(&mut display, &timer);
    assert!(matches!(
        display.commands().last(),
        Some(DrawCommand::Flush)
    ));

    display.clear();
    timer.pause(1_000_000);
    render_paused(&mut display, &timer);
    assert!(matches!(
        display.commands().last(),
        Some(DrawCommand::Flush)
    ));

    display.clear();
    timer.resume(2_000_000);
    timer.update_running(1_502_000_000);
    render_finished(&mut display, &timer);
    assert!(matches!(
        display.commands().last(),
        Some(DrawCommand::Flush)
    ));
}

#[test]
fn running_time_delta_does_not_clear_full_screen() {
    let mut timer = PomodoroTimer::new();
    let mut display = RecordingDisplay::new();
    timer.start(0);
    timer.update_running(1_000_000);

    render_running_time_delta(&mut display, &timer);

    assert!(!matches!(
        display.commands().first(),
        Some(DrawCommand::Fill {
            rect: orion_core::render::Rect {
                x: 0,
                y: 0,
                w: orion_core::config::TFT_H_RES,
                h: orion_core::config::TFT_V_RES
            },
            ..
        })
    ));
    assert!(matches!(
        display.commands().last(),
        Some(DrawCommand::Flush)
    ));
}

#[test]
fn running_render_uses_large_segment_digits() {
    let mut timer = PomodoroTimer::new();
    let mut display = RecordingDisplay::new();
    timer.start(0);

    render_running(&mut display, &timer);

    assert!(display.commands().iter().any(|command| matches!(
        command,
        DrawCommand::Fill {
            rect,
            color: theme::TEXT
        } if rect.w == SEGMENT_DIGIT_W - SEGMENT_THICKNESS && rect.h == SEGMENT_THICKNESS
    )));
    assert!(display.commands().iter().any(|command| matches!(
        command,
        DrawCommand::Fill {
            rect: orion_core::render::Rect {
                w: SEGMENT_THICKNESS,
                h: 31,
                ..
            },
            color: theme::TEXT
        }
    )));
}

#[test]
fn logo_draws_pixel_art_commands() {
    let mut display = RecordingDisplay::new();
    draw_tomato_logo(&mut display, 10, 20, 2);
    assert!(display.commands().len() > 80);
}

#[test]
fn segment_masks_light_the_right_segments() {
    assert_eq!(segment_mask(8), 0x7f);
    assert_eq!(segment_mask(1), 0x06);
    assert_eq!(segment_mask(0), 0x3f);
    assert_eq!(segment_mask(12), 0);
}

#[test]
fn tomato_codes_map_to_colors() {
    assert_eq!(tomato_color(b'R'), Some(theme::APPLE));
    assert_eq!(tomato_color(b'S'), Some(theme::STEM));
    assert_eq!(tomato_color(b'.'), None);
    assert_eq!(tomato_row(0)[6], b'L');
    assert_eq!(tomato_row(15)[3], b'R');
}
