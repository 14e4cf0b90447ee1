use orion_core::config::{TFT_H_RES, TFT_V_RES};
use orion_core::launcher::{HomeSnapshot, LauncherView};
use orion_core::render::{
    clear, draw_bitmap, draw_game_icon, fill_rect, flush, render_game_menu, render_home, render_launcher,
    DrawCommand, RecordingDisplay, Rect,
};
use orion_core::theme;

#[test]
fn home_renderer_records_full_screen_redraw() {
    let mut display = RecordingDisplay::new();
    render_home(&mut display, HomeSnapshot::default());
    assert!(matches!(display.commands()[0], DrawCommand::Fill { .. }));
    assert!(matches!(
        display.commands().last(),
        Some(DrawCommand::Flush)
    ));
    assert!(display.commands().len() > 8);
}

#[test]
fn game_menu_renderer_records_full_screen_redraw() {
    let mut display = RecordingDisplay::new();
    render_game_menu(&mut display, ["Flags", "Snake"], 1);
    assert!(matches!(display.commands()[0], DrawCommand::Fill { .. }));
    assert!(matches!(
        display.commands().last(),
        Some(DrawCommand::Flush)
    ));
    assert!(display.commands().len() > 4);
}

#[test]
fn render_launcher_dispatches_to_home() {
    let mut display = RecordingDisplay::new();
    let home = HomeSnapshot::default();
    render_launcher(&mut display, ["Flags", "Snake"], LauncherView::Home, 0, home);
    assert!(matches!(display.commands()[0], DrawCommand::Fill { .. }));
}

#[test]
fn render_launcher_dispatches_to_game_menu() {
    let mut display = RecordingDisplay::new();
    let home = HomeSnapshot::default();
    render_launcher(&mut display, ["Flags", "Snake"], LauncherView::GameMenu, 0, home);
    assert!(matches!(display.commands()[0], DrawCommand::Fill { .. }));
}

#[test]
fn render_home_with_time() {
    let mut display = RecordingDisplay::new();
    let home = HomeSnapshot {
        time: Some(orion_core::launcher::ClockTime::new(14, 30)),
        date: Some(orion_core::launcher::CalendarDate::new(2025, 6, 15)),
        temperature_tenths_c: Some(225),
        status: orion_core::launcher::HomeStatus::Ready,
    };
    render_home(&mut display, home);
    assert!(matches!(
        display.commands().last(),
        Some(DrawCommand::Flush)
    ));
}

#[test]
fn render_home_with_no_time() {
    let mut display = RecordingDisplay::new();
    let home = HomeSnapshot {
        time: None,
        date: None,
        temperature_tenths_c: None,
        status: orion_core::launcher::HomeStatus::Wifi,
    };
    render_home(&mut display, home);
    assert!(matches!(
        display.commands().last(),
        Some(DrawCommand::Flush)
    ));
}

#[test]
fn render_home_with_negative_temperature() {
    let mut display = RecordingDisplay::new();
    let home = HomeSnapshot {
        time: Some(orion_core::launcher::ClockTime::new(9, 5)),
        date: Some(orion_core::launcher::CalendarDate::new(2025, 1, 3)),
        temperature_tenths_c: Some(-55),
        status: orion_core::launcher::HomeStatus::Ready,
    };
    render_home(&mut display, home);
    assert!(matches!(
        display.commands().last(),
        Some(DrawCommand::Flush)
    ));
}

#[test]
fn render_game_menu_with_many_items() {
    let mut display = RecordingDisplay::new();
    render_game_menu(&mut display, ["FLAGS", "SNAKE", "2048", "TETRIS", "HOME"], 0);
    assert!(matches!(
        display.commands().last(),
        Some(DrawCommand::Flush)
    ));
}

#[test]
fn game_menu_icons_cover_all_indices() {
    for i in 0..5 {
        let mut display = RecordingDisplay::new();
        draw_game_icon(&mut display, 10, 10, 16, i, true);
        assert!(!display.commands().is_empty());
    }
    let mut display = RecordingDisplay::new();
    draw_game_icon(&mut display, 10, 10, 16, 99, true);
    assert!(!display.commands().is_empty());
}

#[test]
fn game_menu_icon_unselected_color() {
    let mut display = RecordingDisplay::new();
    draw_game_icon(&mut display, 10, 10, 16, 0, false);
    assert!(!display.commands().is_empty());
}

#[test]
fn fill_rect_skips_zero_or_negative_dimensions() {
    let mut display = RecordingDisplay::new();
    fill_rect(&mut display, 0, 0, 0, 10, theme::BG);
    assert!(display.commands().is_empty());
    fill_rect(&mut display, 0, 0, 10, -1, theme::BG);
    assert!(display.commands().is_empty());
}

#[test]
fn fill_rect_draws_for_positive_dimensions() {
    let mut display = RecordingDisplay::new();
    fill_rect(&mut display, 0, 0, 10, 20, theme::BG);
    assert_eq!(display.commands().len(), 1);
}

#[test]
fn draw_bitmap_pushes_bitmap_command() {
    let mut display = RecordingDisplay::new();
    draw_bitmap(&mut display, 10, 20, 30, 40, 100);
    assert_eq!(display.commands().len(), 1);
    assert!(matches!(display.commands()[0], DrawCommand::Bitmap { x: 10, y: 20, w: 30, h: 40, offset: 100 }));
}

#[test]
fn flush_pushes_flush_command() {
    let mut display = RecordingDisplay::new();
    flush(&mut display);
    assert_eq!(display.commands().len(), 1);
    assert!(matches!(display.commands()[0], DrawCommand::Flush));
}

#[test]
fn clear_fills_entire_screen() {
    let mut display = RecordingDisplay::new();
    clear(&mut display, theme::BG);
    assert_eq!(display.commands().len(), 1);
    assert!(matches!(
        display.commands()[0],
        DrawCommand::Fill { rect: Rect { x: 0, y: 0, w: TFT_H_RES, h: TFT_V_RES }, color: theme::BG }
    ));
}

#[test]
fn recording_display_clear_works() {
    let mut display = RecordingDisplay::new();
    fill_rect(&mut display, 0, 0, 10, 10, theme::BG);
    assert_eq!(display.commands().len(), 1);
    display.clear();
    assert!(display.commands().is_empty());
}

#[test]
fn game_icon_zero_draws_flag_fills() {
    let mut display = RecordingDisplay::new();
    draw_game_icon(&mut display, 10, 20, 16, 0, true);
    let fill = |x: i16, y: i16, w: i16, h: i16, color: u16| DrawCommand::Fill { rect: Rect { x, y, w, h }, color };
    assert_eq!(
        display.commands(),
        &[
            fill(10, 20, 16, 16, theme::GRID),
            fill(13, 23, 1, 9, theme::TEXT),
            fill(14, 23, 8, 3, theme::ACCENT),
            fill(14, 26, 8, 3, theme::TEXT),
            fill(14, 29, 8, 3, theme::BAD),
        ]
    );
}
