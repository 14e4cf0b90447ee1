use orion_core::render::{DrawCommand, RecordingDisplay};
use orion_core::theme;
use orion_core::ui_widgets::{draw_menu_button, draw_option_row};

#[test]
fn selected_row_draws_overlay_and_accent() {
    let mut display = RecordingDisplay::new();
    draw_option_row(&mut display, 42, 88, 94, "MODE", "PRACTICE", true);
    assert!(matches!(
        display.commands()[0],
        DrawCommand::Fill {
            rect: orion_core::render::Rect {
                x: 42,
                y: 88,
                w: 94,
                h: 30
            },
            color: theme::OVERLAY
        }
    ));
    assert!(display.commands().iter().any(|command| matches!(
        command,
        DrawCommand::Fill {
            rect: orion_core::render::Rect {
                x: 44,
                y: 95,
                w: 4,
                h: 16
            },
            color: theme::ACCENT
        }
    )));
}

#[test]
fn labeled_row_draws_value_text() {
    let mut label_only = RecordingDisplay::new();
    draw_option_row(&mut label_only, 42, 88, 236, "MODE", "", false);

    let mut with_value = RecordingDisplay::new();
    draw_option_row(&mut with_value, 42, 88, 236, "MODE", "PRACTICE", false);

    assert!(with_value.commands().len() > label_only.commands().len());
}

#[test]
fn menu_button_draws_button_and_icon() {
    let mut display = RecordingDisplay::new();
    draw_menu_button(&mut display, 108, 204, true);
    assert!(matches!(
        display.commands()[0],
        DrawCommand::Fill {
            rect: orion_core::render::Rect {
                x: 108,
                y: 204,
                w: 104,
                h: 28
            },
            color: theme::ACCENT
        }
    ));
}
