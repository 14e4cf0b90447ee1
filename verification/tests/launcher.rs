use orion_core::config::Direction;
use orion_core::input::{EncoderEvent, InputFrame, JoystickEvent};
use orion_core::launcher::{column_bottom, HomeSelection, Launcher, LauncherAction, LauncherView};

const APPS: [&str; 2] = ["POMODORO", "HOME"];

#[test]
fn wraps_selection_with_encoder() {
    let mut launcher = Launcher::new(["Flags", "Snake"], APPS);
    launcher.update(
        InputFrame {
            encoder: EncoderEvent {
                switch_pressed: true,
                ..EncoderEvent::default()
            },
            ..InputFrame::default()
        },
        1,
    );
    launcher.update(
        InputFrame {
            encoder: EncoderEvent {
                detents: -1,
                ..EncoderEvent::default()
            },
            ..InputFrame::default()
        },
        1,
    );
    assert_eq!(launcher.selected_title(), "Snake");
}

#[test]
fn switch_enters_selected_app() {
    let mut launcher = Launcher::new(["Flags", "Snake", "Tetris", "HOME"], APPS);
    launcher.update(
        InputFrame {
            joystick: JoystickEvent {
                switch_pressed: true,
                ..JoystickEvent::default()
            },
            ..InputFrame::default()
        },
        1,
    );
    launcher.cycle(1);
    let action = launcher.update(
        InputFrame {
            encoder: EncoderEvent {
                switch_pressed: true,
                ..EncoderEvent::default()
            },
            ..InputFrame::default()
        },
        1,
    );
    assert_eq!(action, LauncherAction::EnterGame(1));
}

#[test]
fn switch_on_home_opens_game_menu() {
    let mut launcher = Launcher::new(["Flags", "Snake"], APPS);
    let action = launcher.update(
        InputFrame {
            joystick: JoystickEvent {
                switch_pressed: true,
                ..JoystickEvent::default()
            },
            ..InputFrame::default()
        },
        1,
    );
    assert_eq!(action, LauncherAction::Redraw);
    assert_eq!(launcher.view(), LauncherView::GameMenu);
}

#[test]
fn home_selection_opens_app_menu() {
    let mut launcher = Launcher::new(["Flags", "Snake", "HOME"], APPS);
    let action = launcher.update(
        InputFrame {
            encoder: EncoderEvent {
                detents: 1,
                ..EncoderEvent::default()
            },
            ..InputFrame::default()
        },
        1,
    );
    assert_eq!(action, LauncherAction::Redraw);
    assert_eq!(launcher.home_selection(), HomeSelection::Apps);

    let action = launcher.update(
        InputFrame {
            joystick: JoystickEvent {
                switch_pressed: true,
                ..JoystickEvent::default()
            },
            ..InputFrame::default()
        },
        2,
    );
    assert_eq!(action, LauncherAction::Redraw);
    assert_eq!(launcher.view(), LauncherView::AppMenu);
}

#[test]
fn app_menu_enters_pomodoro_and_home_item_goes_home() {
    let mut launcher = Launcher::new(["Flags", "Snake", "HOME"], APPS);
    launcher.show_app_menu();
    let action = launcher.update(
        InputFrame {
            encoder: EncoderEvent {
                switch_pressed: true,
                ..EncoderEvent::default()
            },
            ..InputFrame::default()
        },
        1,
    );
    assert_eq!(action, LauncherAction::EnterApp(0));

    launcher.set_app_selected(1);
    let action = launcher.update(
        InputFrame {
            joystick: JoystickEvent {
                switch_pressed: true,
                ..JoystickEvent::default()
            },
            ..InputFrame::default()
        },
        2,
    );
    assert_eq!(action, LauncherAction::GoHome);
    assert_eq!(launcher.view(), LauncherView::Home);
}

#[test]
fn home_item_returns_go_home() {
    let mut launcher = Launcher::new(["Flags", "Snake", "HOME"], APPS);
    launcher.update(
        InputFrame {
            joystick: JoystickEvent {
                switch_pressed: true,
                ..JoystickEvent::default()
            },
            ..InputFrame::default()
        },
        1,
    );
    launcher.cycle(2);
    let action = launcher.update(
        InputFrame {
            joystick: JoystickEvent {
                switch_pressed: true,
                ..JoystickEvent::default()
            },
            ..InputFrame::default()
        },
        2,
    );
    assert_eq!(action, LauncherAction::GoHome);
    assert_eq!(launcher.view(), LauncherView::Home);
}

#[test]
fn game_item_returns_enter() {
    let mut launcher = Launcher::new(["Flags", "Snake", "HOME"], APPS);
    launcher.update(
        InputFrame {
            joystick: JoystickEvent {
                switch_pressed: true,
                ..JoystickEvent::default()
            },
            ..InputFrame::default()
        },
        1,
    );
    let action = launcher.update(
        InputFrame {
            joystick: JoystickEvent {
                switch_pressed: true,
                ..JoystickEvent::default()
            },
            ..InputFrame::default()
        },
        2,
    );
    assert_eq!(action, LauncherAction::EnterGame(0));
}

#[test]
fn long_press_joystick_switch_returns_go_home() {
    let mut launcher =
        Launcher::new(["Flags", "Snake", "2048", "Tetris", "OM NOM", "HOME"], APPS);
    launcher.update(
        InputFrame {
            joystick: JoystickEvent {
                switch_pressed: true,
                ..JoystickEvent::default()
            },
            ..InputFrame::default()
        },
        1,
    );
    let action = launcher.update(
        InputFrame {
            joystick: JoystickEvent {
                switch_long_pressed: true,
                ..JoystickEvent::default()
            },
            ..InputFrame::default()
        },
        2,
    );
    assert_eq!(action, LauncherAction::GoHome);
}

#[test]
fn long_press_encoder_switch_returns_go_home() {
    let mut launcher =
        Launcher::new(["Flags", "Snake", "2048", "Tetris", "OM NOM", "HOME"], APPS);
    launcher.update(
        InputFrame {
            joystick: JoystickEvent {
                switch_pressed: true,
                ..JoystickEvent::default()
            },
            ..InputFrame::default()
        },
        1,
    );
    let action = launcher.update(
        InputFrame {
            encoder: EncoderEvent {
                switch_long_pressed: true,
                ..EncoderEvent::default()
            },
            ..InputFrame::default()
        },
        2,
    );
    assert_eq!(action, LauncherAction::GoHome);
}

#[test]
fn move_right_goes_to_next_column() {
    let mut launcher =
        Launcher::new(["FLAGS", "SNAKE", "2048", "TETRIS", "OM NOM", "HOME"], APPS);
    launcher.update(
        InputFrame {
            joystick: JoystickEvent {
                switch_pressed: true,
                ..JoystickEvent::default()
            },
            ..InputFrame::default()
        },
        1,
    );
    launcher.move_right();
    assert_eq!(launcher.selected_index(), 1);
}

#[test]
fn move_right_wraps_from_rightmost_to_leftmost() {
    let mut launcher =
        Launcher::new(["FLAGS", "SNAKE", "2048", "TETRIS", "OM NOM", "HOME"], APPS);
    launcher.update(
        InputFrame {
            joystick: JoystickEvent {
                switch_pressed: true,
                ..JoystickEvent::default()
            },
            ..InputFrame::default()
        },
        1,
    );
    let input = InputFrame {
        joystick: JoystickEvent {
            has_direction: true,
            direction: Some(Direction::Right),
            ..JoystickEvent::default()
        },
        ..InputFrame::default()
    };
    launcher.set_game_selected(1);
    let action = launcher.update(input, 500_000);
    assert_eq!(launcher.selected_index(), 0);
    assert_eq!(action, LauncherAction::Redraw);
}

#[test]
fn move_left_wraps_from_leftmost_to_rightmost() {
    let mut launcher =
        Launcher::new(["FLAGS", "SNAKE", "2048", "TETRIS", "OM NOM", "HOME"], APPS);
    launcher.update(
        InputFrame {
            joystick: JoystickEvent {
                switch_pressed: true,
                ..JoystickEvent::default()
            },
            ..InputFrame::default()
        },
        1,
    );
    launcher.set_game_selected(0);
    launcher.move_left();
    assert_eq!(launcher.selected_index(), 1);
}

#[test]
fn move_left_clamps_on_odd_count_empty_cell() {
    let mut launcher = Launcher::new(["A", "B", "C"], APPS);
    launcher.set_game_selected(2);
    launcher.move_left();
    assert_eq!(launcher.selected_index(), 2);
}

#[test]
fn move_right_clamps_on_odd_count_empty_cell() {
    let mut launcher = Launcher::new(["A", "B", "C"], APPS);
    launcher.set_game_selected(2);
    launcher.move_right();
    assert_eq!(launcher.selected_index(), 2);
}

#[test]
fn move_down_goes_same_column() {
    let mut l = Launcher::new(["FLAGS", "SNAKE", "2048", "TETRIS", "OM NOM", "HOME"], APPS);
    l.set_game_selected(0);
    l.move_down();
    assert_eq!(l.selected_index(), 2);
}

#[test]
fn move_up_wraps_within_column() {
    let mut l = Launcher::new(["FLAGS", "SNAKE", "2048", "TETRIS", "OM NOM", "HOME"], APPS);
    l.set_game_selected(0);
    l.move_up();
    assert_eq!(l.selected_index(), 4);
}

#[test]
fn move_down_wraps_within_column() {
    let mut l = Launcher::new(["FLAGS", "SNAKE", "2048", "TETRIS", "OM NOM", "HOME"], APPS);
    l.set_game_selected(4);
    l.move_down();
    assert_eq!(l.selected_index(), 0);
}

#[test]
fn six_item_launcher_enters_om_nom_and_home_row_goes_home() {
    let mut launcher =
        Launcher::new(["FLAGS", "SNAKE", "2048", "TETRIS", "OM NOM", "HOME"], APPS);
    launcher.show_game_menu();
    launcher.set_game_selected(4);
    let action = launcher.update(
        InputFrame {
            encoder: EncoderEvent {
                switch_pressed: true,
                ..EncoderEvent::default()
            },
            ..InputFrame::default()
        },
        1,
    );
    assert_eq!(action, LauncherAction::EnterGame(4));

    launcher.set_game_selected(5);
    let action = launcher.update(
        InputFrame {
            encoder: EncoderEvent {
                switch_pressed: true,
                ..EncoderEvent::default()
            },
            ..InputFrame::default()
        },
        2,
    );
    assert_eq!(action, LauncherAction::GoHome);
    assert_eq!(launcher.view(), LauncherView::Home);
}

#[test]
fn column_bottom_for_odd_count() {
    assert_eq!(column_bottom(0, 5), 4);
    assert_eq!(column_bottom(1, 5), 3);
}

#[test]
fn column_bottom_for_even_count() {
    assert_eq!(column_bottom(0, 4), 2);
    assert_eq!(column_bottom(1, 4), 3);
}

#[test]
fn cycle_takes_the_largest_turn_from_the_first_entry() {
    let mut launcher = Launcher::new(["Flags", "Snake", "2048", "Tetris", "HOME"], APPS);
    launcher.update(
        InputFrame { encoder: EncoderEvent { switch_pressed: true, ..EncoderEvent::default() }, ..InputFrame::default() },
        1,
    );
    launcher.cycle(i32::MAX);
    assert_eq!(launcher.selected_index(), (i32::MAX % 5) as usize);
}
