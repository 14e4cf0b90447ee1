use orion_core::config::Direction;
use orion_core::render::{DrawCommand, RecordingDisplay, Rect};
use orion_core::rng::ScriptedRng;
use orion_core::tetris::TetrisGame;
use orion_core::tetris_renderer::{render, render_choosing, render_pause_menu, render_play_delta, rotate_rect_clockwise, WELL_H, WELL_W, WELL_X, WELL_Y};
use orion_core::theme;

#[test]
fn render_choosing_draws_rotated_start_screen() {
    let mut display = RecordingDisplay::new();

    render_choosing(&mut display);

    assert!(matches!(
        display.commands()[0],
        DrawCommand::Fill {
            rect: Rect {
                x: 0,
                y: 0,
                w: 320,
                h: 240
            },
            color: theme::BG
        }
    ));
    assert!(matches!(
        display.commands().last(),
        Some(DrawCommand::Flush)
    ));
}

#[test]
fn render_playing_draws_rotated_portrait_well() {
    let mut display = RecordingDisplay::new();
    let mut game = TetrisGame::default();
    let mut rng = ScriptedRng::new(vec![0, 1]);
    game.press_switch(&mut rng, 0);

    render(&mut display, &game);

    let expected = rotate_rect_clockwise(Rect {
        x: WELL_X - 2,
        y: WELL_Y - 2,
        w: WELL_W + 4,
        h: WELL_H + 4,
    });
    assert!(display.commands().iter().any(|command| matches!(
        command,
        DrawCommand::Fill {
            rect,
            ..
        } if *rect == expected
    )));
    assert!(matches!(
        display.commands().last(),
        Some(DrawCommand::Flush)
    ));
}

#[test]
fn render_play_delta_skips_full_screen_clear() {
    let mut game = TetrisGame::default();
    let mut rng = ScriptedRng::new(vec![0, 1]);
    game.press_switch(&mut rng, 0);
    let previous_board = *game.board();
    let previous_active = game.active();
    let previous_score = game.score();
    let previous_lines = game.lines();
    let previous_next = game.next();
    game.move_active(Direction::Down);

    let mut display = RecordingDisplay::new();
    render_play_delta(
        &mut display,
        &game,
        &previous_board,
        previous_active,
        previous_score,
        previous_lines,
        previous_next,
    );

    assert!(!display.commands().iter().any(|command| matches!(
        command,
        DrawCommand::Fill {
            rect: Rect {
                x: 0,
                y: 0,
                w: 320,
                h: 240
            },
            color: theme::BG
        }
    )));
    assert!(matches!(
        display.commands().last(),
        Some(DrawCommand::Flush)
    ));
}

#[test]
fn tetris_renderer_render_pause_menu_draws_options() {
    let mut display = RecordingDisplay::new();
    let mut game = TetrisGame::default();
    let mut rng = ScriptedRng::new(vec![0, 1]);
    game.press_switch(&mut rng, 0);
    game.press_switch(&mut rng, 1);

    render_pause_menu(&mut display, &game);

    assert!(display.commands().len() > 20);
    assert!(matches!(
        display.commands().last(),
        Some(DrawCommand::Flush)
    ));
}

#[test]
fn rotate_rect_turns_portrait_rect_onto_panel() {
    let r = rotate_rect_clockwise(Rect { x: 10, y: 20, w: 30, h: 40 });
    assert_eq!(r, Rect { x: 260, y: 10, w: 40, h: 30 });
    let full = rotate_rect_clockwise(Rect { x: 0, y: 0, w: 240, h: 320 });
    assert_eq!(full, Rect { x: 0, y: 0, w: 320, h: 240 });
}

#[test]
fn piece_colors_by_cell_value() {
    assert_eq!(orion_core::tetris_renderer::piece_color(1), orion_core::tetris_renderer::I_COLOR);
    assert_eq!(orion_core::tetris_renderer::piece_color(7), orion_core::tetris_renderer::L_COLOR);
    assert_eq!(orion_core::tetris_renderer::piece_color(0), orion_core::tetris_renderer::WELL_BG);
    assert_eq!(orion_core::tetris_renderer::piece_color(9), orion_core::tetris_renderer::WELL_BG);
}

#[test]
fn play_delta_without_changes_only_flushes() {
    let mut game = TetrisGame::default();
    let mut rng = ScriptedRng::new(vec![0, 1]);
    game.press_switch(&mut rng, 0);
    let board = *game.board();
    let mut display = RecordingDisplay::new();
    render_play_delta(&mut display, &game, &board, game.active(), game.score(), game.lines(), game.next());
    assert_eq!(display.commands(), &[DrawCommand::Flush]);
}
