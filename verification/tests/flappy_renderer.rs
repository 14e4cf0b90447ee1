use orion_core::flappy::{FlappyGame, FlappyObstacle, FLAPPY_FLOOR_Y, FLAPPY_OBSTACLE_W, FLAPPY_PLAYER_X, FLAPPY_PLAY_TOP};
use orion_core::flappy_renderer::{render, render_play_delta, FlappyRenderState, SKY};
use orion_core::render::{DrawCommand, RecordingDisplay, Rect};
use orion_core::rng::ScriptedRng;
use orion_core::sprite::{OM_NOM_H, OM_NOM_W};
use orion_core::store::MemoryHighScoreStore;

#[test]
fn flappy_renderer_full_render_records_clear_and_flush() {
    let mut display = RecordingDisplay::new();
    let game = FlappyGame::new();
    render(&mut display, &game);
    assert!(matches!(
        display.commands()[0],
        DrawCommand::Fill {
            rect: Rect {
                x: 0,
                y: 0,
                w: 320,
                h: 240
            },
            ..
        }
    ));
    assert!(matches!(
        display.commands().last(),
        Some(DrawCommand::Flush)
    ));
}

#[test]
fn render_state_captures_lives_for_hud_deltas() {
    let game = FlappyGame::new();
    let state = FlappyRenderState::capture(&game);
    assert_eq!(state.lives, game.lives());
}

#[test]
fn play_delta_skips_velocity_only_change() {
    let store = MemoryHighScoreStore::new();
    let mut rng = ScriptedRng::new(vec![1]);
    let mut game = FlappyGame::new();
    game.start(&store, &mut rng, 0);
    let previous = FlappyRenderState::capture(&game);
    game.flap();

    let mut display = RecordingDisplay::new();
    render_play_delta(&mut display, &game, previous);
    assert!(display.commands().is_empty());
}

#[test]
fn flappy_renderer_play_delta_does_not_clear_full_screen() {
    let mut store = MemoryHighScoreStore::new();
    let mut rng = ScriptedRng::new(vec![1]);
    let mut game = FlappyGame::new();
    game.start(&store, &mut rng, 0);
    let previous = FlappyRenderState::capture(&game);
    game.tick(&mut store, &mut rng);

    let mut display = RecordingDisplay::new();
    render_play_delta(&mut display, &game, previous);
    assert!(!display.commands().iter().any(|command| {
        matches!(
            command,
            DrawCommand::Fill {
                rect: Rect {
                    x: 0,
                    y: 0,
                    w: 320,
                    h: 240
                },
                ..
            }
        )
    }));
    assert!(matches!(
        display.commands().last(),
        Some(DrawCommand::Flush)
    ));
}

#[test]
fn play_delta_does_not_clear_whole_player_box() {
    let mut store = MemoryHighScoreStore::new();
    let mut rng = ScriptedRng::new(vec![1]);
    let mut game = FlappyGame::new();
    game.start(&store, &mut rng, 0);
    let previous = FlappyRenderState::capture(&game);
    game.tick(&mut store, &mut rng);

    let mut display = RecordingDisplay::new();
    render_play_delta(&mut display, &game, previous);

    assert!(!display.commands().iter().any(|command| {
        matches!(
            command,
            DrawCommand::Fill {
                rect: Rect { w, h, .. },
                color: SKY,
            } if *w == OM_NOM_W + 2 && *h == OM_NOM_H + 2
        )
    }));
}

#[test]
fn play_delta_redraws_hud_when_lives_change_without_full_clear() {
    let mut store = MemoryHighScoreStore::new();
    let mut rng = ScriptedRng::new(vec![1]);
    let mut game = FlappyGame::new();
    game.start(&store, &mut rng, 0);
    let previous = FlappyRenderState::capture(&game);
    game.set_player_y_for_test(FLAPPY_FLOOR_Y);
    game.tick(&mut store, &mut rng);

    let mut display = RecordingDisplay::new();
    render_play_delta(&mut display, &game, previous);

    assert!(display.commands().iter().any(|command| {
        matches!(
            command,
            DrawCommand::Fill {
                rect: Rect {
                    x: 0,
                    y: 0,
                    w: 320,
                    h: 24
                },
                ..
            }
        )
    }));
    assert!(!display.commands().iter().any(|command| {
        matches!(
            command,
            DrawCommand::Fill {
                rect: Rect {
                    x: 0,
                    y: 0,
                    w: 320,
                    h: 240
                },
                ..
            }
        )
    }));
}

#[test]
fn play_delta_scroll_erases_only_obstacle_trailing_edge() {
    let mut store = MemoryHighScoreStore::new();
    let mut rng = ScriptedRng::new(vec![1]);
    let mut game = FlappyGame::new();
    game.start(&store, &mut rng, 0);
    let previous = FlappyRenderState::capture(&game);
    game.tick(&mut store, &mut rng);

    let mut display = RecordingDisplay::new();
    render_play_delta(&mut display, &game, previous);

    assert!(display.commands().iter().any(|command| {
        matches!(
            command,
            DrawCommand::Fill {
                rect: Rect { w: 2, h, .. },
                color: SKY,
            } if *h == FLAPPY_FLOOR_Y - FLAPPY_PLAY_TOP
        )
    }));
    assert!(!display.commands().iter().any(|command| {
        matches!(
            command,
            DrawCommand::Fill {
                rect: Rect { w, h, .. },
                color: SKY,
            } if *w == FLAPPY_OBSTACLE_W + 6 && *h == FLAPPY_FLOOR_Y - FLAPPY_PLAY_TOP
        )
    }));
}
