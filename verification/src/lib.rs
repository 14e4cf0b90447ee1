//! Game and application logic for the Orion handheld console.

pub mod app;
pub mod config;
pub mod input;
pub mod rng;
pub mod store;
pub mod snake;
pub mod game2048;
pub mod flag_codec;
pub mod flags;
pub mod flappy;
pub mod pomodoro;
pub mod pomodoro_store;
pub mod speaker;
pub mod weather;
pub mod theme;
pub mod melody;
pub mod launcher;
pub mod mario;
pub mod render;
pub mod font;
pub mod ui_widgets;
pub mod tetris;
pub mod sprite;
pub mod mario_renderer;
pub mod mario_application;
pub mod game2048_renderer;
pub mod game2048_application;
pub mod flappy_renderer;
pub mod flappy_application;
pub mod tetris_renderer;
pub mod tetris_application;
pub mod snake_renderer;
pub mod snake_application;
pub mod pomodoro_renderer;
pub mod pomodoro_application;
pub mod flags_renderer;
pub mod flags_application;
pub mod knob_button;
pub mod network_schedule;
pub mod wifi;
pub mod panel;
