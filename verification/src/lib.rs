//! Elm-architecture terminal user interface framework: models receive
//! messages and answer with commands, views describe frames, and renderers
//! turn frames into terminal output.
pub mod clipboard;
pub mod color;
pub mod commands;
pub mod cursed_renderer;
pub mod cursor;
pub mod environ;
pub mod exec;
pub mod focus;
pub mod handle;
pub mod input;
pub mod key;
pub mod key_sequences;
pub mod keyboard;
pub mod logging;
pub mod model;
pub mod mouse;
pub mod nil_renderer;
pub mod options;
pub mod paste;
pub mod profile;
pub mod program;
pub mod raw;
pub mod renderer;
pub mod screen;
pub mod standard_renderer;
pub mod tea_init;
pub mod termcap;
pub mod text;
pub mod tty;
pub mod view;
pub mod xterm;
