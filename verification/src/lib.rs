//! Core logic of a Wayland dictation daemon: a state machine coordinating
//! shortcut signals, audio capture, transcription backends and keyboard
//! injection, together with the configuration store and its text formats.

pub mod codec;
pub mod config;
pub mod config_text;
pub mod hub;
pub mod injector;
pub mod ipc;
pub mod json;
pub mod models;
pub mod persistence;
pub mod recorder;
pub mod session;
pub mod shortcuts;
pub mod state;
pub mod streaming;
pub mod text;
pub mod toml_doc;
pub mod transcriber;
