//! Playback session: its state and transitions, the audio and timing
//! controls, decode-stream bookkeeping, cache recording and the decisions of
//! the playback commands.

pub mod types;
pub mod service;
pub mod controls;
pub mod stream;
pub mod cache;
pub mod commands;
