//! Mirrors the currently playing track of a local media player into a remote
//! presence session: decoding metadata lines, deduplicating cover-art uploads,
//! and driving the presence-session state machine with retry semantics.

pub mod activity;
pub mod controller;
pub mod decode;
pub mod json;
pub mod numbers;
pub mod resolver;
pub mod size;
pub mod text;
pub mod track;
