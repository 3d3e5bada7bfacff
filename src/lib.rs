//! The per-call audio and transcript pipeline of a phone assistant: audio
//! coalescing, transcript readiness, call sessions, reply turns and ordered
//! playback, with the decisions of each stage stated and proved.

pub mod coalescer;
pub mod config;
pub mod generator;
pub mod greeting;
pub mod media;
pub mod models;
pub mod playback;
pub mod recognizer;
pub mod registry;
pub mod session;
pub mod storage;
pub mod text;
pub mod transcript;
pub mod webhook;
