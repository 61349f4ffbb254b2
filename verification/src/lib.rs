//! Capture, timeline and playback engine for input macros.
//!
//! The engine turns a stream of mouse and keyboard events into a timed
//! sequence, keeps the last such sequence, and replays it at a chosen speed.
//! It reads no device and sends no input itself: a caller hands it what a
//! listener reported together with a clock reading, and carries out what it
//! answers.

pub mod clock;
pub mod controller;
pub mod error;
pub mod event;
pub mod playback;
pub mod recording;
pub mod timeline;
