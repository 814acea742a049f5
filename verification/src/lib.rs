//! Verified core of a terminal audio player.
//!
//! The playback engine decodes a track on a background thread, feeds samples
//! through a bounded ring buffer to the audio device, and exposes a
//! thread-safe transport surface (play / pause / seek / progress) to a
//! polling UI loop.  This crate holds the engine's decision logic and data
//! structures, fully verified: the transport-control state, the decode
//! worker's state machine, the sample ring buffer, and the facade the UI
//! talks to.  The unverifiable edges (file probing, the audio device, the
//! threads themselves) live outside and drive these types.

pub mod config;
pub mod controls;
pub mod duration;
pub mod player;
pub mod metadata;
pub mod paths;
pub mod ring;
pub mod search;
pub mod sink;
pub mod ui;
pub mod worker;
