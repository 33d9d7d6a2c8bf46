//! Click-macro engine: records pointer clicks with delta-encoded timing,
//! recognises the hotkey combinations that start, stop and replay a
//! recording, and drives the replay step by step while telling the user's
//! input apart from the engine's own synthetic input.
//!
//! The library owns no clock and no device: every function takes the current
//! reading of a monotonic clock, in nanoseconds, and plain values for what the
//! devices reported; it answers with the new state and the action to perform.

pub mod event;
pub mod recorder;
pub mod echo;
pub mod dispatch;
pub mod replay;
