//! Core logic of a small interval-timer ("Pomodoro"-style) application:
//! a tick-based progress tracker, a session state machine that alternates
//! between a main phase and a break phase with an audio-notification
//! interlude, and the settings-screen rules for staging and committing
//! notification-sound file paths.
//!
//! Everything here is pure state manipulation. Wall-clock readings, GUI
//! rendering and audio decoding/playback happen outside the library and
//! are fed in as plain values (millisecond timestamps, decode outcomes).

pub mod audio;
pub mod session;
pub mod ticker;
