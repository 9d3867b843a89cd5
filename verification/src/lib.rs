//! Decision logic of a menu-bar intelligence monitor: alert rate limiting,
//! quiet hours and digests, mute windows, sweep bookkeeping, and the
//! lifecycle decisions for a local dashboard engine.

pub mod text;
pub mod clock;
pub mod settings;
pub mod runtime;
pub mod alerts;
pub mod engine;
pub mod sweep;
pub mod tray;
pub mod laws;
