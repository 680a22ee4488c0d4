//! A minimal terminal-control library: an alternate-screen session
//! controller modelled as a verified state machine.
//!
//! The library decides which escape sequences to emit and how the
//! line-discipline configuration changes; the thin shell around it
//! performs the actual device calls and writes.

pub mod config;
pub mod dim;
pub mod escape;
pub mod screen;

pub use config::TermConfig;
pub use dim::TermDim;
pub use screen::{CursorState, ModeState, Screen};
