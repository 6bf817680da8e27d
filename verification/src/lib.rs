//! Now-playing information and media control, as verified decision logic.
//!
//! The library holds what does not depend on an operating system call: the state of a player and
//! how each reading changes it, what a command means on each platform, which player a command is
//! routed to, and when workers are started and cancelled. The surrounding application performs
//! the calls and hands their results over as plain values.

pub mod artwork;
pub mod client;
pub mod command;
pub mod conversion;
pub mod linux;
pub mod lifecycle;
pub mod macos;
pub mod monitoring;
pub mod number;
pub mod registry;
pub mod state;
pub mod text;
pub mod windows;

pub use command::{Command, CommandData};
pub use state::NowPlaying;
