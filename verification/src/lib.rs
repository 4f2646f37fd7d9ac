//! Core logic of a terminal pomodoro timer: the work/break session state
//! machine, the frame-coalescing animation clock with theme rotation, and the
//! adaptive terminal-scaling policy.
//!
//! Wall-clock time and randomness are injected as plain arguments
//! (milliseconds and seeds), so every operation here is a deterministic,
//! verified function of its inputs. Terminal I/O, rendering, notifications
//! and the cross-process status file live outside this crate.

pub mod animation;
pub mod app;
pub mod fonts;
pub mod laws;
pub mod scaling;
pub mod themes;
pub mod timer;

pub use fonts::DigitFont;
pub use timer::PomodoroTimer;
pub use timer::TimerState;
