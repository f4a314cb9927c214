//! A terminal countdown timer: the clock and session logic, argument
//! handling, time formatting, themes, quotes and sound-file selection.
//!
//! The program around it draws the screen, reads the keyboard and the clock,
//! and plays the sounds; everything it decides on goes through this crate.

pub mod args;
pub mod clock;
pub mod quotes;
pub mod session;
pub mod sounds;
pub mod text;
pub mod theme;
pub mod time_text;
