//! The terminal interface: its state, its keys and what it shows.

pub mod actions;
pub mod catalog;
pub mod command_line;
pub mod language;
pub mod progress_text;
pub mod results;
pub mod run;
pub mod screen;
pub mod state;
pub mod threads;
