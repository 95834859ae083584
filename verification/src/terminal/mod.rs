//! The terminal: a screen of character cells driven by escape-sequence actions.

pub mod cell;
pub mod cursor;
pub mod line;
pub mod command;
pub mod state;
pub mod screen;
pub mod model;
pub mod html;
pub mod limits;
pub mod laws;
pub mod terminal;

pub use terminal::{SixelImage, Terminal, TerminalEffect};
