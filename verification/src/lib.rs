//! Terminal emulator core: escape-sequence decoding, the terminal screen
//! state machine, key and mouse encoding, configuration data and tab state.

pub mod command_palette;
pub mod config;
pub mod escape;
pub mod form;
pub mod input;
pub mod strmap;
pub mod tabs;
pub mod terminal;
pub mod text;
