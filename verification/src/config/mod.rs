//! Configuration data: actions, colour palettes, key bindings and plugins.

pub mod actions;
pub mod colour_pal;
pub mod keybindings;
pub mod palettes;
pub mod plugins;
pub mod watch;

pub use actions::TerminalAction;

use vstd::prelude::*;

verus! {

/// The user settings.
#[derive(Debug, PartialEq, Clone)]
pub struct Config {
    pub default_cwd: String,
    pub start_up_command: String,
    pub term: String,
    pub palette: String,
    pub show_tabs: bool,
    pub font_size: u64,
    pub max_scrollback: u64,
}

impl Default for Config {
    /// The settings used when there is no settings file (and for every
    /// field the file leaves out).
    fn default() -> (c: Self)
        ensures
            c.font_size == 14,
            c.max_scrollback == 1000,
            c.default_cwd@ == "~"@,
            c.start_up_command@.len() == 0,
            c.term@ == "xterm-256color"@,
            c.show_tabs,
            c.palette@ == "default"@,
    {
        Config {
            font_size: 14,
            max_scrollback: 1000,
            default_cwd: "~".to_owned(),
            start_up_command: String::new(),
            term: "xterm-256color".to_owned(),
            show_tabs: true,
            palette: "default".to_owned(),
        }
    }
}

/// The command a new terminal tab is started with: the configured start-up
/// command is passed on only when it is empty; otherwise the shell's
/// default is used.
pub fn startup_command(config: &Config) -> (r: Option<String>)
    ensures
        config.start_up_command@.len() == 0 ==> (r matches Some(s) && s@ == config.start_up_command@),
        config.start_up_command@.len() != 0 ==> r is None,
{
    if config.start_up_command.as_str().is_empty() {
        Some(config.start_up_command.clone())
    } else {
        None
    }
}

} // verus!
