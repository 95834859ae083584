# prettyterm

The core of a terminal emulator, written in Verus with its behaviour stated
in contracts and proved.

- `src/escape` decodes what a program writes to the terminal (control
  sequences, SGR attributes, operating system commands) into actions;
  `parser.rs` drives vtparse's byte-level decoder over the raw bytes and
  turns its dispatches into actions.
- `src/terminal` is the terminal itself: screens of cells with scrollback,
  the cursor, modes, shell command marks, and what each action does to
  them (`model.rs` states it, `terminal.rs` does it, `laws.rs` proves what
  holds over several actions, `limits.rs` checks an action beforehand,
  `html.rs` draws a line).
- `src/input.rs` turns key presses and mouse clicks into the bytes a program
  reads.
- `src/tabs.rs` and `src/command_palette.rs` hold the window's tabs and the
  command palette.
- `src/config` holds the settings, actions, key bindings, colour palettes
  (with the editor that picks, creates and changes them)
  and plugin settings; `src/form.rs` puts the settings form's fields
  together into one value.
- `app/` is a text-mode host: it starts shells in pseudo terminals, reads
  and writes the settings files, and feeds the library.
