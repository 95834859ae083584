use vstd::prelude::*;
use std::ops::Range;

verus! {

/// A cell position: column and (absolute) line.
#[derive(Debug, Clone, Copy, PartialEq, Eq)]
pub struct Position {
    pub x: usize,
    pub y: usize,
}

/// Where the parts of one shell command start: its prompt, the input typed
/// after the prompt, the output, and where the next command began.
#[derive(Debug, Clone, Copy, PartialEq, Eq)]
pub struct CommandSlice {
    pub prompt: Position,
    pub input: Option<Position>,
    pub output: Option<Position>,
    pub end: Option<Position>,
    pub status: Option<i32>,
}

/// The shell commands seen so far, oldest first, as marked by the shell's
/// semantic prompt sequences.
#[derive(Debug)]
pub struct CommandSlicer {
    commands: Vec<CommandSlice>,
}

impl View for CommandSlicer {
    type V = Seq<CommandSlice>;

    closed spec fn view(&self) -> Seq<CommandSlice> {
        self.commands@
    }
}

impl CommandSlicer {
    pub fn new() -> (c: Self)
        ensures
            c@ == Seq::<CommandSlice>::empty(),
    {
        CommandSlicer { commands: Vec::new() }
    }

    pub fn get(&self) -> (v: &Vec<CommandSlice>)
        ensures
            v@ == self@,
    {
        &self.commands
    }

    pub fn len(&self) -> (n: usize)
        ensures
            n == self@.len(),
    {
        self.commands.len()
    }

    /// A new prompt starts at `(x, y)`: the previous command (if any) ends
    /// there, and a new command begins.
    pub fn start_new(&mut self, x: usize, y: usize)
        ensures
            final(self)@ == spec_start_new(old(self)@, x, y),
    {
        let n = self.commands.len();
        if n > 0 {
            let mut c = self.commands[n - 1];
            c.end = Some(Position { x, y });
            self.commands.set(n - 1, c);
        }
        self.commands.push(CommandSlice::new(x, y));
    }

    /// The input of the current command starts at `(x, y)`.
    pub fn start_input(&mut self, x: usize, y: usize)
        requires
            old(self)@.len() > 0,
        ensures
            final(self)@ == old(self)@.update(old(self)@.len() - 1,
                CommandSlice { input: Some(Position { x, y }), ..old(self)@.last() }),
    {
        let n = self.commands.len();
        let mut c = self.commands[n - 1];
        c.input = Some(Position { x, y });
        self.commands.set(n - 1, c);
    }

    /// The output of the current command starts at `(x, y)`.
    pub fn start_output(&mut self, x: usize, y: usize)
        requires
            old(self)@.len() > 0,
        ensures
            final(self)@ == old(self)@.update(old(self)@.len() - 1,
                CommandSlice { output: Some(Position { x, y }), ..old(self)@.last() }),
    {
        let n = self.commands.len();
        let mut c = self.commands[n - 1];
        c.output = Some(Position { x, y });
        self.commands.set(n - 1, c);
    }

    /// The current command finished with exit status `status`.
    pub fn set_status(&mut self, status: i32)
        ensures
            final(self)@ == spec_set_status(old(self)@, status),
    {
        let n = self.commands.len();
        if n > 0 {
            let mut c = self.commands[n - 1];
            c.status = Some(status);
            self.commands.set(n - 1, c);
        }
    }
}

pub open spec fn spec_start_new(cs: Seq<CommandSlice>, x: usize, y: usize) -> Seq<CommandSlice> {
    let closed = if cs.len() > 0 {
        cs.update(cs.len() - 1, CommandSlice { end: Some(Position { x, y }), ..cs.last() })
    } else {
        cs
    };
    closed.push(CommandSlice::spec_new(x, y))
}

pub open spec fn spec_set_status(cs: Seq<CommandSlice>, status: i32) -> Seq<CommandSlice> {
    if cs.len() > 0 {
        cs.update(cs.len() - 1, CommandSlice { status: Some(status), ..cs.last() })
    } else {
        cs
    }
}

impl CommandSlice {
    pub open spec fn spec_new(x: usize, y: usize) -> CommandSlice {
        CommandSlice { prompt: Position { x, y }, input: None, output: None, end: None, status: None }
    }

    /// A command whose prompt starts at `(x, y)`.
    pub fn new(x: usize, y: usize) -> (c: Self)
        ensures
            c == Self::spec_new(x, y),
    {
        CommandSlice { prompt: Position { x, y }, input: None, output: None, end: None, status: None }
    }

    /// The lines the command covers, from its prompt up to (not including)
    /// the line where the next command began; `None` while it runs.
    pub fn lines_range(&self) -> (r: Option<Range<usize>>)
        ensures
            match self.end {
                Some(end) => r matches Some(range) && range.start == self.prompt.y && range.end == end.y,
                None => r is None,
            },
    {
        match self.end {
            Some(end) => Some(self.prompt.y..end.y),
            None => None,
        }
    }

    /// Whether the next command has begun.
    pub fn finished(&self) -> (b: bool)
        ensures
            b == self.end is Some,
    {
        self.end.is_some()
    }

    /// How the command ended, by the exit status the shell reported.
    pub fn get_status(&self) -> (s: CommandStatus)
        ensures
            s == spec_command_status(self.status),
    {
        match self.status {
            None => CommandStatus::NotReported,
            Some(code) => {
                if code == 0 {
                    CommandStatus::Success
                } else if code == 2 {
                    CommandStatus::ShellCommandMisuse
                } else if code == 126 {
                    CommandStatus::CannotExecute
                } else if code == 127 {
                    CommandStatus::NotFound
                } else if code > 128 && code <= 255 {
                    CommandStatus::FatalError(code - 128)
                } else {
                    CommandStatus::Error
                }
            },
        }
    }

    /// The style class of the command's block, by how it ended.
    pub fn status_class(&self) -> (c: &'static str)
        ensures
            c@ == spec_status_class(spec_command_status(self.status)),
    {
        let c = match self.get_status() {
            CommandStatus::Success => "command-success",
            CommandStatus::Error => "command-error",
            CommandStatus::ShellCommandMisuse => "command-misuse",
            CommandStatus::CannotExecute => "command-no-exec",
            CommandStatus::NotFound => "command-not-found",
            CommandStatus::FatalError(_) => "command-fatal",
            CommandStatus::NotReported => "",
        };
        c
    }

    /// The lines the command's block shows: from its prompt to where the
    /// next command began, or to the end of the buffer while it runs.
    pub fn range(&self, scrollback_len: usize) -> (r: Range<usize>)
        ensures
            r.start == self.prompt.y,
            r.end == match self.end {
                Some(e) => e.y,
                None => scrollback_len,
            },
    {
        match self.end {
            Some(e) => self.prompt.y..e.y,
            None => self.prompt.y..scrollback_len,
        }
    }
}

/// How a command ended.
#[derive(Debug, Clone, Copy, PartialEq, Eq, Structural)]
pub enum CommandStatus {
    /// Exit status 0.
    Success,
    /// Any other failing exit status.
    Error,
    /// Exit status 2: a shell builtin was misused.
    ShellCommandMisuse,
    /// Exit status 126: the command was found but could not run.
    CannotExecute,
    /// Exit status 127: no such command.
    NotFound,
    /// Exit status 128 + n: ended by signal n.
    FatalError(i32),
    /// The shell reported no status.
    NotReported,
}

/// How a command with this exit status ended.
pub open spec fn spec_command_status(status: Option<i32>) -> CommandStatus {
    match status {
        None => CommandStatus::NotReported,
        Some(code) => if code == 0 {
            CommandStatus::Success
        } else if code == 2 {
            CommandStatus::ShellCommandMisuse
        } else if code == 126 {
            CommandStatus::CannotExecute
        } else if code == 127 {
            CommandStatus::NotFound
        } else if 128 < code <= 255 {
            CommandStatus::FatalError((code - 128) as i32)
        } else {
            CommandStatus::Error
        },
    }
}

pub open spec fn spec_status_class(s: CommandStatus) -> Seq<char> {
    match s {
        CommandStatus::Success => "command-success"@,
        CommandStatus::Error => "command-error"@,
        CommandStatus::ShellCommandMisuse => "command-misuse"@,
        CommandStatus::CannotExecute => "command-no-exec"@,
        CommandStatus::NotFound => "command-not-found"@,
        CommandStatus::FatalError(_) => "command-fatal"@,
        CommandStatus::NotReported => ""@,
    }
}

} // verus!
