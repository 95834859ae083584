//! Checking, before an action runs, that the terminal can take it: the
//! conditions of `action_ok` tested on the terminal's fields.
//!
//! Most of them are tested exactly. Printing a string and blanking part of
//! a row push one cell after another, and whether the positions of all those
//! pushes fit in the machine's integers is only tested against a bound on the
//! sizes involved (`sizes_small`): such an action is refused when the cursor,
//! the screen, the row or the string is that large, even where it would
//! still have fitted.

use vstd::prelude::*;
use crate::escape::{Action, ControlCode, Esc, EscCode, CSI, OSC};
use crate::escape::csi::{Cursor, Edit, EraseInLine};
use crate::escape::osc::FinalTermSemanticPrompt;
use crate::terminal::cell::Cell;
use crate::terminal::model::{
    TermView, active, phys_ok, print_pos, print_ok, spec_print, print_str_ok, fresh_line_ok,
    spec_fresh_line, action_ok, spec_new_line_t,
};
use crate::terminal::screen::{ScreenView, visible_start, push_ok, spec_push, spec_new_line, push_blanks_ok};
use crate::terminal::terminal::Terminal;

verus! {

/// The bound that the sizes of a run of pushes are held to.
pub const SIZE_LIMIT: usize = 4096;

/// The cursor and the number of lines of the active screen are below the
/// bound.
pub open spec fn base_small(v: TermView) -> bool {
    &&& v.cursor.x < SIZE_LIMIT
    &&& v.cursor.y < SIZE_LIMIT
    &&& active(v).lines.len() < SIZE_LIMIT
}

/// The sizes that the check of an action holds to the bound: for a string,
/// the cursor, the screen and the string; for blanking to the end of a row,
/// also the row's length.
pub open spec fn sizes_small(v: TermView, a: Action) -> bool {
    match a {
        Action::PrintString(s) => base_small(v) && s@.len() < SIZE_LIMIT,
        Action::CSI(CSI::Edit(Edit::EraseInLine(EraseInLine::EraseToEnd))) => base_small(v) && (active(v).lines.len()
            > v.cursor.y ==> active(v).lines[v.cursor.y as int].cells.len() < SIZE_LIMIT),
        Action::CSI(CSI::Edit(Edit::EraseInLine(EraseInLine::EraseToStart))) => base_small(v),
        Action::OSC(o) => match *o {
            OSC::FinalTermSemanticPrompt(FinalTermSemanticPrompt::FreshLineAndStartPrompt {  }) => base_small(v),
            OSC::FinalTermSemanticPrompt(FinalTermSemanticPrompt::MarkEndOfCommandWithFreshLine {  }) => base_small(v),
            _ => true,
        },
        _ => true,
    }
}

proof fn lemma_visible_start_le(s: ScreenView)
    ensures
        visible_start(s) <= s.lines.len(),
{
}

/// A push at `(x, y)` adds at most `y + 1` lines.
proof fn lemma_push_len(s: ScreenView, cell: Cell, x: nat, y: nat)
    ensures
        spec_push(s, cell, x, y).lines.len() <= s.lines.len() + y + 1,
        spec_push(s, cell, x, y).rows == s.rows,
{
    lemma_visible_start_le(s);
}

proof fn lemma_push_ok(s: ScreenView, x: nat, y: nat)
    requires
        x < 0x1000_0000,
        s.lines.len() + y < 0x1000_0000,
    ensures
        push_ok(s, x, y),
{
    lemma_visible_start_le(s);
}

/// Printing a string keeps within the machine's integers while the cursor,
/// the screen and the string stay well below them.
proof fn lemma_print_str_ok(v: TermView, cs: Seq<char>)
    requires
        v.cursor.x + cs.len() <= 0x2000,
        v.cursor.y + cs.len() <= 0x2000,
        active(v).lines.len() + cs.len() * 0x4000 <= 0x800_0000,
    ensures
        print_str_ok(v, cs),
    decreases cs.len(),
{
    if cs.len() > 0 {
        let (x, y) = print_pos(v);
        let cell = Cell { text: cs[0], attr: v.attr };
        lemma_push_ok(active(v), x, y);
        lemma_push_len(active(v), cell, x, y);
        let w = spec_print(v, cs[0]);
        assert(active(w) == spec_push(active(v), cell, x, y));
        lemma_print_str_ok(w, cs.drop_first());
    }
}

/// Blanking columns `from..to` of row `y` keeps within the machine's
/// integers while the row, the columns and the screen stay well below them.
proof fn lemma_push_blanks_ok(s: ScreenView, from: nat, to: nat, y: nat)
    requires
        to <= 0x2000,
        y < 0x2000,
        from < to ==> s.lines.len() + (to - from) * 0x4000 <= 0x800_0000,
    ensures
        push_blanks_ok(s, from, to, y),
    decreases to - from,
{
    if from < to {
        lemma_push_ok(s, from, y);
        lemma_push_len(s, Cell::spec_default(), from, y);
        lemma_push_blanks_ok(spec_push(s, Cell::spec_default(), from, y), from + 1, to, y);
    }
}

/// A fresh line keeps within the machine's integers while the cursor and
/// the screen stay below the bound.
proof fn lemma_fresh_line(v: TermView)
    requires
        base_small(v),
    ensures
        fresh_line_ok(v),
        phys_ok(spec_fresh_line(v)),
{
    lemma_visible_start_le(active(v));
    if v.cursor.x != 0 {
        let w = spec_new_line_t(v);
        let n = spec_new_line(active(v));
        assert(n.lines.len() <= active(v).lines.len() + 1);
        lemma_visible_start_le(n);
        lemma_visible_start_le(active(w));
        assert(active(w).lines.len() <= active(v).lines.len() + 1);
    }
}

impl Terminal {
    /// Whether a character can be printed: the exact condition `print_ok`.
    fn can_print(&self) -> (b: bool)
        ensures
            b == print_ok(self@),
    {
        let x = self.cursor.x;
        let y = self.cursor.y;
        let screen = self.screen();
        let len = screen.scrollback_len();
        let vs = screen.visible_start();
        proof {
            lemma_visible_start_le(active(self@));
        }
        let (px, py) = if x >= self.cols as usize {
            if y == usize::MAX {
                return false;
            }
            (0usize, y + 1)
        } else {
            (x, y)
        };
        assert(print_pos(self@) == (px as nat, py as nat));
        if px == usize::MAX {
            return false;
        }
        if py > usize::MAX - vs {
            return false;
        }
        let vy = vs + py;
        if vy >= len && vy - len == usize::MAX {
            return false;
        }
        true
    }

    /// Whether `handle_action` can take the action. It is never true of an
    /// action that the terminal cannot take, and it is true of every action
    /// that the terminal can take whose sizes are below the bound of
    /// `sizes_small`.
    pub fn can_handle(&self, action: &Action) -> (b: bool)
        ensures
            b ==> action_ok(self@, *action),
            action_ok(self@, *action) && sizes_small(self@, *action) ==> b,
    {
        let x = self.cursor.x;
        let y = self.cursor.y;
        let screen = self.screen();
        let len = screen.scrollback_len();
        let vs = screen.visible_start();
        proof {
            lemma_visible_start_le(active(self@));
        }
        let small = x < SIZE_LIMIT && y < SIZE_LIMIT && len < SIZE_LIMIT;
        match action {
            Action::Print(_) => self.can_print(),
            Action::PrintString(s) => {
                if small && s.unicode_len() < SIZE_LIMIT {
                    proof {
                        lemma_print_str_ok(self@, s@);
                    }
                    true
                } else {
                    false
                }
            },
            Action::Control(c) => match c {
                ControlCode::LineFeed => y < usize::MAX,
                ControlCode::Backspace => x >= 1,
                _ => true,
            },
            Action::CSI(c) => match c {
                CSI::Cursor(m) => match m {
                    Cursor::Left(a) => x >= *a as usize,
                    Cursor::Down(a) => y <= usize::MAX - *a as usize,
                    Cursor::NextLine(a) => y <= usize::MAX - *a as usize,
                    Cursor::Right(a) => x <= usize::MAX - *a as usize,
                    Cursor::Up(a) => y >= *a as usize,
                    Cursor::PrecedingLine(a) => y >= *a as usize,
                    Cursor::Position { line, col } => *line >= 1 && *col >= 1,
                    _ => true,
                },
                CSI::Edit(e) => match e {
                    Edit::EraseInLine(EraseInLine::EraseToEnd) => {
                        if !small {
                            false
                        } else if len > y {
                            let n = screen.line(y).len();
                            if n < SIZE_LIMIT {
                                proof {
                                    lemma_push_blanks_ok(active(self@), x as nat, n as nat, y as nat);
                                }
                                true
                            } else {
                                false
                            }
                        } else {
                            true
                        }
                    },
                    Edit::EraseInLine(EraseInLine::EraseToStart) => {
                        if small {
                            proof {
                                lemma_push_blanks_ok(active(self@), 0, x as nat, y as nat);
                            }
                            true
                        } else {
                            false
                        }
                    },
                    Edit::EraseInLine(EraseInLine::EraseLine) => y < len - vs,
                    Edit::EraseInDisplay(_) => true,
                    Edit::EraseCharacter(n) => x <= usize::MAX - *n as usize && y < len - vs,
                },
                _ => true,
            },
            Action::OSC(o) => match &**o {
                OSC::FinalTermSemanticPrompt(p) => match p {
                    FinalTermSemanticPrompt::FreshLine => x == 0 || y < usize::MAX,
                    FinalTermSemanticPrompt::FreshLineAndStartPrompt {  }
                    | FinalTermSemanticPrompt::MarkEndOfCommandWithFreshLine {  } => {
                        if small {
                            proof {
                                lemma_fresh_line(self@);
                            }
                            true
                        } else {
                            false
                        }
                    },
                    FinalTermSemanticPrompt::StartPrompt(_) => true,
                    FinalTermSemanticPrompt::EndOfPromptUntilMarker
                    | FinalTermSemanticPrompt::EndOfPromptUntilEndOfLine
                    | FinalTermSemanticPrompt::EndOfInput { .. } => y <= usize::MAX - vs && self.commands.len() > 0,
                    FinalTermSemanticPrompt::CommandStatus { .. } => true,
                },
                _ => true,
            },
            Action::Esc(e) => match e {
                Esc::Code(EscCode::DecDoubleWidthLine)
                | Esc::Code(EscCode::DecDoubleHeightTopHalfLine)
                | Esc::Code(EscCode::DecDoubleHeightBottomHalfLine) => {
                    if y > usize::MAX - vs {
                        false
                    } else {
                        let p = vs + y;
                        p < len - vs
                    }
                },
                _ => true,
            },
            _ => true,
        }
    }
}

} // verus!
