//! What the terminal does with each action, as functions on its view.

use vstd::prelude::*;
use crate::escape::{Action, ControlCode, Esc, EscCode, Sixel, CSI, OSC};
use crate::escape::csi::{Cursor, Edit, EraseInDisplay, EraseInLine, Mode};
use crate::escape::osc::{FinalTermSemanticPrompt, ITermProprietary};
use crate::terminal::cell::{Cell, CellAttributes, PromptKind, SemanticType, Until};
use crate::terminal::command::{CommandSlice, spec_start_new, spec_set_status, Position};
use crate::terminal::cursor::TerminalCursor;
use crate::terminal::line::LineView;
use crate::terminal::screen::{ScreenView, visible_start, push_ok, spec_push, spec_new_line, spec_apply_sgr, push_blanks, push_blanks_ok};
use crate::terminal::state::is_named_dec_mode;

verus! {

/// Everything the terminal holds.
pub ghost struct TermView {
    pub rows: u16,
    pub cols: u16,
    pub screen: ScreenView,
    pub alt: ScreenView,
    pub attr: CellAttributes,
    pub render_commands: Seq<CommandSlice>,
    pub cwd: Seq<char>,
    pub alt_screen: bool,
    pub bracketed_paste: bool,
    pub show_cursor: bool,
    pub codes: Map<usize, bool>,
    pub cursor: TerminalCursor,
    pub commands: Seq<CommandSlice>,
    pub user_vars: Map<Seq<char>, Seq<char>>,
    pub title: Seq<char>,
    /// The sixel images received, oldest first: the cursor's column and
    /// row when each came, and its data.
    pub sixels: Seq<(usize, usize, Seq<u8>)>,
}

/// The screen being drawn on: the alternate one while it is switched on.
pub open spec fn active(v: TermView) -> ScreenView {
    if v.alt_screen { v.alt } else { v.screen }
}

pub open spec fn with_active(v: TermView, s: ScreenView) -> TermView {
    if v.alt_screen { TermView { alt: s, ..v } } else { TermView { screen: s, ..v } }
}

pub open spec fn with_cursor(v: TermView, c: TerminalCursor) -> TermView {
    TermView { cursor: c, ..v }
}

/// The absolute line of the cursor's row on the active screen.
pub open spec fn phys_y(v: TermView) -> nat {
    visible_start(active(v)) + v.cursor.y as nat
}

// ---------------------------------------------------------------------
// Printing
// ---------------------------------------------------------------------

/// Where the next character goes: past the last column it wraps to the
/// start of the next row.
pub open spec fn print_pos(v: TermView) -> (nat, nat) {
    if v.cursor.x >= v.cols { (0, (v.cursor.y + 1) as nat) } else { (v.cursor.x as nat, v.cursor.y as nat) }
}

pub open spec fn print_ok(v: TermView) -> bool {
    let (x, y) = print_pos(v);
    &&& v.cursor.x >= v.cols ==> v.cursor.y + 1 <= usize::MAX
    &&& push_ok(active(v), x, y)
    &&& x + 1 <= usize::MAX
}

/// The terminal after printing `c`: the cell goes under the cursor with
/// the current attributes and the cursor moves one column right.
pub open spec fn spec_print(v: TermView, c: char) -> TermView {
    let (x, y) = print_pos(v);
    let s = spec_push(active(v), Cell { text: c, attr: v.attr }, x, y);
    with_cursor(with_active(v, s), TerminalCursor { x: (x + 1) as usize, y: y as usize, ..v.cursor })
}

pub open spec fn print_str_ok(v: TermView, cs: Seq<char>) -> bool
    decreases cs.len(),
{
    cs.len() == 0 || (print_ok(v) && print_str_ok(spec_print(v, cs[0]), cs.drop_first()))
}

pub open spec fn spec_print_str(v: TermView, cs: Seq<char>) -> TermView
    decreases cs.len(),
{
    if cs.len() == 0 { v } else { spec_print_str(spec_print(v, cs[0]), cs.drop_first()) }
}

// ---------------------------------------------------------------------
// Control codes and lines
// ---------------------------------------------------------------------

pub open spec fn new_line_ok(v: TermView) -> bool {
    v.cursor.y + 1 <= usize::MAX
}

/// The terminal after a line feed: the cursor moves down a row; moving
/// past the last row keeps it there and adds a line to the active screen.
pub open spec fn spec_new_line_t(v: TermView) -> TermView {
    let y = v.cursor.y + 1;
    if y == v.rows {
        with_active(with_cursor(v, TerminalCursor { y: (v.rows - 1) as usize, ..v.cursor }), spec_new_line(active(v)))
    } else {
        with_cursor(v, TerminalCursor { y: y as usize, ..v.cursor })
    }
}

pub open spec fn control_ok(v: TermView, c: ControlCode) -> bool {
    match c {
        ControlCode::LineFeed => new_line_ok(v),
        ControlCode::Backspace => v.cursor.x >= 1,
        _ => true,
    }
}

pub open spec fn spec_control(v: TermView, c: ControlCode) -> TermView {
    match c {
        ControlCode::LineFeed => spec_new_line_t(v),
        ControlCode::CarriageReturn => with_cursor(v, TerminalCursor { x: 0, ..v.cursor }),
        ControlCode::Backspace => with_cursor(v, TerminalCursor { x: (v.cursor.x - 1) as usize, ..v.cursor }),
        _ => v,
    }
}

// ---------------------------------------------------------------------
// Control sequences
// ---------------------------------------------------------------------

pub open spec fn cursor_ok(v: TermView, c: Cursor) -> bool {
    match c {
        Cursor::Left(a) => v.cursor.x >= a,
        Cursor::Down(a) => v.cursor.y + a <= usize::MAX,
        Cursor::NextLine(a) => v.cursor.y + a <= usize::MAX,
        Cursor::Right(a) => v.cursor.x + a <= usize::MAX,
        Cursor::Up(a) => v.cursor.y >= a,
        Cursor::PrecedingLine(a) => v.cursor.y >= a,
        Cursor::Position { line, col } => line >= 1 && col >= 1,
        _ => true,
    }
}

/// The cursor after a movement: each moves by its count in its direction;
/// a position is given from one.
pub open spec fn spec_cursor_move(c: TerminalCursor, m: Cursor) -> TerminalCursor {
    match m {
        Cursor::Left(a) => TerminalCursor { x: (c.x - a) as usize, ..c },
        Cursor::Down(a) => TerminalCursor { y: (c.y + a) as usize, ..c },
        Cursor::NextLine(a) => TerminalCursor { y: (c.y + a) as usize, ..c },
        Cursor::Right(a) => TerminalCursor { x: (c.x + a) as usize, ..c },
        Cursor::Up(a) => TerminalCursor { y: (c.y - a) as usize, ..c },
        Cursor::PrecedingLine(a) => TerminalCursor { y: (c.y - a) as usize, ..c },
        Cursor::Position { line, col } => TerminalCursor { x: (col - 1) as usize, y: (line - 1) as usize, ..c },
        Cursor::CursorStyle(s) => TerminalCursor { style: s, ..c },
        Cursor::HorizontalPosition(_) => c,
    }
}

/// The end of the blanked range of erase-to-end: the length of line `y`
/// counted from the top of the buffer.
pub open spec fn erase_end(s: ScreenView, y: nat) -> nat {
    s.lines[y as int].cells.len()
}

pub open spec fn edit_ok(v: TermView, e: Edit) -> bool {
    let s = active(v);
    let x = v.cursor.x as nat;
    let y = v.cursor.y as nat;
    match e {
        Edit::EraseInLine(EraseInLine::EraseToEnd) => s.lines.len() > y ==> push_blanks_ok(s, x, erase_end(s, y), y),
        Edit::EraseInLine(EraseInLine::EraseToStart) => push_blanks_ok(s, 0, x, y),
        Edit::EraseInLine(EraseInLine::EraseLine) => visible_start(s) + y < s.lines.len(),
        Edit::EraseInDisplay(_) => true,
        Edit::EraseCharacter(n) => x + n <= usize::MAX && visible_start(s) + y < s.lines.len(),
    }
}

pub open spec fn spec_edit(v: TermView, e: Edit) -> TermView {
    let s = active(v);
    let x = v.cursor.x as nat;
    let y = v.cursor.y as nat;
    match e {
        Edit::EraseInLine(EraseInLine::EraseToEnd) =>
            if s.lines.len() > y { with_active(v, push_blanks(s, x, erase_end(s, y), y)) } else { v },
        Edit::EraseInLine(EraseInLine::EraseToStart) => with_active(v, push_blanks(s, 0, x, y)),
        Edit::EraseInLine(EraseInLine::EraseLine) => {
            let vi = visible_start(s) + y;
            with_active(v, ScreenView {
                lines: s.lines.update(vi as int, LineView { cells: Seq::empty(), double_width: false, double_height: false }),
                ..s
            })
        },
        Edit::EraseInDisplay(EraseInDisplay::EraseDisplay) =>
            with_cursor(with_active(v, ScreenView { lines: Seq::empty(), ..s }), TerminalCursor { x: 0, y: 0, ..v.cursor }),
        Edit::EraseCharacter(n) => {
            let vi = visible_start(s) + y;
            let line = s.lines[vi as int];
            let end = if x + n < line.cells.len() { x + n } else { line.cells.len() as int };
            with_active(v, ScreenView {
                lines: s.lines.update(vi as int, LineView {
                    cells: Seq::new(line.cells.len(), |i: int| if x <= i < end { Cell::spec_default() } else { line.cells[i] }),
                    ..line
                }),
                ..s
            })
        },
    }
}

/// The modes after a DEC private mode is switched on (`active`) or off; a
/// mode number that termwiz does not name changes nothing.
pub open spec fn spec_dec_mode(v: TermView, code: u16, on: bool) -> TermView {
    if !is_named_dec_mode(code) {
        v
    } else if code == 2004 {
        TermView { bracketed_paste: on, ..v }
    } else if code == 47 || code == 1049 {
        TermView { alt_screen: on, ..v }
    } else if code == 25 {
        TermView { show_cursor: on, ..v }
    } else {
        TermView { codes: v.codes.insert(code as usize, on), ..v }
    }
}

pub open spec fn csi_ok(v: TermView, c: CSI) -> bool {
    match c {
        CSI::Cursor(m) => cursor_ok(v, m),
        CSI::Edit(e) => edit_ok(v, e),
        _ => true,
    }
}

pub open spec fn spec_csi(v: TermView, c: CSI) -> TermView {
    match c {
        CSI::Sgr(s) => TermView { attr: spec_apply_sgr(v.attr, s), ..v },
        CSI::Mode(Mode::SetDecPrivateMode(n)) => spec_dec_mode(v, n, true),
        CSI::Mode(Mode::ResetDecPrivateMode(n)) => spec_dec_mode(v, n, false),
        CSI::Cursor(m) => with_cursor(v, spec_cursor_move(v.cursor, m)),
        CSI::Edit(e) => spec_edit(v, e),
        _ => v,
    }
}

// ---------------------------------------------------------------------
// Operating system commands and semantic prompts
// ---------------------------------------------------------------------

pub open spec fn fresh_line_ok(v: TermView) -> bool {
    v.cursor.x != 0 ==> new_line_ok(v)
}

/// A fresh line: unless the cursor is at the start of a row, a line feed
/// and a return to the first column.
pub open spec fn spec_fresh_line(v: TermView) -> TermView {
    if v.cursor.x == 0 {
        v
    } else {
        let w = spec_new_line_t(v);
        with_cursor(w, TerminalCursor { x: 0, ..w.cursor })
    }
}

pub open spec fn with_semantic(v: TermView, t: SemanticType) -> TermView {
    TermView { attr: CellAttributes { semantic_type: t, ..v.attr }, ..v }
}

pub open spec fn phys_ok(v: TermView) -> bool {
    visible_start(active(v)) + v.cursor.y <= usize::MAX
}

pub open spec fn fts_ok(v: TermView, p: FinalTermSemanticPrompt) -> bool {
    match p {
        FinalTermSemanticPrompt::FreshLine => fresh_line_ok(v),
        FinalTermSemanticPrompt::FreshLineAndStartPrompt {} => fresh_line_ok(v) && phys_ok(spec_fresh_line(v)),
        FinalTermSemanticPrompt::MarkEndOfCommandWithFreshLine {} => fresh_line_ok(v) && phys_ok(spec_fresh_line(v)),
        FinalTermSemanticPrompt::StartPrompt(_) => true,
        FinalTermSemanticPrompt::EndOfPromptUntilMarker => phys_ok(v) && v.commands.len() > 0,
        FinalTermSemanticPrompt::EndOfPromptUntilEndOfLine => phys_ok(v) && v.commands.len() > 0,
        FinalTermSemanticPrompt::EndOfInput { .. } => phys_ok(v) && v.commands.len() > 0,
        FinalTermSemanticPrompt::CommandStatus { .. } => true,
    }
}

/// A new command starts at the cursor: its cells are prompt cells.
pub open spec fn spec_start_command(v: TermView) -> TermView {
    TermView {
        commands: spec_start_new(v.commands, v.cursor.x, phys_y(v) as usize),
        ..with_semantic(v, SemanticType::Prompt(PromptKind::Initial))
    }
}

/// The input of the current command starts at the cursor.
pub open spec fn spec_start_input(v: TermView, until: Until) -> TermView {
    TermView {
        commands: v.commands.update(v.commands.len() - 1,
            CommandSlice { input: Some(Position { x: v.cursor.x, y: phys_y(v) as usize }), ..v.commands.last() }),
        ..with_semantic(v, SemanticType::Input(until))
    }
}

pub open spec fn spec_fts(v: TermView, p: FinalTermSemanticPrompt) -> TermView {
    match p {
        FinalTermSemanticPrompt::FreshLine => spec_fresh_line(v),
        FinalTermSemanticPrompt::FreshLineAndStartPrompt {} => spec_start_command(spec_fresh_line(v)),
        FinalTermSemanticPrompt::MarkEndOfCommandWithFreshLine {} => spec_start_command(spec_fresh_line(v)),
        FinalTermSemanticPrompt::StartPrompt(k) => with_semantic(v, SemanticType::Prompt(PromptKind::spec_from(k))),
        FinalTermSemanticPrompt::EndOfPromptUntilMarker => spec_start_input(v, Until::SemanticMarker),
        FinalTermSemanticPrompt::EndOfPromptUntilEndOfLine => spec_start_input(v, Until::LineEnd),
        FinalTermSemanticPrompt::EndOfInput { .. } => TermView {
            commands: v.commands.update(v.commands.len() - 1,
                CommandSlice { output: Some(Position { x: v.cursor.x, y: phys_y(v) as usize }), ..v.commands.last() }),
            ..with_semantic(v, SemanticType::Output)
        },
        FinalTermSemanticPrompt::CommandStatus { status, .. } => TermView { commands: spec_set_status(v.commands, status), ..v },
    }
}

pub open spec fn osc_ok(v: TermView, o: OSC) -> bool {
    match o {
        OSC::FinalTermSemanticPrompt(p) => fts_ok(v, p),
        _ => true,
    }
}

pub open spec fn spec_osc(v: TermView, o: OSC) -> TermView {
    match o {
        OSC::SetWindowTitle(t) => TermView { title: t@, ..v },
        OSC::SetIconNameAndWindowTitle(t) => TermView { title: t@, ..v },
        OSC::FinalTermSemanticPrompt(p) => spec_fts(v, p),
        OSC::ITermProprietary(ITermProprietary::SetUserVar { name, value }) => TermView { user_vars: v.user_vars.insert(name@, value@), ..v },
        OSC::CurrentWorkingDirectory(cwd) => TermView { cwd: cwd@, ..v },
        _ => v,
    }
}

// ---------------------------------------------------------------------
// ESC sequences
// ---------------------------------------------------------------------

/// The index of the line that the line-size sequences change: the
/// cursor's absolute line, counted once more from the first visible line.
pub open spec fn current_line_index(v: TermView) -> nat {
    visible_start(active(v)) + phys_y(v)
}

pub open spec fn esc_ok(v: TermView, e: Esc) -> bool {
    match e {
        Esc::Code(EscCode::DecDoubleWidthLine) | Esc::Code(EscCode::DecDoubleHeightTopHalfLine)
            | Esc::Code(EscCode::DecDoubleHeightBottomHalfLine) =>
            phys_y(v) <= usize::MAX && current_line_index(v) < active(v).lines.len(),
        _ => true,
    }
}

pub open spec fn spec_esc(v: TermView, e: Esc) -> TermView {
    let s = active(v);
    let i = current_line_index(v) as int;
    match e {
        Esc::Code(EscCode::DecDoubleWidthLine) =>
            with_active(v, ScreenView { lines: s.lines.update(i, LineView { double_width: true, ..s.lines[i] }), ..s }),
        Esc::Code(EscCode::DecDoubleHeightTopHalfLine) | Esc::Code(EscCode::DecDoubleHeightBottomHalfLine) =>
            with_active(v, ScreenView { lines: s.lines.update(i, LineView { double_height: true, ..s.lines[i] }), ..s }),
        _ => v,
    }
}

// ---------------------------------------------------------------------
// Actions
// ---------------------------------------------------------------------

/// The terminal can take this action without failing.
pub open spec fn action_ok(v: TermView, a: Action) -> bool {
    match a {
        Action::Print(c) => print_ok(v),
        Action::PrintString(s) => print_str_ok(v, s@),
        Action::Control(c) => control_ok(v, c),
        Action::CSI(c) => csi_ok(v, c),
        Action::OSC(o) => osc_ok(v, *o),
        Action::Esc(e) => esc_ok(v, e),
        _ => true,
    }
}

/// The terminal after an action.
pub open spec fn spec_step(v: TermView, a: Action) -> TermView {
    match a {
        Action::Print(c) => spec_print(v, c),
        Action::PrintString(s) => spec_print_str(v, s@),
        Action::Control(c) => spec_control(v, c),
        Action::CSI(c) => spec_csi(v, c),
        Action::OSC(o) => spec_osc(v, *o),
        Action::Esc(e) => spec_esc(v, e),
        Action::Sixel(img) => spec_sixel(v, *img),
        _ => v,
    }
}

/// A sixel image is kept, with the cursor position it came at, for the
/// window to draw; nothing else changes.
pub open spec fn spec_sixel(v: TermView, img: Sixel) -> TermView {
    TermView { sixels: v.sixels.push((v.cursor.x, v.cursor.y, img.data@)), ..v }
}

pub open spec fn actions_ok(v: TermView, acts: Seq<Action>) -> bool
    decreases acts.len(),
{
    acts.len() == 0 || (action_ok(v, acts[0]) && actions_ok(spec_step(v, acts[0]), acts.drop_first()))
}

pub open spec fn spec_steps(v: TermView, acts: Seq<Action>) -> TermView
    decreases acts.len(),
{
    if acts.len() == 0 { v } else { spec_steps(spec_step(v, acts[0]), acts.drop_first()) }
}

/// The notification an action asks the desktop to show, if any.
pub open spec fn spec_notification(a: Action) -> Option<Seq<char>> {
    match a {
        Action::OSC(o) => match *o {
            OSC::SystemNotification(n) => Some(n@),
            _ => None,
        },
        _ => None,
    }
}

/// The texts of the notifications that a run of actions asks for, in order.
pub open spec fn spec_notifications(actions: Seq<Action>) -> Seq<Seq<char>>
    decreases actions.len(),
{
    if actions.len() == 0 {
        Seq::empty()
    } else {
        let rest = spec_notifications(actions.drop_first());
        match spec_notification(actions[0]) {
            Some(n) => seq![n] + rest,
            None => rest,
        }
    }
}

} // verus!
