//! What holds of the terminal over several actions, stated over the model
//! that `Terminal::handle_action` follows.

use vstd::prelude::*;
use crate::escape::{Action, ControlCode, Esc, EscCode, CSI, OSC};
use crate::escape::csi::{Cursor, Edit, EraseInDisplay, EraseInLine, Mode};
use crate::escape::osc::ITermProprietary;
use crate::escape::sgr::{Blink, ColorSpec, Intensity, Sgr, Underline};
use crate::terminal::cell::{Cell, CellAttributes};
use crate::terminal::command::{CommandSlice, Position, spec_start_new, spec_set_status};
use crate::terminal::model::{TermView, active, action_ok, spec_step, print_pos, print_ok, current_line_index};
use crate::terminal::screen::{ScreenView, visible_start, spec_new_line, spec_apply_sgr};

verus! {

/// Switching a DEC private mode on and then off has the same effect as
/// switching it off alone.
pub proof fn law_dec_mode_set_then_reset(v: TermView, code: u16)
    ensures
        spec_step(spec_step(v, Action::CSI(CSI::Mode(Mode::SetDecPrivateMode(code)))),
            Action::CSI(CSI::Mode(Mode::ResetDecPrivateMode(code))))
            == spec_step(v, Action::CSI(CSI::Mode(Mode::ResetDecPrivateMode(code)))),
{
    let w = spec_step(v, Action::CSI(CSI::Mode(Mode::SetDecPrivateMode(code))));
    let a = spec_step(w, Action::CSI(CSI::Mode(Mode::ResetDecPrivateMode(code))));
    let b = spec_step(v, Action::CSI(CSI::Mode(Mode::ResetDecPrivateMode(code))));
    assert(a.codes =~= b.codes);
}

/// Modes 47 and 1049 switch the alternate screen on and off; nothing else
/// of the screens changes.
pub proof fn law_alt_screen_modes(v: TermView, code: u16)
    requires
        code == 47 || code == 1049,
    ensures
        spec_step(v, Action::CSI(CSI::Mode(Mode::SetDecPrivateMode(code))))
            == (TermView { alt_screen: true, ..v }),
        spec_step(v, Action::CSI(CSI::Mode(Mode::ResetDecPrivateMode(code))))
            == (TermView { alt_screen: false, ..v }),
{
}

/// Moving the cursor right by `n` columns and then left by `n` leaves the
/// terminal as it was.
pub proof fn law_right_then_left(v: TermView, n: u32)
    requires
        v.cursor.x + n <= usize::MAX,
    ensures
        action_ok(v, Action::CSI(CSI::Cursor(Cursor::Right(n)))),
        action_ok(spec_step(v, Action::CSI(CSI::Cursor(Cursor::Right(n)))), Action::CSI(CSI::Cursor(Cursor::Left(n)))),
        spec_step(spec_step(v, Action::CSI(CSI::Cursor(Cursor::Right(n)))), Action::CSI(CSI::Cursor(Cursor::Left(n)))) == v,
{
}

/// Moving the cursor down by `n` rows and then up by `n` leaves the
/// terminal as it was.
pub proof fn law_down_then_up(v: TermView, n: u32)
    requires
        v.cursor.y + n <= usize::MAX,
    ensures
        action_ok(v, Action::CSI(CSI::Cursor(Cursor::Down(n)))),
        action_ok(spec_step(v, Action::CSI(CSI::Cursor(Cursor::Down(n)))), Action::CSI(CSI::Cursor(Cursor::Up(n)))),
        spec_step(spec_step(v, Action::CSI(CSI::Cursor(Cursor::Down(n)))), Action::CSI(CSI::Cursor(Cursor::Up(n)))) == v,
{
}

/// Switching one DEC private mode leaves every other mode number reading as
/// it did.
pub proof fn law_dec_mode_keeps_other_codes(v: TermView, code: u16, other: u16, on: bool)
    requires
        code != other,
    ensures
        ({
            let a = if on {
                Action::CSI(CSI::Mode(Mode::SetDecPrivateMode(code)))
            } else {
                Action::CSI(CSI::Mode(Mode::ResetDecPrivateMode(code)))
            };
            let w = spec_step(v, a);
            &&& w.codes.contains_key(other as usize) == v.codes.contains_key(other as usize)
            &&& w.codes[other as usize] == v.codes[other as usize]
        }),
{
}

/// The fields of two sets of attributes agree, apart from the colours of
/// the text, its background and its underline.
pub open spec fn same_but_colours(a: CellAttributes, b: CellAttributes) -> bool {
    &&& a.underline == b.underline
    &&& a.intensity == b.intensity
    &&& a.italic == b.italic
    &&& a.strikethrough == b.strikethrough
    &&& a.blink == b.blink
    &&& a.semantic_type == b.semantic_type
}

/// The fields of two sets of attributes agree, apart from their styles
/// (underline, intensity, italic, strike-through, blink).
pub open spec fn same_but_styles(a: CellAttributes, b: CellAttributes) -> bool {
    &&& a.fg == b.fg
    &&& a.bg == b.bg
    &&& a.underline_fg == b.underline_fg
    &&& a.semantic_type == b.semantic_type
}

/// A colour attribute sets only its own colour: a background colour the
/// background, a foreground colour the text, an underline colour the
/// underline; every other attribute stays as it was.
pub proof fn law_sgr_colours(attr: CellAttributes, c: ColorSpec)
    ensures
        spec_apply_sgr(attr, Sgr::Background(c)).bg == c,
        spec_apply_sgr(attr, Sgr::Background(c)).fg == attr.fg,
        spec_apply_sgr(attr, Sgr::Background(c)).underline_fg == attr.underline_fg,
        same_but_colours(spec_apply_sgr(attr, Sgr::Background(c)), attr),
        spec_apply_sgr(attr, Sgr::Foreground(c)).fg == c,
        spec_apply_sgr(attr, Sgr::Foreground(c)).bg == attr.bg,
        spec_apply_sgr(attr, Sgr::Foreground(c)).underline_fg == attr.underline_fg,
        same_but_colours(spec_apply_sgr(attr, Sgr::Foreground(c)), attr),
        spec_apply_sgr(attr, Sgr::UnderlineColor(c)).underline_fg == c,
        spec_apply_sgr(attr, Sgr::UnderlineColor(c)).fg == attr.fg,
        spec_apply_sgr(attr, Sgr::UnderlineColor(c)).bg == attr.bg,
        same_but_colours(spec_apply_sgr(attr, Sgr::UnderlineColor(c)), attr),
{
}

/// A style attribute sets only its own style and leaves the colours and the
/// other styles as they were.
pub proof fn law_sgr_styles(attr: CellAttributes, b: bool, i: Intensity, u: Underline, k: Blink)
    ensures
        ({
            let r = spec_apply_sgr(attr, Sgr::Italic(b));
            r.italic == b && same_but_styles(r, attr) && r.strikethrough == attr.strikethrough
                && r.intensity == attr.intensity && r.underline == attr.underline && r.blink == attr.blink
        }),
        ({
            let r = spec_apply_sgr(attr, Sgr::StrikeThrough(b));
            r.strikethrough == b && same_but_styles(r, attr) && r.italic == attr.italic
                && r.intensity == attr.intensity && r.underline == attr.underline && r.blink == attr.blink
        }),
        ({
            let r = spec_apply_sgr(attr, Sgr::Intensity(i));
            r.intensity == i && same_but_styles(r, attr) && r.italic == attr.italic
                && r.strikethrough == attr.strikethrough && r.underline == attr.underline && r.blink == attr.blink
        }),
        ({
            let r = spec_apply_sgr(attr, Sgr::Underline(u));
            r.underline == u && same_but_styles(r, attr) && r.italic == attr.italic
                && r.strikethrough == attr.strikethrough && r.intensity == attr.intensity && r.blink == attr.blink
        }),
        ({
            let r = spec_apply_sgr(attr, Sgr::Blink(k));
            r.blink == k && same_but_styles(r, attr) && r.italic == attr.italic
                && r.strikethrough == attr.strikethrough && r.intensity == attr.intensity && r.underline == attr.underline
        }),
{
}

/// After a background colour, a printed character is drawn on that
/// background with the text colour it had before.
pub proof fn law_background_then_print(v: TermView, c: ColorSpec, ch: char)
    requires
        print_ok(spec_step(v, Action::CSI(CSI::Sgr(Sgr::Background(c))))),
    ensures
        ({
            let w = spec_step(v, Action::CSI(CSI::Sgr(Sgr::Background(c))));
            let (x, y) = print_pos(w);
            let line = (visible_start(active(w)) + y) as int;
            let after = active(spec_step(w, Action::Print(ch)));
            &&& w.attr.bg == c
            &&& w.attr.fg == v.attr.fg
            &&& after.lines[line].cells[x as int].attr.bg == c
            &&& after.lines[line].cells[x as int].attr.fg == v.attr.fg
            &&& after.lines[line].cells[x as int].text == ch
        }),
{
    let w = spec_step(v, Action::CSI(CSI::Sgr(Sgr::Background(c))));
    law_print_then_read(w, ch);
}

/// Carriage return moves the cursor to the first column of its row, and
/// backspace one column left; neither touches the screens or the row.
/// Bell and the tabs change nothing.
pub proof fn law_control_moves(v: TermView)
    ensures
        ({
            let w = spec_step(v, Action::Control(ControlCode::CarriageReturn));
            w.cursor.x == 0 && w.cursor.y == v.cursor.y && w.screen == v.screen && w.alt == v.alt
        }),
        v.cursor.x >= 1 ==> ({
            let w = spec_step(v, Action::Control(ControlCode::Backspace));
            w.cursor.x == v.cursor.x - 1 && w.cursor.y == v.cursor.y && w.screen == v.screen && w.alt == v.alt
        }),
        spec_step(v, Action::Control(ControlCode::Bell)) == v,
        spec_step(v, Action::Control(ControlCode::HorizontalTab)) == v,
        spec_step(v, Action::Control(ControlCode::VerticalTab)) == v,
{
}

/// A line feed keeps the column and moves the cursor one row down; on the
/// last row the cursor stays there and the active screen gains a line at
/// the bottom instead, the other screen staying as it was.
pub proof fn law_line_feed(v: TermView)
    requires
        v.cursor.y + 1 <= v.rows,
        v.rows >= 1,
    ensures
        ({
            let w = spec_step(v, Action::Control(ControlCode::LineFeed));
            &&& w.cursor.x == v.cursor.x
            &&& v.cursor.y + 1 < v.rows ==> w.cursor.y == v.cursor.y + 1 && w.screen == v.screen && w.alt == v.alt
            &&& v.cursor.y + 1 == v.rows ==> w.cursor.y == v.cursor.y
                && active(w) == spec_new_line(active(v))
                && (v.alt_screen ==> w.screen == v.screen)
                && (!v.alt_screen ==> w.alt == v.alt)
        }),
{
}

/// Moving the cursor to a position given from one puts it at that line and
/// column counted from zero, and changes nothing else.
pub proof fn law_cursor_position(v: TermView, line: u32, col: u32)
    requires
        line >= 1,
        col >= 1,
    ensures
        ({
            let w = spec_step(v, Action::CSI(CSI::Cursor(Cursor::Position { line, col })));
            &&& w.cursor.x == col - 1
            &&& w.cursor.y == line - 1
            &&& w.cursor.style == v.cursor.style
            &&& w.screen == v.screen && w.alt == v.alt && w.attr == v.attr
        }),
{
}

/// Double-width and double-height line escapes mark the cursor's line and
/// no other; a character set selection changes nothing.
pub proof fn law_double_size_lines(v: TermView, j: int, c: u8)
    requires
        0 <= current_line_index(v) < active(v).lines.len(),
        0 <= j < active(v).lines.len(),
        j != current_line_index(v),
    ensures
        ({
            let i = current_line_index(v) as int;
            let w = spec_step(v, Action::Esc(Esc::Code(EscCode::DecDoubleWidthLine)));
            let h = spec_step(v, Action::Esc(Esc::Code(EscCode::DecDoubleHeightTopHalfLine)));
            &&& active(w).lines[i].double_width
            &&& active(w).lines[i].cells == active(v).lines[i].cells
            &&& active(w).lines[j] == active(v).lines[j]
            &&& active(h).lines[i].double_height
            &&& active(h).lines[i].cells == active(v).lines[i].cells
            &&& active(h).lines[j] == active(v).lines[j]
            &&& w.cursor == v.cursor && h.cursor == v.cursor
        }),
        spec_step(v, Action::Esc(Esc::Code(EscCode::SelectCharacterSet(c)))) == v,
{
}

/// Erasing `n` characters blanks the cells of the cursor's row from the
/// cursor's column on, `n` of them or up to the end of the row, and keeps
/// every other cell, the row's length, the other rows and the cursor.
pub proof fn law_erase_characters(v: TermView, n: u32, i: int, j: int)
    requires
        action_ok(v, Action::CSI(CSI::Edit(Edit::EraseCharacter(n)))),
    ensures
        ({
            let w = spec_step(v, Action::CSI(CSI::Edit(Edit::EraseCharacter(n))));
            let row = (visible_start(active(v)) + v.cursor.y) as int;
            let old_line = active(v).lines[row];
            let new_line = active(w).lines[row];
            &&& new_line.cells.len() == old_line.cells.len()
            &&& (0 <= i < old_line.cells.len() && v.cursor.x <= i < v.cursor.x + n)
                ==> new_line.cells[i] == Cell::spec_default()
            &&& (0 <= i < old_line.cells.len() && !(v.cursor.x <= i < v.cursor.x + n))
                ==> new_line.cells[i] == old_line.cells[i]
            &&& (0 <= j < active(v).lines.len() && j != row) ==> active(w).lines[j] == active(v).lines[j]
            &&& active(w).lines.len() == active(v).lines.len()
            &&& w.cursor == v.cursor
        }),
{
}

/// Erasing the line empties the cursor's row and keeps the other rows and
/// the cursor.
pub proof fn law_erase_line(v: TermView, j: int)
    requires
        action_ok(v, Action::CSI(CSI::Edit(Edit::EraseInLine(EraseInLine::EraseLine)))),
    ensures
        ({
            let w = spec_step(v, Action::CSI(CSI::Edit(Edit::EraseInLine(EraseInLine::EraseLine))));
            let row = (visible_start(active(v)) + v.cursor.y) as int;
            &&& active(w).lines[row].cells.len() == 0
            &&& (0 <= j < active(v).lines.len() && j != row) ==> active(w).lines[j] == active(v).lines[j]
            &&& active(w).lines.len() == active(v).lines.len()
            &&& w.cursor == v.cursor
        }),
{
}

/// A character goes under the cursor; past the last column it goes to the
/// first column of the next row instead.
pub proof fn law_print_position(v: TermView)
    ensures
        v.cursor.x < v.cols ==> print_pos(v) == (v.cursor.x as nat, v.cursor.y as nat),
        v.cursor.x >= v.cols ==> print_pos(v) == (0nat, (v.cursor.y + 1) as nat),
{
}

/// A printed character can be read back: the cell at the position it went
/// to holds it, drawn with the current attributes, and the cursor stands one
/// column past it on the same row.
pub proof fn law_print_then_read(v: TermView, c: char)
    requires
        print_ok(v),
    ensures
        ({
            let (x, y) = print_pos(v);
            let w = spec_step(v, Action::Print(c));
            let line = (visible_start(active(v)) + y) as int;
            &&& active(w).lines[line].cells[x as int] == (Cell { text: c, attr: v.attr })
            &&& w.cursor.x == x + 1
            &&& w.cursor.y == y
        }),
{
}

/// However many lines are added, a screen never holds more lines than its
/// scrollback limit.
pub proof fn law_new_line_keeps_scrollback_limit(s: ScreenView)
    ensures
        spec_new_line(s).lines.len() <= s.max_scrollback,
        spec_new_line(s).max_scrollback == s.max_scrollback,
{
}

/// A line feed on the last row keeps the screen within its scrollback
/// limit, and so does any line feed on a screen that already was.
pub proof fn law_line_feed_keeps_scrollback_limit(v: TermView)
    requires
        action_ok(v, Action::Control(ControlCode::LineFeed)),
        active(v).lines.len() <= active(v).max_scrollback,
    ensures
        active(spec_step(v, Action::Control(ControlCode::LineFeed))).lines.len()
            <= active(v).max_scrollback,
{
}

/// A graphic-rendition reset restores the default attributes, whatever
/// they were.
pub proof fn law_sgr_reset(v: TermView)
    ensures
        spec_step(v, Action::CSI(CSI::Sgr(Sgr::Reset))).attr == CellAttributes::spec_default(),
{
}

/// Erasing the display empties the active screen and puts the cursor at
/// the top left.
pub proof fn law_erase_display(v: TermView)
    ensures
        active(spec_step(v, Action::CSI(CSI::Edit(Edit::EraseInDisplay(EraseInDisplay::EraseDisplay))))).lines.len() == 0,
        spec_step(v, Action::CSI(CSI::Edit(Edit::EraseInDisplay(EraseInDisplay::EraseDisplay)))).cursor.x == 0,
        spec_step(v, Action::CSI(CSI::Edit(Edit::EraseInDisplay(EraseInDisplay::EraseDisplay)))).cursor.y == 0,
{
}

/// A user variable that the shell sets reads back with the value it was
/// given; the other variables keep theirs.
pub proof fn law_user_var_read_back(v: TermView, name: String, value: String, other: Seq<char>)
    requires
        other != name@,
    ensures
        ({
            let w = spec_step(v, Action::OSC(Box::new(OSC::ITermProprietary(ITermProprietary::SetUserVar { name, value }))));
            &&& w.user_vars.contains_key(name@)
            &&& w.user_vars[name@] == value@
            &&& w.user_vars.contains_key(other) == v.user_vars.contains_key(other)
            &&& w.user_vars[other] == v.user_vars[other]
        }),
{
}

/// The window title reads back as the shell last set it.
pub proof fn law_title_read_back(v: TermView, title: String)
    ensures
        spec_step(v, Action::OSC(Box::new(OSC::SetWindowTitle(title)))).title == title@,
        spec_step(v, Action::OSC(Box::new(OSC::SetIconNameAndWindowTitle(title)))).title == title@,
{
}

/// Every command but the newest one has finished.
pub open spec fn all_but_last_finished(cs: Seq<CommandSlice>) -> bool {
    forall|i: int| 0 <= i < cs.len() - 1 ==> (#[trigger] cs[i]).end is Some
}

/// Starting a new command keeps every command but the newest finished: the
/// one before ends where the new one's prompt starts, and the new one runs.
pub proof fn law_start_new_keeps_commands_finished(cs: Seq<CommandSlice>, x: usize, y: usize)
    requires
        all_but_last_finished(cs),
    ensures
        all_but_last_finished(spec_start_new(cs, x, y)),
        spec_start_new(cs, x, y).last().end is None,
        cs.len() > 0 ==> spec_start_new(cs, x, y)[cs.len() - 1].end == Some(Position { x, y }),
        spec_start_new(cs, x, y).len() == cs.len() + 1,
{
}

/// Reporting an exit status changes no command's end.
pub proof fn law_status_keeps_commands_finished(cs: Seq<CommandSlice>, status: i32)
    requires
        all_but_last_finished(cs),
    ensures
        all_but_last_finished(spec_set_status(cs, status)),
        spec_set_status(cs, status).len() == cs.len(),
{
}

} // verus!
