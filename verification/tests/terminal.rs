use prettyterm::escape::csi::{Cursor, Edit, EraseInDisplay, EraseInLine, Mode};
use prettyterm::escape::osc::{FinalTermPromptKind, FinalTermSemanticPrompt, ITermProprietary};
use prettyterm::escape::sgr::{ColorSpec, Intensity, Sgr};
use prettyterm::escape::{Action, ControlCode, Esc, EscCode, Sixel, CSI, OSC};
use prettyterm::terminal::cell::{CellAttributes, PromptKind, SemanticType};
use prettyterm::terminal::command::{CommandSlice, CommandStatus};
use prettyterm::terminal::html::{get_tag, render_line};
use prettyterm::terminal::{SixelImage, Terminal, TerminalEffect};

fn csi(c: CSI) -> Action {
    Action::CSI(c)
}

fn osc(o: OSC) -> Action {
    Action::OSC(Box::new(o))
}

fn text_of_line(t: &Terminal, i: usize) -> String {
    t.screen().line(i).cells.iter().map(|c| c.text).collect()
}

#[test]
pub fn alt_screen() {
    let mut terminal = Terminal::setup();

    terminal.handle_action(csi(CSI::Mode(Mode::SetDecPrivateMode(47))));
    assert!(terminal.state.alt_screen)
}

#[test]
pub fn disable_alt_screen() {
    let mut terminal = Terminal::setup();

    terminal.handle_action(csi(CSI::Mode(Mode::ResetDecPrivateMode(47))));
    assert_eq!(terminal.state.alt_screen, false)
}

#[test]
pub fn clear_line() {
}

#[test]
fn setup_starts_empty() {
    let t = Terminal::setup();
    assert_eq!(t.rows, 24);
    assert_eq!(t.cols, 80);
    assert_eq!(t.title, "Terminal");
    assert_eq!(t.screen().visible_len(), 0);
    assert_eq!(t.cursor_pos(), (0, 0));
}

#[test]
fn printed_characters_read_back() {
    let mut t = Terminal::setup();
    t.handle_action(Action::Print('h'));
    t.handle_action(Action::Print('i'));
    assert_eq!(text_of_line(&t, 0), "hi");
    assert_eq!(t.cursor_pos(), (2, 0));
    assert_eq!(t.screen().cell(1, 0).text, 'i');
}

#[test]
fn print_string_prints_each_character() {
    let mut t = Terminal::setup();
    t.handle_action(Action::PrintString("abc".to_string()));
    assert_eq!(text_of_line(&t, 0), "abc");
    assert_eq!(t.cursor_pos(), (3, 0));
}

#[test]
fn printing_past_the_last_column_wraps() {
    let mut t = Terminal::setup();
    t.resize(24, 2);
    t.handle_action(Action::PrintString("abc".to_string()));
    assert_eq!(text_of_line(&t, 0), "ab");
    assert_eq!(text_of_line(&t, 1), "c");
    assert_eq!(t.cursor_pos(), (1, 1));
}

#[test]
fn line_feed_and_carriage_return() {
    let mut t = Terminal::setup();
    t.handle_action(Action::Print('a'));
    t.handle_action(Action::Control(ControlCode::LineFeed));
    assert_eq!(t.cursor_pos(), (1, 1));
    t.handle_action(Action::Control(ControlCode::CarriageReturn));
    assert_eq!(t.cursor_pos(), (0, 1));
    t.handle_action(Action::Print('b'));
    assert_eq!(text_of_line(&t, 1), "b");
}

#[test]
fn backspace_moves_left() {
    let mut t = Terminal::setup();
    t.handle_action(Action::PrintString("ab".to_string()));
    t.handle_action(Action::Control(ControlCode::Backspace));
    assert_eq!(t.cursor.x, 1);
    t.handle_action(Action::Control(ControlCode::Bell));
    assert_eq!(t.cursor.x, 1);
}

#[test]
fn set_then_reset_mode() {
    let mut t = Terminal::setup();
    t.handle_action(csi(CSI::Mode(Mode::SetDecPrivateMode(47))));
    assert!(t.state.alt_screen);
    t.handle_action(csi(CSI::Mode(Mode::ResetDecPrivateMode(47))));
    assert!(!t.state.alt_screen);
    t.handle_action(csi(CSI::Mode(Mode::SetDecPrivateMode(2004))));
    assert!(t.state.bracketed_paste);
    t.handle_action(csi(CSI::Mode(Mode::SetDecPrivateMode(25))));
    assert!(t.state.show_cursor);
    t.handle_action(csi(CSI::Mode(Mode::SetDecPrivateMode(1))));
    assert!(t.state.check(1));
    t.handle_action(csi(CSI::Mode(Mode::ResetDecPrivateMode(1))));
    assert!(!t.state.check(1));
    assert!(!t.state.check(7));
}

#[test]
fn alternate_screen_is_drawn_on_separately() {
    let mut t = Terminal::setup();
    t.handle_action(Action::Print('m'));
    t.handle_action(csi(CSI::Mode(Mode::SetDecPrivateMode(1049))));
    assert_eq!(t.screen().visible_len(), 0);
    t.handle_action(csi(CSI::Mode(Mode::ResetDecPrivateMode(1049))));
    assert_eq!(text_of_line(&t, 0), "m");
}

#[test]
fn sgr_sets_and_resets_attributes() {
    let mut t = Terminal::setup();
    t.handle_action(csi(CSI::Sgr(Sgr::Intensity(Intensity::Bold))));
    t.handle_action(csi(CSI::Sgr(Sgr::Foreground(ColorSpec::PaletteIndex(2)))));
    t.handle_action(Action::Print('x'));
    let attr = t.screen().cell(0, 0).attr;
    assert_eq!(attr.intensity, Intensity::Bold);
    assert_eq!(attr.fg, ColorSpec::PaletteIndex(2));
    t.handle_action(csi(CSI::Sgr(Sgr::Reset)));
    assert_eq!(t.renderer.attr, CellAttributes::default());
}

#[test]
fn cursor_right_then_left_restores() {
    let mut t = Terminal::setup();
    t.handle_action(csi(CSI::Cursor(Cursor::Right(5))));
    assert_eq!(t.cursor.x, 5);
    t.handle_action(csi(CSI::Cursor(Cursor::Left(5))));
    assert_eq!(t.cursor.x, 0);
    t.handle_action(csi(CSI::Cursor(Cursor::Down(3))));
    assert_eq!(t.cursor.y, 3);
}

#[test]
fn cursor_up_moves_up() {
    let mut t = Terminal::setup();
    t.handle_action(csi(CSI::Cursor(Cursor::Down(5))));
    t.handle_action(csi(CSI::Cursor(Cursor::Right(1))));
    t.handle_action(csi(CSI::Cursor(Cursor::Up(2))));
    assert_eq!((t.cursor.x, t.cursor.y), (1, 3));
    t.handle_action(csi(CSI::Cursor(Cursor::PrecedingLine(3))));
    assert_eq!((t.cursor.x, t.cursor.y), (1, 0));
    assert!(!t.can_handle(&csi(CSI::Cursor(Cursor::Up(1)))));
}

#[test]
fn cursor_position_is_one_based() {
    let mut t = Terminal::setup();
    t.handle_action(csi(CSI::Cursor(Cursor::Position { line: 3, col: 4 })));
    assert_eq!((t.cursor.x, t.cursor.y), (3, 2));
}

#[test]
fn erase_display_clears_everything() {
    let mut t = Terminal::setup();
    t.handle_action(Action::PrintString("abc".to_string()));
    t.handle_action(Action::Control(ControlCode::LineFeed));
    t.handle_action(csi(CSI::Edit(Edit::EraseInDisplay(EraseInDisplay::EraseDisplay))));
    assert_eq!(t.screen().visible_len(), 0);
    assert_eq!((t.cursor.x, t.cursor.y), (0, 0));
}

#[test]
fn erase_line_empties_the_row() {
    let mut t = Terminal::setup();
    t.handle_action(Action::PrintString("abc".to_string()));
    t.handle_action(csi(CSI::Edit(Edit::EraseInLine(EraseInLine::EraseLine))));
    assert_eq!(t.screen().line(0).len(), 0);
}

#[test]
fn erase_to_start_blanks_before_the_cursor() {
    let mut t = Terminal::setup();
    t.handle_action(Action::PrintString("abcd".to_string()));
    t.handle_action(csi(CSI::Cursor(Cursor::Left(2))));
    t.handle_action(csi(CSI::Edit(Edit::EraseInLine(EraseInLine::EraseToStart))));
    assert_eq!(text_of_line(&t, 0), "  cd");
}

#[test]
fn erase_to_end_blanks_after_the_cursor() {
    let mut t = Terminal::setup();
    t.handle_action(Action::PrintString("abcd".to_string()));
    t.handle_action(csi(CSI::Cursor(Cursor::Left(3))));
    t.handle_action(csi(CSI::Edit(Edit::EraseInLine(EraseInLine::EraseToEnd))));
    assert_eq!(text_of_line(&t, 0), "a   ");
}

#[test]
fn erase_characters_blanks_n_cells() {
    let mut t = Terminal::setup();
    t.handle_action(Action::PrintString("abcd".to_string()));
    t.handle_action(csi(CSI::Cursor(Cursor::Left(3))));
    t.handle_action(csi(CSI::Edit(Edit::EraseCharacter(2))));
    assert_eq!(text_of_line(&t, 0), "a  d");
}

#[test]
fn user_variables_read_back() {
    let mut t = Terminal::setup();
    t.handle_action(osc(OSC::ITermProprietary(ITermProprietary::SetUserVar {
        name: "host".to_string(),
        value: "box".to_string(),
    })));
    assert_eq!(t.user_vars.get("host"), Some(&"box".to_string()));
    assert_eq!(t.user_vars.get("other"), None);
}

#[test]
fn window_title_and_directory() {
    let mut t = Terminal::setup();
    t.handle_action(osc(OSC::SetWindowTitle("vim".to_string())));
    assert_eq!(t.title, "vim");
    t.handle_action(osc(OSC::SetIconNameAndWindowTitle("top".to_string())));
    assert_eq!(t.title, "top");
    t.handle_action(osc(OSC::CurrentWorkingDirectory("/tmp".to_string())));
    assert_eq!(t.state.cwd, "/tmp");
}

#[test]
fn notifications_are_handed_out() {
    let mut t = Terminal::setup();
    let e = t.handle_action(osc(OSC::SystemNotification("done".to_string())));
    assert_eq!(e, Some(TerminalEffect::Notify("done".to_string())));
    let e = t.handle_action(Action::Print('a'));
    assert_eq!(e, None);
    let effects = t.handle_actions(vec![
        Action::Print('b'),
        osc(OSC::SystemNotification("one".to_string())),
        osc(OSC::SystemNotification("two".to_string())),
    ]);
    assert_eq!(
        effects,
        vec![TerminalEffect::Notify("one".to_string()), TerminalEffect::Notify("two".to_string())]
    );
}

#[test]
fn scrollback_stays_within_its_limit() {
    let mut t = Terminal::setup();
    for _ in 0..250 {
        t.handle_action(Action::Print('x'));
        t.handle_action(Action::Control(ControlCode::CarriageReturn));
        t.handle_action(Action::Control(ControlCode::LineFeed));
    }
    assert!(t.screen().scrollback_len() <= 100);
    assert_eq!(t.cursor.y, 23);
}

#[test]
fn semantic_prompts_mark_commands() {
    let mut t = Terminal::setup();
    t.handle_action(osc(OSC::FinalTermSemanticPrompt(FinalTermSemanticPrompt::FreshLineAndStartPrompt {})));
    assert_eq!(t.commands.len(), 1);
    assert_eq!(t.renderer.attr.semantic_type, SemanticType::Prompt(PromptKind::Initial));
    t.handle_action(Action::PrintString("$ ".to_string()));
    t.handle_action(osc(OSC::FinalTermSemanticPrompt(FinalTermSemanticPrompt::EndOfPromptUntilMarker)));
    t.handle_action(osc(OSC::FinalTermSemanticPrompt(FinalTermSemanticPrompt::EndOfInput { aid: 0 })));
    t.handle_action(osc(OSC::FinalTermSemanticPrompt(FinalTermSemanticPrompt::CommandStatus { status: 2, aid: 0 })));
    let c = t.commands.get()[0];
    assert_eq!(c.input.map(|p| p.x), Some(2));
    assert_eq!(c.output.map(|p| p.x), Some(2));
    assert_eq!(c.status, Some(2));
    assert_eq!(c.get_status(), CommandStatus::ShellCommandMisuse);
    assert!(!c.finished());
    t.handle_action(Action::Control(ControlCode::LineFeed));
    t.handle_action(osc(OSC::FinalTermSemanticPrompt(FinalTermSemanticPrompt::MarkEndOfCommandWithFreshLine {})));
    assert_eq!(t.commands.len(), 2);
    assert!(t.commands.get()[0].finished());
    assert_eq!(t.commands.get()[0].lines_range(), Some(0..2));
    t.handle_action(osc(OSC::FinalTermSemanticPrompt(FinalTermSemanticPrompt::StartPrompt(FinalTermPromptKind::Continuation))));
    assert_eq!(t.renderer.attr.semantic_type, SemanticType::Prompt(PromptKind::Continuation));
}

#[test]
fn double_width_line() {
    let mut t = Terminal::setup();
    t.handle_action(Action::Print('a'));
    t.handle_action(Action::Esc(Esc::Code(EscCode::DecDoubleWidthLine)));
    assert!(t.screen().line(0).double_width());
    t.handle_action(Action::Esc(Esc::Code(EscCode::DecDoubleHeightTopHalfLine)));
    assert!(t.screen().line(0).double_height());
}

#[test]
fn can_handle_refuses_what_would_fail() {
    let t = Terminal::setup();
    assert!(!t.can_handle(&Action::Control(ControlCode::Backspace)));
    assert!(!t.can_handle(&csi(CSI::Cursor(Cursor::Left(1)))));
    assert!(!t.can_handle(&csi(CSI::Cursor(Cursor::Position { line: 0, col: 1 }))));
    assert!(!t.can_handle(&csi(CSI::Edit(Edit::EraseInLine(EraseInLine::EraseLine)))));
    assert!(!t.can_handle(&osc(OSC::FinalTermSemanticPrompt(FinalTermSemanticPrompt::EndOfInput { aid: 0 }))));
    assert!(t.can_handle(&Action::Print('a')));
    assert!(t.can_handle(&Action::PrintString("abc".to_string())));
    assert!(t.can_handle(&csi(CSI::Edit(Edit::EraseInLine(EraseInLine::EraseToEnd)))));
    assert!(t.can_handle(&osc(OSC::FinalTermSemanticPrompt(FinalTermSemanticPrompt::FreshLineAndStartPrompt {}))));
}

#[test]
fn resize_sets_the_size() {
    let mut t = Terminal::setup();
    t.resize(10, 40);
    assert_eq!((t.rows, t.cols), (10, 40));
}

#[test]
fn lines_render_as_html() {
    let mut t = Terminal::setup();
    t.handle_action(Action::PrintString("ab".to_string()));
    t.handle_action(csi(CSI::Sgr(Sgr::Intensity(Intensity::Bold))));
    t.handle_action(Action::Print('c'));
    t.handle_action(csi(CSI::Sgr(Sgr::Reset)));
    t.handle_action(csi(CSI::Sgr(Sgr::Foreground(ColorSpec::PaletteIndex(1)))));
    t.handle_action(Action::Print('d'));
    let html = render_line(t.screen().line(0));
    assert_eq!(
        html,
        "ab<strong>c</strong><span class= \"cellspan\" style=\"--fg: var(--palette-1); --bg: var(--bg-default);\">d"
    );
}

#[test]
fn tags_of_the_attribute_flags() {
    assert_eq!(get_tag(0), "strong");
    assert_eq!(get_tag(8), "doubleunderline");
    assert_eq!(get_tag(13), "rapidblink");
    assert_eq!(get_tag(14), "");
}

#[test]
fn command_status_by_exit_code() {
    let mut c = CommandSlice::new(0, 3);
    assert_eq!(c.get_status(), CommandStatus::NotReported);
    assert_eq!(c.status_class(), "");
    c.status = Some(0);
    assert_eq!(c.get_status(), CommandStatus::Success);
    assert_eq!(c.status_class(), "command-success");
    c.status = Some(1);
    assert_eq!(c.get_status(), CommandStatus::Error);
    assert_eq!(c.status_class(), "command-error");
    c.status = Some(126);
    assert_eq!(c.status_class(), "command-no-exec");
    c.status = Some(127);
    assert_eq!(c.get_status(), CommandStatus::NotFound);
    c.status = Some(130);
    assert_eq!(c.get_status(), CommandStatus::FatalError(2));
    assert_eq!(c.status_class(), "command-fatal");
    c.status = Some(300);
    assert_eq!(c.get_status(), CommandStatus::Error);
    assert_eq!(c.range(10), 3..10);
    assert_eq!(c.lines_range(), None);
}

#[test]
fn visible_len_is_at_most_the_rows() {
    let mut t = Terminal::setup();
    for _ in 0..30 {
        t.handle_action(Action::Print('x'));
        t.handle_action(Action::Control(ControlCode::CarriageReturn));
        t.handle_action(Action::Control(ControlCode::LineFeed));
    }
    assert!(t.screen().scrollback_len() > 24);
    assert_eq!(t.screen().visible_len(), 24);
    assert_eq!(t.screen().visible_start() + t.screen().visible_len(), t.screen().scrollback_len());
}

#[test]
fn sixel_images_are_kept_at_the_cursor() {
    let mut t = Terminal::setup();
    t.handle_action(Action::Print('a'));
    t.handle_action(Action::Print('b'));
    t.handle_action(Action::Sixel(Box::new(Sixel { data: vec![0x23, 0x30, 0x21] })));
    assert_eq!(t.sixels.len(), 1);
    assert_eq!(t.sixels[0], SixelImage { x: 2, y: 0, data: vec![0x23, 0x30, 0x21] });
    assert_eq!(text_of_line(&t, 0), "ab");
    assert_eq!(t.cursor_pos(), (2, 0));
}

#[test]
fn clear_and_enable_alternate_screen() {
    let mut t = Terminal::setup();
    t.handle_action(csi(CSI::Mode(Mode::SetDecPrivateMode(1049))));
    assert!(t.state.alt_screen);
    t.handle_action(csi(CSI::Mode(Mode::ResetDecPrivateMode(1049))));
    assert!(!t.state.alt_screen);
}

#[test]
fn dec_modes_termwiz_does_not_name_change_nothing() {
    let mut t = Terminal::setup();
    t.handle_action(csi(CSI::Mode(Mode::SetDecPrivateMode(9))));
    assert!(!t.state.check(9));
    t.handle_action(csi(CSI::Mode(Mode::SetDecPrivateMode(1))));
    assert!(t.state.check(1));
    t.handle_action(csi(CSI::Mode(Mode::SetDecPrivateMode(2004))));
    assert!(t.state.bracketed_paste);
    t.handle_action(csi(CSI::Mode(Mode::SetDecPrivateMode(1000))));
    assert!(t.state.check(1000));
    t.handle_action(csi(CSI::Mode(Mode::SetDecPrivateMode(1234))));
    assert!(!t.state.check(1234));
}

#[test]
fn notifications_come_back_in_order_among_other_actions() {
    let mut t = Terminal::setup();
    let effects = t.handle_actions(vec![
        osc(OSC::SystemNotification("first".to_string())),
        Action::Print('x'),
        Action::Control(ControlCode::CarriageReturn),
        osc(OSC::SystemNotification("second".to_string())),
    ]);
    assert_eq!(
        effects,
        vec![TerminalEffect::Notify("first".to_string()), TerminalEffect::Notify("second".to_string())]
    );
    assert_eq!(t.handle_actions(vec![Action::Print('y')]), vec![]);
}

#[test]
fn dec_modes_are_kept_apart() {
    let mut t = Terminal::setup();
    t.handle_action(csi(CSI::Mode(Mode::SetDecPrivateMode(1002))));
    assert!(t.state.check(1002));
    assert!(!t.state.check(2026));
    t.handle_action(csi(CSI::Mode(Mode::SetDecPrivateMode(2026))));
    t.handle_action(csi(CSI::Mode(Mode::ResetDecPrivateMode(1002))));
    assert!(!t.state.check(1002));
    assert!(t.state.check(2026));
}
