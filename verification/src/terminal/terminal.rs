use vstd::prelude::*;
use crate::escape::{Action, ControlCode, Esc, EscCode, Sixel, CSI, OSC};
use crate::escape::csi::{Cursor, DecPrivateMode, Edit, EraseInDisplay, EraseInLine, Mode};
use crate::escape::osc::{FinalTermSemanticPrompt, ITermProprietary};
use crate::strmap::StrMap;
use crate::terminal::cell::{Cell, CellAttributes, PromptKind, SemanticType, Until};
use crate::terminal::command::CommandSlicer;
use crate::terminal::cursor::TerminalCursor;
use crate::terminal::line::Line;
use crate::terminal::model::{
    TermView, active, with_active, with_cursor, phys_y, phys_ok, print_pos, print_ok, spec_print,
    print_str_ok, spec_print_str, new_line_ok, spec_new_line_t, control_ok, spec_control, cursor_ok,
    spec_cursor_move, erase_end, edit_ok, spec_edit, spec_dec_mode, csi_ok, spec_csi, fresh_line_ok,
    spec_fresh_line, with_semantic, fts_ok, spec_start_command, spec_start_input, spec_fts, osc_ok,
    spec_osc, current_line_index, esc_ok, spec_esc, action_ok, spec_step, actions_ok, spec_steps,
    spec_notification, spec_notifications, spec_sixel,
};
use crate::terminal::screen::{Screen, ScreenView, TerminalRenderer, visible_start};
use crate::terminal::state::{termwiz_names_dec_mode, TerminalState};

verus! {

/// Something the terminal asks of the world around it.
#[derive(Debug, PartialEq, Clone)]
pub enum TerminalEffect {
    /// Show a desktop notification with this text.
    Notify(String),
}

/// The text an effect carries.
pub open spec fn effect_text(e: TerminalEffect) -> Seq<char> {
    match e {
        TerminalEffect::Notify(s) => s@,
    }
}

/// Main terminal controller
/// Holds a lot of sub-objects
pub struct Terminal {
    pub rows: u16,
    pub cols: u16,

    pub renderer: TerminalRenderer,
    pub state: TerminalState,
    pub cursor: TerminalCursor,
    pub commands: CommandSlicer,
    pub user_vars: StrMap,

    pub title: String,

    /// The sixel images received, for the window to draw.
    pub sixels: Vec<SixelImage>,
}

/// A sixel image the terminal keeps: the cursor's column and row when it
/// came, and its data.
#[derive(Debug, PartialEq, Clone)]
pub struct SixelImage {
    pub x: usize,
    pub y: usize,
    pub data: Vec<u8>,
}

impl View for Terminal {
    type V = TermView;

    open spec fn view(&self) -> TermView {
        TermView {
            rows: self.rows,
            cols: self.cols,
            screen: self.renderer.screen@,
            alt: self.renderer.alt_screen@,
            attr: self.renderer.attr,
            render_commands: self.renderer.commands@,
            cwd: self.state.cwd@,
            alt_screen: self.state.alt_screen,
            bracketed_paste: self.state.bracketed_paste,
            show_cursor: self.state.show_cursor,
            codes: self.state.codes(),
            cursor: self.cursor,
            commands: self.commands@,
            user_vars: self.user_vars@,
            title: self.title@,
            sixels: self.sixels@.map_values(|i: SixelImage| (i.x, i.y, i.data@)),
        }
    }
}

/// The terminal a new tab starts with.
pub open spec fn initial_term() -> TermView {
    TermView {
        rows: 24,
        cols: 80,
        screen: ScreenView { lines: Seq::empty(), max_scrollback: 100, rows: 24, columns: 80, scrollback_allowed: true },
        alt: ScreenView { lines: Seq::empty(), max_scrollback: 100, rows: 24, columns: 80, scrollback_allowed: false },
        attr: CellAttributes::spec_default(),
        render_commands: Seq::empty(),
        cwd: Seq::empty(),
        alt_screen: false,
        bracketed_paste: false,
        show_cursor: false,
        codes: Map::empty(),
        cursor: TerminalCursor::spec_new(),
        commands: Seq::empty(),
        user_vars: Map::empty(),
        title: "Terminal"@,
        sixels: Seq::empty(),
    }
}

impl Terminal {
    /// A 24 by 80 terminal titled `Terminal`, with nothing on its screens.
    pub fn setup() -> (t: Terminal)
        ensures
            t@ == initial_term(),
    {
        let t = Terminal {
            rows: 24,
            cols: 80,
            renderer: TerminalRenderer::new(),
            state: TerminalState::new(),
            cursor: TerminalCursor::new(),
            title: "Terminal".to_owned(),
            commands: CommandSlicer::new(),
            user_vars: StrMap::new(),
            sixels: Vec::new(),
        };
        assert(t@.sixels =~= Seq::empty());
        assert(t@.cwd =~= Seq::<char>::empty());
        assert(t@.render_commands =~= Seq::empty());
        assert(t@.commands =~= Seq::empty());
        assert(t@ =~= initial_term());
        t
    }

    /// The screen being drawn on.
    pub fn screen(&self) -> (s: &Screen)
        ensures
            s@ == active(self@),
    {
        self.renderer.get_screen(self.state.alt_screen)
    }

    /// The absolute line of the cursor's row.
    pub fn phys_cursor_y(&self) -> (y: usize)
        requires
            phys_ok(self@),
        ensures
            y == phys_y(self@),
    {
        self.screen().phys_line(self.cursor.y)
    }

    /// The cursor's column and absolute line.
    pub fn cursor_pos(&self) -> (p: (usize, usize))
        requires
            phys_ok(self@),
        ensures
            p == (self@.cursor.x, phys_y(self@) as usize),
    {
        (self.cursor.x, self.phys_cursor_y())
    }

    /// Pushes a cell onto the current screen: past the last column the
    /// cursor first wraps to the next row.
    fn print(&mut self, c: char)
        requires
            print_ok(old(self)@),
        ensures
            final(self)@ == spec_print(old(self)@, c),
    {
        let attr = self.renderer.attr;

        // shells don't automatically do wrapping for applications
        if self.cursor.x >= self.cols as usize {
            self.cursor.shift_down(1);
            self.cursor.set_x(0);
        }

        let alt = self.state.alt_screen;
        let x = self.cursor.x;
        let y = self.cursor.y;
        self.renderer.mut_screen(alt).push(Cell::new(c, attr), x, y);

        self.cursor.x = self.cursor.x + 1;
    }

    fn print_str(&mut self, text: String)
        requires
            print_str_ok(old(self)@, text@),
        ensures
            final(self)@ == spec_print_str(old(self)@, text@),
    {
        let n = text.as_str().unicode_len();
        let mut i: usize = 0;
        assert(text@.skip(0) =~= text@);
        while i < n
            invariant
                i <= n,
                n == text@.len(),
                spec_print_str(old(self)@, text@) == spec_print_str(self@, text@.skip(i as int)),
                print_str_ok(self@, text@.skip(i as int)),
            decreases n - i,
        {
            let c = text.as_str().get_char(i);
            assert(text@.skip(i as int)[0] == c);
            assert(text@.skip(i as int).drop_first() =~= text@.skip(i + 1));
            self.print(c);
            i = i + 1;
        }
    }

    fn new_line(&mut self)
        requires
            new_line_ok(old(self)@),
        ensures
            final(self)@ == spec_new_line_t(old(self)@),
    {
        self.cursor.shift_down(1);
        if self.cursor.y == self.rows as usize {
            self.cursor.y = self.rows as usize - 1;
            let alt = self.state.alt_screen;
            self.renderer.mut_screen(alt).new_line();
        }
    }

    /// Backspaces at the terminal cursor position
    fn backspace(&mut self)
        requires
            old(self)@.cursor.x >= 1,
        ensures
            final(self)@ == with_cursor(old(self)@, TerminalCursor { x: (old(self)@.cursor.x - 1) as usize, ..old(self)@.cursor }),
    {
        self.cursor.x = self.cursor.x - 1;
    }

    fn handle_control(&mut self, control_code: ControlCode)
        requires
            control_ok(old(self)@, control_code),
        ensures
            final(self)@ == spec_control(old(self)@, control_code),
    {
        match control_code {
            ControlCode::LineFeed => self.new_line(),
            ControlCode::CarriageReturn => self.cursor.set_x(0),
            ControlCode::Backspace => self.backspace(),
            _ => {},
        }
    }

    /// Handles cursor movements, etc
    fn handle_cursor(&mut self, cursor: Cursor)
        requires
            cursor_ok(old(self)@, cursor),
        ensures
            final(self)@ == with_cursor(old(self)@, spec_cursor_move(old(self)@.cursor, cursor)),
    {
        match cursor {
            Cursor::Left(amount) => self.cursor.shift_left(amount),
            Cursor::Down(amount) => self.cursor.shift_down(amount),
            Cursor::NextLine(amount) => self.cursor.shift_down(amount),
            Cursor::Right(amount) => self.cursor.shift_right(amount),
            Cursor::Up(amount) => self.cursor.shift_up(amount),
            Cursor::PrecedingLine(amount) => self.cursor.shift_up(amount),
            Cursor::Position { line, col } => self.cursor.set(col - 1, line - 1),
            Cursor::CursorStyle(style) => self.cursor.set_style(style),
            Cursor::HorizontalPosition(_) => {},
        }
    }

    fn erase_in_display(&mut self, edit: EraseInDisplay)
        ensures
            final(self)@ == spec_edit(old(self)@, Edit::EraseInDisplay(edit)),
    {
        let alt = self.state.alt_screen;
        match edit {
            EraseInDisplay::EraseDisplay => {
                self.renderer.mut_screen(alt).erase_all();
                self.cursor.set(0, 0);
            },
        }
    }

    fn erase_in_line(&mut self, edit: EraseInLine)
        requires
            edit_ok(old(self)@, Edit::EraseInLine(edit)),
        ensures
            final(self)@ == spec_edit(old(self)@, Edit::EraseInLine(edit)),
    {
        let alt = self.state.alt_screen;
        let x = self.cursor.x;
        let y = self.cursor.y;
        match edit {
            EraseInLine::EraseToEnd => {
                let screen = self.renderer.mut_screen(alt);
                if screen.scrollback_len() > y {
                    let end = screen.line(y).len();
                    screen.push_blank_range(x, end, y);
                }
            },
            EraseInLine::EraseToStart => {
                // may go out of bounds. idk
                self.renderer.mut_screen(alt).push_blank_range(0, x, y);
            },
            EraseInLine::EraseLine => {
                self.renderer.mut_screen(alt).set_line(y, Line::new());
            },
        }
    }

    fn erase_characters(&mut self, n: u32)
        requires
            edit_ok(old(self)@, Edit::EraseCharacter(n)),
        ensures
            final(self)@ == spec_edit(old(self)@, Edit::EraseCharacter(n)),
    {
        let alt = self.state.alt_screen;
        let x = self.cursor.x;
        let y = self.cursor.y;
        let screen = self.renderer.mut_screen(alt);
        let len = screen.visible_line_len(y);
        let want = x + n as usize;
        let end = if want < len { want } else { len };
        screen.blank_cells(y, x, end);
    }

    fn handle_edit(&mut self, edit: Edit)
        requires
            edit_ok(old(self)@, edit),
        ensures
            final(self)@ == spec_edit(old(self)@, edit),
    {
        match edit {
            Edit::EraseInLine(e) => self.erase_in_line(e),
            Edit::EraseInDisplay(e) => self.erase_in_display(e),
            Edit::EraseCharacter(n) => self.erase_characters(n),
        }
    }

    /// Switches a DEC private mode on or off; a number termwiz does not name
    /// is ignored, as termwiz hands it on unnamed.
    fn set_dec_mode(&mut self, code: u16, on: bool)
        ensures
            final(self)@ == spec_dec_mode(old(self)@, code, on),
    {
        if termwiz_names_dec_mode(code) {
            self.state.set_dec_private_mode(DecPrivateMode::Code(code as usize), on);
        }
    }

    fn handle_csi(&mut self, csi: CSI)
        requires
            csi_ok(old(self)@, csi),
        ensures
            final(self)@ == spec_csi(old(self)@, csi),
    {
        match csi {
            CSI::Sgr(sgr) => self.renderer.handle_sgr(sgr),
            CSI::Mode(mode) => match mode {
                Mode::SetDecPrivateMode(pmode) => self.set_dec_mode(pmode, true),
                Mode::ResetDecPrivateMode(pmode) => self.set_dec_mode(pmode, false),
                _ => {},
            },
            CSI::Cursor(cursor) => self.handle_cursor(cursor),
            CSI::Edit(edit) => self.handle_edit(edit),
            _ => {},
        }
    }

    /// Creates a 'Fresh Line' as described by the FinalTermSemanticPrompt protocol
    fn fresh_line(&mut self)
        requires
            fresh_line_ok(old(self)@),
        ensures
            final(self)@ == spec_fresh_line(old(self)@),
    {
        if self.cursor.x == 0 {
            return;
        }
        self.new_line();
        self.cursor.x = 0;
    }

    fn start_command(&mut self)
        requires
            phys_ok(old(self)@),
        ensures
            final(self)@ == spec_start_command(old(self)@),
    {
        self.renderer.attr.semantic_type = SemanticType::Prompt(PromptKind::Initial);
        let y = self.screen().phys_line(self.cursor.y);
        self.commands.start_new(self.cursor.x, y);
    }

    fn start_input(&mut self, until: Until)
        requires
            phys_ok(old(self)@),
            old(self)@.commands.len() > 0,
        ensures
            final(self)@ == spec_start_input(old(self)@, until),
    {
        self.renderer.attr.semantic_type = SemanticType::Input(until);
        let y = self.screen().phys_line(self.cursor.y);
        self.commands.start_input(self.cursor.x, y);
    }

    fn handle_fts_prompt(&mut self, prompt: FinalTermSemanticPrompt)
        requires
            fts_ok(old(self)@, prompt),
        ensures
            final(self)@ == spec_fts(old(self)@, prompt),
    {
        match prompt {
            FinalTermSemanticPrompt::FreshLine => self.fresh_line(),
            FinalTermSemanticPrompt::FreshLineAndStartPrompt {} => {
                self.fresh_line();
                self.start_command();
            },
            FinalTermSemanticPrompt::MarkEndOfCommandWithFreshLine {} => {
                self.fresh_line();
                self.start_command();
            },
            FinalTermSemanticPrompt::StartPrompt(prompt_kind) => {
                self.renderer.attr.semantic_type = SemanticType::Prompt(PromptKind::from(prompt_kind));
            },
            FinalTermSemanticPrompt::EndOfPromptUntilMarker => self.start_input(Until::SemanticMarker),
            FinalTermSemanticPrompt::EndOfPromptUntilEndOfLine => self.start_input(Until::LineEnd),
            FinalTermSemanticPrompt::EndOfInput { aid: _ } => {
                self.renderer.attr.semantic_type = SemanticType::Output;
                let y = self.screen().phys_line(self.cursor.y);
                self.commands.start_output(self.cursor.x, y);
            },
            FinalTermSemanticPrompt::CommandStatus { status, aid: _ } => self.commands.set_status(status),
        }
    }

    /// Handling of all Iterm-based commands
    fn handle_iterm(&mut self, command: ITermProprietary)
        ensures
            final(self)@ == spec_osc(old(self)@, OSC::ITermProprietary(command)),
    {
        match command {
            ITermProprietary::SetUserVar { name, value } => {
                self.user_vars.insert(name, value);
            },
            _ => {},
        }
    }

    fn handle_os_command(&mut self, command: Box<OSC>) -> (effect: Option<TerminalEffect>)
        requires
            osc_ok(old(self)@, *command),
        ensures
            final(self)@ == spec_osc(old(self)@, *command),
            match spec_notification(Action::OSC(command)) {
                Some(n) => effect matches Some(TerminalEffect::Notify(s)) && s@ == n,
                None => effect is None,
            },
    {
        match *command {
            OSC::SetWindowTitle(title) => self.title = title,
            OSC::SetIconNameAndWindowTitle(title) => self.title = title,
            OSC::FinalTermSemanticPrompt(ftsprompt) => self.handle_fts_prompt(ftsprompt),
            OSC::ITermProprietary(iterm_command) => self.handle_iterm(iterm_command),
            OSC::SystemNotification(notif) => return Some(TerminalEffect::Notify(notif)),
            OSC::CurrentWorkingDirectory(cwd) => self.state.cwd = cwd,
            _ => {},
        }
        None
    }

    /// Handles any Esc codes
    fn handle_esc(&mut self, esc: Esc)
        requires
            esc_ok(old(self)@, esc),
        ensures
            final(self)@ == spec_esc(old(self)@, esc),
    {
        let code = match esc {
            Esc::Code(c) => c,
            Esc::Unspecified { intermediate: _, control: _ } => {
                return;
            },
        };
        let alt = self.state.alt_screen;
        match code {
            EscCode::DecDoubleWidthLine => {
                let index = self.phys_cursor_y();
                self.renderer.mut_screen(alt).set_line_width(index, true);
            },
            EscCode::DecDoubleHeightTopHalfLine => {
                let index = self.phys_cursor_y();
                self.renderer.mut_screen(alt).set_line_double(index, true);
            },
            // TODO: something else needed
            EscCode::DecDoubleHeightBottomHalfLine => {
                let index = self.phys_cursor_y();
                self.renderer.mut_screen(alt).set_line_double(index, true);
            },
            _ => {},
        }
    }

    /// Keeps a sixel image, with the cursor position, for the window to draw.
    fn handle_sixel(&mut self, sixel: Sixel)
        ensures
            final(self)@ == spec_sixel(old(self)@, sixel),
    {
        let ghost d = sixel.data@;
        self.sixels.push(SixelImage { x: self.cursor.x, y: self.cursor.y, data: sixel.data });
        assert(self@.sixels =~= old(self)@.sixels.push((old(self)@.cursor.x, old(self)@.cursor.y, d)));
        assert(self@ =~= spec_sixel(old(self)@, sixel));
    }

    /// Carries out one action of the terminal output; a system notification
    /// is handed back for the desktop to show.
    pub fn handle_action(&mut self, action: Action) -> (effect: Option<TerminalEffect>)
        requires
            action_ok(old(self)@, action),
        ensures
            final(self)@ == spec_step(old(self)@, action),
            match spec_notification(action) {
                Some(n) => effect matches Some(TerminalEffect::Notify(s)) && s@ == n,
                None => effect is None,
            },
    {
        match action {
            Action::Print(s) => self.print(s),
            Action::PrintString(s) => self.print_str(s),
            Action::Control(control) => self.handle_control(control),
            Action::CSI(csi) => self.handle_csi(csi),
            Action::OSC(command) => return self.handle_os_command(command),
            Action::DeviceControl(_) => {},
            Action::Esc(code) => self.handle_esc(code),
            Action::Sixel(img) => self.handle_sixel(*img),
            Action::XtGetTcap(_) => {},
            Action::KittyImage(_) => {},
        }
        None
    }

    /// Carries out the actions in order; the notifications they ask for are
    /// handed back in order.
    pub fn handle_actions(&mut self, actions: Vec<Action>) -> (effects: Vec<TerminalEffect>)
        requires
            actions_ok(old(self)@, actions@),
        ensures
            final(self)@ == spec_steps(old(self)@, actions@),
            effects@.map_values(|e: TerminalEffect| effect_text(e)) == spec_notifications(actions@),
    {
        let mut effects: Vec<TerminalEffect> = Vec::new();
        let mut actions = actions;
        let ghost all = actions@;
        let ghost mut k: int = 0;
        assert(all.skip(0) =~= all);
        assert(effects@.map_values(|e: TerminalEffect| effect_text(e)) + spec_notifications(all.skip(0))
            =~= spec_notifications(all));
        while actions.len() > 0
            invariant
                0 <= k <= all.len(),
                actions@ == all.skip(k),
                spec_steps(old(self)@, all) == spec_steps(self@, all.skip(k)),
                actions_ok(self@, all.skip(k)),
                effects@.map_values(|e: TerminalEffect| effect_text(e)) + spec_notifications(all.skip(k))
                    == spec_notifications(all),
            decreases actions.len(),
        {
            let ghost before = effects@.map_values(|e: TerminalEffect| effect_text(e));
            let action = actions.remove(0);
            assert(all.skip(k).drop_first() =~= all.skip(k + 1));
            assert(all.skip(k)[0] == action);
            let ghost rest = spec_notifications(all.skip(k + 1));
            if let Some(e) = self.handle_action(action) {
                effects.push(e);
                assert(effects@.map_values(|e: TerminalEffect| effect_text(e)) =~= before.push(effect_text(e)));
                assert(before.push(effect_text(e)) + rest =~= before + (seq![effect_text(e)] + rest));
            } else {
                assert(effects@.map_values(|e: TerminalEffect| effect_text(e)) =~= before);
            }
            proof {
                k = k + 1;
            }
            assert(actions@ =~= all.skip(k));
        }
        assert(all.skip(k) =~= Seq::<Action>::empty());
        assert(effects@.map_values(|e: TerminalEffect| effect_text(e)) + Seq::<Seq<char>>::empty()
            =~= effects@.map_values(|e: TerminalEffect| effect_text(e)));
        effects
    }

    /// Records the new size.
    pub fn resize(&mut self, rows: u16, cols: u16)
        ensures
            final(self)@ == (TermView { rows, cols, ..old(self)@ }),
    {
        self.rows = rows;
        self.cols = cols
    }
}

} // verus!
