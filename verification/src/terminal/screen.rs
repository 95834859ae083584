use vstd::prelude::*;
use std::ops::Range;
use crate::escape::sgr::Sgr;
use crate::terminal::cell::{Cell, CellAttributes};
use crate::terminal::command::CommandSlicer;
use crate::terminal::line::{Line, LineView, one_cell_line};

verus! {

/// What a screen holds: all its lines (scrollback first, the visible rows
/// last) and its dimensions.
pub ghost struct ScreenView {
    pub lines: Seq<LineView>,
    pub max_scrollback: nat,
    pub rows: nat,
    pub columns: nat,
    pub scrollback_allowed: bool,
}

/// The index of the first visible line: the last `rows` lines are visible.
pub open spec fn visible_start(v: ScreenView) -> nat {
    if v.lines.len() <= v.rows { 0 } else { (v.lines.len() - v.rows) as nat }
}

pub open spec fn pad_lines(ls: Seq<LineView>, n: nat) -> Seq<LineView> {
    ls + Seq::new(n, |i: int| one_cell_line())
}

pub open spec fn pad_cells(cs: Seq<Cell>, n: nat) -> Seq<Cell> {
    cs + Seq::new(n, |i: int| Cell::spec_default())
}

/// The lines after making sure visible row `y` exists: missing lines are
/// added, each holding one blank cell.
pub open spec fn lines_reaching(v: ScreenView, y: nat) -> Seq<LineView> {
    let vy = (visible_start(v) + y) as int;
    if vy >= v.lines.len() { pad_lines(v.lines, (vy - v.lines.len() + 1) as nat) } else { v.lines }
}

/// Pushing at `(x, y)` stays within the machine's integers.
pub open spec fn push_ok(v: ScreenView, x: nat, y: nat) -> bool {
    let vy = (visible_start(v) + y) as int;
    &&& vy <= usize::MAX
    &&& vy >= v.lines.len() ==> vy - v.lines.len() + 1 <= usize::MAX
    &&& x >= lines_reaching(v, y)[vy].cells.len() ==> x - lines_reaching(v, y)[vy].cells.len() + 1 <= usize::MAX
}

/// The screen after `cell` is put at column `x` of visible row `y`; the
/// row and the line are first padded with blank lines and cells as needed.
pub open spec fn spec_push(v: ScreenView, cell: Cell, x: nat, y: nat) -> ScreenView {
    let vy = (visible_start(v) + y) as int;
    let ls = lines_reaching(v, y);
    let line = ls[vy];
    let cs = if x >= line.cells.len() { pad_cells(line.cells, (x - line.cells.len() + 1) as nat) } else { line.cells };
    ScreenView { lines: ls.update(vy, LineView { cells: cs.update(x as int, cell), ..line }), ..v }
}

/// The screen after a new line: a line with one blank cell is added, and
/// the oldest lines go beyond `max_scrollback` lines.
pub open spec fn spec_new_line(v: ScreenView) -> ScreenView {
    let ls = v.lines.push(one_cell_line());
    ScreenView {
        lines: if ls.len() > v.max_scrollback { ls.skip(ls.len() - v.max_scrollback) } else { ls },
        ..v
    }
}

/// Blank cells pushed at columns `from..to` of visible row `y`, in order.
pub open spec fn push_blanks(s: ScreenView, from: nat, to: nat, y: nat) -> ScreenView
    decreases to - from,
{
    if from >= to { s } else { push_blanks(spec_push(s, Cell::spec_default(), from, y), from + 1, to, y) }
}

pub open spec fn push_blanks_ok(s: ScreenView, from: nat, to: nat, y: nat) -> bool
    decreases to - from,
{
    from >= to || (push_ok(s, from, y) && push_blanks_ok(spec_push(s, Cell::spec_default(), from, y), from + 1, to, y))
}

/// The attributes after one `SGR` change: colours, blinking, underline,
/// intensity, italics and strike-through are taken over, a reset restores
/// the defaults, the other changes are ignored.
pub open spec fn spec_apply_sgr(attr: CellAttributes, sgr: Sgr) -> CellAttributes {
    match sgr {
        Sgr::Foreground(f) => CellAttributes { fg: f, ..attr },
        Sgr::Background(b) => CellAttributes { bg: b, ..attr },
        Sgr::Reset => CellAttributes::spec_default(),
        Sgr::Blink(b) => CellAttributes { blink: b, ..attr },
        Sgr::Underline(u) => CellAttributes { underline: u, ..attr },
        Sgr::Intensity(i) => CellAttributes { intensity: i, ..attr },
        Sgr::UnderlineColor(c) => CellAttributes { underline_fg: c, ..attr },
        Sgr::Italic(i) => CellAttributes { italic: i, ..attr },
        Sgr::StrikeThrough(s) => CellAttributes { strikethrough: s, ..attr },
        _ => attr,
    }
}

/// The main and alternate screens, and the attributes that printed
/// characters get.
#[derive(Debug)]
pub struct TerminalRenderer {
    pub screen: Screen,
    pub alt_screen: Screen,
    pub commands: CommandSlicer,

    pub attr: CellAttributes,
}

impl TerminalRenderer {
    /// A 24 by 80 main screen with scrollback, an alternate screen of the
    /// same size without, and default attributes.
    pub fn new() -> (r: TerminalRenderer)
        ensures
            r.screen@ == (ScreenView { lines: Seq::empty(), max_scrollback: 100, rows: 24, columns: 80, scrollback_allowed: true }),
            r.alt_screen@ == (ScreenView { lines: Seq::empty(), max_scrollback: 100, rows: 24, columns: 80, scrollback_allowed: false }),
            r.attr == CellAttributes::spec_default(),
            r.commands@ == Seq::<crate::terminal::command::CommandSlice>::empty(),
    {
        TerminalRenderer {
            screen: Screen::new(24, 80, true),
            alt_screen: Screen::new(24, 80, false),
            attr: CellAttributes::default(),
            commands: CommandSlicer::new(),
        }
    }

    pub fn reset_attr(&mut self)
        ensures
            final(self).attr == CellAttributes::spec_default(),
            final(self).screen@ == old(self).screen@,
            final(self).alt_screen@ == old(self).alt_screen@,
            final(self).commands@ == old(self).commands@,
    {
        self.attr = CellAttributes::default();
    }

    /// The alternate screen when `alt`, otherwise the main one.
    pub fn get_screen(&self, alt: bool) -> (s: &Screen)
        ensures
            s@ == (if alt { self.alt_screen@ } else { self.screen@ }),
    {
        if alt {
            &self.alt_screen
        } else {
            &self.screen
        }
    }

    /// The alternate screen when `alt`, otherwise the main one, to change.
    pub fn mut_screen(&mut self, alt: bool) -> (s: &mut Screen)
        ensures
            *s == (if alt { old(self).alt_screen } else { old(self).screen }),
            alt ==> final(self).alt_screen == *final(s) && final(self).screen == old(self).screen,
            !alt ==> final(self).screen == *final(s) && final(self).alt_screen == old(self).alt_screen,
            final(self).attr == old(self).attr,
            final(self).commands == old(self).commands,
    {
        if alt {
            &mut self.alt_screen
        } else {
            &mut self.screen
        }
    }

    /// The attributes after an `SGR` change.
    pub fn handle_sgr(&mut self, sgr: Sgr)
        ensures
            final(self).attr == spec_apply_sgr(old(self).attr, sgr),
            final(self).screen@ == old(self).screen@,
            final(self).alt_screen@ == old(self).alt_screen@,
            final(self).commands@ == old(self).commands@,
    {
        match sgr {
            Sgr::Foreground(f) => self.attr.fg = f,
            Sgr::Background(b) => self.attr.bg = b,
            Sgr::Reset => self.reset_attr(),
            Sgr::Blink(b) => self.attr.blink = b,
            Sgr::Underline(u) => self.attr.underline = u,
            Sgr::Intensity(i) => self.attr.intensity = i,
            Sgr::UnderlineColor(colour) => self.attr.underline_fg = colour,
            Sgr::Italic(i) => self.attr.italic = i,
            Sgr::StrikeThrough(s) => self.attr.strikethrough = s,
            _ => {},
        }
    }
}

/// A screen of lines of cells, with its scrollback.
#[derive(Debug)]
pub struct Screen {
    cells: Vec<Line>,
    max_scrollback: usize,
    physical_rows: usize,
    physical_columns: usize,
    scrollback_allowed: bool,
}

impl View for Screen {
    type V = ScreenView;

    closed spec fn view(&self) -> ScreenView {
        ScreenView {
            lines: self.cells@.map_values(|l: Line| l@),
            max_scrollback: self.max_scrollback as nat,
            rows: self.physical_rows as nat,
            columns: self.physical_columns as nat,
            scrollback_allowed: self.scrollback_allowed,
        }
    }
}

impl Screen {
    /// An empty screen of the given size that keeps up to 100 lines.
    pub fn new(rows: usize, columns: usize, sc_allow: bool) -> (s: Screen)
        ensures
            s@ == (ScreenView { lines: Seq::empty(), max_scrollback: 100, rows: rows as nat, columns: columns as nat, scrollback_allowed: sc_allow }),
    {
        let s = Screen {
            cells: Vec::new(),
            max_scrollback: 100,
            physical_rows: rows,
            physical_columns: columns,
            scrollback_allowed: sc_allow,
        };
        assert(s@.lines =~= Seq::<LineView>::empty());
        s
    }

    pub fn can_scroll(&self) -> (b: bool)
        ensures
            b == self@.scrollback_allowed,
    {
        self.scrollback_allowed
    }

    /// The index at which the visible screen starts in the scrollback buffer
    pub fn visible_start(&self) -> (n: usize)
        ensures
            n == visible_start(self@),
    {
        let rows = self.cells.len();
        if rows <= self.physical_rows {
            return 0;
        }
        rows - self.physical_rows
    }

    /// The line index of visible row `y` in the whole buffer.
    pub fn phys_line(&self, y: usize) -> (n: usize)
        requires
            visible_start(self@) + y <= usize::MAX,
        ensures
            n == visible_start(self@) + y,
    {
        self.visible_start() + y
    }

    /// Pushes a cell at a certain cursor location
    /// Manages any scrollback on its own
    pub fn push(&mut self, cell: Cell, cursor_x: usize, cursor_y: usize)
        requires
            push_ok(old(self)@, cursor_x as nat, cursor_y as nat),
        ensures
            final(self)@ == spec_push(old(self)@, cell, cursor_x as nat, cursor_y as nat),
    {
        let ghost v = self@;
        let vy = self.visible_start() + cursor_y;
        let ghost ls = lines_reaching(v, cursor_y as nat);
        if self.cells.len() > vy {
            assert(self@.lines == ls);
        }
        assert(v.lines == pad_lines(v.lines, 0));
        while self.cells.len() <= vy
            invariant
                vy == visible_start(v) + cursor_y,
                vy <= usize::MAX,
                v.lines.len() <= self@.lines.len(),
                self@.lines.len() <= vy + 1 || self@.lines == v.lines,
                self@.lines == pad_lines(v.lines, (self@.lines.len() - v.lines.len()) as nat),
                self@ == (ScreenView { lines: self@.lines, ..v }),
            decreases vy + 1 - self.cells.len(),
        {
            let ghost before = self@.lines;
            self.cells.push(Line::with_one());
            assert(self@.lines =~= before.push(one_cell_line()));
            assert(self@.lines =~= pad_lines(v.lines, (self@.lines.len() - v.lines.len()) as nat));
        }
        assert(self@.lines == ls);
        let ghost line = ls[vy as int];
        assert(line.cells == pad_cells(line.cells, 0));
        assert(self@.lines == ls.update(vy as int, self@.lines[vy as int]));
        while self.cells[vy].cells.len() <= cursor_x
            invariant
                vy < self@.lines.len(),
                self@.lines.len() == ls.len(),
                self@.lines == ls.update(vy as int, self@.lines[vy as int]),
                self@.lines[vy as int].double_width == line.double_width,
                self@.lines[vy as int].double_height == line.double_height,
                line.cells.len() <= self@.lines[vy as int].cells.len(),
                self@.lines[vy as int].cells.len() <= cursor_x + 1 || self@.lines[vy as int].cells == line.cells,
                self@.lines[vy as int].cells == pad_cells(line.cells, (self@.lines[vy as int].cells.len() - line.cells.len()) as nat),
                self@ == (ScreenView { lines: self@.lines, ..v }),
                push_ok(v, cursor_x as nat, cursor_y as nat),
            decreases cursor_x + 1 - self.cells[vy as int].cells.len(),
        {
            let ghost before = self@.lines[vy as int].cells;
            let ghost before_cells = self.cells@;
            self.cells[vy].push_cell(Cell::default());
            assert(self.cells@ == before_cells.update(vy as int, self.cells@[vy as int]));
            assert(self@.lines =~= before_cells.map_values(|l: Line| l@).update(vy as int, self@.lines[vy as int]));
            assert(self@.lines[vy as int].cells =~= before.push(Cell::spec_default()));
            assert(self@.lines[vy as int].cells =~= pad_cells(line.cells, (self@.lines[vy as int].cells.len() - line.cells.len()) as nat));
            assert(self@.lines =~= ls.update(vy as int, self@.lines[vy as int]));
        }
        let ghost before_cells = self.cells@;
        let ghost cur = self@.lines[vy as int];
        proof {
            if cursor_x >= line.cells.len() {
                assert(cur.cells == pad_cells(line.cells, (cursor_x - line.cells.len() + 1) as nat));
            } else {
                assert(cur.cells == line.cells);
            }
        }
        self.cells[vy].set_cell(cursor_x, cell);
        assert(self.cells@ == before_cells.update(vy as int, self.cells@[vy as int]));
        assert(self@.lines =~= before_cells.map_values(|l: Line| l@).update(vy as int, self@.lines[vy as int]));
        assert(self@.lines =~= spec_push(v, cell, cursor_x as nat, cursor_y as nat).lines);
    }

    /// Pushes blank cells at columns `from..to` of visible row `y`, in order.
    pub fn push_blank_range(&mut self, from: usize, to: usize, y: usize)
        requires
            push_blanks_ok(old(self)@, from as nat, to as nat, y as nat),
        ensures
            final(self)@ == push_blanks(old(self)@, from as nat, to as nat, y as nat),
    {
        let mut x = from;
        while x < to
            invariant
                from <= x,
                x <= to || x == from,
                push_blanks(old(self)@, from as nat, to as nat, y as nat) == push_blanks(self@, x as nat, to as nat, y as nat),
                push_blanks_ok(self@, x as nat, to as nat, y as nat),
            decreases to - x,
        {
            self.push(Cell::default(), x, y);
            x = x + 1;
        }
    }

    /// The length of visible row `y`.
    pub fn visible_line_len(&self, y: usize) -> (n: usize)
        requires
            visible_start(self@) + y < self@.lines.len(),
        ensures
            n == self@.lines[visible_start(self@) + y].cells.len(),
    {
        // the number of lines is a usize, which bounds the index below
        let _len = self.cells.len();
        let vi = self.visible_start() + y;
        self.cells[vi].len()
    }

    /// The visible rows: from the first visible line to the end.
    pub fn scroll_range(&self, back: usize) -> (r: Range<usize>)
        ensures
            r.start == visible_start(self@),
            r.end == self@.lines.len(),
    {
        self.visible_start()..self.scrollback_len()
    }

    /// Length of whole scrollback
    pub fn scrollback_len(&self) -> (n: usize)
        ensures
            n == self@.lines.len(),
    {
        self.cells.len()
    }

    /// Sets a cell at a position within the visible screen; a column past
    /// the end of the line is ignored.
    pub fn set_cell(&mut self, x: usize, y: usize, cell: Cell)
        requires
            visible_start(old(self)@) + y < old(self)@.lines.len(),
        ensures
            ({
                let vy = visible_start(old(self)@) + y;
                let line = old(self)@.lines[vy];
                final(self)@ == if line.cells.len() <= x {
                    old(self)@
                } else {
                    ScreenView { lines: old(self)@.lines.update(vy, LineView { cells: line.cells.update(x as int, cell), ..line }), ..old(self)@ }
                }
            }),
    {
        // the number of lines is a usize, which bounds the index below
        let _len = self.cells.len();
        let vis_y = self.visible_start() + y;
        if self.cells[vis_y].cells.len() <= x {
            return;
        }
        let ghost line = self@.lines[vis_y as int];
        self.cells[vis_y].set_cell(x, cell);
        assert(self@.lines =~= old(self)@.lines.update(vis_y as int, LineView { cells: line.cells.update(x as int, cell), ..line }));
    }

    /// The cell at a position within the visible screen.
    pub fn cell(&self, x: usize, y: usize) -> (c: Cell)
        requires
            visible_start(self@) + y < self@.lines.len(),
            x < self@.lines[visible_start(self@) + y].cells.len(),
        ensures
            c == self@.lines[visible_start(self@) + y].cells[x as int],
    {
        // the number of lines is a usize, which bounds the index below
        let _len = self.cells.len();
        let vis_y = self.visible_start() + y;
        self.cells[vis_y].cells[x]
    }

    /// Erases scrollback and visible screen
    pub fn erase_all(&mut self)
        ensures
            final(self)@ == (ScreenView { lines: Seq::empty(), ..old(self)@ }),
    {
        self.cells = Vec::new();
        assert(self@.lines =~= Seq::<LineView>::empty());
    }

    /// Length of the visible screen: the number of lines shown, the smaller
    /// of the lines held and the rows.
    pub fn visible_len(&self) -> (n: usize)
        ensures
            n == (if self@.lines.len() <= self@.rows { self@.lines.len() } else { self@.rows }),
            visible_start(self@) + n == self@.lines.len(),
    {
        let len = self.cells.len();
        if len <= self.physical_rows { len } else { self.physical_rows }
    }

    /// The line at `index` of the whole buffer.
    pub fn line(&self, index: usize) -> (l: &Line)
        requires
            index < self@.lines.len(),
        ensures
            l@ == self@.lines[index as int],
    {
        &self.cells[index]
    }

    /// Adds a line with one blank cell; lines beyond the scrollback limit
    /// are dropped from the top.
    pub fn new_line(&mut self)
        ensures
            final(self)@ == spec_new_line(old(self)@),
    {
        let ghost ls = old(self)@.lines.push(one_cell_line());
        self.cells.push(Line::with_one());
        assert(self@.lines =~= ls);
        let len = self.cells.len();
        if len > self.max_scrollback {
            let tail = self.cells.split_off(len - self.max_scrollback);
            self.cells = tail;
            assert(self@.lines =~= ls.skip(ls.len() - old(self)@.max_scrollback));
        }
    }

    /// Replaces visible row `index`.
    pub fn set_line(&mut self, index: usize, line: Line)
        requires
            visible_start(old(self)@) + index < old(self)@.lines.len(),
        ensures
            final(self)@ == (ScreenView { lines: old(self)@.lines.update(visible_start(old(self)@) + index, line@), ..old(self)@ }),
    {
        // the number of lines is a usize, which bounds the index below
        let _len = self.cells.len();
        let vis_index = self.visible_start() + index;
        let ghost l = line@;
        self.cells.set(vis_index, line);
        assert(self@.lines =~= old(self)@.lines.update(vis_index as int, l));
    }

    /// Blanks the cells `from..to` of visible row `index`.
    pub fn blank_cells(&mut self, index: usize, from: usize, to: usize)
        requires
            visible_start(old(self)@) + index < old(self)@.lines.len(),
            to <= old(self)@.lines[visible_start(old(self)@) + index].cells.len(),
        ensures
            ({
                let vi = visible_start(old(self)@) + index;
                let line = old(self)@.lines[vi];
                final(self)@ == (ScreenView {
                    lines: old(self)@.lines.update(vi, LineView {
                        cells: Seq::new(line.cells.len(), |i: int| if from <= i < to { Cell::spec_default() } else { line.cells[i] }),
                        ..line
                    }),
                    ..old(self)@
                })
            }),
    {
        // the number of lines is a usize, which bounds the index below
        let _len = self.cells.len();
        let vi = self.visible_start() + index;
        let ghost line = old(self)@.lines[vi as int];
        let mut x = from;
        assert(line.cells =~= Seq::new(line.cells.len(), |i: int| if from <= i < x { Cell::spec_default() } else { line.cells[i] }));
        assert(self@.lines =~= old(self)@.lines.update(vi as int, self@.lines[vi as int]));
        while x < to
            invariant
                vi == visible_start(old(self)@) + index,
                vi < self@.lines.len(),
                from <= x,
                x <= to || x == from,
                to <= line.cells.len(),
                self@.lines.len() == old(self)@.lines.len(),
                self@ == (ScreenView { lines: self@.lines, ..old(self)@ }),
                self@.lines == old(self)@.lines.update(vi as int, self@.lines[vi as int]),
                self@.lines[vi as int] == (LineView {
                    cells: Seq::new(line.cells.len(), |i: int| if from <= i < x { Cell::spec_default() } else { line.cells[i] }),
                    ..line
                }),
            decreases to - x,
        {
            let ghost before = self@.lines[vi as int];
            assert(x < line.cells.len());
            let ghost before_cells = self.cells@;
            self.cells[vi].set_cell(x, Cell::default());
            assert(self.cells@ == before_cells.update(vi as int, self.cells@[vi as int]));
            assert(self@.lines =~= before_cells.map_values(|l: Line| l@).update(vi as int, self@.lines[vi as int]));
            assert(self@.lines[vi as int].cells == before.cells.update(x as int, Cell::spec_default()));
            assert(self@.lines[vi as int].cells =~= Seq::new(line.cells.len(), |i: int| if from <= i < x + 1 { Cell::spec_default() } else { line.cells[i] }));
            assert(self@.lines =~= old(self)@.lines.update(vi as int, self@.lines[vi as int]));
            x = x + 1;
        }
        assert(self@.lines[vi as int].cells =~= Seq::new(line.cells.len(), |i: int| if from <= i < to { Cell::spec_default() } else { line.cells[i] }));
    }

    /// Sets the double-width flag of the line at `index` of the visible screen.
    pub fn set_line_width(&mut self, index: usize, double: bool)
        requires
            visible_start(old(self)@) + index < old(self)@.lines.len(),
        ensures
            ({
                let vi = visible_start(old(self)@) + index;
                final(self)@ == (ScreenView { lines: old(self)@.lines.update(vi, LineView { double_width: double, ..old(self)@.lines[vi] }), ..old(self)@ })
            }),
    {
        // the number of lines is a usize, which bounds the index below
        let _len = self.cells.len();
        let vi = self.visible_start() + index;
        self.cells[vi].set_width(double);
        assert(self@.lines =~= old(self)@.lines.update(vi as int, LineView { double_width: double, ..old(self)@.lines[vi as int] }));
    }

    /// Sets the double-height flag of the line at `index` of the visible screen.
    pub fn set_line_double(&mut self, index: usize, double: bool)
        requires
            visible_start(old(self)@) + index < old(self)@.lines.len(),
        ensures
            ({
                let vi = visible_start(old(self)@) + index;
                final(self)@ == (ScreenView { lines: old(self)@.lines.update(vi, LineView { double_height: double, ..old(self)@.lines[vi] }), ..old(self)@ })
            }),
    {
        // the number of lines is a usize, which bounds the index below
        let _len = self.cells.len();
        let vi = self.visible_start() + index;
        self.cells[vi].set_double(double);
        assert(self@.lines =~= old(self)@.lines.update(vi as int, LineView { double_height: double, ..old(self)@.lines[vi as int] }));
    }

    /// Whether the visible screen is filled
    /// Used for knowing whether to move the cursor or not
    pub fn is_filled(&self) -> (b: bool)
        ensures
            b == (self@.lines.len() > self@.rows),
    {
        self.cells.len() > self.physical_rows
    }
}

} // verus!
