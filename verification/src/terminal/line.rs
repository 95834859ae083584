use vstd::prelude::*;
use crate::terminal::cell::Cell;

verus! {

/// What a line holds: its cells and whether it is drawn double width or
/// double height.
pub ghost struct LineView {
    pub cells: Seq<Cell>,
    pub double_width: bool,
    pub double_height: bool,
}

/// One line of the screen.
#[derive(Clone, Debug)]
pub struct Line {
    pub cells: Vec<Cell>,
    pub double_width: bool,
    pub double_height: bool,
}

impl View for Line {
    type V = LineView;

    open spec fn view(&self) -> LineView {
        LineView { cells: self.cells@, double_width: self.double_width, double_height: self.double_height }
    }
}

/// A line holding one blank cell.
pub open spec fn one_cell_line() -> LineView {
    LineView { cells: seq![Cell::spec_default()], double_width: false, double_height: false }
}

impl Line {
    pub fn new() -> (l: Line)
        ensures
            l@ == (LineView { cells: Seq::empty(), double_width: false, double_height: false }),
    {
        Line { cells: Vec::new(), double_width: false, double_height: false }
    }

    pub fn with_one() -> (l: Line)
        ensures
            l@ == one_cell_line(),
    {
        let l = Line { cells: vec![Cell::default()], double_width: false, double_height: false };
        assert(l@.cells =~= one_cell_line().cells);
        l
    }

    /// Replaces the cells of the line.
    pub fn set(&mut self, cells: Vec<Cell>)
        ensures
            final(self)@ == (LineView { cells: cells@, ..old(self)@ }),
    {
        self.cells = cells;
    }

    /// Replaces the cell at `x`.
    pub fn set_cell(&mut self, x: usize, cell: Cell)
        requires
            x < old(self)@.cells.len(),
        ensures
            final(self)@ == (LineView { cells: old(self)@.cells.update(x as int, cell), ..old(self)@ }),
    {
        self.cells.set(x, cell);
    }

    /// Adds a cell at the end.
    pub fn push_cell(&mut self, cell: Cell)
        ensures
            final(self)@ == (LineView { cells: old(self)@.cells.push(cell), ..old(self)@ }),
    {
        self.cells.push(cell);
    }

    pub fn len(&self) -> (n: usize)
        ensures
            n == self@.cells.len(),
    {
        self.cells.len()
    }

    pub fn set_width(&mut self, double: bool)
        ensures
            final(self)@ == (LineView { double_width: double, ..old(self)@ }),
    {
        self.double_width = double;
    }

    pub fn set_double(&mut self, double: bool)
        ensures
            final(self)@ == (LineView { double_height: double, ..old(self)@ }),
    {
        self.double_height = double;
    }

    pub fn double_width(&self) -> (b: bool)
        ensures
            b == self@.double_width,
    {
        self.double_width
    }

    pub fn double_height(&self) -> (b: bool)
        ensures
            b == self@.double_height,
    {
        self.double_height
    }
}

} // verus!
