use vstd::prelude::*;
use crate::escape::csi::CursorStyle;

verus! {

/// Cursor position and style, with room to store and restore positions.
#[derive(Clone, Copy, Debug, PartialEq, Eq)]
pub struct TerminalCursor {
    pub x: usize,
    pub y: usize,

    pub alt_x: usize,
    pub alt_y: usize,

    pub saved_x: usize,
    pub saved_y: usize,

    pub style: CursorStyle,
}

impl TerminalCursor {
    pub open spec fn spec_new() -> TerminalCursor {
        TerminalCursor { x: 0, y: 0, saved_x: 0, saved_y: 0, style: CursorStyle::Default, alt_x: 0, alt_y: 0 }
    }

    pub fn new() -> (c: TerminalCursor)
        ensures
            c == Self::spec_new(),
    {
        TerminalCursor { x: 0, y: 0, saved_x: 0, saved_y: 0, style: CursorStyle::Default, alt_x: 0, alt_y: 0 }
    }

    /// Sets the cursor position
    pub fn set(&mut self, x: u32, y: u32)
        ensures
            *final(self) == (TerminalCursor { x: x as usize, y: y as usize, ..*old(self) }),
    {
        self.x = x as usize;
        self.y = y as usize;
    }

    pub fn set_x(&mut self, x: u32)
        ensures
            *final(self) == (TerminalCursor { x: x as usize, ..*old(self) }),
    {
        self.x = x as usize
    }

    pub fn set_y(&mut self, y: u32)
        ensures
            *final(self) == (TerminalCursor { y: y as usize, ..*old(self) }),
    {
        self.y = y as usize
    }

    /// Shifts the cursor down
    pub fn shift_down(&mut self, amount: u32)
        requires
            old(self).y + amount <= usize::MAX,
        ensures
            *final(self) == (TerminalCursor { y: (old(self).y + amount) as usize, ..*old(self) }),
    {
        self.y += amount as usize;
    }

    /// Shifts the cursor right
    pub fn shift_right(&mut self, amount: u32)
        requires
            old(self).x + amount <= usize::MAX,
        ensures
            *final(self) == (TerminalCursor { x: (old(self).x + amount) as usize, ..*old(self) }),
    {
        self.x += amount as usize
    }

    /// Shifts the cursor up
    pub fn shift_up(&mut self, amount: u32)
        requires
            old(self).y >= amount,
        ensures
            *final(self) == (TerminalCursor { y: (old(self).y - amount) as usize, ..*old(self) }),
    {
        self.y = self.y - amount as usize;
    }

    /// Shifts the cursor left
    pub fn shift_left(&mut self, amount: u32)
        requires
            old(self).x >= amount,
        ensures
            *final(self) == (TerminalCursor { x: (old(self).x - amount) as usize, ..*old(self) }),
    {
        self.x = self.x - amount as usize;
    }

    pub fn set_style(&mut self, style: CursorStyle)
        ensures
            *final(self) == (TerminalCursor { style, ..*old(self) }),
    {
        self.style = style;
    }
}

} // verus!
