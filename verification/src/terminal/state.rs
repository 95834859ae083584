use vstd::prelude::*;
use std::collections::HashMap;
use crate::escape::csi::DecPrivateMode;
use num_traits::FromPrimitive;

verus! {

broadcast use vstd::std_specs::hash::group_hash_axioms;

/// The modes a program has switched on or off.
#[derive(Debug)]
pub struct TerminalState {
    pub cwd: String,

    pub alt_screen: bool,
    pub bracketed_paste: bool,
    pub show_cursor: bool,
    pub codes: HashMap<usize, bool>,
}

/// Whether a DEC private mode number is one that termwiz names (a variant of
/// its `DecPrivateModeCode`); a mode it does not name is ignored.
pub open spec fn is_named_dec_mode(n: u16) -> bool {
    ||| 1 <= n <= 8 || n == 12 || n == 25 || n == 45 || n == 47 || n == 69 || n == 80
    ||| 1000 <= n <= 1006 || n == 1016 || n == 1036 || n == 1039 || n == 1047 || n == 1048
    ||| n == 1049 || n == 1070 || n == 2004 || n == 2026 || n == 2027 || n == 7727
    ||| n == 8452 || n == 9001
}

/// termwiz's `DecPrivateModeCode::from_u16`, which the enum derives from its
/// numbers, gives a variant exactly when `n` is one of them. The contract
/// claims that list: `is_named_dec_mode`.
#[verifier::external_body]
pub(crate) fn termwiz_names_dec_mode(n: u16) -> (b: bool)
    ensures
        b == is_named_dec_mode(n),
{
    termwiz::escape::csi::DecPrivateModeCode::from_u16(n).is_some()
}

/// The DEC private mode numbers the state tracks by name.
pub open spec fn bracketed_paste_code() -> usize { 2004 }
pub open spec fn alternate_screen_code() -> usize { 47 }
pub open spec fn clear_alternate_screen_code() -> usize { 1049 }
pub open spec fn show_cursor_code() -> usize { 25 }

impl TerminalState {
    /// The other modes, by their number.
    pub open spec fn codes(&self) -> Map<usize, bool> {
        self.codes@
    }

    pub fn new() -> (s: TerminalState)
        ensures
            s.cwd@.len() == 0,
            !s.alt_screen,
            !s.bracketed_paste,
            !s.show_cursor,
            s.codes() == Map::<usize, bool>::empty(),
    {
        TerminalState {
            cwd: String::new(),
            alt_screen: false,
            bracketed_paste: false,
            show_cursor: false,
            codes: HashMap::new(),
        }
    }

    /// Whether the mode with number `code` is on (off when never set).
    pub fn check(&self, code: usize) -> (b: bool)
        ensures
            b == (self.codes().contains_key(code) && self.codes()[code]),
    {
        match self.codes.get(&code) {
            Some(v) => *v,
            None => false,
        }
    }

    /// Switches a DEC private mode on or off: bracketed paste (2004), the
    /// alternate screen (47 and 1049) and cursor visibility (25) have their
    /// own flags, any other number is recorded under that number; modes that
    /// are not numbers are ignored.
    pub fn set_dec_private_mode(&mut self, mode: DecPrivateMode, active: bool)
        ensures
            final(self).cwd == old(self).cwd,
            match mode {
                DecPrivateMode::Code(c) => {
                    &&& final(self).bracketed_paste == (if c == bracketed_paste_code() { active } else { old(self).bracketed_paste })
                    &&& final(self).alt_screen == (if c == alternate_screen_code() || c == clear_alternate_screen_code() { active } else { old(self).alt_screen })
                    &&& final(self).show_cursor == (if c == show_cursor_code() { active } else { old(self).show_cursor })
                    &&& final(self).codes() == (if c == bracketed_paste_code() || c == alternate_screen_code()
                        || c == clear_alternate_screen_code() || c == show_cursor_code() {
                        old(self).codes()
                    } else {
                        old(self).codes().insert(c, active)
                    })
                },
                DecPrivateMode::Unspecified(_) => {
                    &&& final(self).bracketed_paste == old(self).bracketed_paste
                    &&& final(self).alt_screen == old(self).alt_screen
                    &&& final(self).show_cursor == old(self).show_cursor
                    &&& final(self).codes() == old(self).codes()
                },
            },
    {
        let code = match mode {
            DecPrivateMode::Code(c) => c,
            DecPrivateMode::Unspecified(_) => return,
        };
        if code == 2004 {
            self.bracketed_paste = active;
        } else if code == 47 {
            self.alt_screen = active;
        } else if code == 1049 {
            self.alt_screen = active;
        } else if code == 25 {
            self.show_cursor = active;
        } else {
            self.codes.insert(code, active);
        }
    }
}

} // verus!
