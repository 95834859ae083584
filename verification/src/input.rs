//! Turning key presses and mouse clicks into the bytes the shell reads.

use vstd::prelude::*;
use crate::config::actions::TerminalAction;
use crate::config::keybindings;
use crate::config::keybindings::{Keybinding, Modifiers};
use crate::text::{push_char, push_decimal, dec_string};

verus! {

/// What a key sends in the first, window-toolkit encoding of the terminal.
pub open spec fn spec_key_event_str(key: keybindings::Key) -> Seq<char> {
    match key {
        keybindings::Key::Character(s) => s@,
        keybindings::Key::Escape => seq!['\u{1b}'],
        keybindings::Key::Delete => seq!['\u{7f}'],
        keybindings::Key::Backspace => seq!['\u{8}'],
        keybindings::Key::Enter => seq!['\r', '\n'],
        _ => Seq::empty(),
    }
}

/// What a key sends in the first, window-toolkit encoding of the terminal:
/// a typed key its text, Escape, Delete, Backspace and Enter their control
/// characters, any other key nothing.
pub fn key_event_to_str(key: &keybindings::Key) -> (s: String)
    ensures
        s@ == spec_key_event_str(*key),
{
    let mut s = String::new();
    match key {
        keybindings::Key::Character(c) => {
            return c.clone();
        },
        keybindings::Key::Escape => push_char(&mut s, '\u{1b}'),
        keybindings::Key::Delete => push_char(&mut s, '\u{7f}'),
        keybindings::Key::Backspace => push_char(&mut s, '\u{8}'),
        keybindings::Key::Enter => {
            push_char(&mut s, '\r');
            push_char(&mut s, '\n');
        },
        _ => {},
    }
    assert(s@ =~= spec_key_event_str(*key));
    s
}

/// Encodes keys and mouse events for the running program.
pub struct InputManager {
    key_mode: KeyMode,
    mouse_mode: MouseMode,
}

#[derive(Debug, PartialEq, Eq, Structural, Clone, Copy)]
pub enum KeyMode {
    Kitty,
    Legacy,
}

#[derive(Debug, PartialEq, Eq, Structural, Clone, Copy)]
pub enum MouseMode {
    SGR,
    RVXT,
    Normal,
    Unknown,
}

/// The button of a mouse event.
#[derive(Debug, PartialEq, Eq, Structural, Clone, Copy)]
pub enum MouseButton {
    Primary,
    Secondary,
    Auxiliary,
    Fourth,
    Fifth,
    Unknown,
}

/// A key event as a web view reports it.
#[derive(Debug, PartialEq, Clone)]
pub struct Key {
    pub key: String,
    pub alt: bool,
    pub ctrl: bool,
    pub meta: bool,
    pub shift: bool,
}

/// The character that `Ctrl` together with `key` sends, per the kitty
/// keyboard protocol's legacy control mapping.
pub open spec fn spec_ctrl_key(key: char) -> Option<char> {
    if key == ' ' || key == '2' {
        Some('\u{0}')
    } else if 'a' <= key <= 'z' {
        Some((((key as u32) - 96) as u8) as char)
    } else if key == '[' || key == '3' {
        Some('\u{1b}')
    } else if key == '\\' || key == '4' {
        Some('\u{1c}')
    } else if key == ']' || key == '5' {
        Some('\u{1d}')
    } else if key == '^' || key == '6' {
        Some('\u{1e}')
    } else if key == '/' || key == '7' {
        Some('\u{1f}')
    } else if key == '0' {
        Some('\u{30}')
    } else if key == '1' {
        Some('\u{31}')
    } else if key == '?' || key == '8' {
        Some('\u{7f}')
    } else {
        None
    }
}

/// What a typed key sends: with `Ctrl`, its control character if it has
/// one; with `Alt`, prefixed by `ESC`.
pub open spec fn spec_mod_key(key: Seq<char>, alt: bool, ctrl: bool) -> Seq<char> {
    let k = if ctrl && spec_ctrl_key(key[0]) is Some { seq![spec_ctrl_key(key[0])->Some_0] } else { key };
    if alt { seq!['\u{1b}'] + k } else { k }
}

/// The button code of an SGR mouse report.
pub open spec fn mouse_code(button: MouseButton) -> nat {
    match button {
        MouseButton::Primary => 0,
        MouseButton::Secondary => 2,
        MouseButton::Auxiliary => 1,
        MouseButton::Fourth => 3,
        MouseButton::Fifth => 3,
        MouseButton::Unknown => 3,
    }
}

/// `ESC [ < code ; x+1 ; y+1 M` (`m` on release).
pub open spec fn spec_sgr_mouse(button: MouseButton, x: nat, y: nat, is_press: bool) -> Seq<char> {
    seq!['\u{1b}', '[', '<'] + dec_string(mouse_code(button)) + seq![';'] + dec_string(x + 1) + seq![';']
        + dec_string(y + 1) + seq![if is_press { 'M' } else { 'm' }]
}

/// What a key sends in the legacy encoding.
pub open spec fn spec_legacy_key(key: keybindings::Key, alt: bool, ctrl: bool) -> Seq<char> {
    match key {
        keybindings::Key::Character(s) => spec_mod_key(s@, alt, ctrl),
        keybindings::Key::Enter => seq!['\r'],
        keybindings::Key::Tab => seq!['\t'],
        keybindings::Key::Escape => seq!['\u{1b}'],
        keybindings::Key::Delete => seq!['\u{8}'],
        keybindings::Key::Backspace => seq!['\u{7f}'],
        keybindings::Key::ArrowRight => seq!['\u{1b}', '[', 'C'],
        keybindings::Key::ArrowLeft => seq!['\u{1b}', '[', 'D'],
        keybindings::Key::ArrowUp => seq!['\u{1b}', '[', 'A'],
        keybindings::Key::ArrowDown => seq!['\u{1b}', '[', 'B'],
        keybindings::Key::Other(_) => Seq::empty(),
    }
}

/// A key that can be encoded: a typed key must carry text.
pub open spec fn key_encodable(key: keybindings::Key) -> bool {
    key matches keybindings::Key::Character(s) ==> s@.len() > 0
}

/// The index of the first binding for `key` with exactly `modifiers`.
pub open spec fn first_binding(keybinds: Seq<Keybinding>, key: keybindings::Key, modifiers: Modifiers) -> Option<int>
    decreases keybinds.len(),
{
    if keybinds.len() == 0 {
        None
    } else if keybinds[0].modifiers == modifiers && keybinds[0].key.spec_same(&key) {
        Some(0)
    } else {
        match first_binding(keybinds.drop_first(), key, modifiers) {
            Some(i) => Some(i + 1),
            None => None,
        }
    }
}

proof fn lemma_first_binding(keybinds: Seq<Keybinding>, key: keybindings::Key, modifiers: Modifiers, i: int)
    requires
        0 <= i <= keybinds.len(),
        forall|j: int| 0 <= j < i ==> !(keybinds[j].modifiers == modifiers && #[trigger] keybinds[j].key.spec_same(&key)),
    ensures
        first_binding(keybinds, key, modifiers) == (match first_binding(keybinds.skip(i), key, modifiers) {
            Some(k) => Some(k + i),
            None => None,
        }),
    decreases i,
{
    if i > 0 {
        assert(!(keybinds[0].modifiers == modifiers && keybinds[0].key.spec_same(&key)));
        assert forall|j: int| 0 <= j < i - 1 implies !(keybinds.drop_first()[j].modifiers == modifiers && #[trigger] keybinds.drop_first()[j].key.spec_same(&key)) by {
            assert(keybinds.drop_first()[j] == keybinds[j + 1]);
        }
        lemma_first_binding(keybinds.drop_first(), key, modifiers, i - 1);
        assert(keybinds.drop_first().skip(i - 1) =~= keybinds.skip(i));
    } else {
        assert(keybinds.skip(0) =~= keybinds);
    }
}

fn decimal_string(v: u64) -> (s: String)
    ensures
        s@ == dec_string(v as nat),
{
    let mut s = String::new();
    push_decimal(&mut s, v);
    assert(s@ =~= dec_string(v as nat));
    s
}

impl InputManager {
    pub closed spec fn spec_key_mode(&self) -> KeyMode {
        self.key_mode
    }

    pub closed spec fn spec_mouse_mode(&self) -> MouseMode {
        self.mouse_mode
    }

    /// Starts with legacy key encoding and SGR mouse reports.
    pub fn new() -> (m: InputManager)
        ensures
            m.spec_key_mode() == KeyMode::Legacy,
            m.spec_mouse_mode() == MouseMode::SGR,
    {
        InputManager { key_mode: KeyMode::Legacy, mouse_mode: MouseMode::SGR }
    }

    /// The SGR mouse report of a press (or release) at cell `(x, y)`,
    /// counted from 0; the report counts from 1.
    pub fn sgr_mouse(&mut self, button: Option<MouseButton>, x: usize, y: usize, is_press: bool) -> (s: String)
        requires
            x < usize::MAX,
            y < usize::MAX,
        ensures
            s@ == spec_sgr_mouse(
                match button { Some(b) => b, None => MouseButton::Unknown },
                x as nat, y as nat, is_press),
            final(self).spec_key_mode() == old(self).spec_key_mode(),
            final(self).spec_mouse_mode() == old(self).spec_mouse_mode(),
    {
        let button = match button {
            Some(b) => b,
            None => MouseButton::Unknown,
        };
        let code: u64 = match button {
            MouseButton::Primary => 0,
            MouseButton::Secondary => 2,
            MouseButton::Auxiliary => 1,
            MouseButton::Fourth => 3,
            MouseButton::Fifth => 3,
            MouseButton::Unknown => 3,
        };
        let (x, y) = (x + 1, y + 1);
        let mut s = String::new();
        push_char(&mut s, '\u{1b}');
        push_char(&mut s, '[');
        push_char(&mut s, '<');
        push_decimal(&mut s, code);
        push_char(&mut s, ';');
        push_decimal(&mut s, x as u64);
        push_char(&mut s, ';');
        push_decimal(&mut s, y as u64);
        push_char(&mut s, if is_press { 'M' } else { 'm' });
        assert(s@ =~= spec_sgr_mouse(button, (x - 1) as nat, (y - 1) as nat, is_press));
        s
    }

    /// The report of a mouse event in the current mouse mode: SGR reports,
    /// or nothing in the normal and unknown modes.
    pub fn handle_mouse(&mut self, button: Option<MouseButton>, x: usize, y: usize, is_press: bool) -> (s: String)
        requires
            old(self).spec_mouse_mode() != MouseMode::RVXT,
            x < usize::MAX,
            y < usize::MAX,
        ensures
            old(self).spec_mouse_mode() == MouseMode::SGR ==> s@ == spec_sgr_mouse(
                match button { Some(b) => b, None => MouseButton::Unknown },
                x as nat, y as nat, is_press),
            old(self).spec_mouse_mode() != MouseMode::SGR ==> s@.len() == 0,
            final(self).spec_key_mode() == old(self).spec_key_mode(),
            final(self).spec_mouse_mode() == old(self).spec_mouse_mode(),
    {
        match self.mouse_mode {
            MouseMode::SGR => self.sgr_mouse(button, x, y, is_press),
            MouseMode::RVXT => String::new(),
            MouseMode::Normal => String::new(),
            MouseMode::Unknown => String::new(),
        }
    }

    // https://sw.kovidgoyal.net/kitty/keyboard-protocol/#ctrl-mapping
    pub fn ctrl_key(&self, key: char) -> (r: Option<char>)
        ensures
            r == spec_ctrl_key(key),
    {
        if key == ' ' || key == '2' {
            Some('\u{0}')
        } else if 'a' <= key && key <= 'z' {
            Some((((key as u32) - 96) as u8) as char)
        } else if key == '[' || key == '3' {
            Some('\u{1b}')
        } else if key == '\\' || key == '4' {
            Some('\u{1c}')
        } else if key == ']' || key == '5' {
            Some('\u{1d}')
        } else if key == '^' || key == '6' {
            Some('\u{1e}')
        } else if key == '/' || key == '7' {
            Some('\u{1f}')
        } else if key == '0' {
            Some('\u{30}')
        } else if key == '1' {
            Some('\u{31}')
        } else if key == '?' || key == '8' {
            Some('\u{7f}')
        } else {
            None
        }
    }

    /// What typing `key` with the given modifiers sends.
    pub fn handle_mod_key(&self, key: String, alt: bool, ctrl: bool) -> (s: String)
        requires
            key@.len() > 0,
        ensures
            s@ == spec_mod_key(key@, alt, ctrl),
    {
        let first = key.as_str().get_char(0);
        let mut k = key;
        if ctrl {
            if let Some(c) = self.ctrl_key(first) {
                let mut t = String::new();
                push_char(&mut t, c);
                k = t;
            }
        }
        if alt {
            let mut s = String::new();
            push_char(&mut s, '\u{1b}');
            s.append(k.as_str());
            s
        } else {
            k
        }
    }

    /// What a key sends in the current key encoding (legacy).
    pub fn match_key(&self, key: &keybindings::Key, alt: bool, ctrl: bool) -> (s: String)
        requires
            self.spec_key_mode() == KeyMode::Legacy,
            key_encodable(*key),
        ensures
            s@ == spec_legacy_key(*key, alt, ctrl),
    {
        self.handle_key(key, alt, ctrl)
    }

    /// What a key sends in the legacy encoding: text keys as typed (with
    /// Ctrl and Alt applied), the named keys as their control sequences, and
    /// nothing for any other key.
    pub fn handle_key(&self, key: &keybindings::Key, alt: bool, ctrl: bool) -> (s: String)
        requires
            key_encodable(*key),
        ensures
            s@ == spec_legacy_key(*key, alt, ctrl),
    {
        let mut s = String::new();
        match key {
            keybindings::Key::Character(c) => {
                return self.handle_mod_key(c.clone(), alt, ctrl);
            },
            keybindings::Key::Enter => push_char(&mut s, '\r'),
            keybindings::Key::Tab => push_char(&mut s, '\t'),
            keybindings::Key::Escape => push_char(&mut s, '\u{1b}'),
            keybindings::Key::Delete => push_char(&mut s, '\u{8}'),
            keybindings::Key::Backspace => push_char(&mut s, '\u{7f}'),
            keybindings::Key::ArrowRight => {
                push_char(&mut s, '\u{1b}');
                push_char(&mut s, '[');
                push_char(&mut s, 'C');
            },
            keybindings::Key::ArrowLeft => {
                push_char(&mut s, '\u{1b}');
                push_char(&mut s, '[');
                push_char(&mut s, 'D');
            },
            keybindings::Key::ArrowUp => {
                push_char(&mut s, '\u{1b}');
                push_char(&mut s, '[');
                push_char(&mut s, 'A');
            },
            keybindings::Key::ArrowDown => {
                push_char(&mut s, '\u{1b}');
                push_char(&mut s, '[');
                push_char(&mut s, 'B');
            },
            keybindings::Key::Other(_) => {},
        }
        assert(s@ =~= spec_legacy_key(*key, alt, ctrl));
        s
    }

    /// The kitty modifier bits of a key event: the computed bit is thrown
    /// away, so this is always 0.
    pub fn kitty_modifiers(&self, mods: Modifiers) -> (r: u8)
        ensures
            r == 0,
    {
        let result: u8 = 0;
        let _ = Self::set_nth_bit(result, 1, mods.alt);
        result
    }

    /// `num` with bit `n` set to `value`.
    pub fn set_nth_bit(num: u8, n: usize, value: bool) -> (r: u8)
        requires
            n < 8,
        ensures
            forall|k: u8| #![trigger (r >> k)] k < 8 ==> ((r >> k) & 1 == 1) == (if k == n { value } else { (num >> k) & 1 == 1 }),
    {
        let s = n as u8;
        let mask: u8 = 1u8 << s;
        let cleared = num & !mask;
        let bit: u8 = if value { 1 } else { 0 };
        let r = cleared | (bit << s);
        assert(forall|k: u8| #![trigger (r >> k)] k < 8 ==> ((r >> k) & 1 == 1) == (if k == s { bit == 1 } else { (num >> k) & 1 == 1 })) by (bit_vector)
            requires
                r == (num & !(1u8 << s)) | (bit << s),
                s < 8,
                bit <= 1;
        r
    }

    /// What a key event does: the action of the first binding for this key
    /// with exactly these modifiers, otherwise writing what the key sends.
    pub fn handle_keypress(&self, keybinds: &Vec<Keybinding>, key: &keybindings::Key, modifiers: Modifiers) -> (a: TerminalAction)
        requires
            self.spec_key_mode() == KeyMode::Legacy,
            key_encodable(*key),
        ensures
            match first_binding(keybinds@, *key, modifiers) {
                Some(i) => a == keybinds@[i].action,
                None => a matches TerminalAction::Write(s) && s@ == spec_legacy_key(*key, modifiers.alt, modifiers.control),
            },
    {
        let mut i: usize = 0;
        while i < keybinds.len()
            invariant
                i <= keybinds@.len(),
                forall|j: int| 0 <= j < i ==> !(keybinds@[j].modifiers == modifiers && #[trigger] keybinds@[j].key.spec_same(key)),
            decreases keybinds.len() - i,
        {
            let kb = &keybinds[i];
            if kb.modifiers == modifiers && kb.key.same(key) {
                proof {
                    lemma_first_binding(keybinds@, *key, modifiers, i as int);
                    assert(keybinds@.skip(i as int)[0] == keybinds@[i as int]);
                }
                return kb.action.clone();
            }
            i = i + 1;
        }
        proof {
            lemma_first_binding(keybinds@, *key, modifiers, i as int);
        }
        TerminalAction::Write(self.match_key(key, modifiers.alt, modifiers.control))
    }
}

/// With `Ctrl`, a lower-case letter sends its place in the alphabet (`a` is
/// 1, `z` is 26); an upper-case letter has no control character.
pub proof fn law_ctrl_letters(c: char)
    ensures
        'a' <= c <= 'z' ==> (spec_ctrl_key(c) matches Some(k) && (k as u32) == (c as u32) - 0x60),
        'A' <= c <= 'Z' ==> spec_ctrl_key(c) is None,
{
}

/// The kitty table's pairs send the same control character: space and `2`
/// NUL, `[` and `3` ESC, `\` and `4` FS, `]` and `5` GS, `^` and `6` RS, `/`
/// and `7` US, `?` and `8` DEL; `0` and `1` send themselves.
pub proof fn law_ctrl_pairs()
    ensures
        spec_ctrl_key(' ') == Some('\u{0}') && spec_ctrl_key('2') == Some('\u{0}'),
        spec_ctrl_key('[') == Some('\u{1b}') && spec_ctrl_key('3') == Some('\u{1b}'),
        spec_ctrl_key('\\') == Some('\u{1c}') && spec_ctrl_key('4') == Some('\u{1c}'),
        spec_ctrl_key(']') == Some('\u{1d}') && spec_ctrl_key('5') == Some('\u{1d}'),
        spec_ctrl_key('^') == Some('\u{1e}') && spec_ctrl_key('6') == Some('\u{1e}'),
        spec_ctrl_key('/') == Some('\u{1f}') && spec_ctrl_key('7') == Some('\u{1f}'),
        spec_ctrl_key('?') == Some('\u{7f}') && spec_ctrl_key('8') == Some('\u{7f}'),
        spec_ctrl_key('0') == Some('0') && spec_ctrl_key('1') == Some('1'),
        spec_ctrl_key('9') is None && spec_ctrl_key('@') is None,
{
}

/// `Alt` puts an `ESC` before what the key sends otherwise; without `Ctrl`
/// a typed key sends its own text, and with `Ctrl` a key that has a control
/// character sends that one character.
pub proof fn law_mod_key(key: Seq<char>, alt: bool, ctrl: bool)
    requires
        key.len() > 0,
    ensures
        spec_mod_key(key, true, ctrl) == seq!['\u{1b}'] + spec_mod_key(key, false, ctrl),
        spec_mod_key(key, false, false) == key,
        spec_ctrl_key(key[0]) matches Some(k) ==> spec_mod_key(key, false, true) == seq![k],
        spec_ctrl_key(key[0]) is None ==> spec_mod_key(key, false, true) == key,
{
}

/// The keys with fixed sequences: Enter a carriage return, Tab a tab,
/// Escape an `ESC`, Backspace DEL, Delete BS, and the arrows `ESC [ A` (up),
/// `B` (down), `C` (right) and `D` (left), whatever the modifiers.
pub proof fn law_legacy_fixed_keys(alt: bool, ctrl: bool)
    ensures
        spec_legacy_key(keybindings::Key::Enter, alt, ctrl) == seq!['\r'],
        spec_legacy_key(keybindings::Key::Tab, alt, ctrl) == seq!['\t'],
        spec_legacy_key(keybindings::Key::Escape, alt, ctrl) == seq!['\u{1b}'],
        spec_legacy_key(keybindings::Key::Backspace, alt, ctrl) == seq!['\u{7f}'],
        spec_legacy_key(keybindings::Key::Delete, alt, ctrl) == seq!['\u{8}'],
        spec_legacy_key(keybindings::Key::ArrowUp, alt, ctrl) == seq!['\u{1b}', '[', 'A'],
        spec_legacy_key(keybindings::Key::ArrowDown, alt, ctrl) == seq!['\u{1b}', '[', 'B'],
        spec_legacy_key(keybindings::Key::ArrowRight, alt, ctrl) == seq!['\u{1b}', '[', 'C'],
        spec_legacy_key(keybindings::Key::ArrowLeft, alt, ctrl) == seq!['\u{1b}', '[', 'D'],
{
}

/// A mouse report starts with `ESC [ <`; a press and a release at the same
/// place with the same button differ only in the last character, `M` for the
/// press and `m` for the release; the primary button is code 0, the middle
/// 1 and the secondary 2.
pub proof fn law_sgr_mouse_press_release(button: MouseButton, x: nat, y: nat)
    ensures
        spec_sgr_mouse(button, x, y, true).take(3) == seq!['\u{1b}', '[', '<'],
        spec_sgr_mouse(button, x, y, true).drop_last() == spec_sgr_mouse(button, x, y, false).drop_last(),
        spec_sgr_mouse(button, x, y, true).last() == 'M',
        spec_sgr_mouse(button, x, y, false).last() == 'm',
        mouse_code(MouseButton::Primary) == 0,
        mouse_code(MouseButton::Auxiliary) == 1,
        mouse_code(MouseButton::Secondary) == 2,
{
    let pre = seq!['\u{1b}', '[', '<'] + dec_string(mouse_code(button)) + seq![';'] + dec_string(x + 1) + seq![';']
        + dec_string(y + 1);
    assert(spec_sgr_mouse(button, x, y, true) =~= pre.push('M'));
    assert(spec_sgr_mouse(button, x, y, false) =~= pre.push('m'));
    assert(pre.take(3) =~= seq!['\u{1b}', '[', '<']);
    assert(pre.push('M').take(3) =~= pre.take(3));
}

} // verus!
