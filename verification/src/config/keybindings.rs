use vstd::prelude::*;
use crate::config::actions::TerminalAction;
use crate::text::{trim, trimmed, str_to_lowercase, lowercase, str_equal, parse_u32_str, parse_u32_text, split_on, split_str};

verus! {

/// A key of the keyboard, as key events and key bindings name it.
#[derive(Debug, PartialEq, Clone)]
pub enum Key {
    /// A key that types text.
    Character(String),
    Enter,
    Tab,
    Escape,
    Delete,
    Backspace,
    ArrowRight,
    ArrowLeft,
    ArrowUp,
    ArrowDown,
    /// Any other named key, by its name.
    Other(String),
}

impl Key {
    pub open spec fn spec_same(&self, other: &Key) -> bool {
        match (*self, *other) {
            (Key::Character(a), Key::Character(b)) => a@ == b@,
            (Key::Other(a), Key::Other(b)) => a@ == b@,
            (Key::Enter, Key::Enter) => true,
            (Key::Tab, Key::Tab) => true,
            (Key::Escape, Key::Escape) => true,
            (Key::Delete, Key::Delete) => true,
            (Key::Backspace, Key::Backspace) => true,
            (Key::ArrowRight, Key::ArrowRight) => true,
            (Key::ArrowLeft, Key::ArrowLeft) => true,
            (Key::ArrowUp, Key::ArrowUp) => true,
            (Key::ArrowDown, Key::ArrowDown) => true,
            _ => false,
        }
    }

    /// Whether two keys are the same key.
    pub fn same(&self, other: &Key) -> (b: bool)
        ensures
            b == self.spec_same(other),
    {
        match (self, other) {
            (Key::Character(a), Key::Character(b)) => str_equal(a.as_str(), b.as_str()),
            (Key::Other(a), Key::Other(b)) => str_equal(a.as_str(), b.as_str()),
            (Key::Enter, Key::Enter) => true,
            (Key::Tab, Key::Tab) => true,
            (Key::Escape, Key::Escape) => true,
            (Key::Delete, Key::Delete) => true,
            (Key::Backspace, Key::Backspace) => true,
            (Key::ArrowRight, Key::ArrowRight) => true,
            (Key::ArrowLeft, Key::ArrowLeft) => true,
            (Key::ArrowUp, Key::ArrowUp) => true,
            (Key::ArrowDown, Key::ArrowDown) => true,
            _ => false,
        }
    }
}

/// The named key that a stored key name stands for, if it is one.
pub open spec fn named_key(name: Seq<char>) -> Option<Key> {
    if name == "Enter"@ { Some(Key::Enter) }
    else if name == "Tab"@ { Some(Key::Tab) }
    else if name == "Escape"@ { Some(Key::Escape) }
    else if name == "Delete"@ { Some(Key::Delete) }
    else if name == "Backspace"@ { Some(Key::Backspace) }
    else if name == "ArrowRight"@ { Some(Key::ArrowRight) }
    else if name == "ArrowLeft"@ { Some(Key::ArrowLeft) }
    else if name == "ArrowUp"@ { Some(Key::ArrowUp) }
    else if name == "ArrowDown"@ { Some(Key::ArrowDown) }
    else { None }
}

/// `k` is the key that the stored name `name` reads as: the named key of
/// that name, or else the key that types the name.
pub open spec fn key_read_from(name: Seq<char>, k: Key) -> bool {
    match named_key(name) {
        Some(n) => k == n,
        None => k matches Key::Character(s) && s@ == name,
    }
}

/// The name under which a key is stored: a key that types text by its
/// text, a named key by its name.
pub open spec fn spec_key_name(k: Key) -> Seq<char> {
    match k {
        Key::Character(s) => s@,
        Key::Other(s) => s@,
        Key::Enter => "Enter"@,
        Key::Tab => "Tab"@,
        Key::Escape => "Escape"@,
        Key::Delete => "Delete"@,
        Key::Backspace => "Backspace"@,
        Key::ArrowRight => "ArrowRight"@,
        Key::ArrowLeft => "ArrowLeft"@,
        Key::ArrowUp => "ArrowUp"@,
        Key::ArrowDown => "ArrowDown"@,
    }
}

impl Key {
    /// The key a stored key name reads as.
    pub fn from_name(name: &str) -> (k: Key)
        ensures
            key_read_from(name@, k),
    {
        if str_equal(name, "Enter") { Key::Enter }
        else if str_equal(name, "Tab") { Key::Tab }
        else if str_equal(name, "Escape") { Key::Escape }
        else if str_equal(name, "Delete") { Key::Delete }
        else if str_equal(name, "Backspace") { Key::Backspace }
        else if str_equal(name, "ArrowRight") { Key::ArrowRight }
        else if str_equal(name, "ArrowLeft") { Key::ArrowLeft }
        else if str_equal(name, "ArrowUp") { Key::ArrowUp }
        else if str_equal(name, "ArrowDown") { Key::ArrowDown }
        else { Key::Character(name.to_owned()) }
    }

    /// The name under which the key is stored.
    pub fn name(&self) -> (s: String)
        ensures
            s@ == spec_key_name(*self),
    {
        match self {
            Key::Character(s) => s.clone(),
            Key::Other(s) => s.clone(),
            Key::Enter => "Enter".to_owned(),
            Key::Tab => "Tab".to_owned(),
            Key::Escape => "Escape".to_owned(),
            Key::Delete => "Delete".to_owned(),
            Key::Backspace => "Backspace".to_owned(),
            Key::ArrowRight => "ArrowRight".to_owned(),
            Key::ArrowLeft => "ArrowLeft".to_owned(),
            Key::ArrowUp => "ArrowUp".to_owned(),
            Key::ArrowDown => "ArrowDown".to_owned(),
        }
    }
}

/// Reading a key from a stored name and storing it again gives the same
/// name.
pub proof fn law_key_name_roundtrip(name: Seq<char>, k: Key)
    requires
        key_read_from(name, k),
    ensures
        spec_key_name(k) == name,
{
}

/// The modifier keys a binding can require.
#[derive(Debug, PartialEq, Eq, Structural, Clone, Copy)]
pub struct Modifiers {
    pub alt: bool,
    pub control: bool,
    pub meta: bool,
    pub shift: bool,
}

impl Modifiers {
    pub open spec fn spec_empty() -> Modifiers {
        Modifiers { alt: false, control: false, meta: false, shift: false }
    }

    pub fn empty() -> (m: Modifiers)
        ensures
            m == Modifiers::spec_empty(),
    {
        Modifiers { alt: false, control: false, meta: false, shift: false }
    }
}

/// The library's modifiers of a set of keyboard-types modifier bits: its
/// Alt (`0x1`), Control (`0x8`), Meta (`0x40`) and Shift (`0x200`) flags.
pub open spec fn modifiers_of_bits(bits: u32) -> Modifiers {
    Modifiers {
        alt: bits & 0x1 != 0,
        control: bits & 0x8 != 0,
        meta: bits & 0x40 != 0,
        shift: bits & 0x200 != 0,
    }
}

/// keyboard-types' `Modifiers::from_bits`, which bitflags writes: a value
/// exactly when `bits` sets none but the fourteen named flags (together
/// `0x3fff`). The value is read as the library's modifiers by its Alt,
/// Control, Meta and Shift flags.
#[verifier::external_body]
fn modifiers_from_bits(bits: u32) -> (r: Option<Modifiers>)
    ensures
        r == (if bits <= 0x3fff { Some(modifiers_of_bits(bits)) } else { None }),
{
    keyboard_types::Modifiers::from_bits(bits).map(|m| Modifiers {
        alt: m.contains(keyboard_types::Modifiers::ALT),
        control: m.contains(keyboard_types::Modifiers::CONTROL),
        meta: m.contains(keyboard_types::Modifiers::META),
        shift: m.contains(keyboard_types::Modifiers::SHIFT),
    })
}

/// The modifiers of both sets.
pub open spec fn modifiers_union(a: Modifiers, b: Modifiers) -> Modifiers {
    Modifiers { alt: a.alt || b.alt, control: a.control || b.control, meta: a.meta || b.meta, shift: a.shift || b.shift }
}

/// A part of a stored modifier list reads as a number whose bits are all
/// modifier flags.
pub open spec fn mod_part_ok(part: Seq<char>) -> bool {
    parse_u32_text(part) matches Some(b) && b <= 0x3fff
}

/// Every part of the comma-separated modifier list reads as modifier bits.
pub open spec fn mod_list_ok(s: Seq<char>) -> bool {
    forall|i: int| 0 <= i < split_on(s, ',').len() ==> #[trigger] mod_part_ok(split_on(s, ',')[i])
}

/// The modifiers of the parts, all together.
pub open spec fn mods_of_parts(parts: Seq<Seq<char>>) -> Modifiers
    decreases parts.len(),
{
    if parts.len() == 0 {
        Modifiers::spec_empty()
    } else {
        modifiers_union(mods_of_parts(parts.drop_last()), modifiers_of_bits(parse_u32_text(parts.last())->Some_0))
    }
}

/// Reads the modifiers a key binding row stores: comma-separated numbers,
/// each a set of modifier bits, all of them together.
pub fn to_mod(s: String) -> (m: Modifiers)
    requires
        mod_list_ok(s@),
    ensures
        m == mods_of_parts(split_on(s@, ',')),
{
    let parts = split_str(s.as_str(), ',');
    let ghost ps = parts@.map_values(|p: String| p@);
    let mut m = Modifiers::empty();
    let mut i: usize = 0;
    while i < parts.len()
        invariant
            i <= parts@.len(),
            ps == parts@.map_values(|p: String| p@),
            ps == split_on(s@, ','),
            mod_list_ok(s@),
            m == mods_of_parts(ps.take(i as int)),
        decreases parts.len() - i,
    {
        assert(ps[i as int] == parts@[i as int]@);
        assert(mod_part_ok(ps[i as int]));
        let bits = match parse_u32_str(parts[i].as_str()) {
            Some(b) => b,
            None => {
                assert(false);
                0
            },
        };
        let add = match modifiers_from_bits(bits) {
            Some(a) => a,
            None => {
                assert(false);
                Modifiers::empty()
            },
        };
        m = Modifiers {
            alt: m.alt || add.alt,
            control: m.control || add.control,
            meta: m.meta || add.meta,
            shift: m.shift || add.shift,
        };
        assert(ps.take(i + 1).drop_last() =~= ps.take(i as int));
        i = i + 1;
    }
    assert(ps.take(i as int) =~= ps);
    m
}

/// A key binding: pressing `key` with exactly `modifiers` performs `action`.
#[derive(Debug, PartialEq, Clone)]
pub struct Keybinding {
    pub key: Key,
    pub modifiers: Modifiers,
    pub action: TerminalAction,
}

impl Keybinding {
    /// The binding a new row of the key binding editor starts with.
    pub fn default() -> (k: Keybinding)
        ensures
            k.key matches Key::Character(s) && s@.len() == 0,
            k.modifiers == Modifiers::spec_empty(),
            k.action == TerminalAction::NoAction,
    {
        Keybinding { key: Key::Character(String::new()), modifiers: Modifiers::empty(), action: TerminalAction::NoAction }
    }
}

/// A key binding as the key binding file stores it.
#[derive(Debug, PartialEq, Clone)]
pub struct RawKeybinding {
    pub key: String,
    pub modifiers: Vec<String>,
    pub action: TerminalAction,
}

/// The key binding file.
#[derive(Debug, PartialEq, Clone)]
pub struct RawKeybinds {
    pub keybinds: Vec<RawKeybinding>,
}

/// The modifiers after reading one more stored modifier name: `control`,
/// `alt`, `meta` and `shift` (any case, surrounding space ignored) each add
/// their modifier; other names change nothing.
pub open spec fn add_modifier_name(m: Modifiers, name: Seq<char>) -> Modifiers {
    let n = lowercase(trimmed(name));
    if n == "control"@ {
        Modifiers { control: true, ..m }
    } else if n == "alt"@ {
        Modifiers { alt: true, ..m }
    } else if n == "meta"@ {
        Modifiers { meta: true, ..m }
    } else if n == "shift"@ {
        Modifiers { shift: true, ..m }
    } else {
        m
    }
}

/// The modifiers named by a list of stored names.
pub open spec fn modifiers_from_names(names: Seq<Seq<char>>) -> Modifiers
    decreases names.len(),
{
    if names.len() == 0 {
        Modifiers::spec_empty()
    } else {
        add_modifier_name(modifiers_from_names(names.drop_last()), names.last())
    }
}

pub open spec fn string_views(v: Seq<String>) -> Seq<Seq<char>> {
    v.map_values(|s: String| s@)
}

/// Reads the stored modifier names of a key binding.
pub fn parse_modifiers(names: &Vec<String>) -> (m: Modifiers)
    ensures
        m == modifiers_from_names(string_views(names@)),
{
    let mut m = Modifiers::empty();
    let mut i: usize = 0;
    while i < names.len()
        invariant
            i <= names@.len(),
            m == modifiers_from_names(string_views(names@).take(i as int)),
        decreases names.len() - i,
    {
        let lowered = str_to_lowercase(trim(names[i].as_str()));
        let n = lowered.as_str();
        proof {
            reveal_strlit("control");
            reveal_strlit("alt");
            reveal_strlit("meta");
            reveal_strlit("shift");
        }
        if str_equal(n, "control") {
            m.control = true;
        } else if str_equal(n, "alt") {
            m.alt = true;
        } else if str_equal(n, "meta") {
            m.meta = true;
        } else if str_equal(n, "shift") {
            m.shift = true;
        }
        assert(string_views(names@).take(i + 1).drop_last() =~= string_views(names@).take(i as int));
        i = i + 1;
    }
    assert(string_views(names@).take(i as int) =~= string_views(names@));
    m
}

/// The names under which the modifiers are stored, in flag order.
pub open spec fn modifier_names(m: Modifiers) -> Seq<Seq<char>> {
    (if m.alt { seq!["ALT"@] } else { Seq::empty() })
        + (if m.control { seq!["CONTROL"@] } else { Seq::empty() })
        + (if m.meta { seq!["META"@] } else { Seq::empty() })
        + (if m.shift { seq!["SHIFT"@] } else { Seq::empty() })
}

/// The stored names of a set of modifiers.
pub fn names_of_modifiers(m: Modifiers) -> (v: Vec<String>)
    ensures
        string_views(v@) == modifier_names(m),
{
    let mut v: Vec<String> = Vec::new();
    if m.alt {
        v.push("ALT".to_owned());
    }
    if m.control {
        v.push("CONTROL".to_owned());
    }
    if m.meta {
        v.push("META".to_owned());
    }
    if m.shift {
        v.push("SHIFT".to_owned());
    }
    assert(string_views(v@) =~= modifier_names(m));
    v
}

proof fn lemma_stored_name(upper: Seq<char>, lower: Seq<char>)
    requires
        upper.len() == lower.len(),
        upper.len() > 0,
        forall|i: int| 0 <= i < upper.len() ==> 'A' <= #[trigger] upper[i] <= 'Z' && lower[i] == ((upper[i] as u32) + 32) as char,
    ensures
        lowercase(trimmed(upper)) == lower,
{
    assert(!crate::text::is_white(upper[0]));
    assert(crate::text::trim_start(upper) == upper);
    assert(!crate::text::is_white(upper.last()));
    assert(crate::text::trim_end(upper) == upper);
    assert(crate::text::all_ascii(upper));
    assert(upper.map_values(|c: char| crate::text::ascii_lower(c)) =~= lower);
}

/// Storing the modifiers of a binding by name and reading the names back
/// gives the same modifiers.
pub proof fn law_modifier_names_roundtrip(m: Modifiers)
    ensures
        modifiers_from_names(modifier_names(m)) == m,
{
    reveal_strlit("ALT");
    reveal_strlit("CONTROL");
    reveal_strlit("META");
    reveal_strlit("SHIFT");
    reveal_strlit("alt");
    reveal_strlit("control");
    reveal_strlit("meta");
    reveal_strlit("shift");
    lemma_stored_name("ALT"@, "alt"@);
    lemma_stored_name("CONTROL"@, "control"@);
    lemma_stored_name("META"@, "meta"@);
    lemma_stored_name("SHIFT"@, "shift"@);
    let names = modifier_names(m);
    reveal_with_fuel(modifiers_from_names, 5);
    let a = if m.alt { seq!["ALT"@] } else { Seq::<Seq<char>>::empty() };
    let c = a + if m.control { seq!["CONTROL"@] } else { Seq::<Seq<char>>::empty() };
    let t = c + if m.meta { seq!["META"@] } else { Seq::<Seq<char>>::empty() };
    assert(names == t + if m.shift { seq!["SHIFT"@] } else { Seq::<Seq<char>>::empty() });
    if m.shift { assert(names.drop_last() =~= t); } else { assert(names =~= t); }
    if m.meta { assert(t.drop_last() =~= c); } else { assert(t =~= c); }
    if m.control { assert(c.drop_last() =~= a); } else { assert(c =~= a); }
    if m.alt { assert(a.drop_last() =~= Seq::<Seq<char>>::empty()); }
    assert("control"@.len() == 7 && "alt"@.len() == 3 && "meta"@.len() == 4 && "shift"@.len() == 5);
}

impl Keybinding {
    /// The binding a stored binding describes, given the key its key name
    /// reads as.
    pub fn from_raw(value: RawKeybinding, key: Key) -> (k: Keybinding)
        ensures
            k.key == key,
            k.modifiers == modifiers_from_names(string_views(value.modifiers@)),
            k.action == value.action,
    {
        let modifiers = parse_modifiers(&value.modifiers);
        Keybinding { key, modifiers, action: value.action }
    }

    /// The binding as it is stored, given the name of its key.
    pub fn to_raw(self, key_name: String) -> (r: RawKeybinding)
        ensures
            r.key == key_name,
            string_views(r.modifiers@) == modifier_names(self.modifiers),
            r.action == self.action,
    {
        RawKeybinding { key: key_name, modifiers: names_of_modifiers(self.modifiers), action: self.action }
    }
}

/// The stored names of the keys with names of their own, as the keyboard
/// standard spells them; a typed key is stored by its text.
pub proof fn law_key_names(t: String)
    ensures
        spec_key_name(Key::Enter) == "Enter"@,
        spec_key_name(Key::Tab) == "Tab"@,
        spec_key_name(Key::Escape) == "Escape"@,
        spec_key_name(Key::Delete) == "Delete"@,
        spec_key_name(Key::Backspace) == "Backspace"@,
        spec_key_name(Key::ArrowRight) == "ArrowRight"@,
        spec_key_name(Key::ArrowLeft) == "ArrowLeft"@,
        spec_key_name(Key::ArrowUp) == "ArrowUp"@,
        spec_key_name(Key::ArrowDown) == "ArrowDown"@,
        spec_key_name(Key::Character(t)) == t@,
{
}

/// Each modifier is stored under its own name, in the order Alt, Control,
/// Meta, Shift.
pub proof fn law_modifier_names_each()
    ensures
        modifier_names(Modifiers { alt: true, control: false, meta: false, shift: false }) == seq!["ALT"@],
        modifier_names(Modifiers { alt: false, control: true, meta: false, shift: false }) == seq!["CONTROL"@],
        modifier_names(Modifiers { alt: false, control: false, meta: true, shift: false }) == seq!["META"@],
        modifier_names(Modifiers { alt: false, control: false, meta: false, shift: true }) == seq!["SHIFT"@],
        modifier_names(Modifiers { alt: true, control: true, meta: true, shift: true })
            == seq!["ALT"@, "CONTROL"@, "META"@, "SHIFT"@],
        modifier_names(Modifiers::spec_empty()) == Seq::<Seq<char>>::empty(),
{
    assert(modifier_names(Modifiers { alt: true, control: false, meta: false, shift: false }) =~= seq!["ALT"@]);
    assert(modifier_names(Modifiers { alt: false, control: true, meta: false, shift: false }) =~= seq!["CONTROL"@]);
    assert(modifier_names(Modifiers { alt: false, control: false, meta: true, shift: false }) =~= seq!["META"@]);
    assert(modifier_names(Modifiers { alt: false, control: false, meta: false, shift: true }) =~= seq!["SHIFT"@]);
    assert(modifier_names(Modifiers { alt: true, control: true, meta: true, shift: true })
        =~= seq!["ALT"@, "CONTROL"@, "META"@, "SHIFT"@]);
    assert(modifier_names(Modifiers::spec_empty()) =~= Seq::<Seq<char>>::empty());
}

} // verus!
