//! The named colour palettes the settings editor works on: creating a
//! palette from the built-in one, deleting one, and changing one colour of
//! one palette.

use vstd::prelude::*;
use crate::config::colour_pal::{default_pal, default_pal_map, Palette};
use crate::config::keybindings::string_views;

verus! {

/// The palette of the first entry named `k`.
pub open spec fn lookup_pal(s: Seq<(String, Palette)>, k: Seq<char>) -> Option<Map<Seq<char>, Seq<char>>>
    decreases s.len(),
{
    if s.len() == 0 {
        None
    } else if s[0].0@ == k {
        Some(s[0].1@)
    } else {
        lookup_pal(s.drop_first(), k)
    }
}

pub open spec fn names_unique(s: Seq<(String, Palette)>) -> bool {
    forall|i: int, j: int| 0 <= i < j < s.len() ==> s[i].0@ != s[j].0@
}

proof fn lemma_lookup_skip(s: Seq<(String, Palette)>, k: Seq<char>, i: int)
    requires
        0 <= i <= s.len(),
        forall|j: int| 0 <= j < i ==> s[j].0@ != k,
    ensures
        lookup_pal(s, k) == lookup_pal(s.skip(i), k),
    decreases i,
{
    if i > 0 {
        assert(s[0].0@ != k);
        assert forall|j: int| 0 <= j < i - 1 implies s.drop_first()[j].0@ != k by {
            assert(s.drop_first()[j] == s[j + 1]);
        }
        lemma_lookup_skip(s.drop_first(), k, i - 1);
        assert(s.drop_first().skip(i - 1) =~= s.skip(i));
    } else {
        assert(s.skip(0) =~= s);
    }
}

proof fn lemma_lookup_none(s: Seq<(String, Palette)>, k: Seq<char>)
    requires
        forall|j: int| 0 <= j < s.len() ==> s[j].0@ != k,
    ensures
        lookup_pal(s, k) is None,
    decreases s.len(),
{
    if s.len() > 0 {
        assert(s[0].0@ != k);
        assert forall|j: int| 0 <= j < s.len() - 1 implies s.drop_first()[j].0@ != k by {
            assert(s.drop_first()[j] == s[j + 1]);
        }
        lemma_lookup_none(s.drop_first(), k);
    }
}

/// In a list without repeated names, the entry at `i` is what its name
/// finds, and any other name finds what it found before the entry was
/// replaced or dropped.
proof fn lemma_lookup_at(s: Seq<(String, Palette)>, i: int)
    requires
        0 <= i < s.len(),
        names_unique(s),
    ensures
        lookup_pal(s, s[i].0@) == Some(s[i].1@),
{
    lemma_lookup_skip(s, s[i].0@, i);
    assert(s.skip(i)[0] == s[i]);
}

/// With unique names, a name finds an entry exactly when some entry has it.
proof fn lemma_lookup_iff(s: Seq<(String, Palette)>, k: Seq<char>)
    requires
        names_unique(s),
    ensures
        lookup_pal(s, k) is Some <==> exists|i: int| 0 <= i < s.len() && s[i].0@ == k,
        forall|i: int| 0 <= i < s.len() && s[i].0@ == k ==> lookup_pal(s, k) == Some(s[i].1@),
{
    if exists|i: int| 0 <= i < s.len() && s[i].0@ == k {
        let i = choose|i: int| 0 <= i < s.len() && s[i].0@ == k;
        lemma_lookup_at(s, i);
    } else {
        lemma_lookup_none(s, k);
    }
    assert forall|i: int| 0 <= i < s.len() && s[i].0@ == k implies lookup_pal(s, k) == Some(s[i].1@) by {
        lemma_lookup_at(s, i);
    }
}

/// The palettes by name.
pub struct PaletteSet {
    entries: Vec<(String, Palette)>,
}

impl View for PaletteSet {
    type V = Map<Seq<char>, Map<Seq<char>, Seq<char>>>;

    closed spec fn view(&self) -> Map<Seq<char>, Map<Seq<char>, Seq<char>>> {
        Map::new(|k: Seq<char>| lookup_pal(self.entries@, k) is Some, |k: Seq<char>| lookup_pal(self.entries@, k)->Some_0)
    }
}

impl PaletteSet {
    /// The names, in the order the palettes were added.
    pub closed spec fn spec_names(&self) -> Seq<Seq<char>> {
        self.entries@.map_values(|e: (String, Palette)| e.0@)
    }

    /// No two palettes share a name.
    #[verifier::type_invariant]
    pub closed spec fn wf(&self) -> bool {
        names_unique(self.entries@)
    }

    proof fn lemma_view(&self, k: Seq<char>)
        requires
            self.wf(),
        ensures
            self@.contains_key(k) <==> exists|i: int| 0 <= i < self.entries@.len() && self.entries@[i].0@ == k,
            forall|i: int| 0 <= i < self.entries@.len() && self.entries@[i].0@ == k ==> self@[k] == self.entries@[i].1@,
    {
        lemma_lookup_iff(self.entries@, k);
    }

    /// No palettes.
    pub fn new() -> (s: PaletteSet)
        ensures
            s@ == Map::<Seq<char>, Map<Seq<char>, Seq<char>>>::empty(),
    {
        let s = PaletteSet { entries: Vec::new() };
        assert(s@ =~= Map::<Seq<char>, Map<Seq<char>, Seq<char>>>::empty());
        s
    }

    /// The palettes the application starts with before it reads any file:
    /// the built-in one, named `default`.
    pub fn with_default() -> (s: PaletteSet)
        ensures
            s@ == Map::<Seq<char>, Map<Seq<char>, Seq<char>>>::empty().insert("default"@, default_pal_map()),
    {
        let mut s = PaletteSet::new();
        s.insert("default".to_owned(), default_pal());
        s
    }

    pub fn len(&self) -> (n: usize)
        ensures
            n == self.spec_names().len(),
    {
        self.entries.len()
    }

    /// The names of the palettes, in order.
    pub fn names(&self) -> (v: Vec<String>)
        ensures
            string_views(v@) == self.spec_names(),
    {
        let mut v: Vec<String> = Vec::new();
        let mut i: usize = 0;
        while i < self.entries.len()
            invariant
                i <= self.entries@.len(),
                string_views(v@) == self.spec_names().take(i as int),
            decreases self.entries.len() - i,
        {
            let ghost before = v@;
            v.push(self.entries[i].0.clone());
            assert(string_views(v@) =~= string_views(before).push(self.entries@[i as int].0@));
            assert(self.spec_names().take(i + 1) =~= self.spec_names().take(i as int).push(self.spec_names()[i as int]));
            i = i + 1;
        }
        assert(self.spec_names().take(i as int) =~= self.spec_names());
        v
    }

    fn position(&self, name: &str) -> (r: Option<usize>)
        ensures
            match r {
                Some(i) => i < self.entries@.len() && self.entries@[i as int].0@ == name@,
                None => forall|j: int| 0 <= j < self.entries@.len() ==> self.entries@[j].0@ != name@,
            },
    {
        let k = name.to_owned();
        let mut i: usize = 0;
        while i < self.entries.len()
            invariant
                i <= self.entries@.len(),
                k@ == name@,
                forall|j: int| 0 <= j < i ==> self.entries@[j].0@ != name@,
            decreases self.entries.len() - i,
        {
            if self.entries[i].0 == k {
                return Some(i);
            }
            i = i + 1;
        }
        None
    }

    /// The palette named `name`.
    pub fn get(&self, name: &str) -> (r: Option<&Palette>)
        ensures
            match r {
                Some(p) => self@.contains_key(name@) && self@[name@] == p@,
                None => !self@.contains_key(name@),
            },
    {
        proof {
            use_type_invariant(self);
            self.lemma_view(name@);
        }
        match self.position(name) {
            Some(i) => Some(&self.entries[i].1),
            None => None,
        }
    }

    /// Stores `pal` under `name`, replacing a palette of that name.
    pub fn insert(&mut self, name: String, pal: Palette)
        ensures
            final(self)@ == old(self)@.insert(name@, pal@),
    {
        proof {
            use_type_invariant(&*self);
        }
        let ghost k = name@;
        let ghost pv = pal@;
        let ghost olds = self.entries@;
        let pos = self.position(name.as_str());
        let mut entries: Vec<(String, Palette)> = Vec::new();
        std::mem::swap(&mut entries, &mut self.entries);
        let ghost mut w: int = 0;
        match pos {
            Some(i) => {
                entries.set(i, (name, pal));
                proof {
                    w = i as int;
                }
            },
            None => {
                entries.push((name, pal));
                proof {
                    w = olds.len() as int;
                }
            },
        }
        let ghost news = entries@;
        proof {
            assert(news[w].0@ == k && news[w].1@ == pv);
            assert(forall|j: int| 0 <= j < olds.len() && j != w ==> #[trigger] news[j] == olds[j]);
            assert(names_unique(news)) by {
                assert forall|a: int, b: int| 0 <= a < b < news.len() implies news[a].0@ != news[b].0@ by {
                    if a != w && b != w {
                        assert(news[a] == olds[a]);
                        assert(news[b] == olds[b]);
                    } else if a == w {
                        assert(news[b] == olds[b]);
                    } else {
                        assert(news[a] == olds[a]);
                    }
                }
            }
        }
        self.entries = entries;
        assert forall|key: Seq<char>| #[trigger] self@.contains_key(key) == old(self)@.insert(k, pv).contains_key(key)
            && (self@.contains_key(key) ==> self@[key] == old(self)@.insert(k, pv)[key]) by {
            lemma_lookup_iff(olds, key);
            lemma_lookup_iff(news, key);
            if key == k {
                assert(news[w].0@ == key);
            } else {
                if exists|j: int| 0 <= j < olds.len() && olds[j].0@ == key {
                    let j = choose|j: int| 0 <= j < olds.len() && olds[j].0@ == key;
                    assert(news[j] == olds[j]);
                }
                if exists|j: int| 0 <= j < news.len() && news[j].0@ == key {
                    let j = choose|j: int| 0 <= j < news.len() && news[j].0@ == key;
                    assert(news[j] == olds[j]);
                }
            }
        }
        assert(self@ =~= old(self)@.insert(k, pv));
    }

    /// Takes out the entry at `i`.
    fn take_at(&mut self, i: usize) -> (e: (String, Palette))
        requires
            i < old(self).spec_names().len(),
        ensures
            e.0@ == old(self).spec_names()[i as int],
            old(self)@.contains_key(e.0@),
            e.1@ == old(self)@[e.0@],
            final(self)@ == old(self)@.remove(e.0@),
    {
        proof {
            use_type_invariant(&*self);
        }
        let ghost olds = self.entries@;
        proof {
            lemma_lookup_at(olds, i as int);
        }
        let mut entries: Vec<(String, Palette)> = Vec::new();
        std::mem::swap(&mut entries, &mut self.entries);
        let e = entries.remove(i);
        let ghost news = entries@;
        proof {
            assert(forall|a: int| 0 <= a < news.len() ==> #[trigger] news[a] == if a < i { olds[a] } else { olds[a + 1] });
            assert(names_unique(news)) by {
                assert forall|a: int, b: int| 0 <= a < b < news.len() implies news[a].0@ != news[b].0@ by {
                    let oa = if a < i { a } else { a + 1 };
                    let ob = if b < i { b } else { b + 1 };
                    assert(news[a] == olds[oa]);
                    assert(news[b] == olds[ob]);
                }
            }
        }
        self.entries = entries;
        let ghost name = olds[i as int].0@;
        assert forall|key: Seq<char>| #[trigger] self@.contains_key(key) == old(self)@.remove(name).contains_key(key)
            && (self@.contains_key(key) ==> self@[key] == old(self)@.remove(name)[key]) by {
            lemma_lookup_iff(olds, key);
            lemma_lookup_iff(news, key);
            if exists|j: int| 0 <= j < olds.len() && olds[j].0@ == key {
                let j = choose|j: int| 0 <= j < olds.len() && olds[j].0@ == key;
                if key != name {
                    assert(j != i);
                    let nj = if j < i { j } else { j - 1 };
                    assert(news[nj] == olds[j]);
                }
            }
            if exists|j: int| 0 <= j < news.len() && news[j].0@ == key {
                let j = choose|j: int| 0 <= j < news.len() && news[j].0@ == key;
                let oj = if j < i { j } else { j + 1 };
                assert(news[j] == olds[oj]);
                assert(oj != i);
            }
        }
        assert(self@ =~= old(self)@.remove(name));
        e
    }

    /// Deletes the palette named `name`, if there is one.
    pub fn remove(&mut self, name: &str)
        ensures
            final(self)@ == old(self)@.remove(name@),
    {
        proof {
            use_type_invariant(&*self);
            self.lemma_view(name@);
        }
        match self.position(name) {
            Some(i) => {
                let _ = self.take_at(i);
            },
            None => {
                assert(self@ =~= old(self)@.remove(name@));
            },
        }
    }

    /// The "create new" button: a palette named `name`, a copy of the
    /// built-in one, is added (replacing one of that name); an empty name
    /// creates nothing. Says whether a palette was created.
    pub fn create_new(&mut self, name: String) -> (created: bool)
        ensures
            created == (name@.len() != 0),
            created ==> final(self)@ == old(self)@.insert(name@, default_pal_map()),
            !created ==> final(self)@ == old(self)@,
    {
        if name.as_str().is_empty() {
            return false;
        }
        self.insert(name, default_pal());
        true
    }

    /// Sets the colour `key` of the palette `palette` to `value`.
    pub fn set_colour(&mut self, palette: &str, key: String, value: String)
        requires
            old(self)@.contains_key(palette@),
        ensures
            final(self)@ == old(self)@.insert(palette@, old(self)@[palette@].insert(key@, value@)),
    {
        proof {
            use_type_invariant(&*self);
            self.lemma_view(palette@);
        }
        match self.position(palette) {
            Some(i) => {
                let ghost m = self@;
                let (name, mut pal) = self.take_at(i);
                pal.insert(key, value);
                self.insert(name, pal);
                assert(self@ =~= m.insert(palette@, m[palette@].insert(key@, value@)));
            },
            None => {},
        }
    }

    /// The palettes with their names, in order.
    pub fn into_palettes(self) -> (v: Vec<(String, Palette)>)
        ensures
            v@.map_values(|e: (String, Palette)| e.0@) == self.spec_names(),
            forall|i: int| 0 <= i < v@.len() ==> self@.contains_key(#[trigger] v@[i].0@) && self@[v@[i].0@] == v@[i].1@,
    {
        proof {
            use_type_invariant(&self);
            assert forall|i: int| 0 <= i < self.entries@.len() implies self@.contains_key(#[trigger] self.entries@[i].0@)
                && self@[self.entries@[i].0@] == self.entries@[i].1@ by {
                lemma_lookup_at(self.entries@, i);
            }
        }
        self.entries
    }

    /// The colour `key` of the palette `palette`.
    pub fn colour(&self, palette: &str, key: &str) -> (c: &String)
        requires
            self@.contains_key(palette@),
            self@[palette@].contains_key(key@),
        ensures
            c@ == self@[palette@][key@],
    {
        match self.get(palette) {
            Some(p) => match p.get(key) {
                Some(c) => c,
                None => {
                    assert(false);
                    &self.entries[0].0
                },
            },
            None => {
                assert(false);
                &self.entries[0].0
            },
        }
    }
}

/// What the palette editor shows: the palettes, and the name of the one
/// being edited.
pub ghost struct EditorView {
    pub palettes: Map<Seq<char>, Map<Seq<char>, Seq<char>>>,
    pub editing: Seq<char>,
}

/// The palette editor of the settings: the palettes and the one picked for
/// editing, which starts as `default`.
pub struct PaletteEditor {
    palettes: PaletteSet,
    editing: String,
}

impl View for PaletteEditor {
    type V = EditorView;

    closed spec fn view(&self) -> EditorView {
        EditorView { palettes: self.palettes@, editing: self.editing@ }
    }
}

impl PaletteEditor {
    /// An editor over the palettes, editing the one named `default`.
    pub fn new(palettes: PaletteSet) -> (e: PaletteEditor)
        ensures
            e@ == (EditorView { palettes: palettes@, editing: "default"@ }),
    {
        PaletteEditor { palettes, editing: "default".to_owned() }
    }

    /// The palettes.
    pub fn palettes(&self) -> (p: &PaletteSet)
        ensures
            p@ == self@.palettes,
    {
        &self.palettes
    }

    /// The name of the palette being edited.
    pub fn editing(&self) -> (n: &String)
        ensures
            n@ == self@.editing,
    {
        &self.editing
    }

    /// A palette picked from the list becomes the one being edited.
    pub fn select(&mut self, name: String)
        ensures
            final(self)@ == (EditorView { editing: name@, ..old(self)@ }),
    {
        self.editing = name;
    }

    /// The "create new" button: with a name, a copy of the built-in palette
    /// is added under it (replacing one of that name) and becomes the one
    /// being edited; with an empty name nothing changes.
    pub fn create_new(&mut self, name: String)
        ensures
            name@.len() == 0 ==> final(self)@ == old(self)@,
            name@.len() != 0 ==> final(self)@ == (EditorView {
                palettes: old(self)@.palettes.insert(name@, default_pal_map()),
                editing: name@,
            }),
    {
        if name.as_str().is_empty() {
            return;
        }
        self.palettes.create_new(name.clone());
        self.editing = name;
    }

    /// The "delete palette" button: the palette being edited is deleted; the
    /// editor keeps its name.
    pub fn delete(&mut self)
        ensures
            final(self)@ == (EditorView { palettes: old(self)@.palettes.remove(old(self)@.editing), ..old(self)@ }),
    {
        self.palettes.remove(self.editing.as_str());
    }

    /// A colour of the palette being edited is changed.
    pub fn set_colour(&mut self, key: String, value: String)
        requires
            old(self)@.palettes.contains_key(old(self)@.editing),
        ensures
            final(self)@ == (EditorView {
                palettes: old(self)@.palettes.insert(
                    old(self)@.editing,
                    old(self)@.palettes[old(self)@.editing].insert(key@, value@),
                ),
                ..old(self)@
            }),
    {
        self.palettes.set_colour(self.editing.as_str(), key, value);
    }

    /// A colour of the palette being edited.
    pub fn colour(&self, key: &str) -> (c: &String)
        requires
            self@.palettes.contains_key(self@.editing),
            self@.palettes[self@.editing].contains_key(key@),
        ensures
            c@ == self@.palettes[self@.editing][key@],
    {
        self.palettes.colour(self.editing.as_str(), key)
    }

    /// The palettes, given back when the editor closes.
    pub fn into_palettes(self) -> (p: PaletteSet)
        ensures
            p@ == self@.palettes,
    {
        self.palettes
    }
}

/// Creating a palette and then changing one of its colours reads back the
/// new colour; its other colours are those of the built-in palette.
pub proof fn law_create_then_set_colour(
    m: Map<Seq<char>, Map<Seq<char>, Seq<char>>>,
    name: Seq<char>,
    key: Seq<char>,
    value: Seq<char>,
    other: Seq<char>,
)
    requires
        other != key,
    ensures
        ({
            let created = m.insert(name, default_pal_map());
            let set = created.insert(name, created[name].insert(key, value));
            &&& set[name][key] == value
            &&& set[name].contains_key(other) == default_pal_map().contains_key(other)
            &&& set[name][other] == default_pal_map()[other]
        }),
{
}

/// Deleting a palette leaves every other palette as it was.
pub proof fn law_remove_keeps_others(m: Map<Seq<char>, Map<Seq<char>, Seq<char>>>, name: Seq<char>, other: Seq<char>)
    requires
        other != name,
    ensures
        !m.remove(name).contains_key(name),
        m.remove(name).contains_key(other) == m.contains_key(other),
        m.remove(name)[other] == m[other],
{
}

} // verus!
