//! A map from strings to strings that keeps its entries in insertion order.

use vstd::prelude::*;

verus! {

/// The value of the first entry with key `k`.
pub open spec fn lookup(s: Seq<(String, String)>, k: Seq<char>) -> Option<Seq<char>>
    decreases s.len(),
{
    if s.len() == 0 {
        None
    } else if s[0].0@ == k {
        Some(s[0].1@)
    } else {
        lookup(s.drop_first(), k)
    }
}

/// No two entries share a key.
pub open spec fn keys_unique(s: Seq<(String, String)>) -> bool {
    forall|i: int, j: int| 0 <= i < j < s.len() ==> s[i].0@ != s[j].0@
}

/// The map that the entries stand for.
pub open spec fn entries_map(s: Seq<(String, String)>) -> Map<Seq<char>, Seq<char>> {
    Map::new(|k: Seq<char>| lookup(s, k) is Some, |k: Seq<char>| lookup(s, k)->Some_0)
}

pub proof fn lemma_lookup_first(s: Seq<(String, String)>, k: Seq<char>, i: int)
    requires
        0 <= i <= s.len(),
        forall|j: int| 0 <= j < i ==> s[j].0@ != k,
    ensures
        lookup(s, k) == lookup(s.skip(i), k),
    decreases i,
{
    if i > 0 {
        assert(s[0].0@ != k);
        assert forall|j: int| 0 <= j < i - 1 implies s.drop_first()[j].0@ != k by {
            assert(s.drop_first()[j] == s[j + 1]);
        }
        lemma_lookup_first(s.drop_first(), k, i - 1);
        assert(s.drop_first().skip(i - 1) =~= s.skip(i));
    } else {
        assert(s.skip(0) =~= s);
    }
}

pub proof fn lemma_lookup_push(s: Seq<(String, String)>, p: (String, String), k: Seq<char>)
    ensures
        lookup(s.push(p), k) == (if lookup(s, k) is Some { lookup(s, k) } else if p.0@ == k { Some(p.1@) } else { None }),
    decreases s.len(),
{
    reveal_with_fuel(lookup, 2);
    if s.len() > 0 {
        lemma_lookup_push(s.drop_first(), p, k);
        assert(s.push(p).drop_first() =~= s.drop_first().push(p));
        assert(s.push(p)[0] == s[0]);
    } else {
        assert(s.push(p).drop_first().len() == 0);
    }
}

pub proof fn lemma_lookup_update(s: Seq<(String, String)>, i: int, p: (String, String), k: Seq<char>)
    requires
        0 <= i < s.len(),
        p.0@ == s[i].0@,
        forall|j: int| 0 <= j < i ==> s[j].0@ != s[i].0@,
    ensures
        lookup(s.update(i, p), k) == (if k == p.0@ { Some(p.1@) } else { lookup(s, k) }),
    decreases i,
{
    if i > 0 {
        assert(s[0].0@ != s[i].0@);
        assert forall|j: int| 0 <= j < i - 1 implies (#[trigger] s.drop_first()[j]).0@ != s.drop_first()[i - 1].0@ by {
            assert(s.drop_first()[j] == s[j + 1]);
        }
        lemma_lookup_update(s.drop_first(), i - 1, p, k);
        assert(s.update(i, p).drop_first() =~= s.drop_first().update(i - 1, p));
        assert(s.update(i, p)[0] == s[0]);
    } else {
        assert(s.update(i, p).drop_first() =~= s.drop_first());
        assert(s.update(i, p)[0] == p);
    }
}

pub proof fn lemma_lookup_absent(s: Seq<(String, String)>, k: Seq<char>)
    requires
        forall|j: int| 0 <= j < s.len() ==> s[j].0@ != k,
    ensures
        lookup(s, k) is None,
    decreases s.len(),
{
    if s.len() > 0 {
        assert(s[0].0@ != k);
        assert forall|j: int| 0 <= j < s.len() - 1 implies s.drop_first()[j].0@ != k by {
            assert(s.drop_first()[j] == s[j + 1]);
        }
        lemma_lookup_absent(s.drop_first(), k);
    }
}

pub proof fn lemma_lookup_at(s: Seq<(String, String)>, i: int)
    requires
        0 <= i < s.len(),
        keys_unique(s),
    ensures
        lookup(s, s[i].0@) == Some(s[i].1@),
{
    lemma_lookup_first(s, s[i].0@, i);
    assert(s.skip(i)[0] == s[i]);
}

/// A string-keyed map whose entries keep the order in which keys were
/// first inserted.
pub struct StrMap {
    entries: Vec<(String, String)>,
}

impl View for StrMap {
    type V = Map<Seq<char>, Seq<char>>;

    closed spec fn view(&self) -> Map<Seq<char>, Seq<char>> {
        entries_map(self.entries@)
    }
}

impl StrMap {
    /// The entries, in order.
    pub closed spec fn entries(&self) -> Seq<(Seq<char>, Seq<char>)> {
        self.entries@.map_values(|e: (String, String)| (e.0@, e.1@))
    }

    /// No two entries share a key.
    #[verifier::type_invariant]
    pub closed spec fn wf(&self) -> bool {
        keys_unique(self.entries@)
    }

    /// Every key appears in exactly one entry, and the entries give the map.
    pub proof fn lemma_entries(&self)
        requires
            self.wf(),
        ensures
            forall|i: int, j: int| 0 <= i < j < self.entries().len() ==> self.entries()[i].0 != self.entries()[j].0,
            forall|i: int| 0 <= i < self.entries().len() ==> #[trigger] self@.contains_key(self.entries()[i].0)
                && self@[self.entries()[i].0] == self.entries()[i].1,
            forall|k: Seq<char>| #[trigger] self@.contains_key(k) ==> exists|i: int| 0 <= i < self.entries().len() && self.entries()[i].0 == k,
    {
        assert forall|i: int| 0 <= i < self.entries().len() implies #[trigger] self@.contains_key(self.entries()[i].0)
            && self@[self.entries()[i].0] == self.entries()[i].1 by {
            lemma_lookup_at(self.entries@, i);
        }
        assert forall|k: Seq<char>| #[trigger] self@.contains_key(k) implies exists|i: int| 0 <= i < self.entries().len() && self.entries()[i].0 == k by {
            if forall|j: int| 0 <= j < self.entries@.len() ==> self.entries@[j].0@ != k {
                lemma_lookup_absent(self.entries@, k);
            } else {
                let i = choose|j: int| 0 <= j < self.entries@.len() && self.entries@[j].0@ == k;
                assert(self.entries()[i].0 == k);
            }
        }
    }

    pub fn new() -> (m: StrMap)
        ensures
            m@ == Map::<Seq<char>, Seq<char>>::empty(),
            m.entries().len() == 0,
    {
        let m = StrMap { entries: Vec::new() };
        assert(m@ =~= Map::<Seq<char>, Seq<char>>::empty());
        m
    }

    pub fn len(&self) -> (n: usize)
        ensures
            n == self.entries().len(),
    {
        self.entries.len()
    }

    /// The key and value of the entry at `i`.
    pub fn entry_at(&self, i: usize) -> (r: (&String, &String))
        requires
            i < self.entries().len(),
        ensures
            r.0@ == self.entries()[i as int].0,
            r.1@ == self.entries()[i as int].1,
    {
        let e = &self.entries[i];
        (&e.0, &e.1)
    }

    fn position(&self, key: &str) -> (r: Option<usize>)
        ensures
            match r {
                Some(i) => i < self.entries@.len() && self.entries@[i as int].0@ == key@
                    && forall|j: int| 0 <= j < i ==> self.entries@[j].0@ != key@,
                None => forall|j: int| 0 <= j < self.entries@.len() ==> self.entries@[j].0@ != key@,
            },
    {
        let k = key.to_owned();
        let mut i: usize = 0;
        while i < self.entries.len()
            invariant
                i <= self.entries@.len(),
                k@ == key@,
                forall|j: int| 0 <= j < i ==> self.entries@[j].0@ != key@,
            decreases self.entries.len() - i,
        {
            if self.entries[i].0 == k {
                return Some(i);
            }
            i = i + 1;
        }
        None
    }

    /// The value stored under `key`.
    pub fn get(&self, key: &str) -> (r: Option<&String>)
        ensures
            match r {
                Some(v) => self@.contains_key(key@) && self@[key@] == v@,
                None => !self@.contains_key(key@),
            },
    {
        match self.position(key) {
            Some(i) => {
                proof {
                    use_type_invariant(self);
                    lemma_lookup_first(self.entries@, key@, i as int);
                    assert(self.entries@.skip(i as int)[0] == self.entries@[i as int]);
                }
                Some(&self.entries[i].1)
            },
            None => {
                proof {
                    lemma_lookup_absent(self.entries@, key@);
                }
                None
            },
        }
    }

    pub fn contains_key(&self, key: &str) -> (b: bool)
        ensures
            b == self@.contains_key(key@),
    {
        self.get(key).is_some()
    }

    /// Stores `value` under `key`: an existing entry keeps its place, a new
    /// key goes last.
    pub fn insert(&mut self, key: String, value: String)
        ensures
            final(self)@ == old(self)@.insert(key@, value@),
            old(self)@.contains_key(key@) ==> final(self).entries().len() == old(self).entries().len(),
            !old(self)@.contains_key(key@) ==> final(self).entries() == old(self).entries().push((key@, value@)),
    {
        proof {
            use_type_invariant(&*self);
        }
        let ghost old_entries = self.entries@;
        let pos = self.position(key.as_str());
        let mut entries: Vec<(String, String)> = Vec::new();
        std::mem::swap(&mut entries, &mut self.entries);
        match pos {
            Some(i) => {
                proof {
                    lemma_lookup_first(old_entries, key@, i as int);
                    assert(old_entries.skip(i as int)[0] == old_entries[i as int]);
                }
                let ghost p = (key, value);
                entries.set(i, (key, value));
                assert forall|k: Seq<char>| #[trigger] lookup(entries@, k) == (if k == p.0@ { Some(p.1@) } else { lookup(old_entries, k) }) by {
                    lemma_lookup_update(old_entries, i as int, p, k);
                }
                assert(keys_unique(entries@)) by {
                    assert forall|a: int, b: int| 0 <= a < b < entries@.len() implies entries@[a].0@ != entries@[b].0@ by {
                        assert(entries@[a].0@ == old_entries[a].0@);
                        assert(entries@[b].0@ == old_entries[b].0@);
                    }
                }
                self.entries = entries;
                assert(entries_map(self.entries@) =~= old(self)@.insert(p.0@, p.1@));
            },
            None => {
                proof {
                    lemma_lookup_absent(old_entries, key@);
                }
                let ghost p = (key, value);
                entries.push((key, value));
                assert forall|k: Seq<char>| #[trigger] lookup(entries@, k) == (if k == p.0@ { Some(p.1@) } else { lookup(old_entries, k) }) by {
                    lemma_lookup_push(old_entries, p, k);
                }
                assert(keys_unique(entries@)) by {
                    assert forall|a: int, b: int| 0 <= a < b < entries@.len() implies entries@[a].0@ != entries@[b].0@ by {
                        assert(entries@[a] == old_entries[a]);
                        if b < old_entries.len() {
                            assert(entries@[b] == old_entries[b]);
                        }
                    }
                }
                self.entries = entries;
                assert(entries_map(self.entries@) =~= old(self)@.insert(p.0@, p.1@));
                assert(self.entries() =~= old(self).entries().push((p.0@, p.1@)));
            },
        }
    }
}

} // verus!
