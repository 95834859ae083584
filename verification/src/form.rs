//! The values of the settings form, put together into one tree.
//!
//! Every field of the form is named by a path such as `keybinds[2].key.s`:
//! the last part is the kind of value (`s` text, `b` check box, `n`
//! number, anything else a list of texts), the part before it is the field
//! that receives the value, and the parts before that lead to it, each one
//! a field holding an object or, written `name[i]`, a field holding a list
//! and an entry of it. Starting from an empty object, each field of the form
//! is stored along its path in turn.

use vstd::prelude::*;
use crate::config::keybindings::string_views;
use crate::text::{push_char, str_equal};

verus! {

broadcast use vstd::std_specs::vec::group_vec_axioms;

// ---------------------------------------------------------------------
// Paths
// ---------------------------------------------------------------------

/// `s` split at every `.`.
pub open spec fn split_dot(s: Seq<char>) -> Seq<Seq<char>>
    decreases s.len(),
{
    if s.len() == 0 {
        seq![Seq::empty()]
    } else {
        let rest = split_dot(s.drop_last());
        if s.last() == '.' {
            rest.push(Seq::empty())
        } else {
            rest.update(rest.len() - 1, rest.last().push(s.last()))
        }
    }
}

proof fn lemma_split_dot_len(s: Seq<char>)
    ensures
        split_dot(s).len() >= 1,
    decreases s.len(),
{
    if s.len() > 0 {
        lemma_split_dot_len(s.drop_last());
    }
}

/// Splits a field's path at every `.`.
fn split_key(key: &str) -> (parts: Vec<String>)
    ensures
        string_views(parts@) == split_dot(key@),
{
    let n = key.unicode_len();
    let mut parts: Vec<String> = Vec::new();
    let mut cur = String::new();
    let mut i: usize = 0;
    assert(key@.take(0) =~= Seq::<char>::empty());
    assert(string_views(parts@).push(cur@) =~= split_dot(key@.take(0)));
    while i < n
        invariant
            i <= n,
            n == key@.len(),
            string_views(parts@).push(cur@) == split_dot(key@.take(i as int)),
        decreases n - i,
    {
        let c = key.get_char(i);
        let ghost before = string_views(parts@).push(cur@);
        assert(key@.take(i + 1).drop_last() =~= key@.take(i as int));
        assert(key@.take(i + 1).last() == c);
        proof {
            lemma_split_dot_len(key@.take(i as int));
        }
        if c == '.' {
            let done = cur;
            parts.push(done);
            cur = String::new();
            assert(string_views(parts@).push(cur@) =~= before.push(Seq::empty()));
        } else {
            let ghost p = parts@;
            push_char(&mut cur, c);
            assert(string_views(parts@).push(cur@) =~= before.update(before.len() - 1, before.last().push(c)));
        }
        i = i + 1;
    }
    assert(key@.take(n as int) =~= key@);
    let ghost before = string_views(parts@).push(cur@);
    parts.push(cur);
    assert(string_views(parts@) =~= before);
    parts
}

/// One step of a path, read from its text.
pub ghost enum SegView {
    /// A field holding an object.
    Field(Seq<char>),
    /// A field holding a list, and the index of an entry in it.
    Indexed(Seq<char>, nat),
}

/// One step of a path.
#[derive(Debug, PartialEq, Clone)]
pub enum Seg {
    Field(String),
    Indexed(String, usize),
}

impl View for Seg {
    type V = SegView;

    open spec fn view(&self) -> SegView {
        match self {
            Seg::Field(s) => SegView::Field(s@),
            Seg::Indexed(s, n) => SegView::Indexed(s@, *n as nat),
        }
    }
}

pub open spec fn is_ascii_digit(c: char) -> bool {
    '0' <= c <= '9'
}

/// The number the decimal digits `s` stand for.
pub open spec fn char_digits_value(s: Seq<char>) -> nat
    decreases s.len(),
{
    if s.len() == 0 {
        0
    } else {
        char_digits_value(s.drop_last()) * 10 + ((s.last() as int - '0' as int) as nat)
    }
}

/// The digits of a number: `s` without a leading `+`.
pub open spec fn unsigned_digits(s: Seq<char>) -> Seq<char> {
    if s.len() > 0 && s[0] == '+' { s.drop_first() } else { s }
}

/// `s.parse::<usize>()`: an optional `+`, then one or more ASCII digits,
/// within the range of `usize`.
pub open spec fn parse_usize_chars(s: Seq<char>) -> Option<nat> {
    let d = unsigned_digits(s);
    if d.len() > 0 && (forall|i: int| 0 <= i < d.len() ==> #[trigger] is_ascii_digit(d[i]))
        && char_digits_value(d) <= usize::MAX {
        Some(char_digits_value(d))
    } else {
        None
    }
}

proof fn lemma_digits_value_grows(s: Seq<char>, i: int, j: int)
    requires
        0 <= i <= j <= s.len(),
        forall|k: int| 0 <= k < s.len() ==> #[trigger] is_ascii_digit(s[k]),
    ensures
        char_digits_value(s.take(i)) <= char_digits_value(s.take(j)),
    decreases j - i,
{
    if i < j {
        lemma_digits_value_grows(s, i, j - 1);
        assert(s.take(j).drop_last() =~= s.take(j - 1));
    }
}

fn parse_usize(s: &Vec<char>) -> (r: Option<usize>)
    ensures
        match parse_usize_chars(s@) {
            Some(v) => r == Some(v as usize),
            None => r is None,
        },
{
    let start: usize = if s.len() > 0 && s[0] == '+' { 1 } else { 0 };
    let ghost d = unsigned_digits(s@);
    assert(d =~= s@.skip(start as int));
    if start >= s.len() {
        assert(d.len() == 0);
        return None;
    }
    let mut v: usize = 0;
    let mut i: usize = start;
    while i < s.len()
        invariant
            start <= i <= s@.len(),
            d == s@.skip(start as int),
            d == unsigned_digits(s@),
            forall|k: int| 0 <= k < i - start ==> #[trigger] is_ascii_digit(d[k]),
            v as nat == char_digits_value(d.take(i - start)),
        decreases s.len() - i,
    {
        let c = s[i];
        if !('0' <= c && c <= '9') {
            assert(!is_ascii_digit(d[i - start]));
            return None;
        }
        let digit = (c as u32 - '0' as u32) as usize;
        assert(d.take(i - start + 1).drop_last() =~= d.take(i - start));
        assert(d.take(i - start + 1).last() == c);
        if v > (usize::MAX - digit) / 10 {
            proof {
                assert(char_digits_value(d.take(i - start + 1)) == v * 10 + digit);
                assert(v * 10 + digit > usize::MAX) by (nonlinear_arith)
                    requires v > (usize::MAX - digit) / 10, digit <= 9;
                if forall|k: int| 0 <= k < d.len() ==> #[trigger] is_ascii_digit(d[k]) {
                    lemma_digits_value_grows(d, i - start + 1, d.len() as int);
                    assert(d.take(d.len() as int) =~= d);
                    assert(char_digits_value(d) > usize::MAX);
                }
                assert(parse_usize_chars(s@) is None);
            }
            return None;
        }
        assert(v * 10 + digit <= usize::MAX) by (nonlinear_arith)
            requires v <= (usize::MAX - digit) / 10, digit <= 9;
        v = v * 10 + digit;
        i = i + 1;
    }
    assert(d.take(i - start) =~= d);
    Some(v)
}

/// `s` back to front.
pub open spec fn reversed(s: Seq<char>) -> Seq<char> {
    Seq::new(s.len(), |i: int| s[s.len() - 1 - i])
}

/// The position of the last `[` in `s`.
pub open spec fn last_open(s: Seq<char>) -> Option<int>
    decreases s.len(),
{
    if s.len() == 0 {
        None
    } else if s.last() == '[' {
        Some(s.len() - 1)
    } else {
        last_open(s.drop_last())
    }
}

proof fn lemma_last_open(s: Seq<char>, j: int)
    requires
        0 <= j <= s.len(),
        forall|t: int| j <= t < s.len() ==> s[t] != '[',
    ensures
        last_open(s) == last_open(s.take(j)),
    decreases s.len() - j,
{
    if j < s.len() {
        lemma_last_open(s, j + 1);
        assert(s.take(j + 1).drop_last() =~= s.take(j));
    } else {
        assert(s.take(j) =~= s);
    }
}

/// A step read from its text: `name[i]` (the digits of `i` read in
/// reverse, as the form's reader takes them off the end) is an entry of a
/// list, anything else a field. A list index that is not a number cannot
/// be read.
pub open spec fn parse_seg(s: Seq<char>) -> Option<SegView> {
    if s.len() > 0 && s.last() == ']' {
        let body = s.drop_last();
        let name = match last_open(body) {
            Some(k) => body.take(k),
            None => Seq::empty(),
        };
        let digits = match last_open(body) {
            Some(k) => body.skip(k + 1),
            None => body,
        };
        match parse_usize_chars(reversed(digits)) {
            Some(n) => Some(SegView::Indexed(name, n)),
            None => None,
        }
    } else {
        Some(SegView::Field(s))
    }
}

/// Reads a step of a path from its text.
fn read_seg(s: &str) -> (r: Option<Seg>)
    ensures
        match parse_seg(s@) {
            Some(v) => r matches Some(g) && g@ == v,
            None => r is None,
        },
{
    let n = s.unicode_len();
    if n == 0 || s.get_char(n - 1) != ']' {
        return Some(Seg::Field(s.to_owned()));
    }
    let ghost body = s@.drop_last();
    let blen = n - 1;
    let mut j: usize = blen;
    while j > 0 && s.get_char(j - 1) != '['
        invariant
            j <= blen,
            blen == body.len(),
            n == s@.len(),
            blen + 1 == n,
            body == s@.drop_last(),
            forall|t: int| j <= t < body.len() ==> body[t] != '[',
        decreases j,
    {
        j = j - 1;
    }
    let found: Option<usize> = if j > 0 { Some(j - 1) } else { None };
    proof {
        lemma_last_open(body, j as int);
        if j == 0 {
            assert(body.take(0) =~= Seq::<char>::empty());
        } else {
            assert(body.take(j as int).last() == '[');
        }
    }
    let (lo, name) = match found {
        Some(k) => (k + 1, s.substring_char(0, k).to_owned()),
        None => (0, String::new()),
    };
    assert(lo <= blen);
    assert(found matches Some(k) ==> name@ =~= body.take(k as int));
    let ghost digits = body.skip(lo as int);
    let mut rev: Vec<char> = Vec::new();
    let mut t: usize = blen;
    while t > lo
        invariant
            lo <= t <= blen,
            blen == body.len(),
            n == s@.len(),
            blen + 1 == n,
            body == s@.drop_last(),
            digits == body.skip(lo as int),
            rev@ == Seq::new((blen - t) as nat, |i: int| body[blen - 1 - i]),
        decreases t,
    {
        let c = s.get_char(t - 1);
        assert(c == body[t - 1]);
        rev.push(c);
        assert(rev@ =~= Seq::new((blen - (t - 1)) as nat, |i: int| body[blen - 1 - i]));
        t = t - 1;
    }
    assert(rev@ =~= reversed(digits));
    match parse_usize(&rev) {
        Some(v) => Some(Seg::Indexed(name, v)),
        None => None,
    }
}

} // verus!

verus! {

// ---------------------------------------------------------------------
// The tree
// ---------------------------------------------------------------------

/// A value of the form's data, as a JSON value.
pub ghost enum TreeView {
    Null,
    Bool(bool),
    /// A number, by its text.
    Number(Seq<char>),
    Str(Seq<char>),
    Array(Seq<TreeView>),
    /// An object: its fields in order, no name twice.
    Object(Seq<(Seq<char>, TreeView)>),
}

/// A value of the form's data.
#[derive(Debug, PartialEq)]
pub enum FormTree {
    Null,
    Bool(bool),
    /// A number, by its text (always a valid JSON number).
    Number(String),
    Str(String),
    Array(Vec<FormTree>),
    Object(Vec<(String, FormTree)>),
}

impl FormTree {
    pub open spec fn spec_tree(&self) -> TreeView
        decreases self,
    {
        match self {
            FormTree::Null => TreeView::Null,
            FormTree::Bool(b) => TreeView::Bool(*b),
            FormTree::Number(s) => TreeView::Number(s@),
            FormTree::Str(s) => TreeView::Str(s@),
            FormTree::Array(v) => TreeView::Array(Seq::new(v@.len(), |i: int| if 0 <= i < v@.len() {
                v@[i].spec_tree()
            } else {
                TreeView::Null
            })),
            FormTree::Object(fs) => TreeView::Object(Seq::new(fs@.len(), |i: int| if 0 <= i < fs@.len() {
                (fs@[i].0@, fs@[i].1.spec_tree())
            } else {
                (Seq::empty(), TreeView::Null)
            })),
        }
    }
}

impl View for FormTree {
    type V = TreeView;

    open spec fn view(&self) -> TreeView {
        self.spec_tree()
    }
}

pub open spec fn trees_view(v: Seq<FormTree>) -> Seq<TreeView> {
    Seq::new(v.len(), |i: int| v[i]@)
}

pub open spec fn fields_view(fs: Seq<(String, FormTree)>) -> Seq<(Seq<char>, TreeView)> {
    Seq::new(fs.len(), |i: int| (fs[i].0@, fs[i].1@))
}

pub open spec fn opt_view(r: Option<FormTree>) -> Option<TreeView> {
    match r {
        Some(t) => Some(t@),
        None => None,
    }
}

proof fn lemma_array_view(v: Vec<FormTree>)
    ensures
        FormTree::Array(v)@ == TreeView::Array(trees_view(v@)),
{
    let s = Seq::new(v@.len(), |i: int| if 0 <= i < v@.len() { v@[i].spec_tree() } else { TreeView::Null });
    match FormTree::Array(v).spec_tree() {
        TreeView::Array(s2) => {
            assert(s2 =~= trees_view(v@));
        },
        _ => {
            assert(false);
        },
    }
}

proof fn lemma_object_view(fs: Vec<(String, FormTree)>)
    ensures
        FormTree::Object(fs)@ == TreeView::Object(fields_view(fs@)),
{
    let s = Seq::new(fs@.len(), |i: int| if 0 <= i < fs@.len() {
        (fs@[i].0@, fs@[i].1.spec_tree())
    } else {
        (Seq::<char>::empty(), TreeView::Null)
    });
    match FormTree::Object(fs).spec_tree() {
        TreeView::Object(s2) => {
            assert(s2 =~= fields_view(fs@));
        },
        _ => {
            assert(false);
        },
    }
}

// ---------------------------------------------------------------------
// Objects
// ---------------------------------------------------------------------

/// `i` is the first field named `k`.
pub open spec fn first_field(fs: Seq<(Seq<char>, TreeView)>, k: Seq<char>, i: int) -> bool {
    &&& 0 <= i < fs.len()
    &&& fs[i].0 == k
    &&& forall|j: int| 0 <= j < i ==> fs[j].0 != k
}

/// The position of the field named `k`.
pub open spec fn find_field(fs: Seq<(Seq<char>, TreeView)>, k: Seq<char>) -> Option<int> {
    if exists|i: int| first_field(fs, k, i) {
        Some(choose|i: int| first_field(fs, k, i))
    } else {
        None
    }
}

/// The field named `k`, added with value `d` when there is none, and its
/// position.
pub open spec fn entry_or_insert(fs: Seq<(Seq<char>, TreeView)>, k: Seq<char>, d: TreeView) -> (Seq<(Seq<char>, TreeView)>, int) {
    match find_field(fs, k) {
        Some(i) => (fs, i),
        None => (fs.push((k, d)), fs.len() as int),
    }
}

/// The object with field `k` set to `v`.
pub open spec fn field_set(fs: Seq<(Seq<char>, TreeView)>, k: Seq<char>, v: TreeView) -> Seq<(Seq<char>, TreeView)> {
    match find_field(fs, k) {
        Some(i) => fs.update(i, (k, v)),
        None => fs.push((k, v)),
    }
}

fn find_field_exec(fs: &Vec<(String, FormTree)>, k: &str) -> (r: Option<usize>)
    ensures
        match r {
            Some(i) => find_field(fields_view(fs@), k@) == Some(i as int) && i < fs@.len(),
            None => find_field(fields_view(fs@), k@) is None,
        },
{
    let ghost fv = fields_view(fs@);
    let mut i: usize = 0;
    while i < fs.len()
        invariant
            i <= fs@.len(),
            fv == fields_view(fs@),
            forall|j: int| 0 <= j < i ==> fv[j].0 != k@,
        decreases fs.len() - i,
    {
        if str_equal(fs[i].0.as_str(), k) {
            assert(first_field(fv, k@, i as int));
            proof {
                let c = choose|j: int| first_field(fv, k@, j);
                assert(c == i) by {
                    if c < i {
                        assert(fv[c].0 != k@);
                    }
                    if c > i {
                        assert(fv[i as int].0 != k@);
                    }
                }
            }
            return Some(i);
        }
        i = i + 1;
    }
    assert(!exists|j: int| first_field(fv, k@, j));
    None
}

fn entry_or_insert_exec(fs: &mut Vec<(String, FormTree)>, k: &str, d: FormTree) -> (i: usize)
    ensures
        fields_view(final(fs)@) == entry_or_insert(fields_view(old(fs)@), k@, d@).0,
        i as int == entry_or_insert(fields_view(old(fs)@), k@, d@).1,
        i < final(fs)@.len(),
{
    match find_field_exec(fs, k) {
        Some(i) => {
            assert(i as int == entry_or_insert(fields_view(old(fs)@), k@, d@).1);
            i
        },
        None => {
            let ghost dv = d@;
            let n = fs.len();
            fs.push((k.to_owned(), d));
            assert(fields_view(fs@) =~= fields_view(old(fs)@).push((k@, dv)));
            assert(fields_view(old(fs)@).len() == n);
            assert(n as int == entry_or_insert(fields_view(old(fs)@), k@, d@).1);
            n
        },
    }
}

fn field_set_exec(fs: &mut Vec<(String, FormTree)>, k: String, v: FormTree)
    ensures
        fields_view(final(fs)@) == field_set(fields_view(old(fs)@), k@, v@),
{
    let ghost kv = k@;
    let ghost vv = v@;
    match find_field_exec(fs, k.as_str()) {
        Some(i) => {
            fs.set(i, (k, v));
            assert(fields_view(fs@) =~= fields_view(old(fs)@).update(i as int, (kv, vv)));
        },
        None => {
            fs.push((k, v));
            assert(fields_view(fs@) =~= fields_view(old(fs)@).push((kv, vv)));
        },
    }
}

} // verus!

verus! {

// ---------------------------------------------------------------------
// Storing a value along a path
// ---------------------------------------------------------------------

pub open spec fn seg_views(p: Seq<Seg>) -> Seq<SegView> {
    Seq::new(p.len(), |i: int| p[i]@)
}

/// The list after storing `v` at index `n`: a list too short is first
/// filled up with nulls. An index too large to fill up to cannot be stored.
pub open spec fn store_in_list(arr: Seq<TreeView>, n: nat, v: TreeView) -> Option<Seq<TreeView>> {
    if n >= arr.len() {
        if n >= usize::MAX {
            None
        } else {
            Some((arr + Seq::new((n + 1 - arr.len()) as nat, |j: int| TreeView::Null)).update(n as int, v))
        }
    } else {
        Some(arr.update(n as int, v))
    }
}

/// The object `node` after storing `v` in its field `last`.
pub open spec fn store_last(node: TreeView, last: SegView, v: TreeView) -> Option<TreeView> {
    match node {
        TreeView::Object(fs) => match last {
            SegView::Field(name) => Some(TreeView::Object(field_set(fs, name, v))),
            SegView::Indexed(name, n) => {
                let (fs2, i) = entry_or_insert(fs, name, TreeView::Array(Seq::empty()));
                match fs2[i].1 {
                    TreeView::Array(arr) => match store_in_list(arr, n, v) {
                        Some(arr2) => Some(TreeView::Object(fs2.update(i, (fs2[i].0, TreeView::Array(arr2))))),
                        None => None,
                    },
                    _ => None,
                }
            },
        },
        _ => None,
    }
}

/// The list a path step `name[n]` goes into, with the entry it goes to:
/// when the list has at least `n` entries a new empty object is added at
/// its end first.
pub open spec fn list_for_step(arr: Seq<TreeView>, n: nat) -> Seq<TreeView> {
    if arr.len() >= n { arr.push(TreeView::Object(Seq::empty())) } else { arr }
}

/// `node` after storing `v` at the end of `path`, in field `last`: each
/// step goes into (and if need be adds) a field holding an object, or an
/// entry of a list. `None` where a step meets something else.
pub open spec fn store_at(node: TreeView, path: Seq<SegView>, last: SegView, v: TreeView) -> Option<TreeView>
    decreases path.len(),
{
    if path.len() == 0 {
        store_last(node, last, v)
    } else {
        match node {
            TreeView::Object(fs) => match path[0] {
                SegView::Field(name) => {
                    let (fs2, i) = entry_or_insert(fs, name, TreeView::Object(Seq::empty()));
                    match store_at(fs2[i].1, path.drop_first(), last, v) {
                        Some(c) => Some(TreeView::Object(fs2.update(i, (fs2[i].0, c)))),
                        None => None,
                    }
                },
                SegView::Indexed(name, n) => {
                    let (fs2, i) = entry_or_insert(fs, name, TreeView::Array(Seq::empty()));
                    match fs2[i].1 {
                        TreeView::Array(arr) => {
                            let arr2 = list_for_step(arr, n);
                            if n < arr2.len() {
                                match store_at(arr2[n as int], path.drop_first(), last, v) {
                                    Some(c) => Some(TreeView::Object(fs2.update(i, (fs2[i].0, TreeView::Array(arr2.update(n as int, c)))))),
                                    None => None,
                                }
                            } else {
                                None
                            }
                        },
                        _ => None,
                    }
                },
            },
            _ => None,
        }
    }
}

fn empty_array() -> (t: FormTree)
    ensures
        t@ == TreeView::Array(Seq::empty()),
{
    let v: Vec<FormTree> = Vec::new();
    proof {
        lemma_array_view(v);
        assert(trees_view(v@) =~= Seq::<TreeView>::empty());
    }
    FormTree::Array(v)
}

fn empty_object() -> (t: FormTree)
    ensures
        t@ == TreeView::Object(Seq::empty()),
{
    let v: Vec<(String, FormTree)> = Vec::new();
    proof {
        lemma_object_view(v);
        assert(fields_view(v@) =~= Seq::<(Seq<char>, TreeView)>::empty());
    }
    FormTree::Object(v)
}

fn store_last_exec(node: FormTree, last: &Seg, v: FormTree) -> (r: Option<FormTree>)
    ensures
        opt_view(r) == store_last(node@, last@, v@),
{
    match node {
        FormTree::Object(mut fs) => {
            proof {
                lemma_object_view(fs);
            }
            match last {
                Seg::Field(name) => {
                    field_set_exec(&mut fs, name.clone(), v);
                    proof {
                        lemma_object_view(fs);
                    }
                    Some(FormTree::Object(fs))
                },
                Seg::Indexed(name, n) => {
                    let ghost fv0 = fields_view(fs@);
                    let i = entry_or_insert_exec(&mut fs, name.as_str(), empty_array());
                    let ghost fv = fields_view(fs@);
                    let (k, child) = fs.remove(i);
                    match child {
                        FormTree::Array(mut arr) => {
                            proof {
                                lemma_array_view(arr);
                            }
                            let ghost a0 = trees_view(arr@);
                            let ghost vv = v@;
                            let n = *n;
                            if n >= arr.len() {
                                if n == usize::MAX {
                                    return None;
                                }
                                while arr.len() <= n
                                    invariant
                                        a0.len() <= arr@.len() <= n + 1,
                                        n < usize::MAX,
                                        trees_view(arr@) == a0 + Seq::new((arr@.len() - a0.len()) as nat, |j: int| TreeView::Null),
                                    decreases n + 1 - arr.len(),
                                {
                                    let ghost before = arr@;
                                    arr.push(FormTree::Null);
                                    assert(arr@[arr@.len() - 1]@ == TreeView::Null);
                                    assert(trees_view(arr@) =~= trees_view(before).push(TreeView::Null));
                                    assert(trees_view(arr@) =~= a0 + Seq::new((arr@.len() - a0.len()) as nat, |j: int| TreeView::Null));
                                }
                            }
                            let ghost filled = trees_view(arr@);
                            arr.set(n, v);
                            assert(trees_view(arr@) =~= filled.update(n as int, vv));
                            assert(store_in_list(a0, n as nat, vv) == Some(trees_view(arr@))) by {
                                if n >= a0.len() {
                                    assert(filled =~= a0 + Seq::new((n + 1 - a0.len()) as nat, |j: int| TreeView::Null));
                                } else {
                                    assert(filled =~= a0);
                                }
                            }
                            let ghost kv = k@;
                            let new_list = FormTree::Array(arr);
                            proof {
                                lemma_array_view(arr);
                            }
                            fs.insert(i, (k, new_list));
                            assert(fields_view(fs@) =~= fv.update(i as int, (kv, new_list@)));
                            proof {
                                lemma_object_view(fs);
                            }
                            Some(FormTree::Object(fs))
                        },
                        _ => None,
                    }
                },
            }
        },
        _ => None,
    }
}

} // verus!

verus! {

fn store_at_exec(node: FormTree, path: &Vec<Seg>, from: usize, last: &Seg, v: FormTree) -> (r: Option<FormTree>)
    requires
        from <= path@.len(),
    ensures
        opt_view(r) == store_at(node@, seg_views(path@).skip(from as int), last@, v@),
    decreases path@.len() - from,
{
    let ghost p = seg_views(path@).skip(from as int);
    if from == path.len() {
        assert(p.len() == 0);
        return store_last_exec(node, last, v);
    }
    assert(p[0] == path@[from as int]@);
    assert(p.drop_first() =~= seg_views(path@).skip(from + 1));
    match node {
        FormTree::Object(mut fs) => {
            proof {
                lemma_object_view(fs);
            }
            match &path[from] {
                Seg::Field(name) => {
                    let i = entry_or_insert_exec(&mut fs, name.as_str(), empty_object());
                    let ghost fv = fields_view(fs@);
                    let (k, child) = fs.remove(i);
                    let ghost kv = k@;
                    match store_at_exec(child, path, from + 1, last, v) {
                        Some(c) => {
                            let ghost cv = c@;
                            fs.insert(i, (k, c));
                            assert(fields_view(fs@) =~= fv.update(i as int, (kv, cv)));
                            proof {
                                lemma_object_view(fs);
                            }
                            Some(FormTree::Object(fs))
                        },
                        None => None,
                    }
                },
                Seg::Indexed(name, n) => {
                    let i = entry_or_insert_exec(&mut fs, name.as_str(), empty_array());
                    let ghost fv = fields_view(fs@);
                    let (k, child) = fs.remove(i);
                    let ghost kv = k@;
                    match child {
                        FormTree::Array(mut arr) => {
                            proof {
                                lemma_array_view(arr);
                            }
                            let ghost a0 = trees_view(arr@);
                            let n = *n;
                            if arr.len() >= n {
                                let e = empty_object();
                                let ghost ev = e@;
                                arr.push(e);
                                assert(trees_view(arr@) =~= a0.push(ev));
                            } else {
                                assert(trees_view(arr@) =~= a0);
                            }
                            let ghost a2 = trees_view(arr@);
                            if n < arr.len() {
                                let elem = arr.remove(n);
                                match store_at_exec(elem, path, from + 1, last, v) {
                                    Some(c) => {
                                        let ghost cv = c@;
                                        arr.insert(n, c);
                                        assert(trees_view(arr@) =~= a2.update(n as int, cv));
                                        let new_list = FormTree::Array(arr);
                                        proof {
                                            lemma_array_view(arr);
                                        }
                                        fs.insert(i, (k, new_list));
                                        assert(fields_view(fs@) =~= fv.update(i as int, (kv, new_list@)));
                                        proof {
                                            lemma_object_view(fs);
                                        }
                                        Some(FormTree::Object(fs))
                                    },
                                    None => None,
                                }
                            } else {
                                None
                            }
                        },
                        _ => None,
                    }
                },
            }
        },
        _ => None,
    }
}

// ---------------------------------------------------------------------
// Values
// ---------------------------------------------------------------------

/// Whether `s` reads as a JSON number.
pub uninterp spec fn is_json_number(s: Seq<char>) -> bool;

/// `s.parse::<serde_json::Number>().is_ok()`: whether serde_json reads the
/// text as a number. What it accepts is named, not stated.
#[verifier::external_body]
fn json_number_valid(s: &str) -> (b: bool)
    ensures
        b == is_json_number(s@),
{
    s.parse::<serde_json::Number>().is_ok()
}

/// The value a form field gives, by the kind at the end of its path: `s`
/// its text, `b` whether it is `on`, `n` its text as a number where
/// `number_ok` says the text reads as one, and any other kind the list of
/// all its texts. The first three need a value.
pub open spec fn spec_field_value(tag: Seq<char>, values: Seq<Seq<char>>, number_ok: bool) -> Option<TreeView> {
    if tag == "s"@ {
        if values.len() > 0 { Some(TreeView::Str(values[0])) } else { None }
    } else if tag == "b"@ {
        if values.len() > 0 { Some(TreeView::Bool(values[0] == "on"@)) } else { None }
    } else if tag == "n"@ {
        if values.len() > 0 && number_ok { Some(TreeView::Number(values[0])) } else { None }
    } else {
        Some(TreeView::Array(values.map_values(|v: Seq<char>| TreeView::Str(v))))
    }
}

/// The value a form field gives: a number must read as a JSON number.
pub open spec fn spec_leaf(tag: Seq<char>, values: Seq<Seq<char>>) -> Option<TreeView> {
    spec_field_value(tag, values, values.len() > 0 && is_json_number(values[0]))
}

/// The value of a form field with the kind `tag` and the texts `values`,
/// given whether its first text reads as a JSON number.
pub fn field_value(tag: &str, values: &Vec<String>, number_ok: bool) -> (r: Option<FormTree>)
    ensures
        opt_view(r) == spec_field_value(tag@, string_views(values@), number_ok),
{
    let ghost vs = string_views(values@);
    if str_equal(tag, "s") {
        if values.len() > 0 {
            return Some(FormTree::Str(values[0].clone()));
        }
        return None;
    }
    if str_equal(tag, "b") {
        if values.len() > 0 {
            return Some(FormTree::Bool(str_equal(values[0].as_str(), "on")));
        }
        return None;
    }
    if str_equal(tag, "n") {
        if values.len() > 0 && number_ok {
            return Some(FormTree::Number(values[0].clone()));
        }
        return None;
    }
    let mut items: Vec<FormTree> = Vec::new();
    let mut i: usize = 0;
    while i < values.len()
        invariant
            i <= values@.len(),
            vs == string_views(values@),
            trees_view(items@) == vs.take(i as int).map_values(|v: Seq<char>| TreeView::Str(v)),
        decreases values.len() - i,
    {
        let item = FormTree::Str(values[i].clone());
        assert(item@ == TreeView::Str(vs[i as int]));
        let ghost before = items@;
        let ghost iv = item@;
        items.push(item);
        assert(trees_view(items@) =~= trees_view(before).push(iv));
        assert(trees_view(items@) =~= vs.take(i + 1).map_values(|v: Seq<char>| TreeView::Str(v)));
        i = i + 1;
    }
    assert(vs.take(i as int) =~= vs);
    proof {
        lemma_array_view(items);
    }
    Some(FormTree::Array(items))
}

/// The value of a form field; a number is read by serde_json.
fn leaf(tag: &str, values: &Vec<String>) -> (r: Option<FormTree>)
    ensures
        opt_view(r) == spec_leaf(tag@, string_views(values@)),
{
    let number_ok = str_equal(tag, "n") && values.len() > 0 && json_number_valid(values[0].as_str());
    field_value(tag, values, number_ok)
}

// ---------------------------------------------------------------------
// The whole form
// ---------------------------------------------------------------------

/// The steps read from their texts; `None` if one cannot be read.
pub open spec fn parse_segs(ss: Seq<Seq<char>>) -> Option<Seq<SegView>>
    decreases ss.len(),
{
    if ss.len() == 0 {
        Some(Seq::empty())
    } else {
        match parse_segs(ss.drop_last()) {
            Some(p) => match parse_seg(ss.last()) {
                Some(g) => Some(p.push(g)),
                None => None,
            },
            None => None,
        }
    }
}

/// The tree after storing one field of the form, named by `key`, with the
/// texts `values`. `None` where the form's reader fails: a path of a single
/// part, a step that cannot be read or leads into something that is not an
/// object or list, or a value that cannot be made.
pub open spec fn spec_apply(root: TreeView, key: Seq<char>, values: Seq<Seq<char>>) -> Option<TreeView> {
    let parts = split_dot(key);
    if parts.len() < 2 {
        None
    } else {
        match parse_segs(parts.take(parts.len() - 2)) {
            Some(path) => match parse_seg(parts[parts.len() - 2]) {
                Some(last) => match spec_leaf(parts.last(), values) {
                    Some(v) => store_at(root, path, last, v),
                    None => None,
                },
                None => None,
            },
            None => None,
        }
    }
}

/// The form's fields: their paths and their texts.
pub open spec fn form_fields(values: Seq<(String, Vec<String>)>) -> Seq<(Seq<char>, Seq<Seq<char>>)> {
    Seq::new(values.len(), |i: int| (values[i].0@, string_views(values[i].1@)))
}

/// The tree after storing the fields in order into an empty object.
pub open spec fn spec_to_value(fields: Seq<(Seq<char>, Seq<Seq<char>>)>) -> Option<TreeView>
    decreases fields.len(),
{
    if fields.len() == 0 {
        Some(TreeView::Object(Seq::empty()))
    } else {
        match spec_to_value(fields.drop_last()) {
            Some(t) => spec_apply(t, fields.last().0, fields.last().1),
            None => None,
        }
    }
}

fn apply_field(root: FormTree, key: &str, values: &Vec<String>) -> (r: Option<FormTree>)
    ensures
        opt_view(r) == spec_apply(root@, key@, string_views(values@)),
{
    let parts = split_key(key);
    let ghost ps = string_views(parts@);
    let n = parts.len();
    if n < 2 {
        return None;
    }
    let mut path: Vec<Seg> = Vec::new();
    let mut i: usize = 0;
    while i < n - 2
        invariant
            n == parts@.len(),
            n >= 2,
            i <= n - 2,
            ps == string_views(parts@),
            ps == split_dot(key@),
            parse_segs(ps.take(i as int)) == Some(seg_views(path@)),
        decreases n - 2 - i,
    {
        assert(ps.take(i + 1).drop_last() =~= ps.take(i as int));
        assert(ps.take(i + 1).last() == parts@[i as int]@);
        match read_seg(parts[i].as_str()) {
            Some(g) => {
                let ghost before = path@;
                path.push(g);
                assert(seg_views(path@) =~= seg_views(before).push(g@));
            },
            None => {
                proof {
                    let j = n - 2;
                    assert(parse_segs(ps.take(i + 1)) is None);
                    assert(ps.take(j as int).take(i + 1) =~= ps.take(i + 1));
                    lemma_parse_segs_prefix(ps.take(j as int), i as int + 1);
                }
                return None;
            },
        }
        i = i + 1;
    }
    let last = match read_seg(parts[n - 2].as_str()) {
        Some(g) => g,
        None => return None,
    };
    let v = match leaf(parts[n - 1].as_str(), values) {
        Some(v) => v,
        None => return None,
    };
    assert(seg_views(path@).skip(0) =~= seg_views(path@));
    store_at_exec(root, &path, 0, &last, v)
}

/// A prefix of steps that cannot be read leaves all of them unreadable.
proof fn lemma_parse_segs_prefix(ss: Seq<Seq<char>>, k: int)
    requires
        0 <= k <= ss.len(),
        parse_segs(ss.take(k)) is None,
    ensures
        parse_segs(ss) is None,
    decreases ss.len() - k,
{
    if k < ss.len() {
        assert(ss.take(k + 1).drop_last() =~= ss.take(k));
        lemma_parse_segs_prefix(ss, k + 1);
    } else {
        assert(ss.take(k) =~= ss);
    }
}

fn build(values: &Vec<(String, Vec<String>)>) -> (r: Option<FormTree>)
    ensures
        opt_view(r) == spec_to_value(form_fields(values@)),
{
    let ghost fields = form_fields(values@);
    let mut result = empty_object();
    let mut i: usize = 0;
    while i < values.len()
        invariant
            i <= values@.len(),
            fields == form_fields(values@),
            spec_to_value(fields.take(i as int)) == Some(result@),
        decreases values.len() - i,
    {
        assert(fields.take(i + 1).drop_last() =~= fields.take(i as int));
        assert(fields.take(i + 1).last() == (values@[i as int].0@, string_views(values@[i as int].1@)));
        match apply_field(result, values[i].0.as_str(), &values[i].1) {
            Some(t) => {
                result = t;
            },
            None => {
                proof {
                    lemma_to_value_prefix(fields, i + 1);
                }
                return None;
            },
        }
        i = i + 1;
    }
    assert(fields.take(i as int) =~= fields);
    Some(result)
}

/// Once storing a field fails, the whole form fails.
proof fn lemma_to_value_prefix(fields: Seq<(Seq<char>, Seq<Seq<char>>)>, k: int)
    requires
        0 <= k <= fields.len(),
        spec_to_value(fields.take(k)) is None,
    ensures
        spec_to_value(fields) is None,
    decreases fields.len() - k,
{
    if k < fields.len() {
        assert(fields.take(k + 1).drop_last() =~= fields.take(k));
        lemma_to_value_prefix(fields, k + 1);
    } else {
        assert(fields.take(k) =~= fields);
    }
}

/// The form's values put together into one tree: the fields are stored in
/// order into an empty object.
pub fn to_value(values: Vec<(String, Vec<String>)>) -> (t: FormTree)
    requires
        spec_to_value(form_fields(values@)) is Some,
    ensures
        Some(t@) == spec_to_value(form_fields(values@)),
{
    match build(&values) {
        Some(t) => t,
        None => {
            assert(false);
            empty_object()
        },
    }
}

/// The form's values put together into one tree, or `None` where the
/// form's reader fails on them.
pub fn try_to_value(values: Vec<(String, Vec<String>)>) -> (r: Option<FormTree>)
    ensures
        opt_view(r) == spec_to_value(form_fields(values@)),
{
    build(&values)
}

} // verus!

verus! {

proof fn lemma_split_dot_plain(s: Seq<char>)
    requires
        forall|i: int| 0 <= i < s.len() ==> s[i] != '.',
    ensures
        split_dot(s) == seq![s],
    decreases s.len(),
{
    if s.len() > 0 {
        lemma_split_dot_plain(s.drop_last());
        assert(s.drop_last().push(s.last()) =~= s);
        assert(seq![s.drop_last()].update(0, s.drop_last().push(s.last())) =~= seq![s]);
    } else {
        assert(s =~= Seq::<char>::empty());
    }
}

/// A text field whose path is a plain field name followed by the kind `s`
/// is stored in that field of the object: the form's value for it reads
/// back as its text, and the other fields stay as they were.
pub proof fn law_text_field_stored(fs: Seq<(Seq<char>, TreeView)>, name: Seq<char>, t: Seq<char>)
    requires
        forall|i: int| 0 <= i < name.len() ==> name[i] != '.',
        name.len() == 0 || name.last() != ']',
    ensures
        spec_apply(TreeView::Object(fs), name + seq!['.', 's'], seq![t])
            == Some(TreeView::Object(field_set(fs, name, TreeView::Str(t)))),
{
    reveal_strlit("s");
    reveal_strlit("b");
    reveal_strlit("n");
    let key = name + seq!['.', 's'];
    lemma_split_dot_plain(name);
    assert(key.drop_last() =~= name.push('.'));
    assert(name.push('.').drop_last() =~= name);
    let parts = split_dot(key);
    assert(split_dot(name.push('.')) == seq![name].push(Seq::<char>::empty()));
    assert(parts =~= seq![name, seq!['s']]);
    assert(parts.take(0) =~= Seq::<Seq<char>>::empty());
    assert("s"@ =~= seq!['s']);
}

} // verus!
