//! The command palette: a search box over the actions that can be run from
//! it, a list of the actions whose readable name starts with the search text,
//! and a selection that the arrow keys move through that list.

use vstd::prelude::*;
use crate::config::actions::{spaced, TerminalAction};
use crate::config::keybindings::Key;
use crate::tabs::{spec_tab_effect, spec_tab_step, tab_action_ok, TabEffect, Tabs, TabsView};
use crate::text::{lowercase, str_starts_with, str_to_lowercase};

verus! {

/// Whether the palette lists the action `a` for the search text: its
/// readable name starts with the search text, letter case aside.
pub open spec fn matches_search(a: TerminalAction, search: Seq<char>) -> bool {
    lowercase(search).is_prefix_of(lowercase(spaced(a.spec_name())))
}

/// The actions listed for the search text, in the palette's order.
pub open spec fn spec_matches(search: Seq<char>) -> Seq<TerminalAction> {
    TerminalAction::spec_palette_usable().filter(|a: TerminalAction| matches_search(a, search))
}

/// The actions listed for the search text, in the palette's order.
pub fn palette_matches(search: &str) -> (v: Vec<TerminalAction>)
    ensures
        v@ == spec_matches(search@),
{
    let all = TerminalAction::palette_usable();
    let wanted = str_to_lowercase(search);
    let ghost pred = |a: TerminalAction| matches_search(a, search@);
    let mut out: Vec<TerminalAction> = Vec::new();
    let mut i: usize = 0;
    while i < all.len()
        invariant
            i <= all@.len(),
            all@ == TerminalAction::spec_palette_usable(),
            wanted@ == lowercase(search@),
            pred == (|a: TerminalAction| matches_search(a, search@)),
            out@ == all@.take(i as int).filter(pred),
        decreases all@.len() - i,
    {
        assert(all@.take(i + 1).drop_last() =~= all@.take(i as int));
        let name = all[i].readable();
        let lowered = str_to_lowercase(name.as_str());
        if str_starts_with(lowered.as_str(), wanted.as_str()) {
            out.push(all[i].clone());
        }
        assert(out@ =~= all@.take(i + 1).filter(pred)) by {
            reveal_with_fuel(Seq::filter, 1);
        }
        i = i + 1;
    }
    assert(all@.take(i as int) =~= all@);
    out
}

/// The palette's search text and selection. The selection is kept as the
/// palette keeps it, a number that may stand at -1 after moving up through an
/// empty list; the row it marks is `selected_index` of it.
pub ghost struct PaletteView {
    pub search: Seq<char>,
    pub raw_selected: int,
}

/// The row that a selection value marks: a negative value marks the first.
pub open spec fn selected_index(raw: int) -> int {
    if raw < 0 { 0 } else { raw }
}

/// After every change the palette pulls a selection that lies past the end of
/// a non-empty list back onto its last row.
pub open spec fn clamp_selection(raw: int, n: int) -> int {
    if raw >= n && n != 0 { n - 1 } else { raw }
}

/// What a palette state always satisfies: the selection lies on the list when
/// the list is not empty, and never below -1 nor past the palette's actions.
pub open spec fn palette_wf(v: PaletteView) -> bool {
    &&& -1 <= v.raw_selected < TerminalAction::spec_palette_usable().len()
    &&& (spec_matches(v.search).len() == 0 || v.raw_selected < spec_matches(v.search).len())
}

/// A key can be handled without failing: moving down needs a list that is not
/// empty, and running the selection needs a selected row on the list.
pub open spec fn palette_key_ok(v: PaletteView, key: Key) -> bool {
    let n = spec_matches(v.search).len() as int;
    match key {
        Key::ArrowDown => n != 0,
        Key::Enter => selected_index(v.raw_selected) < n,
        _ => true,
    }
}

/// The palette after a key: up and down move the selection and wrap around
/// at either end of the list.
pub open spec fn spec_key_step(v: PaletteView, key: Key) -> PaletteView {
    let n = spec_matches(v.search).len() as int;
    let sel = selected_index(v.raw_selected);
    let raw = match key {
        Key::ArrowUp => if sel != 0 { v.raw_selected - 1 } else { n - 1 },
        Key::ArrowDown => if sel != n - 1 { v.raw_selected + 1 } else { 0 },
        _ => v.raw_selected,
    };
    PaletteView { raw_selected: clamp_selection(raw, n), ..v }
}

/// The action a key runs: Enter runs the selected one.
pub open spec fn spec_key_action(v: PaletteView, key: Key) -> Option<TerminalAction> {
    match key {
        Key::Enter => Some(spec_matches(v.search)[selected_index(v.raw_selected)]),
        _ => None,
    }
}

/// The window after the palette runs an action, by Enter on the selected row
/// or by a click on a row: the action is carried out, then the palette closes.
pub open spec fn spec_run_row(s: TabsView, a: TerminalAction) -> TabsView {
    TabsView { command_palette: false, ..spec_tab_step(s, a) }
}

/// The command palette's state.
pub struct CommandPalette {
    search: String,
    raw_selected: i64,
}

impl View for CommandPalette {
    type V = PaletteView;

    closed spec fn view(&self) -> PaletteView {
        PaletteView { search: self.search@, raw_selected: self.raw_selected as int }
    }
}

impl CommandPalette {
    /// An empty search, with the first row selected.
    pub fn new() -> (p: CommandPalette)
        ensures
            p@ == (PaletteView { search: Seq::empty(), raw_selected: 0 }),
            palette_wf(p@),
    {
        let p = CommandPalette { search: String::new(), raw_selected: 0 };
        assert(TerminalAction::spec_palette_usable().len() == 18);
        p
    }

    /// The row that is selected.
    pub fn selected(&self) -> (i: usize)
        requires
            palette_wf(self@),
        ensures
            i == selected_index(self@.raw_selected),
    {
        if self.raw_selected < 0 { 0 } else { self.raw_selected as usize }
    }

    /// The actions listed for the current search text.
    pub fn matches(&self) -> (v: Vec<TerminalAction>)
        ensures
            v@ == spec_matches(self@.search),
    {
        palette_matches(self.search.as_str())
    }

    /// The user typed into the search box: the list follows the new text, and
    /// a selection past its end moves onto its last row.
    pub fn set_search(&mut self, search: String)
        requires
            palette_wf(old(self)@),
        ensures
            final(self)@ == (PaletteView {
                search: search@,
                raw_selected: clamp_selection(old(self)@.raw_selected, spec_matches(search@).len() as int),
            }),
            palette_wf(final(self)@),
    {
        let m = palette_matches(search.as_str());
        proof {
            TerminalAction::spec_palette_usable().lemma_filter_len(|a: TerminalAction| matches_search(a, search@));
        }
        let n = m.len() as i64;
        if self.raw_selected >= n && n != 0 {
            self.raw_selected = n - 1;
        }
        self.search = search;
    }

    /// A key pressed in the search box. Up and down move the selection,
    /// wrapping around at the ends; Enter gives back the selected action for
    /// the caller to run, and the caller closes the palette.
    pub fn handle_key(&mut self, key: &Key) -> (r: Option<TerminalAction>)
        requires
            palette_wf(old(self)@),
            palette_key_ok(old(self)@, *key),
        ensures
            final(self)@ == spec_key_step(old(self)@, *key),
            r == spec_key_action(old(self)@, *key),
            palette_wf(final(self)@),
    {
        let m = palette_matches(self.search.as_str());
        proof {
            TerminalAction::spec_palette_usable().lemma_filter_len(|a: TerminalAction| matches_search(a, self@.search));
        }
        let n = m.len() as i64;
        let sel: i64 = if self.raw_selected < 0 { 0 } else { self.raw_selected };
        let mut result: Option<TerminalAction> = None;
        let raw: i64 = match key {
            Key::ArrowUp => if sel != 0 { self.raw_selected - 1 } else { n - 1 },
            Key::ArrowDown => if sel != n - 1 { self.raw_selected + 1 } else { 0 },
            Key::Enter => {
                result = Some(m[sel as usize].clone());
                self.raw_selected
            },
            _ => self.raw_selected,
        };
        self.raw_selected = if raw >= n && n != 0 { n - 1 } else { raw };
        result
    }

    /// A click on row `i` of the list: the window carries out that row's
    /// action and the palette closes. What the world around has to do for
    /// the action is handed back.
    pub fn run_row(&self, i: usize, tabs: &mut Tabs) -> (e: TabEffect)
        requires
            i < spec_matches(self@.search).len(),
            tab_action_ok(old(tabs)@, spec_matches(self@.search)[i as int]),
        ensures
            final(tabs)@ == spec_run_row(old(tabs)@, spec_matches(self@.search)[i as int]),
            spec_tab_effect(old(tabs)@, spec_matches(self@.search)[i as int], e),
    {
        let m = palette_matches(self.search.as_str());
        let action = m[i].clone();
        let e = tabs.handle_action(action);
        tabs.set_command_palette(false);
        e
    }

    /// Enter in the search box: the window carries out the selected row's
    /// action and the palette closes; the selection stays.
    pub fn run_selected(&self, tabs: &mut Tabs) -> (e: TabEffect)
        requires
            palette_wf(self@),
            palette_key_ok(self@, Key::Enter),
            tab_action_ok(old(tabs)@, spec_key_action(self@, Key::Enter)->Some_0),
        ensures
            spec_key_step(self@, Key::Enter) == self@,
            final(tabs)@ == spec_run_row(old(tabs)@, spec_key_action(self@, Key::Enter)->Some_0),
            spec_tab_effect(old(tabs)@, spec_key_action(self@, Key::Enter)->Some_0, e),
    {
        let i = self.selected();
        self.run_row(i, tabs)
    }
}

/// Up on the first row selects the last, and down on the last row selects
/// the first; elsewhere up and down move by one row. Other keys keep the
/// selection.
pub proof fn law_selection_wraps(v: PaletteView, key: Key)
    requires
        palette_wf(v),
        0 <= v.raw_selected,
        spec_matches(v.search).len() != 0,
    ensures
        ({
            let n = spec_matches(v.search).len() as int;
            let r = v.raw_selected;
            &&& key == Key::ArrowUp ==> spec_key_step(v, key).raw_selected == (if r == 0 { n - 1 } else { r - 1 })
            &&& key == Key::ArrowDown ==> spec_key_step(v, key).raw_selected == (if r == n - 1 { 0 } else { r + 1 })
            &&& key != Key::ArrowUp && key != Key::ArrowDown ==> spec_key_step(v, key) == v
            &&& spec_key_step(v, key).search == v.search
        }),
{
}

/// Enter runs the action on the selected row.
pub proof fn law_enter_runs_selected(v: PaletteView)
    requires
        palette_wf(v),
        0 <= v.raw_selected < spec_matches(v.search).len(),
    ensures
        spec_key_action(v, Key::Enter) == Some(spec_matches(v.search)[v.raw_selected]),
        spec_key_action(v, Key::ArrowUp) is None,
        spec_key_action(v, Key::ArrowDown) is None,
{
}

/// Moving the selection down and then up puts it back where it was, on a
/// list that is not empty, from any row of it.
pub proof fn law_down_then_up(v: PaletteView)
    requires
        palette_wf(v),
        0 <= v.raw_selected,
        spec_matches(v.search).len() != 0,
    ensures
        spec_key_step(spec_key_step(v, Key::ArrowDown), Key::ArrowUp) == v,
{
}

/// Moving the selection up and then down puts it back where it was, on a
/// list that is not empty, from any row of it.
pub proof fn law_up_then_down(v: PaletteView)
    requires
        palette_wf(v),
        0 <= v.raw_selected,
        spec_matches(v.search).len() != 0,
    ensures
        spec_key_step(spec_key_step(v, Key::ArrowUp), Key::ArrowDown) == v,
{
}

/// Every key leaves the palette in a valid state, with the selection on the
/// list whenever the list is not empty.
pub proof fn law_key_keeps_wf(v: PaletteView, key: Key)
    requires
        palette_wf(v),
        palette_key_ok(v, key),
    ensures
        palette_wf(spec_key_step(v, key)),
{
    TerminalAction::spec_palette_usable().lemma_filter_len(|a: TerminalAction| matches_search(a, v.search));
}

/// Every action the palette lists is one of the palette's actions and matches
/// the search text.
pub proof fn law_matches_are_usable(search: Seq<char>, i: int)
    requires
        0 <= i < spec_matches(search).len(),
    ensures
        TerminalAction::spec_palette_usable().contains(spec_matches(search)[i]),
        matches_search(spec_matches(search)[i], search),
{
    let all = TerminalAction::spec_palette_usable();
    let pred = |a: TerminalAction| matches_search(a, search);
    all.lemma_filter_pred(pred, i);
    assert(all.filter(pred).contains(all.filter(pred)[i]));
    all.lemma_filter_contains_rev(pred, all.filter(pred)[i]);
}

} // verus!
