//! The tabs of the application window and what the user's actions do to them.

use vstd::prelude::*;
use crate::config::actions::TerminalAction;
use crate::input::MouseButton;

verus! {

#[derive(Debug, Clone, Copy, PartialEq, Eq, Structural)]
pub enum TabType {
    Terminal,
    Menu,
    PluginMenu,
}

/// What a tab holds: its title, its kind, and the terminal it shows.
pub ghost struct TabView {
    pub name: Seq<char>,
    pub tab_type: TabType,
    pub pty: Seq<char>,
}

/// One tab of the window.
#[derive(Debug, PartialEq)]
pub struct Tab {
    pub name: String,
    pub tab_type: TabType,
    pub pty: String,
}

impl View for Tab {
    type V = TabView;

    open spec fn view(&self) -> TabView {
        TabView { name: self.name@, tab_type: self.tab_type, pty: self.pty@ }
    }
}

impl Clone for Tab {
    fn clone(&self) -> (t: Self)
        ensures
            t@ == self@,
    {
        Tab { name: self.name.clone(), tab_type: self.tab_type, pty: self.pty.clone() }
    }
}

impl Tab {
    /// A terminal tab showing the terminal `pty`.
    pub fn new(pty: String) -> (t: Tab)
        ensures
            t@ == (TabView { name: "terminal"@, tab_type: TabType::Terminal, pty: pty@ }),
    {
        Tab { name: "terminal".to_owned(), tab_type: TabType::Terminal, pty }
    }
}

/// What the window holds: its tabs, the index of the current one, and
/// whether the command palette is open.
pub ghost struct TabsView {
    pub tabs: Seq<TabView>,
    pub current: usize,
    pub command_palette: bool,
}

/// Something the window asks of the world around it.
#[derive(Debug, PartialEq, Clone)]
pub enum TabEffect {
    /// Nothing to do.
    Nothing,
    /// Send this text to the terminal `pty`.
    Write { pty: String, text: String },
    /// Start a new terminal; its id goes to `Tabs::open_terminal_tab`.
    SpawnTerminal,
    /// Open the web view's developer tools.
    OpenDevTools,
}

/// The tabs and the current tab.
pub struct Tabs {
    tabs: Vec<Tab>,
    current: usize,
    command_palette: bool,
}

impl View for Tabs {
    type V = TabsView;

    closed spec fn view(&self) -> TabsView {
        TabsView { tabs: self.tabs@.map_values(|t: Tab| t@), current: self.current, command_palette: self.command_palette }
    }
}

/// The window can carry out the action without failing: the actions that
/// are not implemented yet are refused, and the tab indices must stay in
/// range of what the action does with them.
pub open spec fn tab_action_ok(s: TabsView, a: TerminalAction) -> bool {
    match a {
        TerminalAction::Write(_) => s.current < s.tabs.len(),
        TerminalAction::CloseTab => s.current < s.tabs.len(),
        TerminalAction::CloseTabSpecific(n) => n < s.tabs.len() && (n <= s.current ==> s.current >= 1),
        TerminalAction::ClearBuffer => s.current >= 1,
        TerminalAction::NextTab => s.current < usize::MAX,
        TerminalAction::PasteText | TerminalAction::CopyText | TerminalAction::PreviousTab
            | TerminalAction::CloseOtherTabs | TerminalAction::ScrollUp | TerminalAction::ScrollUpPage
            | TerminalAction::ScrollDown | TerminalAction::ScrollDownPage | TerminalAction::ScrollToBottom
            | TerminalAction::ScrollToTop => false,
        _ => true,
    }
}

pub open spec fn menu_tab(name: Seq<char>, t: TabType) -> TabView {
    TabView { name, tab_type: t, pty: Seq::empty() }
}

/// The window after an action.
pub open spec fn spec_tab_step(s: TabsView, a: TerminalAction) -> TabsView {
    match a {
        TerminalAction::CloseTab => TabsView {
            tabs: s.tabs.remove(s.current as int),
            current: if s.current != 0 { (s.current - 1) as usize } else { s.current },
            ..s
        },
        TerminalAction::CloseTabSpecific(n) => TabsView {
            tabs: s.tabs.remove(n as int),
            current: if n <= s.current { (s.current - 1) as usize } else { s.current },
            ..s
        },
        TerminalAction::OpenSettings => TabsView {
            tabs: s.tabs.push(menu_tab("Settings"@, TabType::Menu)),
            current: s.tabs.len() as usize,
            ..s
        },
        TerminalAction::OpenPluginMenu => TabsView {
            tabs: s.tabs.push(menu_tab("Plugins"@, TabType::PluginMenu)),
            current: s.tabs.len() as usize,
            ..s
        },
        TerminalAction::ToggleCommandPalette => TabsView { command_palette: !s.command_palette, ..s },
        TerminalAction::ClearBuffer => TabsView { current: (s.current - 1) as usize, ..s },
        TerminalAction::NextTab => TabsView { current: (s.current + 1) as usize, ..s },
        _ => s,
    }
}

/// What the window asks for after an action.
pub open spec fn spec_tab_effect(s: TabsView, a: TerminalAction, e: TabEffect) -> bool {
    match a {
        TerminalAction::Write(text) => if s.tabs[s.current as int].tab_type == TabType::Terminal {
            e matches TabEffect::Write { pty, text: t } && pty@ == s.tabs[s.current as int].pty && t@ == text@
        } else {
            e == TabEffect::Nothing
        },
        TerminalAction::NewTab => e == TabEffect::SpawnTerminal,
        TerminalAction::OpenDevTools => e == TabEffect::OpenDevTools,
        _ => e == TabEffect::Nothing,
    }
}

/// Closing tab `n` by its number removes exactly that tab, keeping the
/// others in order. A tab after the current one leaves the current number as
/// it was; a tab before it moves the number down by one, so the same tab stays
/// current; closing the current tab makes the one before it current.
pub proof fn law_close_specific_keeps_selection(s: TabsView, n: usize)
    requires
        tab_action_ok(s, TerminalAction::CloseTabSpecific(n)),
        s.current < s.tabs.len(),
    ensures
        ({
            let t = spec_tab_step(s, TerminalAction::CloseTabSpecific(n));
            &&& t.tabs.len() == s.tabs.len() - 1
            &&& forall|i: int| 0 <= i < n ==> #[trigger] t.tabs[i] == s.tabs[i]
            &&& forall|i: int| n <= i < t.tabs.len() ==> #[trigger] t.tabs[i] == s.tabs[i + 1]
            &&& n > s.current ==> t.current == s.current
            &&& n < s.current ==> t.current == s.current - 1 && t.tabs[t.current as int] == s.tabs[s.current as int]
            &&& n == s.current ==> t.current == s.current - 1
            &&& t.command_palette == s.command_palette
        }),
{
}

/// Closing the current tab removes exactly that tab, keeping the others in
/// order, and makes the one before it current (the first stays first).
pub proof fn law_close_current(s: TabsView)
    requires
        tab_action_ok(s, TerminalAction::CloseTab),
    ensures
        ({
            let t = spec_tab_step(s, TerminalAction::CloseTab);
            &&& t.tabs.len() == s.tabs.len() - 1
            &&& forall|i: int| 0 <= i < s.current ==> #[trigger] t.tabs[i] == s.tabs[i]
            &&& forall|i: int| s.current <= i < t.tabs.len() ==> #[trigger] t.tabs[i] == s.tabs[i + 1]
            &&& t.current == (if s.current == 0 { 0 } else { s.current - 1 })
            &&& t.command_palette == s.command_palette
        }),
{
}

/// Opening the settings or the plugin menu adds one tab of that kind after
/// the others, keeps the others, and makes the new tab current.
pub proof fn law_open_menu_tab(s: TabsView, a: TerminalAction)
    requires
        a == TerminalAction::OpenSettings || a == TerminalAction::OpenPluginMenu,
        s.tabs.len() < usize::MAX,
    ensures
        ({
            let t = spec_tab_step(s, a);
            &&& t.tabs.len() == s.tabs.len() + 1
            &&& forall|i: int| 0 <= i < s.tabs.len() ==> #[trigger] t.tabs[i] == s.tabs[i]
            &&& t.current == s.tabs.len()
            &&& a == TerminalAction::OpenSettings ==> t.tabs[t.current as int].name == "Settings"@
                && t.tabs[t.current as int].tab_type == TabType::Menu
            &&& a == TerminalAction::OpenPluginMenu ==> t.tabs[t.current as int].name == "Plugins"@
                && t.tabs[t.current as int].tab_type == TabType::PluginMenu
            &&& t.command_palette == s.command_palette
        }),
{
}

/// Typed text goes to the terminal of the current tab, unchanged; on a tab
/// that shows no terminal it goes nowhere. The tabs stay as they were.
pub proof fn law_write_goes_to_current_terminal(s: TabsView, text: String, e: TabEffect)
    requires
        tab_action_ok(s, TerminalAction::Write(text)),
        spec_tab_effect(s, TerminalAction::Write(text), e),
    ensures
        spec_tab_step(s, TerminalAction::Write(text)) == s,
        s.tabs[s.current as int].tab_type == TabType::Terminal ==> (e matches TabEffect::Write { pty, text: t }
            && pty@ == s.tabs[s.current as int].pty && t@ == text@),
        s.tabs[s.current as int].tab_type != TabType::Terminal ==> e == TabEffect::Nothing,
{
}

/// Moving to the next tab moves the current number up by one and changes
/// nothing else.
pub proof fn law_next_tab(s: TabsView)
    requires
        tab_action_ok(s, TerminalAction::NextTab),
    ensures
        spec_tab_step(s, TerminalAction::NextTab).current == s.current + 1,
        spec_tab_step(s, TerminalAction::NextTab).tabs == s.tabs,
        spec_tab_step(s, TerminalAction::NextTab).command_palette == s.command_palette,
{
}

/// Clearing the buffer moves the current number down by one; toggling the
/// command palette flips whether it is open. Neither changes the tabs.
pub proof fn law_clear_buffer_and_toggle(s: TabsView)
    ensures
        s.current >= 1 ==> spec_tab_step(s, TerminalAction::ClearBuffer).current == s.current - 1,
        spec_tab_step(s, TerminalAction::ClearBuffer).tabs == s.tabs,
        spec_tab_step(s, TerminalAction::ToggleCommandPalette).command_palette == !s.command_palette,
        spec_tab_step(s, TerminalAction::ToggleCommandPalette).tabs == s.tabs,
        spec_tab_step(s, TerminalAction::ToggleCommandPalette).current == s.current,
{
}

/// Toggling the command palette twice leaves the window as it was.
pub proof fn law_toggle_palette_twice(s: TabsView)
    ensures
        spec_tab_step(spec_tab_step(s, TerminalAction::ToggleCommandPalette), TerminalAction::ToggleCommandPalette) == s,
{
}

/// Opening the settings or the plugin menu and then closing the current tab
/// gives back the tabs that were there before: the new tab is the one that
/// closes.
pub proof fn law_open_then_close_restores_tabs(s: TabsView, open: TerminalAction)
    requires
        open == TerminalAction::OpenSettings || open == TerminalAction::OpenPluginMenu,
        s.tabs.len() < usize::MAX,
    ensures
        tab_action_ok(spec_tab_step(s, open), TerminalAction::CloseTab),
        spec_tab_step(spec_tab_step(s, open), TerminalAction::CloseTab).tabs == s.tabs,
{
    let t = spec_tab_step(s, open);
    assert(t.tabs.remove(s.tabs.len() as int) =~= s.tabs);
}

impl Tabs {
    /// A window with one terminal tab, the current one, showing `pty`.
    pub fn new(pty: String) -> (t: Tabs)
        ensures
            t@ == (TabsView { tabs: seq![TabView { name: "terminal"@, tab_type: TabType::Terminal, pty: pty@ }], current: 0, command_palette: false }),
    {
        let t = Tabs { tabs: vec![Tab::new(pty)], current: 0, command_palette: false };
        assert(t@.tabs =~= seq![TabView { name: "terminal"@, tab_type: TabType::Terminal, pty: t.tabs@[0].pty@ }]);
        t
    }

    pub fn len(&self) -> (n: usize)
        ensures
            n == self@.tabs.len(),
    {
        self.tabs.len()
    }

    pub fn current(&self) -> (c: usize)
        ensures
            c == self@.current,
    {
        self.current
    }

    /// Makes tab `n` the current one.
    pub fn set_current(&mut self, n: usize)
        ensures
            final(self)@ == (TabsView { current: n, ..old(self)@ }),
    {
        self.current = n;
    }

    pub fn command_palette(&self) -> (b: bool)
        ensures
            b == self@.command_palette,
    {
        self.command_palette
    }

    pub fn set_command_palette(&mut self, open: bool)
        ensures
            final(self)@ == (TabsView { command_palette: open, ..old(self)@ }),
    {
        self.command_palette = open;
    }

    /// The tab at `i`.
    pub fn tab(&self, i: usize) -> (t: &Tab)
        requires
            i < self@.tabs.len(),
        ensures
            t@ == self@.tabs[i as int],
    {
        &self.tabs[i]
    }

    /// Sets the title of tab `i`.
    pub fn set_name(&mut self, i: usize, name: String)
        requires
            i < old(self)@.tabs.len(),
        ensures
            final(self)@ == (TabsView { tabs: old(self)@.tabs.update(i as int, TabView { name: name@, ..old(self)@.tabs[i as int] }), ..old(self)@ }),
    {
        let ghost n = name@;
        self.tabs[i].name = name;
        assert(self@.tabs =~= old(self)@.tabs.update(i as int, TabView { name: n, ..old(self)@.tabs[i as int] }));
    }

    /// A new terminal `pty` was started for a new tab: the tab goes last and
    /// becomes the current one.
    pub fn open_terminal_tab(&mut self, pty: String)
        ensures
            final(self)@ == (TabsView {
                tabs: old(self)@.tabs.push(TabView { name: "terminal"@, tab_type: TabType::Terminal, pty: pty@ }),
                current: old(self)@.tabs.len() as usize,
                ..old(self)@
            }),
    {
        let ghost p = pty@;
        self.tabs.push(Tab::new(pty));
        self.current = self.tabs.len() - 1;
        assert(self@.tabs =~= old(self)@.tabs.push(TabView { name: "terminal"@, tab_type: TabType::Terminal, pty: p }));
    }

    /// A mouse press on the title of tab `n`: the primary button makes it
    /// the current tab, the middle button closes it, the others do nothing.
    pub fn click_tab(&mut self, n: usize, button: MouseButton) -> (e: TabEffect)
        requires
            button == MouseButton::Auxiliary ==> tab_action_ok(old(self)@, TerminalAction::CloseTabSpecific(n)),
        ensures
            button == MouseButton::Primary ==> final(self)@ == (TabsView { current: n, ..old(self)@ }),
            button == MouseButton::Auxiliary ==> final(self)@ == spec_tab_step(old(self)@, TerminalAction::CloseTabSpecific(n)),
            button != MouseButton::Primary && button != MouseButton::Auxiliary ==> final(self)@ == old(self)@,
            e == TabEffect::Nothing,
    {
        match button {
            MouseButton::Primary => {
                self.set_current(n);
                TabEffect::Nothing
            },
            MouseButton::Auxiliary => self.handle_action(TerminalAction::CloseTabSpecific(n)),
            _ => TabEffect::Nothing,
        }
    }

    /// Whether `handle_action` can carry out the action.
    pub fn can_handle(&self, action: &TerminalAction) -> (b: bool)
        ensures
            b == tab_action_ok(self@, *action),
    {
        match action {
            TerminalAction::Write(_) => self.current < self.tabs.len(),
            TerminalAction::CloseTab => self.current < self.tabs.len(),
            TerminalAction::CloseTabSpecific(n) => *n < self.tabs.len() && (!(*n <= self.current) || self.current >= 1),
            TerminalAction::ClearBuffer => self.current >= 1,
            TerminalAction::NextTab => self.current < usize::MAX,
            TerminalAction::PasteText | TerminalAction::CopyText | TerminalAction::PreviousTab
                | TerminalAction::CloseOtherTabs | TerminalAction::ScrollUp | TerminalAction::ScrollUpPage
                | TerminalAction::ScrollDown | TerminalAction::ScrollDownPage | TerminalAction::ScrollToBottom
                | TerminalAction::ScrollToTop => false,
            _ => true,
        }
    }

    /// Carries out a user action on the tabs, and says what the world
    /// around has to do: write to a terminal, start one, or open the
    /// developer tools.
    pub fn handle_action(&mut self, action: TerminalAction) -> (e: TabEffect)
        requires
            tab_action_ok(old(self)@, action),
        ensures
            final(self)@ == spec_tab_step(old(self)@, action),
            spec_tab_effect(old(self)@, action, e),
    {
        let ghost s = self@;
        match action {
            TerminalAction::Write(s) => {
                let tab = &self.tabs[self.current];
                if tab.tab_type != TabType::Terminal {
                    return TabEffect::Nothing;
                }
                TabEffect::Write { pty: tab.pty.clone(), text: s }
            },
            TerminalAction::NewTab => TabEffect::SpawnTerminal,
            TerminalAction::CloseTab => {
                self.tabs.remove(self.current);
                if self.current != 0 {
                    self.current = self.current - 1;
                }
                assert(self@.tabs =~= s.tabs.remove(s.current as int));
                TabEffect::Nothing
            },
            TerminalAction::CloseTabSpecific(n) => {
                self.tabs.remove(n);
                if n <= self.current {
                    self.current = self.current - 1;
                }
                assert(self@.tabs =~= s.tabs.remove(n as int));
                TabEffect::Nothing
            },
            TerminalAction::Quit => TabEffect::Nothing,
            TerminalAction::OpenSettings => {
                let index = self.tabs.len();
                self.tabs.push(Tab { name: "Settings".to_owned(), tab_type: TabType::Menu, pty: String::new() });
                self.current = index;
                assert(self@.tabs =~= s.tabs.push(menu_tab("Settings"@, TabType::Menu)));
                TabEffect::Nothing
            },
            TerminalAction::OpenPluginMenu => {
                let index = self.tabs.len();
                self.tabs.push(Tab { name: "Plugins".to_owned(), tab_type: TabType::PluginMenu, pty: String::new() });
                self.current = index;
                assert(self@.tabs =~= s.tabs.push(menu_tab("Plugins"@, TabType::PluginMenu)));
                TabEffect::Nothing
            },
            TerminalAction::ToggleCommandPalette => {
                self.command_palette = !self.command_palette;
                TabEffect::Nothing
            },
            TerminalAction::OpenDevTools => TabEffect::OpenDevTools,
            TerminalAction::ClearBuffer => {
                self.current = self.current - 1;
                TabEffect::Nothing
            },
            TerminalAction::NextTab => {
                self.current = self.current + 1;
                TabEffect::Nothing
            },
            TerminalAction::NoAction => TabEffect::Nothing,
            _ => TabEffect::Nothing,
        }
    }
}

} // verus!
