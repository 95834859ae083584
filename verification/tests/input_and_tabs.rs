use prettyterm::command_palette::{palette_matches, CommandPalette};
use prettyterm::config::keybindings::{Key, Keybinding, Modifiers};
use prettyterm::config::TerminalAction;
use prettyterm::input::{key_event_to_str, InputManager, MouseButton};
use prettyterm::tabs::{TabEffect, TabType, Tabs};

fn no_mods() -> Modifiers {
    Modifiers::empty()
}

#[test]
fn ctrl_mapping() {
    let m = InputManager::new();
    assert_eq!(m.ctrl_key('a'), Some('\u{1}'));
    assert_eq!(m.ctrl_key('z'), Some('\u{1a}'));
    assert_eq!(m.ctrl_key(' '), Some('\u{0}'));
    assert_eq!(m.ctrl_key('2'), Some('\u{0}'));
    assert_eq!(m.ctrl_key('['), Some('\u{1b}'));
    assert_eq!(m.ctrl_key('0'), Some('\u{30}'));
    assert_eq!(m.ctrl_key('?'), Some('\u{7f}'));
    assert_eq!(m.ctrl_key('A'), None);
    assert_eq!(m.ctrl_key('é'), None);
}

#[test]
fn modified_keys() {
    let m = InputManager::new();
    assert_eq!(m.handle_mod_key("c".to_string(), false, true), "\u{3}");
    assert_eq!(m.handle_mod_key("c".to_string(), true, false), "\u{1b}c");
    assert_eq!(m.handle_mod_key("c".to_string(), true, true), "\u{1b}\u{3}");
    assert_eq!(m.handle_mod_key("A".to_string(), false, true), "A");
    assert_eq!(m.handle_mod_key("xy".to_string(), false, false), "xy");
}

#[test]
fn named_keys() {
    let m = InputManager::new();
    assert_eq!(m.match_key(&Key::Enter, false, false), "\r");
    assert_eq!(m.match_key(&Key::Tab, false, false), "\t");
    assert_eq!(m.match_key(&Key::Escape, false, false), "\u{1b}");
    assert_eq!(m.match_key(&Key::Delete, false, false), "\u{8}");
    assert_eq!(m.match_key(&Key::Backspace, false, false), "\u{7f}");
    assert_eq!(m.match_key(&Key::ArrowUp, false, false), "\x1b[A");
    assert_eq!(m.match_key(&Key::ArrowDown, false, false), "\x1b[B");
    assert_eq!(m.match_key(&Key::ArrowRight, false, false), "\x1b[C");
    assert_eq!(m.match_key(&Key::ArrowLeft, false, false), "\x1b[D");
    assert_eq!(m.match_key(&Key::Other("F1".to_string()), false, false), "");
    assert_eq!(m.handle_key(&Key::Character("q".to_string()), true, false), "\u{1b}q");
}

#[test]
fn mouse_reports() {
    let mut m = InputManager::new();
    assert_eq!(m.sgr_mouse(Some(MouseButton::Primary), 0, 0, true), "\x1b[<0;1;1M");
    assert_eq!(m.sgr_mouse(Some(MouseButton::Secondary), 9, 19, false), "\x1b[<2;10;20m");
    assert_eq!(m.sgr_mouse(Some(MouseButton::Auxiliary), 1, 2, true), "\x1b[<1;2;3M");
    assert_eq!(m.sgr_mouse(None, 4, 5, true), "\x1b[<3;5;6M");
    assert_eq!(m.handle_mouse(Some(MouseButton::Primary), 2, 3, true), "\x1b[<0;3;4M");
}

#[test]
fn bits() {
    assert_eq!(InputManager::set_nth_bit(0, 3, true), 8);
    assert_eq!(InputManager::set_nth_bit(0xff, 0, false), 0xfe);
    assert_eq!(InputManager::set_nth_bit(5, 2, true), 5);
    let m = InputManager::new();
    assert_eq!(m.kitty_modifiers(Modifiers { alt: true, control: false, meta: false, shift: false }), 0);
}

#[test]
fn keypress_uses_the_first_matching_binding() {
    let m = InputManager::new();
    let ctrl = Modifiers { alt: false, control: true, meta: false, shift: false };
    let binds = vec![
        Keybinding { key: Key::Character("t".to_string()), modifiers: ctrl, action: TerminalAction::NewTab },
        Keybinding { key: Key::Character("t".to_string()), modifiers: ctrl, action: TerminalAction::Quit },
        Keybinding { key: Key::Enter, modifiers: no_mods(), action: TerminalAction::OpenSettings },
    ];
    assert_eq!(m.handle_keypress(&binds, &Key::Character("t".to_string()), ctrl), TerminalAction::NewTab);
    assert_eq!(m.handle_keypress(&binds, &Key::Enter, no_mods()), TerminalAction::OpenSettings);
    assert_eq!(
        m.handle_keypress(&binds, &Key::Character("t".to_string()), no_mods()),
        TerminalAction::Write("t".to_string())
    );
    assert_eq!(
        m.handle_keypress(&binds, &Key::Character("u".to_string()), ctrl),
        TerminalAction::Write("\u{15}".to_string())
    );
}

#[test]
fn new_tabs_follow_spawned_terminals() {
    let mut t = Tabs::new("pty0".to_string());
    assert_eq!((t.len(), t.current()), (1, 0));
    assert_eq!(t.handle_action(TerminalAction::NewTab), TabEffect::SpawnTerminal);
    t.open_terminal_tab("pty1".to_string());
    assert_eq!((t.len(), t.current()), (2, 1));
    assert_eq!(t.tab(1).pty, "pty1");
    assert_eq!(t.tab(1).tab_type, TabType::Terminal);
    assert_eq!(
        t.handle_action(TerminalAction::Write("ls".to_string())),
        TabEffect::Write { pty: "pty1".to_string(), text: "ls".to_string() }
    );
}

#[test]
fn menus_open_as_tabs() {
    let mut t = Tabs::new("pty0".to_string());
    t.handle_action(TerminalAction::OpenSettings);
    assert_eq!((t.len(), t.current()), (2, 1));
    assert_eq!(t.tab(1).name, "Settings");
    assert_eq!(t.tab(1).tab_type, TabType::Menu);
    assert_eq!(t.handle_action(TerminalAction::Write("x".to_string())), TabEffect::Nothing);
    t.handle_action(TerminalAction::OpenPluginMenu);
    assert_eq!(t.tab(2).name, "Plugins");
    assert_eq!(t.tab(2).tab_type, TabType::PluginMenu);
    t.handle_action(TerminalAction::CloseTab);
    assert_eq!((t.len(), t.current()), (2, 1));
    t.handle_action(TerminalAction::CloseTab);
    assert_eq!((t.len(), t.current()), (1, 0));
    assert_eq!(t.tab(0).pty, "pty0");
}

#[test]
fn closing_a_tab_before_the_current_one() {
    let mut t = Tabs::new("pty0".to_string());
    t.open_terminal_tab("pty1".to_string());
    t.handle_action(TerminalAction::CloseTabSpecific(0));
    assert_eq!((t.len(), t.current()), (1, 0));
    assert_eq!(t.tab(0).pty, "pty1");
}

#[test]
fn next_tab_and_clear_buffer_move_the_current_tab() {
    let mut t = Tabs::new("pty0".to_string());
    t.handle_action(TerminalAction::NextTab);
    assert_eq!(t.current(), 1);
    t.handle_action(TerminalAction::ClearBuffer);
    assert_eq!(t.current(), 0);
}

#[test]
fn palette_toggles() {
    let mut t = Tabs::new("pty0".to_string());
    assert!(!t.command_palette());
    t.handle_action(TerminalAction::ToggleCommandPalette);
    assert!(t.command_palette());
    t.handle_action(TerminalAction::ToggleCommandPalette);
    assert!(!t.command_palette());
    assert_eq!(t.handle_action(TerminalAction::OpenDevTools), TabEffect::OpenDevTools);
    assert_eq!(t.handle_action(TerminalAction::NoAction), TabEffect::Nothing);
}

#[test]
fn unimplemented_actions_are_refused() {
    let t = Tabs::new("pty0".to_string());
    assert!(!t.can_handle(&TerminalAction::PasteText));
    assert!(!t.can_handle(&TerminalAction::ScrollUp));
    assert!(!t.can_handle(&TerminalAction::ClearBuffer));
    assert!(!t.can_handle(&TerminalAction::CloseTabSpecific(1)));
    assert!(!t.can_handle(&TerminalAction::CloseTabSpecific(0)));
    assert!(t.can_handle(&TerminalAction::CloseTab));
    assert!(t.can_handle(&TerminalAction::NewTab));
}

#[test]
fn tab_names_follow_terminal_titles() {
    let mut t = Tabs::new("pty0".to_string());
    t.set_name(0, "vim".to_string());
    assert_eq!(t.tab(0).name, "vim");
}

#[test]
fn palette_search_matches_prefixes() {
    assert_eq!(palette_matches("new"), vec![TerminalAction::NewTab]);
    assert_eq!(palette_matches("CLOSE"), vec![TerminalAction::CloseTab, TerminalAction::CloseOtherTabs]);
    assert_eq!(palette_matches("").len(), 18);
    assert_eq!(palette_matches("scroll").len(), 6);
    assert_eq!(palette_matches("Open D"), vec![TerminalAction::OpenDevTools]);
    assert_eq!(palette_matches("tab"), vec![]);
}

#[test]
fn palette_selection_wraps() {
    let mut p = CommandPalette::new();
    p.set_search("scroll".to_string());
    assert_eq!(p.selected(), 0);
    assert_eq!(p.handle_key(&Key::ArrowDown), None);
    assert_eq!(p.selected(), 1);
    p.handle_key(&Key::ArrowUp);
    assert_eq!(p.selected(), 0);
    p.handle_key(&Key::ArrowUp);
    assert_eq!(p.selected(), 5);
    p.handle_key(&Key::ArrowDown);
    assert_eq!(p.selected(), 0);
    p.handle_key(&Key::ArrowUp);
    assert_eq!(p.handle_key(&Key::Enter), Some(TerminalAction::ScrollToTop));
}

#[test]
fn palette_selection_follows_a_narrower_search() {
    let mut p = CommandPalette::new();
    p.set_search("s".to_string());
    p.handle_key(&Key::ArrowUp);
    assert_eq!(p.selected(), 5);
    p.set_search("scroll up".to_string());
    assert_eq!(p.selected(), 1);
    assert_eq!(p.handle_key(&Key::Enter), Some(TerminalAction::ScrollUpPage));
    assert_eq!(p.matches(), vec![TerminalAction::ScrollUp, TerminalAction::ScrollUpPage]);
}

#[test]
fn palette_with_no_matches() {
    let mut p = CommandPalette::new();
    p.set_search("zzz".to_string());
    p.handle_key(&Key::ArrowUp);
    assert_eq!(p.selected(), 0);
    p.set_search("quit".to_string());
    assert_eq!(p.selected(), 0);
    assert_eq!(p.handle_key(&Key::Enter), Some(TerminalAction::Quit));
}

#[test]
fn clicking_tab_titles() {
    let mut t = Tabs::new("pty0".to_string());
    t.open_terminal_tab("pty1".to_string());
    t.open_terminal_tab("pty2".to_string());
    assert_eq!(t.click_tab(0, MouseButton::Primary), TabEffect::Nothing);
    assert_eq!(t.current(), 0);
    t.set_current(2);
    t.click_tab(1, MouseButton::Auxiliary);
    assert_eq!((t.len(), t.current()), (2, 1));
    assert_eq!(t.tab(1).pty, "pty2");
    t.click_tab(0, MouseButton::Fourth);
    assert_eq!((t.len(), t.current()), (2, 1));
}

#[test]
fn first_key_encoding() {
    assert_eq!(key_event_to_str(&Key::Character("a".to_string())), "a");
    assert_eq!(key_event_to_str(&Key::Escape), "\u{1b}");
    assert_eq!(key_event_to_str(&Key::Delete), "\u{7f}");
    assert_eq!(key_event_to_str(&Key::Backspace), "\u{8}");
    assert_eq!(key_event_to_str(&Key::Enter), "\r\n");
    assert_eq!(key_event_to_str(&Key::Tab), "");
}

#[test]
fn palette_enter_runs_the_selection_and_closes() {
    let mut tabs = Tabs::new("pty0".to_string());
    tabs.handle_action(TerminalAction::ToggleCommandPalette);
    assert!(tabs.command_palette());
    let mut p = CommandPalette::new();
    p.set_search("open".to_string());
    assert_eq!(p.matches(), vec![TerminalAction::OpenSettings, TerminalAction::OpenDevTools]);
    assert_eq!(p.run_selected(&mut tabs), TabEffect::Nothing);
    assert!(!tabs.command_palette());
    assert_eq!(tabs.len(), 2);
    assert_eq!(tabs.current(), 1);
    assert_eq!(tabs.tab(1).name, "Settings");
    assert_eq!(tabs.tab(1).tab_type, TabType::Menu);
    assert_eq!(p.selected(), 0);
}

#[test]
fn palette_click_runs_that_row_and_closes() {
    let mut tabs = Tabs::new("pty0".to_string());
    tabs.handle_action(TerminalAction::ToggleCommandPalette);
    let mut p = CommandPalette::new();
    p.set_search("open".to_string());
    assert_eq!(p.run_row(1, &mut tabs), TabEffect::OpenDevTools);
    assert!(!tabs.command_palette());
    assert_eq!(tabs.len(), 1);
    p.set_search("new".to_string());
    tabs.handle_action(TerminalAction::ToggleCommandPalette);
    assert_eq!(p.run_row(0, &mut tabs), TabEffect::SpawnTerminal);
    assert!(!tabs.command_palette());
}

#[test]
fn palette_toggle_from_the_palette_leaves_it_closed() {
    let mut tabs = Tabs::new("pty0".to_string());
    tabs.handle_action(TerminalAction::ToggleCommandPalette);
    let mut p = CommandPalette::new();
    p.set_search("toggle".to_string());
    assert_eq!(p.run_selected(&mut tabs), TabEffect::Nothing);
    assert!(!tabs.command_palette());
}
