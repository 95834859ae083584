use prettyterm::config::colour_pal::{
    default_pal, default_pal_hc, fill_out_pal, pal_groups, readable, serialize_pal_ordered, to_css, Palette,
};
use prettyterm::config::keybindings::{names_of_modifiers, parse_modifiers, to_mod, Key, Keybinding, Modifiers, RawKeybinding};
use prettyterm::config::palettes::{PaletteEditor, PaletteSet};
use prettyterm::config::plugins::{available_plugins, PluginConfig};
use prettyterm::config::watch::{FileEventKind, WatchedFiles};
use prettyterm::config::{startup_command, Config, TerminalAction};
use prettyterm::strmap::StrMap;

#[test]
fn readable_action_names() {
    assert_eq!(TerminalAction::NewTab.readable(), "New Tab");
    assert_eq!(TerminalAction::ToggleCommandPalette.readable(), "Toggle Command Palette");
    assert_eq!(TerminalAction::CloseTabSpecific(3).readable(), "Close Tab Specific");
    assert_eq!(TerminalAction::Quit.readable(), "Quit");
    assert_eq!(TerminalAction::Write("x".to_string()).as_ref(), "Write");
}

#[test]
fn action_variants() {
    let v = TerminalAction::variants();
    assert_eq!(v.len(), 22);
    assert_eq!(v[0], "NoAction");
    assert_eq!(v[21], "ScrollToTop");
}

#[test]
fn palette_usable_actions() {
    let v = TerminalAction::palette_usable();
    assert_eq!(v.len(), 18);
    assert_eq!(v[0], TerminalAction::OpenSettings);
    assert_eq!(v[17], TerminalAction::ScrollToTop);
    assert!(!v.contains(&TerminalAction::NoAction));
}

#[test]
fn default_palettes() {
    let p = default_pal();
    assert_eq!(p.get("red"), Some(&"#eb4034".to_string()));
    assert_eq!(p.get("nonexistent"), None);
    let hc = default_pal_hc();
    assert_eq!(hc.get("red"), Some(&"#ff0000".to_string()));
    assert_eq!(p.len(), hc.len());
}

#[test]
fn fill_out_keeps_existing_colours() {
    let mut p: Palette = StrMap::new();
    p.insert("red".to_string(), "#000000".to_string());
    p.insert("mine".to_string(), "#123456".to_string());
    fill_out_pal(&mut p);
    assert_eq!(p.get("red"), Some(&"#000000".to_string()));
    assert_eq!(p.get("mine"), Some(&"#123456".to_string()));
    assert_eq!(p.get("yellow"), default_pal().get("yellow"));
    assert_eq!(p.len(), default_pal().len() + 1);
    let before = p.len();
    fill_out_pal(&mut p);
    assert_eq!(p.len(), before);
}

#[test]
fn palette_as_css() {
    let mut p: Palette = StrMap::new();
    assert_eq!(to_css(&p), "\n    :root {\n        \n    }\n    ");
    p.insert("red".to_string(), "#ff0000".to_string());
    p.insert("fg".to_string(), "#ffffff".to_string());
    assert_eq!(to_css(&p), "\n    :root {\n        --red: #ff0000;\n--fg: #ffffff;\n    }\n    ");
}

#[test]
fn palette_as_toml_in_group_order() {
    let mut p: Palette = StrMap::new();
    p.insert("yellow".to_string(), "#ffff00".to_string());
    p.insert("red".to_string(), "#ff0000".to_string());
    p.insert("unlisted".to_string(), "#000000".to_string());
    assert_eq!(serialize_pal_ordered(p), "red = \"#ff0000\" \nyellow = \"#ffff00\" \n");
}

#[test]
fn palette_groups() {
    let g = pal_groups();
    assert_eq!(g[0], vec!["red", "yellow", "green", "cyan", "blue", "purple"]);
}

#[test]
fn colour_names_read_as_titles() {
    assert_eq!(readable("bright_red"), " Bright Red");
    assert_eq!(readable("fg"), " Fg");
    assert_eq!(readable(""), "");
}

#[test]
fn modifier_names_are_read_loosely() {
    let m = parse_modifiers(&vec![" Control ".to_string(), "ALT".to_string(), "hyper".to_string()]);
    assert_eq!(m, Modifiers { alt: true, control: true, meta: false, shift: false });
    assert_eq!(parse_modifiers(&vec![]), Modifiers::empty());
}

#[test]
fn modifier_names_round_trip() {
    let m = Modifiers { alt: true, control: false, meta: true, shift: true };
    let names = names_of_modifiers(m);
    assert_eq!(names, vec!["ALT".to_string(), "META".to_string(), "SHIFT".to_string()]);
    assert_eq!(parse_modifiers(&names), m);
}

#[test]
fn keybindings_to_and_from_storage() {
    let raw = RawKeybinding {
        key: "t".to_string(),
        modifiers: vec!["control".to_string(), "shift".to_string()],
        action: TerminalAction::NewTab,
    };
    let k = Keybinding::from_raw(raw, Key::Character("t".to_string()));
    assert_eq!(k.modifiers, Modifiers { alt: false, control: true, meta: false, shift: true });
    assert_eq!(k.action, TerminalAction::NewTab);
    let back = k.to_raw("t".to_string());
    assert_eq!(back.key, "t");
    assert_eq!(back.modifiers, vec!["CONTROL".to_string(), "SHIFT".to_string()]);
    assert_eq!(back.action, TerminalAction::NewTab);
    let d = Keybinding::default();
    assert_eq!(d.action, TerminalAction::NoAction);
}

#[test]
fn key_comparison() {
    assert!(Key::Character("a".to_string()).same(&Key::Character("a".to_string())));
    assert!(!Key::Character("a".to_string()).same(&Key::Character("b".to_string())));
    assert!(Key::Enter.same(&Key::Enter));
    assert!(!Key::Enter.same(&Key::Tab));
}

#[test]
fn default_config() {
    let c = Config::default();
    assert_eq!(c.font_size, 14);
    assert_eq!(c.max_scrollback, 1000);
    assert_eq!(c.default_cwd, "~");
    assert_eq!(c.term, "xterm-256color");
    assert_eq!(c.palette, "default");
    assert!(c.show_tabs);
}

#[test]
fn startup_command_is_passed_only_when_empty() {
    let c = Config::default();
    assert_eq!(startup_command(&c), Some(String::new()));
    let c = Config { start_up_command: "htop".to_string(), ..Config::default() };
    assert_eq!(startup_command(&c), None);
}

#[test]
fn plugins_enable_and_disable() {
    let mut p = PluginConfig::default();
    p.disable_plugin("a");
    p.disable_plugin("b");
    p.disable_plugin("a");
    assert_eq!(p.disabled_plugins, vec!["a", "b", "a"]);
    p.enable_plugin("a");
    assert_eq!(p.disabled_plugins, vec!["b"]);
    p.enable_plugin("zzz");
    assert_eq!(p.disabled_plugins, vec!["b"]);
    assert!(available_plugins().is_empty());
}

#[test]
fn string_map_reads_back_writes() {
    let mut m = StrMap::new();
    assert_eq!(m.len(), 0);
    m.insert("k".to_string(), "1".to_string());
    m.insert("j".to_string(), "2".to_string());
    m.insert("k".to_string(), "3".to_string());
    assert_eq!(m.len(), 2);
    assert_eq!(m.get("k"), Some(&"3".to_string()));
    assert!(m.contains_key("j"));
    assert!(!m.contains_key("x"));
    let (k, v) = m.entry_at(1);
    assert_eq!((k.as_str(), v.as_str()), ("j", "2"));
}

#[test]
fn palette_sets_create_edit_and_delete() {
    let mut s = PaletteSet::with_default();
    assert_eq!(s.names(), vec!["default".to_string()]);
    assert!(!s.create_new(String::new()));
    assert_eq!(s.len(), 1);
    assert!(s.create_new("mine".to_string()));
    assert_eq!(s.names(), vec!["default".to_string(), "mine".to_string()]);
    assert_eq!(s.colour("mine", "red"), "#eb4034");
    s.set_colour("mine", "red".to_string(), "#010203".to_string());
    assert_eq!(s.colour("mine", "red"), "#010203");
    assert_eq!(s.colour("default", "red"), "#eb4034");
    assert_eq!(s.colour("mine", "yellow"), "#ebe234");
    s.remove("default");
    assert!(s.get("default").is_none());
    assert_eq!(s.names(), vec!["mine".to_string()]);
    s.remove("absent");
    assert_eq!(s.len(), 1);
    let all = s.into_palettes();
    assert_eq!(all.len(), 1);
    assert_eq!(all[0].0, "mine");
}

#[test]
fn key_names_read_back() {
    assert_eq!(Key::from_name("Enter"), Key::Enter);
    assert_eq!(Key::from_name("ArrowUp"), Key::ArrowUp);
    assert_eq!(Key::from_name("t"), Key::Character("t".to_string()));
    assert_eq!(Key::from_name("enter"), Key::Character("enter".to_string()));
    for name in ["Enter", "Tab", "Escape", "Delete", "Backspace", "ArrowRight", "ArrowLeft", "ArrowUp", "ArrowDown", "x", ""] {
        assert_eq!(Key::from_name(name).name(), name);
    }
    assert_eq!(Key::Other("F1".to_string()).name(), "F1");
}

#[test]
fn watched_files_collect_created_files() {
    let mut w = WatchedFiles::new();
    w.handle_file_event(FileEventKind::Create, "a.toml".to_string(), Some("x = 1".to_string()));
    w.handle_file_event(FileEventKind::Create, "b.toml".to_string(), None);
    w.handle_file_event(FileEventKind::Other, "c.toml".to_string(), Some("y".to_string()));
    assert_eq!(w.files, vec![("a.toml".to_string(), "x = 1".to_string())]);
}

#[test]
fn palette_editor_edits_what_it_creates() {
    let mut e = PaletteEditor::new(PaletteSet::with_default());
    assert_eq!(e.editing(), "default");
    e.create_new(String::new());
    assert_eq!(e.editing(), "default");
    assert_eq!(e.palettes().len(), 1);
    e.create_new("night".to_string());
    assert_eq!(e.editing(), "night");
    assert_eq!(e.palettes().names(), vec!["default".to_string(), "night".to_string()]);
    assert_eq!(e.colour("red"), "#eb4034");
    e.set_colour("red".to_string(), "#000001".to_string());
    assert_eq!(e.colour("red"), "#000001");
    assert_eq!(e.palettes().colour("default", "red"), "#eb4034");
    e.select("default".to_string());
    assert_eq!(e.editing(), "default");
    e.delete();
    assert!(e.palettes().get("default").is_none());
    assert_eq!(e.editing(), "default");
    assert_eq!(e.into_palettes().names(), vec!["night".to_string()]);
}

#[test]
fn palette_groups_hold_every_colour_name_once() {
    let groups = pal_groups();
    assert_eq!(groups.iter().map(|g| g.len()).collect::<Vec<_>>(), vec![6, 6, 5, 5]);
    let mut names: Vec<&str> = groups.concat();
    names.sort();
    names.dedup();
    assert_eq!(names.len(), 22);
    let pal = default_pal();
    let hc = default_pal_hc();
    assert_eq!(pal.len(), 22);
    assert_eq!(hc.len(), 22);
    for n in names {
        assert!(pal.contains_key(n), "{n}");
        assert!(hc.contains_key(n), "{n}");
    }
}

#[test]
fn stored_modifier_bits_are_read() {
    let m = to_mod("1,8".to_string());
    assert_eq!(m, Modifiers { alt: true, control: true, meta: false, shift: false });
    assert_eq!(to_mod("512".to_string()), Modifiers { alt: false, control: false, meta: false, shift: true });
    assert_eq!(to_mod("66".to_string()), Modifiers { alt: false, control: false, meta: true, shift: false });
    assert_eq!(to_mod("+0,4".to_string()), Modifiers::empty());
    assert_eq!(to_mod("16383".to_string()), Modifiers { alt: true, control: true, meta: true, shift: true });
}
