use prettyterm::form::{field_value, to_value, try_to_value, FormTree};

fn field(key: &str, values: &[&str]) -> (String, Vec<String>) {
    (key.to_string(), values.iter().map(|v| v.to_string()).collect())
}

fn obj(fields: Vec<(&str, FormTree)>) -> FormTree {
    FormTree::Object(fields.into_iter().map(|(k, v)| (k.to_string(), v)).collect())
}

fn text(s: &str) -> FormTree {
    FormTree::Str(s.to_string())
}

#[test]
fn empty_form_is_an_empty_object() {
    assert_eq!(to_value(vec![]), obj(vec![]));
}

#[test]
fn text_check_box_and_number_fields() {
    let t = to_value(vec![
        field("config.term.s", &["xterm"]),
        field("config.show_tabs.b", &["on"]),
        field("config.other.b", &["off"]),
        field("config.font_size.n", &["14"]),
    ]);
    assert_eq!(
        t,
        obj(vec![(
            "config",
            obj(vec![
                ("term", text("xterm")),
                ("show_tabs", FormTree::Bool(true)),
                ("other", FormTree::Bool(false)),
                ("font_size", FormTree::Number("14".to_string())),
            ])
        )])
    );
}

#[test]
fn other_kinds_are_lists_of_texts() {
    let t = to_value(vec![field("form.mods.list", &["a", "b"])]);
    assert_eq!(t, obj(vec![("form", obj(vec![("mods", FormTree::Array(vec![text("a"), text("b")]))]))]));
}

#[test]
fn later_fields_replace_earlier_ones() {
    let t = to_value(vec![field("f.a.s", &["1"]), field("f.a.s", &["2"])]);
    assert_eq!(t, obj(vec![("f", obj(vec![("a", text("2"))]))]));
}

#[test]
fn list_entries_along_the_path() {
    let t = to_value(vec![field("keybinds[0].key.s", &["t"])]);
    assert_eq!(t, obj(vec![("keybinds", FormTree::Array(vec![obj(vec![("key", text("t"))])]))]));
    // a second field of the same entry adds an empty object at the end of the list
    let t = to_value(vec![field("keybinds[0].key.s", &["t"]), field("keybinds[0].action.s", &["Quit"])]);
    assert_eq!(
        t,
        obj(vec![(
            "keybinds",
            FormTree::Array(vec![obj(vec![("key", text("t")), ("action", text("Quit"))]), obj(vec![])])
        )])
    );
}

#[test]
fn list_entries_at_the_end_are_padded_with_nulls() {
    let t = to_value(vec![field("f.xs[2].s", &["v"])]);
    assert_eq!(
        t,
        obj(vec![("f", obj(vec![("xs", FormTree::Array(vec![FormTree::Null, FormTree::Null, text("v")]))]))])
    );
    // the index digits are read back to front
    let t = to_value(vec![field("f.xs[12].s", &["v"])]);
    match t {
        FormTree::Object(fs) => match &fs[0].1 {
            FormTree::Object(inner) => match &inner[0].1 {
                FormTree::Array(items) => {
                    assert_eq!(items.len(), 22);
                    assert_eq!(items[21], text("v"));
                }
                other => panic!("unexpected {other:?}"),
            },
            other => panic!("unexpected {other:?}"),
        },
        other => panic!("unexpected {other:?}"),
    }
}

#[test]
fn fields_the_reader_fails_on() {
    assert_eq!(try_to_value(vec![field("name", &["x"])]), None);
    assert_eq!(try_to_value(vec![field("f.x.n", &["abc"])]), None);
    assert_eq!(try_to_value(vec![field("f.x.s", &[])]), None);
    assert_eq!(try_to_value(vec![field("f.a[x].s", &["1"])]), None);
    assert_eq!(try_to_value(vec![field("a[x].b.s", &["1"])]), None);
    assert_eq!(try_to_value(vec![field("a.s", &["1"]), field("a.b.s", &["2"])]), None);
    assert_eq!(try_to_value(vec![field("a[3].b.s", &["1"])]), None);
    assert_eq!(try_to_value(vec![field("f.x.n", &["-1.5e3"])]), Some(obj(vec![("f", obj(vec![("x", FormTree::Number("-1.5e3".to_string()))]))])));
}

#[test]
fn field_values_by_kind() {
    let v = vec!["14".to_string(), "x".to_string()];
    assert_eq!(field_value("n", &v, true), Some(FormTree::Number("14".to_string())));
    assert_eq!(field_value("n", &v, false), None);
    assert_eq!(field_value("s", &v, false), Some(FormTree::Str("14".to_string())));
    assert_eq!(field_value("b", &vec!["on".to_string()], false), Some(FormTree::Bool(true)));
    assert_eq!(field_value("b", &v, true), Some(FormTree::Bool(false)));
    assert_eq!(field_value("s", &vec![], true), None);
    assert_eq!(
        field_value("l", &v, false),
        Some(FormTree::Array(vec![FormTree::Str("14".to_string()), FormTree::Str("x".to_string())]))
    );
}
