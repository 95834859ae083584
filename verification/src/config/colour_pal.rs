use vstd::prelude::*;
use crate::strmap::StrMap;
use crate::text::{push_char, char_upper_first, upper_first};

verus! {

/// A colour palette: colour name to CSS colour.
pub type Palette = StrMap;

/// `--name: value;`, one CSS custom property.
pub open spec fn css_decl(e: (Seq<char>, Seq<char>)) -> Seq<char> {
    "--"@ + e.0 + ": "@ + e.1 + ";"@
}

/// The declarations of the entries, one per line.
pub open spec fn css_body(entries: Seq<(Seq<char>, Seq<char>)>) -> Seq<char>
    decreases entries.len(),
{
    if entries.len() == 0 {
        Seq::empty()
    } else if entries.len() == 1 {
        css_decl(entries[0])
    } else {
        css_body(entries.drop_last()) + "\n"@ + css_decl(entries.last())
    }
}

pub open spec fn css_sheet(entries: Seq<(Seq<char>, Seq<char>)>) -> Seq<char> {
    "\n    :root {\n        "@ + css_body(entries) + "\n    }\n    "@
}

/// A style sheet that defines every colour of the palette as a CSS custom
/// property of `:root`, in the palette's order.
pub fn to_css(pal: &Palette) -> (css: String)
    ensures
        css@ == css_sheet(pal.entries()),
{
    let mut body = String::new();
    let n = pal.len();
    let mut i: usize = 0;
    while i < n
        invariant
            i <= n,
            n == pal.entries().len(),
            body@ == css_body(pal.entries().take(i as int)),
        decreases n - i,
    {
        let (key, value) = pal.entry_at(i);
        let ghost e = pal.entries()[i as int];
        assert(pal.entries().take(i + 1).drop_last() =~= pal.entries().take(i as int));
        assert(pal.entries().take(i + 1).last() == e);
        if i > 0 {
            body.append("\n");
        }
        body.append("--");
        body.append(key.as_str());
        body.append(": ");
        body.append(value.as_str());
        body.append(";");
        proof {
            if i == 0 {
                assert(pal.entries().take(1) =~= seq![e]);
                assert(body@ =~= css_decl(e));
            } else {
                assert(body@ =~= css_body(pal.entries().take(i as int)) + "\n"@ + css_decl(e));
            }
        }
        i = i + 1;
    }
    assert(pal.entries().take(n as int) =~= pal.entries());
    let mut css = String::new();
    css.append("\n    :root {\n        ");
    css.append(body.as_str());
    css.append("\n    }\n    ");
    css
}

pub open spec fn default_pal_map() -> Map<Seq<char>, Seq<char>> {
    Map::empty()
        .insert("red"@, "#eb4034"@)
        .insert("yellow"@, "#ebe234"@)
        .insert("green"@, "#5feb34"@)
        .insert("cyan"@, "#34e5eb"@)
        .insert("blue"@, "#4C13F6"@)
        .insert("purple"@, "#E666FF"@)
        .insert("bright_red"@, "#ff7f7a"@)
        .insert("bright_yellow"@, "#f3ffa3"@)
        .insert("bright_green"@, "#a8fa9d"@)
        .insert("bright_blue"@, "#6f63f7"@)
        .insert("bright_cyan"@, "#8eeef5"@)
        .insert("bright_purple"@, "#e48ef5"@)
        .insert("fg0"@, "#ffffff"@)
        .insert("fg1"@, "#ededf2"@)
        .insert("fg2"@, "#cfcfd4"@)
        .insert("fg3"@, "#a5a5ad"@)
        .insert("fg4"@, "#94949c"@)
        .insert("bg4"@, "#777780"@)
        .insert("bg3"@, "#616169"@)
        .insert("bg2"@, "#47474d"@)
        .insert("bg1"@, "#2a2a2e"@)
        .insert("bg0"@, "#1b1b1f"@)
}

pub open spec fn default_pal_hc_map() -> Map<Seq<char>, Seq<char>> {
    Map::empty()
        .insert("red"@, "#ff0000"@)
        .insert("yellow"@, "#ffff00"@)
        .insert("green"@, "#00ff00"@)
        .insert("cyan"@, "#00ffff"@)
        .insert("blue"@, "#0000ff"@)
        .insert("purple"@, "#ff00ff"@)
        .insert("bright_red"@, "#ff7f7a"@)
        .insert("bright_yellow"@, "#f3ffa3"@)
        .insert("bright_green"@, "#a8fa9d"@)
        .insert("bright_blue"@, "#6f63f7"@)
        .insert("bright_cyan"@, "#8eeef5"@)
        .insert("bright_purple"@, "#e48ef5"@)
        .insert("fg0"@, "#ffffff"@)
        .insert("fg1"@, "#ffffff"@)
        .insert("fg2"@, "#ffffff"@)
        .insert("fg3"@, "#ffffff"@)
        .insert("fg4"@, "#ffffff"@)
        .insert("bg4"@, "#1b1b1f"@)
        .insert("bg3"@, "#1b1b1f"@)
        .insert("bg2"@, "#1b1b1f"@)
        .insert("bg1"@, "#1b1b1f"@)
        .insert("bg0"@, "#1b1b1f"@)
}

fn put(pal: &mut Palette, key: &str, value: &str)
    ensures
        final(pal)@ == old(pal)@.insert(key@, value@),
{
    pal.insert(key.to_owned(), value.to_owned());
}

/// The built-in palette.
pub fn default_pal() -> (pal: Palette)
    ensures
        pal@ == default_pal_map(),
{
    let mut p = StrMap::new();
    put(&mut p, "red", "#eb4034");
    put(&mut p, "yellow", "#ebe234");
    put(&mut p, "green", "#5feb34");
    put(&mut p, "cyan", "#34e5eb");
    put(&mut p, "blue", "#4C13F6");
    put(&mut p, "purple", "#E666FF");
    put(&mut p, "bright_red", "#ff7f7a");
    put(&mut p, "bright_yellow", "#f3ffa3");
    put(&mut p, "bright_green", "#a8fa9d");
    put(&mut p, "bright_blue", "#6f63f7");
    put(&mut p, "bright_cyan", "#8eeef5");
    put(&mut p, "bright_purple", "#e48ef5");
    put(&mut p, "fg0", "#ffffff");
    put(&mut p, "fg1", "#ededf2");
    put(&mut p, "fg2", "#cfcfd4");
    put(&mut p, "fg3", "#a5a5ad");
    put(&mut p, "fg4", "#94949c");
    put(&mut p, "bg4", "#777780");
    put(&mut p, "bg3", "#616169");
    put(&mut p, "bg2", "#47474d");
    put(&mut p, "bg1", "#2a2a2e");
    put(&mut p, "bg0", "#1b1b1f");
    p
}

/// The built-in high-contrast palette.
pub fn default_pal_hc() -> (pal: Palette)
    ensures
        pal@ == default_pal_hc_map(),
{
    let mut p = StrMap::new();
    put(&mut p, "red", "#ff0000");
    put(&mut p, "yellow", "#ffff00");
    put(&mut p, "green", "#00ff00");
    put(&mut p, "cyan", "#00ffff");
    put(&mut p, "blue", "#0000ff");
    put(&mut p, "purple", "#ff00ff");
    put(&mut p, "bright_red", "#ff7f7a");
    put(&mut p, "bright_yellow", "#f3ffa3");
    put(&mut p, "bright_green", "#a8fa9d");
    put(&mut p, "bright_blue", "#6f63f7");
    put(&mut p, "bright_cyan", "#8eeef5");
    put(&mut p, "bright_purple", "#e48ef5");
    put(&mut p, "fg0", "#ffffff");
    put(&mut p, "fg1", "#ffffff");
    put(&mut p, "fg2", "#ffffff");
    put(&mut p, "fg3", "#ffffff");
    put(&mut p, "fg4", "#ffffff");
    put(&mut p, "bg4", "#1b1b1f");
    put(&mut p, "bg3", "#1b1b1f");
    put(&mut p, "bg2", "#1b1b1f");
    put(&mut p, "bg1", "#1b1b1f");
    put(&mut p, "bg0", "#1b1b1f");
    p
}

/// The colour names of a palette, grouped as the palette editor shows them.
pub open spec fn spec_pal_groups() -> Seq<Seq<Seq<char>>> {
    seq![
        seq!["red"@, "yellow"@, "green"@, "cyan"@, "blue"@, "purple"@],
        seq!["bright_red"@, "bright_yellow"@, "bright_green"@, "bright_cyan"@, "bright_blue"@, "bright_purple"@],
        seq!["fg0"@, "fg1"@, "fg2"@, "fg3"@, "fg4"@],
        seq!["bg0"@, "bg1"@, "bg2"@, "bg3"@, "bg4"@],
    ]
}

pub fn pal_groups() -> (g: Vec<Vec<&'static str>>)
    ensures
        g@.len() == spec_pal_groups().len(),
        forall|i: int| 0 <= i < g@.len() ==> (#[trigger] g@[i])@.len() == spec_pal_groups()[i].len(),
        forall|i: int, j: int| 0 <= i < g@.len() && 0 <= j < g@[i]@.len() ==> (#[trigger] g@[i]@[j])@ == spec_pal_groups()[i][j],
{
    let g = vec![
        vec!["red", "yellow", "green", "cyan", "blue", "purple"],
        vec!["bright_red", "bright_yellow", "bright_green", "bright_cyan", "bright_blue", "bright_purple"],
        vec!["fg0", "fg1", "fg2", "fg3", "fg4"],
        vec!["bg0", "bg1", "bg2", "bg3", "bg4"],
    ];
    g
}

/// Gives the palette every colour of the built-in palette that it lacks;
/// the colours it has stay as they are.
pub fn fill_out_pal(pal: &mut Palette)
    ensures
        final(pal)@ == default_pal_map().union_prefer_right(old(pal)@),
{
    let def = default_pal();
    let n = def.len();
    let ghost start = pal@;
    proof {
        use_type_invariant(&def);
        def.lemma_entries();
    }
    let mut i: usize = 0;
    while i < n
        invariant
            i <= n,
            n == def.entries().len(),
            def@ == default_pal_map(),
            pal@ == Map::new(|k: Seq<char>| exists|j: int| 0 <= j < i && def.entries()[j].0 == k, |k: Seq<char>| def@[k]).union_prefer_right(start),
        decreases n - i,
    {
        let (key, colour) = def.entry_at(i);
        let ghost e = def.entries()[i as int];
        let ghost d0 = Map::new(|k: Seq<char>| exists|j: int| 0 <= j < i && def.entries()[j].0 == k, |k: Seq<char>| def@[k]);
        let ghost d1 = Map::new(|k: Seq<char>| exists|j: int| 0 <= j < i + 1 && def.entries()[j].0 == k, |k: Seq<char>| def@[k]);
        let ghost before = pal@;
        proof {
            use_type_invariant(&def);
        def.lemma_entries();
            assert(def@.contains_key(e.0));
            assert(def@[e.0] == e.1);
            assert forall|k: Seq<char>| d1.contains_key(k) == (d0.contains_key(k) || k == e.0) by {
                if k == e.0 {
                    assert(def.entries()[i as int].0 == k);
                }
                if d1.contains_key(k) && k != e.0 {
                    let j = choose|j: int| 0 <= j < i + 1 && def.entries()[j].0 == k;
                    assert(j != i);
                }
            }
            assert(d1 =~= d0.insert(e.0, e.1));
            assert(!d0.contains_key(e.0)) by {
                if d0.contains_key(e.0) {
                    let j = choose|j: int| 0 <= j < i && def.entries()[j].0 == e.0;
                    assert(def.entries()[j].0 != def.entries()[i as int].0);
                }
            }
        }
        if !pal.contains_key(key.as_str()) {
            pal.insert(key.clone(), colour.clone());
            assert(pal@ =~= d1.union_prefer_right(start));
        } else {
            assert(start.contains_key(e.0));
            assert(pal@ =~= d1.union_prefer_right(start));
        }
        i = i + 1;
    }
    proof {
        use_type_invariant(&def);
        def.lemma_entries();
    }
    assert(pal@ =~= default_pal_map().union_prefer_right(start));
}

/// The colour groups the settings show: four groups, of six, six, five and
/// five names; no name stands in two places, and together the groups hold
/// exactly the colour names of the built-in palette, which are those of the
/// high-contrast one.
#[verifier::rlimit(50)]
pub proof fn law_pal_groups_cover_palettes()
    ensures
        spec_pal_groups().map_values(|g: Seq<Seq<char>>| g.len()) == seq![6nat, 6nat, 5nat, 5nat],
        spec_pal_groups().flatten().no_duplicates(),
        spec_pal_groups().flatten().to_set() == default_pal_map().dom(),
        default_pal_hc_map().dom() == default_pal_map().dom(),
{
    reveal_strlit("red");
    reveal_strlit("yellow");
    reveal_strlit("green");
    reveal_strlit("cyan");
    reveal_strlit("blue");
    reveal_strlit("purple");
    reveal_strlit("bright_red");
    reveal_strlit("bright_yellow");
    reveal_strlit("bright_green");
    reveal_strlit("bright_cyan");
    reveal_strlit("bright_blue");
    reveal_strlit("bright_purple");
    reveal_strlit("fg0");
    reveal_strlit("fg1");
    reveal_strlit("fg2");
    reveal_strlit("fg3");
    reveal_strlit("fg4");
    reveal_strlit("bg0");
    reveal_strlit("bg1");
    reveal_strlit("bg2");
    reveal_strlit("bg3");
    reveal_strlit("bg4");
    let g = spec_pal_groups();
    assert(g.map_values(|g: Seq<Seq<char>>| g.len()) =~= seq![6nat, 6nat, 5nat, 5nat]);
    let f = g.flatten();
    assert(f =~= g[0] + (g[1] + (g[2] + (g[3] + Seq::empty())))) by {
        reveal_with_fuel(Seq::flatten, 5);
    }
    assert(f[0] == "red"@);
    assert(f[1] == "yellow"@);
    assert(f[2] == "green"@);
    assert(f[3] == "cyan"@);
    assert(f[4] == "blue"@);
    assert(f[5] == "purple"@);
    assert(f[6] == "bright_red"@);
    assert(f[7] == "bright_yellow"@);
    assert(f[8] == "bright_green"@);
    assert(f[9] == "bright_cyan"@);
    assert(f[10] == "bright_blue"@);
    assert(f[11] == "bright_purple"@);
    assert(f[12] == "fg0"@);
    assert(f[13] == "fg1"@);
    assert(f[14] == "fg2"@);
    assert(f[15] == "fg3"@);
    assert(f[16] == "fg4"@);
    assert(f[17] == "bg0"@);
    assert(f[18] == "bg1"@);
    assert(f[19] == "bg2"@);
    assert(f[20] == "bg3"@);
    assert(f[21] == "bg4"@);
    assert forall|i: int, j: int| 0 <= i < j < f.len() implies #[trigger] f[i] != #[trigger] f[j] by {
        // Split on the row of each name; two names differ in their length or
        // in one of the letters 0, 2 or 7.
        assert(
            i == 0 || i == 1 || i == 2 || i == 3 || i == 4 || i == 5 || i == 6 || i == 7
                || i == 8 || i == 9 || i == 10 || i == 11 || i == 12 || i == 13 || i == 14 || i == 15
                || i == 16 || i == 17 || i == 18 || i == 19 || i == 20 || i == 21
        );
        assert(
            j == 0 || j == 1 || j == 2 || j == 3 || j == 4 || j == 5 || j == 6 || j == 7
                || j == 8 || j == 9 || j == 10 || j == 11 || j == 12 || j == 13 || j == 14 || j == 15
                || j == 16 || j == 17 || j == 18 || j == 19 || j == 20 || j == 21
        );
        assert(f[i].len() != f[j].len() || f[i][0] != f[j][0] || f[i][2] != f[j][2] || f[i][7] != f[j][7]);
    }
    assert(f.no_duplicates());
    assert(forall|k: Seq<char>| default_pal_map().dom().contains(k) ==> f.contains(k));
    assert(f.to_set() =~= default_pal_map().dom());
    assert(default_pal_hc_map().dom() =~= default_pal_map().dom());
}

/// The colour names, in the order the palettes list them.
spec fn colour_names() -> Seq<Seq<char>> {
    seq![
        "red"@,
        "yellow"@,
        "green"@,
        "cyan"@,
        "blue"@,
        "purple"@,
        "bright_red"@,
        "bright_yellow"@,
        "bright_green"@,
        "bright_blue"@,
        "bright_cyan"@,
        "bright_purple"@,
        "fg0"@,
        "fg1"@,
        "fg2"@,
        "fg3"@,
        "fg4"@,
        "bg4"@,
        "bg3"@,
        "bg2"@,
        "bg1"@,
        "bg0"@
    ]
}

/// No two colour names are the same.
#[verifier::rlimit(50)]
proof fn lemma_colour_names_distinct()
    ensures
        colour_names()[0] == "red"@,
        colour_names()[1] == "yellow"@,
        colour_names()[2] == "green"@,
        colour_names()[3] == "cyan"@,
        colour_names()[4] == "blue"@,
        colour_names()[5] == "purple"@,
        colour_names()[6] == "bright_red"@,
        colour_names()[7] == "bright_yellow"@,
        colour_names()[8] == "bright_green"@,
        colour_names()[9] == "bright_blue"@,
        colour_names()[10] == "bright_cyan"@,
        colour_names()[11] == "bright_purple"@,
        colour_names()[12] == "fg0"@,
        colour_names()[13] == "fg1"@,
        colour_names()[14] == "fg2"@,
        colour_names()[15] == "fg3"@,
        colour_names()[16] == "fg4"@,
        colour_names()[17] == "bg4"@,
        colour_names()[18] == "bg3"@,
        colour_names()[19] == "bg2"@,
        colour_names()[20] == "bg1"@,
        colour_names()[21] == "bg0"@,
        forall|i: int, j: int| 0 <= i < j < 22 ==> #[trigger] colour_names()[i] != #[trigger] colour_names()[j],
{
    reveal_strlit("red");
    reveal_strlit("yellow");
    reveal_strlit("green");
    reveal_strlit("cyan");
    reveal_strlit("blue");
    reveal_strlit("purple");
    reveal_strlit("bright_red");
    reveal_strlit("bright_yellow");
    reveal_strlit("bright_green");
    reveal_strlit("bright_blue");
    reveal_strlit("bright_cyan");
    reveal_strlit("bright_purple");
    reveal_strlit("fg0");
    reveal_strlit("fg1");
    reveal_strlit("fg2");
    reveal_strlit("fg3");
    reveal_strlit("fg4");
    reveal_strlit("bg4");
    reveal_strlit("bg3");
    reveal_strlit("bg2");
    reveal_strlit("bg1");
    reveal_strlit("bg0");
    let f = colour_names();
    assert forall|i: int, j: int| 0 <= i < j < 22 implies #[trigger] f[i] != #[trigger] f[j] by {
        // Split on the row of each name; two names differ in their length or
        // in one of the letters 0, 2 or 7.
        assert(
            i == 0 || i == 1 || i == 2 || i == 3 || i == 4 || i == 5 || i == 6 || i == 7
                || i == 8 || i == 9 || i == 10 || i == 11 || i == 12 || i == 13 || i == 14 || i == 15
                || i == 16 || i == 17 || i == 18 || i == 19 || i == 20 || i == 21
        );
        assert(
            j == 0 || j == 1 || j == 2 || j == 3 || j == 4 || j == 5 || j == 6 || j == 7
                || j == 8 || j == 9 || j == 10 || j == 11 || j == 12 || j == 13 || j == 14 || j == 15
                || j == 16 || j == 17 || j == 18 || j == 19 || j == 20 || j == 21
        );
        assert(f[i].len() != f[j].len() || f[i][0] != f[j][0] || f[i][2] != f[j][2] || f[i][7] != f[j][7]);
    }
}

/// The built-in palette gives each colour name its colour: the six plain
/// colours, their six bright forms, five text shades from white down and
/// five background shades from the darkest up.
#[verifier::rlimit(50)]
pub proof fn law_built_in_colours()
    ensures
        default_pal_map()["red"@] == "#eb4034"@,
        default_pal_map()["yellow"@] == "#ebe234"@,
        default_pal_map()["green"@] == "#5feb34"@,
        default_pal_map()["cyan"@] == "#34e5eb"@,
        default_pal_map()["blue"@] == "#4C13F6"@,
        default_pal_map()["purple"@] == "#E666FF"@,
        default_pal_map()["bright_red"@] == "#ff7f7a"@,
        default_pal_map()["bright_yellow"@] == "#f3ffa3"@,
        default_pal_map()["bright_green"@] == "#a8fa9d"@,
        default_pal_map()["bright_blue"@] == "#6f63f7"@,
        default_pal_map()["bright_cyan"@] == "#8eeef5"@,
        default_pal_map()["bright_purple"@] == "#e48ef5"@,
        default_pal_map()["fg0"@] == "#ffffff"@,
        default_pal_map()["fg1"@] == "#ededf2"@,
        default_pal_map()["fg2"@] == "#cfcfd4"@,
        default_pal_map()["fg3"@] == "#a5a5ad"@,
        default_pal_map()["fg4"@] == "#94949c"@,
        default_pal_map()["bg4"@] == "#777780"@,
        default_pal_map()["bg3"@] == "#616169"@,
        default_pal_map()["bg2"@] == "#47474d"@,
        default_pal_map()["bg1"@] == "#2a2a2e"@,
        default_pal_map()["bg0"@] == "#1b1b1f"@,
{
    lemma_colour_names_distinct();
}

/// The high-contrast palette gives the six plain colours their pure form,
/// keeps the bright colours of the built-in palette, draws all text white
/// and every background shade in the built-in palette's darkest one.
#[verifier::rlimit(50)]
pub proof fn law_high_contrast_colours()
    ensures
        default_pal_hc_map()["red"@] == "#ff0000"@,
        default_pal_hc_map()["yellow"@] == "#ffff00"@,
        default_pal_hc_map()["green"@] == "#00ff00"@,
        default_pal_hc_map()["cyan"@] == "#00ffff"@,
        default_pal_hc_map()["blue"@] == "#0000ff"@,
        default_pal_hc_map()["purple"@] == "#ff00ff"@,
        forall|k: Seq<char>| #![trigger default_pal_hc_map()[k]]
            k == "bright_red"@ || k == "bright_yellow"@ || k == "bright_green"@ || k == "bright_blue"@
            || k == "bright_cyan"@ || k == "bright_purple"@ ==> default_pal_hc_map()[k] == default_pal_map()[k],
        forall|k: Seq<char>| #![trigger default_pal_hc_map()[k]]
            k == "fg0"@ || k == "fg1"@ || k == "fg2"@ || k == "fg3"@ || k == "fg4"@ ==> default_pal_hc_map()[k] == "#ffffff"@,
        forall|k: Seq<char>| #![trigger default_pal_hc_map()[k]]
            k == "bg0"@ || k == "bg1"@ || k == "bg2"@ || k == "bg3"@ || k == "bg4"@
                ==> default_pal_hc_map()[k] == default_pal_map()["bg0"@],
{
    lemma_colour_names_distinct();
}

/// A palette of one colour is one declaration `--name: value;`; each
/// further colour adds a line with its declaration after the others.
pub proof fn law_css_declarations(es: Seq<(Seq<char>, Seq<char>)>, e: (Seq<char>, Seq<char>))
    ensures
        css_body(seq![e]) == "--"@ + e.0 + ": "@ + e.1 + ";"@,
        es.len() > 0 ==> css_body(es.push(e)) == css_body(es) + "\n"@ + ("--"@ + e.0 + ": "@ + e.1 + ";"@),
{
    assert(es.push(e).drop_last() =~= es);
}

/// Each colour name of the groups that the palette has adds one line
/// `name = "colour"` after the others; a name it lacks adds nothing.
pub proof fn law_toml_lines(m: Map<Seq<char>, Seq<char>>, keys: Seq<Seq<char>>, k: Seq<char>)
    ensures
        m.contains_key(k) ==> toml_lines(m, keys.push(k)) == toml_lines(m, keys) + (k + " = \""@ + m[k] + "\" \n"@),
        !m.contains_key(k) ==> toml_lines(m, keys.push(k)) == toml_lines(m, keys),
        toml_lines(Map::empty(), keys) == Seq::<char>::empty(),
    decreases keys.len(),
{
    assert(keys.push(k).drop_last() =~= keys);
    if keys.len() > 0 {
        law_toml_lines(m, keys.drop_last(), keys.last());
    }
    assert(toml_lines(Map::empty(), keys) =~= Seq::<char>::empty());
}

/// A colour name without underscores is labelled with a leading space and
/// its first letter in upper case, the rest as it was.
pub proof fn law_label_of_plain_name(text: Seq<char>)
    requires
        text.len() > 0,
        forall|i: int| 0 <= i < text.len() ==> text[i] != '_',
    ensures
        colour_label(text) == seq![' ', upper_first(text[0])] + text.drop_first(),
    decreases text.len(),
{
    if text.len() > 1 {
        let init = text.drop_last();
        assert forall|i: int| 0 <= i < init.len() implies init[i] != '_' by {
            assert(init[i] == text[i]);
        }
        law_label_of_plain_name(init);
        assert(text[text.len() - 2] != '_');
        assert(text[text.len() - 1] != '_');
        assert(colour_label(text) == colour_label(init) + seq![text.last()]);
        assert(init.drop_first().push(text.last()) =~= text.drop_first());
        assert(init[0] == text[0]);
        assert(colour_label(text) =~= seq![' ', upper_first(text[0])] + text.drop_first());
    } else {
        assert(text[0] != '_');
        assert(text.drop_last() =~= Seq::<char>::empty());
        assert(colour_label(text.drop_last()) == Seq::<char>::empty());
        assert(text.drop_first() =~= Seq::<char>::empty());
        assert(colour_label(text) =~= seq![' ', upper_first(text[0])] + text.drop_first());
    }
}

/// Filling out a palette gives it every colour name of the built-in
/// palette, keeps every colour it had, and filling it out again changes
/// nothing.
pub proof fn law_fill_out_pal(p: Map<Seq<char>, Seq<char>>)
    ensures
        forall|k: Seq<char>| default_pal_map().contains_key(k) ==> #[trigger] default_pal_map().union_prefer_right(p).contains_key(k),
        forall|k: Seq<char>| #[trigger] p.contains_key(k) ==> default_pal_map().union_prefer_right(p)[k] == p[k],
        default_pal_map().union_prefer_right(default_pal_map().union_prefer_right(p)) == default_pal_map().union_prefer_right(p),
{
    let once = default_pal_map().union_prefer_right(p);
    assert(default_pal_map().union_prefer_right(once) =~= once);
}

/// `key = "colour" ` and a newline, for each key of `keys` the palette has.
pub open spec fn toml_lines(m: Map<Seq<char>, Seq<char>>, keys: Seq<Seq<char>>) -> Seq<char>
    decreases keys.len(),
{
    if keys.len() == 0 {
        Seq::empty()
    } else {
        toml_lines(m, keys.drop_last()) + if m.contains_key(keys.last()) {
            keys.last() + " = \""@ + m[keys.last()] + "\" \n"@
        } else {
            Seq::empty()
        }
    }
}

pub open spec fn toml_groups(m: Map<Seq<char>, Seq<char>>, groups: Seq<Seq<Seq<char>>>) -> Seq<char>
    decreases groups.len(),
{
    if groups.len() == 0 {
        Seq::empty()
    } else {
        toml_groups(m, groups.drop_last()) + toml_lines(m, groups.last())
    }
}

/// The palette as TOML, one `name = "colour"` line per colour, in the order
/// of `pal_groups`; colours outside the groups are left out.
pub fn serialize_pal_ordered(pal: Palette) -> (toml: String)
    ensures
        toml@ == toml_groups(pal@, spec_pal_groups()),
{
    let mut toml = String::new();
    let groups = pal_groups();
    let ghost gs = spec_pal_groups();
    let mut gi: usize = 0;
    while gi < groups.len()
        invariant
            gi <= groups@.len(),
            groups@.len() == gs.len(),
            forall|i: int| 0 <= i < groups@.len() ==> (#[trigger] groups@[i])@.len() == gs[i].len(),
            forall|i: int, j: int| 0 <= i < groups@.len() && 0 <= j < groups@[i]@.len() ==> (#[trigger] groups@[i]@[j])@ == gs[i][j],
            toml@ == toml_groups(pal@, gs.take(gi as int)),
        decreases groups.len() - gi,
    {
        let group = &groups[gi];
        let ghost before = toml@;
        let mut ki: usize = 0;
        while ki < group.len()
            invariant
                ki <= group@.len(),
                group@.len() == gs[gi as int].len(),
                forall|j: int| 0 <= j < group@.len() ==> (#[trigger] group@[j])@ == gs[gi as int][j],
                toml@ == before + toml_lines(pal@, gs[gi as int].take(ki as int)),
            decreases group.len() - ki,
        {
            let key: &str = group[ki];
            assert(gs[gi as int].take(ki + 1).drop_last() =~= gs[gi as int].take(ki as int));
            assert(gs[gi as int].take(ki + 1).last() == key@);
            match pal.get(key) {
                Some(colour) => {
                    toml.append(key);
                    toml.append(" = \"");
                    toml.append(colour.as_str());
                    toml.append("\" \n");
                },
                None => {},
            }
            assert(toml@ =~= before + toml_lines(pal@, gs[gi as int].take(ki + 1)));
            ki = ki + 1;
        }
        assert(gs[gi as int].take(ki as int) =~= gs[gi as int]);
        assert(gs.take(gi + 1).drop_last() =~= gs.take(gi as int));
        gi = gi + 1;
    }
    assert(gs.take(gi as int) =~= gs);
    toml
}

/// The label the palette editor shows for a colour name: each `_` is
/// dropped and the character after it (and the first character) is
/// upper-cased and preceded by a space, so `bright_red` reads ` Bright Red`.
pub open spec fn colour_label(text: Seq<char>) -> Seq<char>
    decreases text.len(),
{
    if text.len() == 0 {
        Seq::empty()
    } else {
        let i = text.len() - 1;
        let c = text[i];
        colour_label(text.drop_last()) + if c == '_' {
            Seq::empty()
        } else if i == 0 || text[i - 1] == '_' {
            seq![' ', upper_first(c)]
        } else {
            seq![c]
        }
    }
}

pub fn readable(text: &str) -> (r: String)
    ensures
        r@ == colour_label(text@),
{
    let mut result = String::new();
    let mut capitalize_next = true;
    let n = text.unicode_len();
    let mut i: usize = 0;
    while i < n
        invariant
            i <= n,
            n == text@.len(),
            result@ == colour_label(text@.take(i as int)),
            capitalize_next == (i == 0 || text@[i - 1] == '_'),
        decreases n - i,
    {
        let c = text.get_char(i);
        let ghost t = text@.take(i + 1);
        assert(t.drop_last() =~= text@.take(i as int));
        assert(t[i as int] == c);
        assert(i > 0 ==> t[i - 1] == text@[i - 1]);
        if c == '_' {
            capitalize_next = true;
        } else if capitalize_next {
            push_char(&mut result, ' ');
            push_char(&mut result, char_upper_first(c));
            capitalize_next = false;
        } else {
            push_char(&mut result, c);
        }
        assert(result@ =~= colour_label(t));
        i = i + 1;
    }
    assert(text@.take(n as int) =~= text@);
    result
}

} // verus!
