//! A line of cells as the HTML the window shows: an element opens where a
//! drawing attribute starts and closes where it ends, and a coloured span
//! opens wherever the colours change.

use vstd::prelude::*;
use crate::escape::sgr::{Blink, ColorSpec, Intensity, Underline};
use crate::terminal::cell::{Cell, CellAttributes};
use crate::terminal::line::Line;
use crate::text::push_char;

verus! {

/// The number of attribute flags that are drawn as elements.
pub const DRAWN_FLAGS: u8 = 13;

/// The element that draws attribute flag `tag`.
pub open spec fn spec_tag(tag: u8) -> Seq<char> {
    if tag == 0 { "strong"@ }
    else if tag == 1 { "dim"@ }
    else if tag == 2 { "em"@ }
    else if tag == 3 { "strike"@ }
    else if tag == 4 { "overline"@ }
    else if tag == 5 { "invert"@ }
    else if tag == 6 { "hide"@ }
    else if tag == 7 { "underline"@ }
    else if tag == 8 { "doubleunderline"@ }
    else if tag == 9 { "wrapped"@ }
    else if tag == 10 { "super"@ }
    else if tag == 11 { "sub"@ }
    else if tag == 12 { "blink"@ }
    else if tag == 13 { "rapidblink"@ }
    else { Seq::empty() }
}

/// The element that draws attribute flag `tag`; empty for a flag that has none.
pub fn get_tag(tag: u8) -> (s: String)
    ensures
        s@ == spec_tag(tag),
{
    let t = match tag {
        0 => "strong",
        1 => "dim",
        2 => "em",
        3 => "strike",
        4 => "overline",
        5 => "invert",
        6 => "hide",
        7 => "underline",
        8 => "doubleunderline",
        9 => "wrapped",
        10 => "super",
        11 => "sub",
        12 => "blink",
        13 => "rapidblink",
        _ => "",
    };
    proof {
        reveal_strlit("");
    }
    t.to_owned()
}

impl CellAttributes {
    /// Attribute flag `i`, in the order of `spec_tag`: bold, dim, italic,
    /// struck through, (overline, inverse, hidden: not kept), single and
    /// double underline, (wrapped, superscript, subscript: not kept), slow
    /// and rapid blink.
    pub open spec fn spec_bit(&self, i: u8) -> bool {
        if i == 0 { self.intensity == Intensity::Bold }
        else if i == 1 { self.intensity == Intensity::Half }
        else if i == 2 { self.italic }
        else if i == 3 { self.strikethrough }
        else if i == 7 { self.underline == Underline::Single }
        else if i == 8 { self.underline == Underline::Double }
        else if i == 12 { self.blink == Blink::Slow }
        else if i == 13 { self.blink == Blink::Rapid }
        else { false }
    }

    /// Attribute flag `i` (see `spec_bit`).
    pub fn get_bit(&self, i: u8) -> (b: bool)
        ensures
            b == self.spec_bit(i),
    {
        match i {
            0 => matches!(self.intensity, Intensity::Bold),
            1 => matches!(self.intensity, Intensity::Half),
            2 => self.italic,
            3 => self.strikethrough,
            7 => matches!(self.underline, Underline::Single),
            8 => matches!(self.underline, Underline::Double),
            12 => matches!(self.blink, Blink::Slow),
            13 => matches!(self.blink, Blink::Rapid),
            _ => false,
        }
    }

    pub fn get_fg(&self) -> (c: ColorSpec)
        ensures
            c == self.fg,
    {
        self.fg
    }

    pub fn get_bg(&self) -> (c: ColorSpec)
        ensures
            c == self.bg,
    {
        self.bg
    }
}

/// The elements that open and close between a cell drawn with `last` and
/// one drawn with `cur`, for the flags below `n`.
pub open spec fn tag_changes(last: CellAttributes, cur: CellAttributes, n: nat) -> Seq<char>
    decreases n,
{
    if n == 0 {
        Seq::empty()
    } else {
        let i = (n - 1) as u8;
        tag_changes(last, cur, (n - 1) as nat) + if last.spec_bit(i) && !cur.spec_bit(i) {
            "</"@ + spec_tag(i) + ">"@
        } else if !last.spec_bit(i) && cur.spec_bit(i) {
            "<"@ + spec_tag(i) + ">"@
        } else {
            Seq::empty()
        }
    }
}

/// Whether the colours differ between the two attributes.
pub open spec fn colours_change(last: CellAttributes, cur: CellAttributes) -> bool {
    cur.fg != last.fg || cur.bg != last.bg
}

/// The span that opens where the colours change, closing the one before.
pub open spec fn span_change(last: CellAttributes, cur: CellAttributes, open: bool) -> Seq<char> {
    if colours_change(last, cur) {
        (if open { "</span>"@ } else { Seq::empty() }) + "<span class= \"cellspan\" style=\"--fg: "@
            + cur.fg.spec_to_hex("var(--fg-default)"@) + "; --bg: "@
            + cur.bg.spec_to_hex("var(--bg-default)"@) + ";\">"@
    } else {
        Seq::empty()
    }
}

/// After drawing the cells: the attributes of the last one, whether a span
/// is open, and the text so far.
pub open spec fn render_state(cells: Seq<Cell>) -> (CellAttributes, bool, Seq<char>)
    decreases cells.len(),
{
    if cells.len() == 0 {
        (CellAttributes::spec_default(), false, Seq::empty())
    } else {
        let (last, open, text) = render_state(cells.drop_last());
        let c = cells.last();
        (
            c.attr,
            open || colours_change(last, c.attr),
            text + tag_changes(last, c.attr, DRAWN_FLAGS as nat) + span_change(last, c.attr, open)
                + seq![c.text],
        )
    }
}

/// The HTML of a line of cells.
pub open spec fn spec_render_line(cells: Seq<Cell>) -> Seq<char> {
    render_state(cells).2
}

/// Appends `text` to `s`.
fn append_str(s: &mut String, text: &str)
    ensures
        final(s)@ == old(s)@ + text@,
{
    s.append(text);
}

/// Appends the elements that open and close between `last` and `cur`.
fn push_tag_changes(s: &mut String, last: &CellAttributes, cur: &CellAttributes)
    ensures
        final(s)@ == old(s)@ + tag_changes(*last, *cur, DRAWN_FLAGS as nat),
{
    let mut i: u8 = 0;
    while i < DRAWN_FLAGS
        invariant
            i <= DRAWN_FLAGS,
            s@ == old(s)@ + tag_changes(*last, *cur, i as nat),
        decreases DRAWN_FLAGS - i,
    {
        let was = last.get_bit(i);
        let now = cur.get_bit(i);
        let tag = get_tag(i);
        let ghost before = s@;
        if was && !now {
            append_str(s, "</");
            append_str(s, tag.as_str());
            append_str(s, ">");
        } else if !was && now {
            append_str(s, "<");
            append_str(s, tag.as_str());
            append_str(s, ">");
        }
        assert(tag_changes(*last, *cur, (i + 1) as nat) == tag_changes(*last, *cur, i as nat) + (
            if last.spec_bit(i) && !cur.spec_bit(i) {
                "</"@ + spec_tag(i) + ">"@
            } else if !last.spec_bit(i) && cur.spec_bit(i) {
                "<"@ + spec_tag(i) + ">"@
            } else {
                Seq::<char>::empty()
            }));
        assert(s@ =~= old(s)@ + tag_changes(*last, *cur, (i + 1) as nat));
        i = i + 1;
    }
}

/// Appends the span that opens where the colours change.
fn push_span_change(s: &mut String, last: &CellAttributes, cur: &CellAttributes, open: bool)
    ensures
        final(s)@ == old(s)@ + span_change(*last, *cur, open),
{
    if cur.get_fg() != last.get_fg() || cur.get_bg() != last.get_bg() {
        let fg = cur.get_fg().to_hex("var(--fg-default)".to_owned());
        let bg = cur.get_bg().to_hex("var(--bg-default)".to_owned());
        if open {
            append_str(s, "</span>");
        }
        append_str(s, "<span class= \"cellspan\" style=\"--fg: ");
        append_str(s, fg.as_str());
        append_str(s, "; --bg: ");
        append_str(s, bg.as_str());
        append_str(s, ";\">");
        assert(s@ =~= old(s)@ + span_change(*last, *cur, open));
    } else {
        assert(s@ =~= old(s)@ + span_change(*last, *cur, open));
    }
}

/// The HTML of a line: its characters, with an element around each run of
/// cells that carries a drawing attribute and a span around each run of the
/// same colours.
pub fn render_line(line: &Line) -> (s: String)
    ensures
        s@ == spec_render_line(line@.cells),
{
    let mut last_attr = CellAttributes::default();
    let mut open = false;
    let mut rendered = String::new();
    let mut k: usize = 0;
    while k < line.cells.len()
        invariant
            k <= line@.cells.len(),
            render_state(line@.cells.take(k as int)) == (last_attr, open, rendered@),
        decreases line@.cells.len() - k,
    {
        let cell = line.cells[k];
        let ghost prefix = line@.cells.take(k as int);
        assert(line@.cells.take(k + 1).drop_last() =~= prefix);
        push_tag_changes(&mut rendered, &last_attr, &cell.attr);
        push_span_change(&mut rendered, &last_attr, &cell.attr, open);
        if cell.attr.get_fg() != last_attr.get_fg() || cell.attr.get_bg() != last_attr.get_bg() {
            open = true;
        }
        push_char(&mut rendered, cell.text);
        last_attr = cell.attr;
        k = k + 1;
    }
    assert(line@.cells.take(k as int) =~= line@.cells);
    rendered
}

/// Each drawn flag reads its own attribute and is drawn by its own element:
/// bold as `strong`, half intensity as `dim`, italic as `em`, strike-through
/// as `strike`, single and double underline as `underline` and
/// `doubleunderline`, slow and rapid blinking as `blink` and `rapidblink`;
/// the flags with no attribute behind them are never set.
pub proof fn law_flags_read_their_attributes(a: CellAttributes)
    ensures
        a.spec_bit(0) == (a.intensity == Intensity::Bold) && spec_tag(0) == "strong"@,
        a.spec_bit(1) == (a.intensity == Intensity::Half) && spec_tag(1) == "dim"@,
        a.spec_bit(2) == a.italic && spec_tag(2) == "em"@,
        a.spec_bit(3) == a.strikethrough && spec_tag(3) == "strike"@,
        a.spec_bit(7) == (a.underline == Underline::Single) && spec_tag(7) == "underline"@,
        a.spec_bit(8) == (a.underline == Underline::Double) && spec_tag(8) == "doubleunderline"@,
        a.spec_bit(12) == (a.blink == Blink::Slow) && spec_tag(12) == "blink"@,
        a.spec_bit(13) == (a.blink == Blink::Rapid) && spec_tag(13) == "rapidblink"@,
        !a.spec_bit(4) && !a.spec_bit(5) && !a.spec_bit(6) && !a.spec_bit(9) && !a.spec_bit(10) && !a.spec_bit(11),
{
}

/// Between two cells that differ in their styles only by italic turning on,
/// exactly an `em` element opens; when it turns off, it closes.
pub proof fn law_italic_is_drawn_as_em(last: CellAttributes, cur: CellAttributes)
    requires
        last.intensity == cur.intensity,
        last.strikethrough == cur.strikethrough,
        last.underline == cur.underline,
        last.blink == cur.blink,
        last.italic != cur.italic,
    ensures
        tag_changes(last, cur, DRAWN_FLAGS as nat) == (if cur.italic { "<em>"@ } else { "</em>"@ }),
{
    reveal_strlit("<");
    reveal_strlit("</");
    reveal_strlit(">");
    reveal_strlit("em");
    reveal_strlit("<em>");
    reveal_strlit("</em>");
    reveal_with_fuel(tag_changes, 14);
    assert(tag_changes(last, cur, 2) =~= Seq::<char>::empty());
    assert(tag_changes(last, cur, 3) =~= (if cur.italic { "<em>"@ } else { "</em>"@ }));
}

/// Between two cells that differ in their styles only by strike-through
/// turning on, exactly a `strike` element opens; when it turns off, it closes.
pub proof fn law_strikethrough_is_drawn_as_strike(last: CellAttributes, cur: CellAttributes)
    requires
        last.intensity == cur.intensity,
        last.italic == cur.italic,
        last.underline == cur.underline,
        last.blink == cur.blink,
        last.strikethrough != cur.strikethrough,
    ensures
        tag_changes(last, cur, DRAWN_FLAGS as nat) == (if cur.strikethrough { "<strike>"@ } else { "</strike>"@ }),
{
    reveal_strlit("<");
    reveal_strlit("</");
    reveal_strlit(">");
    reveal_strlit("strike");
    reveal_strlit("<strike>");
    reveal_strlit("</strike>");
    reveal_with_fuel(tag_changes, 14);
    assert(tag_changes(last, cur, 3) =~= Seq::<char>::empty());
    assert(tag_changes(last, cur, 4) =~= (if cur.strikethrough { "<strike>"@ } else { "</strike>"@ }));
}

proof fn lemma_no_tag_changes(a: CellAttributes, n: nat)
    ensures
        tag_changes(a, a, n) == Seq::<char>::empty(),
    decreases n,
{
    if n > 0 {
        lemma_no_tag_changes(a, (n - 1) as nat);
    }
}

/// A line whose cells all have the default attributes is drawn as just its
/// characters, in order, with no element and no span.
pub proof fn law_plain_line_is_its_text(cells: Seq<Cell>)
    requires
        forall|i: int| 0 <= i < cells.len() ==> #[trigger] cells[i].attr == CellAttributes::spec_default(),
    ensures
        spec_render_line(cells) == cells.map_values(|c: Cell| c.text),
        render_state(cells).0 == CellAttributes::spec_default(),
        !render_state(cells).1,
    decreases cells.len(),
{
    if cells.len() > 0 {
        let init = cells.drop_last();
        assert forall|i: int| 0 <= i < init.len() implies #[trigger] init[i].attr == CellAttributes::spec_default() by {
            assert(init[i] == cells[i]);
        }
        law_plain_line_is_its_text(init);
        lemma_no_tag_changes(CellAttributes::spec_default(), DRAWN_FLAGS as nat);
        assert(cells.map_values(|c: Cell| c.text) =~= init.map_values(|c: Cell| c.text).push(cells.last().text));
        assert(spec_render_line(cells) =~= spec_render_line(init) + seq![cells.last().text]);
    }
}

/// A cell drawn in italic with the default colours, at the start of a line,
/// is drawn inside an `em` element; in strike-through, inside `strike`.
pub proof fn law_styled_first_cell(t: char, a: CellAttributes)
    requires
        a.fg == ColorSpec::Default,
        a.bg == ColorSpec::Default,
        a.intensity == Intensity::Normal,
        a.underline == Underline::NoUnderline,
        a.blink == Blink::NoBlink,
        a.italic != a.strikethrough,
    ensures
        a.italic ==> spec_render_line(seq![Cell { text: t, attr: a }]) == "<em>"@ + seq![t],
        a.strikethrough ==> spec_render_line(seq![Cell { text: t, attr: a }]) == "<strike>"@ + seq![t],
{
    let d = CellAttributes::spec_default();
    let cells = seq![Cell { text: t, attr: a }];
    assert(cells.drop_last() =~= Seq::<Cell>::empty());
    assert(render_state(cells.drop_last()) == (d, false, Seq::<char>::empty()));
    assert(span_change(d, a, false) == Seq::<char>::empty());
    if a.italic {
        law_italic_is_drawn_as_em(d, a);
    } else {
        law_strikethrough_is_drawn_as_strike(d, a);
    }
    assert(spec_render_line(cells) =~= tag_changes(d, a, DRAWN_FLAGS as nat) + seq![t]);
}

} // verus!
