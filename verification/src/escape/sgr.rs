use vstd::prelude::*;
use crate::escape::params::CsiParam;
use crate::text::{push_char, push_hex, push_decimal, hex_string, dec_string};

verus! {

/// Select Graphic Rendition: one change of the attributes of printed text.
#[derive(Debug, PartialEq, Eq, Clone, Copy)]
pub enum Sgr {
    Reset,
    Foreground(ColorSpec),
    Background(ColorSpec),
    UnderlineColor(ColorSpec),
    Blink(Blink),
    Intensity(Intensity),
    Italic(bool),
    StrikeThrough(bool),
    Inverse(bool),
    Invisible(bool),
    Overline(bool),
    Underline(Underline),
    VerticalAlign(VerticalAlign),
    Font(Font),
}

#[derive(Debug, PartialEq, Eq, Clone, Copy)]
pub enum Blink {
    NoBlink,
    Slow,
    Rapid,
}

#[derive(Debug, PartialEq, Eq, Clone, Copy)]
pub enum Intensity {
    Normal,
    Bold,
    Half,
}

#[derive(Debug, PartialEq, Eq, Clone, Copy)]
pub enum Underline {
    NoUnderline,
    Single,
    Double,
}

#[derive(Debug, PartialEq, Eq, Clone, Copy)]
pub enum VerticalAlign {
    BaseLine,
    SuperScript,
    SubScript,
}

#[derive(Debug, PartialEq, Eq, Clone, Copy, Structural)]
pub enum ColorSpec {
    Default,
    PaletteIndex(u8),
    TrueColor(SrgbaTuple),
}

#[derive(Debug, PartialEq, Eq, Clone, Copy, Structural)]
pub struct SrgbaTuple {
    pub r: u8,
    pub g: u8,
    pub b: u8,
}

#[derive(Debug, PartialEq, Eq, Clone, Copy)]
pub enum Font {
    Default,
}

// ---------------------------------------------------------------------
// Decoding
// ---------------------------------------------------------------------

/// The parameter at `i` is present and is a number.
pub open spec fn int_at(params: Seq<CsiParam>, i: int) -> bool {
    0 <= i < params.len() && params[i] is Integer
}

pub open spec fn value_at(params: Seq<CsiParam>, i: int) -> i64 {
    params[i]->Integer_0
}

/// An extended colour (`38` or `48`) at `i` can be read without running off
/// the parameters: `38;5;n` needs `n`, `38;2;r;g;b` needs `r`, `g` and `b`,
/// each two positions apart (the separators sit in between).
pub open spec fn color_readable(params: Seq<CsiParam>, i: int) -> bool {
    &&& int_at(params, i + 2)
    &&& value_at(params, i + 2) == 5 ==> int_at(params, i + 4)
    &&& value_at(params, i + 2) == 2 ==> {
        &&& int_at(params, i + 4)
        &&& int_at(params, i + 6)
        &&& int_at(params, i + 8)
    }
}

/// The extended colour at `i`, and the position of its last parameter.
pub open spec fn color_at(params: Seq<CsiParam>, i: int) -> (ColorSpec, int) {
    let kind = value_at(params, i + 2);
    if kind == 5 {
        (ColorSpec::PaletteIndex(value_at(params, i + 4) as u8), i + 4)
    } else if kind == 2 {
        (ColorSpec::TrueColor(SrgbaTuple {
            r: value_at(params, i + 4) as u8,
            g: value_at(params, i + 6) as u8,
            b: value_at(params, i + 8) as u8,
        }), i + 8)
    } else {
        (ColorSpec::Default, i + 2)
    }
}

/// The attribute that the plain (non-colour-extended) code `n` stands for.
pub open spec fn simple_sgr(n: i64) -> Option<Sgr> {
    if n == 0 {
        Some(Sgr::Reset)
    } else if n == 1 {
        Some(Sgr::Intensity(Intensity::Bold))
    } else if n == 2 {
        Some(Sgr::Intensity(Intensity::Half))
    } else if n == 3 {
        Some(Sgr::Italic(true))
    } else if n == 4 {
        Some(Sgr::Underline(Underline::Single))
    } else if n == 5 {
        Some(Sgr::Blink(Blink::Slow))
    } else if n == 6 {
        Some(Sgr::Blink(Blink::Rapid))
    } else if n == 7 {
        Some(Sgr::Inverse(true))
    } else if n == 8 {
        Some(Sgr::Invisible(true))
    } else if n == 9 {
        Some(Sgr::StrikeThrough(true))
    } else if 30 <= n <= 37 {
        Some(Sgr::Foreground(ColorSpec::PaletteIndex((n - 30) as u8)))
    } else if 40 <= n <= 47 {
        // the background codes are offset from 30, as the foreground ones are
        Some(Sgr::Background(ColorSpec::PaletteIndex((n - 30) as u8)))
    } else {
        None
    }
}

/// The parameters from `i` on can be decoded without running off their end.
pub open spec fn sgr_readable_from(params: Seq<CsiParam>, i: int) -> bool
    decreases params.len() - i,
{
    if i < 0 || i >= params.len() {
        true
    } else {
        match params[i] {
            CsiParam::Integer(n) => if n == 38 || n == 48 {
                color_readable(params, i) && sgr_readable_from(params, color_at(params, i).1 + 1)
            } else {
                sgr_readable_from(params, i + 1)
            },
            CsiParam::P(_) => sgr_readable_from(params, i + 1),
        }
    }
}

/// The attributes that the parameters from `i` on set, in order.
pub open spec fn sgr_from(params: Seq<CsiParam>, i: int) -> Seq<Sgr>
    decreases params.len() - i,
{
    if i < 0 || i >= params.len() {
        Seq::empty()
    } else {
        match params[i] {
            CsiParam::Integer(n) => if n == 38 {
                if color_readable(params, i) {
                    seq![Sgr::Foreground(color_at(params, i).0)] + sgr_from(params, color_at(params, i).1 + 1)
                } else {
                    Seq::empty()
                }
            } else if n == 48 {
                if color_readable(params, i) {
                    seq![Sgr::Background(color_at(params, i).0)] + sgr_from(params, color_at(params, i).1 + 1)
                } else {
                    Seq::empty()
                }
            } else {
                match simple_sgr(n) {
                    Some(a) => seq![a] + sgr_from(params, i + 1),
                    None => sgr_from(params, i + 1),
                }
            },
            CsiParam::P(_) => sgr_from(params, i + 1),
        }
    }
}

/// The attributes set by an `SGR` sequence with these parameters.
pub open spec fn spec_sgr_parse(params: Seq<CsiParam>) -> Seq<Sgr> {
    if params.len() == 0 {
        seq![Sgr::Reset]
    } else {
        sgr_from(params, 0)
    }
}

fn read_int(params: &[CsiParam], i: usize) -> (v: i64)
    requires
        int_at(params@, i as int),
    ensures
        v == value_at(params@, i as int),
{
    match params[i] {
        CsiParam::Integer(n) => n,
        CsiParam::P(_) => 0,
    }
}

/// Reads the extended colour introduced at `i` (`38` or `48`).
fn match_color(params: &[CsiParam], i: usize) -> (r: (ColorSpec, usize))
    requires
        color_readable(params@, i as int),
    ensures
        r.0 == color_at(params@, i as int).0,
        r.1 as int == color_at(params@, i as int).1,
{
    // the number of parameters is a usize, which bounds the positions below
    let _len = params.len();
    let kind = read_int(params, i + 2);
    if kind == 5 {
        let n = #[verifier::truncate] (read_int(params, i + 4) as u8);
        (ColorSpec::PaletteIndex(n), i + 4)
    } else if kind == 2 {
        let r = #[verifier::truncate] (read_int(params, i + 4) as u8);
        let g = #[verifier::truncate] (read_int(params, i + 6) as u8);
        let b = #[verifier::truncate] (read_int(params, i + 8) as u8);
        (ColorSpec::TrueColor(SrgbaTuple { r, g, b }), i + 8)
    } else {
        (ColorSpec::Default, i + 2)
    }
}

fn simple_sgr_exec(n: i64) -> (r: Option<Sgr>)
    ensures
        r == simple_sgr(n),
{
    if n == 0 {
        Some(Sgr::Reset)
    } else if n == 1 {
        Some(Sgr::Intensity(Intensity::Bold))
    } else if n == 2 {
        Some(Sgr::Intensity(Intensity::Half))
    } else if n == 3 {
        Some(Sgr::Italic(true))
    } else if n == 4 {
        Some(Sgr::Underline(Underline::Single))
    } else if n == 5 {
        Some(Sgr::Blink(Blink::Slow))
    } else if n == 6 {
        Some(Sgr::Blink(Blink::Rapid))
    } else if n == 7 {
        Some(Sgr::Inverse(true))
    } else if n == 8 {
        Some(Sgr::Invisible(true))
    } else if n == 9 {
        Some(Sgr::StrikeThrough(true))
    } else if 30 <= n && n <= 37 {
        Some(Sgr::Foreground(ColorSpec::PaletteIndex((n - 30) as u8)))
    } else if 40 <= n && n <= 47 {
        Some(Sgr::Background(ColorSpec::PaletteIndex((n - 30) as u8)))
    } else {
        None
    }
}

/// Whether `Sgr::parse` can decode these parameters: every extended colour
/// in them has the parameters it announces.
pub fn sgr_params_readable(params: &[CsiParam]) -> (b: bool)
    ensures
        b == sgr_readable_from(params@, 0),
{
    let mut i: usize = 0;
    while i < params.len()
        invariant
            i <= params@.len() + 9,
            sgr_readable_from(params@, 0) == sgr_readable_from(params@, i as int),
        decreases params@.len() + 9 - i,
    {
        match params[i] {
            CsiParam::Integer(n) => {
                if n == 38 || n == 48 {
                    if !(params.len() - i > 2 && params[i + 2].as_integer().is_some()) {
                        return false;
                    }
                    let kind = read_int(params, i + 2);
                    if kind == 5 && !(params.len() - i > 4 && params[i + 4].as_integer().is_some()) {
                        return false;
                    }
                    if kind == 2 && !(params.len() - i > 8 && params[i + 4].as_integer().is_some()
                        && params[i + 6].as_integer().is_some() && params[i + 8].as_integer().is_some()) {
                        return false;
                    }
                    let (_, j) = match_color(params, i);
                    i = j + 1;
                } else {
                    i = i + 1;
                }
            },
            CsiParam::P(_) => {
                i = i + 1;
            },
        }
    }
    true
}

impl Sgr {
    /// Decodes the parameters of an `SGR` sequence (`CSI ... m`).
    /// No parameters mean a reset; codes that are not understood are skipped.
    pub fn parse(parameters: &[CsiParam], parameters_truncated: bool) -> (r: Vec<Self>)
        requires
            sgr_readable_from(parameters@, 0),
        ensures
            r@ == spec_sgr_parse(parameters@),
    {
        if parameters.len() == 0 {
            return vec![Sgr::Reset];
        }
        let mut attributes: Vec<Sgr> = Vec::new();
        let mut i: usize = 0;
        while i < parameters.len()
            invariant
                i <= parameters@.len() + 9,
                sgr_readable_from(parameters@, i as int),
                sgr_from(parameters@, 0) == attributes@ + sgr_from(parameters@, i as int),
            decreases parameters@.len() + 9 - i,
        {
            let ghost old_attrs = attributes@;
            match parameters[i] {
                CsiParam::Integer(n) => {
                    if n == 38 {
                        let (c, j) = match_color(parameters, i);
                        attributes.push(Sgr::Foreground(c));
                        assert(attributes@ + sgr_from(parameters@, j + 1) =~= old_attrs + sgr_from(parameters@, i as int));
                        i = j;
                    } else if n == 48 {
                        let (c, j) = match_color(parameters, i);
                        attributes.push(Sgr::Background(c));
                        assert(attributes@ + sgr_from(parameters@, j + 1) =~= old_attrs + sgr_from(parameters@, i as int));
                        i = j;
                    } else {
                        match simple_sgr_exec(n) {
                            Some(a) => {
                                attributes.push(a);
                                assert(attributes@ + sgr_from(parameters@, i + 1) =~= old_attrs + sgr_from(parameters@, i as int));
                            },
                            None => {},
                        }
                    }
                },
                CsiParam::P(_) => {},
            }
            i = i + 1;
        }
        assert(sgr_from(parameters@, i as int) =~= Seq::empty());
        assert(attributes@ + Seq::<Sgr>::empty() =~= attributes@);
        attributes
    }
}

// ---------------------------------------------------------------------
// Rendering
// ---------------------------------------------------------------------

impl SrgbaTuple {
    pub open spec fn spec_to_string(self) -> Seq<char> {
        seq!['#'] + hex_string(self.r as nat) + hex_string(self.g as nat) + hex_string(self.b as nat)
    }

    /// `#` followed by each channel in lower-case hexadecimal, without padding.
    pub fn to_string(&self) -> (s: String)
        ensures
            s@ == self.spec_to_string(),
    {
        let mut s = String::new();
        push_char(&mut s, '#');
        push_hex(&mut s, self.r as u64);
        push_hex(&mut s, self.g as u64);
        push_hex(&mut s, self.b as u64);
        s
    }
}

/// `var(--palette-i)`, the CSS variable of palette entry `i`.
pub open spec fn palette_var(i: u8) -> Seq<char> {
    seq!['v', 'a', 'r', '(', '-', '-', 'p', 'a', 'l', 'e', 't', 't', 'e', '-'] + dec_string(i as nat) + seq![')']
}

impl ColorSpec {
    pub open spec fn spec_to_hex(self, def: Seq<char>) -> Seq<char> {
        match self {
            ColorSpec::TrueColor(c) => c.spec_to_string(),
            ColorSpec::Default => def,
            ColorSpec::PaletteIndex(i) => palette_var(i),
        }
    }

    /// The CSS colour for this colour: `def` for the default colour.
    pub fn to_hex(&self, def: String) -> (s: String)
        ensures
            s@ == self.spec_to_hex(def@),
    {
        match self {
            ColorSpec::TrueColor(c) => c.to_string(),
            ColorSpec::Default => def,
            ColorSpec::PaletteIndex(i) => {
                let mut s = String::new();
                let prefix = "var(--palette-";
                proof {
                    reveal_strlit("var(--palette-");
                }
                s.append(prefix);
                push_decimal(&mut s, *i as u64);
                push_char(&mut s, ')');
                s
            },
        }
    }
}

/// `SGR` with no parameters resets the attributes; each plain code on its
/// own sets one attribute: 0 resets, 1 bold, 2 half intensity, 3 italic,
/// 4 single underline, 5 and 6 slow and rapid blinking, 7 inverse, 8
/// invisible, 9 strike-through, 30 to 37 a text colour of the palette,
/// 40 to 47 a background colour (taken 30 below the code, as the
/// foreground ones are); any other code sets nothing.
pub proof fn law_sgr_single_codes(n: i64)
    ensures
        spec_sgr_parse(Seq::empty()) == seq![Sgr::Reset],
        n == 0 ==> spec_sgr_parse(seq![CsiParam::Integer(n)]) == seq![Sgr::Reset],
        n == 1 ==> spec_sgr_parse(seq![CsiParam::Integer(n)]) == seq![Sgr::Intensity(Intensity::Bold)],
        n == 2 ==> spec_sgr_parse(seq![CsiParam::Integer(n)]) == seq![Sgr::Intensity(Intensity::Half)],
        n == 3 ==> spec_sgr_parse(seq![CsiParam::Integer(n)]) == seq![Sgr::Italic(true)],
        n == 4 ==> spec_sgr_parse(seq![CsiParam::Integer(n)]) == seq![Sgr::Underline(Underline::Single)],
        n == 5 ==> spec_sgr_parse(seq![CsiParam::Integer(n)]) == seq![Sgr::Blink(Blink::Slow)],
        n == 6 ==> spec_sgr_parse(seq![CsiParam::Integer(n)]) == seq![Sgr::Blink(Blink::Rapid)],
        n == 7 ==> spec_sgr_parse(seq![CsiParam::Integer(n)]) == seq![Sgr::Inverse(true)],
        n == 8 ==> spec_sgr_parse(seq![CsiParam::Integer(n)]) == seq![Sgr::Invisible(true)],
        n == 9 ==> spec_sgr_parse(seq![CsiParam::Integer(n)]) == seq![Sgr::StrikeThrough(true)],
        30 <= n <= 37 ==> spec_sgr_parse(seq![CsiParam::Integer(n)])
            == seq![Sgr::Foreground(ColorSpec::PaletteIndex((n - 30) as u8))],
        40 <= n <= 47 ==> spec_sgr_parse(seq![CsiParam::Integer(n)])
            == seq![Sgr::Background(ColorSpec::PaletteIndex((n - 30) as u8))],
        (n < 0 || 10 <= n <= 29 || n == 38 || n == 39 || n >= 48) ==> spec_sgr_parse(seq![CsiParam::Integer(n)]).len() == 0,
{
    reveal_with_fuel(sgr_from, 2);
    assert(sgr_from(seq![CsiParam::Integer(n)], 1) =~= Seq::<Sgr>::empty());
}

/// Two codes separated by `;` set their attributes one after the other.
pub proof fn law_sgr_codes_in_order(a: i64, b: i64)
    requires
        a != 38 && a != 48 && b != 38 && b != 48,
    ensures
        spec_sgr_parse(seq![CsiParam::Integer(a), CsiParam::P(0x3b), CsiParam::Integer(b)])
            == spec_sgr_parse(seq![CsiParam::Integer(a)]) + spec_sgr_parse(seq![CsiParam::Integer(b)]),
{
    let p = seq![CsiParam::Integer(a), CsiParam::P(0x3b), CsiParam::Integer(b)];
    reveal_with_fuel(sgr_from, 4);
    assert(sgr_from(p, 3) =~= Seq::<Sgr>::empty());
    assert(sgr_from(seq![CsiParam::Integer(a)], 1) =~= Seq::<Sgr>::empty());
    assert(sgr_from(seq![CsiParam::Integer(b)], 1) =~= Seq::<Sgr>::empty());
    assert(sgr_from(p, 2) =~= sgr_from(seq![CsiParam::Integer(b)], 0));
    assert(sgr_from(p, 1) =~= sgr_from(p, 2));
}

/// `38;5;k` sets the text colour to palette entry `k`, `48;5;k` the
/// background; `38;2;r;g;b` and `48;2;r;g;b` set them to that true colour.
pub proof fn law_sgr_extended_colours(k: u8, r: u8, g: u8, b: u8)
    ensures
        spec_sgr_parse(seq![CsiParam::Integer(38), CsiParam::P(0x3b), CsiParam::Integer(5), CsiParam::P(0x3b),
            CsiParam::Integer(k as i64)]) == seq![Sgr::Foreground(ColorSpec::PaletteIndex(k))],
        spec_sgr_parse(seq![CsiParam::Integer(48), CsiParam::P(0x3b), CsiParam::Integer(5), CsiParam::P(0x3b),
            CsiParam::Integer(k as i64)]) == seq![Sgr::Background(ColorSpec::PaletteIndex(k))],
        spec_sgr_parse(seq![CsiParam::Integer(38), CsiParam::P(0x3b), CsiParam::Integer(2), CsiParam::P(0x3b),
            CsiParam::Integer(r as i64), CsiParam::P(0x3b), CsiParam::Integer(g as i64), CsiParam::P(0x3b),
            CsiParam::Integer(b as i64)]) == seq![Sgr::Foreground(ColorSpec::TrueColor(SrgbaTuple { r, g, b }))],
        spec_sgr_parse(seq![CsiParam::Integer(48), CsiParam::P(0x3b), CsiParam::Integer(2), CsiParam::P(0x3b),
            CsiParam::Integer(r as i64), CsiParam::P(0x3b), CsiParam::Integer(g as i64), CsiParam::P(0x3b),
            CsiParam::Integer(b as i64)]) == seq![Sgr::Background(ColorSpec::TrueColor(SrgbaTuple { r, g, b }))],
{
    reveal_with_fuel(sgr_from, 2);
    let p5f = seq![CsiParam::Integer(38), CsiParam::P(0x3b), CsiParam::Integer(5), CsiParam::P(0x3b), CsiParam::Integer(k as i64)];
    let p5b = seq![CsiParam::Integer(48), CsiParam::P(0x3b), CsiParam::Integer(5), CsiParam::P(0x3b), CsiParam::Integer(k as i64)];
    assert(sgr_from(p5f, 5) =~= Seq::<Sgr>::empty());
    assert(sgr_from(p5b, 5) =~= Seq::<Sgr>::empty());
    assert(((k as i64) as u8) == k);
    assert(((r as i64) as u8) == r && ((g as i64) as u8) == g && ((b as i64) as u8) == b);
    let p2f = seq![CsiParam::Integer(38), CsiParam::P(0x3b), CsiParam::Integer(2), CsiParam::P(0x3b),
            CsiParam::Integer(r as i64), CsiParam::P(0x3b), CsiParam::Integer(g as i64), CsiParam::P(0x3b),
            CsiParam::Integer(b as i64)];
    let p2b = seq![CsiParam::Integer(48), CsiParam::P(0x3b), CsiParam::Integer(2), CsiParam::P(0x3b),
            CsiParam::Integer(r as i64), CsiParam::P(0x3b), CsiParam::Integer(g as i64), CsiParam::P(0x3b),
            CsiParam::Integer(b as i64)];
    assert(sgr_from(p2f, 9) =~= Seq::<Sgr>::empty());
    assert(sgr_from(p2b, 9) =~= Seq::<Sgr>::empty());
}

} // verus!
