use vstd::prelude::*;
use vstd::utf8::{valid_utf8, decode_utf8};
use crate::text::{parse_i32, parse_i32_spec, parse_u16, parse_u16_spec, string_from_utf8};

verus! {

/// An operating system command (`OSC ... ST`), decoded.
#[derive(Debug, PartialEq, Clone)]
pub enum OSC {
    SetWindowTitle(String),
    SetIconNameAndWindowTitle(String),
    FinalTermSemanticPrompt(FinalTermSemanticPrompt),
    ITermProprietary(ITermProprietary),
    SystemNotification(String),
    CurrentWorkingDirectory(String),
    TextSize(String, TextSize),
    Unknown,
}

#[derive(Debug, PartialEq, Eq, Clone, Copy)]
pub enum FinalTermSemanticPrompt {
    FreshLine,
    FreshLineAndStartPrompt {},
    MarkEndOfCommandWithFreshLine {},
    StartPrompt(FinalTermPromptKind),
    EndOfPromptUntilMarker,
    EndOfPromptUntilEndOfLine,
    EndOfInput { aid: i32 },
    CommandStatus { status: i32, aid: i32 },
}

#[derive(Debug, PartialEq, Clone)]
pub enum ITermProprietary {
    SetUserVar { name: String, value: String },
    ClearScrollback,
    StealFocus,
    SetMark,
    SetProfile(String),
}

#[derive(Debug, PartialEq, Eq, Clone, Copy)]
pub enum FinalTermPromptKind {
    Initial,
    RightSide,
    Continuation,
    Secondary,
}

/// The kitty text-sizing parameters.
#[derive(Debug, PartialEq, Eq, Clone, Copy)]
pub struct TextSize {
    pub scale: u16,
    pub width: u16,
    pub numerator: u16,
    pub denominator: u16,
    pub vertical_align: u16,
    pub horizontal_align: u16,
}

// ---------------------------------------------------------------------
// The text-sizing parameters: `key=value` pairs separated by `:`
// ---------------------------------------------------------------------

/// The index of the first `:` in `s`, or its length when there is none.
pub open spec fn sep_index(s: Seq<u8>) -> int
    decreases s.len(),
{
    if s.len() == 0 {
        0
    } else if s[0] == 0x3a {
        0
    } else {
        1 + sep_index(s.drop_first())
    }
}

pub proof fn lemma_sep_index_bounds(s: Seq<u8>)
    ensures
        0 <= sep_index(s) <= s.len(),
    decreases s.len(),
{
    if s.len() > 0 && s[0] != 0x3a {
        lemma_sep_index_bounds(s.drop_first());
    }
}

/// A parameter can be split after its two-byte key: it has two bytes,
/// and the third (if any) starts a character.
pub open spec fn param_splittable(seg: Seq<u8>) -> bool {
    &&& seg.len() >= 2
    &&& seg.len() > 2 ==> !(0x80 <= seg[2] <= 0xbf)
}

/// Every `:`-separated parameter of `s` can be split after its key.
pub open spec fn params_splittable(s: Seq<u8>) -> bool
    decreases s.len(),
{
    let k = sep_index(s);
    proof {
        lemma_sep_index_bounds(s);
    }
    &&& param_splittable(s.take(k))
    &&& k < s.len() ==> params_splittable(s.skip(k + 1))
}

/// The text size after one `key=value` parameter: `s`, `w`, `n`, `d`, `v`,
/// `h` set scale, width, numerator, denominator and the two alignments;
/// a value that is not a `u16` counts as 0; other keys change nothing.
pub open spec fn apply_size_param(size: TextSize, seg: Seq<u8>) -> TextSize {
    let v = match parse_u16_spec(seg.skip(2)) {
        Some(v) => v,
        None => 0u16,
    };
    if seg[1] != 0x3d {
        size
    } else if seg[0] == 0x73 {
        TextSize { scale: v, ..size }
    } else if seg[0] == 0x77 {
        TextSize { width: v, ..size }
    } else if seg[0] == 0x6e {
        TextSize { numerator: v, ..size }
    } else if seg[0] == 0x64 {
        TextSize { denominator: v, ..size }
    } else if seg[0] == 0x76 {
        TextSize { vertical_align: v, ..size }
    } else if seg[0] == 0x68 {
        TextSize { horizontal_align: v, ..size }
    } else {
        size
    }
}

/// The text size after all the parameters of `s`, in order.
pub open spec fn apply_size_params(size: TextSize, s: Seq<u8>) -> TextSize
    decreases s.len(),
{
    let k = sep_index(s);
    proof {
        lemma_sep_index_bounds(s);
    }
    let next = apply_size_param(size, s.take(k));
    if k < s.len() {
        apply_size_params(next, s.skip(k + 1))
    } else {
        next
    }
}

pub open spec fn initial_text_size() -> TextSize {
    TextSize { scale: 1, width: 0, numerator: 0, denominator: 0, vertical_align: 0, horizontal_align: 0 }
}

/// The views of a list of byte strings.
pub open spec fn byte_strings(data: Seq<&[u8]>) -> Seq<Seq<u8>> {
    data.map_values(|d: &[u8]| d@)
}

/// A text-size command (the fields after the `66`) can be decoded: it has
/// parameters and text, and the parameters are UTF-8 that splits cleanly.
pub open spec fn text_size_decodable(data: Seq<Seq<u8>>) -> bool {
    &&& data.len() >= 2
    &&& valid_utf8(data[0])
    &&& params_splittable(data[0])
}

/// The text of a text-size command: its UTF-8, or empty when it is not UTF-8.
pub open spec fn utf8_or_empty(bytes: Seq<u8>) -> Seq<char> {
    if valid_utf8(bytes) { decode_utf8(bytes) } else { Seq::empty() }
}

/// An `OSC` with these fields can be decoded: it has a first field, and if
/// that field is `66` the rest is a decodable text-size command.
pub open spec fn osc_decodable(data: Seq<Seq<u8>>) -> bool {
    data.len() > 0 && parse_i32_spec(data[0]) == Some(66i32) ==> text_size_decodable(data.skip(1))
}

pub proof fn lemma_sep_index(t: Seq<u8>, k: int)
    requires
        0 <= k <= t.len(),
        forall|j: int| 0 <= j < k ==> t[j] != 0x3a,
        k == t.len() || t[k] == 0x3a,
    ensures
        sep_index(t) == k,
    decreases k,
{
    if k > 0 {
        lemma_sep_index(t.drop_first(), k - 1);
    }
}

fn apply_size_param_exec(size: TextSize, s: &[u8], start: usize, end: usize) -> (r: TextSize)
    requires
        start <= end <= s@.len(),
        param_splittable(s@.subrange(start as int, end as int)),
    ensures
        r == apply_size_param(size, s@.subrange(start as int, end as int)),
{
    let ghost seg = s@.subrange(start as int, end as int);
    let mut digits: Vec<u8> = Vec::new();
    let mut i = start + 2;
    while i < end
        invariant
            start + 2 <= i <= end <= s@.len(),
            digits@ == s@.subrange(start + 2, i as int),
        decreases end - i,
    {
        digits.push(s[i]);
        i = i + 1;
    }
    assert(digits@ =~= seg.skip(2));
    let v = match parse_u16(digits.as_slice()) {
        Some(v) => v,
        None => 0,
    };
    let k0 = s[start];
    let k1 = s[start + 1];
    if k1 != 0x3d {
        size
    } else if k0 == 0x73 {
        TextSize { scale: v, ..size }
    } else if k0 == 0x77 {
        TextSize { width: v, ..size }
    } else if k0 == 0x6e {
        TextSize { numerator: v, ..size }
    } else if k0 == 0x64 {
        TextSize { denominator: v, ..size }
    } else if k0 == 0x76 {
        TextSize { vertical_align: v, ..size }
    } else if k0 == 0x68 {
        TextSize { horizontal_align: v, ..size }
    } else {
        size
    }
}

/// Whether the text-size parameters `s` split cleanly into `key=value` pairs.
fn params_splittable_exec(s: &[u8]) -> (b: bool)
    ensures
        b == params_splittable(s@),
{
    let mut start: usize = 0;
    let mut i: usize = 0;
    assert(s@.skip(0) =~= s@);
    while i < s.len()
        invariant
            start <= i <= s@.len(),
            params_splittable(s@) == params_splittable(s@.skip(start as int)),
            forall|j: int| start <= j < i ==> s@[j] != 0x3a,
        decreases s.len() - i,
    {
        if s[i] == 0x3a {
            let ghost t = s@.skip(start as int);
            proof {
                lemma_sep_index(t, i - start);
                assert(t.take(i - start) =~= s@.subrange(start as int, i as int));
                assert(t.skip(i - start + 1) =~= s@.skip(i + 1));
            }
            let len = i - start;
            if len < 2 || (len > 2 && 0x80 <= s[start + 2] && s[start + 2] <= 0xbf) {
                return false;
            }
            start = i + 1;
        }
        i = i + 1;
    }
    let ghost t = s@.skip(start as int);
    proof {
        lemma_sep_index(t, i - start);
        assert(t.take(i - start) =~= s@.subrange(start as int, i as int));
    }
    let len = i - start;
    !(len < 2 || (len > 2 && 0x80 <= s[start + 2] && s[start + 2] <= 0xbf))
}

/// Whether `OSC::parse` can decode these fields (see `osc_decodable`).
pub fn osc_fields_decodable(data: &[&[u8]]) -> (b: bool)
    ensures
        b == osc_decodable(byte_strings(data@)),
{
    if data.len() == 0 {
        return true;
    }
    let tag = parse_i32(data[0]);
    if tag != Some(66i32) {
        return true;
    }
    let ghost rest = byte_strings(data@).skip(1);
    if data.len() < 3 {
        return false;
    }
    assert(rest[0] == data@[1]@);
    match string_from_utf8(data[1]) {
        None => false,
        Some(_) => params_splittable_exec(data[1]),
    }
}

/// The text-size command with fields `data`: its text, and the sizes its
/// parameters set over the defaults (scale 1, everything else 0).
pub open spec fn text_size_result(r: OSC, data: Seq<Seq<u8>>) -> bool {
    r matches OSC::TextSize(t, size)
        && t@ == utf8_or_empty(data[1])
        && size == apply_size_params(initial_text_size(), data[0])
}

/// What `OSC::parse` gives for the fields `data`: the text-size command
/// when the first field reads as the number 66, otherwise `Unknown`.
pub open spec fn osc_parse_result(r: OSC, data: Seq<Seq<u8>>) -> bool {
    if data.len() > 0 && parse_i32_spec(data[0]) == Some(66i32) {
        text_size_result(r, data.skip(1))
    } else {
        r == OSC::Unknown
    }
}

impl OSC {
    /// Decodes an operating system command from its `;`-separated fields.
    /// Only the kitty text-sizing command (`66`) is recognised.
    pub fn parse(data: &[&[u8]]) -> (r: Self)
        requires
            osc_decodable(byte_strings(data@)),
        ensures
            osc_parse_result(r, byte_strings(data@)),
    {
        if data.len() == 0 {
            return OSC::Unknown;
        }
        let tag = match parse_i32(data[0]) {
            Some(tag) => tag,
            None => return OSC::Unknown,
        };
        if tag == 66 {
            let rest = &data[1..data.len()];
            assert(byte_strings(rest@) =~= byte_strings(data@).skip(1));
            Self::parse_text_size(rest)
        } else {
            OSC::Unknown
        }
    }

    // https://sw.kovidgoyal.net/kitty/text-sizing-protocol/
    fn parse_text_size(data: &[&[u8]]) -> (r: Self)
        requires
            text_size_decodable(byte_strings(data@)),
        ensures
            text_size_result(r, byte_strings(data@)),
    {
        let params: &[u8] = data[0];
        let text = match string_from_utf8(data[1]) {
            Some(t) => t,
            None => String::new(),
        };
        let ghost s = params@;
        let ghost init = initial_text_size();
        assert(byte_strings(data@)[0] == s);
        let mut size = TextSize { scale: 1, width: 0, numerator: 0, denominator: 0, vertical_align: 0, horizontal_align: 0 };
        let mut start: usize = 0;
        let mut i: usize = 0;
        assert(s.skip(0) =~= s);
        while i < params.len()
            invariant
                start <= i <= s.len(),
                s == params@,
                apply_size_params(init, s) == apply_size_params(size, s.skip(start as int)),
                params_splittable(s.skip(start as int)),
                forall|j: int| start <= j < i ==> s[j] != 0x3a,
            decreases params.len() - i,
        {
            if params[i] == 0x3a {
                let ghost t = s.skip(start as int);
                proof {
                    lemma_sep_index(t, i - start);
                    assert(t.take(i - start) =~= s.subrange(start as int, i as int));
                    assert(t.skip(i - start + 1) =~= s.skip(i + 1));
                }
                size = apply_size_param_exec(size, params, start, i);
                start = i + 1;
            }
            i = i + 1;
        }
        let ghost t = s.skip(start as int);
        proof {
            lemma_sep_index(t, i - start);
            assert(t.take(i - start) =~= s.subrange(start as int, i as int));
        }
        size = apply_size_param_exec(size, params, start, i);
        OSC::TextSize(text, size)
    }
}

} // verus!
