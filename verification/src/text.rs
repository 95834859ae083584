//! Text helpers: decimal and hexadecimal rendering, decimal parsing in the
//! way `str::parse` reads integers, and the few `std` string and `char`
//! operations the rest of the crate relies on.

use vstd::prelude::*;
use vstd::utf8::{valid_utf8, decode_utf8};

verus! {

// ---------------------------------------------------------------------
// Digits
// ---------------------------------------------------------------------

pub open spec fn is_digit_byte(b: u8) -> bool {
    0x30 <= b <= 0x39
}

pub open spec fn all_digits(s: Seq<u8>) -> bool {
    forall|i: int| 0 <= i < s.len() ==> #[trigger] is_digit_byte(s[i])
}

/// The value of a string of decimal digits (most significant first).
pub open spec fn digits_value(s: Seq<u8>) -> nat
    decreases s.len(),
{
    if s.len() == 0 {
        0
    } else {
        digits_value(s.drop_last()) * 10 + (s.last() - 0x30) as nat
    }
}

/// How `str::parse` reads an integer from the bytes `s`, before the range
/// check of the target type: an optional `+` (or `-` where `signed`),
/// then one or more decimal digits.
pub open spec fn parse_int_spec(s: Seq<u8>, signed: bool) -> Option<int> {
    if s.len() == 0 {
        None
    } else if s.len() == 1 && (s[0] == 0x2b || s[0] == 0x2d) {
        None
    } else if s[0] == 0x2b {
        if all_digits(s.drop_first()) { Some(digits_value(s.drop_first()) as int) } else { None }
    } else if s[0] == 0x2d && signed {
        if all_digits(s.drop_first()) { Some(-(digits_value(s.drop_first()) as int)) } else { None }
    } else {
        if all_digits(s) { Some(digits_value(s) as int) } else { None }
    }
}

/// `s.parse::<i32>()` on the bytes `s`, as an option.
pub open spec fn parse_i32_spec(s: Seq<u8>) -> Option<i32> {
    match parse_int_spec(s, true) {
        Some(v) => if i32::MIN <= v <= i32::MAX { Some(v as i32) } else { None },
        None => None,
    }
}

/// `s.parse::<u16>()` on the bytes `s`, as an option.
pub open spec fn parse_u16_spec(s: Seq<u8>) -> Option<u16> {
    match parse_int_spec(s, false) {
        Some(v) => if 0 <= v <= u16::MAX { Some(v as u16) } else { None },
        None => None,
    }
}

/// `s.parse::<u32>()` on the bytes `s`, as an option.
pub open spec fn parse_u32_spec(s: Seq<u8>) -> Option<u32> {
    match parse_int_spec(s, false) {
        Some(v) => if 0 <= v <= u32::MAX { Some(v as u32) } else { None },
        None => None,
    }
}

/// `t.parse::<u32>()` on the text `t`: a number is written in ASCII, so
/// text holding anything else does not read as one.
pub open spec fn parse_u32_text(t: Seq<char>) -> Option<u32> {
    if all_ascii(t) { parse_u32_spec(t.map_values(|c: char| c as u8)) } else { None }
}

proof fn lemma_digits_value_prefix_monotone(s: Seq<u8>, j: int, k: int)
    requires
        0 <= j <= k <= s.len(),
        all_digits(s),
    ensures
        digits_value(s.subrange(0, j)) <= digits_value(s.subrange(0, k)),
    decreases k - j,
{
    if j < k {
        lemma_digits_value_prefix_monotone(s, j, k - 1);
        assert(s.subrange(0, k).drop_last() =~= s.subrange(0, k - 1));
        assert(is_digit_byte(s[k - 1]));
    }
}

/// Reads the digits `s[start..]` as a number no greater than `bound`;
/// `None` when a byte is not a digit or the value exceeds `bound`.
fn digits_bounded(s: &[u8], start: usize, bound: u64) -> (r: Option<u64>)
    requires
        start <= s@.len(),
        bound <= u32::MAX,
    ensures
        match r {
            Some(v) => all_digits(s@.subrange(start as int, s@.len() as int))
                && v == digits_value(s@.subrange(start as int, s@.len() as int))
                && v <= bound,
            None => !all_digits(s@.subrange(start as int, s@.len() as int))
                || digits_value(s@.subrange(start as int, s@.len() as int)) > bound,
        },
{
    let ghost d = s@.subrange(start as int, s@.len() as int);
    let mut acc: u64 = 0;
    let mut i = start;
    while i < s.len()
        invariant
            start <= i <= s@.len(),
            d == s@.subrange(start as int, s@.len() as int),
            all_digits(d.subrange(0, i - start)),
            acc == digits_value(d.subrange(0, i - start)),
            acc <= bound,
            bound <= u32::MAX,
        decreases s.len() - i,
    {
        let b = s[i];
        if b < 0x30 || b > 0x39 {
            assert(!is_digit_byte(d[i - start]));
            return None;
        }
        assert(d.subrange(0, i + 1 - start).drop_last() =~= d.subrange(0, i - start));
        assert(all_digits(d.subrange(0, i + 1 - start)));
        acc = acc * 10 + (b - 0x30) as u64;
        i = i + 1;
        if acc > bound {
            proof {
                if all_digits(d) {
                    lemma_digits_value_prefix_monotone(d, i - start, d.len() as int);
                    assert(d.subrange(0, d.len() as int) =~= d);
                }
            }
            return None;
        }
    }
    assert(d.subrange(0, i - start) =~= d);
    Some(acc)
}

/// `s.parse::<i32>().ok()` for the bytes `s`.
pub fn parse_i32(s: &[u8]) -> (r: Option<i32>)
    ensures
        r == parse_i32_spec(s@),
{
    if s.len() == 0 {
        return None;
    }
    if s.len() == 1 && (s[0] == 0x2b || s[0] == 0x2d) {
        return None;
    }
    if s[0] == 0x2b {
        assert(s@.subrange(1, s@.len() as int) =~= s@.drop_first());
        match digits_bounded(s, 1, 0x7fff_ffff) {
            Some(v) => Some(v as i32),
            None => None,
        }
    } else if s[0] == 0x2d {
        assert(s@.subrange(1, s@.len() as int) =~= s@.drop_first());
        match digits_bounded(s, 1, 0x8000_0000) {
            Some(v) => {
                if v == 0x8000_0000 {
                    Some(i32::MIN)
                } else {
                    Some(-(v as i32))
                }
            },
            None => None,
        }
    } else {
        assert(s@.subrange(0, s@.len() as int) =~= s@);
        match digits_bounded(s, 0, 0x7fff_ffff) {
            Some(v) => Some(v as i32),
            None => None,
        }
    }
}

/// `s.parse::<u16>().ok()` for the bytes `s`.
pub fn parse_u16(s: &[u8]) -> (r: Option<u16>)
    ensures
        r == parse_u16_spec(s@),
{
    if s.len() == 0 {
        return None;
    }
    if s.len() == 1 && (s[0] == 0x2b || s[0] == 0x2d) {
        return None;
    }
    if s[0] == 0x2b {
        assert(s@.subrange(1, s@.len() as int) =~= s@.drop_first());
        match digits_bounded(s, 1, 0xffff) {
            Some(v) => Some(v as u16),
            None => None,
        }
    } else {
        assert(s@.subrange(0, s@.len() as int) =~= s@);
        match digits_bounded(s, 0, 0xffff) {
            Some(v) => Some(v as u16),
            None => None,
        }
    }
}

/// `s.parse::<u32>().ok()` for the bytes `s`.
pub fn parse_u32(s: &[u8]) -> (r: Option<u32>)
    ensures
        r == parse_u32_spec(s@),
{
    if s.len() == 0 {
        return None;
    }
    if s.len() == 1 && (s[0] == 0x2b || s[0] == 0x2d) {
        return None;
    }
    if s[0] == 0x2b {
        assert(s@.subrange(1, s@.len() as int) =~= s@.drop_first());
        match digits_bounded(s, 1, 0xffff_ffff) {
            Some(v) => Some(v as u32),
            None => None,
        }
    } else {
        assert(s@.subrange(0, s@.len() as int) =~= s@);
        match digits_bounded(s, 0, 0xffff_ffff) {
            Some(v) => Some(v as u32),
            None => None,
        }
    }
}

/// `t.parse::<u32>().ok()` for the text `t`.
pub fn parse_u32_str(t: &str) -> (r: Option<u32>)
    ensures
        r == parse_u32_text(t@),
{
    let n = t.unicode_len();
    let mut bytes: Vec<u8> = Vec::new();
    let mut i: usize = 0;
    while i < n
        invariant
            i <= n,
            n == t@.len(),
            all_ascii(t@.take(i as int)),
            bytes@ == t@.take(i as int).map_values(|c: char| c as u8),
        decreases n - i,
    {
        let c = t.get_char(i);
        if (c as u32) >= 128 {
            assert(!is_ascii_char(t@[i as int]));
            return None;
        }
        bytes.push(c as u8);
        assert(t@.take(i + 1) =~= t@.take(i as int).push(c));
        assert(bytes@ =~= t@.take(i + 1).map_values(|c: char| c as u8));
        i = i + 1;
    }
    assert(t@.take(n as int) =~= t@);
    parse_u32(bytes.as_slice())
}

/// `s` split at every `sep`, as `str::split` splits it.
pub open spec fn split_on(s: Seq<char>, sep: char) -> Seq<Seq<char>>
    decreases s.len(),
{
    if s.len() == 0 {
        seq![Seq::empty()]
    } else {
        let rest = split_on(s.drop_last(), sep);
        if s.last() == sep {
            rest.push(Seq::empty())
        } else {
            rest.update(rest.len() - 1, rest.last().push(s.last()))
        }
    }
}

proof fn lemma_split_on_len(s: Seq<char>, sep: char)
    ensures
        split_on(s, sep).len() >= 1,
    decreases s.len(),
{
    if s.len() > 0 {
        lemma_split_on_len(s.drop_last(), sep);
    }
}

/// `s.split(sep)`, each part copied.
pub fn split_str(s: &str, sep: char) -> (parts: Vec<String>)
    ensures
        parts@.map_values(|p: String| p@) == split_on(s@, sep),
{
    let n = s.unicode_len();
    let mut parts: Vec<String> = Vec::new();
    let mut cur = String::new();
    let mut i: usize = 0;
    assert(s@.take(0) =~= Seq::<char>::empty());
    assert(parts@.map_values(|p: String| p@).push(cur@) =~= split_on(s@.take(0), sep));
    while i < n
        invariant
            i <= n,
            n == s@.len(),
            parts@.map_values(|p: String| p@).push(cur@) == split_on(s@.take(i as int), sep),
        decreases n - i,
    {
        let c = s.get_char(i);
        let ghost before = parts@.map_values(|p: String| p@).push(cur@);
        assert(s@.take(i + 1).drop_last() =~= s@.take(i as int));
        assert(s@.take(i + 1).last() == c);
        proof {
            lemma_split_on_len(s@.take(i as int), sep);
        }
        if c == sep {
            let done = cur;
            parts.push(done);
            cur = String::new();
            assert(parts@.map_values(|p: String| p@).push(cur@) =~= before.push(Seq::empty()));
        } else {
            push_char(&mut cur, c);
            assert(parts@.map_values(|p: String| p@).push(cur@) =~= before.update(before.len() - 1, before.last().push(c)));
        }
        i = i + 1;
    }
    assert(s@.take(n as int) =~= s@);
    let ghost before = parts@.map_values(|p: String| p@).push(cur@);
    parts.push(cur);
    assert(parts@.map_values(|p: String| p@) =~= before);
    parts
}

// ---------------------------------------------------------------------
// Rendering numbers
// ---------------------------------------------------------------------

/// The character of a digit below sixteen, lower-case for ten and above.
pub open spec fn digit_char(d: nat) -> char {
    if d < 10 { ((d + 0x30) as u32) as char } else { ((d - 10 + 0x61) as u32) as char }
}

/// `format!("{:x}", v)`: lower-case hexadecimal, no leading zeros.
pub open spec fn hex_string(v: nat) -> Seq<char>
    decreases v,
{
    if v < 16 {
        seq![digit_char(v)]
    } else {
        hex_string(v / 16).push(digit_char(v % 16))
    }
}

/// `format!("{}", v)`: decimal, no leading zeros.
pub open spec fn dec_string(v: nat) -> Seq<char>
    decreases v,
{
    if v < 10 {
        seq![digit_char(v)]
    } else {
        dec_string(v / 10).push(digit_char(v % 10))
    }
}

fn digit_to_char(d: u8) -> (c: char)
    requires
        d < 16,
    ensures
        c == digit_char(d as nat),
{
    if d < 10 {
        (d + 0x30) as char
    } else {
        (d - 10 + 0x61) as char
    }
}

/// Appends `format!("{:x}", v)` to `s`.
pub fn push_hex(s: &mut String, v: u64)
    ensures
        final(s)@ == old(s)@ + hex_string(v as nat),
    decreases v,
{
    if v >= 16 {
        push_hex(s, v / 16);
    }
    let c = digit_to_char((v % 16) as u8);
    push_char(s, c);
}

/// Appends `format!("{}", v)` to `s`.
pub fn push_decimal(s: &mut String, v: u64)
    ensures
        final(s)@ == old(s)@ + dec_string(v as nat),
    decreases v,
{
    if v >= 10 {
        push_decimal(s, v / 10);
    }
    let c = digit_to_char((v % 10) as u8);
    push_char(s, c);
}

// ---------------------------------------------------------------------
// std string operations
// ---------------------------------------------------------------------

/// `String::from_utf8(bytes.to_vec()).ok()`: the text the bytes encode,
/// when they are valid UTF-8.
#[verifier::external_body]
pub(crate) fn string_from_utf8(bytes: &[u8]) -> (r: Option<String>)
    ensures
        r is Some <==> valid_utf8(bytes@),
        r matches Some(s) ==> s@ == decode_utf8(bytes@),
{
    String::from_utf8(bytes.to_vec()).ok()
}

pub open spec fn is_ascii_char(c: char) -> bool {
    (c as u32) < 128
}

// Beyond ASCII the Unicode properties and case mappings are those of the
// Unicode tables that `std` carries; they are named here, not spelled out.

/// Whether a non-ASCII character has the Unicode `Uppercase` property.
pub uninterp spec fn non_ascii_is_uppercase(c: char) -> bool;

/// The first character of the Unicode upper-case mapping of a non-ASCII character.
pub uninterp spec fn non_ascii_upper_first(c: char) -> char;

/// The Unicode lower-case mapping of a string that is not all ASCII.
pub uninterp spec fn non_ascii_lowercase(s: Seq<char>) -> Seq<char>;

/// `char::is_uppercase`: among ASCII characters, exactly `A` to `Z`.
pub open spec fn is_upper(c: char) -> bool {
    if is_ascii_char(c) { 'A' <= c <= 'Z' } else { non_ascii_is_uppercase(c) }
}

/// `char::is_whitespace`: the characters with the Unicode `White_Space`
/// property. Among ASCII characters they are tab, line feed, vertical tab,
/// form feed, carriage return and space; beyond ASCII, next line, no-break
/// space, ogham space mark, the spaces from en quad to hair space, line and
/// paragraph separator, narrow no-break space, medium mathematical space and
/// ideographic space.
pub open spec fn is_white(c: char) -> bool {
    let n = c as u32;
    ||| 0x09 <= n <= 0x0d || n == 0x20
    ||| n == 0x85 || n == 0xa0 || n == 0x1680
    ||| 0x2000 <= n <= 0x200a || n == 0x2028 || n == 0x2029 || n == 0x202f || n == 0x205f || n == 0x3000
}

pub open spec fn ascii_upper(c: char) -> char {
    if 'a' <= c <= 'z' { ((c as u32) - 32) as char } else { c }
}

pub open spec fn ascii_lower(c: char) -> char {
    if 'A' <= c <= 'Z' { ((c as u32) + 32) as char } else { c }
}

/// The first character of `c.to_uppercase()`.
pub open spec fn upper_first(c: char) -> char {
    if is_ascii_char(c) { ascii_upper(c) } else { non_ascii_upper_first(c) }
}

pub open spec fn all_ascii(s: Seq<char>) -> bool {
    forall|i: int| 0 <= i < s.len() ==> #[trigger] is_ascii_char(s[i])
}

/// `str::to_lowercase`: on ASCII text, each letter lowered.
pub open spec fn lowercase(s: Seq<char>) -> Seq<char> {
    if all_ascii(s) { s.map_values(|c: char| ascii_lower(c)) } else { non_ascii_lowercase(s) }
}

/// `char::is_uppercase`.
#[verifier::external_body]
pub(crate) fn char_is_uppercase(c: char) -> (b: bool)
    ensures
        is_ascii_char(c) ==> b == ('A' <= c <= 'Z'),
        !is_ascii_char(c) ==> b == non_ascii_is_uppercase(c),
{
    c.is_uppercase()
}

/// Whether `c` is white space, as `char::is_whitespace` answers.
pub fn char_is_whitespace(c: char) -> (b: bool)
    ensures
        b == is_white(c),
{
    let n = c as u32;
    (0x09 <= n && n <= 0x0d) || n == 0x20 || n == 0x85 || n == 0xa0 || n == 0x1680
        || (0x2000 <= n && n <= 0x200a) || n == 0x2028 || n == 0x2029 || n == 0x202f
        || n == 0x205f || n == 0x3000
}

/// `c.to_uppercase().next().unwrap()`: the mapping always has a first character.
#[verifier::external_body]
pub(crate) fn char_upper_first(c: char) -> (u: char)
    ensures
        is_ascii_char(c) ==> u == ascii_upper(c),
        !is_ascii_char(c) ==> u == non_ascii_upper_first(c),
{
    c.to_uppercase().next().unwrap()
}

/// `str::to_lowercase`.
#[verifier::external_body]
pub(crate) fn str_to_lowercase(s: &str) -> (r: String)
    ensures
        all_ascii(s@) ==> r@ == s@.map_values(|c: char| ascii_lower(c)),
        !all_ascii(s@) ==> r@ == non_ascii_lowercase(s@),
{
    s.to_lowercase()
}

/// `s` without leading white space.
pub open spec fn trim_start(s: Seq<char>) -> Seq<char>
    decreases s.len(),
{
    if s.len() > 0 && is_white(s[0]) { trim_start(s.drop_first()) } else { s }
}

/// `s` without trailing white space.
pub open spec fn trim_end(s: Seq<char>) -> Seq<char>
    decreases s.len(),
{
    if s.len() > 0 && is_white(s.last()) { trim_end(s.drop_last()) } else { s }
}

/// `str::trim`.
pub open spec fn trimmed(s: Seq<char>) -> Seq<char> {
    trim_end(trim_start(s))
}

proof fn lemma_trim_start(s: Seq<char>, i: int)
    requires
        0 <= i <= s.len(),
        forall|j: int| 0 <= j < i ==> is_white(#[trigger] s[j]),
    ensures
        trim_start(s) == trim_start(s.skip(i)),
    decreases i,
{
    if i > 0 {
        assert(is_white(s[0]));
        assert forall|j: int| 0 <= j < i - 1 implies is_white(#[trigger] s.drop_first()[j]) by {
            assert(s.drop_first()[j] == s[j + 1]);
        }
        lemma_trim_start(s.drop_first(), i - 1);
        assert(s.drop_first().skip(i - 1) =~= s.skip(i));
    } else {
        assert(s.skip(0) =~= s);
    }
}

proof fn lemma_trim_end(s: Seq<char>, j: int)
    requires
        0 <= j <= s.len(),
        forall|k: int| j <= k < s.len() ==> is_white(#[trigger] s[k]),
    ensures
        trim_end(s) == trim_end(s.take(j)),
    decreases s.len() - j,
{
    if j < s.len() {
        assert(is_white(s.last()));
        assert forall|k: int| j <= k < s.len() - 1 implies is_white(#[trigger] s.drop_last()[k]) by {
            assert(s.drop_last()[k] == s[k]);
        }
        lemma_trim_end(s.drop_last(), j);
        assert(s.drop_last().take(j) =~= s.take(j));
    } else {
        assert(s.take(j) =~= s);
    }
}

/// `str::trim`: `s` without leading and trailing white space.
pub fn trim(s: &str) -> (r: &str)
    ensures
        r@ == trimmed(s@),
{
    let n = s.unicode_len();
    let mut i: usize = 0;
    while i < n && char_is_whitespace(s.get_char(i))
        invariant
            i <= n,
            n == s@.len(),
            forall|j: int| 0 <= j < i ==> is_white(#[trigger] s@[j]),
        decreases n - i,
    {
        i = i + 1;
    }
    proof {
        lemma_trim_start(s@, i as int);
    }
    let ghost t = s@.skip(i as int);
    assert(i < n ==> !is_white(t[0]));
    let mut j: usize = n;
    while j > i && char_is_whitespace(s.get_char(j - 1))
        invariant
            i <= j <= n,
            n == s@.len(),
            forall|k: int| j <= k < n ==> is_white(#[trigger] s@[k]),
        decreases j,
    {
        j = j - 1;
    }
    proof {
        assert(trim_start(s@) == t);
        assert(t.len() > 0 ==> !is_white(t[0]));
        assert(trim_start(t) == t);
        assert forall|k: int| j - i <= k < t.len() implies is_white(#[trigger] t[k]) by {
            assert(t[k] == s@[k + i]);
        }
        lemma_trim_end(t, j - i);
        assert(t.take(j - i) =~= s@.subrange(i as int, j as int));
        let u = s@.subrange(i as int, j as int);
        if u.len() > 0 {
            assert(u.last() == s@[j - 1]);
        }
    }
    s.substring_char(i, j)
}

/// Whether two strings hold the same characters.
pub fn str_equal(a: &str, b: &str) -> (r: bool)
    ensures
        r == (a@ == b@),
{
    let n = a.unicode_len();
    if n != b.unicode_len() {
        return false;
    }
    let mut i: usize = 0;
    while i < n
        invariant
            i <= n,
            n == a@.len(),
            n == b@.len(),
            forall|j: int| 0 <= j < i ==> a@[j] == b@[j],
        decreases n - i,
    {
        if a.get_char(i) != b.get_char(i) {
            return false;
        }
        i = i + 1;
    }
    assert(a@ =~= b@);
    true
}

/// Whether `s` begins with `prefix`.
pub fn str_starts_with(s: &str, prefix: &str) -> (r: bool)
    ensures
        r == prefix@.is_prefix_of(s@),
{
    let n = prefix.unicode_len();
    if n > s.unicode_len() {
        return false;
    }
    let mut i: usize = 0;
    while i < n
        invariant
            i <= n,
            n == prefix@.len(),
            n <= s@.len(),
            forall|j: int| 0 <= j < i ==> prefix@[j] == s@[j],
        decreases n - i,
    {
        if prefix.get_char(i) != s.get_char(i) {
            return false;
        }
        i = i + 1;
    }
    assert(prefix@ =~= s@.subrange(0, n as int));
    true
}

/// `String::push`: appends one character.
#[verifier::external_body]
pub(crate) fn push_char(s: &mut String, c: char)
    ensures
        final(s)@ == old(s)@.push(c),
{
    s.push(c);
}

} // verus!
