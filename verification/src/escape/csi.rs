use vstd::prelude::*;
use crate::escape::params::CsiParam;
use crate::escape::sgr::{Sgr, spec_sgr_parse, sgr_readable_from};

verus! {

/// A control sequence (`CSI ...`), decoded.
#[derive(Debug, PartialEq, Clone)]
pub enum CSI {
    Sgr(Sgr),
    Mode(Mode),
    Cursor(Cursor),
    Edit(Edit),
    Keyboard(Keyboard),
    Mouse,
    SelectCharacterPath(String, String),
    Unspecified(Box<Unspecified>),
}

#[derive(Debug, PartialEq, Eq, Clone, Copy)]
pub enum Cursor {
    Left(u32),
    Down(u32),
    Right(u32),
    Up(u32),
    PrecedingLine(u32),
    NextLine(u32),
    Position { line: u32, col: u32 },
    HorizontalPosition(u32),
    CursorStyle(CursorStyle),
}

#[derive(Debug, PartialEq, Eq, Clone, Copy)]
pub enum Edit {
    EraseInLine(EraseInLine),
    EraseInDisplay(EraseInDisplay),
    EraseCharacter(u32),
}

#[derive(Debug, PartialEq, Eq, Clone, Copy)]
pub enum EraseInDisplay {
    EraseDisplay,
}

#[derive(Debug, PartialEq, Eq, Clone, Copy)]
pub enum EraseInLine {
    EraseLine,
    EraseToEnd,
    EraseToStart,
}

/// A control sequence that is not decoded further.
#[derive(Debug, PartialEq, Clone)]
pub struct Unspecified {
    pub control: char,
    pub params: Vec<CsiParam>,
    pub parameters_truncated: bool,
}

#[derive(Debug, PartialEq, Clone)]
pub enum DecPrivateMode {
    Code(usize),
    Unspecified(String),
}

#[derive(Debug, PartialEq, Eq, Clone, Copy)]
pub enum Keyboard {
    SetKittyState { flags: u16, mode: KittyKeyboardMode },
    PushKittyState { flags: u16, mode: KittyKeyboardMode },
    PopKittyState(u16),
    QueryKittySupport,
    ReportKittyState(u16),
}

#[derive(Debug, PartialEq, Eq, Clone, Copy)]
pub enum KittyKeyboardMode {
    AssignAll,
    SetSpecified,
    ClearSpecified,
}

#[derive(Debug, PartialEq, Clone)]
pub enum Mode {
    SetDecPrivateMode(u16),
    ResetDecPrivateMode(u16),
    SaveDecPrivateMode(u16),
    RestoreDecPrivateMode(u16),
    QueryDecPrivateMode(u16),
    QueryMode(String),
}

#[derive(Debug, PartialEq, Eq, Clone, Copy)]
pub enum CursorStyle {
    Default,
}

/// The number a parameter gives, or 1 when it is absent or not a number,
/// truncated to 32 bits.
pub open spec fn param_or_one(params: Seq<CsiParam>, i: int) -> u32 {
    if 0 <= i < params.len() {
        match params[i] {
            CsiParam::Integer(v) => v as u32,
            CsiParam::P(_) => 1i64 as u32,
        }
    } else {
        1i64 as u32
    }
}

/// The cursor movement of `CSI params A` ... `CSI params H`.
pub open spec fn spec_cursor(params: Seq<CsiParam>, control: u8) -> Cursor {
    let param = param_or_one(params, 0);
    if control == 0x41 {
        Cursor::Up(param)
    } else if control == 0x42 {
        Cursor::Down(param)
    } else if control == 0x43 {
        Cursor::Right(param)
    } else if control == 0x44 {
        Cursor::Left(param)
    } else if control == 0x45 {
        Cursor::NextLine(param)
    } else if control == 0x46 {
        Cursor::PrecedingLine(param)
    } else if control == 0x47 {
        Cursor::HorizontalPosition(param)
    } else {
        Cursor::Position { line: param, col: param_or_one(params, 2) }
    }
}

/// `CSI::parse` can decode these parameters (only `SGR` can fail, on a
/// truncated extended colour).
pub open spec fn csi_readable(params: Seq<CsiParam>, control: u8) -> bool {
    control == 0x6d ==> sgr_readable_from(params, 0)
}

/// Whether `CSI::parse` can decode a sequence with these parameters and final byte.
pub fn csi_decodable(params: &[CsiParam], control: u8) -> (b: bool)
    ensures
        b == csi_readable(params@, control),
{
    if control == 0x6d {
        crate::escape::sgr::sgr_params_readable(params)
    } else {
        true
    }
}

/// What `CSI::parse` gives: for `m` the `SGR` attributes, for `A` to `H`
/// one cursor movement, otherwise one `Unspecified` holding the sequence.
pub open spec fn csi_parse_result(r: Seq<CSI>, params: Seq<CsiParam>, parameters_truncated: bool, control: u8) -> bool {
    if control == 0x6d {
        &&& r.len() == spec_sgr_parse(params).len()
        &&& forall|i: int| 0 <= i < r.len() ==> #[trigger] r[i] == CSI::Sgr(spec_sgr_parse(params)[i])
    } else if 0x41 <= control <= 0x48 {
        r == seq![CSI::Cursor(spec_cursor(params, control))]
    } else {
        &&& r.len() == 1
        &&& r[0] is Unspecified
        &&& r[0]->Unspecified_0.control == control as char
        &&& r[0]->Unspecified_0.params@ == params
        &&& r[0]->Unspecified_0.parameters_truncated == parameters_truncated
    }
}

fn param_or_one_exec(params: &[CsiParam], i: usize) -> (v: u32)
    ensures
        v == param_or_one(params@, i as int),
{
    if i < params.len() {
        match params[i] {
            CsiParam::Integer(v) => #[verifier::truncate] (v as u32),
            CsiParam::P(_) => 1,
        }
    } else {
        1
    }
}

impl CSI {
    /// Decodes a control sequence from its parameters and its final byte:
    /// `m` gives the `SGR` attributes, `A` to `H` a cursor movement, anything
    /// else the raw sequence.
    pub fn parse(params: &[CsiParam], parameters_truncated: bool, control: u8) -> (r: Vec<Self>)
        requires
            csi_readable(params@, control),
        ensures
            csi_parse_result(r@, params@, parameters_truncated, control),
    {
        if control == 0x6d {
            // b'm'
            let sgrs = Sgr::parse(params, parameters_truncated);
            let mut out: Vec<CSI> = Vec::new();
            let mut i: usize = 0;
            while i < sgrs.len()
                invariant
                    i <= sgrs@.len(),
                    sgrs@ == spec_sgr_parse(params@),
                    out@.len() == i,
                    forall|j: int| 0 <= j < i ==> #[trigger] out@[j] == CSI::Sgr(sgrs@[j]),
                decreases sgrs.len() - i,
            {
                out.push(CSI::Sgr(sgrs[i]));
                i = i + 1;
            }
            out
        } else if 0x41 <= control && control <= 0x48 {
            // b'A'..=b'H'
            let param = param_or_one_exec(params, 0);
            let cursor = if control == 0x41 {
                Cursor::Up(param)
            } else if control == 0x42 {
                Cursor::Down(param)
            } else if control == 0x43 {
                Cursor::Right(param)
            } else if control == 0x44 {
                Cursor::Left(param)
            } else if control == 0x45 {
                Cursor::NextLine(param)
            } else if control == 0x46 {
                Cursor::PrecedingLine(param)
            } else if control == 0x47 {
                Cursor::HorizontalPosition(param)
            } else {
                Cursor::Position { line: param, col: param_or_one_exec(params, 2) }
            };
            let r = vec![CSI::Cursor(cursor)];
            assert(r@ =~= seq![CSI::Cursor(spec_cursor(params@, control))]);
            r
        } else {
            let mut copied: Vec<CsiParam> = Vec::new();
            let mut i: usize = 0;
            while i < params.len()
                invariant
                    i <= params@.len(),
                    copied@ == params@.subrange(0, i as int),
                decreases params.len() - i,
            {
                copied.push(params[i]);
                i = i + 1;
            }
            assert(copied@ =~= params@);
            let r = vec![CSI::Unspecified(Box::new(Unspecified {
                params: copied,
                parameters_truncated,
                control: control as char,
            }))];
            assert(r@.len() == 1);
            r
        }
    }
}

/// `CSI line ; col H` moves the cursor to a position given from one: the
/// line is the first parameter and the column the third (after the `;`),
/// each cut to 32 bits, and each is 1 where that parameter is absent or not
/// a number. The column never depends on the line.
pub proof fn law_cursor_position_params(r: Seq<CSI>, params: Seq<CsiParam>, truncated: bool)
    requires
        csi_parse_result(r, params, truncated, 0x48),
    ensures
        r.len() == 1,
        r[0] matches CSI::Cursor(Cursor::Position { line, col }) && {
            &&& (params.len() > 0 && params[0] is Integer) ==> line == params[0]->Integer_0 as u32
            &&& !(params.len() > 0 && params[0] is Integer) ==> line == 1
            &&& (params.len() > 2 && params[2] is Integer) ==> col == params[2]->Integer_0 as u32
            &&& !(params.len() > 2 && params[2] is Integer) ==> col == 1
        },
{
}

/// `CSI n A` to `CSI n G` give one movement by `n`, the first parameter cut
/// to 32 bits, or by 1 where it is absent or not a number: up, down, right,
/// left, to the next line, to the preceding line, and to a column.
pub proof fn law_cursor_moves_params(r: Seq<CSI>, params: Seq<CsiParam>, truncated: bool, control: u8)
    requires
        0x41 <= control <= 0x47,
        csi_parse_result(r, params, truncated, control),
    ensures
        r.len() == 1,
        ({
            let n: u32 = if params.len() > 0 && params[0] is Integer { params[0]->Integer_0 as u32 } else { 1 };
            &&& control == 0x41 ==> r[0] == CSI::Cursor(Cursor::Up(n))
            &&& control == 0x42 ==> r[0] == CSI::Cursor(Cursor::Down(n))
            &&& control == 0x43 ==> r[0] == CSI::Cursor(Cursor::Right(n))
            &&& control == 0x44 ==> r[0] == CSI::Cursor(Cursor::Left(n))
            &&& control == 0x45 ==> r[0] == CSI::Cursor(Cursor::NextLine(n))
            &&& control == 0x46 ==> r[0] == CSI::Cursor(Cursor::PrecedingLine(n))
            &&& control == 0x47 ==> r[0] == CSI::Cursor(Cursor::HorizontalPosition(n))
        }),
{
}

/// A control sequence with a final byte other than `m` and `A` to `H` is
/// kept as one undecoded sequence holding its parameters, whether they were
/// cut short, and its final byte.
pub proof fn law_other_sequences_kept(r: Seq<CSI>, params: Seq<CsiParam>, truncated: bool, control: u8)
    requires
        control != 0x6d,
        !(0x41 <= control <= 0x48),
        csi_parse_result(r, params, truncated, control),
    ensures
        r.len() == 1,
        r[0] matches CSI::Unspecified(u) && u.params@ == params && u.parameters_truncated == truncated
            && u.control == control as char,
{
}

/// An `SGR` sequence decodes to one attribute change per attribute its
/// parameters set, in order.
pub proof fn law_sgr_sequences(r: Seq<CSI>, params: Seq<CsiParam>, truncated: bool)
    requires
        csi_parse_result(r, params, truncated, 0x6d),
    ensures
        r.len() == spec_sgr_parse(params).len(),
        forall|i: int| 0 <= i < r.len() ==> r[i] == CSI::Sgr(#[trigger] spec_sgr_parse(params)[i]),
{
}

} // verus!
