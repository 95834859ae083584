use vstd::prelude::*;

verus! {

/// An `ESC` sequence: either one that is understood, or the raw bytes.
#[derive(Debug, PartialEq, Eq, Clone, Copy)]
pub enum Esc {
    Code(EscCode),
    Unspecified { intermediate: Option<u8>, control: u8 },
}

#[derive(Debug, PartialEq, Eq, Clone, Copy)]
pub enum EscCode {
    SelectCharacterSet(u8),
    DecDoubleWidthLine,
    DecDoubleHeightTopHalfLine,
    DecDoubleHeightBottomHalfLine,
    DecNormalKeyPad,
    DecApplicationKeyPad,
    AsciiCharacterSetG0,
}

/// What an `ESC` sequence with the given intermediate and final byte means.
pub open spec fn spec_esc(intermediate: Option<u8>, control: u8) -> Esc {
    if intermediate == Some(0x28u8) {
        Esc::Code(EscCode::SelectCharacterSet(control))
    } else {
        Esc::Unspecified { intermediate, control }
    }
}

impl Esc {
    /// Decodes an `ESC` sequence from its first intermediate byte and its final byte.
    /// Only `ESC ( c` (select character set) is recognised.
    pub fn parse(intermediate: Option<u8>, control: u8) -> (r: Self)
        ensures
            r == spec_esc(intermediate, control),
    {
        if let Some(inter) = intermediate {
            if inter == 0x28 {
                // b'('
                return Esc::Code(EscCode::SelectCharacterSet(control));
            }
        }
        Esc::Unspecified { intermediate, control }
    }
}

} // verus!
