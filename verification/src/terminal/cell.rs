use vstd::prelude::*;
use crate::escape::sgr::{Blink, ColorSpec, Intensity, Underline};
use crate::escape::osc::FinalTermPromptKind;

verus! {

/// Where shell input that started after a prompt ends.
#[derive(Clone, Debug, PartialEq, Eq, Structural, Copy)]
pub enum Until {
    LineEnd,
    SemanticMarker,
}

/// The kind of a shell prompt.
#[derive(Clone, Debug, PartialEq, Eq, Structural, Copy)]
pub enum PromptKind {
    /// A normal left side primary prompt
    Initial,
    /// A right-aligned prompt
    RightSide,
    /// A continuation prompt for an input that can be edited
    Continuation,
    /// A continuation prompt where the input cannot be edited
    Secondary,
}

impl PromptKind {
    pub open spec fn spec_from(prompt_kind: FinalTermPromptKind) -> PromptKind {
        match prompt_kind {
            FinalTermPromptKind::Initial => PromptKind::Initial,
            FinalTermPromptKind::RightSide => PromptKind::RightSide,
            FinalTermPromptKind::Continuation => PromptKind::Continuation,
            FinalTermPromptKind::Secondary => PromptKind::Secondary,
        }
    }

    pub fn from(prompt_kind: FinalTermPromptKind) -> (k: Self)
        ensures
            k == Self::spec_from(prompt_kind),
    {
        match prompt_kind {
            FinalTermPromptKind::Initial => PromptKind::Initial,
            FinalTermPromptKind::RightSide => PromptKind::RightSide,
            FinalTermPromptKind::Continuation => PromptKind::Continuation,
            FinalTermPromptKind::Secondary => PromptKind::Secondary,
        }
    }
}

/// What part of a shell command a cell belongs to.
#[derive(Clone, Debug, PartialEq, Eq, Structural, Copy)]
pub enum SemanticType {
    Output,
    Input(Until),
    Prompt(PromptKind),
}

/// How a cell is drawn.
#[derive(Clone, Debug, PartialEq, Eq, Copy)]
pub struct CellAttributes {
    pub bg: ColorSpec,
    pub fg: ColorSpec,
    pub underline: Underline,
    pub intensity: Intensity,
    pub italic: bool,
    pub strikethrough: bool,
    pub blink: Blink,
    pub underline_fg: ColorSpec,
    pub semantic_type: SemanticType,
}

impl CellAttributes {
    pub open spec fn spec_default() -> CellAttributes {
        CellAttributes {
            bg: ColorSpec::Default,
            fg: ColorSpec::Default,
            underline: Underline::NoUnderline,
            intensity: Intensity::Normal,
            italic: false,
            strikethrough: false,
            blink: Blink::NoBlink,
            underline_fg: ColorSpec::Default,
            semantic_type: SemanticType::Output,
        }
    }

    /// Default colours, normal weight, no decoration, shell output.
    pub fn default() -> (a: CellAttributes)
        ensures
            a == Self::spec_default(),
    {
        CellAttributes {
            bg: ColorSpec::Default,
            fg: ColorSpec::Default,
            underline: Underline::NoUnderline,
            intensity: Intensity::Normal,
            italic: false,
            strikethrough: false,
            blink: Blink::NoBlink,
            underline_fg: ColorSpec::Default,
            semantic_type: SemanticType::Output,
        }
    }

    pub open spec fn spec_classes(&self) -> Seq<char> {
        "cellspan "@ + match self.intensity {
            Intensity::Normal => Seq::<char>::empty(),
            Intensity::Bold => "cell-bold"@,
            Intensity::Half => "cell-dim"@,
        }
    }

    /// The CSS classes of a cell with these attributes.
    pub fn get_classes(&self) -> (s: String)
        ensures
            s@ == self.spec_classes(),
    {
        let mut s = String::new();
        s.append("cellspan ");
        match self.intensity {
            Intensity::Normal => {},
            Intensity::Bold => s.append("cell-bold"),
            Intensity::Half => s.append("cell-dim"),
        }
        assert(s@ =~= self.spec_classes());
        s
    }
}

/// One character cell of the screen.
#[derive(Clone, Debug, PartialEq, Eq, Copy)]
pub struct Cell {
    pub text: char,
    pub attr: CellAttributes,
}

impl Cell {
    pub fn new(text: char, attr: CellAttributes) -> (c: Cell)
        ensures
            c == (Cell { text, attr }),
    {
        Cell { text, attr }
    }

    pub open spec fn spec_default() -> Cell {
        Cell { text: ' ', attr: CellAttributes::spec_default() }
    }

    /// A blank cell.
    pub fn default() -> (c: Cell)
        ensures
            c == Cell::spec_default(),
    {
        Cell { text: ' ', attr: CellAttributes::default() }
    }
}

} // verus!
