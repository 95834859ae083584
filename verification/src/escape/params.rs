use vstd::prelude::*;

verus! {

/// One parameter of a control sequence, as the decoder hands it over:
/// a number, or a punctuation byte such as the `;` or `:` between numbers.
#[derive(Debug, PartialEq, Eq, Clone, Copy)]
pub enum CsiParam {
    Integer(i64),
    P(u8),
}

impl CsiParam {
    pub open spec fn spec_as_integer(&self) -> Option<i64> {
        match *self {
            CsiParam::Integer(i) => Some(i),
            CsiParam::P(_) => None,
        }
    }

    /// The number held by the parameter, if it is one.
    #[verifier::when_used_as_spec(spec_as_integer)]
    pub fn as_integer(&self) -> (r: Option<i64>)
        ensures
            r == self.spec_as_integer(),
    {
        match self {
            CsiParam::Integer(i) => Some(*i),
            CsiParam::P(_) => None,
        }
    }
}

} // verus!
