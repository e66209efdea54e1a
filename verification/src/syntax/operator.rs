//! Operator-related data shared by the lexer and the expression parser.

use vstd::prelude::*;

verus! {

/// What happens to an operator section when the operator's left operand is left out.
#[derive(Clone, Copy, Debug, PartialEq, Eq, Structural, PartialOrd, Ord, Hash)]
pub enum SectionTermination {
    /// The section becomes a function of the missing operand.
    Reify,
    /// The section is taken apart, and its right operand stands for the whole.
    Unwrap,
}

impl Default for SectionTermination {
    fn default() -> (r: Self)
        ensures
            r == SectionTermination::Reify,
    {
        SectionTermination::Reify
    }
}

} // verus!
